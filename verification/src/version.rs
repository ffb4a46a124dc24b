use vstd::prelude::*;
use vstd::string::*;

verus! {

/// The parts of `s` between dots, as `str::split('.')` yields them (an
/// empty text has one empty part).
pub open spec fn split_dots(s: Seq<char>) -> Seq<Seq<char>>
    decreases s.len(),
{
    if s.len() == 0 {
        seq![Seq::empty()]
    } else {
        let parts = split_dots(s.drop_last());
        if s.last() == '.' {
            parts.push(Seq::empty())
        } else {
            parts.update(parts.len() - 1, parts.last().push(s.last()))
        }
    }
}

/// The parts joined with dots between them.
pub open spec fn join_dots(parts: Seq<Seq<char>>) -> Seq<char>
    decreases parts.len(),
{
    if parts.len() == 0 {
        Seq::empty()
    } else if parts.len() == 1 {
        parts[0]
    } else {
        join_dots(parts.drop_last()).push('.') + parts.last()
    }
}

/// Exactly four parts: missing ones are `0`, extra ones are dropped.
pub open spec fn four_parts(parts: Seq<Seq<char>>) -> Seq<Seq<char>> {
    if parts.len() < 4 {
        parts + Seq::new((4 - parts.len()) as nat, |i: int| seq!['0'])
    } else {
        parts.take(4)
    }
}

/// A version number with exactly four dot-separated components.
pub open spec fn version4_text(input: Seq<char>) -> Seq<char> {
    join_dots(four_parts(split_dots(input)))
}

/// At most the first four parts.
pub open spec fn first_four(parts: Seq<Seq<char>>) -> Seq<Seq<char>> {
    if parts.len() <= 4 {
        parts
    } else {
        parts.take(4)
    }
}

proof fn lemma_split_dots_nonempty(s: Seq<char>)
    ensures
        split_dots(s).len() >= 1,
    decreases s.len(),
{
    if s.len() > 0 {
        lemma_split_dots_nonempty(s.drop_last());
    }
}

proof fn lemma_join_extend_last(parts: Seq<Seq<char>>, c: char)
    requires
        parts.len() >= 1,
    ensures
        join_dots(parts.update(parts.len() - 1, parts.last().push(c))) == join_dots(parts).push(c),
{
    let q = parts.update(parts.len() - 1, parts.last().push(c));
    if parts.len() > 1 {
        assert(q.drop_last() =~= parts.drop_last());
    }
}

proof fn lemma_join_push(parts: Seq<Seq<char>>, x: Seq<char>)
    requires
        parts.len() >= 1,
    ensures
        join_dots(parts.push(x)) == join_dots(parts).push('.') + x,
{
    assert(parts.push(x).drop_last() =~= parts);
}

/// Pads or cuts a version number to exactly four dot-separated components
/// (`1.2` becomes `1.2.0.0`, `1.2.3.4.5` becomes `1.2.3.4`).
pub fn version4(input: &str) -> (v: String)
    ensures
        v@ == version4_text(input@),
{
    broadcast use vstd::string::group_string_axioms;
    let n = input.unicode_len();
    let mut out = String::new();
    let mut nparts: usize = 1;
    let ghost mut done: Seq<char> = Seq::empty();
    proof {
        assert(out@ =~= join_dots(first_four(split_dots(done))));
    }
    let mut i: usize = 0;
    for c in it: input.chars()
        invariant
            it.seq() == input@,
            i == it.index(),
            done == input@.take(i as int),
            n == input@.len(),
            nparts == (if split_dots(done).len() < 5 { split_dots(done).len() } else { 5 }),
            out@ == join_dots(first_four(split_dots(done))),
    {
        let ghost parts = split_dots(done);
        proof {
            lemma_split_dots_nonempty(done);
            assert(input@.take(i + 1) =~= done.push(c));
            assert(done.push(c).drop_last() =~= done);
        }
        if c == '.' {
            if nparts < 4 {
                proof {
                    reveal_strlit(".");
                    lemma_join_push(parts, Seq::empty());
                    assert(parts.push(Seq::empty()) =~= first_four(parts.push(Seq::empty())));
                }
                out.append(".");
                assert(out@ =~= join_dots(parts).push('.') + Seq::<char>::empty());
            } else {
                assert(first_four(parts.push(Seq::empty())) =~= first_four(parts));
            }
            if nparts < 5 {
                nparts = nparts + 1;
            }
        } else {
            if nparts <= 4 {
                let s = input.substring_char(i, i + 1);
                proof {
                    lemma_join_extend_last(parts, c);
                }
                out.append(s);
                assert(out@ =~= join_dots(parts).push(c));
            } else {
                assert(first_four(parts.update(parts.len() - 1, parts.last().push(c))) =~= first_four(parts));
            }
        }
        proof {
            done = done.push(c);
        }
        i = i + 1;
    }
    proof {
        assert(done =~= input@);
        lemma_split_dots_nonempty(done);
    }
    let ghost parts = split_dots(input@);
    let mut k: usize = nparts;
    while k < 4
        invariant
            nparts == (if parts.len() < 5 { parts.len() } else { 5 }),
            1 <= nparts,
            nparts <= k <= 4 || (nparts > 4 && k == nparts),
            out@ == (if parts.len() < 4 {
                join_dots(parts + Seq::new((k - parts.len()) as nat, |j: int| seq!['0']))
            } else {
                join_dots(first_four(parts))
            }),
        decreases 4 - k,
    {
        let ghost before = parts + Seq::new((k - parts.len()) as nat, |j: int| seq!['0']);
        proof {
            reveal_strlit(".0");
            lemma_join_push(before, seq!['0']);
            assert(parts + Seq::new((k + 1 - parts.len()) as nat, |j: int| seq!['0']) =~= before.push(seq!['0']));
        }
        out.append(".0");
        assert(out@ =~= join_dots(before).push('.') + seq!['0']);
        k = k + 1;
    }
    proof {
        if parts.len() < 4 {
            assert(parts + Seq::new((4 - parts.len()) as nat, |j: int| seq!['0']) =~= four_parts(parts));
        } else if parts.len() == 4 {
            assert(parts.take(4) =~= parts);
        }
    }
    out
}

/// Whether no part contains a dot.
pub open spec fn dot_free(parts: Seq<Seq<char>>) -> bool {
    forall|i: int, j: int| 0 <= i < parts.len() && 0 <= j < parts[i].len() ==> parts[i][j] != '.'
}

proof fn lemma_split_dot_free(s: Seq<char>)
    ensures
        dot_free(split_dots(s)),
    decreases s.len(),
{
    if s.len() > 0 {
        lemma_split_dot_free(s.drop_last());
        lemma_split_dots_nonempty(s.drop_last());
        let parts = split_dots(s.drop_last());
        if s.last() != '.' {
            let q = parts.update(parts.len() - 1, parts.last().push(s.last()));
            assert forall|i: int, j: int| 0 <= i < q.len() && 0 <= j < q[i].len() implies q[i][j] != '.' by {
                if i == parts.len() - 1 && j == parts.last().len() {
                } else {
                    assert(q[i][j] == parts[i][j]);
                }
            }
        } else {
            let q = parts.push(Seq::<char>::empty());
            assert forall|i: int, j: int| 0 <= i < q.len() && 0 <= j < q[i].len() implies q[i][j] != '.' by {
                assert(q[i][j] == parts[i][j]);
            }
        }
    }
}

proof fn lemma_split_after_dot(a: Seq<char>, x: Seq<char>)
    requires
        forall|j: int| 0 <= j < x.len() ==> x[j] != '.',
    ensures
        split_dots(a.push('.') + x) == split_dots(a).push(x),
    decreases x.len(),
{
    if x.len() == 0 {
        assert(x =~= Seq::<char>::empty());
        assert(a.push('.') + x =~= a.push('.'));
        assert(a.push('.').drop_last() =~= a);
    } else {
        let y = x.drop_last();
        let whole = a.push('.') + x;
        lemma_split_after_dot(a, y);
        assert(whole.drop_last() =~= a.push('.') + y);
        assert(whole.last() == x.last());
        assert(x.last() != '.');
        assert(y.push(x.last()) =~= x);
        let p = split_dots(a).push(y);
        assert(p.last() == y);
        assert(p.update(p.len() - 1, p.last().push(whole.last())) =~= split_dots(a).push(x));
    }
}

proof fn lemma_split_dot_free_text(x: Seq<char>)
    requires
        forall|j: int| 0 <= j < x.len() ==> x[j] != '.',
    ensures
        split_dots(x) == seq![x],
    decreases x.len(),
{
    if x.len() == 0 {
        assert(x =~= Seq::<char>::empty());
    } else {
        let y = x.drop_last();
        lemma_split_dot_free_text(y);
        assert(x.last() != '.');
        assert(y.push(x.last()) =~= x);
        assert(seq![y].update(0, y.push(x.last())) =~= seq![x]);
    }
}

proof fn lemma_split_join(parts: Seq<Seq<char>>)
    requires
        parts.len() >= 1,
        dot_free(parts),
    ensures
        split_dots(join_dots(parts)) == parts,
    decreases parts.len(),
{
    if parts.len() == 1 {
        lemma_split_dot_free_text(parts[0]);
        assert(seq![parts[0]] =~= parts);
    } else {
        let init = parts.drop_last();
        assert(dot_free(init)) by {
            assert forall|i: int, j: int| 0 <= i < init.len() && 0 <= j < init[i].len() implies init[i][j] != '.' by {
                assert(init[i] == parts[i]);
            }
        }
        lemma_split_join(init);
        assert forall|j: int| 0 <= j < parts.last().len() implies parts.last()[j] != '.' by {
            assert(parts[parts.len() - 1][j] != '.');
        }
        lemma_split_after_dot(join_dots(init), parts.last());
        assert(init.push(parts.last()) =~= parts);
    }
}

/// The version number always has exactly four components: splitting the
/// result at its dots gives four parts.
pub proof fn lemma_version4_has_four_parts(input: Seq<char>)
    ensures
        split_dots(version4_text(input)).len() == 4,
{
    let parts = split_dots(input);
    lemma_split_dots_nonempty(input);
    lemma_split_dot_free(input);
    let f = four_parts(parts);
    assert(dot_free(f)) by {
        assert forall|i: int, j: int| 0 <= i < f.len() && 0 <= j < f[i].len() implies f[i][j] != '.' by {
            if i < parts.len() {
                assert(f[i] == parts[i]);
            } else {
                assert(f[i] == seq!['0']);
            }
        }
    }
    lemma_split_join(f);
}

} // verus!
