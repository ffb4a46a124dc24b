use vstd::prelude::*;

verus! {

/// The UTF-16 code units of one Unicode scalar value.
pub open spec fn utf16_of_char(c: char) -> Seq<u16> {
    let v = c as int;
    if v < 0x10000 {
        seq![v as u16]
    } else {
        let w = v - 0x10000;
        seq![(0xD800 + w / 0x400) as u16, (0xDC00 + w % 0x400) as u16]
    }
}

/// The UTF-16 encoding of a sequence of Unicode scalar values.
pub open spec fn utf16_encode(s: Seq<char>) -> Seq<u16>
    decreases s.len(),
{
    if s.len() == 0 {
        Seq::empty()
    } else {
        utf16_encode(s.drop_last()) + utf16_of_char(s.last())
    }
}

proof fn lemma_utf16_encode_push(s: Seq<char>, c: char)
    ensures
        utf16_encode(s.push(c)) == utf16_encode(s) + utf16_of_char(c),
{
    assert(s.push(c).drop_last() =~= s);
}

/// Appends the UTF-16 code units of `c` to `out`.
fn push_utf16(out: &mut Vec<u16>, c: char)
    ensures
        final(out)@ == old(out)@ + utf16_of_char(c),
{
    let v: u32 = c as u32;
    if v < 0x10000 {
        out.push(v as u16);
        assert(out@ =~= old(out)@ + utf16_of_char(c));
    } else {
        let w: u32 = v - 0x10000;
        out.push((0xD800 + w / 0x400) as u16);
        out.push((0xDC00 + w % 0x400) as u16);
        assert(out@ =~= old(out)@ + utf16_of_char(c));
    }
}

/// Encodes `text` as UTF-16 code units, without a terminator.
pub fn to_utf16(text: &str) -> (units: Vec<u16>)
    ensures
        units@ == utf16_encode(text@),
{
    broadcast use vstd::string::group_string_axioms;
    let mut units: Vec<u16> = Vec::new();
    for c in it: text.chars()
        invariant
            it.seq() == text@,
            units@ == utf16_encode(it.seq().take(it.index() as int)),
    {
        proof {
            lemma_utf16_encode_push(it.seq().take(it.index() as int), c);
            assert(it.seq().take(it.index() + 1) =~= it.seq().take(it.index() as int).push(c));
        }
        push_utf16(&mut units, c);
    }
    proof {
        assert(text@.take(text@.len() as int) =~= text@);
    }
    units
}

/// How many code units of a text of `text_len` units fit in a buffer of
/// `capacity` units when one unit is kept for the terminating zero.
pub open spec fn copied_len(text_len: nat, capacity: nat) -> nat {
    let room: nat = if capacity == 0 { 0 } else { (capacity - 1) as nat };
    if text_len < room { text_len } else { room }
}

/// The contents of a `capacity`-unit buffer that holds `text` cut to fit,
/// followed by zeros up to the end.
pub open spec fn zero_terminated(text: Seq<u16>, capacity: nat) -> Seq<u16> {
    let n = copied_len(text.len(), capacity);
    text.take(n as int) + Seq::new((capacity - n) as nat, |i: int| 0u16)
}

/// Overwrites `dst` with the UTF-16 encoding of `text`, cut so that at least
/// one zero unit remains, and fills the rest of `dst` with zeros.
pub fn copy_utf16_z(dst: &mut [u16], text: &str)
    ensures
        final(dst)@ == zero_terminated(utf16_encode(text@), old(dst)@.len()),
{
    let len = dst.len();
    let mut i: usize = 0;
    while i < len
        invariant
            len == old(dst)@.len(),
            dst@.len() == len,
            i <= len,
            forall|k: int| 0 <= k < i ==> dst@[k] == 0u16,
        decreases len - i,
    {
        dst[i] = 0;
        i = i + 1;
    }
    let src = to_utf16(text);
    let room = len.saturating_sub(1);
    let count = if src.len() < room { src.len() } else { room };
    let mut j: usize = 0;
    while j < count
        invariant
            len == old(dst)@.len(),
            dst@.len() == len,
            count <= src@.len(),
            count < len || count == 0,
            j <= count,
            forall|k: int| 0 <= k < j ==> dst@[k] == src@[k],
            forall|k: int| j <= k < len ==> dst@[k] == 0u16,
        decreases count - j,
    {
        dst[j] = src[j];
        j = j + 1;
    }
    assert(dst@ =~= zero_terminated(utf16_encode(text@), old(dst)@.len()));
}

/// Number of UTF-16 code units of one Unicode scalar value.
pub open spec fn char_utf16_len(c: char) -> nat {
    if (c as int) < 0x10000 {
        1
    } else {
        2
    }
}

/// Sum of the UTF-16 lengths of the characters of `s`.
pub open spec fn utf16_len(s: Seq<char>) -> nat
    decreases s.len(),
{
    if s.len() == 0 {
        0
    } else {
        utf16_len(s.drop_last()) + char_utf16_len(s.last())
    }
}

/// Whether `u` is a leading (high) surrogate.
pub open spec fn is_high_surrogate(u: u16) -> bool {
    0xD800 <= u <= 0xDBFF
}

/// Whether `u` is a trailing (low) surrogate.
pub open spec fn is_low_surrogate(u: u16) -> bool {
    0xDC00 <= u <= 0xDFFF
}

/// Decodes UTF-16 code units into Unicode scalar values; `None` when the
/// units hold an unpaired surrogate.
pub open spec fn utf16_decode(units: Seq<u16>) -> Option<Seq<char>>
    decreases units.len(),
{
    if units.len() == 0 {
        Some(Seq::empty())
    } else {
        let u = units[0];
        if is_high_surrogate(u) {
            if units.len() >= 2 && is_low_surrogate(units[1]) {
                let v = (u - 0xD800) * 0x400 + (units[1] - 0xDC00) + 0x10000;
                match utf16_decode(units.subrange(2, units.len() as int)) {
                    Some(rest) => Some(seq![(v as u32) as char] + rest),
                    None => None,
                }
            } else {
                None
            }
        } else if is_low_surrogate(u) {
            None
        } else {
            match utf16_decode(units.subrange(1, units.len() as int)) {
                Some(rest) => Some(seq![(u as u32) as char] + rest),
                None => None,
            }
        }
    }
}

proof fn lemma_utf16_encode_prepend(c: char, s: Seq<char>)
    ensures
        utf16_encode(seq![c] + s) == utf16_of_char(c) + utf16_encode(s),
    decreases s.len(),
{
    if s.len() == 0 {
        assert(seq![c] + s =~= seq![c]);
        assert(seq![c].drop_last() =~= Seq::<char>::empty());
        assert(seq![c].last() == c);
        assert(utf16_encode(Seq::<char>::empty()) == Seq::<u16>::empty());
        assert(utf16_encode(s) == Seq::<u16>::empty());
        assert(utf16_encode(seq![c]) == utf16_encode(Seq::<char>::empty()) + utf16_of_char(c));
        assert(utf16_of_char(c) + utf16_encode(s) =~= utf16_of_char(c));
        assert(Seq::<u16>::empty() + utf16_of_char(c) =~= utf16_of_char(c));
    } else {
        lemma_utf16_encode_prepend(c, s.drop_last());
        assert((seq![c] + s).drop_last() =~= seq![c] + s.drop_last());
        assert((seq![c] + s).last() == s.last());
        assert((seq![c] + s).len() > 0);
        assert(utf16_of_char(c) + utf16_encode(s.drop_last()) + utf16_of_char(s.last())
            =~= utf16_of_char(c) + (utf16_encode(s.drop_last()) + utf16_of_char(s.last())));
    }
}

proof fn lemma_decode_one_char(c: char, rest: Seq<u16>)
    ensures
        utf16_decode(utf16_of_char(c) + rest) == match utf16_decode(rest) {
            Some(r) => Some(seq![c] + r),
            None => None::<Seq<char>>,
        },
{
    let v = c as int;
    let units = utf16_of_char(c) + rest;
    if v < 0x10000 {
        assert(units.subrange(1, units.len() as int) =~= rest);
        assert(units[0] == v as u16);
        assert(((v as u16) as u32) as char == c);
    } else {
        let w = v - 0x10000;
        let hi = 0xD800 + w / 0x400;
        let lo = 0xDC00 + w % 0x400;
        assert(w == (w / 0x400) * 0x400 + w % 0x400) by {
            vstd::arithmetic::div_mod::lemma_fundamental_div_mod(w, 0x400);
        }
        assert(0 <= w % 0x400 < 0x400) by {
            vstd::arithmetic::div_mod::lemma_mod_bound(w, 0x400);
        }
        assert(0 <= w / 0x400 < 0x400) by {
            vstd::arithmetic::div_mod::lemma_div_is_ordered(w, 0xFFFFF, 0x400);
        }
        assert(units[0] == hi as u16);
        assert(units[1] == lo as u16);
        assert(units.subrange(2, units.len() as int) =~= rest);
        let d = (hi - 0xD800) * 0x400 + (lo - 0xDC00) + 0x10000;
        assert(d == v);
        assert(((d as u32) as char) == c);
    }
}

/// Decoding the UTF-16 encoding of a text gives the text back, and the
/// encoding has as many code units as the characters' UTF-16 lengths add
/// up to.
pub proof fn lemma_utf16_round_trip(s: Seq<char>)
    ensures
        utf16_decode(utf16_encode(s)) == Some(s),
        utf16_encode(s).len() == utf16_len(s),
    decreases s.len(),
{
    if s.len() > 0 {
        let c = s[0];
        let tail = s.subrange(1, s.len() as int);
        lemma_utf16_round_trip(tail);
        assert(seq![c] + tail =~= s);
        lemma_utf16_encode_prepend(c, tail);
        lemma_decode_one_char(c, utf16_encode(tail));
        lemma_utf16_round_trip(s.drop_last());
    }
}

} // verus!
