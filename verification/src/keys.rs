use vstd::prelude::*;

verus! {

/// Virtual-key codes `lo, lo + 1, ..., hi` (inclusive).
pub open spec fn key_range(lo: int, hi: int) -> Seq<i32> {
    Seq::new((hi - lo + 1) as nat, |i: int| (lo + i) as i32)
}

/// The keys whose press counts as typing, in the order they are checked:
/// digits, letters, the OEM punctuation keys and then the space bar.
pub open spec fn typing_keys() -> Seq<i32> {
    key_range(0x30, 0x39) + key_range(0x41, 0x5A) + key_range(0xBA, 0xC0) + key_range(0xDB, 0xE2)
        + seq![0x20i32]
}

/// Whether the virtual-key code `vk` is a typing key.
pub open spec fn is_typing_vk(vk: int) -> bool {
    ||| 0x30 <= vk <= 0x39
    ||| 0x41 <= vk <= 0x5A
    ||| 0xBA <= vk <= 0xC0
    ||| 0xDB <= vk <= 0xE2
    ||| vk == 0x20
}

/// Whether an asynchronous key state reports the key as held down (its most
/// significant bit is set).
pub open spec fn spec_key_down(state: i16) -> bool {
    state < 0
}

fn push_key_range(out: &mut Vec<i32>, lo: i32, hi: i32)
    requires
        0 <= lo <= hi < 0x100,
    ensures
        final(out)@ == old(out)@ + key_range(lo as int, hi as int),
{
    let mut vk = lo;
    while vk <= hi
        invariant
            lo <= vk <= hi + 1,
            hi < 0x100,
            out@ == old(out)@ + key_range(lo as int, vk - 1),
        decreases hi + 1 - vk,
    {
        proof {
            assert(key_range(lo as int, vk as int) =~= key_range(lo as int, vk - 1).push(vk));
        }
        out.push(vk);
        vk = vk + 1;
    }
}

/// The virtual-key codes of the typing keys, in the order they are checked.
pub fn typing_key_codes() -> (codes: Vec<i32>)
    ensures
        codes@ == typing_keys(),
{
    let mut codes: Vec<i32> = Vec::new();
    push_key_range(&mut codes, 0x30, 0x39);
    push_key_range(&mut codes, 0x41, 0x5A);
    push_key_range(&mut codes, 0xBA, 0xC0);
    push_key_range(&mut codes, 0xDB, 0xE2);
    codes.push(0x20);
    assert(codes@ =~= typing_keys());
    codes
}

/// Whether the asynchronous key state `state` reports the key as down.
pub fn key_state_is_down(state: i16) -> (down: bool)
    ensures
        down == spec_key_down(state),
{
    assert((state as u16 & 0x8000u16) != 0u16 <==> state < 0) by (bit_vector);
    (state as u16 & 0x8000) != 0
}

/// Whether any of the sampled key states reports a key held down; the
/// states are those of the typing keys, as `typing_key_codes` lists them.
pub fn is_typing_key_down(key_states: &[i16]) -> (down: bool)
    ensures
        down == exists|i: int| 0 <= i < key_states@.len() && spec_key_down(#[trigger] key_states@[i]),
{
    let mut i: usize = 0;
    while i < key_states.len()
        invariant
            i <= key_states@.len(),
            forall|k: int| 0 <= k < i ==> !spec_key_down(#[trigger] key_states@[k]),
        decreases key_states@.len() - i,
    {
        if key_state_is_down(key_states[i]) {
            return true;
        }
        i = i + 1;
    }
    false
}

/// The listed typing keys are exactly the keys that count as typing, each
/// listed once.
pub proof fn lemma_typing_keys_exact()
    ensures
        forall|i: int| 0 <= i < typing_keys().len() ==> is_typing_vk(#[trigger] typing_keys()[i] as int),
        forall|vk: i32| is_typing_vk(vk as int) ==> typing_keys().contains(vk),
        forall|i: int, j: int|
            0 <= i < j < typing_keys().len() ==> typing_keys()[i] != typing_keys()[j],
{
    let t = typing_keys();
    assert(t.len() == 52);
    assert forall|i: int| 0 <= i < t.len() implies is_typing_vk(#[trigger] t[i] as int) by {
        if i < 10 {
            assert(t[i] == 0x30 + i);
        } else if i < 36 {
            assert(t[i] == 0x41 + (i - 10));
        } else if i < 43 {
            assert(t[i] == 0xBA + (i - 36));
        } else if i < 51 {
            assert(t[i] == 0xDB + (i - 43));
        } else {
            assert(t[i] == 0x20);
        }
    }
    assert forall|vk: i32| is_typing_vk(vk as int) implies t.contains(vk) by {
        let i: int = if 0x30 <= vk <= 0x39 {
            vk - 0x30
        } else if 0x41 <= vk <= 0x5A {
            vk - 0x41 + 10
        } else if 0xBA <= vk <= 0xC0 {
            vk - 0xBA + 36
        } else if 0xDB <= vk <= 0xE2 {
            vk - 0xDB + 43
        } else {
            51
        };
        assert(t[i] == vk);
    }
    assert forall|i: int, j: int| 0 <= i < j < t.len() implies t[i] != t[j] by {
        assert(0 <= i < 52);
        assert(0 <= j < 52);
    }
}

} // verus!
