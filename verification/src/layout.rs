use vstd::prelude::*;
use vstd::string::*;

verus! {

/// Language identifier held in the low word of a keyboard layout handle.
pub open spec fn lang_id(hkl: isize) -> u16 {
    hkl as u16
}

/// Primary language part (the low ten bits) of a language identifier.
pub open spec fn primary_language(lang: u16) -> int {
    lang as int % 0x400
}

/// Primary language identifier of Russian.
pub const LANG_RUSSIAN: u32 = 0x19;

/// Primary language identifier of English.
pub const LANG_ENGLISH: u32 = 0x09;

/// Upper-case hexadecimal digit for a value below sixteen.
pub open spec fn hex_digit(d: int) -> char {
    if d < 10 {
        (d + 48) as char
    } else {
        (d + 55) as char
    }
}

/// Four upper-case hexadecimal digits of `n`, most significant first.
pub open spec fn hex4(n: int) -> Seq<char> {
    seq![
        hex_digit((n / 0x1000) % 16),
        hex_digit((n / 0x100) % 16),
        hex_digit((n / 0x10) % 16),
        hex_digit(n % 16),
    ]
}

/// Text the indicator shows for a keyboard layout: `RU` and `EN` for
/// Russian and English layouts, else the language identifier in four
/// upper-case hexadecimal digits.
pub open spec fn indicator_text(hkl: isize) -> Seq<char> {
    let lang = lang_id(hkl);
    if primary_language(lang) == LANG_RUSSIAN {
        seq!['R', 'U']
    } else if primary_language(lang) == LANG_ENGLISH {
        seq!['E', 'N']
    } else {
        hex4(lang as int)
    }
}

/// Appends the hexadecimal digit of `d` to `out`.
fn push_hex_digit(out: &mut String, d: u32)
    requires
        d < 16,
    ensures
        final(out)@ == old(out)@.push(hex_digit(d as int)),
{
    let digits = "0123456789ABCDEF";
    proof {
        reveal_strlit("0123456789ABCDEF");
    }
    let s = digits.substring_ascii(d as usize, d as usize + 1);
    out.append(s);
    assert(out@ =~= old(out)@.push(hex_digit(d as int)));
}

/// Indicator text for the keyboard layout handle `hkl`.
pub fn layout_to_indicator(hkl: isize) -> (text: String)
    ensures
        text@ == indicator_text(hkl),
{
    let lang: u32 = (hkl as usize as u32) & 0xFFFF;
    assert(((hkl as usize) as u32) & 0xFFFFu32 == (hkl as u16) as u32) by (bit_vector);
    let primary: u32 = lang & 0x03FF;
    assert(lang & 0x03FFu32 == lang % 0x400) by (bit_vector);
    if primary == LANG_RUSSIAN {
        proof {
            reveal_strlit("RU");
        }
        let text = String::from_str("RU");
        assert(text@ =~= indicator_text(hkl));
        text
    } else if primary == LANG_ENGLISH {
        proof {
            reveal_strlit("EN");
        }
        let text = String::from_str("EN");
        assert(text@ =~= indicator_text(hkl));
        text
    } else {
        let mut text = String::new();
        push_hex_digit(&mut text, (lang / 0x1000) % 16);
        push_hex_digit(&mut text, (lang / 0x100) % 16);
        push_hex_digit(&mut text, (lang / 0x10) % 16);
        push_hex_digit(&mut text, lang % 16);
        assert(text@ =~= indicator_text(hkl));
        text
    }
}

} // verus!
