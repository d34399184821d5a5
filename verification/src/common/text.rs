//! Reading numbers from text, and changing and comparing case.

use vstd::prelude::*;
use vstd::string::{StringExecFns, StringSliceAdditionalSpecFns};

verus! {

/// The number that the decimal digits `digits` spell. There is none where
/// the text is empty or holds anything but the digits `0` to `9`.
pub open spec fn digits_value(digits: Seq<char>) -> Option<nat>
    decreases digits.len(),
{
    if digits.len() == 0 {
        None
    } else {
        let last = digits.last() as int;
        if last < 48 || last > 57 {
            None
        } else if digits.len() == 1 {
            Some((last - 48) as nat)
        } else {
            match digits_value(digits.drop_last()) {
                Some(v) => Some((v * 10 + (last - 48)) as nat),
                None => None,
            }
        }
    }
}

/// The number that the decimal text `text` spells: digits, after a `+`
/// that may stand before them or, where `signed` holds, a `-`.
pub open spec fn decimal_value(text: Seq<char>, signed: bool) -> Option<int> {
    if text.len() > 0 && text[0] == '+' {
        match digits_value(text.skip(1)) {
            Some(v) => Some(v as int),
            None => None,
        }
    } else if signed && text.len() > 0 && text[0] == '-' {
        match digits_value(text.skip(1)) {
            Some(v) => Some(-(v as int)),
            None => None,
        }
    } else {
        match digits_value(text) {
            Some(v) => Some(v as int),
            None => None,
        }
    }
}

/// Whether the text spells a number from `low` to `high`.
pub open spec fn spells_within(text: Seq<char>, signed: bool, low: int, high: int) -> bool {
    decimal_value(text, signed) matches Some(v) && low <= v <= high
}

/// The description of what is wrong with `text`, read as an 8-bit unsigned
/// decimal number.
pub uninterp spec fn u8_fault(text: Seq<char>) -> Seq<char>;

/// The description of what is wrong with `text`, read as a 16-bit unsigned
/// decimal number.
pub uninterp spec fn u16_fault(text: Seq<char>) -> Seq<char>;

/// The description of what is wrong with `text`, read as a 32-bit unsigned
/// decimal number.
pub uninterp spec fn u32_fault(text: Seq<char>) -> Seq<char>;

/// The description of what is wrong with `text`, read as a 64-bit unsigned
/// decimal number.
pub uninterp spec fn u64_fault(text: Seq<char>) -> Seq<char>;

/// The description of what is wrong with `text`, read as an 8-bit signed
/// decimal number.
pub uninterp spec fn i8_fault(text: Seq<char>) -> Seq<char>;

/// The description of what is wrong with `text`, read as a 16-bit signed
/// decimal number.
pub uninterp spec fn i16_fault(text: Seq<char>) -> Seq<char>;

/// The description of what is wrong with `text`, read as a 32-bit signed
/// decimal number.
pub uninterp spec fn i32_fault(text: Seq<char>) -> Seq<char>;

/// The description of what is wrong with `text`, read as a 64-bit signed
/// decimal number.
pub uninterp spec fn i64_fault(text: Seq<char>) -> Seq<char>;

/// `text` with every character in lower case.
pub uninterp spec fn lowercase_of(text: Seq<char>) -> Seq<char>;

/// What reading `text` as an 8-bit unsigned decimal number gives: the number
/// that it spells, if that is one of the type, or the description of what
/// is wrong with the text.
pub open spec fn u8_from_text(text: Seq<char>) -> Result<u8, Seq<char>> {
    if spells_within(text, false, u8::MIN as int, u8::MAX as int) {
        Ok(decimal_value(text, false)->Some_0 as u8)
    } else {
        Err(u8_fault(text))
    }
}

/// Reads an 8-bit unsigned decimal number.
///
/// Trusted: this calls `str::parse::<u8>` and renders its error with
/// `Debug`. The contract claims that the call succeeds exactly on digits,
/// after a `+` that may stand before them, that spell a number of the
/// type, and that it then returns this number; the text of the error only
/// has a name.
#[verifier::external_body]
pub(crate) fn parse_u8(text: &str) -> (r: Result<u8, String>)
    ensures
        match r {
            Ok(n) => decimal_value(text@, false) == Some(n as int),
            Err(e) => !spells_within(text@, false, u8::MIN as int, u8::MAX as int) && e@
                == u8_fault(text@),
        },
{
    text.parse::<u8>().map_err(|e| format!("{e:?}"))
}

/// What reading `text` as a 16-bit unsigned decimal number gives: the number
/// that it spells, if that is one of the type, or the description of what
/// is wrong with the text.
pub open spec fn u16_from_text(text: Seq<char>) -> Result<u16, Seq<char>> {
    if spells_within(text, false, u16::MIN as int, u16::MAX as int) {
        Ok(decimal_value(text, false)->Some_0 as u16)
    } else {
        Err(u16_fault(text))
    }
}

/// Reads a 16-bit unsigned decimal number.
///
/// Trusted: this calls `str::parse::<u16>` and renders its error with
/// `Debug`. The contract claims that the call succeeds exactly on digits,
/// after a `+` that may stand before them, that spell a number of the
/// type, and that it then returns this number; the text of the error only
/// has a name.
#[verifier::external_body]
pub(crate) fn parse_u16(text: &str) -> (r: Result<u16, String>)
    ensures
        match r {
            Ok(n) => decimal_value(text@, false) == Some(n as int),
            Err(e) => !spells_within(text@, false, u16::MIN as int, u16::MAX as int) && e@
                == u16_fault(text@),
        },
{
    text.parse::<u16>().map_err(|e| format!("{e:?}"))
}

/// What reading `text` as a 32-bit unsigned decimal number gives: the number
/// that it spells, if that is one of the type, or the description of what
/// is wrong with the text.
pub open spec fn u32_from_text(text: Seq<char>) -> Result<u32, Seq<char>> {
    if spells_within(text, false, u32::MIN as int, u32::MAX as int) {
        Ok(decimal_value(text, false)->Some_0 as u32)
    } else {
        Err(u32_fault(text))
    }
}

/// Reads a 32-bit unsigned decimal number.
///
/// Trusted: this calls `str::parse::<u32>` and renders its error with
/// `Debug`. The contract claims that the call succeeds exactly on digits,
/// after a `+` that may stand before them, that spell a number of the
/// type, and that it then returns this number; the text of the error only
/// has a name.
#[verifier::external_body]
pub(crate) fn parse_u32(text: &str) -> (r: Result<u32, String>)
    ensures
        match r {
            Ok(n) => decimal_value(text@, false) == Some(n as int),
            Err(e) => !spells_within(text@, false, u32::MIN as int, u32::MAX as int) && e@
                == u32_fault(text@),
        },
{
    text.parse::<u32>().map_err(|e| format!("{e:?}"))
}

/// What reading `text` as a 64-bit unsigned decimal number gives: the number
/// that it spells, if that is one of the type, or the description of what
/// is wrong with the text.
pub open spec fn u64_from_text(text: Seq<char>) -> Result<u64, Seq<char>> {
    if spells_within(text, false, u64::MIN as int, u64::MAX as int) {
        Ok(decimal_value(text, false)->Some_0 as u64)
    } else {
        Err(u64_fault(text))
    }
}

/// Reads a 64-bit unsigned decimal number.
///
/// Trusted: this calls `str::parse::<u64>` and renders its error with
/// `Debug`. The contract claims that the call succeeds exactly on digits,
/// after a `+` that may stand before them, that spell a number of the
/// type, and that it then returns this number; the text of the error only
/// has a name.
#[verifier::external_body]
pub(crate) fn parse_u64(text: &str) -> (r: Result<u64, String>)
    ensures
        match r {
            Ok(n) => decimal_value(text@, false) == Some(n as int),
            Err(e) => !spells_within(text@, false, u64::MIN as int, u64::MAX as int) && e@
                == u64_fault(text@),
        },
{
    text.parse::<u64>().map_err(|e| format!("{e:?}"))
}

/// What reading `text` as an 8-bit signed decimal number gives: the number
/// that it spells, if that is one of the type, or the description of what
/// is wrong with the text.
pub open spec fn i8_from_text(text: Seq<char>) -> Result<i8, Seq<char>> {
    if spells_within(text, true, i8::MIN as int, i8::MAX as int) {
        Ok(decimal_value(text, true)->Some_0 as i8)
    } else {
        Err(i8_fault(text))
    }
}

/// Reads an 8-bit signed decimal number.
///
/// Trusted: this calls `str::parse::<i8>` and renders its error with
/// `Debug`. The contract claims that the call succeeds exactly on digits,
/// after a sign that may stand before them, that spell a number of the
/// type, and that it then returns this number; the text of the error only
/// has a name.
#[verifier::external_body]
pub(crate) fn parse_i8(text: &str) -> (r: Result<i8, String>)
    ensures
        match r {
            Ok(n) => decimal_value(text@, true) == Some(n as int),
            Err(e) => !spells_within(text@, true, i8::MIN as int, i8::MAX as int) && e@
                == i8_fault(text@),
        },
{
    text.parse::<i8>().map_err(|e| format!("{e:?}"))
}

/// What reading `text` as a 16-bit signed decimal number gives: the number
/// that it spells, if that is one of the type, or the description of what
/// is wrong with the text.
pub open spec fn i16_from_text(text: Seq<char>) -> Result<i16, Seq<char>> {
    if spells_within(text, true, i16::MIN as int, i16::MAX as int) {
        Ok(decimal_value(text, true)->Some_0 as i16)
    } else {
        Err(i16_fault(text))
    }
}

/// Reads a 16-bit signed decimal number.
///
/// Trusted: this calls `str::parse::<i16>` and renders its error with
/// `Debug`. The contract claims that the call succeeds exactly on digits,
/// after a sign that may stand before them, that spell a number of the
/// type, and that it then returns this number; the text of the error only
/// has a name.
#[verifier::external_body]
pub(crate) fn parse_i16(text: &str) -> (r: Result<i16, String>)
    ensures
        match r {
            Ok(n) => decimal_value(text@, true) == Some(n as int),
            Err(e) => !spells_within(text@, true, i16::MIN as int, i16::MAX as int) && e@
                == i16_fault(text@),
        },
{
    text.parse::<i16>().map_err(|e| format!("{e:?}"))
}

/// What reading `text` as a 32-bit signed decimal number gives: the number
/// that it spells, if that is one of the type, or the description of what
/// is wrong with the text.
pub open spec fn i32_from_text(text: Seq<char>) -> Result<i32, Seq<char>> {
    if spells_within(text, true, i32::MIN as int, i32::MAX as int) {
        Ok(decimal_value(text, true)->Some_0 as i32)
    } else {
        Err(i32_fault(text))
    }
}

/// Reads a 32-bit signed decimal number.
///
/// Trusted: this calls `str::parse::<i32>` and renders its error with
/// `Debug`. The contract claims that the call succeeds exactly on digits,
/// after a sign that may stand before them, that spell a number of the
/// type, and that it then returns this number; the text of the error only
/// has a name.
#[verifier::external_body]
pub(crate) fn parse_i32(text: &str) -> (r: Result<i32, String>)
    ensures
        match r {
            Ok(n) => decimal_value(text@, true) == Some(n as int),
            Err(e) => !spells_within(text@, true, i32::MIN as int, i32::MAX as int) && e@
                == i32_fault(text@),
        },
{
    text.parse::<i32>().map_err(|e| format!("{e:?}"))
}

/// What reading `text` as a 64-bit signed decimal number gives: the number
/// that it spells, if that is one of the type, or the description of what
/// is wrong with the text.
pub open spec fn i64_from_text(text: Seq<char>) -> Result<i64, Seq<char>> {
    if spells_within(text, true, i64::MIN as int, i64::MAX as int) {
        Ok(decimal_value(text, true)->Some_0 as i64)
    } else {
        Err(i64_fault(text))
    }
}

/// Reads a 64-bit signed decimal number.
///
/// Trusted: this calls `str::parse::<i64>` and renders its error with
/// `Debug`. The contract claims that the call succeeds exactly on digits,
/// after a sign that may stand before them, that spell a number of the
/// type, and that it then returns this number; the text of the error only
/// has a name.
#[verifier::external_body]
pub(crate) fn parse_i64(text: &str) -> (r: Result<i64, String>)
    ensures
        match r {
            Ok(n) => decimal_value(text@, true) == Some(n as int),
            Err(e) => !spells_within(text@, true, i64::MIN as int, i64::MAX as int) && e@
                == i64_fault(text@),
        },
{
    text.parse::<i64>().map_err(|e| format!("{e:?}"))
}

/// `text` in lower case.
///
/// Trusted: this calls `str::to_lowercase`. The contract only gives the
/// result a name.
#[verifier::external_body]
pub(crate) fn to_lowercase(text: &str) -> (lower: String)
    ensures
        lower@ == lowercase_of(text@),
{
    text.to_lowercase()
}

/// The byte `b` with an ASCII capital letter made small.
pub open spec fn ascii_lower(b: u8) -> u8 {
    if 65 <= b <= 90 {
        (b + 32) as u8
    } else {
        b
    }
}

/// Whether the two texts are the same once the ASCII capital letters of both
/// are made small.
pub open spec fn same_ignoring_ascii_case(a: Seq<u8>, b: Seq<u8>) -> bool {
    a.len() == b.len() && forall|i: int| 0 <= i < a.len() ==> ascii_lower(a[i]) == ascii_lower(b[i])
}

/// Whether the two texts are the same but for the case of ASCII letters.
pub fn eq_ignore_ascii_case(a: &str, b: &str) -> (same: bool)
    ensures
        same == same_ignoring_ascii_case(a.spec_bytes(), b.spec_bytes()),
{
    let x = a.as_bytes();
    let y = b.as_bytes();
    if x.len() != y.len() {
        return false;
    }
    let mut i: usize = 0;
    while i < x.len()
        invariant
            i <= x@.len(),
            x@.len() == y@.len(),
            x@ == a.spec_bytes(),
            y@ == b.spec_bytes(),
            forall|j: int| 0 <= j < i ==> ascii_lower(x@[j]) == ascii_lower(y@[j]),
        decreases x@.len() - i,
    {
        let p = if x[i] >= 65 && x[i] <= 90 {
            x[i] + 32
        } else {
            x[i]
        };
        let q = if y[i] >= 65 && y[i] <= 90 {
            y[i] + 32
        } else {
            y[i]
        };
        if p != q {
            return false;
        }
        i += 1;
    }
    true
}

/// The character `c` as the debugging output of the standard library spells
/// it, between single quotes and with escapes.
pub uninterp spec fn char_debug_text(c: char) -> Seq<char>;

/// The character `c` as the debugging output of the standard library spells
/// it.
///
/// Trusted: this formats with `format!` and the `Debug` impl of `char`.
/// The contract only gives the text a name.
#[verifier::external_body]
pub(crate) fn char_debug(c: char) -> (text: String)
    ensures
        text@ == char_debug_text(c),
{
    format!("{c:?}")
}

/// The digit `d` as a character.
pub open spec fn digit_char(d: nat) -> char {
    if d == 0 {
        '0'
    } else if d == 1 {
        '1'
    } else if d == 2 {
        '2'
    } else if d == 3 {
        '3'
    } else if d == 4 {
        '4'
    } else if d == 5 {
        '5'
    } else if d == 6 {
        '6'
    } else if d == 7 {
        '7'
    } else if d == 8 {
        '8'
    } else {
        '9'
    }
}

/// The number `n` in decimal digits, without zeros in front.
pub open spec fn decimal_text(n: nat) -> Seq<char>
    decreases n,
{
    if n < 10 {
        seq![digit_char(n)]
    } else {
        decimal_text(n / 10).push(digit_char(n % 10))
    }
}

fn digit_str(d: usize) -> (s: &'static str)
    requires
        d < 10,
    ensures
        s@ == seq![digit_char(d as nat)],
{
    proof {
        reveal_strlit("0");
        reveal_strlit("1");
        reveal_strlit("2");
        reveal_strlit("3");
        reveal_strlit("4");
        reveal_strlit("5");
        reveal_strlit("6");
        reveal_strlit("7");
        reveal_strlit("8");
        reveal_strlit("9");
    }
    let s = match d {
        0 => "0",
        1 => "1",
        2 => "2",
        3 => "3",
        4 => "4",
        5 => "5",
        6 => "6",
        7 => "7",
        8 => "8",
        _ => "9",
    };
    assert(s@ =~= seq![digit_char(d as nat)]);
    s
}

/// The number `n` in decimal digits.
pub fn decimal_string(n: usize) -> (s: String)
    ensures
        s@ == decimal_text(n as nat),
    decreases n,
{
    if n < 10 {
        String::from_str(digit_str(n))
    } else {
        let mut s = decimal_string(n / 10);
        s.append(digit_str(n % 10));
        assert(s@ =~= decimal_text(n as nat));
        s
    }
}

/// The boolean that a text in lower case spells: `true`, `false`, or none.
pub open spec fn boolean_spelled(lower: Seq<char>) -> Option<bool> {
    if lower == "true"@ {
        Some(true)
    } else if lower == "false"@ {
        Some(false)
    } else {
        None
    }
}

/// The boolean that the text `lower`, which is in lower case, spells.
pub fn boolean_of_text(lower: &str) -> (b: Option<bool>)
    ensures
        b == boolean_spelled(lower@),
{
    let text = String::from_str(lower);
    let yes = String::from_str("true");
    let no = String::from_str("false");
    if text == yes {
        Some(true)
    } else if text == no {
        Some(false)
    } else {
        None
    }
}

} // verus!
