//! Which characters the terminal is given: emoji or ASCII.

use vstd::prelude::*;
use vstd::string::*;

verus! {

/// Terminal character mode.
#[derive(Debug, Clone, Copy, PartialEq, Eq, Structural)]
pub enum CharMode {
    /// Emoji icons.
    Emoji,
    /// ASCII stand-ins.
    Ascii,
}

/// Chooses the character mode.
#[derive(Debug)]
pub struct TerminalDetector;

/// The mode: `USAGE_FORCE_EMOJI` wins, then `USAGE_FORCE_ASCII`; on Windows,
/// emoji only from Windows 11 on; elsewhere emoji.
pub open spec fn detected_mode(force_emoji: bool, force_ascii: bool, on_windows: bool, windows_11: bool) -> CharMode {
    if force_emoji {
        CharMode::Emoji
    } else if force_ascii {
        CharMode::Ascii
    } else if on_windows && !windows_11 {
        CharMode::Ascii
    } else {
        CharMode::Emoji
    }
}

/// White space as `char::is_whitespace` has it (Unicode `White_Space`).
pub open spec fn is_white_space(c: char) -> bool {
    let v = c as u32;
    ||| 9 <= v <= 13
    ||| v == 32
    ||| v == 0x85
    ||| v == 0xA0
    ||| v == 0x1680
    ||| 0x2000 <= v <= 0x200A
    ||| v == 0x2028
    ||| v == 0x2029
    ||| v == 0x202F
    ||| v == 0x205F
    ||| v == 0x3000
}

/// A text without its leading white space.
pub open spec fn trim_start(s: Seq<char>) -> Seq<char>
    decreases s.len(),
{
    if s.len() > 0 && is_white_space(s[0]) {
        trim_start(s.skip(1))
    } else {
        s
    }
}

/// A text without its trailing white space.
pub open spec fn trim_end(s: Seq<char>) -> Seq<char>
    decreases s.len(),
{
    if s.len() > 0 && is_white_space(s.last()) {
        trim_end(s.drop_last())
    } else {
        s
    }
}

/// A text without leading and trailing white space (as `str::trim`).
pub open spec fn trimmed(s: Seq<char>) -> Seq<char> {
    trim_end(trim_start(s))
}

/// An ASCII decimal digit.
pub open spec fn is_digit(c: char) -> bool {
    48 <= (c as u32) <= 57
}

/// The number that a run of decimal digits spells.
pub open spec fn digits_value(s: Seq<char>) -> nat
    decreases s.len(),
{
    if s.len() == 0 {
        0
    } else {
        digits_value(s.drop_last()) * 10 + ((s.last() as u32) - 48) as nat
    }
}

/// The digits of a number: the text without a leading `+`.
pub open spec fn unsigned_digits(s: Seq<char>) -> Seq<char> {
    if s.len() > 0 && s[0] == '+' {
        s.skip(1)
    } else {
        s
    }
}

/// Every character is a decimal digit.
pub open spec fn all_digits(s: Seq<char>) -> bool {
    forall|i: int| 0 <= i < s.len() ==> is_digit(s[i])
}

/// What `u32::from_str` reads: an optional `+`, then one or more decimal
/// digits whose value fits in `u32`.
pub open spec fn parsed_u32(s: Seq<char>) -> Option<nat> {
    let digits = unsigned_digits(s);
    if digits.len() > 0 && all_digits(digits) && digits_value(digits) <= u32::MAX {
        Some(digits_value(digits))
    } else {
        None
    }
}

/// Reads a `u32` as `u32::from_str` does.
pub fn parse_u32(s: &str) -> (r: Option<u32>)
    ensures
        match parsed_u32(s@) {
            Some(v) => r == Some(v as u32),
            None => r is None,
        },
{
    let n = s.unicode_len();
    let start: usize = if n > 0 && s.get_char(0) == '+' {
        1
    } else {
        0
    };
    let ghost digits = unsigned_digits(s@);
    assert(digits =~= s@.subrange(start as int, n as int));
    if start == n {
        return None;
    }
    let mut value: u64 = 0;
    let mut i: usize = start;
    while i < n
        invariant
            n == s@.len(),
            start <= i <= n,
            digits =~= s@.subrange(start as int, n as int),
            digits == unsigned_digits(s@),
            forall|k: int| start <= k < i ==> is_digit(s@[k]),
            value == digits_value(s@.subrange(start as int, i as int)),
            value <= u32::MAX,
        decreases n - i,
    {
        let c = s.get_char(i);
        let v = c as u32;
        assert(digits[i - start] == s@[i as int]);
        if v < 48 || v > 57 {
            assert(!is_digit(digits[i - start]));
            return None;
        }
        let ghost prefix = s@.subrange(start as int, i + 1);
        assert(prefix.drop_last() =~= s@.subrange(start as int, i as int));
        assert(prefix.last() == c);
        let next = value * 10 + (v - 48) as u64;
        assert(next == digits_value(prefix));
        if next > 4294967295 {
            proof {
                if all_digits(digits) {
                    lemma_digits_value_grows(digits, (i + 1 - start) as int);
                    assert(digits.subrange(0, (i + 1 - start) as int) =~= prefix);
                }
            }
            return None;
        }
        value = next;
        i = i + 1;
    }
    assert(s@.subrange(start as int, n as int) =~= digits);
    Some(value as u32)
}

/// The value of a run of digits is at least that of any of its prefixes.
proof fn lemma_digits_value_grows(s: Seq<char>, k: int)
    requires
        0 <= k <= s.len(),
        all_digits(s),
    ensures
        digits_value(s) >= digits_value(s.subrange(0, k)),
    decreases s.len(),
{
    if k < s.len() {
        assert(s.drop_last().subrange(0, k) =~= s.subrange(0, k));
        lemma_digits_value_grows(s.drop_last(), k);
    } else {
        assert(s.subrange(0, k) =~= s);
    }
}

/// The text without its leading and trailing white space.
pub fn trim_str(s: &str) -> (r: &str)
    ensures
        r@ == trimmed(s@),
{
    let n = s.unicode_len();
    let mut a: usize = 0;
    assert(s@.skip(0) =~= s@);
    while a < n && is_white_space_exec(s.get_char(a))
        invariant
            n == s@.len(),
            a <= n,
            trim_start(s@) == trim_start(s@.skip(a as int)),
        decreases n - a,
    {
        assert(s@.skip(a as int).skip(1) =~= s@.skip(a + 1));
        a = a + 1;
    }
    let ghost front = s@.skip(a as int);
    assert(trim_start(front) == front);
    let mut b: usize = n;
    while b > a && is_white_space_exec(s.get_char(b - 1))
        invariant
            n == s@.len(),
            a <= b <= n,
            front == s@.skip(a as int),
            trim_end(front) == trim_end(s@.subrange(a as int, b as int)),
        decreases b,
    {
        assert(s@.subrange(a as int, b as int).drop_last() =~= s@.subrange(a as int, b - 1));
        b = b - 1;
    }
    assert(front =~= s@.subrange(a as int, n as int));
    s.substring_char(a, b)
}

/// `char::is_whitespace`, by the list of `White_Space` code points.
fn is_white_space_exec(c: char) -> (r: bool)
    ensures
        r == is_white_space(c),
{
    let v = c as u32;
    (9 <= v && v <= 13) || v == 32 || v == 0x85 || v == 0xA0 || v == 0x1680 || (0x2000 <= v && v
        <= 0x200A) || v == 0x2028 || v == 0x2029 || v == 0x202F || v == 0x205F || v == 0x3000
}

impl TerminalDetector {
    /// Detects the character mode from the two overrides (`USAGE_FORCE_EMOJI`
    /// and `USAGE_FORCE_ASCII` set), whether this is Windows, and whether
    /// that Windows is 11 or later.
    pub fn detect(force_emoji: bool, force_ascii: bool, on_windows: bool, windows_11: bool) -> (r: CharMode)
        ensures
            r == detected_mode(force_emoji, force_ascii, on_windows, windows_11),
    {
        if force_emoji {
            return CharMode::Emoji;
        }
        if force_ascii {
            return CharMode::Ascii;
        }
        if on_windows {
            if windows_11 {
                return CharMode::Emoji;
            }
            return CharMode::Ascii;
        }
        CharMode::Emoji
    }

    /// Whether the build number that PowerShell printed is that of Windows
    /// 11 (22000 or later); text that is not a number counts as Windows 10.
    pub fn is_windows_11_build(output: &str) -> (r: bool)
        ensures
            r == (parsed_u32(trimmed(output@)) matches Some(b) && b >= 22000),
    {
        let t = trim_str(output);
        match parse_u32(t) {
            Some(build) => build >= 22000,
            None => false,
        }
    }
}

} // verus!
