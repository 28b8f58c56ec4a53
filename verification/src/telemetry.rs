//! The periodic status message: what it says, and how often it is sent.

use vstd::prelude::*;
use vstd::string::StringExecFns;
use vstd::utf8::is_ascii_chars;
use crate::state::State;

verus! {

/// The period between two status messages where none is configured, in
/// milliseconds.
pub const DEFAULT_HEARTBEAT_MS: u64 = 3000;

/// The status message for a lock in `state`.
pub open spec fn spec_heartbeat_message(state: State) -> Seq<char> {
    "Smart Lock: "@ + state.spec_name()
}

/// The status message for a lock in `state`: a fixed prefix and the name of
/// the state.
pub fn heartbeat_message(state: State) -> (message: String)
    ensures
        message@ == spec_heartbeat_message(state),
{
    let mut message = String::from_str("Smart Lock: ");
    message.append(state.name());
    message
}

/// The ASCII code of the plus sign.
const PLUS: u8 = 43;

/// The ASCII code of the digit zero.
const ZERO: u8 = 48;

/// The ASCII code of the digit nine.
const NINE: u8 = 57;

/// Whether `c` is one of the ten decimal digits.
pub open spec fn is_digit(c: char) -> bool {
    '0' <= c && c <= '9'
}

/// The value of the decimal digit `c`.
pub open spec fn digit_value(c: char) -> nat {
    (c as u8 - 48u8) as nat
}

/// Whether `s` holds decimal digits only.
pub open spec fn all_digits(s: Seq<char>) -> bool {
    forall|i: int| 0 <= i < s.len() ==> is_digit(#[trigger] s[i])
}

/// The number that the decimal digits of `digits` write.
pub open spec fn decimal_value(digits: Seq<char>) -> nat
    decreases digits.len(),
{
    if digits.len() == 0 {
        0
    } else {
        10 * decimal_value(digits.drop_last()) + digit_value(digits.last())
    }
}

/// `text` without the plus sign that may lead it.
pub open spec fn unsigned_part(text: Seq<char>) -> Seq<char> {
    if text.len() > 0 && text[0] == '+' {
        text.skip(1)
    } else {
        text
    }
}

/// The number that `text` reads as: decimal digits, at least one, with at
/// most a plus sign before them, and a value that fits in a `u64`. Any other
/// text, white space around a number included, reads as no number.
pub open spec fn spec_parse_u64(text: Seq<char>) -> Option<u64> {
    let digits = unsigned_part(text);
    if digits.len() > 0 && all_digits(digits) && decimal_value(digits) <= u64::MAX {
        Some(decimal_value(digits) as u64)
    } else {
        None
    }
}

/// A text with a character beyond ASCII reads as no number.
proof fn lemma_beyond_ascii_is_no_number(text: Seq<char>)
    requires
        !is_ascii_chars(text),
    ensures
        spec_parse_u64(text) is None,
{
    let j = choose|j: int| 0 <= j < text.len() && !('\0' <= #[trigger] text[j] <= '\u{7f}');
    let digits = unsigned_part(text);
    if text.len() > 0 && text[0] == '+' {
        assert(digits[j - 1] == text[j]);
    } else {
        assert(digits[j] == text[j]);
    }
}

/// The first `k` digits of a number write no more than all of them.
proof fn lemma_prefix_writes_no_more(digits: Seq<char>, k: int)
    requires
        0 <= k <= digits.len(),
    ensures
        decimal_value(digits.take(k)) <= decimal_value(digits),
    decreases digits.len(),
{
    if k == digits.len() {
        assert(digits.take(k) =~= digits);
    } else {
        lemma_prefix_writes_no_more(digits.drop_last(), k);
        assert(digits.drop_last().take(k) =~= digits.take(k));
    }
}

/// Reads `text` as a `u64`, as `spec_parse_u64` says.
pub fn parse_u64(text: &str) -> (parsed: Option<u64>)
    ensures
        parsed == spec_parse_u64(text@),
{
    if !text.is_ascii() {
        proof {
            lemma_beyond_ascii_is_no_number(text@);
        }
        return None;
    }
    let bytes = text.as_bytes();
    let n: usize = bytes.len();
    let start: usize = if n > 0 && bytes[0] == PLUS {
        1
    } else {
        0
    };
    let ghost digits = unsigned_part(text@);
    if start == n {
        return None;
    }
    let mut value: u64 = 0;
    let mut i: usize = start;
    while i < n
        invariant
            start <= i <= n,
            n == bytes@.len(),
            n == text@.len(),
            bytes@ == Seq::new(text@.len(), |k: int| text@[k] as u8),
            is_ascii_chars(text@),
            digits == text@.skip(start as int),
            digits == unsigned_part(text@),
            all_digits(digits.take(i - start)),
            value == decimal_value(digits.take(i - start)),
        decreases n - i,
    {
        let b: u8 = bytes[i];
        assert(digits[i - start] == text@[i as int]);
        if b < ZERO || b > NINE {
            return None;
        }
        let d: u64 = (b - ZERO) as u64;
        proof {
            assert(digits.take(i + 1 - start).drop_last() =~= digits.take(i - start));
        }
        if value > (u64::MAX - d) / 10 {
            proof {
                lemma_prefix_writes_no_more(digits, i + 1 - start);
            }
            return None;
        }
        value = value * 10 + d;
        i += 1;
    }
    assert(digits.take(n - start) =~= digits);
    Some(value)
}

/// The period to use for a configured value that read as `parsed`.
pub open spec fn spec_period(parsed: Option<u64>) -> u64 {
    match parsed {
        Some(ms) => ms,
        None => DEFAULT_HEARTBEAT_MS,
    }
}

/// The period between two status messages, in milliseconds, from its
/// configured text: the number that the text reads as, or the default where
/// it reads as no number.
pub fn heartbeat_period(text: &str) -> (ms: u64)
    ensures
        ms == spec_period(spec_parse_u64(text@)),
{
    match parse_u64(text) {
        Some(ms) => ms,
        None => DEFAULT_HEARTBEAT_MS,
    }
}

} // verus!
