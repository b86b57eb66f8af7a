//! Settings read at start-up: numbers given as text, with a fallback where a
//! setting is absent or is not a number.
use vstd::prelude::*;

use crate::scheduler::SchedulerConfig;

verus! {

/// An ASCII decimal digit.
pub open spec fn is_digit(c: char) -> bool {
    '0' <= c <= '9'
}

/// The value of a string of decimal digits.
pub open spec fn digits_value(s: Seq<char>) -> nat
    decreases s.len(),
{
    if s.len() == 0 {
        0
    } else {
        digits_value(s.drop_last()) * 10 + (s.last() as nat - '0' as nat) as nat
    }
}

/// The text after a leading `+`, or the whole text where there is none.
pub open spec fn unsigned_body(s: Seq<char>) -> Seq<char> {
    if s.len() > 0 && s[0] == '+' {
        s.drop_first()
    } else {
        s
    }
}

/// Every character of the text is a decimal digit.
pub open spec fn all_digits(s: Seq<char>) -> bool {
    forall|i: int| 0 <= i < s.len() ==> is_digit(#[trigger] s[i])
}

/// The number an unsigned decimal denotes: an optional `+` followed by one
/// or more digits, and nothing else (no sign `-`, no spaces).
pub open spec fn unsigned_decimal(s: Seq<char>) -> Option<nat> {
    if unsigned_body(s).len() > 0 && all_digits(unsigned_body(s)) {
        Some(digits_value(unsigned_body(s)))
    } else {
        None
    }
}

/// Calls `str::parse::<u64>`. Claims what std documents for it: the text
/// must be an optional `+` followed by decimal digits only, and the value
/// must fit in a `u64`.
#[verifier::external_body]
fn parse_u64(s: &str) -> (r: Option<u64>)
    ensures
        r is Some <==> (unsigned_decimal(s@) is Some && unsigned_decimal(s@)->0 <= u64::MAX),
        r is Some ==> r->0 == unsigned_decimal(s@)->0,
{
    s.parse::<u64>().ok()
}

/// Calls `str::parse::<usize>`. Claims what std documents for it: the text
/// must be an optional `+` followed by decimal digits only, and the value
/// must fit in a `usize`.
#[verifier::external_body]
fn parse_usize(s: &str) -> (r: Option<usize>)
    ensures
        r is Some <==> (unsigned_decimal(s@) is Some && unsigned_decimal(s@)->0 <= usize::MAX),
        r is Some ==> r->0 == unsigned_decimal(s@)->0,
{
    s.parse::<usize>().ok()
}

/// The value of a numeric setting: the number its text denotes where the
/// setting is present and denotes one that fits, else the fallback.
pub open spec fn setting_value(raw: Option<Seq<char>>, default: nat, max: nat) -> nat {
    match raw {
        Some(text) => match unsigned_decimal(text) {
            Some(v) => if v <= max { v } else { default },
            None => default,
        },
        None => default,
    }
}

/// The view of an optional piece of text.
pub open spec fn text_view(raw: Option<&str>) -> Option<Seq<char>> {
    match raw {
        Some(s) => Some(s@),
        None => None,
    }
}

/// Reads a `u64` setting from its text, falling back to `default`.
pub fn env_num_u64(raw: Option<&str>, default: u64) -> (r: u64)
    ensures
        r == setting_value(text_view(raw), default as nat, u64::MAX as nat),
{
    match raw {
        Some(text) => match parse_u64(text) {
            Some(v) => v,
            None => default,
        },
        None => default,
    }
}

/// Reads a `usize` setting from its text, falling back to `default`.
pub fn env_num_usize(raw: Option<&str>, default: usize) -> (r: usize)
    ensures
        r == setting_value(text_view(raw), default as nat, usize::MAX as nat),
{
    match raw {
        Some(text) => match parse_usize(text) {
            Some(v) => v,
            None => default,
        },
        None => default,
    }
}

/// The queue depth used where none is set.
pub const DEFAULT_QUEUE_DEPTH: usize = 100;

/// The batching window used where none is set: batching is off.
pub const DEFAULT_WINDOW_MS: u64 = 0;

impl SchedulerConfig {
    /// The scheduler's configuration from the texts of its two settings
    /// (the batching window in milliseconds and the queue depth), each
    /// falling back to its default where absent or not a number.
    pub fn from_settings(window_ms: Option<&str>, queue_depth: Option<&str>) -> (c: SchedulerConfig)
        ensures
            c.window_ms == setting_value(text_view(window_ms), DEFAULT_WINDOW_MS as nat, u64::MAX as nat),
            c.queue_depth == setting_value(text_view(queue_depth), DEFAULT_QUEUE_DEPTH as nat, usize::MAX as nat),
            window_ms is None ==> c.window_ms == 0,
            queue_depth is None ==> c.queue_depth == 100,
    {
        SchedulerConfig {
            window_ms: env_num_u64(window_ms, DEFAULT_WINDOW_MS),
            queue_depth: env_num_usize(queue_depth, DEFAULT_QUEUE_DEPTH),
        }
    }
}

/// Appending a digit to a string of digits multiplies its value by ten and
/// adds the digit.
pub proof fn lemma_digits_value_push(s: Seq<char>, c: char)
    requires
        is_digit(c),
    ensures
        digits_value(s.push(c)) == digits_value(s) * 10 + (c as nat - '0' as nat),
        digits_value(seq![c]) == c as nat - '0' as nat,
{
    assert(s.push(c).drop_last() =~= s);
    assert(seq![c].drop_last() =~= Seq::<char>::empty());
    assert(seq![c].last() == c);
    assert(digits_value(Seq::<char>::empty()) == 0);
    assert(digits_value(seq![c]) == digits_value(seq![c].drop_last()) * 10 + (c as nat - '0' as nat) as nat);
}

/// A setting takes the number its text denotes where that number fits, and
/// the fallback where the setting is absent, is no unsigned decimal, or
/// denotes too large a number.
pub proof fn lemma_setting_value(raw: Option<Seq<char>>, default: nat, max: nat)
    ensures
        raw is None ==> setting_value(raw, default, max) == default,
        raw is Some && unsigned_decimal(raw->0) is Some && unsigned_decimal(raw->0)->0 <= max
            ==> setting_value(raw, default, max) == unsigned_decimal(raw->0)->0,
        raw is Some && !(unsigned_decimal(raw->0) is Some && unsigned_decimal(raw->0)->0 <= max)
            ==> setting_value(raw, default, max) == default,
{
}

/// Text with no digits, or with anything but digits after an optional
/// leading `+`, denotes no number; a leading `+` is optional.
pub proof fn lemma_unsigned_decimal(s: Seq<char>)
    ensures
        s.len() == 0 ==> unsigned_decimal(s) is None,
        s == seq!['+'] ==> unsigned_decimal(s) is None,
        s.len() > 0 && !is_digit(s[0]) && s[0] != '+' ==> unsigned_decimal(s) is None,
        s.len() > 0 && s[0] != '+' ==> unsigned_decimal(seq!['+'] + s) == unsigned_decimal(s),
        s.len() > 0 && all_digits(s) ==> unsigned_decimal(s) == Some(digits_value(s)),
{
    if s.len() > 0 && s[0] != '+' {
        assert((seq!['+'] + s).drop_first() =~= s);
    }
    if s.len() > 0 && !is_digit(s[0]) && s[0] != '+' {
        assert(unsigned_body(s) == s);
        assert(!is_digit(unsigned_body(s)[0]));
    }
    if s == seq!['+'] {
        assert(unsigned_body(s) =~= Seq::<char>::empty());
    }
}

/// With nothing configured, batching is off and up to 100 requests may wait.
pub proof fn lemma_defaults_disable_batching()
    ensures
        setting_value(None, DEFAULT_WINDOW_MS as nat, u64::MAX as nat) == 0,
        setting_value(None, DEFAULT_QUEUE_DEPTH as nat, usize::MAX as nat) == 100,
{
}

} // verus!
