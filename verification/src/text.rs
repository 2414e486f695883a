//! Text rendering shared by the reports: decimal numbers and durations.

use vstd::prelude::*;

verus! {

/// Nanoseconds in one second.
pub const NANOS_PER_SEC: u128 = 1_000_000_000;

/// The largest number of nanoseconds a `std::time::Duration` can hold:
/// `u64::MAX` whole seconds plus 999_999_999 nanoseconds.
pub const MAX_DURATION_NANOS: u128 = 18_446_744_073_709_551_615_999_999_999;

/// The character of a decimal digit.
pub open spec fn digit_char(d: nat) -> char {
    (48 + d) as char
}

/// The decimal notation of a natural number, most significant digit first.
pub open spec fn decimal(n: nat) -> Seq<char>
    decreases n,
{
    if n < 10 {
        seq![digit_char(n)]
    } else {
        decimal(n / 10).push(digit_char(n % 10))
    }
}

/// The text that `{:?}` gives for `std::time::Duration::new(secs, nanos)`.
pub uninterp spec fn duration_debug_text(secs: u64, nanos: u32) -> Seq<char>;

/// The text of a duration given in nanoseconds, as `{:?}` renders it.
pub open spec fn duration_text(nanos: nat) -> Seq<char> {
    duration_debug_text((nanos / NANOS_PER_SEC as nat) as u64, (nanos % NANOS_PER_SEC as nat) as u32)
}

/// Formats `std::time::Duration::new(secs, nanos)` with `{:?}` (its `Debug`
/// impl, such as `1.5s` or `250ms`). The contract claims only that the text
/// is a function of the two arguments; `Duration::new` cannot panic here
/// since `nanos` is below one second.
#[verifier::external_body]
fn duration_debug(secs: u64, nanos: u32) -> (text: String)
    requires
        nanos < 1_000_000_000,
    ensures
        text@ == duration_debug_text(secs, nanos),
{
    format!("{:?}", std::time::Duration::new(secs, nanos))
}

proof fn lemma_split_fits(n: u128)
    requires
        n <= MAX_DURATION_NANOS,
    ensures
        n / NANOS_PER_SEC <= u64::MAX,
        n % NANOS_PER_SEC < 1_000_000_000,
{
    assert(n / NANOS_PER_SEC <= u64::MAX) by (nonlinear_arith)
        requires
            n <= 18_446_744_073_709_551_615_999_999_999u128,
            NANOS_PER_SEC == 1_000_000_000u128,
    ;
}

/// Renders a duration given in nanoseconds the way `{:?}` renders the
/// `Duration` of that length.
pub fn format_duration(nanos: u128) -> (text: String)
    requires
        nanos <= MAX_DURATION_NANOS,
    ensures
        text@ == duration_text(nanos as nat),
{
    proof {
        lemma_split_fits(nanos);
    }
    let secs = (nanos / NANOS_PER_SEC) as u64;
    let sub = (nanos % NANOS_PER_SEC) as u32;
    duration_debug(secs, sub)
}

/// The one-character text of a decimal digit.
fn digit_str(d: usize) -> (s: &'static str)
    requires
        d < 10,
    ensures
        s@ == seq![digit_char(d as nat)],
{
    proof {
        reveal_strlit("0");
        reveal_strlit("1");
        reveal_strlit("2");
        reveal_strlit("3");
        reveal_strlit("4");
        reveal_strlit("5");
        reveal_strlit("6");
        reveal_strlit("7");
        reveal_strlit("8");
        reveal_strlit("9");
    }
    match d {
        0 => "0",
        1 => "1",
        2 => "2",
        3 => "3",
        4 => "4",
        5 => "5",
        6 => "6",
        7 => "7",
        8 => "8",
        _ => "9",
    }
}

/// The decimal notation of `n`, as `n.to_string()` gives it.
pub fn format_decimal(n: usize) -> (text: String)
    ensures
        text@ == decimal(n as nat),
    decreases n,
{
    if n < 10 {
        String::from_str(digit_str(n))
    } else {
        let mut text = format_decimal(n / 10);
        text.append(digit_str(n % 10));
        text
    }
}

} // verus!
