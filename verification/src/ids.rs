//! Correlation identifiers: wall-clock reading, decimal rendering, and the
//! `yx-<ts>-<n>` trace-id format every dispatched command carries.
use vstd::prelude::*;

use vstd::string::StringExecFns;

verus! {

/// Relies on std::time::SystemTime::now and duration_since(UNIX_EPOCH): the
/// wall clock in milliseconds. Nothing is promised of a clock reading.
#[verifier::external_body]
pub fn now_ms() -> u64 {
    std::time::SystemTime::now()
        .duration_since(std::time::UNIX_EPOCH)
        .unwrap_or_default()
        .as_millis() as u64
}

pub open spec fn spec_digit_char(d: int) -> char {
    if d == 0 {
        '0'
    } else if d == 1 {
        '1'
    } else if d == 2 {
        '2'
    } else if d == 3 {
        '3'
    } else if d == 4 {
        '4'
    } else if d == 5 {
        '5'
    } else if d == 6 {
        '6'
    } else if d == 7 {
        '7'
    } else if d == 8 {
        '8'
    } else {
        '9'
    }
}

/// The usual decimal rendering: most significant digit first, no sign, no
/// leading zeroes except for zero itself.
pub open spec fn spec_u64_string(n: nat) -> Seq<char>
    decreases n,
{
    if n < 10 {
        seq![spec_digit_char(n as int)]
    } else {
        spec_u64_string(n / 10) + seq![spec_digit_char((n % 10) as int)]
    }
}

fn push_u64_digits(s: &mut String, n: u64)
    ensures
        final(s)@ == old(s)@ + spec_u64_string(n as nat),
    decreases n,
{
    let ghost entry = s@;
    if n >= 10 {
        push_u64_digits(s, n / 10);
    }
    let d = n % 10;
    let ds: &str = if d == 0 {
        "0"
    } else if d == 1 {
        "1"
    } else if d == 2 {
        "2"
    } else if d == 3 {
        "3"
    } else if d == 4 {
        "4"
    } else if d == 5 {
        "5"
    } else if d == 6 {
        "6"
    } else if d == 7 {
        "7"
    } else if d == 8 {
        "8"
    } else {
        "9"
    };
    proof {
        reveal_strlit("0");
        reveal_strlit("1");
        reveal_strlit("2");
        reveal_strlit("3");
        reveal_strlit("4");
        reveal_strlit("5");
        reveal_strlit("6");
        reveal_strlit("7");
        reveal_strlit("8");
        reveal_strlit("9");
        assert(ds@ =~= seq![spec_digit_char(d as int)]);
    }
    s.append(ds);
    proof {
        if n >= 10 {
            assert(s@ =~= entry + spec_u64_string(n as nat));
        } else {
            assert(s@ =~= entry + spec_u64_string(n as nat));
        }
    }
}

/// Renders an unsigned integer in decimal.
pub fn u64_string(n: u64) -> (r: String)
    ensures
        r@ == spec_u64_string(n as nat),
{
    let mut s = String::new();
    push_u64_digits(&mut s, n);
    proof {
        assert(s@ =~= spec_u64_string(n as nat));
    }
    s
}

/// The trace-id format: `yx-`, the issuing time in milliseconds, `-`, and a
/// per-process counter value.
pub open spec fn spec_trace_id(ts: u64, n: u64) -> Seq<char> {
    "yx-"@ + spec_u64_string(ts as nat) + "-"@ + spec_u64_string(n as nat)
}

/// Builds the trace id for a given clock reading and counter value.
pub fn format_trace_id(ts: u64, n: u64) -> (r: String)
    ensures
        r@ == spec_trace_id(ts, n),
{
    let mut s = String::from_str("yx-");
    let ts_s = u64_string(ts);
    s.append(ts_s.as_str());
    s.append("-");
    let n_s = u64_string(n);
    s.append(n_s.as_str());
    proof {
        assert(s@ =~= spec_trace_id(ts, n));
    }
    s
}

/// Issues a fresh trace id from the clock and a caller-owned counter, and
/// advances the counter.
pub fn next_trace_id(counter: &mut u64) -> (r: String)
    requires
        *old(counter) < u64::MAX,
    ensures
        *final(counter) == *old(counter) + 1,
        exists|ts: u64| r@ == spec_trace_id(ts, *old(counter)),
{
    let ts = now_ms();
    let id = format_trace_id(ts, *counter);
    *counter = *counter + 1;
    proof {
        assert(id@ == spec_trace_id(ts, *old(counter)));
    }
    id
}

} // verus!
