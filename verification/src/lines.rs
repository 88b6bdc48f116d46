//! Construction of the textual log lines and operator messages: decimal
//! rendering of counters, the success line, the two failure lines, and the
//! description of an outcome.

use vstd::prelude::*;
use crate::outcome::CheckinOutcome;

verus! {

/// The character for one decimal digit.
pub open spec fn digit_char(d: nat) -> char {
    if d == 0 {
        '0'
    } else if d == 1 {
        '1'
    } else if d == 2 {
        '2'
    } else if d == 3 {
        '3'
    } else if d == 4 {
        '4'
    } else if d == 5 {
        '5'
    } else if d == 6 {
        '6'
    } else if d == 7 {
        '7'
    } else if d == 8 {
        '8'
    } else {
        '9'
    }
}

/// The decimal rendering of `n`, most significant digit first, with no
/// leading zeroes (a single `0` for zero).
pub open spec fn decimal_digits(n: nat) -> Seq<char>
    decreases n,
{
    if n < 10 {
        seq![digit_char(n)]
    } else {
        decimal_digits(n / 10).push(digit_char(n % 10))
    }
}

fn digit_str(d: u32) -> (r: &'static str)
    requires
        d < 10,
    ensures
        r@ == seq![digit_char(d as nat)],
{
    proof {
        reveal_strlit("0");
        reveal_strlit("1");
        reveal_strlit("2");
        reveal_strlit("3");
        reveal_strlit("4");
        reveal_strlit("5");
        reveal_strlit("6");
        reveal_strlit("7");
        reveal_strlit("8");
        reveal_strlit("9");
    }
    let r: &'static str = if d == 0 {
        "0"
    } else if d == 1 {
        "1"
    } else if d == 2 {
        "2"
    } else if d == 3 {
        "3"
    } else if d == 4 {
        "4"
    } else if d == 5 {
        "5"
    } else if d == 6 {
        "6"
    } else if d == 7 {
        "7"
    } else if d == 8 {
        "8"
    } else {
        "9"
    };
    assert(r@ =~= seq![digit_char(d as nat)]);
    r
}

/// Renders a counter in decimal.
pub fn u32_to_decimal(n: u32) -> (r: String)
    ensures
        r@ == decimal_digits(n as nat),
    decreases n,
{
    if n < 10 {
        String::from_str(digit_str(n))
    } else {
        let mut s = u32_to_decimal(n / 10);
        s.append(digit_str(n % 10));
        assert(s@ =~= decimal_digits(n as nat));
        s
    }
}

/// The success log line: timestamp, account e-mail, service message, and
/// the truncated change and balance figures.
pub open spec fn success_line_of(
    ts: Seq<char>,
    email: Seq<char>,
    message: Seq<char>,
    change: Seq<char>,
    balance: Seq<char>,
) -> Seq<char> {
    "["@ + ts + "] Account: "@ + email + ", Message: "@ + message + ", Change: "@ + change
        + ", Balance: "@ + balance
}

/// The line logged when an account's retry budget is exhausted: timestamp,
/// e-mail, the number of attempts made, and the final failure's detail.
pub open spec fn exhaustion_line_of(
    ts: Seq<char>,
    email: Seq<char>,
    attempts: nat,
    detail: Seq<char>,
) -> Seq<char> {
    "["@ + ts + "] Account "@ + email + " check-in failed (after "@ + decimal_digits(attempts)
        + " attempts): "@ + detail
}

/// The orchestration-level line logged in addition when an account's task
/// ends in failure: timestamp, e-mail, and the failure's detail.
pub open spec fn processing_failed_line_of(ts: Seq<char>, email: Seq<char>, detail: Seq<char>) -> Seq<
    char,
> {
    "["@ + ts + "] Account "@ + email + " processing failed: "@ + detail
}

/// Builds the success log line.
pub fn success_log_line(ts: &str, email: &str, message: &str, change: &str, balance: &str) -> (r:
    String)
    ensures
        r@ == success_line_of(ts@, email@, message@, change@, balance@),
{
    let mut s = String::from_str("[");
    s.append(ts);
    s.append("] Account: ");
    s.append(email);
    s.append(", Message: ");
    s.append(message);
    s.append(", Change: ");
    s.append(change);
    s.append(", Balance: ");
    s.append(balance);
    assert(s@ =~= success_line_of(ts@, email@, message@, change@, balance@));
    s
}

/// Builds the retry-exhaustion log line.
pub fn exhaustion_log_line(ts: &str, email: &str, attempts: u32, detail: &str) -> (r: String)
    ensures
        r@ == exhaustion_line_of(ts@, email@, attempts as nat, detail@),
{
    let count = u32_to_decimal(attempts);
    let mut s = String::from_str("[");
    s.append(ts);
    s.append("] Account ");
    s.append(email);
    s.append(" check-in failed (after ");
    s.append(count.as_str());
    s.append(" attempts): ");
    s.append(detail);
    assert(s@ =~= exhaustion_line_of(ts@, email@, attempts as nat, detail@));
    s
}

/// Builds the orchestration-level failure log line.
pub fn processing_failed_log_line(ts: &str, email: &str, detail: &str) -> (r: String)
    ensures
        r@ == processing_failed_line_of(ts@, email@, detail@),
{
    let mut s = String::from_str("[");
    s.append(ts);
    s.append("] Account ");
    s.append(email);
    s.append(" processing failed: ");
    s.append(detail);
    assert(s@ =~= processing_failed_line_of(ts@, email@, detail@));
    s
}

/// The one-line description of an outcome, as embedded in failure log
/// lines: a transport failure is described by its error text alone, the
/// other failures by their preserved fields.
pub open spec fn outcome_description(o: CheckinOutcome) -> Seq<char> {
    match o {
        CheckinOutcome::Success { .. } => "check-in succeeded"@,
        CheckinOutcome::BusinessFailure { http_status, message } => "check-in failed - HTTP status: "@
            + decimal_digits(http_status as nat) + ", message: "@ + message@,
        CheckinOutcome::ParseFailure { raw_body, parse_error } => "response parse failed: "@
            + parse_error@ + "\nresponse body: "@ + raw_body@,
        CheckinOutcome::TransportFailure { error } => error@,
    }
}

impl CheckinOutcome {
    /// Describes this outcome for a log line or an operator message.
    pub fn describe(&self) -> (r: String)
        ensures
            r@ == outcome_description(*self),
    {
        match self {
            CheckinOutcome::Success { .. } => String::from_str("check-in succeeded"),
            CheckinOutcome::BusinessFailure { http_status, message } => {
                let count = u32_to_decimal(*http_status as u32);
                let mut s = String::from_str("check-in failed - HTTP status: ");
                s.append(count.as_str());
                s.append(", message: ");
                s.append(message.as_str());
                assert(s@ =~= outcome_description(*self));
                s
            },
            CheckinOutcome::ParseFailure { raw_body, parse_error } => {
                let mut s = String::from_str("response parse failed: ");
                s.append(parse_error.as_str());
                s.append("\nresponse body: ");
                s.append(raw_body.as_str());
                assert(s@ =~= outcome_description(*self));
                s
            },
            CheckinOutcome::TransportFailure { error } => String::from_str(error.as_str()),
        }
    }
}

} // verus!
