//! Interpretation of one check-in exchange: the response fields that the
//! service reads, decimal-string truncation, and the classification of a
//! response into exactly one [`CheckinOutcome`] variant.

use vstd::prelude::*;

verus! {

/// The fields of one element of the response's `list` array, as far as the
/// check-in logic reads them: each is `None` when the field is absent or not
/// a JSON string.
#[derive(Debug, Clone)]
pub struct ListEntry {
    pub change: Option<String>,
    pub balance: Option<String>,
}

/// The fields of a check-in response body, as far as the check-in logic
/// reads them. `code` is `None` when the field is absent or not an integer
/// that fits in `i64`; `message` is `None` when absent or not a string;
/// `first_entry` is `None` when `list` is absent, not an array, or empty.
#[derive(Debug, Clone)]
pub struct RawResponse {
    pub code: Option<i64>,
    pub message: Option<String>,
    pub first_entry: Option<ListEntry>,
}

/// The result of one check-in attempt: exactly one variant per attempt.
#[derive(Debug, Clone)]
pub enum CheckinOutcome {
    /// The service reported business success (`code == 1`). `change` and
    /// `balance` are decimal strings truncated at the first `.`; both are
    /// empty when the response's `list` was absent or empty.
    Success { message: String, change: String, balance: String },
    /// The service responded with valid JSON whose `code` is not 1.
    BusinessFailure { http_status: u16, message: String },
    /// The response body was not valid JSON; `raw_body` preserves the body
    /// verbatim for diagnosis.
    ParseFailure { raw_body: String, parse_error: String },
    /// The HTTP exchange itself failed (header construction, network, TLS).
    TransportFailure { error: String },
}

/// What `serde_json` reads out of a body text: `None` when the text is not
/// valid JSON, otherwise the response fields, which depend on the text alone.
pub uninterp spec fn response_of(body: Seq<char>) -> Option<RawResponse>;

/// Relies on `serde_json::from_str::<Value>` returning the JSON value that
/// the body text denotes, and on `serde_json::Value`'s accessors: indexing
/// by a key (`Null` for a missing key or a non-object), `as_i64`, `as_str`,
/// and `as_array`. The name `response_of` stands for this one fixed
/// composite of those calls, not for any single one of them; each call is
/// a total, deterministic read, so the composite is a function of the body
/// text alone.
#[verifier::external_body]
pub(crate) fn parse_response(body: &str) -> (r: Result<RawResponse, String>)
    ensures
        r is Ok <==> response_of(body@) is Some,
        r matches Ok(f) ==> Some(f) == response_of(body@),
{
    match serde_json::from_str::<serde_json::Value>(body) {
        Err(e) => Err(e.to_string()),
        Ok(v) => Ok(
            RawResponse {
                code: v["code"].as_i64(),
                message: v["message"].as_str().map(|s| s.to_string()),
                first_entry: v["list"].as_array().and_then(|a| a.first()).map(
                    |entry| ListEntry {
                        change: entry["change"].as_str().map(|s| s.to_string()),
                        balance: entry["balance"].as_str().map(|s| s.to_string()),
                    },
                ),
            },
        ),
    }
}

/// The index of the first `.` in `s`, or `s.len()` when there is none.
pub open spec fn first_dot(s: Seq<char>) -> int
    decreases s.len(),
{
    if s.len() == 0 {
        0
    } else if s[0] == '.' {
        0
    } else {
        1 + first_dot(s.drop_first())
    }
}

/// `s` cut at the first `.`: everything from the first `.` onward is
/// discarded, without rounding; `s` itself when it holds no `.`.
pub open spec fn truncated_at_dot(s: Seq<char>) -> Seq<char> {
    s.take(first_dot(s))
}

proof fn lemma_first_dot_at(s: Seq<char>, i: int)
    requires
        0 <= i <= s.len(),
        forall|j: int| 0 <= j < i ==> s[j] != '.',
        i < s.len() ==> s[i] == '.',
    ensures
        first_dot(s) == i,
    decreases i,
{
    if s.len() == 0 {
    } else if i == 0 {
    } else {
        lemma_first_dot_at(s.drop_first(), i - 1);
    }
}

/// Cuts a decimal string at the first `.`, keeping only the integer portion:
/// `"12.50"` becomes `"12"`, `"-3"` stays `"-3"`.
pub fn truncate_decimal(s: &str) -> (r: String)
    ensures
        r@ == truncated_at_dot(s@),
{
    let n = s.unicode_len();
    let mut i: usize = 0;
    while i < n
        invariant
            n == s@.len(),
            i <= n,
            forall|j: int| 0 <= j < i ==> s@[j] != '.',
        decreases n - i,
    {
        if s.get_char(i) == '.' {
            proof {
                lemma_first_dot_at(s@, i as int);
            }
            let prefix = s.substring_char(0, i);
            assert(prefix@ =~= truncated_at_dot(s@));
            return String::from_str(prefix);
        }
        i = i + 1;
    }
    proof {
        lemma_first_dot_at(s@, n as int);
    }
    assert(s@ =~= truncated_at_dot(s@));
    String::from_str(s)
}

/// The business code that the check-in logic acts on: the response's `code`
/// field, or 0 when it is absent or not an integer.
pub open spec fn effective_code(f: RawResponse) -> int {
    match f.code {
        Some(c) => c as int,
        None => 0,
    }
}

/// The message reported on business success: the response's `message`
/// field, or "No message" when absent.
pub open spec fn success_message_of(f: RawResponse) -> Seq<char> {
    match f.message {
        Some(m) => m@,
        None => "No message"@,
    }
}

/// The message reported on business failure: the response's `message`
/// field, or the service's own wording for an unknown error when absent.
pub open spec fn failure_message_of(f: RawResponse) -> Seq<char> {
    match f.message {
        Some(m) => m@,
        None => "未知错误"@,
    }
}

/// The `change` figure carried by a Success outcome: the first list entry's
/// `change` (default "0"), truncated at the first `.`; empty when the list
/// itself is absent or empty.
pub open spec fn change_of(f: RawResponse) -> Seq<char> {
    match f.first_entry {
        Some(e) => match e.change {
            Some(c) => truncated_at_dot(c@),
            None => "0"@,
        },
        None => ""@,
    }
}

/// The `balance` figure carried by a Success outcome, read like `change_of`.
pub open spec fn balance_of(f: RawResponse) -> Seq<char> {
    match f.first_entry {
        Some(e) => match e.balance {
            Some(b) => truncated_at_dot(b@),
            None => "0"@,
        },
        None => ""@,
    }
}

/// How a parsed response must be classified: business success exactly when
/// the effective code is 1, business failure otherwise, with the messages
/// and figures fixed by the field-reading rules above.
pub open spec fn classified_as(http_status: u16, f: RawResponse, r: CheckinOutcome) -> bool {
    if effective_code(f) == 1 {
        r matches CheckinOutcome::Success { message, change, balance }
            && message@ == success_message_of(f) && change@ == change_of(f) && balance@
            == balance_of(f)
    } else {
        r matches CheckinOutcome::BusinessFailure { http_status: st, message } && st == http_status
            && message@ == failure_message_of(f)
    }
}

/// Classifies an already-parsed response: `Success` exactly when the
/// effective business code is 1, else `BusinessFailure` carrying the HTTP
/// status.
pub fn classify_parsed(http_status: u16, f: RawResponse) -> (r: CheckinOutcome)
    ensures
        classified_as(http_status, f, r),
        r is Success <==> effective_code(f) == 1,
{
    let code_val: i64 = match &f.code {
        Some(c) => *c,
        None => 0,
    };
    if code_val == 1 {
        let message = match f.message {
            Some(m) => m,
            None => String::from_str("No message"),
        };
        match f.first_entry {
            Some(e) => {
                let change = match e.change {
                    Some(c) => truncate_decimal(c.as_str()),
                    None => String::from_str("0"),
                };
                let balance = match e.balance {
                    Some(b) => truncate_decimal(b.as_str()),
                    None => String::from_str("0"),
                };
                CheckinOutcome::Success { message, change, balance }
            },
            None => CheckinOutcome::Success {
                message,
                change: String::from_str(""),
                balance: String::from_str(""),
            },
        }
    } else {
        let message = match f.message {
            Some(m) => m,
            None => String::from_str("未知错误"),
        };
        CheckinOutcome::BusinessFailure { http_status, message }
    }
}

/// What `classify_response` must return for a given status and body: a
/// parse failure preserving the body verbatim when the body is not valid
/// JSON, else the classification of the parsed fields.
pub open spec fn response_classified_as(http_status: u16, body: Seq<char>, r: CheckinOutcome) -> bool {
    match response_of(body) {
        None => r matches CheckinOutcome::ParseFailure { raw_body, parse_error: _ } && raw_body@
            == body,
        Some(f) => classified_as(http_status, f, r),
    }
}

/// Interprets one completed HTTP exchange: parses the body as JSON and
/// classifies the result. A body that is not valid JSON yields
/// `ParseFailure` carrying the raw body unmodified.
pub fn classify_response(http_status: u16, body: String) -> (r: CheckinOutcome)
    ensures
        response_classified_as(http_status, body@, r),
        r is ParseFailure <==> response_of(body@) is None,
{
    match parse_response(body.as_str()) {
        Err(parse_error) => CheckinOutcome::ParseFailure { raw_body: body, parse_error },
        Ok(f) => classify_parsed(http_status, f),
    }
}

} // verus!
