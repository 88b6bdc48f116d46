//! The check-in service: interpretation of one attempt's exchange (with the
//! success log line written at this layer), the bounded fixed-delay retry
//! decision, and the orchestration-level handling of a terminal per-account
//! result. The application drives the retry loop, performing the HTTP
//! exchange and the delay, and feeds each result back into these functions.

use vstd::prelude::*;
use crate::config::Account;
use crate::lines::exhaustion_line_of;
use crate::lines::exhaustion_log_line;
use crate::lines::outcome_description;
use crate::lines::processing_failed_line_of;
use crate::lines::processing_failed_log_line;
use crate::lines::success_line_of;
use crate::lines::success_log_line;
use crate::logger::LogError;
use crate::logger::Logger;
use crate::outcome::CheckinOutcome;
use crate::outcome::RawResponse;
use crate::outcome::balance_of;
use crate::outcome::change_of;
use crate::outcome::classify_parsed;
use crate::outcome::effective_code;
use crate::outcome::parse_response;
use crate::outcome::response_classified_as;
use crate::outcome::response_of;
use crate::outcome::success_message_of;

verus! {

/// Relies on `chrono::Local::now` and chrono's `%Y-%m-%d %H:%M:%S`
/// formatting for the timestamp embedded in every log line. The result
/// depends on the clock, so nothing is assumed about it.
#[verifier::external_body]
fn current_timestamp() -> String {
    chrono::Local::now().format("%Y-%m-%d %H:%M:%S").to_string()
}

/// The per-run check-in service: the injected log sink and the retry
/// policy, shared read-only by every account's task.
pub struct CheckinService<L: Logger> {
    pub logger: L,
    pub max_retries: u32,
    pub retry_delay: u64,
}

/// What one interpreted attempt produced: the outcome, the success log
/// line written by this layer (exactly when the outcome is a business
/// success with a non-empty `list`), and the sink error if writing that
/// line failed.
#[derive(Debug)]
pub struct AttemptReport {
    pub outcome: CheckinOutcome,
    pub success_line: Option<String>,
    pub log_error: Option<LogError>,
}

/// A terminal failure handled at one layer: the log line written there,
/// and the sink error if writing it failed.
#[derive(Debug)]
pub struct FailureReport {
    pub line: String,
    pub log_error: Option<LogError>,
}

/// What the orchestrator did with one account's terminal result: nothing
/// on success; on failure, the processing-failed line it logged.
#[derive(Debug)]
pub struct AccountReport {
    pub failure_line: Option<String>,
    pub log_error: Option<LogError>,
}

/// How an attempt report must relate to the exchange it interprets: a
/// failed exchange is a transport failure; a completed exchange is
/// classified from its body, and a success log line is produced exactly
/// when the business code is 1 and the response's `list` is non-empty.
pub open spec fn attempt_reported(
    email: Seq<char>,
    exchange: Result<(u16, String), String>,
    r: AttemptReport,
) -> bool {
    match exchange {
        Err(e) => {
            &&& r.outcome matches CheckinOutcome::TransportFailure { error } && error@ == e@
            &&& r.success_line is None
            &&& r.log_error is None
        },
        Ok(p) => {
            &&& response_classified_as(p.0, p.1@, r.outcome)
            &&& match response_of(p.1@) {
                None => r.success_line is None && r.log_error is None,
                Some(f) => {
                    &&& (effective_code(f) == 1 && f.first_entry is Some <==> r.success_line
                        is Some)
                    &&& (r.success_line matches Some(l) ==> exists|ts: Seq<char>|
                        l@ == success_line_of(
                            ts,
                            email,
                            success_message_of(f),
                            change_of(f),
                            balance_of(f),
                        ))
                    &&& (r.log_error is Some ==> r.success_line is Some)
                },
            }
        },
    }
}

/// The decision the retry controller takes after attempt `attempt_number`
/// (counted from 1) ended with or without success: stop on success, give
/// up once the budget is spent, otherwise wait the fixed delay and try
/// again.
pub open spec fn retry_decision_spec(
    max_retries: u32,
    retry_delay: u64,
    attempt_number: u32,
    succeeded: bool,
) -> RetryDecision {
    if succeeded {
        RetryDecision::Done
    } else if attempt_number >= max_retries {
        RetryDecision::GiveUp { attempts: attempt_number }
    } else {
        RetryDecision::RetryAfter { delay_seconds: retry_delay }
    }
}

/// What the retry controller asks the caller to do next.
#[derive(Debug, Clone, PartialEq, Eq, Structural)]
pub enum RetryDecision {
    /// The attempt succeeded; the account is done.
    Done,
    /// Wait the fixed delay, then attempt again.
    RetryAfter { delay_seconds: u64 },
    /// The retry budget is spent; `attempts` attempts were made in all.
    GiveUp { attempts: u32 },
}

impl<L: Logger> CheckinService<L> {
    /// A service over the given sink with the given retry policy.
    pub fn new(logger: L, max_retries: u32, retry_delay: u64) -> (r: Self)
        ensures
            r.logger == logger,
            r.max_retries == max_retries,
            r.retry_delay == retry_delay,
    {
        CheckinService { logger, max_retries, retry_delay }
    }

    /// Interprets one attempt's HTTP exchange for `account`: classifies the
    /// result and, exactly when it is a business success with a non-empty
    /// `list`, writes one success log line (timestamp, e-mail, message,
    /// truncated change and balance) to the sink. A sink failure is
    /// reported in the result, never propagated: the attempt still counts
    /// as succeeded.
    pub fn try_checkin(&self, account: &Account, exchange: Result<(u16, String), String>) -> (r:
        AttemptReport)
        ensures
            attempt_reported(account.email@, exchange, r),
    {
        match exchange {
            Err(error) => AttemptReport {
                outcome: CheckinOutcome::TransportFailure { error },
                success_line: None,
                log_error: None,
            },
            Ok((http_status, body)) => match parse_response(body.as_str()) {
                Err(parse_error) => AttemptReport {
                    outcome: CheckinOutcome::ParseFailure { raw_body: body, parse_error },
                    success_line: None,
                    log_error: None,
                },
                Ok(f) => {
                    let has_entry = f.first_entry.is_some();
                    let ghost fields = f;
                    let outcome = classify_parsed(http_status, f);
                    if has_entry {
                        match outcome {
                            CheckinOutcome::Success { message, change, balance } => {
                                let ts = current_timestamp();
                                let line = success_log_line(
                                    ts.as_str(),
                                    account.email.as_str(),
                                    message.as_str(),
                                    change.as_str(),
                                    balance.as_str(),
                                );
                                let log_error = match self.logger.log(line.as_str()) {
                                    Ok(_) => None,
                                    Err(e) => Some(e),
                                };
                                assert(line@ == success_line_of(
                                    ts@,
                                    account.email@,
                                    success_message_of(fields),
                                    change_of(fields),
                                    balance_of(fields),
                                ));
                                AttemptReport {
                                    outcome: CheckinOutcome::Success { message, change, balance },
                                    success_line: Some(line),
                                    log_error,
                                }
                            },
                            other => AttemptReport {
                                outcome: other,
                                success_line: None,
                                log_error: None,
                            },
                        }
                    } else {
                        AttemptReport { outcome, success_line: None, log_error: None }
                    }
                },
            },
        }
    }

    /// Decides what to do after attempt `attempt_number` (counted from 1)
    /// ended in `outcome`: done on success, give up once `max_retries`
    /// attempts are spent, otherwise retry after the fixed delay.
    pub fn retry_step(&self, attempt_number: u32, outcome: &CheckinOutcome) -> (r: RetryDecision)
        ensures
            r == retry_decision_spec(
                self.max_retries,
                self.retry_delay,
                attempt_number,
                *outcome is Success,
            ),
    {
        match outcome {
            CheckinOutcome::Success { .. } => RetryDecision::Done,
            _ => {
                if attempt_number >= self.max_retries {
                    RetryDecision::GiveUp { attempts: attempt_number }
                } else {
                    RetryDecision::RetryAfter { delay_seconds: self.retry_delay }
                }
            },
        }
    }

    /// Handles retry exhaustion for one account: writes one failure log
    /// line (timestamp, e-mail, attempt count, failure detail) to the sink
    /// and hands the line back for the operator's error stream. A sink
    /// failure is reported in the result, never propagated.
    pub fn handle_exhaustion(&self, email: &str, attempts: u32, outcome: &CheckinOutcome) -> (r:
        FailureReport)
        ensures
            exists|ts: Seq<char>|
                r.line@ == exhaustion_line_of(ts, email@, attempts as nat, outcome_description(*outcome)),
    {
        let ts = current_timestamp();
        let detail = outcome.describe();
        let line = exhaustion_log_line(ts.as_str(), email, attempts, detail.as_str());
        let log_error = match self.logger.log(line.as_str()) {
            Ok(_) => None,
            Err(e) => Some(e),
        };
        assert(line@ == exhaustion_line_of(
            ts@,
            email@,
            attempts as nat,
            outcome_description(*outcome),
        ));
        FailureReport { line, log_error }
    }

    /// Handles one account's terminal result at the orchestration level:
    /// nothing on success; on failure, writes one distinct
    /// processing-failed line (in addition to the one already written at
    /// exhaustion) and hands it back for the operator's error stream. A
    /// sink failure is reported in the result, never propagated, so one
    /// account's handling cannot abort the run.
    pub fn handle_account_result(&self, email: &str, result: &Result<(), CheckinOutcome>) -> (r:
        AccountReport)
        ensures
            result is Ok ==> r.failure_line is None && r.log_error is None,
            result matches Err(o) ==> r.failure_line matches Some(l) && exists|ts: Seq<char>|
                l@ == processing_failed_line_of(ts, email@, outcome_description(*o)),
            r.log_error is Some ==> r.failure_line is Some,
    {
        match result {
            Ok(_) => AccountReport { failure_line: None, log_error: None },
            Err(outcome) => {
                let ts = current_timestamp();
                let detail = outcome.describe();
                let line = processing_failed_log_line(ts.as_str(), email, detail.as_str());
                let log_error = match self.logger.log(line.as_str()) {
                    Ok(_) => None,
                    Err(e) => Some(e),
                };
                assert(line@ == processing_failed_line_of(ts@, email@, outcome_description(*outcome)));
                AccountReport { failure_line: Some(line), log_error }
            },
        }
    }
}

/// How many attempts a retry loop makes, starting at attempt `n`, when the
/// attempts succeed or fail as `successes` says (one entry per attempt, in
/// order).
pub open spec fn run_attempts(
    max_retries: u32,
    retry_delay: u64,
    successes: Seq<bool>,
    n: u32,
) -> nat
    decreases successes.len(),
{
    if successes.len() == 0 {
        0
    } else {
        match retry_decision_spec(max_retries, retry_delay, n, successes[0]) {
            RetryDecision::RetryAfter { .. } => 1 + run_attempts(
                max_retries,
                retry_delay,
                successes.drop_first(),
                (n + 1) as u32,
            ),
            _ => 1,
        }
    }
}

/// How many fixed delays a retry loop waits, starting at attempt `n`: one
/// before every attempt but the first.
pub open spec fn run_delays(
    max_retries: u32,
    retry_delay: u64,
    successes: Seq<bool>,
    n: u32,
) -> nat
    decreases successes.len(),
{
    if successes.len() == 0 {
        0
    } else {
        match retry_decision_spec(max_retries, retry_delay, n, successes[0]) {
            RetryDecision::RetryAfter { .. } => 1 + run_delays(
                max_retries,
                retry_delay,
                successes.drop_first(),
                (n + 1) as u32,
            ),
            _ => 0,
        }
    }
}

/// The terminal decision a retry loop reaches, starting at attempt `n`.
pub open spec fn run_final(
    max_retries: u32,
    retry_delay: u64,
    successes: Seq<bool>,
    n: u32,
) -> RetryDecision
    decreases successes.len(),
{
    if successes.len() == 0 {
        RetryDecision::Done
    } else {
        match retry_decision_spec(max_retries, retry_delay, n, successes[0]) {
            RetryDecision::RetryAfter { .. } => run_final(
                max_retries,
                retry_delay,
                successes.drop_first(),
                (n + 1) as u32,
            ),
            d => d,
        }
    }
}

proof fn lemma_exhaustion_from(max_retries: u32, retry_delay: u64, successes: Seq<bool>, n: u32)
    requires
        1 <= n <= max_retries,
        successes.len() >= max_retries - n + 1,
        forall|i: int| 0 <= i < successes.len() ==> !successes[i],
    ensures
        run_attempts(max_retries, retry_delay, successes, n) == max_retries - n + 1,
        run_delays(max_retries, retry_delay, successes, n) == max_retries - n,
        run_final(max_retries, retry_delay, successes, n) == (RetryDecision::GiveUp {
            attempts: max_retries,
        }),
    decreases max_retries - n,
{
    if n < max_retries {
        lemma_exhaustion_from(max_retries, retry_delay, successes.drop_first(), (n + 1) as u32);
    }
}

/// Law: against a transport that fails on every attempt, a retry budget of
/// `max_retries` makes exactly `max_retries` attempts, waits exactly
/// `max_retries - 1` fixed delays (one between consecutive attempts), and
/// returns exactly one terminal failure, after `max_retries` attempts.
pub proof fn lemma_all_failures_exhaust_budget(
    max_retries: u32,
    retry_delay: u64,
    successes: Seq<bool>,
)
    requires
        max_retries >= 1,
        successes.len() >= max_retries,
        forall|i: int| 0 <= i < successes.len() ==> !successes[i],
    ensures
        run_attempts(max_retries, retry_delay, successes, 1) == max_retries,
        run_delays(max_retries, retry_delay, successes, 1) == max_retries - 1,
        run_final(max_retries, retry_delay, successes, 1) == (RetryDecision::GiveUp {
            attempts: max_retries,
        }),
        forall|n: u32|
            1 <= n < max_retries ==> retry_decision_spec(max_retries, retry_delay, n, false)
                == (RetryDecision::RetryAfter { delay_seconds: retry_delay }),
{
    lemma_exhaustion_from(max_retries, retry_delay, successes, 1);
}

/// Law: a retry budget of 1 makes exactly one attempt and waits zero
/// delays before the terminal failure.
pub proof fn lemma_single_budget_single_attempt(retry_delay: u64, successes: Seq<bool>)
    requires
        successes.len() >= 1,
        !successes[0],
    ensures
        run_attempts(1, retry_delay, successes, 1) == 1,
        run_delays(1, retry_delay, successes, 1) == 0,
        run_final(1, retry_delay, successes, 1) == (RetryDecision::GiveUp { attempts: 1 }),
{
}

/// Law: when the exchange completed, its body is valid JSON with business
/// code 1 and a non-empty `list`, an attempt's outcome is `Success`,
/// exactly one success log line is produced, and that line carries the
/// dot-truncated change and balance figures; the retry controller then
/// stops at once.
pub proof fn lemma_success_attempt(
    email: Seq<char>,
    exchange: Result<(u16, String), String>,
    f: RawResponse,
    r: AttemptReport,
    max_retries: u32,
    retry_delay: u64,
)
    requires
        exchange matches Ok(p) && response_of(p.1@) == Some(f),
        effective_code(f) == 1,
        f.first_entry is Some,
        attempt_reported(email, exchange, r),
    ensures
        r.outcome is Success,
        r.success_line is Some,
        exists|ts: Seq<char>|
            r.success_line->0@ == success_line_of(
                ts,
                email,
                success_message_of(f),
                change_of(f),
                balance_of(f),
            ),
        retry_decision_spec(max_retries, retry_delay, 1, r.outcome is Success)
            == RetryDecision::Done,
{
}

/// Law: a sink failure while writing the success log line leaves the
/// attempt classified as succeeded and is reported in the attempt's
/// result, so the caller can surface it without the run failing.
pub proof fn lemma_log_failure_reported(
    email: Seq<char>,
    exchange: Result<(u16, String), String>,
    r: AttemptReport,
)
    requires
        attempt_reported(email, exchange, r),
        r.log_error is Some,
    ensures
        r.success_line is Some,
        r.outcome is Success,
{
    match exchange {
        Err(_) => {},
        Ok(p) => {
            match response_of(p.1@) {
                None => {},
                Some(f) => {},
            }
        },
    }
}

} // verus!
