use std::cell::RefCell;

use glados_checkin::config::Account;
use glados_checkin::config::Config;
use glados_checkin::config::ConfigError;
use glados_checkin::lines::exhaustion_log_line;
use glados_checkin::lines::processing_failed_log_line;
use glados_checkin::lines::success_log_line;
use glados_checkin::lines::u32_to_decimal;
use glados_checkin::logger::FileLogger;
use glados_checkin::logger::LogError;
use glados_checkin::logger::Logger;
use glados_checkin::outcome::classify_parsed;
use glados_checkin::outcome::classify_response;
use glados_checkin::outcome::truncate_decimal;
use glados_checkin::outcome::CheckinOutcome;
use glados_checkin::outcome::ListEntry;
use glados_checkin::outcome::RawResponse;
use glados_checkin::service::CheckinService;
use glados_checkin::service::RetryDecision;

/// An in-memory sink: records every appended line, or fails every append.
struct MemLogger {
    fail: bool,
    lines: RefCell<Vec<String>>,
}

impl MemLogger {
    fn new(fail: bool) -> Self {
        MemLogger { fail, lines: RefCell::new(Vec::new()) }
    }

    fn recorded(&self) -> Vec<String> {
        self.lines.borrow().clone()
    }
}

impl Logger for MemLogger {
    fn log(&self, content: &str) -> Result<(), LogError> {
        if self.fail {
            Err(LogError { message: String::from("disk full") })
        } else {
            self.lines.borrow_mut().push(content.to_string());
            Ok(())
        }
    }
}

fn account() -> Account {
    Account { email: String::from("a@example.com"), cookie: String::from("koa:sess=abc") }
}

fn config_with(accounts: usize, max_retries: u32, log_file: &str) -> Config {
    Config {
        accounts: (0..accounts).map(|_| account()).collect(),
        max_retries,
        retry_delay: 5,
        log_file: String::from(log_file),
    }
}

#[test]
fn validate_accepts_a_full_config() {
    assert!(config_with(2, 3, "checkin.log").validate().is_ok());
}

#[test]
fn validate_rejects_an_empty_account_list() {
    assert_eq!(config_with(0, 3, "checkin.log").validate(), Err(ConfigError::NoAccounts));
}

#[test]
fn validate_rejects_a_zero_retry_budget() {
    assert_eq!(config_with(1, 0, "checkin.log").validate(), Err(ConfigError::ZeroMaxRetries));
}

#[test]
fn validate_rejects_an_empty_log_path() {
    assert_eq!(config_with(1, 3, "").validate(), Err(ConfigError::EmptyLogFile));
}

#[test]
fn validate_reports_the_account_list_first() {
    assert_eq!(config_with(0, 0, "").validate(), Err(ConfigError::NoAccounts));
}

#[test]
fn config_error_messages() {
    assert_eq!(ConfigError::NoAccounts.message(), "No accounts configured");
    assert_eq!(ConfigError::ZeroMaxRetries.message(), "max_retries must be greater than 0");
    assert_eq!(ConfigError::EmptyLogFile.message(), "log_file path must not be empty");
}

#[test]
fn file_logger_keeps_its_path() {
    assert_eq!(FileLogger::new("checkin.log").file_path, "checkin.log");
}

#[test]
fn truncation_discards_the_fractional_part() {
    assert_eq!(truncate_decimal("12.50"), "12");
    assert_eq!(truncate_decimal("-3"), "-3");
    assert_eq!(truncate_decimal("0.0"), "0");
    assert_eq!(truncate_decimal(".5"), "");
    assert_eq!(truncate_decimal(""), "");
    assert_eq!(truncate_decimal("1.2.3"), "1");
}

#[test]
fn decimal_rendering_is_exact() {
    assert_eq!(u32_to_decimal(0), "0");
    assert_eq!(u32_to_decimal(7), "7");
    assert_eq!(u32_to_decimal(10), "10");
    assert_eq!(u32_to_decimal(12345), "12345");
    assert_eq!(u32_to_decimal(u32::MAX), "4294967295");
}

#[test]
fn line_builders_produce_exact_lines() {
    assert_eq!(
        success_log_line("2024-01-02 03:04:05", "a@b", "ok", "12", "100"),
        "[2024-01-02 03:04:05] Account: a@b, Message: ok, Change: 12, Balance: 100"
    );
    assert_eq!(
        exhaustion_log_line("2024-01-02 03:04:05", "a@b", 3, "net down"),
        "[2024-01-02 03:04:05] Account a@b check-in failed (after 3 attempts): net down"
    );
    assert_eq!(
        processing_failed_log_line("2024-01-02 03:04:05", "a@b", "net down"),
        "[2024-01-02 03:04:05] Account a@b processing failed: net down"
    );
}

#[test]
fn success_body_with_list_is_classified_exactly() {
    let body = r#"{"code":1,"message":"ok","list":[{"change":"12.50","balance":"100.99"}]}"#;
    match classify_response(200, String::from(body)) {
        CheckinOutcome::Success { message, change, balance } => {
            assert_eq!(message, "ok");
            assert_eq!(change, "12");
            assert_eq!(balance, "100");
        }
        other => panic!("expected Success, got {:?}", other),
    }
}

#[test]
fn missing_change_defaults_to_zero() {
    let body = r#"{"code":1,"message":"ok","list":[{"balance":"8.1"}]}"#;
    match classify_response(200, String::from(body)) {
        CheckinOutcome::Success { change, balance, .. } => {
            assert_eq!(change, "0");
            assert_eq!(balance, "8");
        }
        other => panic!("expected Success, got {:?}", other),
    }
}

#[test]
fn empty_list_still_counts_as_success() {
    let body = r#"{"code":1,"message":"ok","list":[]}"#;
    match classify_response(200, String::from(body)) {
        CheckinOutcome::Success { message, change, balance } => {
            assert_eq!(message, "ok");
            assert_eq!(change, "");
            assert_eq!(balance, "");
        }
        other => panic!("expected Success, got {:?}", other),
    }
}

#[test]
fn missing_message_defaults_on_success() {
    let body = r#"{"code":1,"list":[{"change":"1","balance":"2"}]}"#;
    match classify_response(200, String::from(body)) {
        CheckinOutcome::Success { message, .. } => assert_eq!(message, "No message"),
        other => panic!("expected Success, got {:?}", other),
    }
}

#[test]
fn non_success_code_is_a_business_failure() {
    let body = r#"{"code":-2,"message":"checkin repeated"}"#;
    match classify_response(403, String::from(body)) {
        CheckinOutcome::BusinessFailure { http_status, message } => {
            assert_eq!(http_status, 403);
            assert_eq!(message, "checkin repeated");
        }
        other => panic!("expected BusinessFailure, got {:?}", other),
    }
}

#[test]
fn absent_code_defaults_to_business_failure() {
    let body = r#"{"message":"hello"}"#;
    match classify_response(200, String::from(body)) {
        CheckinOutcome::BusinessFailure { http_status, message } => {
            assert_eq!(http_status, 200);
            assert_eq!(message, "hello");
        }
        other => panic!("expected BusinessFailure, got {:?}", other),
    }
}

#[test]
fn missing_message_defaults_on_business_failure() {
    let body = r#"{"code":0}"#;
    match classify_response(500, String::from(body)) {
        CheckinOutcome::BusinessFailure { message, .. } => assert_eq!(message, "未知错误"),
        other => panic!("expected BusinessFailure, got {:?}", other),
    }
}

#[test]
fn non_object_json_is_a_business_failure() {
    match classify_response(200, String::from("42")) {
        CheckinOutcome::BusinessFailure { http_status, message } => {
            assert_eq!(http_status, 200);
            assert_eq!(message, "未知错误");
        }
        other => panic!("expected BusinessFailure, got {:?}", other),
    }
}

#[test]
fn invalid_json_preserves_the_raw_body() {
    let body = "<html>service unavailable</html>";
    match classify_response(503, String::from(body)) {
        CheckinOutcome::ParseFailure { raw_body, parse_error } => {
            assert_eq!(raw_body, body);
            assert!(!parse_error.is_empty());
        }
        other => panic!("expected ParseFailure, got {:?}", other),
    }
}

#[test]
fn classify_parsed_matches_the_field_rules() {
    let parsed = RawResponse {
        code: Some(1),
        message: None,
        first_entry: Some(ListEntry { change: Some(String::from("-3")), balance: None }),
    };
    match classify_parsed(200, parsed) {
        CheckinOutcome::Success { message, change, balance } => {
            assert_eq!(message, "No message");
            assert_eq!(change, "-3");
            assert_eq!(balance, "0");
        }
        other => panic!("expected Success, got {:?}", other),
    }
}

#[test]
fn business_failure_description_is_exact() {
    let outcome = CheckinOutcome::BusinessFailure {
        http_status: 500,
        message: String::from("maintenance"),
    };
    assert_eq!(outcome.describe(), "check-in failed - HTTP status: 500, message: maintenance");
}

#[test]
fn parse_failure_description_carries_error_and_body() {
    let outcome = CheckinOutcome::ParseFailure {
        raw_body: String::from("<html>"),
        parse_error: String::from("expected value"),
    };
    assert_eq!(outcome.describe(), "response parse failed: expected value\nresponse body: <html>");
}

#[test]
fn successful_attempt_writes_exactly_one_line() {
    let service = CheckinService::new(MemLogger::new(false), 3, 5);
    let body = r#"{"code":1,"message":"ok","list":[{"change":"12.50","balance":"100.99"}]}"#;
    let report = service.try_checkin(&account(), Ok((200, String::from(body))));
    assert!(matches!(report.outcome, CheckinOutcome::Success { .. }));
    assert!(report.log_error.is_none());
    let lines = service.logger.recorded();
    assert_eq!(lines.len(), 1);
    let line = report.success_line.expect("a success line");
    assert_eq!(lines[0], line);
    assert!(line.starts_with('['));
    let tail = "] Account: a@example.com, Message: ok, Change: 12, Balance: 100";
    assert!(line.ends_with(tail));
    assert_eq!(line.len(), 1 + "2024-01-02 03:04:05".len() + tail.len());
}

#[test]
fn empty_list_success_writes_no_line() {
    let service = CheckinService::new(MemLogger::new(false), 3, 5);
    let body = r#"{"code":1,"message":"ok","list":[]}"#;
    let report = service.try_checkin(&account(), Ok((200, String::from(body))));
    assert!(matches!(report.outcome, CheckinOutcome::Success { .. }));
    assert!(report.success_line.is_none());
    assert!(service.logger.recorded().is_empty());
}

#[test]
fn failed_exchange_is_a_transport_failure() {
    let service = CheckinService::new(MemLogger::new(false), 3, 5);
    let report = service.try_checkin(&account(), Err(String::from("connection refused")));
    match report.outcome {
        CheckinOutcome::TransportFailure { error } => assert_eq!(error, "connection refused"),
        other => panic!("expected TransportFailure, got {:?}", other),
    }
    assert!(report.success_line.is_none());
    assert!(service.logger.recorded().is_empty());
}

#[test]
fn sink_failure_on_success_path_is_reported_not_fatal() {
    let service = CheckinService::new(MemLogger::new(true), 3, 5);
    let body = r#"{"code":1,"message":"ok","list":[{"change":"1","balance":"2"}]}"#;
    let report = service.try_checkin(&account(), Ok((200, String::from(body))));
    assert!(matches!(report.outcome, CheckinOutcome::Success { .. }));
    assert!(report.success_line.is_some());
    assert_eq!(report.log_error.expect("a sink error").message, "disk full");
    let decision = service.retry_step(1, &report.outcome);
    assert_eq!(decision, RetryDecision::Done);
}

#[test]
fn all_failures_use_the_whole_budget_with_fixed_delays() {
    let service = CheckinService::new(MemLogger::new(false), 3, 7);
    let mut attempts: u32 = 0;
    let mut delays: Vec<u64> = Vec::new();
    let terminal = loop {
        attempts += 1;
        let report = service.try_checkin(&account(), Err(String::from("net down")));
        match service.retry_step(attempts, &report.outcome) {
            RetryDecision::Done => panic!("a failing transport cannot succeed"),
            RetryDecision::RetryAfter { delay_seconds } => delays.push(delay_seconds),
            RetryDecision::GiveUp { attempts: made } => break made,
        }
    };
    assert_eq!(attempts, 3);
    assert_eq!(terminal, 3);
    assert_eq!(delays, vec![7, 7]);
}

#[test]
fn budget_of_one_means_one_attempt_and_no_delay() {
    let service = CheckinService::new(MemLogger::new(false), 1, 9);
    let report = service.try_checkin(&account(), Err(String::from("net down")));
    let decision = service.retry_step(1, &report.outcome);
    assert_eq!(decision, RetryDecision::GiveUp { attempts: 1 });
}

#[test]
fn exhaustion_writes_one_failure_line() {
    let service = CheckinService::new(MemLogger::new(false), 3, 5);
    let outcome = CheckinOutcome::TransportFailure { error: String::from("net down") };
    let report = service.handle_exhaustion("a@example.com", 3, &outcome);
    assert!(report.log_error.is_none());
    let lines = service.logger.recorded();
    assert_eq!(lines.len(), 1);
    assert_eq!(lines[0], report.line);
    assert!(report.line.starts_with('['));
    assert!(report.line.ends_with("] Account a@example.com check-in failed (after 3 attempts): net down"));
}

#[test]
fn orchestrator_ignores_successful_accounts() {
    let service = CheckinService::new(MemLogger::new(false), 3, 5);
    let report = service.handle_account_result("a@example.com", &Ok(()));
    assert!(report.failure_line.is_none());
    assert!(report.log_error.is_none());
    assert!(service.logger.recorded().is_empty());
}

#[test]
fn orchestrator_logs_a_distinct_processing_failed_line() {
    let service = CheckinService::new(MemLogger::new(false), 3, 5);
    let outcome = CheckinOutcome::TransportFailure { error: String::from("net down") };
    let report = service.handle_account_result("a@example.com", &Err(outcome));
    let line = report.failure_line.expect("a failure line");
    assert!(line.starts_with('['));
    assert!(line.ends_with("] Account a@example.com processing failed: net down"));
    assert_eq!(service.logger.recorded(), vec![line]);
}

#[test]
fn one_exhausted_account_leaves_the_others_untouched() {
    let service = CheckinService::new(MemLogger::new(false), 2, 5);
    let success_body = r#"{"code":1,"message":"ok","list":[{"change":"1.5","balance":"9.5"}]}"#;
    let mut emails: Vec<String> = Vec::new();
    for i in 1..=4 {
        emails.push(format!("user{}@example.com", i));
    }
    for email in &emails {
        let acct = Account { email: email.clone(), cookie: String::from("c") };
        let report = service.try_checkin(&acct, Ok((200, String::from(success_body))));
        let decision = service.retry_step(1, &report.outcome);
        assert_eq!(decision, RetryDecision::Done);
        assert_eq!(service.handle_account_result(email, &Ok(())).failure_line, None);
    }
    let failing = Account { email: String::from("user5@example.com"), cookie: String::from("c") };
    let mut attempts: u32 = 0;
    let final_outcome = loop {
        attempts += 1;
        let report = service.try_checkin(&failing, Err(String::from("net down")));
        match service.retry_step(attempts, &report.outcome) {
            RetryDecision::Done => panic!("a failing transport cannot succeed"),
            RetryDecision::RetryAfter { .. } => continue,
            RetryDecision::GiveUp { attempts: made } => {
                service.handle_exhaustion(&failing.email, made, &report.outcome);
                break report.outcome;
            }
        }
    };
    service.handle_account_result(&failing.email, &Err(final_outcome));
    let lines = service.logger.recorded();
    assert_eq!(lines.len(), 6);
    for (i, email) in emails.iter().enumerate() {
        assert!(lines[i].contains(&format!("Account: {}, Message: ok, Change: 1, Balance: 9", email)));
    }
    assert!(lines[4].contains("Account user5@example.com check-in failed (after 2 attempts): net down"));
    assert!(lines[5].contains("Account user5@example.com processing failed: net down"));
}
