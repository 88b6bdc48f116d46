//! Run configuration: the account list and the retry policy, with the
//! validation rules applied once at startup.

use vstd::prelude::*;

verus! {

/// One target identity: an e-mail address and the opaque session cookie
/// used as the bearer credential for that account.
#[derive(Debug, Clone)]
pub struct Account {
    pub email: String,
    pub cookie: String,
}

/// The run configuration, loaded once at startup and read-only thereafter.
#[derive(Debug)]
pub struct Config {
    pub accounts: Vec<Account>,
    pub max_retries: u32,
    pub retry_delay: u64,
    pub log_file: String,
}

/// Why a configuration was rejected.
#[derive(Debug, Clone, PartialEq, Eq, Structural)]
pub enum ConfigError {
    /// The account list is empty.
    NoAccounts,
    /// `max_retries` is zero; at least one attempt must be allowed.
    ZeroMaxRetries,
    /// The log file path is empty.
    EmptyLogFile,
}

/// Whether a configuration is acceptable: at least one account, a positive
/// retry budget, and a non-empty log file path.
pub open spec fn config_valid(c: &Config) -> bool {
    &&& c.accounts@.len() > 0
    &&& c.max_retries > 0
    &&& c.log_file@.len() > 0
}

impl Config {
    /// Checks the validation rules, reporting the first that fails:
    /// the account list first, then the retry budget, then the log path.
    pub fn validate(&self) -> (r: Result<(), ConfigError>)
        ensures
            r is Ok <==> config_valid(self),
            self.accounts@.len() == 0 ==> r == Result::<(), ConfigError>::Err(ConfigError::NoAccounts),
            self.accounts@.len() > 0 && self.max_retries == 0 ==> r == Result::<(), ConfigError>::Err(
                ConfigError::ZeroMaxRetries,
            ),
            self.accounts@.len() > 0 && self.max_retries > 0 && self.log_file@.len() == 0 ==> r
                == Result::<(), ConfigError>::Err(ConfigError::EmptyLogFile),
    {
        if self.accounts.len() == 0 {
            return Err(ConfigError::NoAccounts);
        }
        if self.max_retries == 0 {
            return Err(ConfigError::ZeroMaxRetries);
        }
        if self.log_file.unicode_len() == 0 {
            return Err(ConfigError::EmptyLogFile);
        }
        Ok(())
    }
}

impl ConfigError {
    /// A human-readable description, matching the messages reported to the
    /// operator when the run aborts.
    pub fn message(&self) -> (r: String)
        ensures
            *self is NoAccounts ==> r@ == "No accounts configured"@,
            *self is ZeroMaxRetries ==> r@ == "max_retries must be greater than 0"@,
            *self is EmptyLogFile ==> r@ == "log_file path must not be empty"@,
    {
        match self {
            ConfigError::NoAccounts => String::from_str("No accounts configured"),
            ConfigError::ZeroMaxRetries => String::from_str("max_retries must be greater than 0"),
            ConfigError::EmptyLogFile => String::from_str("log_file path must not be empty"),
        }
    }
}

} // verus!
