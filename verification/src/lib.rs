//! Automated daily check-in against a remote web service for a set of
//! configured accounts: per-account retry with a fixed delay, response
//! classification (business success, business failure, parse failure,
//! transport failure), and log-line construction for every outcome.

pub mod config;
pub mod lines;
pub mod logger;
pub mod outcome;
pub mod service;
