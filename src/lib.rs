//! Passwordless authentication core: one-time codes, session tokens, the
//! request guard, and the security-event log with its fraud-review flag.

pub mod otp;
pub mod session;
pub mod users;
pub mod guard;
pub mod geo;
pub mod login;
pub mod security;
pub mod admin;
pub mod bank;
pub mod config;
pub mod error;
