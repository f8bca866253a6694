//! Accounts, organizations, teams and role checks for the vault42 authority.

pub mod error;
pub mod rbac;
pub mod text;
pub mod validate;
pub mod digest;
pub mod otp;
pub mod auth;
pub mod mail;
pub mod config;
pub mod store;
pub mod contract;
pub mod throttle;
pub mod handlers;
pub mod pop;
