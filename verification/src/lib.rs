//! Teaching-load balance tracking: calendar construction, activity decoding,
//! sheet layout and input validation.

pub mod activity;
pub mod audit;
pub mod auth;
pub mod calendar;
pub mod calendar_laws;
pub mod clock;
pub mod codec;
pub mod config;
pub mod cors;
pub mod dates;
pub mod export;
pub mod json;
pub mod jwt;
pub mod layout;
pub mod layout_laws;
pub mod login;
pub mod passwords;
pub mod patterns;
pub mod rate_limiter;
pub mod requests;
pub mod settings;
pub mod styles;
pub mod text;
pub mod types;
pub mod validation;
pub mod xlsx;
