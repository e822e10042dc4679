//! Sign-in negotiation and attendance decisions for an HR time-tracking service.
pub mod text;
pub mod scrape;
pub mod login;
pub mod api;
pub mod config;
pub mod time;
