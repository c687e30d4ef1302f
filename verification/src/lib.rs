//! Verified core of the vardy web site.
pub mod decimal;
pub mod text;
pub mod contact;
pub mod env;
pub mod assets;
pub mod error;
pub mod unsplash;
pub mod resend;
pub mod picture;
pub mod reporting;
pub mod templates;
pub mod faq;
pub mod ip;
pub mod rate_limit;
