//! Verified core of a small web service that turns uploaded ODT documents into PDF.

pub mod status;
pub mod text;
pub mod hash;
pub mod configuration;
pub mod command;
pub mod conversion;
pub mod param_rules;
pub mod upload_checks;
pub mod logger;
