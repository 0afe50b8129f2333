//! A verified library for a daily cloud-billing notification task: it models
//! the query for yesterday's maximum estimated-charges metric, turns the
//! returned datapoint into a short human-readable message with a severity
//! color, and frames the JSON payload that is posted to a chat webhook.

pub mod config;
pub mod date;
pub mod decimal;
pub mod errors;
pub mod fetch;
pub mod message;
pub mod money;
pub mod notify;
