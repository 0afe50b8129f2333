//! The ways an invocation can fail. Every failure aborts the rest of the
//! pipeline; none is retried.

use vstd::prelude::*;
use vstd::string::StringExecFns;
use crate::decimal::{dec_digits, u64_to_dec};

verus! {

/// Everything that can go wrong in one invocation: configuration missing,
/// no usable datapoint, or the webhook refusing the post.
#[derive(Clone, Copy, PartialEq, Eq, Structural, Debug)]
pub enum TaskError {
    /// The destination webhook URL is not configured.
    MissingPostUrl,
    /// The destination channel is not configured.
    MissingChannel,
    /// The metric query returned no datapoints.
    NoDatapoints,
    /// The selected datapoint carries no timestamp.
    TimestampMissing,
    /// The selected datapoint's timestamp is not an RFC 3339 timestamp.
    TimestampInvalid,
    /// The wall clock reported a year outside the four-digit range.
    ClockOutOfRange,
    /// The webhook answered with a non-success HTTP status.
    WebhookStatus(u16),
}

impl TaskError {
    /// The report for each failure.
    pub open spec fn spec_message(self) -> Seq<char> {
        match self {
            TaskError::MissingPostUrl => "environment variable SLACK_POST_URL is not set"@,
            TaskError::MissingChannel => "environment variable SLACK_CHANNEL is not set"@,
            TaskError::NoDatapoints => "no billing datapoints were returned for yesterday"@,
            TaskError::TimestampMissing => "the billing datapoint has no timestamp"@,
            TaskError::TimestampInvalid => "the billing datapoint's timestamp is not RFC 3339"@,
            TaskError::ClockOutOfRange => "the current date cannot be written with a four-digit year"@,
            TaskError::WebhookStatus(s) => "the webhook responded with HTTP status "@ + dec_digits(
                s as nat,
            ),
        }
    }

    pub fn message(&self) -> (r: String)
        ensures
            r@ == self.spec_message(),
    {
        match self {
            TaskError::MissingPostUrl => String::from_str(
                "environment variable SLACK_POST_URL is not set",
            ),
            TaskError::MissingChannel => String::from_str(
                "environment variable SLACK_CHANNEL is not set",
            ),
            TaskError::NoDatapoints => String::from_str(
                "no billing datapoints were returned for yesterday",
            ),
            TaskError::TimestampMissing => String::from_str(
                "the billing datapoint has no timestamp",
            ),
            TaskError::TimestampInvalid => String::from_str(
                "the billing datapoint's timestamp is not RFC 3339",
            ),
            TaskError::ClockOutOfRange => String::from_str(
                "the current date cannot be written with a four-digit year",
            ),
            TaskError::WebhookStatus(s) => {
                let mut m = String::from_str("the webhook responded with HTTP status ");
                m.append(u64_to_dec(*s as u64).as_str());
                m
            },
        }
    }
}

} // verus!
