//! The invocation's configuration: the webhook URL and the channel, read
//! from the environment by the caller and validated here before anything
//! else runs.

use vstd::prelude::*;
use crate::errors::TaskError;

verus! {

/// The two required settings of an invocation.
#[derive(Clone, Debug)]
pub struct Config {
    pub post_url: String,
    pub channel: String,
}

impl Config {
    /// Accept the configuration exactly when both settings are present;
    /// a missing webhook URL is reported first.
    pub fn from_values(post_url: Option<String>, channel: Option<String>) -> (r: Result<
        Config,
        TaskError,
    >)
        ensures
            ({
                match (post_url, channel) {
                    (Option::None, _) => r == Err::<Config, TaskError>(TaskError::MissingPostUrl),
                    (Option::Some(_), Option::None) => r == Err::<Config, TaskError>(
                        TaskError::MissingChannel,
                    ),
                    (Option::Some(u), Option::Some(c)) => {
                        &&& r matches Ok(cfg)
                        &&& r->Ok_0.post_url == u
                        &&& r->Ok_0.channel == c
                    },
                }
            }),
    {
        match (post_url, channel) {
            (Option::None, _) => Err(TaskError::MissingPostUrl),
            (Option::Some(_), Option::None) => Err(TaskError::MissingChannel),
            (Option::Some(u), Option::Some(c)) => Ok(Config { post_url: u, channel: c }),
        }
    }
}

} // verus!
