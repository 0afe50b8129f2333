//! The message formatter: from one datapoint to the display text and the
//! severity color that the webhook attachment carries.

use vstd::prelude::*;
use vstd::string::StringExecFns;
use crate::date::{Date, jp_date, format_jp_date, rfc3339_ymd, parse_timestamp_date};
use crate::errors::TaskError;
use crate::fetch::Datapoint;
use crate::money::{spec_usd, spec_color_tag, spec_severity, format_usd, severity_of, color_tag};

verus! {

/// A finished attachment: the sentence to show and its color tag.
#[derive(Clone, Debug)]
pub struct FormattedMessage {
    pub text: String,
    pub color: String,
}

/// The sentence: the date in Japanese, then the charge in dollars.
pub open spec fn spec_message_text(d: Date, micros: nat) -> Seq<char> {
    jp_date(d) + "までのAWSの料金は、$"@ + spec_usd(micros) + "です。"@
}

/// Format one datapoint whose date is already at hand. A missing maximum
/// counts as zero dollars.
pub fn format_message(d: Date, micros: u64) -> (m: FormattedMessage)
    requires
        d.valid(),
        d.formattable(),
    ensures
        m.text@ == spec_message_text(d, micros as nat),
        m.color@ == spec_color_tag(spec_severity(micros as nat)),
{
    let mut text = format_jp_date(d);
    text.append("までのAWSの料金は、$");
    text.append(format_usd(micros).as_str());
    text.append("です。");
    let color = String::from_str(color_tag(severity_of(micros)));
    FormattedMessage { text, color }
}

/// The cost a datapoint reports, in micro-dollars: its maximum, or zero
/// where none was reported.
pub open spec fn spec_cost_micros(dp: Datapoint) -> nat {
    match dp.maximum_micros {
        Option::Some(m) => m as nat,
        Option::None => 0,
    }
}

/// What the formatter owes for each datapoint: the exact text and color for
/// a datapoint whose timestamp is an RFC 3339 timestamp, and which error
/// otherwise.
pub open spec fn spec_message_of(dp: Datapoint) -> Result<(Seq<char>, Seq<char>), TaskError> {
    match dp.timestamp {
        Option::None => Err(TaskError::TimestampMissing),
        Option::Some(ts) => match rfc3339_ymd(ts@) {
            Option::None => Err(TaskError::TimestampInvalid),
            Option::Some(ymd) => {
                let d = Date { year: ymd.0 as i32, month: ymd.1 as u32, day: ymd.2 as u32 };
                Ok(
                    (
                        spec_message_text(d, spec_cost_micros(dp)),
                        spec_color_tag(spec_severity(spec_cost_micros(dp))),
                    ),
                )
            },
        },
    }
}

/// Format one datapoint as the original message: its timestamp's calendar
/// date, then its maximum charge (zero where missing) and the matching
/// color. Fails exactly where the timestamp is absent or unreadable.
pub fn build_message(dp: &Datapoint) -> (r: Result<FormattedMessage, TaskError>)
    ensures
        ({
            match spec_message_of(*dp) {
                Ok(tc) => {
                    &&& r matches Ok(m)
                    &&& r->Ok_0.text@ == tc.0
                    &&& r->Ok_0.color@ == tc.1
                },
                Err(e) => r == Err::<FormattedMessage, TaskError>(e),
            }
        }),
{
    let ts = match &dp.timestamp {
        Option::Some(ts) => ts,
        Option::None => {
            return Err(TaskError::TimestampMissing);
        },
    };
    let d = match parse_timestamp_date(ts.as_str()) {
        Option::Some(d) => d,
        Option::None => {
            return Err(TaskError::TimestampInvalid);
        },
    };
    let micros = match &dp.maximum_micros {
        Option::Some(m) => *m,
        Option::None => 0,
    };
    Ok(format_message(d, micros))
}

} // verus!
