//! The notifier side of the task: the JSON payload posted to the webhook,
//! with its strings escaped, the decision on the webhook's HTTP status, and
//! the confirmation the invocation returns.

use vstd::prelude::*;
use vstd::string::StringExecFns;
use vstd::string::StrSliceExecFns;
use crate::decimal::digit_char;
use crate::errors::TaskError;
use crate::fetch::Datapoint;
use crate::message::{FormattedMessage, spec_message_of, build_message};

verus! {

/// The character for one hexadecimal digit, lower case.
pub open spec fn hex_char(d: int) -> char {
    if d < 10 {
        digit_char(d)
    } else if d == 10 {
        'a'
    } else if d == 11 {
        'b'
    } else if d == 12 {
        'c'
    } else if d == 13 {
        'd'
    } else if d == 14 {
        'e'
    } else {
        'f'
    }
}

/// How one character is written inside a JSON string literal: quote and
/// backslash escaped, the common control characters by letter, every other
/// control character as a four-digit escape, everything else as itself.
pub open spec fn json_escape_char(c: char) -> Seq<char> {
    if c == '"' {
        seq!['\\', '"']
    } else if c == '\\' {
        seq!['\\', '\\']
    } else if c == '\n' {
        seq!['\\', 'n']
    } else if c == '\r' {
        seq!['\\', 'r']
    } else if c == '\t' {
        seq!['\\', 't']
    } else if (c as int) < 32 {
        seq!['\\', 'u', '0', '0', hex_char(c as int / 16), hex_char(c as int % 16)]
    } else {
        seq![c]
    }
}

/// A whole string written inside a JSON string literal.
pub open spec fn json_escaped(s: Seq<char>) -> Seq<char>
    decreases s.len(),
{
    if s.len() == 0 {
        Seq::empty()
    } else {
        json_escape_char(s[0]) + json_escaped(s.drop_first())
    }
}

proof fn lemma_json_escaped_push(s: Seq<char>, c: char)
    ensures
        json_escaped(s.push(c)) == json_escaped(s) + json_escape_char(c),
    decreases s.len(),
{
    if s.len() == 0 {
        assert(s.push(c)[0] == c);
        assert(s.push(c).drop_first() =~= Seq::<char>::empty());
        assert(json_escaped(s.push(c)) == json_escape_char(c) + json_escaped(
            s.push(c).drop_first(),
        ));
        assert(json_escaped(Seq::<char>::empty()) =~= Seq::<char>::empty());
        assert(json_escape_char(c) + Seq::<char>::empty() =~= json_escape_char(c));
        assert(json_escaped(s) =~= Seq::<char>::empty());
        assert(Seq::<char>::empty() + json_escape_char(c) =~= json_escape_char(c));
    } else {
        assert(s.push(c)[0] == s[0]);
        assert(s.push(c).drop_first() =~= s.drop_first().push(c));
        lemma_json_escaped_push(s.drop_first(), c);
        assert(json_escaped(s.push(c)) =~= json_escaped(s) + json_escape_char(c));
    }
}

/// Relies on std's String::push: it appends exactly the one character.
#[verifier::external_body]
fn push_char(s: &mut String, c: char)
    ensures
        final(s)@ == old(s)@.push(c),
{
    s.push(c);
}

fn hex_str(d: u32) -> (r: &'static str)
    requires
        d < 16,
    ensures
        r@ =~= seq![hex_char(d as int)],
{
    proof {
        reveal_strlit("0");
        reveal_strlit("1");
        reveal_strlit("2");
        reveal_strlit("3");
        reveal_strlit("4");
        reveal_strlit("5");
        reveal_strlit("6");
        reveal_strlit("7");
        reveal_strlit("8");
        reveal_strlit("9");
        reveal_strlit("a");
        reveal_strlit("b");
        reveal_strlit("c");
        reveal_strlit("d");
        reveal_strlit("e");
        reveal_strlit("f");
    }
    match d {
        0 => "0",
        1 => "1",
        2 => "2",
        3 => "3",
        4 => "4",
        5 => "5",
        6 => "6",
        7 => "7",
        8 => "8",
        9 => "9",
        10 => "a",
        11 => "b",
        12 => "c",
        13 => "d",
        14 => "e",
        _ => "f",
    }
}

/// Escape a string for use inside a JSON string literal.
pub fn json_escape(s: &str) -> (r: String)
    ensures
        r@ == json_escaped(s@),
{
    let n = s.unicode_len();
    let mut out = String::new();
    let mut i: usize = 0;
    while i < n
        invariant
            n == s@.len(),
            i <= n,
            out@ == json_escaped(s@.subrange(0, i as int)),
        decreases n - i,
    {
        let c = s.get_char(i);
        if c == '"' {
            out.append("\\\"");
            proof {
                reveal_strlit("\\\"");
                assert("\\\""@ =~= json_escape_char(c));
            }
        } else if c == '\\' {
            out.append("\\\\");
            proof {
                reveal_strlit("\\\\");
                assert("\\\\"@ =~= json_escape_char(c));
            }
        } else if c == '\n' {
            out.append("\\n");
            proof {
                reveal_strlit("\\n");
                assert("\\n"@ =~= json_escape_char(c));
            }
        } else if c == '\r' {
            out.append("\\r");
            proof {
                reveal_strlit("\\r");
                assert("\\r"@ =~= json_escape_char(c));
            }
        } else if c == '\t' {
            out.append("\\t");
            proof {
                reveal_strlit("\\t");
                assert("\\t"@ =~= json_escape_char(c));
            }
        } else if (c as u32) < 32 {
            let code = c as u32;
            out.append("\\u00");
            out.append(hex_str(code / 16));
            out.append(hex_str(code % 16));
            proof {
                reveal_strlit("\\u00");
                assert("\\u00"@ + seq![hex_char(code as int / 16)] + seq![
                    hex_char(code as int % 16),
                ] =~= json_escape_char(c));
            }
        } else {
            push_char(&mut out, c);
            proof {
                assert(out@ =~= json_escaped(s@.subrange(0, i as int)) + json_escape_char(c));
            }
        }
        proof {
            assert(s@.subrange(0, i as int).push(s@[i as int]) =~= s@.subrange(0, (i + 1) as int));
            lemma_json_escaped_push(s@.subrange(0, i as int), s@[i as int]);
        }
        i = i + 1;
    }
    proof {
        assert(s@.subrange(0, n as int) =~= s@);
    }
    out
}

/// The JSON body the webhook expects: the channel, and one attachment with
/// the text and its color.
pub open spec fn spec_payload(channel: Seq<char>, text: Seq<char>, color: Seq<char>) -> Seq<char> {
    "{\"channel\":\""@ + json_escaped(channel) + "\",\"attachments\":[{\"text\":\""@ + json_escaped(
        text,
    ) + "\",\"color\":\""@ + json_escaped(color) + "\"}]}"@
}

/// Frame the webhook payload for one finished message.
pub fn slack_payload(channel: &str, message: &FormattedMessage) -> (r: String)
    ensures
        r@ == spec_payload(channel@, message.text@, message.color@),
{
    let mut body = String::from_str("{\"channel\":\"");
    body.append(json_escape(channel).as_str());
    body.append("\",\"attachments\":[{\"text\":\"");
    body.append(json_escape(message.text.as_str()).as_str());
    body.append("\",\"color\":\"");
    body.append(json_escape(message.color.as_str()).as_str());
    body.append("\"}]}");
    body
}

/// Accept exactly the successful HTTP statuses; anything else is the
/// webhook refusing the post, reported with its status.
pub fn check_status(status: u16) -> (r: Result<(), TaskError>)
    ensures
        r is Ok <==> 200 <= status < 300,
        !(200 <= status < 300) ==> r == Err::<(), TaskError>(TaskError::WebhookStatus(status)),
{
    if 200 <= status && status < 300 {
        Ok(())
    } else {
        Err(TaskError::WebhookStatus(status))
    }
}

/// The confirmation the invocation returns: the destination, then the
/// channel.
pub open spec fn spec_confirmation(url: Seq<char>, channel: Seq<char>) -> Seq<char> {
    "Send message to "@ + url + channel
}

pub fn confirmation_message(url: &str, channel: &str) -> (r: String)
    ensures
        r@ == spec_confirmation(url@, channel@),
{
    let mut s = String::from_str("Send message to ");
    s.append(url);
    s.append(channel);
    s
}

/// What the whole formatting stage owes: the exact payload for the first
/// datapoint, or the exact error where there is none or it is unreadable.
pub open spec fn spec_prepared(points: Seq<Datapoint>, channel: Seq<char>) -> Result<
    Seq<char>,
    TaskError,
> {
    if points.len() == 0 {
        Err(TaskError::NoDatapoints)
    } else {
        match spec_message_of(points[0]) {
            Ok(tc) => Ok(spec_payload(channel, tc.0, tc.1)),
            Err(e) => Err(e),
        }
    }
}

/// From the fetched datapoints to the body of the webhook post: take the
/// first datapoint, format it, frame the payload.
pub fn prepare_post(points: Vec<Datapoint>, channel: &str) -> (r: Result<String, TaskError>)
    ensures
        ({
            match spec_prepared(points@, channel@) {
                Ok(body) => r matches Ok(b) && r->Ok_0@ == body,
                Err(e) => r == Err::<String, TaskError>(e),
            }
        }),
{
    let dp = match crate::fetch::select_datapoint(points) {
        Ok(dp) => dp,
        Err(e) => {
            return Err(e);
        },
    };
    let message = match build_message(&dp) {
        Ok(m) => m,
        Err(e) => {
            return Err(e);
        },
    };
    Ok(slack_payload(channel, &message))
}

} // verus!
