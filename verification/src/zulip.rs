//! The messenger connector: how often it may post, what it posts, and what
//! it makes of the answer.

use crate::template::variables_view;
use crate::text::{decimal, natural_string, same_text};
use vstd::prelude::*;
use vstd::string::StringExecFns;

verus! {

/// The path to which messages are posted.
pub const MESSAGES_PATH: &'static str = "api/v1/messages";

/// What the server answers where it has taken the message.
pub const RESULT_SUCCESS: &'static str = "success";

/// The number of requests a minute that the limiter is set up with: the
/// configured number, and one where that is zero.
pub fn requests_per_minute(configured: u32) -> (rate: u32)
    ensures
        rate >= 1,
        rate == if configured == 0 {
            1
        } else {
            configured
        },
{
    if configured == 0 {
        1
    } else {
        configured
    }
}

/// The query of a post: the kind of the message, which is `stream`, the
/// channel, the topic and the content.
pub open spec fn message_query_spec(channel: Seq<char>, topic: Seq<char>, message: Seq<char>) -> Seq<
    (Seq<char>, Seq<char>),
> {
    seq![("type"@, "stream"@), ("to"@, channel), ("topic"@, topic), ("content"@, message)]
}

/// The query of a post.
pub fn message_query(channel: &str, topic: &str, message: &str) -> (query: Vec<(String, String)>)
    ensures
        variables_view(query@) == message_query_spec(channel@, topic@, message@),
{
    let mut query: Vec<(String, String)> = Vec::new();
    query.push(("type".to_owned(), "stream".to_owned()));
    query.push(("to".to_owned(), channel.to_owned()));
    query.push(("topic".to_owned(), topic.to_owned()));
    query.push(("content".to_owned(), message.to_owned()));
    query
}

/// Whether the server has taken the message: its result is `success`. What
/// the server says otherwise is the failure.
pub fn check_posted(result: &str, msg: String) -> (r: Result<(), String>)
    ensures
        match r {
            Ok(_) => result@ == RESULT_SUCCESS@,
            Err(why) => result@ != RESULT_SUCCESS@ && why == msg,
        },
{
    if same_text(result, RESULT_SUCCESS) {
        Ok(())
    } else {
        Err(msg)
    }
}

/// What is said where the limit of requests is reached: how many seconds to
/// wait.
pub open spec fn rate_limit_text(wait_seconds: u64) -> Seq<char> {
    "Rate limit exceeded. Try again in "@ + decimal(wait_seconds as nat) + " seconds"@
}

/// What is said where the limit of requests is reached.
pub fn rate_limit_message(wait_seconds: u64) -> (text: String)
    ensures
        text@ == rate_limit_text(wait_seconds),
{
    let mut text = "Rate limit exceeded. Try again in ".to_owned();
    let number = natural_string(wait_seconds);
    text.append(number.as_str());
    text.append(" seconds");
    text
}

} // verus!
