//! What the connectors share when they speak HTTP: how long to wait, how to
//! present a user, where to send a request, and what to make of a response.

use crate::encoding::{base64_encode, base64_text, text_of_bytes};
use crate::json::{json_string, json_text_of};
use crate::text::{decimal, natural_string};
use vstd::prelude::*;
use vstd::string::StringExecFns;
use vstd::utf8::{decode_utf8, encode_utf8, valid_utf8};

verus! {

/// The seconds to wait for a connection where the configuration gives none.
pub const DEFAULT_CONNECT_TIMEOUT: u64 = 60;

/// The status of a response that brings what was asked for.
pub const STATUS_OK: u16 = 200;

/// What the value of an `Authorization` header for a name and a password
/// starts with.
pub const BASIC_SCHEME: &'static str = "Basic ";

/// The seconds to wait for a connection: what the configuration gives, or
/// the default.
pub open spec fn connect_timeout_of(timeout: Option<u64>) -> u64 {
    match timeout {
        Some(seconds) => seconds,
        None => DEFAULT_CONNECT_TIMEOUT,
    }
}

/// The seconds to wait for a connection.
pub fn connect_timeout(timeout: Option<u64>) -> (seconds: u64)
    ensures
        seconds == connect_timeout_of(timeout),
{
    match timeout {
        Some(seconds) => seconds,
        None => DEFAULT_CONNECT_TIMEOUT,
    }
}

/// Why a response brings no text.
#[derive(Debug)]
pub enum ResponseError {
    /// The status is not 200; the status is kept.
    Status(u16),
    /// The body is no text in UTF-8.
    NotText,
}

/// The text that a response brings: the text of its body, where its status
/// is 200 and its body is UTF-8.
pub open spec fn response_text_spec(status: u16, body: Seq<u8>) -> Result<
    Seq<char>,
    ResponseError,
> {
    if status != STATUS_OK {
        Err(ResponseError::Status(status))
    } else if !valid_utf8(body) {
        Err(ResponseError::NotText)
    } else {
        Ok(decode_utf8(body))
    }
}

/// Reads the text that a response brings. The status is looked at first.
pub fn response_text(status: u16, body: Vec<u8>) -> (r: Result<String, ResponseError>)
    ensures
        match r {
            Ok(text) => response_text_spec(status, body@) == Ok::<Seq<char>, ResponseError>(text@),
            Err(e) => response_text_spec(status, body@) == Err::<Seq<char>, ResponseError>(e),
        },
{
    if status != STATUS_OK {
        return Err(ResponseError::Status(status));
    }
    match text_of_bytes(body) {
        Some(text) => Ok(text),
        None => Err(ResponseError::NotText),
    }
}

/// How a status is told in an error: `HTTP/` and the number.
pub open spec fn status_text(status: u16) -> Seq<char> {
    "HTTP/"@ + decimal(status as nat)
}

/// How a status is told in an error.
pub fn status_message(status: u16) -> (text: String)
    ensures
        text@ == status_text(status),
{
    let mut text = "HTTP/".to_owned();
    let number = natural_string(status as u64);
    text.append(number.as_str());
    text
}

/// The value of the `Authorization` header for a name and a password: the
/// scheme, and the base64 text of the name, a colon and the password in
/// UTF-8.
pub open spec fn basic_authorization_spec(login: Seq<char>, password: Seq<char>) -> Seq<char> {
    BASIC_SCHEME@ + base64_text(encode_utf8(login + ":"@ + password))
}

/// The value of the `Authorization` header for a name and a password.
pub fn basic_authorization(login: &str, password: &str) -> (value: String)
    ensures
        value@ == basic_authorization_spec(login@, password@),
{
    let mut credentials = login.to_owned();
    credentials.append(":");
    credentials.append(password);
    let encoded = base64_encode(credentials.as_str().as_bytes());
    let mut value = BASIC_SCHEME.to_owned();
    value.append(encoded.as_str());
    value
}

/// Names what `url::Url::parse` makes of a text: the address in its normal
/// form, as `url::Url::as_str` gives it; `None` where the text is no
/// absolute address.
pub uninterp spec fn url_text(text: Seq<char>) -> Option<Seq<char>>;

/// The normal form of an address, by `url::Url::parse`.
#[verifier::external_body]
fn normalize_url(text: &str) -> (r: Option<String>)
    ensures
        match r {
            Some(url) => url_text(text@) == Some(url@),
            None => url_text(text@) is None,
        },
{
    url::Url::parse(text).ok().map(|url| url.as_str().to_owned())
}

/// The address of a path below an endpoint: the endpoint, a slash and the
/// path, in normal form.
pub open spec fn request_url_spec(endpoint: Seq<char>, path: Seq<char>) -> Option<Seq<char>> {
    url_text(endpoint + "/"@ + path)
}

/// The address of a path below an endpoint; `None` where the two make no
/// address.
pub fn request_url(endpoint: &str, path: &str) -> (r: Option<String>)
    ensures
        match r {
            Some(url) => request_url_spec(endpoint@, path@) == Some(url@),
            None => request_url_spec(endpoint@, path@) is None,
        },
{
    let mut text = endpoint.to_owned();
    text.append("/");
    text.append(path);
    normalize_url(text.as_str())
}

/// The payload of a notification: a JSON object with the task and, under
/// `options`, the channel, the message and the topic, the keys of each
/// object in the order of the alphabet. `None` where a value has no JSON
/// text.
pub open spec fn notification_payload_spec(
    task_id: Seq<char>,
    channel: Seq<char>,
    topic: Seq<char>,
    message: Seq<char>,
) -> Option<Seq<char>> {
    match (json_text_of(channel), json_text_of(message), json_text_of(topic), json_text_of(task_id)) {
        (Some(c), Some(m), Some(t), Some(id)) => Some(
            "{\"options\":{\"channel\":"@ + c + ",\"message\":"@ + m + ",\"topic\":"@ + t
                + "},\"task_id\":"@ + id + "}"@,
        ),
        _ => None,
    }
}

/// The payload of the notification that asks to post a message.
pub fn notification_payload(task_id: &str, channel: &str, topic: &str, message: &str) -> (r: Option<
    String,
>)
    ensures
        match r {
            Some(payload) => notification_payload_spec(task_id@, channel@, topic@, message@)
                == Some(payload@),
            None => notification_payload_spec(task_id@, channel@, topic@, message@) is None,
        },
{
    let c = json_string(channel);
    let m = json_string(message);
    let t = json_string(topic);
    let id = json_string(task_id);
    match (c, m, t, id) {
        (Some(c), Some(m), Some(t), Some(id)) => {
            let mut out = "{\"options\":{\"channel\":".to_owned();
            out.append(c.as_str());
            out.append(",\"message\":");
            out.append(m.as_str());
            out.append(",\"topic\":");
            out.append(t.as_str());
            out.append("},\"task_id\":");
            out.append(id.as_str());
            out.append("}");
            Some(out)
        },
        _ => None,
    }
}

} // verus!
