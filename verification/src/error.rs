//! The ways in which an invocation can fail.

use crate::text::{decimal, natural_string};
use vstd::prelude::*;
use vstd::string::StringExecFns;

verus! {

/// A failure to read the directives of an event.
#[derive(Debug)]
pub enum DirectiveError {
    /// The body holds no block between two sentinel markers.
    NoDirectivesFound,
    /// A line of the block is not of the form `key: value`; the line is kept.
    InvalidDirectiveLine(String),
    /// The directives name no project.
    MissingProjectCode,
}

/// A `DirectiveError` as a mathematical value.
pub enum DirectiveErrorView {
    NoDirectivesFound,
    InvalidDirectiveLine(Seq<char>),
    MissingProjectCode,
}

impl View for DirectiveError {
    type V = DirectiveErrorView;

    open spec fn view(&self) -> DirectiveErrorView {
        match self {
            DirectiveError::NoDirectivesFound => DirectiveErrorView::NoDirectivesFound,
            DirectiveError::InvalidDirectiveLine(line) => DirectiveErrorView::InvalidDirectiveLine(
                line@,
            ),
            DirectiveError::MissingProjectCode => DirectiveErrorView::MissingProjectCode,
        }
    }
}

impl DirectiveErrorView {
    /// What the failure says.
    pub open spec fn message(self) -> Seq<char> {
        match self {
            DirectiveErrorView::NoDirectivesFound => "No bot options found in event"@,
            DirectiveErrorView::InvalidDirectiveLine(line) => "Invalid option format: '"@ + line
                + "'"@,
            DirectiveErrorView::MissingProjectCode => "No project code in options"@,
        }
    }
}

impl DirectiveError {
    /// What the failure says. An invalid line is quoted.
    pub fn message(&self) -> (text: String)
        ensures
            text@ == self@.message(),
    {
        match self {
            DirectiveError::NoDirectivesFound => "No bot options found in event".to_owned(),
            DirectiveError::InvalidDirectiveLine(line) => {
                let mut text = "Invalid option format: '".to_owned();
                text.append(line.as_str());
                text.append("'");
                text
            },
            DirectiveError::MissingProjectCode => "No project code in options".to_owned(),
        }
    }
}

/// A failure to resolve a time.
#[derive(Debug)]
pub enum TimeError {
    /// The name is not that of a zone of the IANA database; the name is kept.
    UnknownZone(String),
    /// The text is no date and time in the expected pattern; the text is kept.
    InvalidDateTime(String),
    /// The local time does not exist in the zone: it falls into a gap.
    NonexistentLocalTime,
    /// The local time occurs twice in the zone: it falls into a fold.
    AmbiguousLocalTime,
    /// The text is no RFC 3339 timestamp; the text is kept.
    InvalidTimestamp(String),
    /// The instant lies outside the range of dates that can be told.
    InstantOutOfRange,
}

/// A `TimeError` as a mathematical value.
pub enum TimeErrorView {
    UnknownZone(Seq<char>),
    InvalidDateTime(Seq<char>),
    NonexistentLocalTime,
    AmbiguousLocalTime,
    InvalidTimestamp(Seq<char>),
    InstantOutOfRange,
}

impl View for TimeError {
    type V = TimeErrorView;

    open spec fn view(&self) -> TimeErrorView {
        match self {
            TimeError::UnknownZone(name) => TimeErrorView::UnknownZone(name@),
            TimeError::InvalidDateTime(text) => TimeErrorView::InvalidDateTime(text@),
            TimeError::NonexistentLocalTime => TimeErrorView::NonexistentLocalTime,
            TimeError::AmbiguousLocalTime => TimeErrorView::AmbiguousLocalTime,
            TimeError::InvalidTimestamp(text) => TimeErrorView::InvalidTimestamp(text@),
            TimeError::InstantOutOfRange => TimeErrorView::InstantOutOfRange,
        }
    }
}

impl TimeErrorView {
    /// What the failure says.
    pub open spec fn message(self) -> Seq<char> {
        match self {
            TimeErrorView::UnknownZone(name) => "Invalid timezone: "@ + name,
            TimeErrorView::InvalidDateTime(text) => "Invalid datetime format: "@ + text,
            TimeErrorView::NonexistentLocalTime => "Invalid timestamp: no such local time"@,
            TimeErrorView::AmbiguousLocalTime => "Invalid timestamp: ambiguous local time"@,
            TimeErrorView::InvalidTimestamp(text) => "Invalid datetime format: "@ + text,
            TimeErrorView::InstantOutOfRange => "Invalid timestamp: out of range"@,
        }
    }
}

impl TimeError {
    /// What the failure says. The text that could not be read is kept.
    pub fn message(&self) -> (text: String)
        ensures
            text@ == self@.message(),
    {
        match self {
            TimeError::UnknownZone(name) => {
                let mut text = "Invalid timezone: ".to_owned();
                text.append(name.as_str());
                text
            },
            TimeError::InvalidDateTime(given) => {
                let mut text = "Invalid datetime format: ".to_owned();
                text.append(given.as_str());
                text
            },
            TimeError::NonexistentLocalTime => "Invalid timestamp: no such local time".to_owned(),
            TimeError::AmbiguousLocalTime => "Invalid timestamp: ambiguous local time".to_owned(),
            TimeError::InvalidTimestamp(given) => {
                let mut text = "Invalid datetime format: ".to_owned();
                text.append(given.as_str());
                text
            },
            TimeError::InstantOutOfRange => "Invalid timestamp: out of range".to_owned(),
        }
    }
}

/// A failure to turn one event into a task.
#[derive(Debug)]
pub enum EventError {
    /// The directives could not be read, or name no project.
    Directive(DirectiveError),
    /// A time of the event could not be resolved.
    Time(TimeError),
    /// The directives could not be written as JSON.
    OptionsNotSerializable,
}

/// An `EventError` as a mathematical value.
pub enum EventErrorView {
    Directive(DirectiveErrorView),
    Time(TimeErrorView),
    OptionsNotSerializable,
}

impl View for EventError {
    type V = EventErrorView;

    open spec fn view(&self) -> EventErrorView {
        match self {
            EventError::Directive(e) => EventErrorView::Directive(e@),
            EventError::Time(e) => EventErrorView::Time(e@),
            EventError::OptionsNotSerializable => EventErrorView::OptionsNotSerializable,
        }
    }
}

impl EventErrorView {
    /// What the failure says.
    pub open spec fn message(self) -> Seq<char> {
        match self {
            EventErrorView::Directive(e) => e.message(),
            EventErrorView::Time(e) => e.message(),
            EventErrorView::OptionsNotSerializable => "Failed to parse task options"@,
        }
    }
}

impl EventError {
    /// What the failure says.
    pub fn message(&self) -> (text: String)
        ensures
            text@ == self@.message(),
    {
        match self {
            EventError::Directive(e) => e.message(),
            EventError::Time(e) => e.message(),
            EventError::OptionsNotSerializable => "Failed to parse task options".to_owned(),
        }
    }
}

/// The failure of a batch: the first event that failed, by its subject, and
/// why it failed.
#[derive(Debug)]
pub struct BatchError {
    pub subject: String,
    pub cause: EventError,
}

/// A `BatchError` as a mathematical value.
pub struct BatchErrorView {
    pub subject: Seq<char>,
    pub cause: EventErrorView,
}

impl View for BatchError {
    type V = BatchErrorView;

    open spec fn view(&self) -> BatchErrorView {
        BatchErrorView { subject: self.subject@, cause: self.cause@ }
    }
}

impl BatchErrorView {
    /// What the failure says: the subject of the event, and why it failed.
    pub open spec fn message(self) -> Seq<char> {
        "Failed to process event "@ + self.subject + ": "@ + self.cause.message()
    }
}

impl BatchError {
    /// What the failure says: the subject of the event, and why it failed.
    pub fn message(&self) -> (text: String)
        ensures
            text@ == self@.message(),
    {
        let mut text = "Failed to process event ".to_owned();
        text.append(self.subject.as_str());
        text.append(": ");
        let cause = self.cause.message();
        text.append(cause.as_str());
        text
    }
}

/// A failure of the authentication handshake.
#[derive(Debug)]
pub enum ProtocolError {
    /// The message states its names in an encoding other than Unicode.
    UnsupportedEncoding,
    /// A field of the message is longer than its 16-bit length can tell.
    FieldTooLong,
    /// The message could not be encoded.
    EncodeFailed,
    /// The response to the first request has no `WWW-Authenticate` header.
    MissingChallengeHeader,
    /// The `WWW-Authenticate` header is no text.
    ChallengeHeaderNotText,
    /// The header holds no second part after a space.
    MissingChallengeToken,
    /// The second part of the header is no base64 text.
    InvalidChallengeEncoding,
    /// The bytes are no message of the protocol.
    MalformedMessage,
    /// The message is of another type than a challenge; its type is kept.
    UnexpectedMessage(u32),
}

impl ProtocolError {
    /// What the failure says.
    pub open spec fn message_spec(self) -> Seq<char> {
        match self {
            ProtocolError::UnsupportedEncoding => "NTLM message is not in Unicode"@,
            ProtocolError::FieldTooLong => "NTLM message field is too long"@,
            ProtocolError::EncodeFailed => "failed to encode NTLM message"@,
            ProtocolError::MissingChallengeHeader => "response missing challenge header"@,
            ProtocolError::ChallengeHeaderNotText => "challenge header not a string"@,
            ProtocolError::MissingChallengeToken => "second chunk of challenge header missing"@,
            ProtocolError::InvalidChallengeEncoding => "base64 decoding challenge message failed"@,
            ProtocolError::MalformedMessage => "decoding challenge message failed"@,
            ProtocolError::UnexpectedMessage(kind) => "wrong challenge message: type "@ + decimal(
                kind as nat,
            ),
        }
    }

    /// What the failure says. The type of an unexpected message is kept.
    pub fn message(&self) -> (text: String)
        ensures
            text@ == self.message_spec(),
    {
        match self {
            ProtocolError::UnsupportedEncoding => "NTLM message is not in Unicode".to_owned(),
            ProtocolError::FieldTooLong => "NTLM message field is too long".to_owned(),
            ProtocolError::EncodeFailed => "failed to encode NTLM message".to_owned(),
            ProtocolError::MissingChallengeHeader => "response missing challenge header".to_owned(),
            ProtocolError::ChallengeHeaderNotText => "challenge header not a string".to_owned(),
            ProtocolError::MissingChallengeToken => {
                "second chunk of challenge header missing".to_owned()
            },
            ProtocolError::InvalidChallengeEncoding => {
                "base64 decoding challenge message failed".to_owned()
            },
            ProtocolError::MalformedMessage => "decoding challenge message failed".to_owned(),
            ProtocolError::UnexpectedMessage(kind) => {
                let mut text = "wrong challenge message: type ".to_owned();
                let number = natural_string(*kind as u64);
                text.append(number.as_str());
                text
            },
        }
    }
}

/// A login that does not read `user@domain`; the login is kept.
#[derive(Debug)]
pub struct InvalidCredentialsFormat {
    pub login: String,
}

impl InvalidCredentialsFormat {
    /// What the failure says: the login that could not be split.
    pub fn message(&self) -> (text: String)
        ensures
            text@ == "invalid login format: "@ + self.login@,
    {
        let mut text = "invalid login format: ".to_owned();
        text.append(self.login.as_str());
        text
    }
}

/// A failure to answer the server's challenge.
#[derive(Debug)]
pub enum HandshakeError {
    Protocol(ProtocolError),
    Credentials(InvalidCredentialsFormat),
}

/// A failure to reach the server or to get the feed from it.
#[derive(Debug)]
pub enum TransportError {
    /// No response came; what the transport said is kept.
    ConnectionFailed(String),
    /// The server answered the second request with a status other than 200.
    Status(u16),
}

/// A failure to read the body of the feed.
#[derive(Debug)]
pub enum DecodeError {
    /// The body is no text in UTF-8.
    NotText,
    /// The text is no feed of events; what the parser said is kept.
    MalformedResponse(String),
}

/// The failure of a fetch.
#[derive(Debug)]
pub enum FetchError {
    /// The zone of the configuration, or the clock, gave no day to ask for.
    Time(TimeError),
    Protocol(ProtocolError),
    Credentials(InvalidCredentialsFormat),
    Transport(TransportError),
    Decode(DecodeError),
    /// An event of the feed failed.
    Event(BatchError),
    /// What came does not answer what the fetch last asked for.
    UnexpectedEvent,
    /// The fetch had ended before.
    AlreadyFinished,
}

} // verus!
