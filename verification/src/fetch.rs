//! The fetch of the calendar feed: two requests, one after the other.
//!
//! The fetch itself sends nothing. It says what to do next, and is told what
//! came of it: the first request goes out with the negotiation message; the
//! response brings the server's challenge; the second request goes out with
//! the answer; its response brings the feed; the text of the feed is handed
//! out to be parsed, and the events come back and are turned into tasks.

use crate::error::{
    DecodeError, FetchError, HandshakeError, ProtocolError, TimeError, TransportError,
};
use crate::http::{connect_timeout, connect_timeout_of, response_text, ResponseError, STATUS_OK};
use crate::ntlm::{
    answer_challenge_now, header_view, is_handshake_answer, negotiate_authorization,
    negotiate_authorization_spec,
};
use crate::schedule::{
    day_window_at, day_window_now, feed_url, feed_url_spec, is_day_window_at, DayWindow,
};
use crate::task::{batch_spec, events_view, process_events, tasks_view, CalendarEvent, Task};
use crate::text::string_of;
use vstd::prelude::*;
use vstd::utf8::{decode_utf8, valid_utf8};

verus! {

/// The name of the header that carries a message of the handshake.
pub const AUTHORIZATION: &'static str = "Authorization";

/// The name of the header that states a preference.
pub const PREFER: &'static str = "Prefer";

/// The preference for bodies as plain text.
pub const PREFER_TEXT_BODY: &'static str = "outlook.body-content-type=\"text\"";

/// The preference for the zone in which the feed states its times.
pub const PREFER_TIMEZONE: &'static str = "outlook.timezone=\"Europe/Moscow\"";

/// What the connector is configured with.
#[derive(Debug)]
pub struct Config {
    pub endpoint: String,
    /// The seconds to wait for a connection.
    pub timeout: Option<u64>,
    /// The login, of the form `user@domain`.
    pub login: String,
    pub password: String,
    /// The name of the zone whose current day is asked for.
    pub timezone: String,
}

/// A `GET` request without a body.
#[derive(Debug)]
pub struct FetchRequest {
    pub url: String,
    /// The headers, each a name and a value, in the order to send them.
    pub headers: Vec<(String, String)>,
    /// The seconds to wait for a connection.
    pub connect_timeout: u64,
}

/// What the fetch is told.
#[derive(Debug)]
pub enum FetchEvent {
    /// The response to the request that was sent last: its status, the bytes
    /// of its `WWW-Authenticate` header where it has one, and its body.
    Response { status: u16, www_authenticate: Option<Vec<u8>>, body: Vec<u8> },
    /// The request that was sent last brought no response.
    ConnectionFailed(String),
    /// The text that was handed out is a feed with these events.
    FeedDecoded(Vec<CalendarEvent>),
    /// The text that was handed out is no feed.
    FeedMalformed(String),
}

/// What the fetch asks for next, or how it ended.
#[derive(Debug)]
pub enum FetchAction {
    /// Send this request and tell the response.
    Send(FetchRequest),
    /// Parse this text as a feed and tell the events.
    DecodeFeed(String),
    /// The fetch has ended with these tasks.
    Finish(Vec<Task>),
    /// The fetch has ended without tasks.
    Fail(FetchError),
}

/// How far a fetch has come.
#[derive(Clone, Copy, Debug)]
pub enum FetchPhase {
    /// The first request is out.
    AwaitingChallenge,
    /// The second request is out.
    AwaitingFeed,
    /// The text of the feed is out to be parsed.
    AwaitingEvents,
    /// Ended with tasks.
    Done,
    /// Ended without tasks before the second request.
    HandshakeFailed,
    /// Ended without tasks after the second request.
    FeedFailed,
}

/// The number of requests that a fetch in this phase has asked to send.
pub open spec fn requests_sent(phase: FetchPhase) -> nat {
    match phase {
        FetchPhase::AwaitingChallenge => 1,
        FetchPhase::HandshakeFailed => 1,
        FetchPhase::AwaitingFeed => 2,
        FetchPhase::AwaitingEvents => 2,
        FetchPhase::Done => 2,
        FetchPhase::FeedFailed => 2,
    }
}

/// Whether a fetch in this phase has ended.
pub open spec fn has_ended(phase: FetchPhase) -> bool {
    phase is Done || phase is HandshakeFailed || phase is FeedFailed
}

/// Whether a byte of a header is text: a visible ASCII character, a space or
/// a tab.
pub open spec fn is_header_text_byte(b: u8) -> bool {
    32 <= b < 127 || b == 9
}

/// The text of a header: its bytes as characters, where each of them is
/// text.
pub open spec fn header_text_spec(bytes: Seq<u8>) -> Option<Seq<char>> {
    if forall|i: int| 0 <= i < bytes.len() ==> is_header_text_byte(#[trigger] bytes[i]) {
        Some(Seq::new(bytes.len(), |i: int| bytes[i] as char))
    } else {
        None
    }
}

/// Reads the bytes of a header as text.
pub fn header_text(bytes: &[u8]) -> (r: Option<String>)
    ensures
        match r {
            Some(text) => header_text_spec(bytes@) == Some(text@),
            None => header_text_spec(bytes@) is None,
        },
{
    let mut chars: Vec<char> = Vec::new();
    let mut i: usize = 0;
    while i < bytes.len()
        invariant
            i <= bytes@.len(),
            chars@.len() == i,
            forall|k: int| 0 <= k < i ==> is_header_text_byte(#[trigger] bytes@[k]),
            forall|k: int| 0 <= k < i ==> chars@[k] == bytes@[k] as char,
        decreases bytes.len() - i,
    {
        let b = bytes[i];
        if !((32 <= b && b < 127) || b == 9) {
            return None;
        }
        chars.push(b as char);
        i += 1;
    }
    Some(string_of(chars.as_slice()))
}

/// Whether `request` is the first request of a fetch: it carries the
/// negotiation message and nothing else.
pub open spec fn is_first_request(
    request: FetchRequest,
    url: Seq<char>,
    authorization: Seq<char>,
    connect_timeout: u64,
) -> bool {
    &&& request.url@ == url
    &&& request.connect_timeout == connect_timeout
    &&& request.headers@.len() == 1
    &&& request.headers@[0].0@ == AUTHORIZATION@
    &&& request.headers@[0].1@ == authorization
}

/// Whether `request` is the second request of a fetch: it goes to the same
/// address, carries the authentication message, and asks for bodies as plain
/// text and for times in the fixed zone.
pub open spec fn is_second_request(
    request: FetchRequest,
    url: Seq<char>,
    authorization: Seq<char>,
    connect_timeout: u64,
) -> bool {
    &&& request.url@ == url
    &&& request.connect_timeout == connect_timeout
    &&& request.headers@.len() == 3
    &&& request.headers@[0].0@ == AUTHORIZATION@
    &&& request.headers@[0].1@ == authorization
    &&& request.headers@[1].0@ == PREFER@
    &&& request.headers@[1].1@ == PREFER_TEXT_BODY@
    &&& request.headers@[2].0@ == PREFER@
    &&& request.headers@[2].1@ == PREFER_TIMEZONE@
}

/// A fetch in progress: how far it has come, and what it was begun with.
pub struct Fetcher {
    phase: FetchPhase,
    url: String,
    login: String,
    password: String,
    connect_timeout: u64,
}

impl Fetcher {
    /// How far the fetch has come.
    pub closed spec fn phase(&self) -> FetchPhase {
        self.phase
    }

    /// The address of the feed.
    pub closed spec fn url(&self) -> Seq<char> {
        self.url@
    }

    /// The login that the fetch authenticates with.
    pub closed spec fn login(&self) -> Seq<char> {
        self.login@
    }

    /// The password that the fetch authenticates with.
    pub closed spec fn password(&self) -> Seq<char> {
        self.password@
    }

    /// The seconds that each request waits for a connection.
    pub closed spec fn connect_timeout(&self) -> u64 {
        self.connect_timeout
    }

    /// Whether `other` was begun with what this fetch was begun with.
    pub open spec fn same_inputs(&self, other: &Fetcher) -> bool {
        &&& self.url() == other.url()
        &&& self.login() == other.login()
        &&& self.password() == other.password()
        &&& self.connect_timeout() == other.connect_timeout()
    }

    /// How far the fetch has come.
    pub fn current_phase(&self) -> (phase: FetchPhase)
        ensures
            phase == self.phase(),
    {
        self.phase
    }

    /// The number of requests that the fetch has asked to send.
    pub fn requests_sent(&self) -> (n: u8)
        ensures
            n == requests_sent(self.phase()),
    {
        match self.phase {
            FetchPhase::AwaitingChallenge => 1,
            FetchPhase::HandshakeFailed => 1,
            FetchPhase::AwaitingFeed => 2,
            FetchPhase::AwaitingEvents => 2,
            FetchPhase::Done => 2,
            FetchPhase::FeedFailed => 2,
        }
    }

    /// Whether the fetch has ended.
    pub fn has_ended(&self) -> (ended: bool)
        ensures
            ended == has_ended(self.phase()),
    {
        match self.phase {
            FetchPhase::Done => true,
            FetchPhase::HandshakeFailed => true,
            FetchPhase::FeedFailed => true,
            _ => false,
        }
    }
}

/// Whether `r` begins a fetch for a configuration at an instant: the feed is
/// asked for the day on which the instant falls in the configured zone, and
/// the first request carries the negotiation message. The zone is read
/// before the message is encoded.
pub open spec fn is_beginning(
    r: Result<(Fetcher, FetchRequest), FetchError>,
    config: Config,
    instant: i64,
) -> bool {
    match crate::schedule::day_window_at_spec(config.timezone@, instant) {
        Err(e) => r matches Err(FetchError::Time(cause)) && cause@ == e,
        Ok((start, end)) => match negotiate_authorization_spec() {
            Err(e) => r matches Err(FetchError::Protocol(cause)) && cause == e,
            Ok(authorization) => {
                &&& r matches Ok((fetcher, request))
                &&& fetcher.phase() is AwaitingChallenge
                &&& fetcher.url() == feed_url_spec(config.endpoint@, start, end)
                &&& fetcher.login() == config.login@
                &&& fetcher.password() == config.password@
                &&& fetcher.connect_timeout() == connect_timeout_of(config.timeout)
                &&& is_first_request(
                    request,
                    fetcher.url(),
                    authorization,
                    fetcher.connect_timeout(),
                )
            },
        },
    }
}

/// Begins a fetch for the window of a day.
fn begin_with(config: &Config, window: Result<DayWindow, TimeError>) -> (r: Result<
    (Fetcher, FetchRequest),
    FetchError,
>)
    ensures
        forall|instant: i64|
            is_day_window_at(config.timezone@, instant, window) ==> is_beginning(
                r,
                *config,
                instant,
            ),
{
    let window = match window {
        Ok(w) => w,
        Err(e) => {
            return Err(FetchError::Time(e));
        },
    };
    let authorization = match negotiate_authorization() {
        Ok(value) => value,
        Err(e) => {
            return Err(FetchError::Protocol(e));
        },
    };
    let connect_timeout = connect_timeout(config.timeout);
    let url = feed_url(config.endpoint.as_str(), &window);
    let mut headers: Vec<(String, String)> = Vec::new();
    headers.push((AUTHORIZATION.to_owned(), authorization));
    let request = FetchRequest { url: url.clone(), headers, connect_timeout };
    let fetcher = Fetcher {
        phase: FetchPhase::AwaitingChallenge,
        url,
        login: config.login.clone(),
        password: config.password.clone(),
        connect_timeout,
    };
    Ok((fetcher, request))
}

impl Fetcher {
    /// Begins a fetch of the events of the day on which `instant` falls in
    /// the configured zone. What comes back is the fetch and its first
    /// request.
    pub fn begin_at(config: &Config, instant: i64) -> (r: Result<
        (Fetcher, FetchRequest),
        FetchError,
    >)
        ensures
            is_beginning(r, *config, instant),
    {
        begin_with(config, day_window_at(config.timezone.as_str(), instant))
    }

    /// Begins a fetch of the events of the current day in the configured
    /// zone.
    pub fn begin(config: &Config) -> (r: Result<(Fetcher, FetchRequest), FetchError>)
        ensures
            exists|instant: i64| is_beginning(r, *config, instant),
    {
        let window = day_window_now(config.timezone.as_str());
        let ghost instant = choose|instant: i64|
            is_day_window_at(config.timezone@, instant, window);
        let r = begin_with(config, window);
        assert(is_beginning(r, *config, instant));
        r
    }
}

/// The `WWW-Authenticate` header of a response as text, where it has one
/// that is text.
pub open spec fn challenge_header(www_authenticate: Option<Vec<u8>>) -> Option<Seq<char>> {
    match www_authenticate {
        Some(bytes) => header_text_spec(bytes@),
        None => None,
    }
}

/// Whether the `WWW-Authenticate` header of a response is there and is no
/// text.
pub open spec fn challenge_header_unreadable(www_authenticate: Option<Vec<u8>>) -> bool {
    www_authenticate matches Some(bytes) && header_text_spec(bytes@) is None
}

/// Whether a fetch goes on rightly from an answer to the challenge: with the
/// second request where there is an answer, and to its end where there is
/// none.
pub open spec fn follows_answer(
    answer: Result<String, HandshakeError>,
    after: FetchPhase,
    action: FetchAction,
    url: Seq<char>,
    connect_timeout: u64,
) -> bool {
    match answer {
        Ok(value) => {
            &&& after is AwaitingFeed
            &&& action matches FetchAction::Send(request)
            &&& is_second_request(request, url, value@, connect_timeout)
        },
        Err(HandshakeError::Protocol(e)) => {
            &&& after is HandshakeFailed
            &&& action matches FetchAction::Fail(FetchError::Protocol(cause))
            &&& cause == e
        },
        Err(HandshakeError::Credentials(e)) => {
            &&& after is HandshakeFailed
            &&& action matches FetchAction::Fail(FetchError::Credentials(cause))
            &&& cause == e
        },
    }
}

/// Whether a fetch that awaits the challenge goes on rightly from the
/// response to its first request. The status of that response is not looked
/// at.
pub open spec fn follows_challenge(
    www_authenticate: Option<Vec<u8>>,
    after: FetchPhase,
    action: FetchAction,
    url: Seq<char>,
    login: Seq<char>,
    password: Seq<char>,
    connect_timeout: u64,
) -> bool {
    if challenge_header_unreadable(www_authenticate) {
        &&& after is HandshakeFailed
        &&& action matches FetchAction::Fail(FetchError::Protocol(cause))
        &&& cause == ProtocolError::ChallengeHeaderNotText
    } else {
        exists|time: i64, answer: Result<String, HandshakeError>|
            #[trigger] is_handshake_answer(
                answer,
                challenge_header(www_authenticate),
                login,
                password,
                time,
            ) && follows_answer(answer, after, action, url, connect_timeout)
    }
}

/// Whether a fetch that awaits the feed goes on rightly from the response
/// to its second request: a status other than 200 and a body that is no
/// text end it; else the text of the body is handed out.
pub open spec fn follows_feed(
    status: u16,
    body: Seq<u8>,
    after: FetchPhase,
    action: FetchAction,
) -> bool {
    if status != STATUS_OK {
        &&& after is FeedFailed
        &&& action matches FetchAction::Fail(FetchError::Transport(TransportError::Status(code)))
        &&& code == status
    } else if !valid_utf8(body) {
        &&& after is FeedFailed
        &&& action matches FetchAction::Fail(FetchError::Decode(DecodeError::NotText))
    } else {
        &&& after is AwaitingEvents
        &&& action matches FetchAction::DecodeFeed(text)
        &&& text@ == decode_utf8(body)
    }
}

/// Whether a fetch that awaits the events ends rightly with them: with
/// their tasks, or with the first failure among them.
pub open spec fn follows_events(
    events: Seq<CalendarEvent>,
    after: FetchPhase,
    action: FetchAction,
) -> bool {
    match batch_spec(events_view(events)) {
        Ok(tasks) => {
            &&& after is Done
            &&& action matches FetchAction::Finish(made)
            &&& tasks_view(made@) == tasks
        },
        Err(e) => {
            &&& after is FeedFailed
            &&& action matches FetchAction::Fail(FetchError::Event(cause))
            &&& cause@ == e
        },
    }
}

/// The phase in which a fetch ends when it fails in the given phase.
pub open spec fn failed_phase(phase: FetchPhase) -> FetchPhase {
    match phase {
        FetchPhase::AwaitingChallenge => FetchPhase::HandshakeFailed,
        FetchPhase::AwaitingFeed => FetchPhase::FeedFailed,
        FetchPhase::AwaitingEvents => FetchPhase::FeedFailed,
        ended => ended,
    }
}

/// Whether a fetch goes on rightly from what it is told: from `before` to
/// `after`, asking for `action`.
pub open spec fn is_step(
    before: FetchPhase,
    event: FetchEvent,
    after: FetchPhase,
    action: FetchAction,
    url: Seq<char>,
    login: Seq<char>,
    password: Seq<char>,
    connect_timeout: u64,
) -> bool {
    if has_ended(before) {
        after == before && action matches FetchAction::Fail(FetchError::AlreadyFinished)
    } else {
        match (before, event) {
            (FetchPhase::AwaitingChallenge, FetchEvent::Response { www_authenticate, .. }) =>
                follows_challenge(
                www_authenticate,
                after,
                action,
                url,
                login,
                password,
                connect_timeout,
            ),
            (FetchPhase::AwaitingFeed, FetchEvent::Response { status, body, .. }) => follows_feed(
                status,
                body@,
                after,
                action,
            ),
            (FetchPhase::AwaitingEvents, FetchEvent::FeedDecoded(events)) => follows_events(
                events@,
                after,
                action,
            ),
            (FetchPhase::AwaitingEvents, FetchEvent::FeedMalformed(reason)) => {
                &&& after is FeedFailed
                &&& action matches FetchAction::Fail(
                    FetchError::Decode(DecodeError::MalformedResponse(told)),
                )
                &&& told == reason
            },
            (FetchPhase::AwaitingChallenge, FetchEvent::ConnectionFailed(reason)) => {
                &&& after is HandshakeFailed
                &&& action matches FetchAction::Fail(
                    FetchError::Transport(TransportError::ConnectionFailed(told)),
                )
                &&& told == reason
            },
            (FetchPhase::AwaitingFeed, FetchEvent::ConnectionFailed(reason)) => {
                &&& after is FeedFailed
                &&& action matches FetchAction::Fail(
                    FetchError::Transport(TransportError::ConnectionFailed(told)),
                )
                &&& told == reason
            },
            _ => after == failed_phase(before) && action matches FetchAction::Fail(
                FetchError::UnexpectedEvent,
            ),
        }
    }
}

impl Fetcher {
    /// Goes on from the response to the first request.
    fn on_challenge(&mut self, www_authenticate: Option<Vec<u8>>) -> (action: FetchAction)
        requires
            old(self).phase() is AwaitingChallenge,
        ensures
            final(self).same_inputs(old(self)),
            follows_challenge(
                www_authenticate,
                final(self).phase(),
                action,
                old(self).url(),
                old(self).login(),
                old(self).password(),
                old(self).connect_timeout(),
            ),
    {
        let text = match &www_authenticate {
            Some(bytes) => match header_text(bytes.as_slice()) {
                Some(text) => Some(text),
                None => {
                    self.phase = FetchPhase::HandshakeFailed;
                    return FetchAction::Fail(
                        FetchError::Protocol(ProtocolError::ChallengeHeaderNotText),
                    );
                },
            },
            None => None,
        };
        let header: Option<&str> = match &text {
            Some(t) => Some(t.as_str()),
            None => None,
        };
        match answer_challenge_now(header, self.login.as_str(), self.password.as_str()) {
            Ok(value) => {
                let mut headers: Vec<(String, String)> = Vec::new();
                headers.push((AUTHORIZATION.to_owned(), value));
                headers.push((PREFER.to_owned(), PREFER_TEXT_BODY.to_owned()));
                headers.push((PREFER.to_owned(), PREFER_TIMEZONE.to_owned()));
                self.phase = FetchPhase::AwaitingFeed;
                FetchAction::Send(
                    FetchRequest {
                        url: self.url.clone(),
                        headers,
                        connect_timeout: self.connect_timeout,
                    },
                )
            },
            Err(HandshakeError::Protocol(e)) => {
                self.phase = FetchPhase::HandshakeFailed;
                FetchAction::Fail(FetchError::Protocol(e))
            },
            Err(HandshakeError::Credentials(e)) => {
                self.phase = FetchPhase::HandshakeFailed;
                FetchAction::Fail(FetchError::Credentials(e))
            },
        }
    }

    /// Goes on from the response to the second request.
    fn on_feed(&mut self, status: u16, body: Vec<u8>) -> (action: FetchAction)
        requires
            old(self).phase() is AwaitingFeed,
        ensures
            final(self).same_inputs(old(self)),
            follows_feed(status, body@, final(self).phase(), action),
    {
        match response_text(status, body) {
            Ok(text) => {
                self.phase = FetchPhase::AwaitingEvents;
                FetchAction::DecodeFeed(text)
            },
            Err(ResponseError::Status(code)) => {
                self.phase = FetchPhase::FeedFailed;
                FetchAction::Fail(FetchError::Transport(TransportError::Status(code)))
            },
            Err(ResponseError::NotText) => {
                self.phase = FetchPhase::FeedFailed;
                FetchAction::Fail(FetchError::Decode(DecodeError::NotText))
            },
        }
    }

    /// Ends the fetch with the events of the feed.
    fn on_events(&mut self, events: Vec<CalendarEvent>) -> (action: FetchAction)
        requires
            old(self).phase() is AwaitingEvents,
        ensures
            final(self).same_inputs(old(self)),
            follows_events(events@, final(self).phase(), action),
    {
        match process_events(&events) {
            Ok(tasks) => {
                self.phase = FetchPhase::Done;
                FetchAction::Finish(tasks)
            },
            Err(e) => {
                self.phase = FetchPhase::FeedFailed;
                FetchAction::Fail(FetchError::Event(e))
            },
        }
    }

    /// Ends the fetch without tasks.
    fn fail(&mut self, error: FetchError) -> (action: FetchAction)
        requires
            !has_ended(old(self).phase()),
        ensures
            final(self).same_inputs(old(self)),
            final(self).phase() == failed_phase(old(self).phase()),
            action == FetchAction::Fail(error),
    {
        self.phase = match self.phase {
            FetchPhase::AwaitingChallenge => FetchPhase::HandshakeFailed,
            _ => FetchPhase::FeedFailed,
        };
        FetchAction::Fail(error)
    }

    /// Tells the fetch what came of what it asked for, and learns what it
    /// asks for next. A fetch that has ended stays as it is.
    pub fn step(&mut self, event: FetchEvent) -> (action: FetchAction)
        ensures
            final(self).same_inputs(old(self)),
            is_step(
                old(self).phase(),
                event,
                final(self).phase(),
                action,
                old(self).url(),
                old(self).login(),
                old(self).password(),
                old(self).connect_timeout(),
            ),
    {
        match self.phase {
            FetchPhase::AwaitingChallenge => match event {
                FetchEvent::Response { status, www_authenticate, body } => self.on_challenge(
                    www_authenticate,
                ),
                FetchEvent::ConnectionFailed(reason) => self.fail(
                    FetchError::Transport(TransportError::ConnectionFailed(reason)),
                ),
                _ => self.fail(FetchError::UnexpectedEvent),
            },
            FetchPhase::AwaitingFeed => match event {
                FetchEvent::Response { status, www_authenticate, body } => self.on_feed(
                    status,
                    body,
                ),
                FetchEvent::ConnectionFailed(reason) => self.fail(
                    FetchError::Transport(TransportError::ConnectionFailed(reason)),
                ),
                _ => self.fail(FetchError::UnexpectedEvent),
            },
            FetchPhase::AwaitingEvents => match event {
                FetchEvent::FeedDecoded(events) => self.on_events(events),
                FetchEvent::FeedMalformed(reason) => self.fail(
                    FetchError::Decode(DecodeError::MalformedResponse(reason)),
                ),
                _ => self.fail(FetchError::UnexpectedEvent),
            },
            _ => FetchAction::Fail(FetchError::AlreadyFinished),
        }
    }
}

/// A response to the first request without a `WWW-Authenticate` header ends
/// the fetch with `MissingChallengeHeader`, and no second request is asked
/// for.
pub proof fn law_missing_header_ends_fetch(
    event: FetchEvent,
    after: FetchPhase,
    action: FetchAction,
    url: Seq<char>,
    login: Seq<char>,
    password: Seq<char>,
    connect_timeout: u64,
)
    requires
        event matches FetchEvent::Response { www_authenticate, .. } && www_authenticate is None,
        is_step(
            FetchPhase::AwaitingChallenge,
            event,
            after,
            action,
            url,
            login,
            password,
            connect_timeout,
        ),
    ensures
        action matches FetchAction::Fail(FetchError::Protocol(cause)) && cause
            == ProtocolError::MissingChallengeHeader,
        after is HandshakeFailed,
        requests_sent(after) == 1,
{
}

/// A response to the second request with a status other than 200 ends the
/// fetch with that status.
pub proof fn law_refused_status_ends_fetch(
    event: FetchEvent,
    after: FetchPhase,
    action: FetchAction,
    url: Seq<char>,
    login: Seq<char>,
    password: Seq<char>,
    connect_timeout: u64,
)
    requires
        event matches FetchEvent::Response { status, .. } && status != STATUS_OK,
        is_step(
            FetchPhase::AwaitingFeed,
            event,
            after,
            action,
            url,
            login,
            password,
            connect_timeout,
        ),
    ensures
        action matches FetchAction::Fail(FetchError::Transport(TransportError::Status(code)))
            && event matches FetchEvent::Response { status, .. } && code == status,
        after is FeedFailed,
{
}

/// A step asks for a request only when the fetch awaits the challenge, and
/// then it is the second request; no other step asks for one, and a fetch
/// that has ended stays as it is.
pub proof fn law_requests_follow_phases(
    before: FetchPhase,
    event: FetchEvent,
    after: FetchPhase,
    action: FetchAction,
    url: Seq<char>,
    login: Seq<char>,
    password: Seq<char>,
    connect_timeout: u64,
)
    requires
        is_step(before, event, after, action, url, login, password, connect_timeout),
    ensures
        action is Send ==> before is AwaitingChallenge && after is AwaitingFeed,
        requests_sent(after) == requests_sent(before) + if action is Send {
            1nat
        } else {
            0nat
        },
        has_ended(before) ==> after == before,
        action is Finish || action is Fail <==> has_ended(after),
{
}

/// The number of requests that the actions ask for.
pub open spec fn sends(actions: Seq<FetchAction>) -> nat
    decreases actions.len(),
{
    if actions.len() == 0 {
        0
    } else {
        sends(actions.drop_last()) + if actions.last() is Send {
            1nat
        } else {
            0nat
        }
    }
}

/// Whether the phases, events and actions are a run of a fetch: each step
/// goes on rightly from the phase before it.
pub open spec fn is_run(
    phases: Seq<FetchPhase>,
    events: Seq<FetchEvent>,
    actions: Seq<FetchAction>,
    url: Seq<char>,
    login: Seq<char>,
    password: Seq<char>,
    connect_timeout: u64,
) -> bool {
    &&& phases.len() == events.len() + 1
    &&& actions.len() == events.len()
    &&& forall|i: int|
        0 <= i < events.len() ==> is_step(
            #[trigger] phases[i],
            events[i],
            phases[i + 1],
            actions[i],
            url,
            login,
            password,
            connect_timeout,
        )
}

/// Over any run, the requests that a fetch has asked for are those that its
/// phase tells.
pub proof fn law_run_counts_requests(
    phases: Seq<FetchPhase>,
    events: Seq<FetchEvent>,
    actions: Seq<FetchAction>,
    url: Seq<char>,
    login: Seq<char>,
    password: Seq<char>,
    connect_timeout: u64,
)
    requires
        is_run(phases, events, actions, url, login, password, connect_timeout),
    ensures
        requests_sent(phases.last()) == requests_sent(phases[0]) + sends(actions),
    decreases events.len(),
{
    if events.len() > 0 {
        let n = events.len() as int;
        let ps = phases.drop_last();
        let es = events.drop_last();
        let acts = actions.drop_last();
        assert forall|i: int| 0 <= i < es.len() implies is_step(
            #[trigger] ps[i],
            es[i],
            ps[i + 1],
            acts[i],
            url,
            login,
            password,
            connect_timeout,
        ) by {}
        law_run_counts_requests(ps, es, acts, url, login, password, connect_timeout);
        law_requests_follow_phases(
            phases[n - 1],
            events[n - 1],
            phases[n],
            actions[n - 1],
            url,
            login,
            password,
            connect_timeout,
        );
    }
}

/// A fetch asks for two requests at most: over any run that starts when the
/// first request is out, at most one more is asked for, and exactly one more
/// where the run ends with tasks.
pub proof fn law_two_requests_per_fetch(
    phases: Seq<FetchPhase>,
    events: Seq<FetchEvent>,
    actions: Seq<FetchAction>,
    url: Seq<char>,
    login: Seq<char>,
    password: Seq<char>,
    connect_timeout: u64,
)
    requires
        is_run(phases, events, actions, url, login, password, connect_timeout),
        phases[0] is AwaitingChallenge,
    ensures
        sends(actions) <= 1,
        phases.last() is Done ==> sends(actions) == 1,
{
    law_run_counts_requests(phases, events, actions, url, login, password, connect_timeout);
}

/// Where the response to the first request has no `WWW-Authenticate`
/// header, the run asks for no further request, whatever it is told
/// afterwards: exactly one request is sent.
pub proof fn law_no_second_request_without_challenge(
    phases: Seq<FetchPhase>,
    events: Seq<FetchEvent>,
    actions: Seq<FetchAction>,
    url: Seq<char>,
    login: Seq<char>,
    password: Seq<char>,
    connect_timeout: u64,
)
    requires
        is_run(phases, events, actions, url, login, password, connect_timeout),
        phases[0] is AwaitingChallenge,
        events.len() > 0,
        events[0] matches FetchEvent::Response { www_authenticate, .. } && www_authenticate
            is None,
    ensures
        sends(actions) == 0,
        requests_sent(phases.last()) == 1,
        actions[0] matches FetchAction::Fail(FetchError::Protocol(cause)) && cause
            == ProtocolError::MissingChallengeHeader,
    decreases events.len(),
{
    law_missing_header_ends_fetch(
        events[0],
        phases[1],
        actions[0],
        url,
        login,
        password,
        connect_timeout,
    );
    lemma_ended_run_stays(phases, events, actions, url, login, password, connect_timeout, 1);
    law_run_counts_requests(phases, events, actions, url, login, password, connect_timeout);
}

/// From the step at which a fetch has ended, a run stays in the phase in
/// which it ended.
pub proof fn lemma_ended_run_stays(
    phases: Seq<FetchPhase>,
    events: Seq<FetchEvent>,
    actions: Seq<FetchAction>,
    url: Seq<char>,
    login: Seq<char>,
    password: Seq<char>,
    connect_timeout: u64,
    from: int,
)
    requires
        is_run(phases, events, actions, url, login, password, connect_timeout),
        0 <= from < phases.len(),
        has_ended(phases[from]),
    ensures
        phases.last() == phases[from],
    decreases phases.len() - from,
{
    if from + 1 < phases.len() {
        lemma_ended_run_stays(
            phases,
            events,
            actions,
            url,
            login,
            password,
            connect_timeout,
            from + 1,
        );
    }
}

} // verus!
