use base64::prelude::{Engine, BASE64_STANDARD};
use octabot_connectors::error::{
    DecodeError, DirectiveError, EventError, FetchError, ProtocolError, TimeError, TransportError,
};
use octabot_connectors::fetch::{
    header_text, Config, FetchAction, FetchEvent, FetchPhase, FetchRequest, Fetcher,
    AUTHORIZATION, PREFER, PREFER_TEXT_BODY, PREFER_TIMEZONE,
};
use octabot_connectors::http::{DEFAULT_CONNECT_TIMEOUT, STATUS_OK};
use octabot_connectors::task::CalendarEvent;

const INSTANT: i64 = 1715985000; // 2024-05-17T22:30:00Z

const URL: &str = "https://mail.example.com/api/v2.0/me/calendarview?startDateTime=2024-05-18T00:00:00&endDateTime=2024-05-18T23:59:59&$select=Subject,Start,Location,Body,LastModifiedDateTime";

fn config() -> Config {
    Config {
        endpoint: "https://mail.example.com".to_string(),
        timeout: None,
        login: "alice@EXAMPLE".to_string(),
        password: "secret".to_string(),
        timezone: "Europe/Moscow".to_string(),
    }
}

fn challenge_header() -> Vec<u8> {
    let target_info: Vec<u8> = vec![2, 0, 4, 0, b'E', 0, b'X', 0, 0, 0, 0, 0];
    let name: Vec<u8> = vec![b'E', 0, b'X', 0];
    let mut m = Vec::new();
    m.extend_from_slice(b"NTLMSSP\0");
    m.extend_from_slice(&2u32.to_le_bytes());
    m.extend_from_slice(&[4, 0, 4, 0, 56, 0, 0, 0]);
    m.extend_from_slice(&0x0000_0205u32.to_le_bytes());
    m.extend_from_slice(&[1, 2, 3, 4, 5, 6, 7, 8]);
    m.extend_from_slice(&[0u8; 8]);
    m.extend_from_slice(&[12, 0, 12, 0, 60, 0, 0, 0]);
    m.extend_from_slice(&[0u8; 8]);
    m.extend_from_slice(&name);
    m.extend_from_slice(&target_info);
    format!("NTLM {}", BASE64_STANDARD.encode(m)).into_bytes()
}

fn response(status: u16, www_authenticate: Option<Vec<u8>>, body: &[u8]) -> FetchEvent {
    FetchEvent::Response { status, www_authenticate, body: body.to_vec() }
}

fn event(id: &str, subject: &str, body: &str, zone: &str) -> CalendarEvent {
    CalendarEvent {
        id: id.to_string(),
        subject: subject.to_string(),
        location: String::new(),
        start_date_time: "2024-05-18T10:00:00.0000000".to_string(),
        start_timezone: zone.to_string(),
        last_modified: "2024-05-16T08:00:00Z".to_string(),
        body_content: body.to_string(),
        body_content_type: "text".to_string(),
    }
}

const MARKED: &str = "[PLATFORM_BOT]\nproject: ABC\n[PLATFORM_BOT]";

fn begun() -> (Fetcher, FetchRequest) {
    Fetcher::begin_at(&config(), INSTANT).unwrap()
}

fn awaiting_feed() -> Fetcher {
    let (mut f, _) = begun();
    match f.step(response(401, Some(challenge_header()), b"")) {
        FetchAction::Send(_) => f,
        other => panic!("unexpected: {:?}", other),
    }
}

fn awaiting_events() -> Fetcher {
    let mut f = awaiting_feed();
    match f.step(response(200, None, b"{\"value\":[]}")) {
        FetchAction::DecodeFeed(_) => f,
        other => panic!("unexpected: {:?}", other),
    }
}

fn pair(k: &str, v: &str) -> (String, String) {
    (k.to_string(), v.to_string())
}

#[test]
fn constants_are_those_of_the_feed() {
    assert_eq!(AUTHORIZATION, "Authorization");
    assert_eq!(PREFER, "Prefer");
    assert_eq!(PREFER_TEXT_BODY, "outlook.body-content-type=\"text\"");
    assert_eq!(PREFER_TIMEZONE, "outlook.timezone=\"Europe/Moscow\"");
    assert_eq!(DEFAULT_CONNECT_TIMEOUT, 60);
    assert_eq!(STATUS_OK, 200);
}

#[test]
fn first_request_carries_the_negotiation_message() {
    let (f, request) = begun();
    assert_eq!(request.url, URL);
    assert_eq!(request.connect_timeout, 60);
    assert_eq!(
        request.headers,
        vec![pair(
            "Authorization",
            "NTLM TlRMTVNTUAABAAAABSIAAAAAAAAoAAAADgAOACgAAAAAAAAAAAAAAG8AYwB0AGEAYgBvAHQA"
        )]
    );
    assert!(matches!(f.current_phase(), FetchPhase::AwaitingChallenge));
    assert_eq!(f.requests_sent(), 1);
    assert!(!f.has_ended());
}

#[test]
fn configured_timeout_is_used() {
    let mut c = config();
    c.timeout = Some(5);
    let (mut f, request) = Fetcher::begin_at(&c, INSTANT).unwrap();
    assert_eq!(request.connect_timeout, 5);
    match f.step(response(401, Some(challenge_header()), b"")) {
        FetchAction::Send(second) => assert_eq!(second.connect_timeout, 5),
        other => panic!("unexpected: {:?}", other),
    }
}

#[test]
fn unknown_zone_of_the_configuration_is_refused() {
    let mut c = config();
    c.timezone = "Nowhere/Land".to_string();
    match Fetcher::begin_at(&c, INSTANT) {
        Err(FetchError::Time(TimeError::UnknownZone(name))) => assert_eq!(name, "Nowhere/Land"),
        other => panic!("unexpected: {:?}", other.map(|(_, r)| r)),
    }
    assert!(matches!(Fetcher::begin(&c), Err(FetchError::Time(TimeError::UnknownZone(_)))));
}

#[test]
fn fetch_of_today_asks_for_one_day() {
    let (f, request) = Fetcher::begin(&config()).unwrap();
    assert!(request.url.starts_with("https://mail.example.com/api/v2.0/me/calendarview?startDateTime="));
    assert!(request.url.contains("T00:00:00&endDateTime="));
    assert!(request.url.ends_with("T23:59:59&$select=Subject,Start,Location,Body,LastModifiedDateTime"));
    assert_eq!(f.requests_sent(), 1);
}

#[test]
fn second_request_carries_the_answer_and_the_preferences() {
    let (mut f, _) = begun();
    match f.step(response(401, Some(challenge_header()), b"ignored")) {
        FetchAction::Send(request) => {
            assert_eq!(request.url, URL);
            assert_eq!(request.connect_timeout, 60);
            assert_eq!(request.headers.len(), 3);
            assert_eq!(request.headers[0].0, "Authorization");
            assert!(request.headers[0].1.starts_with("NTLM "));
            let bytes = BASE64_STANDARD.decode(&request.headers[0].1[5..]).unwrap();
            match ntlmclient::Message::try_from(bytes.as_slice()).unwrap() {
                ntlmclient::Message::Authenticate(m) => {
                    assert_eq!(m.user_name, "alice");
                    assert_eq!(m.domain_name, "EXAMPLE");
                    assert_eq!(m.workstation_name, "octabot");
                },
                other => panic!("unexpected message: {:?}", other),
            }
            assert_eq!(request.headers[1], pair("Prefer", "outlook.body-content-type=\"text\""));
            assert_eq!(request.headers[2], pair("Prefer", "outlook.timezone=\"Europe/Moscow\""));
        },
        other => panic!("unexpected: {:?}", other),
    }
    assert!(matches!(f.current_phase(), FetchPhase::AwaitingFeed));
    assert_eq!(f.requests_sent(), 2);
}

#[test]
fn status_of_the_first_response_is_not_looked_at() {
    for status in [200, 401, 403, 500] {
        let (mut f, _) = begun();
        assert!(matches!(
            f.step(response(status, Some(challenge_header()), b"")),
            FetchAction::Send(_)
        ));
    }
}

#[test]
fn missing_challenge_header_ends_the_fetch_after_one_request() {
    let (mut f, _) = begun();
    let action = f.step(response(401, None, b""));
    assert!(matches!(
        action,
        FetchAction::Fail(FetchError::Protocol(ProtocolError::MissingChallengeHeader))
    ));
    assert!(matches!(f.current_phase(), FetchPhase::HandshakeFailed));
    assert!(f.has_ended());
    assert_eq!(f.requests_sent(), 1);
    for later in [
        response(401, Some(challenge_header()), b""),
        response(200, None, b"{}"),
        FetchEvent::FeedDecoded(vec![]),
        FetchEvent::ConnectionFailed("late".to_string()),
    ] {
        assert!(matches!(f.step(later), FetchAction::Fail(FetchError::AlreadyFinished)));
        assert!(matches!(f.current_phase(), FetchPhase::HandshakeFailed));
        assert_eq!(f.requests_sent(), 1);
    }
}

#[test]
fn challenge_header_that_is_no_text_is_refused() {
    let (mut f, _) = begun();
    let action = f.step(response(401, Some(vec![b'N', b'T', 0xff, 0x00]), b""));
    assert!(matches!(
        action,
        FetchAction::Fail(FetchError::Protocol(ProtocolError::ChallengeHeaderNotText))
    ));
    assert_eq!(f.requests_sent(), 1);
}

#[test]
fn header_text_is_visible_ascii() {
    assert_eq!(header_text(b"NTLM abc=").as_deref(), Some("NTLM abc="));
    assert_eq!(header_text(b"").as_deref(), Some(""));
    assert_eq!(header_text(b"a\tb ~").as_deref(), Some("a\tb ~"));
    assert_eq!(header_text(&[0x7f]), None);
    assert_eq!(header_text(&[0x1f]), None);
    assert_eq!(header_text(b"a\nb"), None);
    assert_eq!(header_text("\u{e9}".as_bytes()), None);
    for b in 0..=255u8 {
        let visible = (32..127).contains(&b) || b == b'\t';
        assert_eq!(header_text(&[b]).is_some(), visible, "{}", b);
    }
}

#[test]
fn broken_challenge_ends_the_fetch() {
    for (header, expected) in [
        (&b"NTLM"[..], "token"),
        (&b"NTLM ***"[..], "encoding"),
        (&b"NTLM AAAA"[..], "message"),
    ] {
        let (mut f, _) = begun();
        let action = f.step(response(401, Some(header.to_vec()), b""));
        match (expected, action) {
            ("token", FetchAction::Fail(FetchError::Protocol(ProtocolError::MissingChallengeToken))) => {},
            ("encoding", FetchAction::Fail(FetchError::Protocol(ProtocolError::InvalidChallengeEncoding))) => {},
            ("message", FetchAction::Fail(FetchError::Protocol(ProtocolError::MalformedMessage))) => {},
            (_, other) => panic!("unexpected for {}: {:?}", expected, other),
        }
        assert_eq!(f.requests_sent(), 1);
        assert!(f.has_ended());
    }
}

#[test]
fn login_without_at_sign_ends_the_fetch_after_the_challenge() {
    let mut c = config();
    c.login = "alice".to_string();
    let (mut f, _) = Fetcher::begin_at(&c, INSTANT).unwrap();
    match f.step(response(401, Some(challenge_header()), b"")) {
        FetchAction::Fail(FetchError::Credentials(e)) => assert_eq!(e.login, "alice"),
        other => panic!("unexpected: {:?}", other),
    }
    assert_eq!(f.requests_sent(), 1);
}

#[test]
fn connection_failure_ends_the_fetch_at_once() {
    let (mut f, _) = begun();
    match f.step(FetchEvent::ConnectionFailed("refused".to_string())) {
        FetchAction::Fail(FetchError::Transport(TransportError::ConnectionFailed(why))) => {
            assert_eq!(why, "refused")
        },
        other => panic!("unexpected: {:?}", other),
    }
    assert!(matches!(f.current_phase(), FetchPhase::HandshakeFailed));
    assert_eq!(f.requests_sent(), 1);

    let mut f = awaiting_feed();
    match f.step(FetchEvent::ConnectionFailed("reset".to_string())) {
        FetchAction::Fail(FetchError::Transport(TransportError::ConnectionFailed(why))) => {
            assert_eq!(why, "reset")
        },
        other => panic!("unexpected: {:?}", other),
    }
    assert!(matches!(f.current_phase(), FetchPhase::FeedFailed));
    assert_eq!(f.requests_sent(), 2);
}

#[test]
fn status_403_on_the_second_request_is_a_transport_error() {
    let mut f = awaiting_feed();
    assert!(matches!(
        f.step(response(403, None, b"Forbidden")),
        FetchAction::Fail(FetchError::Transport(TransportError::Status(403)))
    ));
    assert!(matches!(f.current_phase(), FetchPhase::FeedFailed));
    assert_eq!(f.requests_sent(), 2);
}

#[test]
fn every_status_but_200_is_a_transport_error() {
    for status in [0u16, 199, 201, 204, 301, 401, 404, 500, 65535] {
        let mut f = awaiting_feed();
        match f.step(response(status, None, b"{\"value\":[]}")) {
            FetchAction::Fail(FetchError::Transport(TransportError::Status(code))) => {
                assert_eq!(code, status)
            },
            other => panic!("unexpected: {:?}", other),
        }
    }
}

#[test]
fn body_that_is_no_text_is_a_decode_error() {
    let mut f = awaiting_feed();
    assert!(matches!(
        f.step(response(200, None, &[b'{', 0xff, 0xfe, b'}'])),
        FetchAction::Fail(FetchError::Decode(DecodeError::NotText))
    ));
    assert!(matches!(f.current_phase(), FetchPhase::FeedFailed));
}

#[test]
fn text_of_the_body_is_handed_out() {
    let mut f = awaiting_feed();
    let body = "{\"value\":[{\"Subject\":\"\u{e9}t\u{e9} \u{1F600}\"}]}";
    match f.step(response(200, None, body.as_bytes())) {
        FetchAction::DecodeFeed(text) => assert_eq!(text, body),
        other => panic!("unexpected: {:?}", other),
    }
    assert!(matches!(f.current_phase(), FetchPhase::AwaitingEvents));
    assert_eq!(f.requests_sent(), 2);
}

#[test]
fn text_that_is_no_feed_is_a_decode_error() {
    let mut f = awaiting_events();
    match f.step(FetchEvent::FeedMalformed("expected value at line 1".to_string())) {
        FetchAction::Fail(FetchError::Decode(DecodeError::MalformedResponse(why))) => {
            assert_eq!(why, "expected value at line 1")
        },
        other => panic!("unexpected: {:?}", other),
    }
    assert!(matches!(f.current_phase(), FetchPhase::FeedFailed));
}

#[test]
fn events_become_the_tasks_of_the_fetch() {
    let mut f = awaiting_events();
    let events = vec![
        event("1", "Marked", MARKED, "Europe/Moscow"),
        event("2", "Plain", "nothing to see", "Europe/Moscow"),
    ];
    match f.step(FetchEvent::FeedDecoded(events)) {
        FetchAction::Finish(tasks) => {
            assert_eq!(tasks.len(), 1);
            assert_eq!(tasks[0].name, "Marked");
            assert_eq!(tasks[0].kind, "notify");
            assert_eq!(tasks[0].project_code, "ABC");
            assert_eq!(tasks[0].start_at, 1716015600);
        },
        other => panic!("unexpected: {:?}", other),
    }
    assert!(matches!(f.current_phase(), FetchPhase::Done));
    assert!(f.has_ended());
    assert_eq!(f.requests_sent(), 2);
    assert!(matches!(
        f.step(FetchEvent::FeedDecoded(vec![])),
        FetchAction::Fail(FetchError::AlreadyFinished)
    ));
}

#[test]
fn failing_event_ends_the_fetch_without_tasks() {
    let mut f = awaiting_events();
    let events = vec![
        event("1", "Good", MARKED, "Europe/Moscow"),
        event("2", "Bad zone", MARKED, "Not/AZone"),
        event("3", "Later", MARKED, "Europe/Moscow"),
    ];
    match f.step(FetchEvent::FeedDecoded(events)) {
        FetchAction::Fail(FetchError::Event(e)) => {
            assert_eq!(e.subject, "Bad zone");
            assert!(matches!(e.cause, EventError::Time(TimeError::UnknownZone(_))));
        },
        other => panic!("unexpected: {:?}", other),
    }
    assert!(matches!(f.current_phase(), FetchPhase::FeedFailed));

    let mut f = awaiting_events();
    let events = vec![event("1", "No project", "[PLATFORM_BOT]\nowner: me\n[PLATFORM_BOT]", "UTC")];
    match f.step(FetchEvent::FeedDecoded(events)) {
        FetchAction::Fail(FetchError::Event(e)) => {
            assert_eq!(e.subject, "No project");
            assert!(matches!(e.cause, EventError::Directive(DirectiveError::MissingProjectCode)));
        },
        other => panic!("unexpected: {:?}", other),
    }
}

#[test]
fn what_does_not_answer_the_last_request_ends_the_fetch() {
    let (mut f, _) = begun();
    assert!(matches!(
        f.step(FetchEvent::FeedDecoded(vec![])),
        FetchAction::Fail(FetchError::UnexpectedEvent)
    ));
    assert!(matches!(f.current_phase(), FetchPhase::HandshakeFailed));
    assert_eq!(f.requests_sent(), 1);

    let mut f = awaiting_feed();
    assert!(matches!(
        f.step(FetchEvent::FeedMalformed("x".to_string())),
        FetchAction::Fail(FetchError::UnexpectedEvent)
    ));
    assert!(matches!(f.current_phase(), FetchPhase::FeedFailed));

    let mut f = awaiting_events();
    assert!(matches!(
        f.step(response(200, None, b"{}")),
        FetchAction::Fail(FetchError::UnexpectedEvent)
    ));
    assert!(matches!(f.current_phase(), FetchPhase::FeedFailed));
    assert_eq!(f.requests_sent(), 2);
}
