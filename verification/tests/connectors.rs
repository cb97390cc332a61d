use base64::prelude::{Engine, BASE64_STANDARD};
use octabot_connectors::gerrit::{
    answer_json, changes_query, review_variables, reviews_message, AnswerError, Review,
    CHANGES_PATH, RESPONSE_PREFIX,
};
use octabot_connectors::http::{
    basic_authorization, connect_timeout, notification_payload, request_url, response_text,
    status_message, ResponseError,
};
use octabot_connectors::teamcity::{
    build_key, build_message, build_path, build_variables, should_notify, StoredMark, MARK_KEY,
};
use octabot_connectors::text::{integer_string, natural_string, same_text};
use octabot_connectors::zulip::{
    check_posted, message_query, rate_limit_message, requests_per_minute, MESSAGES_PATH,
};
use std::collections::HashMap;

fn pair(k: &str, v: &str) -> (String, String) {
    (k.to_string(), v.to_string())
}

fn review(subject: &str, insertions: i32, deletions: i32, number: i32) -> Review {
    Review { subject: subject.to_string(), insertions, deletions, number }
}

#[test]
fn connect_timeout_defaults_to_a_minute() {
    assert_eq!(connect_timeout(None), 60);
    assert_eq!(connect_timeout(Some(0)), 0);
    assert_eq!(connect_timeout(Some(5)), 5);
    assert_eq!(connect_timeout(Some(u64::MAX)), u64::MAX);
}

#[test]
fn response_with_status_200_brings_its_text() {
    assert_eq!(response_text(200, b"hello".to_vec()).unwrap(), "hello");
    assert_eq!(response_text(200, "\u{e9}\u{1F600}".as_bytes().to_vec()).unwrap(), "\u{e9}\u{1F600}");
    assert_eq!(response_text(200, Vec::new()).unwrap(), "");
}

#[test]
fn response_with_another_status_brings_none() {
    assert!(matches!(response_text(403, b"no".to_vec()), Err(ResponseError::Status(403))));
    assert!(matches!(response_text(201, b"ok".to_vec()), Err(ResponseError::Status(201))));
    assert!(matches!(response_text(500, vec![0xff]), Err(ResponseError::Status(500))));
}

#[test]
fn response_that_is_no_utf8_brings_none() {
    assert!(matches!(response_text(200, vec![0xff, 0xfe]), Err(ResponseError::NotText)));
    assert!(matches!(response_text(200, vec![0xc3]), Err(ResponseError::NotText)));
    assert!(matches!(response_text(200, vec![0xed, 0xa0, 0x80]), Err(ResponseError::NotText)));
}

#[test]
fn status_is_told_with_its_number() {
    assert_eq!(status_message(403), "HTTP/403");
    assert_eq!(status_message(0), "HTTP/0");
    assert_eq!(status_message(65535), "HTTP/65535");
    for code in [1u16, 9, 10, 99, 100, 404, 500, 1000] {
        assert_eq!(status_message(code), format!("HTTP/{}", code));
    }
}

#[test]
fn numbers_are_written_in_decimal() {
    for n in [0i64, 1, -1, 9, 10, -10, 12345, -12345, i32::MAX as i64, i32::MIN as i64, i64::MAX, i64::MIN] {
        assert_eq!(integer_string(n), n.to_string());
    }
    for n in [0u64, 7, 10, 99, 100, 1234567890, u64::MAX] {
        assert_eq!(natural_string(n), n.to_string());
    }
}

#[test]
fn texts_are_compared_by_their_characters() {
    assert!(same_text("", ""));
    assert!(same_text("finished", "finished"));
    assert!(!same_text("finished", "Finished"));
    assert!(!same_text("finished", "finishe"));
    assert!(!same_text("a", ""));
    assert!(same_text("\u{e9}\u{1F600}", "\u{e9}\u{1F600}"));
}

#[test]
fn basic_authorization_encodes_name_and_password() {
    assert_eq!(basic_authorization("Aladdin", "open sesame"), "Basic QWxhZGRpbjpvcGVuIHNlc2FtZQ==");
    assert_eq!(basic_authorization("", ""), "Basic Og==");
    for (login, password) in [("bot", "s3cret"), ("\u{e9}mile", "p\u{e4}ss:word"), ("a:b", "c")] {
        let expected = format!("Basic {}", BASE64_STANDARD.encode(format!("{}:{}", login, password)));
        assert_eq!(basic_authorization(login, password), expected);
    }
}

#[test]
fn request_url_is_the_normal_form_of_endpoint_and_path() {
    assert_eq!(request_url("https://example.com", "a/changes").unwrap(), "https://example.com/a/changes");
    assert_eq!(request_url("HTTPS://Example.COM:443/base", "x y").unwrap(), "https://example.com/base/x%20y");
    for (endpoint, path) in [
        ("http://ci.example.com:8111/app/rest", "builds/buildType:Project_Build"),
        ("https://chat.example.com", "api/v1/messages"),
        ("https://example.com/", "a/changes"),
    ] {
        let expected = url::Url::parse(&format!("{}/{}", endpoint, path)).unwrap();
        assert_eq!(request_url(endpoint, path).unwrap(), expected.as_str());
    }
}

#[test]
fn endpoint_that_is_no_address_gives_no_url() {
    assert_eq!(request_url("", "a/changes"), None);
    assert_eq!(request_url("not an address", "x"), None);
    assert_eq!(request_url("example.com", "x"), None);
}

#[test]
fn payload_has_its_keys_in_the_order_of_the_alphabet() {
    assert_eq!(
        notification_payload("task-1", "builds", "nightly", "Build \"A\" failed\n").unwrap(),
        r#"{"options":{"channel":"builds","message":"Build \"A\" failed\n","topic":"nightly"},"task_id":"task-1"}"#
    );
}

#[test]
fn payload_is_what_serde_json_writes() {
    for (id, channel, topic, message) in [
        ("t", "c", "tp", "m"),
        ("", "", "", ""),
        ("id \u{e9}", "ch\\an", "to\"pic", "line1\nline2\t\u{1}"),
    ] {
        let mut options = serde_json::Map::new();
        options.insert("channel".to_string(), serde_json::Value::String(channel.to_string()));
        options.insert("topic".to_string(), serde_json::Value::String(topic.to_string()));
        options.insert("message".to_string(), serde_json::Value::String(message.to_string()));
        let mut root = serde_json::Map::new();
        root.insert("task_id".to_string(), serde_json::Value::String(id.to_string()));
        root.insert("options".to_string(), serde_json::Value::Object(options));
        let expected = serde_json::Value::Object(root).to_string();
        assert_eq!(notification_payload(id, channel, topic, message).unwrap(), expected);
    }
}

#[test]
fn changes_query_names_the_project() {
    assert_eq!(changes_query("status:open", "platform"), "status:open project:platform");
    assert_eq!(changes_query("", ""), " project:");
    assert_eq!(CHANGES_PATH, "a/changes");
}

#[test]
fn answer_without_its_prefix_is_json() {
    assert_eq!(RESPONSE_PREFIX, ")]}'");
    assert_eq!(answer_json(")]}'\n[]").unwrap(), "\n[]");
    assert_eq!(answer_json(")]}'").unwrap(), "");
    assert_eq!(answer_json(")]}')]}'x").unwrap(), ")]}'x");
}

#[test]
fn unauthorized_answer_is_told_apart() {
    assert!(matches!(answer_json("Unauthorized"), Err(AnswerError::Unauthorized)));
    assert!(matches!(answer_json("Unauthorized\n"), Err(AnswerError::MissingPrefix)));
    assert!(matches!(answer_json("unauthorized"), Err(AnswerError::MissingPrefix)));
}

#[test]
fn answer_that_lacks_the_prefix_is_refused() {
    assert!(matches!(answer_json("[]"), Err(AnswerError::MissingPrefix)));
    assert!(matches!(answer_json(""), Err(AnswerError::MissingPrefix)));
    assert!(matches!(answer_json(")]}"), Err(AnswerError::MissingPrefix)));
    assert!(matches!(answer_json(" )]}'[]"), Err(AnswerError::MissingPrefix)));
}

#[test]
fn review_has_six_variables() {
    let v = review_variables(&review("Fix bug", 12, -3, 4711), "https://gerrit.example.com", "platform");
    assert_eq!(
        v,
        vec![
            pair("subject", "Fix bug"),
            pair("insertions", "12"),
            pair("deletions", "-3"),
            pair("url", "https://gerrit.example.com"),
            pair("number", "4711"),
            pair("project", "platform"),
        ]
    );
}

#[test]
fn no_reviews_give_no_message() {
    assert_eq!(reviews_message("Reviews for {project}:\n", "{subject}\n", "e", "p", &Vec::new()), Ok(None));
    assert_eq!(reviews_message("{broken", "{broken", "e", "p", &Vec::new()), Ok(None));
}

#[test]
fn message_is_heading_and_one_line_for_each_review() {
    let reviews = vec![review("First", 1, 2, 10), review("Second", 30, 0, 11)];
    let message = reviews_message(
        "Open reviews in {project}:\n",
        "- {subject} (+{insertions}/-{deletions}) {url}/c/{project}/+/{number}\n",
        "https://gerrit.example.com",
        "platform",
        &reviews,
    )
    .unwrap()
    .unwrap();
    assert_eq!(
        message,
        "Open reviews in platform:\n\
         - First (+1/-2) https://gerrit.example.com/c/platform/+/10\n\
         - Second (+30/-0) https://gerrit.example.com/c/platform/+/11\n"
    );
}

#[test]
fn message_is_what_the_templates_render_to() {
    let reviews = vec![review("A {braced} subject", -1, i32::MIN, i32::MAX)];
    let template = "{{literal}} {project:>10}|";
    let review_template = "{subject:^30}|{number}|{insertions:<6}|";
    let mut expected = strfmt::strfmt(template, &HashMap::from([pair("project", "p")])).unwrap();
    let vars: HashMap<String, String> =
        review_variables(&reviews[0], "e", "p").into_iter().collect();
    expected.push_str(&strfmt::strfmt(review_template, &vars).unwrap());
    assert_eq!(reviews_message(template, review_template, "e", "p", &reviews).unwrap().unwrap(), expected);
    assert!(expected.starts_with("{literal}          p|"));
}

#[test]
fn template_that_cannot_be_filled_is_refused() {
    let reviews = vec![review("s", 0, 0, 1)];
    assert!(reviews_message("{unknown}", "{subject}", "e", "p", &reviews).is_err());
    assert!(reviews_message("{project}", "{unknown}", "e", "p", &reviews).is_err());
    assert!(reviews_message("{project", "{subject}", "e", "p", &reviews).is_err());
    assert!(reviews_message("ok", "}", "e", "p", &reviews).is_err());
    let why = reviews_message("{nope}", "{subject}", "e", "p", &reviews).unwrap_err();
    let expected = strfmt::strfmt("{nope}", &HashMap::from([pair("project", "p")])).unwrap_err();
    assert_eq!(why, expected.to_string());
}

#[test]
fn build_is_asked_for_by_its_type() {
    assert_eq!(build_path("Project_Build"), "builds/buildType:Project_Build");
    assert_eq!(build_path(""), "builds/buildType:");
    assert_eq!(build_key(0), "0");
    assert_eq!(build_key(123456789012), "123456789012");
    assert_eq!(MARK_KEY, "key");
}

#[test]
fn failed_finished_build_without_mark_is_told() {
    assert!(should_notify(StoredMark::Absent, "finished", "FAILURE"));
}

#[test]
fn any_other_build_is_not_told() {
    assert!(!should_notify(StoredMark::Present, "finished", "FAILURE"));
    assert!(!should_notify(StoredMark::Unreadable, "finished", "FAILURE"));
    assert!(!should_notify(StoredMark::Absent, "running", "FAILURE"));
    assert!(!should_notify(StoredMark::Absent, "finished", "SUCCESS"));
    assert!(!should_notify(StoredMark::Absent, "Finished", "FAILURE"));
    assert!(!should_notify(StoredMark::Absent, "finished", "failure"));
    assert!(!should_notify(StoredMark::Absent, "", ""));
}

#[test]
fn build_has_four_variables() {
    assert_eq!(
        build_variables("Build", "Project", "Tests failed: 3", "https://ci/b/1"),
        vec![
            pair("name", "Build"),
            pair("project_name", "Project"),
            pair("status", "Tests failed: 3"),
            pair("web_url", "https://ci/b/1"),
        ]
    );
}

#[test]
fn build_message_is_the_filled_template() {
    assert_eq!(
        build_message("{project_name} / {name}: {status} <{web_url}>", "Build", "Project", "Tests failed: 3", "https://ci/b/1"),
        Ok("Project / Build: Tests failed: 3 <https://ci/b/1>".to_string())
    );
    assert!(build_message("{missing}", "n", "p", "s", "w").is_err());
}

#[test]
fn limiter_allows_one_request_a_minute_at_least() {
    assert_eq!(requests_per_minute(0), 1);
    assert_eq!(requests_per_minute(1), 1);
    assert_eq!(requests_per_minute(30), 30);
    assert_eq!(requests_per_minute(u32::MAX), u32::MAX);
    for n in [0u32, 1, 2, 1000] {
        assert_eq!(requests_per_minute(n), n.max(1));
    }
}

#[test]
fn post_has_four_parameters() {
    assert_eq!(MESSAGES_PATH, "api/v1/messages");
    assert_eq!(
        message_query("builds", "nightly", "It failed"),
        vec![pair("type", "stream"), pair("to", "builds"), pair("topic", "nightly"), pair("content", "It failed")]
    );
}

#[test]
fn post_is_taken_when_the_result_is_success() {
    assert_eq!(check_posted("success", "".to_string()), Ok(()));
    assert_eq!(check_posted("error", "Invalid stream".to_string()), Err("Invalid stream".to_string()));
    assert_eq!(check_posted("Success", "m".to_string()), Err("m".to_string()));
    assert_eq!(check_posted("", "m".to_string()), Err("m".to_string()));
}

#[test]
fn reached_limit_says_how_long_to_wait() {
    assert_eq!(rate_limit_message(0), "Rate limit exceeded. Try again in 0 seconds");
    assert_eq!(rate_limit_message(59), "Rate limit exceeded. Try again in 59 seconds");
    assert_eq!(rate_limit_message(u64::MAX), format!("Rate limit exceeded. Try again in {} seconds", u64::MAX));
}
