use octabot_connectors::directives::{
    block_bounds, flatten_line_breaks, has_directive_markers, parse_block, parse_event_options,
    parse_line, parse_options, sentinel_chars, strip_markup, SENTINEL,
};
use octabot_connectors::options::Directives;
use octabot_connectors::error::DirectiveError;

const TAGS: &str = r"<[^>]*>";
const BLOCK: &str = r"(?:\[PLATFORM_BOT\])([\s\S]*)(?:\[PLATFORM_BOT\])";

fn cs(s: &str) -> Vec<char> {
    s.chars().collect()
}

fn text(v: Vec<char>) -> String {
    v.into_iter().collect()
}

fn pairs(d: &Directives) -> Vec<(String, String)> {
    (0..d.len()).map(|i| (d.key_at(i).clone(), d.value_at(i).clone())).collect()
}

fn pair(k: &str, v: &str) -> (String, String) {
    (k.to_string(), v.to_string())
}

#[test]
fn block_between_markers_yields_both_directives() {
    let body = "...[PLATFORM_BOT]\nproject: ABC\nowner: me\n[PLATFORM_BOT]...";
    let d = parse_event_options(body).unwrap();
    assert_eq!(pairs(&d), vec![pair("project", "ABC"), pair("owner", "me")]);
    assert_eq!(d.get("project").map(|v| v.as_str()), Some("ABC"));
    assert_eq!(d.get("owner").map(|v| v.as_str()), Some("me"));
    assert_eq!(d.get("missing"), None);
}

#[test]
fn keys_are_lowercased_and_values_kept_verbatim() {
    let d = parse_options("  PRoject :  AbC Def  \nOWNER: Me").unwrap();
    assert_eq!(pairs(&d), vec![pair("project", "AbC Def"), pair("owner", "Me")]);
    let d = parse_options("\u{c4}PFEL: \u{dc}ber").unwrap();
    assert_eq!(pairs(&d), vec![pair("\u{e4}pfel", "\u{dc}ber")]);
}

#[test]
fn single_marker_yields_no_directives_found() {
    let body = "text [PLATFORM_BOT]\nproject: ABC\n";
    assert!(matches!(parse_event_options(body), Err(DirectiveError::NoDirectivesFound)));
    assert!(matches!(parse_event_options(""), Err(DirectiveError::NoDirectivesFound)));
    assert!(matches!(parse_event_options("no marker"), Err(DirectiveError::NoDirectivesFound)));
    assert!(matches!(parse_event_options("[PLATFORM_BOT"), Err(DirectiveError::NoDirectivesFound)));
}

#[test]
fn line_without_separator_is_invalid() {
    match parse_options("project=ABC") {
        Err(DirectiveError::InvalidDirectiveLine(line)) => assert_eq!(line, "project=ABC"),
        other => panic!("unexpected: {:?}", other.map(|d| pairs(&d))),
    }
    let body = "[PLATFORM_BOT]\nproject: ABC\nowner=me\n[PLATFORM_BOT]";
    match parse_event_options(body) {
        Err(DirectiveError::InvalidDirectiveLine(line)) => assert_eq!(line, "owner=me"),
        other => panic!("unexpected: {:?}", other.map(|d| pairs(&d))),
    }
}

#[test]
fn line_with_two_separators_is_invalid() {
    match parse_options("a: b: c") {
        Err(DirectiveError::InvalidDirectiveLine(line)) => assert_eq!(line, "a: b: c"),
        other => panic!("unexpected: {:?}", other.map(|d| pairs(&d))),
    }
    match parse_options("project: ABC owner: me") {
        Err(DirectiveError::InvalidDirectiveLine(line)) => {
            assert_eq!(line, "project: ABC owner: me")
        },
        other => panic!("unexpected: {:?}", other.map(|d| pairs(&d))),
    }
}

#[test]
fn a_colon_without_space_is_no_separator() {
    let d = parse_options("url: http://host:80/x").unwrap();
    assert_eq!(pairs(&d), vec![pair("url", "http://host:80/x")]);
}

#[test]
fn empty_lines_are_passed_over() {
    let d = parse_options("\n\nproject: ABC\n\r\n\nowner: me\n\n").unwrap();
    assert_eq!(pairs(&d), vec![pair("project", "ABC"), pair("owner", "me")]);
    assert_eq!(parse_options("").unwrap().len(), 0);
    assert_eq!(parse_options("\n\n").unwrap().len(), 0);
}

#[test]
fn a_line_of_white_space_only_is_invalid() {
    match parse_options("project: ABC\n   \nowner: me") {
        Err(DirectiveError::InvalidDirectiveLine(line)) => assert_eq!(line, "   "),
        other => panic!("unexpected: {:?}", other.map(|d| pairs(&d))),
    }
}

#[test]
fn carriage_return_before_line_feed_ends_the_line() {
    let d = parse_options("project: ABC\r\nowner: me\r\n").unwrap();
    assert_eq!(pairs(&d), vec![pair("project", "ABC"), pair("owner", "me")]);
    match parse_options("bad\r\nowner: me") {
        Err(DirectiveError::InvalidDirectiveLine(line)) => assert_eq!(line, "bad"),
        other => panic!("unexpected: {:?}", other.map(|d| pairs(&d))),
    }
    match parse_options("owner: me\nbad\r") {
        Err(DirectiveError::InvalidDirectiveLine(line)) => assert_eq!(line, "bad\r"),
        other => panic!("unexpected: {:?}", other.map(|d| pairs(&d))),
    }
}

#[test]
fn lines_are_those_of_std() {
    for raw in ["a: 1\nb: 2", "a: 1\r\nb: 2\r\n", "\n\na: 1", "a: 1\n\n\nb: 2\n", "a: 1\r", "\r\n"] {
        let expected: Vec<(String, String)> = raw
            .lines()
            .filter(|l| !l.is_empty())
            .map(|l| {
                let parts: Vec<&str> = l.split(": ").collect();
                assert_eq!(parts.len(), 2);
                (parts[0].trim().to_lowercase(), parts[1].trim().to_string())
            })
            .collect();
        assert_eq!(pairs(&parse_options(raw).unwrap()), expected, "{:?}", raw);
    }
}

#[test]
fn every_mapping_says_that_its_keys_are_well_formed() {
    Directives::new().keys_are_well_formed();
    let d = parse_options("B: 1\na: 2\nb: 3").unwrap();
    d.keys_are_well_formed();
    let keys: Vec<&str> = (0..d.len()).map(|i| d.key_at(i).as_str()).collect();
    assert_eq!(keys, vec!["b", "a"]);
    assert!(keys.iter().all(|k| k.to_lowercase() == *k));
}

#[test]
fn later_directive_replaces_earlier_one_in_its_place() {
    let d = parse_options("project: A\nowner: me\nPROJECT: B").unwrap();
    assert_eq!(pairs(&d), vec![pair("project", "B"), pair("owner", "me")]);
}

#[test]
fn empty_key_and_empty_value_are_kept() {
    let d = parse_options(": ").unwrap();
    assert_eq!(pairs(&d), vec![pair("", "")]);
    let d = parse_options("key: ").unwrap();
    assert_eq!(pairs(&d), vec![pair("key", "")]);
}

#[test]
fn parse_line_splits_once() {
    assert_eq!(parse_line(&cs("Key: Value")), Some(pair("key", "Value")));
    assert_eq!(parse_line(&cs("Key:Value")), None);
    assert_eq!(parse_line(&cs("a: b: c")), None);
    assert_eq!(parse_line(&cs("")), None);
}

#[test]
fn parse_block_reads_characters() {
    let d = parse_block(&cs("project: ABC")).unwrap();
    assert_eq!(pairs(&d), vec![pair("project", "ABC")]);
}

#[test]
fn markup_is_stripped_before_the_block_is_taken() {
    let body = "<div>[PLATFORM_BOT]<br>\nproject: <b>ABC</b>\nowner: me\n<p>[PLATFORM_BOT]</p></div>";
    let d = parse_event_options(body).unwrap();
    assert_eq!(pairs(&d), vec![pair("project", "ABC"), pair("owner", "me")]);
}

#[test]
fn a_marker_inside_a_tag_does_not_count() {
    let body = "[PLATFORM_BOT]\nproject: ABC\n<[PLATFORM_BOT]>";
    assert!(has_directive_markers(body));
    assert!(matches!(parse_event_options(body), Err(DirectiveError::NoDirectivesFound)));
}

#[test]
fn a_marker_made_by_stripping_counts() {
    let body = "[PLATFORM_BOT]project: ABC[PLATFORM<i>_BOT]";
    assert!(!has_directive_markers(body));
    let d = parse_event_options(body).unwrap();
    assert_eq!(pairs(&d), vec![pair("project", "ABC")]);
}

#[test]
fn block_runs_from_first_to_last_marker() {
    let body = "[PLATFORM_BOT]\na: 1\n[PLATFORM_BOT]\nb: 2\n[PLATFORM_BOT] tail";
    match parse_event_options(body) {
        Err(DirectiveError::InvalidDirectiveLine(line)) => assert_eq!(line, "[PLATFORM_BOT]"),
        other => panic!("unexpected: {:?}", other.map(|d| pairs(&d))),
    }
    let body = "[PLATFORM_BOT][PLATFORM_BOT]";
    assert_eq!(parse_event_options(body).unwrap().len(), 0);
}

#[test]
fn markers_are_counted_in_the_body_as_it_came() {
    assert!(!has_directive_markers(""));
    assert!(!has_directive_markers("[PLATFORM_BOT]"));
    assert!(has_directive_markers("[PLATFORM_BOT][PLATFORM_BOT]"));
    assert!(has_directive_markers("a [PLATFORM_BOT] b [PLATFORM_BOT] c [PLATFORM_BOT]"));
    assert!(!has_directive_markers("[PLATFORM_BOT [PLATFORM_BOT]"));
}

#[test]
fn sentinel_literal_and_characters_agree() {
    assert_eq!(SENTINEL, "[PLATFORM_BOT]");
    assert_eq!(text(sentinel_chars()), SENTINEL);
}

#[test]
fn strip_markup_removes_tag_spans() {
    assert_eq!(text(strip_markup(&cs("a<b>c</b>d"))), "acd");
    assert_eq!(text(strip_markup(&cs("a < b"))), "a < b");
    assert_eq!(text(strip_markup(&cs("a<b<c>d"))), "ad");
    assert_eq!(text(strip_markup(&cs("<>"))), "");
    assert_eq!(text(strip_markup(&cs("x>y<z"))), "x>y<z");
    assert_eq!(text(strip_markup(&cs("<a\nb>c"))), "c");
}

#[test]
fn strip_markup_agrees_with_the_pattern() {
    let pattern = regex::Regex::new(TAGS).unwrap();
    for s in [
        "",
        "plain",
        "a<b>c</b>d",
        "<<>>",
        "a < b > c < d",
        "<a<b<c",
        ">a>b>c",
        "<p>[PLATFORM_BOT]</p>\nk: v\n<[PLATFORM_BOT]>",
        "x<y\nz>w<",
        "\u{e9}<\u{1F600}>\u{e9}",
    ] {
        assert_eq!(text(strip_markup(&cs(s))), pattern.replace_all(s, ""), "{:?}", s);
    }
}

#[test]
fn flatten_line_breaks_puts_spaces() {
    assert_eq!(text(flatten_line_breaks(&cs("a\r\nb\nc\rd"))), "a  b c d");
    for s in ["", "a\n", "\r\r\n", "no breaks"] {
        assert_eq!(text(flatten_line_breaks(&cs(s))), s.replace(['\n', '\r'], " "));
    }
}

#[test]
fn block_bounds_agree_with_the_pattern() {
    let pattern = regex::Regex::new(BLOCK).unwrap();
    for s in [
        "",
        "[PLATFORM_BOT]",
        "[PLATFORM_BOT][PLATFORM_BOT]",
        "a[PLATFORM_BOT]b\nc[PLATFORM_BOT]d",
        "[PLATFORM_BOT]x[PLATFORM_BOT]y[PLATFORM_BOT]z",
        "\u{e9}[PLATFORM_BOT]\u{1F600}\r\n[PLATFORM_BOT]",
        "[PLATFORM_BOT[PLATFORM_BOT]]",
        "[PLATFORM_BO[PLATFORM_BOT]T][PLATFORM_BOT]",
    ] {
        let flat = s.replace(['\n', '\r'], " ");
        let expected = pattern.captures(&flat).map(|c| {
            let m = c.get(1).unwrap();
            (flat[..m.start()].chars().count(), flat[..m.end()].chars().count())
        });
        assert_eq!(block_bounds(&cs(s)), expected, "{:?}", s);
    }
}
