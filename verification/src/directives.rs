//! Directives embedded in the free-form body of a calendar event.
//!
//! A directive block is the text between the first and the last occurrence of
//! the sentinel marker. Each of its non-empty lines reads `key: value`.

use crate::error::{DirectiveError, DirectiveErrorView};
use crate::options::{
    keys_lowercased, keys_unique, lowercase, lowercase_of, upsert, Directives, Entry,
};
use crate::text::{
    chars_of, find, find_from, find_last, lemma_find, lemma_rfind, occurs_at, rfind, string_of,
    trim, trim_bounds,
};
use vstd::prelude::*;
use vstd::slice::slice_subrange;

verus! {

/// The marker that opens and closes a directive block.
pub const SENTINEL: &'static str = "[PLATFORM_BOT]";

/// The characters of the sentinel marker.
pub open spec fn sentinel() -> Seq<char> {
    seq!['[', 'P', 'L', 'A', 'T', 'F', 'O', 'R', 'M', '_', 'B', 'O', 'T', ']']
}

/// What parts a directive's key from its value: a colon and a space.
pub open spec fn separator() -> Seq<char> {
    seq![':', ' ']
}

/// The character that ends a markup tag.
pub open spec fn tag_close() -> Seq<char> {
    seq!['>']
}

/// The line feed, which ends a line.
pub open spec fn line_feed() -> Seq<char> {
    seq!['\n']
}

/// The text of `s` from position `i` on, without its markup tags. A tag runs
/// from a `<` to the next `>`; a `<` that no `>` follows is ordinary text.
pub open spec fn strip_tags_from(s: Seq<char>, i: int) -> Seq<char>
    decreases s.len() - i,
{
    if i < 0 || i >= s.len() {
        Seq::empty()
    } else if s[i] == '<' {
        match find(s, tag_close(), i + 1) {
            Some(close) => if i < close < s.len() {
                strip_tags_from(s, close + 1)
            } else {
                Seq::empty()
            },
            None => seq![s[i]] + strip_tags_from(s, i + 1),
        }
    } else {
        seq![s[i]] + strip_tags_from(s, i + 1)
    }
}

/// `s` without its markup tags.
pub open spec fn strip_tags(s: Seq<char>) -> Seq<char> {
    strip_tags_from(s, 0)
}

/// A space in place of a line feed or a carriage return, any other character
/// as it is.
pub open spec fn unbroken(c: char) -> char {
    if c == '\n' || c == '\r' {
        ' '
    } else {
        c
    }
}

/// `s` with a space in place of each line feed and each carriage return.
pub open spec fn normalize_line_breaks(s: Seq<char>) -> Seq<char> {
    Seq::new(s.len(), |i: int| unbroken(s[i]))
}

/// Whether the sentinel marker stands in `s` at two places or more.
pub open spec fn has_two_markers(s: Seq<char>) -> bool {
    exists|i: int, j: int| i < j && occurs_at(s, sentinel(), i) && occurs_at(s, sentinel(), j)
}

/// The directive block of a text whose tags are stripped: what stands between
/// the first and the last marker. The markers are looked for in the text with
/// its line breaks normalized; the block keeps the line breaks.
pub open spec fn directive_block(stripped: Seq<char>) -> Option<Seq<char>> {
    let flat = normalize_line_breaks(stripped);
    match (find(flat, sentinel(), 0), rfind(flat, sentinel(), flat.len() as int)) {
        (Some(first), Some(last)) => if first + sentinel().len() <= last {
            Some(stripped.subrange(first + sentinel().len(), last))
        } else {
            None
        },
        _ => None,
    }
}

/// The characters of the sentinel marker.
pub fn sentinel_chars() -> (v: Vec<char>)
    ensures
        v@ == sentinel(),
{
    vec!['[', 'P', 'L', 'A', 'T', 'F', 'O', 'R', 'M', '_', 'B', 'O', 'T', ']']
}

/// Removes every markup tag from `s`.
pub fn strip_markup(s: &[char]) -> (out: Vec<char>)
    ensures
        out@ == strip_tags(s@),
{
    let close = vec!['>'];
    let mut out: Vec<char> = Vec::new();
    let mut i: usize = 0;
    // Once a search for `>` has failed, no later one can succeed.
    let mut closed_out: bool = false;
    while i < s.len()
        invariant
            i <= s@.len(),
            close@ == tag_close(),
            out@ + strip_tags_from(s@, i as int) == strip_tags(s@),
            closed_out ==> find(s@, tag_close(), i as int) is None,
        decreases s.len() - i,
    {
        if s[i] == '<' && !closed_out {
            match find_from(s, close.as_slice(), i + 1) {
                Some(at) => {
                    proof {
                        lemma_find(s@, tag_close(), i + 1);
                    }
                    i = at + 1;
                },
                None => {
                    out.push(s[i]);
                    closed_out = true;
                    i += 1;
                },
            }
        } else {
            proof {
                if closed_out {
                    lemma_find(s@, tag_close(), i as int);
                    lemma_find(s@, tag_close(), i + 1);
                }
            }
            out.push(s[i]);
            i += 1;
        }
    }
    out
}

/// Puts a space in place of each line feed and each carriage return.
pub fn flatten_line_breaks(s: &[char]) -> (out: Vec<char>)
    ensures
        out@ == normalize_line_breaks(s@),
{
    let mut out: Vec<char> = Vec::new();
    let mut i: usize = 0;
    while i < s.len()
        invariant
            i <= s@.len(),
            out@.len() == i,
            forall|k: int| 0 <= k < i ==> out@[k] == unbroken(s@[k]),
        decreases s.len() - i,
    {
        let c = s[i];
        if c == '\n' || c == '\r' {
            out.push(' ');
        } else {
            out.push(c);
        }
        i += 1;
    }
    out
}

/// A line without the carriage return that it may end with.
pub open spec fn strip_cr(line: Seq<char>) -> Seq<char> {
    if line.len() > 0 && line.last() == '\r' {
        line.drop_last()
    } else {
        line
    }
}

/// The lines of `s` from position `i` on. A line ends with a line feed, or
/// with a carriage return and a line feed; the last line may end with the
/// text. The line ends are not part of the lines.
pub open spec fn lines_from(s: Seq<char>, i: int) -> Seq<Seq<char>>
    decreases s.len() - i,
{
    if i < 0 || i >= s.len() {
        Seq::empty()
    } else {
        match find(s, line_feed(), i) {
            Some(end) => if i <= end < s.len() {
                seq![strip_cr(s.subrange(i, end))] + lines_from(s, end + 1)
            } else {
                Seq::empty()
            },
            None => seq![s.subrange(i, s.len() as int)],
        }
    }
}

/// The lines of `s`.
pub open spec fn lines(s: Seq<char>) -> Seq<Seq<char>> {
    lines_from(s, 0)
}

/// The two parts of a line that holds the separator exactly once: what
/// stands before it and what stands after it.
pub open spec fn split_directive(line: Seq<char>) -> Option<Entry> {
    match find(line, separator(), 0) {
        Some(at) => if find(line, separator(), at + separator().len()) is Some {
            None
        } else {
            Some((line.subrange(0, at), line.subrange(at + separator().len(), line.len() as int)))
        },
        None => None,
    }
}

/// The directive that a line states: the key trimmed and in lower case, the
/// value trimmed.
pub open spec fn directive_of(line: Seq<char>) -> Option<Entry> {
    match split_directive(line) {
        Some((key, value)) => Some((lowercase_of(trim(key)), trim(value))),
        None => None,
    }
}

/// The directives that the lines state, added to `acc` in order, or the
/// first non-empty line that states none.
pub open spec fn parse_lines(ls: Seq<Seq<char>>, acc: Seq<Entry>) -> Result<Seq<Entry>, Seq<char>>
    decreases ls.len(),
{
    if ls.len() == 0 {
        Ok(acc)
    } else if ls[0].len() == 0 {
        parse_lines(ls.drop_first(), acc)
    } else {
        match directive_of(ls[0]) {
            Some((key, value)) => parse_lines(ls.drop_first(), upsert(acc, key, value)),
            None => Err(ls[0]),
        }
    }
}

/// The directives that the text of a block states.
pub open spec fn parse_options_spec(raw: Seq<char>) -> Result<Seq<Entry>, DirectiveErrorView> {
    match parse_lines(lines(raw), Seq::empty()) {
        Ok(entries) => Ok(entries),
        Err(line) => Err(DirectiveErrorView::InvalidDirectiveLine(line)),
    }
}

/// The directives embedded in the body of an event.
pub open spec fn parse_event_options_spec(body: Seq<char>) -> Result<
    Seq<Entry>,
    DirectiveErrorView,
> {
    match directive_block(strip_tags(body)) {
        Some(block) => parse_options_spec(trim(block)),
        None => Err(DirectiveErrorView::NoDirectivesFound),
    }
}

/// Reads one line as a directive.
pub fn parse_line(line: &[char]) -> (r: Option<(String, String)>)
    ensures
        match r {
            Some((key, value)) => directive_of(line@) == Some((key@, value@)),
            None => directive_of(line@) is None,
        },
{
    let sep = vec![':', ' '];
    match find_from(line, sep.as_slice(), 0) {
        Some(at) => {
            proof {
                lemma_find(line@, separator(), 0);
            }
            let len = line.len();
            if find_from(line, sep.as_slice(), at + 2).is_some() {
                None
            } else {
                let (k0, k1) = trim_bounds(slice_subrange(line, 0, at));
                let key_text = string_of(slice_subrange(slice_subrange(line, 0, at), k0, k1));
                let key = lowercase(key_text.as_str());
                let (v0, v1) = trim_bounds(slice_subrange(line, at + 2, len));
                let value = string_of(slice_subrange(slice_subrange(line, at + 2, len), v0, v1));
                Some((key, value))
            }
        },
        None => None,
    }
}

/// Reads the lines of a block as directives.
pub fn parse_block(s: &[char]) -> (r: Result<Directives, DirectiveError>)
    ensures
        match r {
            Ok(d) => parse_options_spec(s@) == Ok::<Seq<Entry>, DirectiveErrorView>(d.entries())
                && keys_unique(d.entries()) && keys_lowercased(d.entries()),
            Err(e) => parse_options_spec(s@) == Err::<Seq<Entry>, DirectiveErrorView>(e@),
        },
{
    let feed = vec!['\n'];
    let mut d = Directives::new();
    let mut i: usize = 0;
    while i < s.len()
        invariant
            i <= s@.len(),
            feed@ == line_feed(),
            parse_lines(lines_from(s@, i as int), d.entries()) == parse_lines(
                lines(s@),
                Seq::empty(),
            ),
        decreases s.len() - i,
    {
        let ghost rest = lines_from(s@, i as int);
        let (end, next) = match find_from(s, feed.as_slice(), i) {
            Some(at) => {
                proof {
                    lemma_find(s@, line_feed(), i as int);
                }
                if at > i && s[at - 1] == '\r' {
                    (at - 1, at + 1)
                } else {
                    (at, at + 1)
                }
            },
            None => (s.len(), s.len()),
        };
        let line = slice_subrange(s, i, end);
        proof {
            // The lines from here on are this line and the lines after it.
            let after = lines_from(s@, next as int);
            assert(rest =~= seq![line@] + after) by {
                if let Some(at) = find(s@, line_feed(), i as int) {
                    if at > i && s@[at - 1] == '\r' {
                        assert(s@.subrange(i as int, at).drop_last() =~= line@);
                    }
                }
            }
            assert(rest.drop_first() =~= after);
        }
        if line.len() > 0 {
            match parse_line(line) {
                Some((key, value)) => {
                    d = d.with(key, value);
                },
                None => {
                    return Err(DirectiveError::InvalidDirectiveLine(string_of(line)));
                },
            }
        }
        i = next;
    }
    d.keys_are_well_formed();
    Ok(d)
}

/// Reads the text of a directive block: one directive on each non-empty
/// line, a later one replacing an earlier one with the same key.
pub fn parse_options(raw: &str) -> (r: Result<Directives, DirectiveError>)
    ensures
        match r {
            Ok(d) => parse_options_spec(raw@) == Ok::<Seq<Entry>, DirectiveErrorView>(d.entries())
                && keys_unique(d.entries()) && keys_lowercased(d.entries()),
            Err(e) => parse_options_spec(raw@) == Err::<Seq<Entry>, DirectiveErrorView>(e@),
        },
{
    let chars = chars_of(raw);
    parse_block(chars.as_slice())
}

/// The bounds of the directive block of a text whose tags are stripped: the
/// block is the text from the first bound up to, not including, the second.
pub fn block_bounds(stripped: &[char]) -> (r: Option<(usize, usize)>)
    ensures
        match r {
            Some((from, to)) => from <= to <= stripped@.len() && directive_block(stripped@)
                == Some(stripped@.subrange(from as int, to as int)),
            None => directive_block(stripped@) is None,
        },
{
    let flat = flatten_line_breaks(stripped);
    let marker = sentinel_chars();
    let first = find_from(flat.as_slice(), marker.as_slice(), 0);
    let last = find_last(flat.as_slice(), marker.as_slice());
    match (first, last) {
        (Some(first), Some(last)) => {
            proof {
                lemma_find(flat@, sentinel(), 0);
                lemma_rfind(flat@, sentinel(), flat@.len() as int);
            }
            if last >= marker.len() && first <= last - marker.len() {
                Some((first + marker.len(), last))
            } else {
                None
            }
        },
        _ => None,
    }
}

/// Reads the directives embedded in the body of an event: strips the markup
/// tags, takes what stands between the first and the last sentinel marker,
/// and reads its lines.
pub fn parse_event_options(body: &str) -> (r: Result<Directives, DirectiveError>)
    ensures
        match r {
            Ok(d) => parse_event_options_spec(body@) == Ok::<Seq<Entry>, DirectiveErrorView>(
                d.entries(),
            ) && keys_unique(d.entries()) && keys_lowercased(d.entries()),
            Err(e) => parse_event_options_spec(body@) == Err::<Seq<Entry>, DirectiveErrorView>(e@),
        },
{
    let raw = chars_of(body);
    let stripped = strip_markup(raw.as_slice());
    match block_bounds(stripped.as_slice()) {
        Some((from, to)) => {
            let block = slice_subrange(stripped.as_slice(), from, to);
            let (start, end) = trim_bounds(block);
            parse_block(slice_subrange(block, start, end))
        },
        None => Err(DirectiveError::NoDirectivesFound),
    }
}

/// Whether the body of an event holds the sentinel marker at least twice.
/// Only such events carry directives.
pub fn has_directive_markers(body: &str) -> (b: bool)
    ensures
        b == has_two_markers(body@),
{
    let raw = chars_of(body);
    let marker = sentinel_chars();
    match find_from(raw.as_slice(), marker.as_slice(), 0) {
        Some(first) => {
            proof {
                lemma_find(raw@, sentinel(), 0);
                lemma_find(raw@, sentinel(), first + 1);
                assert(first + sentinel().len() <= raw.len());
            }
            let second = find_from(raw.as_slice(), marker.as_slice(), first + 1);
            second.is_some()
        },
        None => {
            proof {
                lemma_find(raw@, sentinel(), 0);
            }
            false
        },
    }
}

/// No character of the sentinel marker is a space or a line break, and only
/// its first character is an opening bracket.
pub proof fn lemma_sentinel_characters()
    ensures
        sentinel().len() == 14,
        sentinel()[0] == '[',
        forall|k: int|
            0 <= k < 14 ==> unbroken(#[trigger] sentinel()[k]) == sentinel()[k] && sentinel()[k]
                != ' ',
        forall|k: int| 1 <= k < 14 ==> #[trigger] sentinel()[k] != '[',
{
}

/// Normalizing the line breaks neither makes nor unmakes a sentinel marker.
pub proof fn lemma_markers_survive_flattening(s: Seq<char>, i: int)
    ensures
        occurs_at(normalize_line_breaks(s), sentinel(), i) == occurs_at(s, sentinel(), i),
{
    lemma_sentinel_characters();
    let flat = normalize_line_breaks(s);
    let m = sentinel();
    if 0 <= i && i + 14 <= s.len() {
        if occurs_at(flat, m, i) {
            assert forall|k: int| 0 <= k < 14 implies s[i + k] == m[k] by {}
            assert(s.subrange(i, i + 14) =~= m);
        }
        if occurs_at(s, m, i) {
            assert forall|k: int| 0 <= k < 14 implies flat[i + k] == m[k] by {}
            assert(flat.subrange(i, i + 14) =~= m);
        }
    }
}

/// Two sentinel markers never overlap.
pub proof fn lemma_markers_apart(s: Seq<char>, i: int, j: int)
    requires
        i < j,
        occurs_at(s, sentinel(), i),
        occurs_at(s, sentinel(), j),
    ensures
        i + sentinel().len() <= j,
{
    lemma_sentinel_characters();
}

/// A text holds a directive block exactly if it holds the sentinel marker
/// at least twice.
pub proof fn lemma_block_iff_two_markers(stripped: Seq<char>)
    ensures
        directive_block(stripped) is Some <==> has_two_markers(stripped),
{
    let flat = normalize_line_breaks(stripped);
    let m = sentinel();
    lemma_sentinel_characters();
    lemma_find(flat, m, 0);
    lemma_rfind(flat, m, flat.len() as int);
    assert forall|k: int| occurs_at(flat, m, k) == occurs_at(stripped, m, k) by {
        lemma_markers_survive_flattening(stripped, k);
    }
    if has_two_markers(stripped) {
        let (i, j) = choose|i: int, j: int|
            i < j && occurs_at(stripped, m, i) && occurs_at(stripped, m, j);
        lemma_markers_apart(stripped, i, j);
    }
}

/// A text without an opening angle bracket holds no tag: stripping leaves it
/// as it is.
pub proof fn lemma_strip_tags_plain(s: Seq<char>, i: int)
    requires
        0 <= i <= s.len(),
        forall|k: int| 0 <= k < s.len() ==> s[k] != '<',
    ensures
        strip_tags_from(s, i) == s.subrange(i, s.len() as int),
    decreases s.len() - i,
{
    if i < s.len() {
        lemma_strip_tags_plain(s, i + 1);
    }
}

/// A body that holds fewer than two sentinel markers once its tags are
/// stripped yields `NoDirectivesFound`, and only such a body does.
pub proof fn law_no_block_without_two_markers(body: Seq<char>)
    ensures
        parse_event_options_spec(body) == Err::<Seq<Entry>, DirectiveErrorView>(
            DirectiveErrorView::NoDirectivesFound,
        ) <==> !has_two_markers(strip_tags(body)),
{
    lemma_block_iff_two_markers(strip_tags(body));
}

/// A body without markup that holds the sentinel marker only once, or not at
/// all, yields `NoDirectivesFound`.
pub proof fn law_single_marker_yields_no_directives(body: Seq<char>)
    requires
        forall|k: int| 0 <= k < body.len() ==> body[k] != '<',
        !has_two_markers(body),
    ensures
        parse_event_options_spec(body) == Err::<Seq<Entry>, DirectiveErrorView>(
            DirectiveErrorView::NoDirectivesFound,
        ),
{
    lemma_strip_tags_plain(body, 0);
    assert(body.subrange(0, body.len() as int) =~= body);
    law_no_block_without_two_markers(body);
}

/// A block of one non-empty line that does not hold the separator yields
/// `InvalidDirectiveLine` with that line.
pub proof fn law_line_without_separator_is_invalid(line: Seq<char>)
    requires
        line.len() > 0,
        find(line, line_feed(), 0) is None,
        find(line, separator(), 0) is None,
    ensures
        parse_options_spec(line) == Err::<Seq<Entry>, DirectiveErrorView>(
            DirectiveErrorView::InvalidDirectiveLine(line),
        ),
{
    assert(line.subrange(0, line.len() as int) =~= line);
}

} // verus!
