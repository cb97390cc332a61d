//! The directives of an event as the text of a JSON object.

use crate::options::{Directives, Entry};
use vstd::prelude::*;
use vstd::string::StringExecFns;

verus! {

/// Names what `serde_json::to_string` returns for a string: the JSON string
/// literal that stands for it, quotes included, where it returns one.
pub uninterp spec fn json_text_of(s: Seq<char>) -> Option<Seq<char>>;

/// The JSON string literal for `s`, by `serde_json::to_string`; `None` where
/// that call fails.
#[verifier::external_body]
pub(crate) fn json_string(s: &str) -> (r: Option<String>)
    ensures
        match r {
            Some(text) => json_text_of(s@) == Some(text@),
            None => json_text_of(s@) is None,
        },
{
    serde_json::to_string(s).ok()
}

/// The members of the JSON object for the entries: each key and value as a
/// string literal with a colon between them, the members parted by commas.
/// `None` where a key or a value has no literal.
pub open spec fn members_json(entries: Seq<Entry>) -> Option<Seq<char>>
    decreases entries.len(),
{
    if entries.len() == 0 {
        Some(Seq::empty())
    } else {
        let last = entries.last();
        match (members_json(entries.drop_last()), json_text_of(last.0), json_text_of(last.1)) {
            (Some(before), Some(key), Some(value)) => Some(
                before + (if entries.len() > 1 {
                    seq![',']
                } else {
                    Seq::empty()
                }) + key + seq![':'] + value,
            ),
            _ => None,
        }
    }
}

/// The text of the JSON object for the entries, without any white space.
pub open spec fn options_json_spec(entries: Seq<Entry>) -> Option<Seq<char>> {
    match members_json(entries) {
        Some(members) => Some(seq!['{'] + members + seq!['}']),
        None => None,
    }
}

/// Where the first entries have no JSON text, the whole has none.
pub proof fn lemma_members_json_prefix(entries: Seq<Entry>, n: int)
    requires
        0 <= n <= entries.len(),
        members_json(entries.take(n)) is None,
    ensures
        members_json(entries) is None,
    decreases entries.len() - n,
{
    if n < entries.len() {
        assert(entries.take(n + 1).drop_last() =~= entries.take(n));
        lemma_members_json_prefix(entries, n + 1);
    } else {
        assert(entries.take(n) =~= entries);
    }
}

/// Writes the directives as a JSON object, in their order and without white
/// space. `None` where a key or a value cannot be written.
pub fn options_json(d: &Directives) -> (r: Option<String>)
    ensures
        match r {
            Some(text) => options_json_spec(d.entries()) == Some(text@),
            None => options_json_spec(d.entries()) is None,
        },
{
    let mut out = String::from_str("{");
    proof {
        reveal_strlit("{");
        reveal_strlit("}");
        reveal_strlit(",");
        reveal_strlit(":");
    }
    let mut i: usize = 0;
    while i < d.len()
        invariant
            i <= d.entries().len(),
            "}"@ == seq!['}'],
            ","@ == seq![','],
            ":"@ == seq![':'],
            members_json(d.entries().take(i as int)) is Some,
            out@ == seq!['{'] + members_json(d.entries().take(i as int))->0,
        decreases d.entries().len() - i,
    {
        proof {
            assert(d.entries().take(i + 1).drop_last() =~= d.entries().take(i as int));
        }
        let key = json_string(d.key_at(i).as_str());
        let value = json_string(d.value_at(i).as_str());
        match (key, value) {
            (Some(key), Some(value)) => {
                if i > 0 {
                    out.append(",");
                }
                out.append(key.as_str());
                out.append(":");
                out.append(value.as_str());
            },
            _ => {
                proof {
                    lemma_members_json_prefix(d.entries(), i + 1);
                }
                return None;
            },
        }
        i += 1;
    }
    proof {
        assert(d.entries().take(i as int) =~= d.entries());
    }
    out.append("}");
    Some(out)
}

} // verus!
