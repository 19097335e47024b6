use crate::registry::{decimal, entries_in_order, entry_order, lists_in_order, registry};
use std::collections::BTreeMap;
use vstd::prelude::*;

verus! {

#[verifier::external_type_specification]
#[verifier::external_body]
pub struct ExJsonError(serde_json::Error);

/// The compact JSON object that maps each code's decimal string to its reason phrase.
pub uninterp spec fn json_text(m: Map<u16, Seq<char>>) -> Seq<char>;

/// The same object as `json_text`, laid out over indented lines.
pub uninterp spec fn json_pretty_text(m: Map<u16, Seq<char>>) -> Seq<char>;

/// A registry with each reason phrase taken as text.
pub open spec fn reason_texts(m: Map<u16, &'static str>) -> Map<u16, Seq<char>> {
    m.map_values(|r: &'static str| r@)
}

/// A text that JSON writes as it stands: no quote, backslash or control character.
pub open spec fn plain_text(s: Seq<char>) -> bool {
    forall|i: int| 0 <= i < s.len() ==> #[trigger] s[i] != '"' && s[i] != '\\' && s[i] as u32 >= 0x20
}

/// Every reason phrase of `m` is plain text.
pub open spec fn plain_reasons(m: Map<u16, &'static str>) -> bool {
    forall|c: u16| #[trigger] m.contains_key(c) ==> plain_text(m[c]@)
}

/// The JSON string literal of a plain text.
pub open spec fn quoted(s: Seq<char>) -> Seq<char> {
    seq!['"'] + s + seq!['"']
}

/// One member of the compact object: `"<code>":"<reason>"`.
pub open spec fn member(e: (u16, &'static str)) -> Seq<char> {
    quoted(decimal(e.0 as nat)) + seq![':'] + quoted(e.1@)
}

/// The compact members of a list of entries, separated by commas.
pub open spec fn members(s: Seq<(u16, &'static str)>) -> Seq<char>
    decreases s.len(),
{
    if s.len() == 0 {
        Seq::empty()
    } else if s.len() == 1 {
        member(s[0])
    } else {
        members(s.drop_last()) + seq![','] + member(s.last())
    }
}

/// The compact JSON object of a list of entries.
pub open spec fn compact_object(s: Seq<(u16, &'static str)>) -> Seq<char> {
    seq!['{'] + members(s) + seq!['}']
}

/// One member of the indented object: two spaces, then `"<code>": "<reason>"`.
pub open spec fn pretty_member(e: (u16, &'static str)) -> Seq<char> {
    seq![' ', ' '] + quoted(decimal(e.0 as nat)) + seq![':', ' '] + quoted(e.1@)
}

/// The indented members of a list of entries, each on a line of its own.
pub open spec fn pretty_members(s: Seq<(u16, &'static str)>) -> Seq<char>
    decreases s.len(),
{
    if s.len() == 0 {
        Seq::empty()
    } else if s.len() == 1 {
        seq!['\n'] + pretty_member(s[0])
    } else {
        pretty_members(s.drop_last()) + seq![',', '\n'] + pretty_member(s.last())
    }
}

/// The indented JSON object of a list of entries; `{}` when there are none.
pub open spec fn pretty_object(s: Seq<(u16, &'static str)>) -> Seq<char> {
    seq!['{'] + pretty_members(s) + (if s.len() == 0 {
        Seq::empty()
    } else {
        seq!['\n']
    }) + seq!['}']
}

/// Why the registry could not be written as JSON.
#[derive(Clone, Debug, PartialEq, Eq)]
pub struct JsonError {
    pub message: String,
}

/// Relies on serde_json::to_string. A `BTreeMap` is written in ascending key order, a `u16`
/// key as its quoted decimal digits, a string with only `"`, `\` and control characters
/// escaped, and writing into a `Vec` does not fail.
#[verifier::external_body]
fn compact_json(m: &BTreeMap<u16, &'static str>) -> (r: Result<String, serde_json::Error>)
    ensures
        r is Ok,
        r->Ok_0@ == json_text(reason_texts(m@)),
        plain_reasons(m@) ==> r->Ok_0@ == compact_object(entries_in_order(m)),
{
    serde_json::to_string(m)
}

/// Relies on serde_json::to_string_pretty: as `to_string`, with each member on a line of its
/// own after two spaces of indent, `": "` between key and value, and `}` on a line of its own
/// unless the map is empty.
#[verifier::external_body]
fn pretty_json(m: &BTreeMap<u16, &'static str>) -> (r: Result<String, serde_json::Error>)
    ensures
        r is Ok,
        r->Ok_0@ == json_pretty_text(reason_texts(m@)),
        plain_reasons(m@) ==> r->Ok_0@ == pretty_object(entries_in_order(m)),
{
    serde_json::to_string_pretty(m)
}

/// Relies on the `Display` of serde_json::Error for its message.
#[verifier::external_body]
fn error_message(e: &serde_json::Error) -> String {
    e.to_string()
}

/// Writes the registry as one compact JSON object, `{"<code>":"<reason>",...}`, with the
/// codes in ascending order. Writing always succeeds.
pub fn to_json(status_codes: &BTreeMap<u16, &'static str>) -> (r: Result<String, JsonError>)
    ensures
        r is Ok,
        r->Ok_0@ == json_text(reason_texts(status_codes@)),
        plain_reasons(status_codes@) ==> r->Ok_0@ == compact_object(entries_in_order(status_codes)),
        lists_in_order(status_codes@, entries_in_order(status_codes)),
{
    entry_order(status_codes);
    match compact_json(status_codes) {
        Ok(s) => Ok(s),
        Err(e) => Err(JsonError { message: error_message(&e) }),
    }
}

/// The pretty-printed text where it could be had, and the compact text otherwise.
pub fn pretty_or_compact<E>(pretty: Result<String, E>, compact: String) -> (r: String)
    ensures
        r@ == match pretty {
            Ok(p) => p@,
            Err(_) => compact@,
        },
{
    match pretty {
        Ok(p) => p,
        Err(_) => compact,
    }
}

/// Writes the registry as indented JSON; `compact` is the text to fall back on should that
/// fail, which it does not.
pub fn to_json_pretty_or(status_codes: &BTreeMap<u16, &'static str>, compact: String) -> (r: String)
    ensures
        r@ == json_pretty_text(reason_texts(status_codes@)),
        plain_reasons(status_codes@) ==> r@ == pretty_object(entries_in_order(status_codes)),
        lists_in_order(status_codes@, entries_in_order(status_codes)),
{
    entry_order(status_codes);
    pretty_or_compact(pretty_json(status_codes), compact)
}

/// Both JSON forms open with `{` and close with `}`, and a registry without entries is
/// written `{}` in both.
pub proof fn lemma_object_braces(s: Seq<(u16, &'static str)>)
    ensures
        compact_object(s)[0] == '{',
        compact_object(s).last() == '}',
        pretty_object(s)[0] == '{',
        pretty_object(s).last() == '}',
        compact_object(Seq::empty()) == seq!['{', '}'],
        pretty_object(Seq::empty()) == seq!['{', '}'],
{
    assert(compact_object(Seq::empty()) =~= seq!['{', '}']);
    assert(pretty_object(Seq::empty()) =~= seq!['{', '}']);
}

/// No reason phrase of the registry needs escaping in JSON, so both JSON forms of the
/// registry are the objects spelled out above.
pub proof fn lemma_registry_reasons_plain()
    ensures
        plain_reasons(registry()),
{
    reveal_strlit("Continue");
    reveal_strlit("Switching Protocols");
    reveal_strlit("Processing");
    reveal_strlit("Early Hints");
    reveal_strlit("OK");
    reveal_strlit("Created");
    reveal_strlit("Accepted");
    reveal_strlit("Non-Authoritative Information");
    reveal_strlit("No Content");
    reveal_strlit("Reset Content");
    reveal_strlit("Partial Content");
    reveal_strlit("Multi-Status");
    reveal_strlit("Already Reported");
    reveal_strlit("IM Used");
    reveal_strlit("Multiple Choices");
    reveal_strlit("Moved Permanently");
    reveal_strlit("Found");
    reveal_strlit("See Other");
    reveal_strlit("Not Modified");
    reveal_strlit("Use Proxy");
    reveal_strlit("Switch Proxy");
    reveal_strlit("Temporary Redirect");
    reveal_strlit("Permanent Redirect");
    reveal_strlit("Bad Request");
    reveal_strlit("Unauthorized");
    reveal_strlit("Payment Required");
    reveal_strlit("Forbidden");
    reveal_strlit("Not Found");
    reveal_strlit("Method Not Allowed");
    reveal_strlit("Not Acceptable");
    reveal_strlit("Proxy Authentication Required");
    reveal_strlit("Request Timeout");
    reveal_strlit("Conflict");
    reveal_strlit("Gone");
    reveal_strlit("Length Required");
    reveal_strlit("Precondition Failed");
    reveal_strlit("Payload Too Large");
    reveal_strlit("URI Too Long");
    reveal_strlit("Unsupported Media Type");
    reveal_strlit("Range Not Satisfiable");
    reveal_strlit("Expectation Failed");
    reveal_strlit("I'm a teapot");
    reveal_strlit("Misdirected Request");
    reveal_strlit("Unprocessable Entity");
    reveal_strlit("Locked");
    reveal_strlit("Failed Dependency");
    reveal_strlit("Too Early");
    reveal_strlit("Upgrade Required");
    reveal_strlit("Precondition Required");
    reveal_strlit("Too Many Requests");
    reveal_strlit("Request Header Fields Too Large");
    reveal_strlit("Unavailable For Legal Reasons");
    reveal_strlit("Internal Server Error");
    reveal_strlit("Not Implemented");
    reveal_strlit("Bad Gateway");
    reveal_strlit("Service Unavailable");
    reveal_strlit("Gateway Timeout");
    reveal_strlit("HTTP Version Not Supported");
    reveal_strlit("Variant Also Negotiates");
    reveal_strlit("Insufficient Storage");
    reveal_strlit("Loop Detected");
    reveal_strlit("Not Extended");
    reveal_strlit("Network Authentication Required");
}

} // verus!
