use std::collections::btree_map::Iter;
use std::collections::BTreeMap;
use vstd::prelude::*;
use vstd::std_specs::btree::into_iter;
use vstd::std_specs::iter::IteratorSpec;

verus! {

/// The reason phrase registered for `code`, if any.
pub open spec fn reason_of(code: u16) -> Option<&'static str> {
    match code {
        100 => Option::Some("Continue"),
        101 => Option::Some("Switching Protocols"),
        102 => Option::Some("Processing"),
        103 => Option::Some("Early Hints"),
        200 => Option::Some("OK"),
        201 => Option::Some("Created"),
        202 => Option::Some("Accepted"),
        203 => Option::Some("Non-Authoritative Information"),
        204 => Option::Some("No Content"),
        205 => Option::Some("Reset Content"),
        206 => Option::Some("Partial Content"),
        207 => Option::Some("Multi-Status"),
        208 => Option::Some("Already Reported"),
        226 => Option::Some("IM Used"),
        300 => Option::Some("Multiple Choices"),
        301 => Option::Some("Moved Permanently"),
        302 => Option::Some("Found"),
        303 => Option::Some("See Other"),
        304 => Option::Some("Not Modified"),
        305 => Option::Some("Use Proxy"),
        306 => Option::Some("Switch Proxy"),
        307 => Option::Some("Temporary Redirect"),
        308 => Option::Some("Permanent Redirect"),
        400 => Option::Some("Bad Request"),
        401 => Option::Some("Unauthorized"),
        402 => Option::Some("Payment Required"),
        403 => Option::Some("Forbidden"),
        404 => Option::Some("Not Found"),
        405 => Option::Some("Method Not Allowed"),
        406 => Option::Some("Not Acceptable"),
        407 => Option::Some("Proxy Authentication Required"),
        408 => Option::Some("Request Timeout"),
        409 => Option::Some("Conflict"),
        410 => Option::Some("Gone"),
        411 => Option::Some("Length Required"),
        412 => Option::Some("Precondition Failed"),
        413 => Option::Some("Payload Too Large"),
        414 => Option::Some("URI Too Long"),
        415 => Option::Some("Unsupported Media Type"),
        416 => Option::Some("Range Not Satisfiable"),
        417 => Option::Some("Expectation Failed"),
        418 => Option::Some("I'm a teapot"),
        421 => Option::Some("Misdirected Request"),
        422 => Option::Some("Unprocessable Entity"),
        423 => Option::Some("Locked"),
        424 => Option::Some("Failed Dependency"),
        425 => Option::Some("Too Early"),
        426 => Option::Some("Upgrade Required"),
        428 => Option::Some("Precondition Required"),
        429 => Option::Some("Too Many Requests"),
        431 => Option::Some("Request Header Fields Too Large"),
        451 => Option::Some("Unavailable For Legal Reasons"),
        500 => Option::Some("Internal Server Error"),
        501 => Option::Some("Not Implemented"),
        502 => Option::Some("Bad Gateway"),
        503 => Option::Some("Service Unavailable"),
        504 => Option::Some("Gateway Timeout"),
        505 => Option::Some("HTTP Version Not Supported"),
        506 => Option::Some("Variant Also Negotiates"),
        507 => Option::Some("Insufficient Storage"),
        508 => Option::Some("Loop Detected"),
        510 => Option::Some("Not Extended"),
        511 => Option::Some("Network Authentication Required"),
        _ => Option::None,
    }
}

/// The registry as a mapping from status code to reason phrase.
pub open spec fn registry() -> Map<u16, &'static str> {
    Map::new(|c: u16| reason_of(c) is Some, |c: u16| reason_of(c)->0)
}

/// Every registered code, written out.
pub open spec fn registered_codes() -> Set<u16> {
    set![
        100u16, 101, 102, 103, 200, 201, 202, 203, 204, 205, 206, 207, 208, 226, 300, 301, 302,
        303, 304, 305, 306, 307, 308, 400, 401, 402, 403, 404, 405, 406, 407, 408, 409, 410,
        411, 412, 413, 414, 415, 416, 417, 418, 421, 422, 423, 424, 425, 426, 428, 429, 431,
        451, 500, 501, 502, 503, 504, 505, 506, 507, 508, 510, 511,
    ]
}

/// The registered codes that fall in `[lo, hi)`.
pub open spec fn codes_between(m: Map<u16, &'static str>, lo: u16, hi: u16) -> Set<u16> {
    m.dom().filter(|c: u16| lo <= c < hi)
}

proof fn lemma_registry_domain()
    ensures
        registry().dom() == registered_codes(),
{
    assert(registry().dom() =~= registered_codes());
}

/// The character of a decimal digit.
pub open spec fn digit_char(d: nat) -> char {
    seq!['0', '1', '2', '3', '4', '5', '6', '7', '8', '9'][d as int]
}

/// The decimal digits of `n`, most significant first, without leading zeros.
pub open spec fn decimal(n: nat) -> Seq<char>
    decreases n,
{
    if n < 10 {
        seq![digit_char(n)]
    } else {
        decimal(n / 10).push(digit_char(n % 10))
    }
}

/// The entries of a registry in the order in which iterating over it visits them.
pub open spec fn entries_in_order(m: &BTreeMap<u16, &'static str>) -> Seq<(u16, &'static str)> {
    into_iter(m.iter())
}

/// A list of entries that holds each entry of `m` once, in strictly ascending order of code.
pub open spec fn lists_in_order(m: Map<u16, &'static str>, s: Seq<(u16, &'static str)>) -> bool {
    &&& s.len() == m.len()
    &&& forall|i: int|
        0 <= i < s.len() ==> m.contains_key((#[trigger] s[i]).0) && m[s[i].0] == s[i].1
    &&& forall|c: u16|
        #[trigger] m.contains_key(c) ==> exists|i: int| 0 <= i < s.len() && s[i] == (c, m[c])
    &&& forall|i: int, j: int| 0 <= i < j < s.len() ==> (#[trigger] s[i]).0 < (#[trigger] s[j]).0
}

/// Starts an iteration over `m`, which visits the entries of `m` in ascending order of code.
pub fn entry_order<'a>(m: &'a BTreeMap<u16, &'static str>) -> (it: Iter<'a, u16, &'static str>)
    ensures
        it.remaining().unref() == entries_in_order(m),
        IteratorSpec::decrease(&it) is Some,
        IteratorSpec::initial_value_relation(&it, &it),
        lists_in_order(m@, entries_in_order(m)),
{
    broadcast use vstd::laws_cmp::group_laws_cmp, vstd::std_specs::btree::group_btree_axioms;

    let it = m.iter();
    let ghost order = entries_in_order(m);
    proof {
        let keys = it.remaining().map_values(|kv: (&u16, &&'static str)| *kv.0);
        vstd::std_specs::btree::axiom_increasing_seq_meaning(keys);
        assert(order == it.remaining().unref());
        assert forall|c: u16| #[trigger] m@.contains_key(c) implies exists|i: int|
            0 <= i < order.len() && order[i] == (c, m@[c]) by {
            let v = it.remaining();
            assert(v.contains((&c, &m@[c])));
            let i = choose|i: int| 0 <= i < v.len() && v[i] == (&c, &m@[c]);
            assert(order[i] == (c, m@[c]));
        }
        assert forall|i: int, j: int| 0 <= i < j < order.len() implies order[i].0 < order[j].0 by {
            assert(vstd::std_specs::cmp::OrdSpec::cmp_spec(&keys[i], &keys[j]) is Less);
            assert(keys[i] == order[i].0 && keys[j] == order[j].0);
        }
    }
    it
}

/// Every registered code lies in `[100, 599]`.
pub proof fn lemma_codes_in_range()
    ensures
        forall|c: u16| #[trigger] registry().contains_key(c) ==> 100 <= c <= 599,
{
}

/// No registered code has an empty reason phrase.
pub proof fn lemma_reasons_non_empty()
    ensures
        forall|c: u16| #[trigger] registry().contains_key(c) ==> registry()[c]@.len() > 0,
{
    reveal_strlit("Continue");
    reveal_strlit("Switching Protocols");
    reveal_strlit("Processing");
    reveal_strlit("Early Hints");
    reveal_strlit("OK");
    reveal_strlit("Created");
    reveal_strlit("Accepted");
    reveal_strlit("Non-Authoritative Information");
    reveal_strlit("No Content");
    reveal_strlit("Reset Content");
    reveal_strlit("Partial Content");
    reveal_strlit("Multi-Status");
    reveal_strlit("Already Reported");
    reveal_strlit("IM Used");
    reveal_strlit("Multiple Choices");
    reveal_strlit("Moved Permanently");
    reveal_strlit("Found");
    reveal_strlit("See Other");
    reveal_strlit("Not Modified");
    reveal_strlit("Use Proxy");
    reveal_strlit("Switch Proxy");
    reveal_strlit("Temporary Redirect");
    reveal_strlit("Permanent Redirect");
    reveal_strlit("Bad Request");
    reveal_strlit("Unauthorized");
    reveal_strlit("Payment Required");
    reveal_strlit("Forbidden");
    reveal_strlit("Not Found");
    reveal_strlit("Method Not Allowed");
    reveal_strlit("Not Acceptable");
    reveal_strlit("Proxy Authentication Required");
    reveal_strlit("Request Timeout");
    reveal_strlit("Conflict");
    reveal_strlit("Gone");
    reveal_strlit("Length Required");
    reveal_strlit("Precondition Failed");
    reveal_strlit("Payload Too Large");
    reveal_strlit("URI Too Long");
    reveal_strlit("Unsupported Media Type");
    reveal_strlit("Range Not Satisfiable");
    reveal_strlit("Expectation Failed");
    reveal_strlit("I'm a teapot");
    reveal_strlit("Misdirected Request");
    reveal_strlit("Unprocessable Entity");
    reveal_strlit("Locked");
    reveal_strlit("Failed Dependency");
    reveal_strlit("Too Early");
    reveal_strlit("Upgrade Required");
    reveal_strlit("Precondition Required");
    reveal_strlit("Too Many Requests");
    reveal_strlit("Request Header Fields Too Large");
    reveal_strlit("Unavailable For Legal Reasons");
    reveal_strlit("Internal Server Error");
    reveal_strlit("Not Implemented");
    reveal_strlit("Bad Gateway");
    reveal_strlit("Service Unavailable");
    reveal_strlit("Gateway Timeout");
    reveal_strlit("HTTP Version Not Supported");
    reveal_strlit("Variant Also Negotiates");
    reveal_strlit("Insufficient Storage");
    reveal_strlit("Loop Detected");
    reveal_strlit("Not Extended");
    reveal_strlit("Network Authentication Required");
}

/// The five classes hold 4, 10, 9, 29 and 11 codes, in that order.
pub proof fn lemma_class_sizes()
    ensures
        codes_between(registry(), 100, 200).len() == 4,
        codes_between(registry(), 200, 300).len() == 10,
        codes_between(registry(), 300, 400).len() == 9,
        codes_between(registry(), 400, 500).len() == 29,
        codes_between(registry(), 500, 600).len() == 11,
{
    assert(codes_between(registry(), 100, 200) =~= set![100u16, 101, 102, 103]);
    assert(codes_between(registry(), 200, 300) =~= set![200u16, 201, 202, 203, 204, 205, 206, 207, 208, 226]);
    assert(codes_between(registry(), 300, 400) =~= set![300u16, 301, 302, 303, 304, 305, 306, 307, 308]);
    assert(codes_between(registry(), 400, 500) =~= set![
        400u16, 401, 402, 403, 404, 405, 406, 407, 408, 409, 410, 411, 412, 413, 414, 415, 416,
        417, 418, 421, 422, 423, 424, 425, 426, 428, 429, 431, 451,
    ]);
    assert(codes_between(registry(), 500, 600) =~= set![500u16, 501, 502, 503, 504, 505, 506, 507, 508, 510, 511]);
}

/// Builds the registry of every known status code and its reason phrase.
pub fn get_status_codes() -> (r: BTreeMap<u16, &'static str>)
    ensures
        r@ == registry(),
        r@.len() == 63,
        forall|c: u16| #[trigger] r@.contains_key(c) ==> 100 <= c <= 599 && r@[c]@.len() > 0,
{
    let mut m = BTreeMap::<u16, &'static str>::new();

    // 1xx Informational
    m.insert(100, "Continue");
    m.insert(101, "Switching Protocols");
    m.insert(102, "Processing");
    m.insert(103, "Early Hints");

    // 2xx Success
    m.insert(200, "OK");
    m.insert(201, "Created");
    m.insert(202, "Accepted");
    m.insert(203, "Non-Authoritative Information");
    m.insert(204, "No Content");
    m.insert(205, "Reset Content");
    m.insert(206, "Partial Content");
    m.insert(207, "Multi-Status");
    m.insert(208, "Already Reported");
    m.insert(226, "IM Used");

    // 3xx Redirection
    m.insert(300, "Multiple Choices");
    m.insert(301, "Moved Permanently");
    m.insert(302, "Found");
    m.insert(303, "See Other");
    m.insert(304, "Not Modified");
    m.insert(305, "Use Proxy");
    m.insert(306, "Switch Proxy");
    m.insert(307, "Temporary Redirect");
    m.insert(308, "Permanent Redirect");

    // 4xx Client error
    m.insert(400, "Bad Request");
    m.insert(401, "Unauthorized");
    m.insert(402, "Payment Required");
    m.insert(403, "Forbidden");
    m.insert(404, "Not Found");
    m.insert(405, "Method Not Allowed");
    m.insert(406, "Not Acceptable");
    m.insert(407, "Proxy Authentication Required");
    m.insert(408, "Request Timeout");
    m.insert(409, "Conflict");
    m.insert(410, "Gone");
    m.insert(411, "Length Required");
    m.insert(412, "Precondition Failed");
    m.insert(413, "Payload Too Large");
    m.insert(414, "URI Too Long");
    m.insert(415, "Unsupported Media Type");
    m.insert(416, "Range Not Satisfiable");
    m.insert(417, "Expectation Failed");
    m.insert(418, "I'm a teapot");
    m.insert(421, "Misdirected Request");
    m.insert(422, "Unprocessable Entity");
    m.insert(423, "Locked");
    m.insert(424, "Failed Dependency");
    m.insert(425, "Too Early");
    m.insert(426, "Upgrade Required");
    m.insert(428, "Precondition Required");
    m.insert(429, "Too Many Requests");
    m.insert(431, "Request Header Fields Too Large");
    m.insert(451, "Unavailable For Legal Reasons");

    // 5xx Server error
    m.insert(500, "Internal Server Error");
    m.insert(501, "Not Implemented");
    m.insert(502, "Bad Gateway");
    m.insert(503, "Service Unavailable");
    m.insert(504, "Gateway Timeout");
    m.insert(505, "HTTP Version Not Supported");
    m.insert(506, "Variant Also Negotiates");
    m.insert(507, "Insufficient Storage");
    m.insert(508, "Loop Detected");
    m.insert(510, "Not Extended");
    m.insert(511, "Network Authentication Required");

    proof {
        assert(m@ =~= registry());
        lemma_registry_domain();
        lemma_reasons_non_empty();
    }
    m
}

} // verus!
