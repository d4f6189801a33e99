//! Request headers and the conditional-request checks made on them.

use vstd::prelude::*;
use vstd::string::*;
use crate::text::{parse_i64, parsed_i64};

verus! {

/// One header of a request: its name as stored (lower case) and its value
/// as text, or `None` when the value is not visible ASCII.
pub struct HeaderEntry {
    pub name: String,
    pub value: Option<String>,
}

/// The headers of a request, in the order a lookup visits them.
pub struct Headers {
    pub entries: Vec<HeaderEntry>,
}

/// A header as plain values.
pub type HeaderView = (Seq<char>, Option<Seq<char>>);

pub open spec fn opt_string_view(o: Option<String>) -> Option<Seq<char>> {
    match o {
        Some(s) => Some(s@),
        None => None,
    }
}

impl View for Headers {
    type V = Seq<HeaderView>;

    open spec fn view(&self) -> Seq<HeaderView> {
        self.entries@.map_values(|e: HeaderEntry| (e.name@, opt_string_view(e.value)))
    }
}

/// ASCII lower case of one character.
pub open spec fn ascii_lower(c: char) -> char {
    if 'A' <= c && c <= 'Z' {
        ((c as u32) + 32) as char
    } else {
        c
    }
}

/// A stored header name answers a query for `query`: header names are
/// compared without regard to ASCII case.
pub open spec fn name_matches(stored: Seq<char>, query: Seq<char>) -> bool {
    stored.len() == query.len() && forall|i: int|
        0 <= i < stored.len() ==> #[trigger] stored[i] == ascii_lower(query[i])
}

/// The value of the first header named `query`: `None` when there is no
/// such header, or when its value is not text.
pub open spec fn header_value(hs: Seq<HeaderView>, query: Seq<char>) -> Option<Seq<char>>
    decreases hs.len(),
{
    if hs.len() == 0 {
        None
    } else if name_matches(hs[0].0, query) {
        hs[0].1
    } else {
        header_value(hs.drop_first(), query)
    }
}

fn name_matches_exec(stored: &str, query: &str) -> (r: bool)
    ensures
        r == name_matches(stored@, query@),
{
    let n = stored.unicode_len();
    if n != query.unicode_len() {
        return false;
    }
    let mut i: usize = 0;
    while i < n
        invariant
            n == stored@.len(),
            n == query@.len(),
            i <= n,
            forall|j: int| 0 <= j < i ==> #[trigger] stored@[j] == ascii_lower(query@[j]),
        decreases n - i,
    {
        let s = stored.get_char(i);
        let q = query.get_char(i);
        let same = if 'A' <= q && q <= 'Z' {
            (s as u32) == (q as u32) + 32
        } else {
            s == q
        };
        if !same {
            assert(stored@[i as int] != ascii_lower(query@[i as int]));
            return false;
        }
        i += 1;
    }
    true
}

/// The text of the first header called `header_name`, if it is present and
/// its value is text.
pub fn extract_header(headers: &Headers, header_name: &str) -> (r: Option<String>)
    ensures
        opt_string_view(r) == header_value(headers@, header_name@),
{
    let n = headers.entries.len();
    let mut i: usize = 0;
    assert(headers@.subrange(0, n as int) =~= headers@);
    while i < n
        invariant
            n == headers.entries@.len(),
            i <= n,
            header_value(headers@, header_name@) == header_value(
                headers@.subrange(i as int, n as int),
                header_name@,
            ),
        decreases n - i,
    {
        let ghost rest = headers@.subrange(i as int, n as int);
        assert(rest.drop_first() =~= headers@.subrange(i + 1, n as int));
        assert(rest[0] == (headers.entries@[i as int].name@, opt_string_view(headers.entries@[i as int].value)));
        let e = &headers.entries[i];
        if name_matches_exec(e.name.as_str(), header_name) {
            return match &e.value {
                Some(v) => Some(v.clone()),
                None => None,
            };
        }
        i += 1;
    }
    assert(headers@.subrange(n as int, n as int) =~= Seq::<HeaderView>::empty());
    None
}

/// Header names are looked up without regard to ASCII case: two names that
/// agree once lower-cased find the same header.
pub proof fn lemma_lookup_ignores_case(hs: Seq<HeaderView>, q1: Seq<char>, q2: Seq<char>)
    requires
        q1.len() == q2.len(),
        forall|i: int| 0 <= i < q1.len() ==> ascii_lower(q1[i]) == ascii_lower(q2[i]),
    ensures
        header_value(hs, q1) == header_value(hs, q2),
    decreases hs.len(),
{
    if hs.len() > 0 {
        let stored = hs[0].0;
        assert(name_matches(stored, q1) == name_matches(stored, q2)) by {
            if name_matches(stored, q1) {
                assert forall|i: int| 0 <= i < stored.len() implies #[trigger] stored[i]
                    == ascii_lower(q2[i]) by {
                    assert(stored[i] == ascii_lower(q1[i]));
                }
            }
            if name_matches(stored, q2) {
                assert forall|i: int| 0 <= i < stored.len() implies #[trigger] stored[i]
                    == ascii_lower(q1[i]) by {
                    assert(stored[i] == ascii_lower(q2[i]));
                }
            }
        }
        lemma_lookup_ignores_case(hs.drop_first(), q1, q2);
    }
}

/// Why a conditional check could not be made.
#[derive(PartialEq, Eq, Structural, Clone, Copy, Debug)]
pub enum HeaderError {
    /// A time condition did not hold a decimal timestamp.
    InvalidTimestamp,
}

impl HeaderError {
    /// The text that describes the error.
    pub fn message(&self) -> (s: String)
        ensures
            s@ == "Could'nt parse input timestamp"@,
    {
        String::from_str("Could'nt parse input timestamp")
    }
}

/// The outcome of the entity-tag conditions: `IF-MATCH` holds when the tag
/// equals it, `IF-NONE-MATCH` when the tag differs from it; `IF-MATCH` is
/// consulted first, and without either there is no condition.
pub open spec fn match_condition(hs: Seq<HeaderView>, etag: Seq<char>) -> Option<bool> {
    match header_value(hs, "IF-MATCH"@) {
        Some(v) => Some(v == etag),
        None => match header_value(hs, "IF-NONE-MATCH"@) {
            Some(v) => Some(v != etag),
            None => None,
        },
    }
}

/// The outcome of the time conditions: `IF-MODIFIED-SINCE` holds when its
/// timestamp is later than `last_modified`, `IF-UNMODIFIED-SINCE` when it is
/// earlier; `IF-MODIFIED-SINCE` is consulted first, and a value that is not
/// a decimal timestamp is an error.
pub open spec fn since_condition(hs: Seq<HeaderView>, last_modified: i64) -> Result<
    Option<bool>,
    HeaderError,
> {
    match header_value(hs, "IF-MODIFIED-SINCE"@) {
        Some(v) => match parsed_i64(v) {
            Some(t) => Ok(Some(t > last_modified)),
            None => Err(HeaderError::InvalidTimestamp),
        },
        None => match header_value(hs, "IF-UNMODIFIED-SINCE"@) {
            Some(v) => match parsed_i64(v) {
                Some(t) => Ok(Some(t < last_modified)),
                None => Err(HeaderError::InvalidTimestamp),
            },
            None => Ok(None),
        },
    }
}

/// Evaluates the entity-tag conditions of a request against `etag`.
pub fn check_match(headers: &Headers, etag: String) -> (r: Result<Option<bool>, HeaderError>)
    ensures
        r == Ok::<Option<bool>, HeaderError>(match_condition(headers@, etag@)),
{
    if let Some(match_etag) = extract_header(headers, "IF-MATCH") {
        if match_etag == etag {
            return Ok(Some(true));
        }
        return Ok(Some(false));
    }
    if let Some(match_etag) = extract_header(headers, "IF-NONE-MATCH") {
        if match_etag != etag {
            return Ok(Some(true));
        }
        return Ok(Some(false));
    }
    Ok(None)
}

/// Evaluates the time conditions of a request against `last_modified`.
pub fn check_since(headers: &Headers, last_modified: i64) -> (r: Result<Option<bool>, HeaderError>)
    ensures
        r == since_condition(headers@, last_modified),
{
    if let Some(since) = extract_header(headers, "IF-MODIFIED-SINCE") {
        if let Some(since_i64) = parse_i64(since.as_str()) {
            if since_i64 > last_modified {
                return Ok(Some(true));
            }
            return Ok(Some(false));
        }
        return Err(HeaderError::InvalidTimestamp);
    }
    if let Some(since) = extract_header(headers, "IF-UNMODIFIED-SINCE") {
        if let Some(since_i64) = parse_i64(since.as_str()) {
            if since_i64 < last_modified {
                return Ok(Some(true));
            }
            return Ok(Some(false));
        }
        return Err(HeaderError::InvalidTimestamp);
    }
    Ok(None)
}

/// The entity-tag conditions: an `If-Match` header holds exactly when its
/// value is the entity tag, and decides alone when present; otherwise an
/// `If-None-Match` header holds exactly when its value differs from the
/// entity tag; with neither there is no condition.
pub proof fn lemma_match_condition(hs: Seq<HeaderView>, etag: Seq<char>)
    ensures
        header_value(hs, "IF-MATCH"@) matches Some(v) ==> match_condition(hs, etag) == Some(v
            == etag),
        header_value(hs, "IF-MATCH"@) is None ==> (header_value(hs, "IF-NONE-MATCH"@) matches Some(
            v,
        ) ==> match_condition(hs, etag) == Some(v != etag)),
        header_value(hs, "IF-MATCH"@) is None && header_value(hs, "IF-NONE-MATCH"@) is None
            ==> match_condition(hs, etag) is None,
        match_condition(hs, etag) == Some(false) ==> header_value(hs, "IF-MATCH"@) is Some
            || header_value(hs, "IF-NONE-MATCH"@) == Some(etag),
{
}

/// The time conditions: an `If-Modified-Since` timestamp `t` holds exactly
/// when `t` is later than the modification time, and decides alone when
/// present; otherwise an `If-Unmodified-Since` timestamp holds exactly when
/// it is earlier; a value that is not a decimal timestamp is an error; with
/// neither there is no condition.
pub proof fn lemma_since_condition(hs: Seq<HeaderView>, last_modified: i64)
    ensures
        header_value(hs, "IF-MODIFIED-SINCE"@) matches Some(v) ==> match parsed_i64(v) {
            Some(t) => since_condition(hs, last_modified) == Ok::<Option<bool>, HeaderError>(
                Some(t > last_modified),
            ),
            None => since_condition(hs, last_modified) is Err,
        },
        header_value(hs, "IF-MODIFIED-SINCE"@) is None ==> (header_value(
            hs,
            "IF-UNMODIFIED-SINCE"@,
        ) matches Some(v) ==> match parsed_i64(v) {
            Some(t) => since_condition(hs, last_modified) == Ok::<Option<bool>, HeaderError>(
                Some(t < last_modified),
            ),
            None => since_condition(hs, last_modified) is Err,
        }),
        header_value(hs, "IF-MODIFIED-SINCE"@) is None && header_value(
            hs,
            "IF-UNMODIFIED-SINCE"@,
        ) is None ==> since_condition(hs, last_modified) == Ok::<Option<bool>, HeaderError>(None),
{
}

/// Stored header names are lower case, and the conditional headers are found
/// under their lower-case names: a header stored as `if-match` answers a
/// lookup of `IF-MATCH`, and likewise for the other three.
pub proof fn lemma_conditional_header_names()
    ensures
        name_matches("if-match"@, "IF-MATCH"@),
        name_matches("if-none-match"@, "IF-NONE-MATCH"@),
        name_matches("if-modified-since"@, "IF-MODIFIED-SINCE"@),
        name_matches("if-unmodified-since"@, "IF-UNMODIFIED-SINCE"@),
{
    reveal_strlit("if-match");
    reveal_strlit("IF-MATCH");
    reveal_strlit("if-none-match");
    reveal_strlit("IF-NONE-MATCH");
    reveal_strlit("if-modified-since");
    reveal_strlit("IF-MODIFIED-SINCE");
    reveal_strlit("if-unmodified-since");
    reveal_strlit("IF-UNMODIFIED-SINCE");
}

/// A lookup finds the first header whose name answers it: headers after it
/// do not matter, and headers before it that do not answer are skipped.
pub proof fn lemma_first_header_wins(
    before: Seq<HeaderView>,
    h: HeaderView,
    after: Seq<HeaderView>,
    query: Seq<char>,
)
    requires
        forall|i: int| 0 <= i < before.len() ==> !name_matches(#[trigger] before[i].0, query),
        name_matches(h.0, query),
    ensures
        header_value(before + seq![h] + after, query) == h.1,
    decreases before.len(),
{
    if before.len() == 0 {
        assert((before + seq![h] + after)[0] == h);
    } else {
        let hs = before + seq![h] + after;
        assert(hs[0] == before[0]);
        assert(hs.drop_first() =~= before.drop_first() + seq![h] + after);
        assert forall|i: int| 0 <= i < before.drop_first().len() implies !name_matches(
            #[trigger] before.drop_first()[i].0,
            query,
        ) by {
            assert(before.drop_first()[i] == before[i + 1]);
        }
        lemma_first_header_wins(before.drop_first(), h, after, query);
    }
}

} // verus!
