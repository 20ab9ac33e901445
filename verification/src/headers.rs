//! The header table of a request. It is the `HeaderMap` of the transport
//! crate; this file states what the library relies on from it.

use crate::request::RequestError;
use reqwest::header::{HeaderMap, HeaderName, HeaderValue};
use vstd::prelude::*;

verus! {

/// The transport crate's `HeaderMap`, a table from header names to header
/// values. Nothing of its inside is known here.
#[verifier::external_type_specification]
#[verifier::external_body]
#[verifier::reject_recursive_types(T)]
pub struct ExHeaderMap<T>(HeaderMap<T>);

/// The transport crate's `HeaderValue`, the kind of value that the table
/// holds. Nothing of its inside is known here.
#[verifier::external_type_specification]
#[verifier::external_body]
pub struct ExHeaderValue(HeaderValue);

/// What a header table holds: for each header name, in lower case, the
/// first value stored under it, read as UTF-8 text.
pub uninterp spec fn header_entries(table: HeaderMap) -> Map<Seq<char>, Seq<char>>;

/// The greatest number of header names up to which the library sets
/// headers. The table itself gives out far later: see `try_set`.
pub const MAX_HEADER_NAMES: usize = 4096;

/// A character that a header name may hold.
pub open spec fn is_name_char(c: char) -> bool {
    ||| 'a' <= c <= 'z'
    ||| 'A' <= c <= 'Z'
    ||| '0' <= c <= '9'
    ||| c == '!' || c == '"' || c == '#' || c == '$' || c == '%' || c == '&' || c == '\''
    ||| c == '*' || c == '+' || c == '-' || c == '.' || c == '^' || c == '_' || c == '`'
    ||| c == '|' || c == '~'
}

/// A text that the table takes as a header name.
pub open spec fn is_header_name(s: Seq<char>) -> bool {
    &&& 1 <= s.len() <= 65535
    &&& forall|i: int| 0 <= i < s.len() ==> is_name_char(#[trigger] s[i])
}

/// A character that a header value may hold.
pub open spec fn is_value_char(c: char) -> bool {
    c == '\t' || (' ' <= c && c != '\x7f')
}

/// A text that the table takes as a header value.
pub open spec fn is_header_value(s: Seq<char>) -> bool {
    forall|i: int| 0 <= i < s.len() ==> is_value_char(#[trigger] s[i])
}

/// An upper-case ASCII letter as its lower-case letter, any other character
/// unchanged.
pub open spec fn lower(c: char) -> char {
    if 'A' <= c <= 'Z' {
        ((c as u8) + 32) as u8 as char
    } else {
        c
    }
}

/// The key under which the table files a header name: the name in lower
/// case.
pub open spec fn header_key(name: Seq<char>) -> Seq<char> {
    Seq::new(name.len(), |i: int| lower(name[i]))
}

/// Whether a table with these entries holds `count` names.
pub open spec fn holds_names(entries: Map<Seq<char>, Seq<char>>, count: nat) -> bool {
    entries.dom().finite() && entries.dom().len() == count
}

/// Whether a table with these entries has room for `more` further names.
pub open spec fn names_fit(entries: Map<Seq<char>, Seq<char>>, more: nat) -> bool {
    entries.dom().finite() && entries.dom().len() + more <= MAX_HEADER_NAMES
}

/// `HeaderMap::new` of the transport crate: a table without entries.
pub assume_specification[ HeaderMap::<HeaderValue>::new ]() -> (table: HeaderMap)
    ensures
        header_entries(table) =~= Map::empty(),
;

/// `HeaderMap::keys_len` of the transport crate: the number of names in
/// the table, of which there are finitely many.
#[verifier::external_body]
pub(crate) fn count_names(table: &HeaderMap) -> (count: usize)
    ensures
        holds_names(header_entries(*table), count as nat),
{
    table.keys_len()
}

/// Why the table did not take a header.
pub(crate) enum Refusal {
    Name,
    Value,
    Full,
}

/// `HeaderName::from_bytes`, `HeaderValue::from_str` and
/// `HeaderMap::try_insert` of the transport crate, in this order: stores
/// `value` under `name` in place of whatever the table held under that name.
///
/// The name is refused unless it has 1 to 65535 characters, each of them one
/// that the crate's table of header characters maps to itself or to its
/// lower-case letter; it is filed in lower case. The value is refused if one
/// of its characters is an ASCII control character other than the tab. The
/// table refuses an entry only where it would have to grow beyond 32768
/// slots, which it does at a load of one fifth at the earliest: with at most
/// `MAX_HEADER_NAMES` names after the call it never does. A refusal leaves
/// the entries as they were.
#[verifier::external_body]
pub(crate) fn try_set(table: &mut HeaderMap, name: &str, value: &str) -> (outcome: Result<
    (),
    Refusal,
>)
    ensures
        outcome is Ok ==> header_entries(*final(table)) == header_entries(*old(table)).insert(
            header_key(name@),
            value@,
        ),
        outcome is Err ==> header_entries(*final(table)) == header_entries(*old(table)),
        (outcome matches Err(Refusal::Name)) <==> !is_header_name(name@),
        (outcome matches Err(Refusal::Value)) <==> (is_header_name(name@) && !is_header_value(
            value@,
        )),
        (outcome matches Err(Refusal::Full)) ==> !names_fit(header_entries(*old(table)), 1),
{
    let name = match HeaderName::from_bytes(name.as_bytes()) {
        Ok(name) => name,
        Err(_) => return Err(Refusal::Name),
    };
    let value = match HeaderValue::from_str(value) {
        Ok(value) => value,
        Err(_) => return Err(Refusal::Value),
    };
    match table.try_insert(name, value) {
        Ok(_) => Ok(()),
        Err(_) => Err(Refusal::Full),
    }
}

/// `Clone::clone` on the transport crate's `HeaderMap`: a table with the
/// same entries.
#[verifier::external_body]
pub(crate) fn copy_headers(table: &HeaderMap) -> (copy: HeaderMap)
    ensures
        header_entries(copy) == header_entries(*table),
{
    table.clone()
}

/// Whether the table has room for `more` further names.
pub fn has_room(table: &HeaderMap, more: usize) -> (room: bool)
    ensures
        room == names_fit(header_entries(*table), more as nat),
{
    let count = count_names(table);
    more <= MAX_HEADER_NAMES && count <= MAX_HEADER_NAMES - more
}

/// The error for a header that the table does not take: the name is looked
/// at first.
pub open spec fn header_fault(name: Seq<char>, value: Seq<char>) -> Option<RequestError> {
    if !is_header_name(name) {
        Some(RequestError::InvalidHeaderName)
    } else if !is_header_value(value) {
        Some(RequestError::InvalidHeaderValue)
    } else {
        None
    }
}

/// Stores `value` under `name`, in place of whatever the table held under
/// that name. A name or a value that is no header text is refused, and the
/// table stays as it was.
pub fn set_header(table: &mut HeaderMap, name: &str, value: &str) -> (done: Result<
    (),
    RequestError,
>)
    requires
        names_fit(header_entries(*old(table)), 1),
    ensures
        match done {
            Ok(_) => {
                &&& header_fault(name@, value@) is None
                &&& header_entries(*final(table)) == header_entries(*old(table)).insert(
                    header_key(name@),
                    value@,
                )
            },
            Err(e) => {
                &&& header_fault(name@, value@) == Some(e)
                &&& header_entries(*final(table)) == header_entries(*old(table))
            },
        },
{
    match try_set(table, name, value) {
        Ok(_) => Ok(()),
        Err(Refusal::Name) => Err(RequestError::InvalidHeaderName),
        Err(Refusal::Value) => Err(RequestError::InvalidHeaderValue),
        Err(Refusal::Full) => {
            proof {
                assert(false);
            }
            Err(RequestError::InvalidArgument)
        },
    }
}

/// Stores a header whose name and value are known to be header texts.
pub(crate) fn put_header(table: &mut HeaderMap, name: &str, value: &str)
    requires
        names_fit(header_entries(*old(table)), 1),
        is_header_name(name@),
        is_header_value(value@),
    ensures
        header_entries(*final(table)) == header_entries(*old(table)).insert(
            header_key(name@),
            value@,
        ),
{
    let done = set_header(table, name, value);
    assert(done is Ok);
}

/// Storing a header adds at most one name to the table.
pub proof fn lemma_insert_fits(
    entries: Map<Seq<char>, Seq<char>>,
    key: Seq<char>,
    value: Seq<char>,
    more: nat,
)
    requires
        names_fit(entries, more + 1),
    ensures
        names_fit(entries.insert(key, value), more),
{
    assert(entries.insert(key, value).dom() =~= entries.dom().insert(key));
}

} // verus!
