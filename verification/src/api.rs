//! Errors of the HTTP handlers and the validation of path and body
//! parameters before calling a service.

use crate::ids::{parse_uuid, uuid_parsed};
use crate::text::to_owned_string;
use vstd::prelude::*;

verus! {

/// HTTP status "Bad Request".
pub open spec fn bad_request() -> u16 {
    400
}

/// HTTP status "Not Found".
pub open spec fn not_found() -> u16 {
    404
}

/// HTTP status "Internal Server Error".
pub open spec fn internal_error() -> u16 {
    500
}

/// An error answered by an HTTP handler: a status code and its text.
#[derive(Clone, Debug)]
pub struct ApiError {
    pub status: u16,
    pub message: String,
}

impl ApiError {
    /// A "Bad Request" error with a message.
    pub fn bad_request(message: &str) -> (e: ApiError)
        ensures
            e.status == bad_request(),
            e.message@ == message@,
    {
        ApiError { status: 400, message: to_owned_string(message) }
    }

    /// A "Not Found" error with a message.
    pub fn not_found(message: &str) -> (e: ApiError)
        ensures
            e.status == not_found(),
            e.message@ == message@,
    {
        ApiError { status: 404, message: to_owned_string(message) }
    }

    /// An "Internal Server Error" carrying a failure's text.
    pub fn internal(message: String) -> (e: ApiError)
        ensures
            e.status == internal_error(),
            e.message == message,
    {
        ApiError { status: 500, message }
    }
}

/// Parses an ID given in a path or body; a text that is no UUID is a
/// "Bad Request" with the given message (such as "Invalid world ID").
pub fn parse_id(text: &str, message: &str) -> (r: Result<u128, ApiError>)
    ensures
        match uuid_parsed(text@) {
            Some(v) => r == Ok::<u128, ApiError>(v),
            None => r matches Err(e) && e.status == bad_request() && e.message@ == message@,
        },
{
    match parse_uuid(text) {
        Some(v) => Ok(v),
        None => Err(ApiError::bad_request(message)),
    }
}

/// Parses an optional ID; an absent one is no error.
pub fn parse_optional_id(text: &Option<String>, message: &str) -> (r: Result<Option<u128>, ApiError>)
    ensures
        match text {
            None => r == Ok::<Option<u128>, ApiError>(None),
            Some(t) => match uuid_parsed(t@) {
                Some(v) => r == Ok::<Option<u128>, ApiError>(Some(v)),
                None => r matches Err(e) && e.status == bad_request() && e.message@ == message@,
            },
        },
{
    match text {
        None => Ok(None),
        Some(t) => match parse_id(t.as_str(), message) {
            Ok(v) => Ok(Some(v)),
            Err(e) => Err(e),
        },
    }
}


/// HTTP status "Conflict".
pub open spec fn conflict() -> u16 {
    409
}

/// HTTP status "Forbidden".
pub open spec fn forbidden() -> u16 {
    403
}

/// `n` occurs in `h` as a run of consecutive characters.
pub open spec fn has_infix(h: Seq<char>, n: Seq<char>) -> bool {
    exists|i: int| 0 <= i && i + n.len() <= h.len() && #[trigger] h.subrange(i, i + n.len()) == n
}

fn infix_at(h: &str, n: &str, i: usize) -> (r: bool)
    requires
        i + n@.len() <= h@.len(),
    ensures
        r == (h@.subrange(i as int, i + n@.len()) == n@),
{
    let m = n.unicode_len();
    let hl = h.unicode_len();
    let mut k: usize = 0;
    while k < m
        invariant
            m == n@.len(),
            hl == h@.len(),
            i + m <= h@.len(),
            k <= m,
            forall|j: int| 0 <= j < k ==> h@[i + j] == n@[j],
        decreases m - k,
    {
        if h.get_char(i + k) != n.get_char(k) {
            assert(h@.subrange(i as int, i + m)[k as int] != n@[k as int]);
            return false;
        }
        k = k + 1;
    }
    assert(h@.subrange(i as int, i + m) =~= n@);
    true
}

/// Whether `n` occurs in `h` (what `str::contains` decides for a text).
pub fn contains_text(h: &str, n: &str) -> (r: bool)
    ensures
        r == has_infix(h@, n@),
{
    let hl = h.unicode_len();
    let nl = n.unicode_len();
    if nl > hl {
        return false;
    }
    let last = hl - nl;
    let mut i: usize = 0;
    loop
        invariant
            hl == h@.len(),
            nl == n@.len(),
            nl <= hl,
            last == hl - nl,
            i <= last,
            forall|j: int| 0 <= j < i ==> #[trigger] h@.subrange(j, j + nl) != n@,
        decreases last - i,
    {
        if infix_at(h, n, i) {
            return true;
        }
        if i == last {
            proof {
                assert forall|j: int| 0 <= j && j + n@.len() <= h@.len() implies #[trigger] h@.subrange(j, j + n@.len()) != n@ by {
                    assert(j <= i);
                }
            }
            return false;
        }
        i = i + 1;
    }
}

/// How a service's failure answers: "Not Found" (with the given message)
/// when the failure's text says "not found", else "Internal Server Error"
/// with the failure's text.
pub fn service_error(failure: String, not_found_message: &str) -> (e: ApiError)
    ensures
        has_infix(failure@, "not found"@) ==> e.status == not_found() && e.message@
            == not_found_message@,
        !has_infix(failure@, "not found"@) ==> e.status == internal_error() && e.message
            == failure,
{
    if contains_text(failure.as_str(), "not found") {
        ApiError::not_found(not_found_message)
    } else {
        ApiError::internal(failure)
    }
}

/// How a failed location deletion answers: "Not Found" ("Location not
/// found"), "Conflict" when the location still has child locations, else
/// "Internal Server Error"; the last two carry the failure's text.
pub fn location_delete_error(failure: String) -> (e: ApiError)
    ensures
        has_infix(failure@, "not found"@) ==> e.status == not_found() && e.message@
            == "Location not found"@,
        !has_infix(failure@, "not found"@) && has_infix(failure@, "child locations"@) ==> e.status
            == conflict() && e.message == failure,
        !has_infix(failure@, "not found"@) && !has_infix(failure@, "child locations"@) ==> e.status
            == internal_error() && e.message == failure,
{
    if contains_text(failure.as_str(), "not found") {
        ApiError::not_found("Location not found")
    } else if contains_text(failure.as_str(), "child locations") {
        ApiError { status: 409, message: failure }
    } else {
        ApiError::internal(failure)
    }
}

/// How a failed connection between locations answers: "Not Found", "Bad
/// Request" for locations of different worlds or a location joined to
/// itself, else "Internal Server Error"; each carries the failure's text.
pub fn connection_error(failure: String) -> (e: ApiError)
    ensures
        e.message == failure,
        has_infix(failure@, "not found"@) ==> e.status == not_found(),
        !has_infix(failure@, "not found"@) && (has_infix(failure@, "different worlds"@)
            || has_infix(failure@, "itself"@)) ==> e.status == bad_request(),
        !has_infix(failure@, "not found"@) && !has_infix(failure@, "different worlds"@)
            && !has_infix(failure@, "itself"@) ==> e.status == internal_error(),
{
    if contains_text(failure.as_str(), "not found") {
        ApiError { status: 404, message: failure }
    } else if contains_text(failure.as_str(), "different worlds") || contains_text(
        failure.as_str(),
        "itself",
    ) {
        ApiError { status: 400, message: failure }
    } else {
        ApiError::internal(failure)
    }
}

} // verus!
