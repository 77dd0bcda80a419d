//! The `http` crate as this library sees it.
//!
//! Nothing in this file is proved. The types are carried around as opaque
//! values; each function below makes one call into `http` and its contract
//! gives the result of that call a name, so that the verified code around it
//! can say exactly what it does with the result.

use vstd::prelude::*;

verus! {

/// `http::HeaderMap`, an opaque value to the verifier.
#[verifier::external_type_specification]
#[verifier::external_body]
#[verifier::reject_recursive_types(T)]
pub struct ExHeaderMap<T>(http::HeaderMap<T>);

/// `http::HeaderValue`, an opaque value to the verifier.
#[verifier::external_type_specification]
#[verifier::external_body]
pub struct ExHeaderValue(http::HeaderValue);

/// `http::Uri`, an opaque value to the verifier.
#[verifier::external_type_specification]
#[verifier::external_body]
pub struct ExUri(http::Uri);

/// The bytes that an optional byte vector holds.
pub open spec fn held(value: Option<Vec<u8>>) -> Option<Seq<u8>> {
    match value {
        Some(bytes) => Some(bytes@),
        None => None,
    }
}

/// The bytes of the value that `HeaderMap::get` finds under `name`: the first
/// value stored for that header, whatever the case of the letters in `name`;
/// `None` where the map holds no such header.
pub uninterp spec fn header_lookup(
    headers: http::HeaderMap<http::HeaderValue>,
    name: Seq<char>,
) -> Option<Seq<u8>>;

/// The bytes of what `Uri::path` returns: the path of the address, `/` for an
/// address with a scheme and an empty path, and nothing for an address that
/// has no path at all.
pub uninterp spec fn uri_path(uri: http::Uri) -> Seq<u8>;

/// The bytes of what `Uri::query` returns: what follows the first `?`, if
/// there is one.
pub uninterp spec fn uri_query(uri: http::Uri) -> Option<Seq<u8>>;

/// Whether `Authority::try_from` accepts `bytes` as the authority part of an
/// address (`host`, `host:port`, `[v6]:port`, with optional user information).
pub uninterp spec fn authority_accepts(bytes: Seq<u8>) -> bool;

/// Looks a header up with `HeaderMap::get` and copies the bytes of the value
/// found (`HeaderValue::as_bytes`).
///
/// Trusted: the result is what `header_lookup` names for this map and name.
#[verifier::external_body]
pub(crate) fn header_bytes(headers: &http::HeaderMap<http::HeaderValue>, name: &str) -> (value:
    Option<Vec<u8>>)
    ensures
        held(value) == header_lookup(*headers, name@),
{
    headers.get(name).map(|found| found.as_bytes().to_vec())
}

/// Copies the bytes of `Uri::path`.
///
/// Trusted: the result is what `uri_path` names for this address.
#[verifier::external_body]
pub(crate) fn path_bytes(uri: &http::Uri) -> (path: Vec<u8>)
    ensures
        path@ == uri_path(*uri),
{
    uri.path().as_bytes().to_vec()
}

/// Copies the bytes of `Uri::query`.
///
/// Trusted: the result is what `uri_query` names for this address.
#[verifier::external_body]
pub(crate) fn query_bytes(uri: &http::Uri) -> (query: Option<Vec<u8>>)
    ensures
        held(query) == uri_query(*uri),
{
    uri.query().map(|found| found.as_bytes().to_vec())
}

/// Asks `Authority::try_from` whether it accepts the bytes; the parsed value
/// is dropped, since an accepted authority is stored as the bytes given.
///
/// Trusted: the answer is what `authority_accepts` names for these bytes.
#[verifier::external_body]
pub(crate) fn is_authority(bytes: &[u8]) -> (accepted: bool)
    ensures
        accepted == authority_accepts(bytes@),
{
    http::uri::Authority::try_from(bytes).is_ok()
}

} // verus!
