//! The redirect responder: where a plaintext request is sent instead.
//!
//! The target is the request's own address with the scheme forced to HTTPS
//! and the authority taken from the `Host` header. Path and query are kept
//! byte for byte.

use vstd::prelude::*;
use crate::classifier::{ascii, borrowed, shown};
use crate::http_model::{
    authority_accepts, header_bytes, header_lookup, is_authority, path_bytes, query_bytes,
    uri_path, uri_query,
};

verus! {

/// Why no redirect target could be built. Each is the client's fault.
#[derive(Clone, Copy, Debug, PartialEq, Eq, Structural)]
pub enum RedirectError {
    /// The request carries no `Host` header.
    MissingHost,
    /// The `Host` header is not the authority part of an address.
    InvalidHost,
    /// The request's address has no path, so no absolute address comes of it.
    MalformedUrl,
}

/// A byte of visible ASCII: a printable character, a space or a tab.
pub open spec fn is_visible(byte: u8) -> bool {
    32 <= byte < 127 || byte == 9
}

/// A byte string of visible ASCII only.
pub open spec fn is_text(bytes: Seq<u8>) -> bool {
    forall|i: int| 0 <= i < bytes.len() ==> is_visible(#[trigger] bytes[i])
}

/// A `Host` value that can stand as the authority of the target: text that
/// the `http` crate accepts as an authority.
pub open spec fn is_host(host: Seq<u8>) -> bool {
    is_text(host) && authority_accepts(host)
}

/// The target address: `https://`, the host, the path, and `?` with the
/// query where there is one.
pub open spec fn location_of(host: Seq<u8>, path: Seq<u8>, query: Option<Seq<u8>>) -> Seq<u8> {
    ascii("https://"@) + host + path + match query {
        Some(q) => seq![63u8] + q,
        None => Seq::<u8>::empty(),
    }
}

/// The redirect for a request with this `Host` value, path and query, where
/// `host_accepted` tells whether the host can stand as an authority.
///
/// The host is looked at first, then its validity, then the path.
pub open spec fn redirect_of(
    host: Option<Seq<u8>>,
    host_accepted: bool,
    path: Seq<u8>,
    query: Option<Seq<u8>>,
) -> Result<Seq<u8>, RedirectError> {
    match host {
        None => Err(RedirectError::MissingHost),
        Some(h) => if !host_accepted {
            Err(RedirectError::InvalidHost)
        } else if path.len() == 0 {
            Err(RedirectError::MalformedUrl)
        } else {
            Ok(location_of(h, path, query))
        },
    }
}

/// The redirect for a request with these headers and this address.
pub open spec fn redirect_for(headers: http::HeaderMap<http::HeaderValue>, uri: http::Uri) -> Result<
    Seq<u8>,
    RedirectError,
> {
    let host = header_lookup(headers, "host"@);
    redirect_of(host, host matches Some(h) && is_host(h), uri_path(uri), uri_query(uri))
}

/// The bytes of a redirect's target, or the error in its place.
pub open spec fn target_of(result: Result<Vec<u8>, RedirectError>) -> Result<Seq<u8>, RedirectError> {
    match result {
        Ok(location) => Ok(location@),
        Err(error) => Err(error),
    }
}

/// Every target has the scheme `https` and keeps host, path and query byte
/// for byte: it begins with `https://`, the host follows, then the path, and
/// then either nothing or `?` and the query.
pub proof fn lemma_location_keeps_parts(host: Seq<u8>, path: Seq<u8>, query: Option<Seq<u8>>)
    ensures
        ({
            let location = location_of(host, path, query);
            let h: int = host.len() as int + 8;
            let p: int = h + path.len();
            &&& location.len() >= p
            &&& location.subrange(0, 8) == ascii("https://"@)
            &&& location.subrange(8, h) == host
            &&& location.subrange(h, p) == path
            &&& match query {
                Some(q) => location.subrange(p, location.len() as int) == seq![63u8] + q,
                None => location.len() == p,
            }
        }),
{
    reveal_strlit("https://");
}

/// Whether every byte is visible ASCII.
pub fn is_visible_ascii(bytes: &[u8]) -> (visible: bool)
    ensures
        visible == is_text(bytes@),
{
    let mut i: usize = 0;
    while i < bytes.len()
        invariant
            i <= bytes@.len(),
            forall|k: int| 0 <= k < i ==> is_visible(#[trigger] bytes@[k]),
        decreases bytes@.len() - i,
    {
        let byte: u8 = bytes[i];
        if !(byte >= 32 && byte < 127 || byte == 9) {
            return false;
        }
        i += 1;
    }
    true
}

/// Appends `more` to `out`.
fn append(out: &mut Vec<u8>, more: &[u8])
    ensures
        final(out)@ == old(out)@ + more@,
{
    let mut i: usize = 0;
    while i < more.len()
        invariant
            i <= more@.len(),
            out@ == old(out)@ + more@.subrange(0, i as int),
        decreases more@.len() - i,
    {
        out.push(more[i]);
        i += 1;
    }
}

/// Writes the target address out: scheme `https`, then host, path and query
/// as they are.
pub fn assemble(host: &[u8], path: &[u8], query: Option<&[u8]>) -> (location: Vec<u8>)
    ensures
        location@ == location_of(host@, path@, shown(query)),
{
    let mut location: Vec<u8> = Vec::new();
    proof {
        reveal_strlit("https://");
        crate::classifier::lemma_ascii_bytes("https://");
    }
    append(&mut location, "https://".as_bytes());
    append(&mut location, host);
    append(&mut location, path);
    if let Some(q) = query {
        location.push(63u8);
        append(&mut location, q);
    }
    location
}

/// Builds the redirect once the host has been judged.
///
/// `host_accepted` is the verdict on the `Host` value; it is not looked at
/// where there is no host.
pub fn redirect_with(
    host: Option<&[u8]>,
    host_accepted: bool,
    path: &[u8],
    query: Option<&[u8]>,
) -> (result: Result<Vec<u8>, RedirectError>)
    ensures
        target_of(result) == redirect_of(shown(host), host_accepted, path@, shown(query)),
        shown(host) is None ==> result == Err::<Vec<u8>, RedirectError>(RedirectError::MissingHost),
{
    match host {
        None => Err(RedirectError::MissingHost),
        Some(h) => {
            if !host_accepted {
                Err(RedirectError::InvalidHost)
            } else if path.len() == 0 {
                Err(RedirectError::MalformedUrl)
            } else {
                Ok(assemble(h, path, query))
            }
        },
    }
}

/// Judges the `Host` value: present, visible ASCII, and accepted as an
/// authority.
pub fn accepts_host(host: Option<&[u8]>) -> (accepted: bool)
    ensures
        accepted == (shown(host) matches Some(h) && is_host(h)),
{
    match host {
        Some(h) => is_visible_ascii(h) && is_authority(h),
        None => false,
    }
}

/// Builds the redirect for a request with this `Host` value, path and query.
///
/// Fails with `MissingHost` where there is no host, with `InvalidHost` where
/// the host is not an authority, with `MalformedUrl` where the path is empty;
/// otherwise the target is `https://<host><path>[?<query>]`.
pub fn redirect_location(host: Option<&[u8]>, path: &[u8], query: Option<&[u8]>) -> (result: Result<
    Vec<u8>,
    RedirectError,
>)
    ensures
        target_of(result) == redirect_of(
            shown(host),
            shown(host) matches Some(h) && is_host(h),
            path@,
            shown(query),
        ),
        shown(host) is None ==> result == Err::<Vec<u8>, RedirectError>(RedirectError::MissingHost),
{
    let accepted = accepts_host(host);
    redirect_with(host, accepted, path, query)
}

/// Builds the redirect for a request with these headers and this address.
pub fn redirect(headers: &http::HeaderMap<http::HeaderValue>, uri: &http::Uri) -> (result: Result<
    Vec<u8>,
    RedirectError,
>)
    ensures
        target_of(result) == redirect_for(*headers, *uri),
        header_lookup(*headers, "host"@) is None ==> result == Err::<Vec<u8>, RedirectError>(
            RedirectError::MissingHost,
        ),
{
    let host = header_bytes(headers, "host");
    let path = path_bytes(uri);
    let query = query_bytes(uri);
    redirect_location(borrowed(&host), path.as_slice(), borrowed(&query))
}

} // verus!
