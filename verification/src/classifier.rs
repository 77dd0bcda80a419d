//! The classifier: which of the three branches answers a request.
//!
//! The decision reads two headers and nothing else. A request that a
//! TLS-terminating proxy marks as having arrived in plaintext is always
//! redirected, whatever it carries: an RPC call sent in the clear must never
//! be served, so the proxy's marker is tested before the content type.

use vstd::prelude::*;
use vstd::string::StringSliceAdditionalSpecFns;
use crate::http_model::{header_bytes, header_lookup};

verus! {

/// The service that handles a request.
#[derive(Clone, Copy, Debug, PartialEq, Eq, Structural)]
pub enum Branch {
    /// Static assets, WebSocket upgrades and everything else.
    Web,
    /// Calls from command-line clients.
    Rpc,
    /// Plaintext behind a proxy: answered with a redirect to HTTPS.
    Redirect,
}

/// The bytes of a text of ASCII characters.
pub open spec fn ascii(text: Seq<char>) -> Seq<u8> {
    Seq::new(text.len(), |i: int| text[i] as u8)
}

/// The bytes that an optional slice holds.
pub open spec fn shown(value: Option<&[u8]>) -> Option<Seq<u8>> {
    match value {
        Some(bytes) => Some(bytes@),
        None => None,
    }
}

/// The proxy's marker for plaintext: the forwarded protocol is exactly `http`.
pub open spec fn marks_plaintext(forwarded_proto: Option<Seq<u8>>) -> bool {
    forwarded_proto == Some(ascii("http"@))
}

/// The content type of an RPC call: exactly `application/grpc`.
pub open spec fn marks_rpc(content_type: Option<Seq<u8>>) -> bool {
    content_type == Some(ascii("application/grpc"@))
}

/// The branch for a request with these two header values.
pub open spec fn branch_of(forwarded_proto: Option<Seq<u8>>, content_type: Option<Seq<u8>>) -> Branch {
    if marks_plaintext(forwarded_proto) {
        Branch::Redirect
    } else if marks_rpc(content_type) {
        Branch::Rpc
    } else {
        Branch::Web
    }
}

/// The branch for a request with these headers.
pub open spec fn branch_for(headers: http::HeaderMap<http::HeaderValue>) -> Branch {
    branch_of(
        header_lookup(headers, "x-forwarded-proto"@),
        header_lookup(headers, "content-type"@),
    )
}

impl Branch {
    /// The position of the branch's service in the list
    /// `[web, rpc, redirect]`.
    pub open spec fn position(self) -> nat {
        match self {
            Branch::Web => 0,
            Branch::Rpc => 1,
            Branch::Redirect => 2,
        }
    }

    /// The position of the branch's service in the list
    /// `[web, rpc, redirect]`, for a router that steers by index.
    pub fn index(self) -> (i: usize)
        ensures
            i == self.position(),
    {
        match self {
            Branch::Web => 0,
            Branch::Rpc => 1,
            Branch::Redirect => 2,
        }
    }
}

/// Whether two byte strings are the same.
fn same_bytes(left: &[u8], right: &[u8]) -> (same: bool)
    ensures
        same == (left@ == right@),
{
    if left.len() != right.len() {
        return false;
    }
    let mut i: usize = 0;
    while i < left.len()
        invariant
            left@.len() == right@.len(),
            i <= left@.len(),
            forall|k: int| 0 <= k < i ==> left@[k] == right@[k],
        decreases left@.len() - i,
    {
        if left[i] != right[i] {
            return false;
        }
        i += 1;
    }
    assert(left@ =~= right@);
    true
}

/// The bytes of an ASCII string literal are its characters, one byte each.
pub proof fn lemma_ascii_bytes(text: &str)
    requires
        vstd::string::is_ascii(text),
    ensures
        text.spec_bytes() == ascii(text@),
{
    vstd::utf8::is_ascii_chars_encode_utf8(text@);
}

/// Whether the value is present and is exactly the bytes of `literal`.
fn is_exactly(value: Option<&[u8]>, literal: &str) -> (same: bool)
    requires
        vstd::string::is_ascii(literal),
    ensures
        same == (shown(value) == Some(ascii(literal@))),
{
    proof {
        lemma_ascii_bytes(literal);
    }
    match value {
        Some(bytes) => same_bytes(bytes, literal.as_bytes()),
        None => false,
    }
}

/// Selects the branch from the two header values that decide it.
///
/// First match wins: a forwarded protocol of exactly `http` selects the
/// redirect, whatever the content type; otherwise a content type of exactly
/// `application/grpc` selects the RPC service; otherwise the web service.
pub fn select(forwarded_proto: Option<&[u8]>, content_type: Option<&[u8]>) -> (branch: Branch)
    ensures
        branch == branch_of(shown(forwarded_proto), shown(content_type)),
        marks_plaintext(shown(forwarded_proto)) ==> branch == Branch::Redirect,
        !marks_plaintext(shown(forwarded_proto)) && marks_rpc(shown(content_type)) ==> branch
            == Branch::Rpc,
        !marks_plaintext(shown(forwarded_proto)) && !marks_rpc(shown(content_type)) ==> branch
            == Branch::Web,
{
    proof {
        reveal_strlit("http");
        reveal_strlit("application/grpc");
    }
    if is_exactly(forwarded_proto, "http") {
        Branch::Redirect
    } else if is_exactly(content_type, "application/grpc") {
        Branch::Rpc
    } else {
        Branch::Web
    }
}

/// Borrows the bytes of an optional vector.
pub(crate) fn borrowed(value: &Option<Vec<u8>>) -> (bytes: Option<&[u8]>)
    ensures
        shown(bytes) == crate::http_model::held(*value),
{
    match value {
        Some(owned) => Some(owned.as_slice()),
        None => None,
    }
}

/// Classifies a request by its headers.
///
/// Reads `x-forwarded-proto` and `content-type` and selects as [`select`]
/// does; no other header, and nothing else of the request, has a say.
pub fn classify(headers: &http::HeaderMap<http::HeaderValue>) -> (branch: Branch)
    ensures
        branch == branch_for(*headers),
        marks_plaintext(header_lookup(*headers, "x-forwarded-proto"@)) ==> branch
            == Branch::Redirect,
        !marks_plaintext(header_lookup(*headers, "x-forwarded-proto"@)) && marks_rpc(
            header_lookup(*headers, "content-type"@),
        ) ==> branch == Branch::Rpc,
        !marks_plaintext(header_lookup(*headers, "x-forwarded-proto"@)) && !marks_rpc(
            header_lookup(*headers, "content-type"@),
        ) ==> branch == Branch::Web,
{
    let forwarded_proto = header_bytes(headers, "x-forwarded-proto");
    let content_type = header_bytes(headers, "content-type");
    select(borrowed(&forwarded_proto), borrowed(&content_type))
}

} // verus!
