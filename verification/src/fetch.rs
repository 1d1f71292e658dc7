//! The upstream-fetch step, short of the network itself: planning the
//! outbound request from the inbound one, and classifying what came back.
//! The serving layer performs the planned call and hands the outcome in as
//! a plain value, so everything here is checked for every possible outcome.

use vstd::prelude::*;
use vstd::utf8::decode_utf8;
use vstd::utf8::valid_utf8;
use crate::config::PathConfig;
use crate::response::Header;
use crate::response::headers_view;

verus! {

/// Which fetch variant a server instance runs.
///
/// In fetch mode the gateway always issues a bare `GET` to the configured
/// upstream URL and fails hard on any non-success upstream status. In
/// forward mode it mirrors the inbound method, headers and body onto the
/// upstream request and runs the filter whatever the upstream status was.
#[derive(Clone, Copy, Debug, PartialEq, Eq, Structural)]
pub enum FetchMode {
    Fetch,
    Forward,
}

/// The inbound request, as far as the gateway reads it: its method, its
/// headers and its body. The path travels separately, to the route lookup.
pub struct InboundRequest {
    pub method: String,
    pub headers: Vec<Header>,
    pub body: Vec<u8>,
}

/// The one outbound call a request is answered from: method, URL, headers
/// and an optional body.
pub struct OutboundRequest {
    pub method: String,
    pub url: String,
    pub headers: Vec<Header>,
    pub body: Option<Vec<u8>>,
}

/// What the one outbound call came to: either the upstream's raw response,
/// or a transport-level failure described by the carried text.
pub enum FetchOutcome {
    Response(UpstreamResponse),
    TransportFailure(String),
}

/// The upstream's raw response: status, headers and body, untouched.
pub struct UpstreamResponse {
    pub status: u16,
    pub headers: Vec<Header>,
    pub body: Vec<u8>,
}

/// A status is a success exactly when it lies in the `2xx` class.
pub open spec fn is_success_status(status: u16) -> bool {
    200 <= status < 300
}

/// Copies a byte vector.
fn copy_bytes(v: &Vec<u8>) -> (r: Vec<u8>)
    ensures
        r@ == v@,
{
    let mut out: Vec<u8> = Vec::new();
    let n = v.len();
    let mut k: usize = 0;
    while k < n
        invariant
            n == v@.len(),
            k <= n,
            out@ =~= v@.take(k as int),
        decreases n - k,
    {
        out.push(v[k]);
        k += 1;
    }
    proof {
        assert(v@.take(n as int) =~= v@);
    }
    out
}

/// Copies a header list.
fn copy_headers(v: &Vec<Header>) -> (r: Vec<Header>)
    ensures
        headers_view(r@) =~= headers_view(v@),
{
    let mut out: Vec<Header> = Vec::new();
    let n = v.len();
    let mut k: usize = 0;
    while k < n
        invariant
            n == v@.len(),
            k <= n,
            out@.len() == k,
            forall|i: int| 0 <= i < k ==> out@[i]@ == v@[i]@,
        decreases n - k,
    {
        let h = &v[k];
        out.push(Header { name: h.name.clone(), value: h.value.clone() });
        k += 1;
    }
    out
}

/// Plans the one outbound call for a request. In fetch mode the inbound
/// request is ignored entirely: a bare `GET` to the configured URL, no
/// headers, no body. In forward mode the inbound method and all inbound
/// headers are mirrored, and the inbound body travels along exactly when it
/// is non-empty.
pub fn plan_request(mode: FetchMode, target: &PathConfig, inbound: &InboundRequest) -> (r:
    OutboundRequest)
    ensures
        r.url@ == target.source_url@,
        mode == FetchMode::Fetch ==> {
            &&& r.method@ == "GET"@
            &&& r.headers@.len() == 0
            &&& r.body is None
        },
        mode == FetchMode::Forward ==> {
            &&& r.method@ == inbound.method@
            &&& headers_view(r.headers@) =~= headers_view(inbound.headers@)
            &&& (inbound.body@.len() == 0 <==> r.body is None)
            &&& (r.body matches Some(b) ==> b@ == inbound.body@)
        },
{
    match mode {
        FetchMode::Fetch => OutboundRequest {
            method: "GET".to_owned(),
            url: target.source_url.clone(),
            headers: Vec::new(),
            body: None,
        },
        FetchMode::Forward => OutboundRequest {
            method: inbound.method.clone(),
            url: target.source_url.clone(),
            headers: copy_headers(&inbound.headers),
            body: if inbound.body.len() == 0 {
                None
            } else {
                Some(copy_bytes(&inbound.body))
            },
        },
    }
}

/// Relies on String::from_utf8: it succeeds exactly on valid UTF-8 input,
/// and then the string holds that input decoded. Bodies that fail here are
/// treated as fetch failures.
#[verifier::external_body]
pub(crate) fn utf8_to_string(bytes: Vec<u8>) -> (r: Option<String>)
    ensures
        r is Some <==> valid_utf8(bytes@),
        r matches Some(s) ==> s@ == decode_utf8(bytes@),
{
    String::from_utf8(bytes).ok()
}

} // verus!
