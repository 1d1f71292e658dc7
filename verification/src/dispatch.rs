//! The dispatcher: the request lifecycle as the decisions around the two
//! outside steps, the one outbound HTTP call and the filter evaluation.
//! `plan` takes a received request to either a planned upstream call or an
//! immediate `404`; `accept_upstream` takes the outcome of that call
//! through the status gate and the body decode to either the text the
//! filter is to run over or an immediate failure response; `finish` takes
//! the filter's outcome to the final response. Every path out of every
//! step is a single response; no failure escapes as a crash.
//!
//! Status policy: route miss `404`; transport failure and undecodable body
//! `502`; a non-success upstream status in fetch mode is passed through as
//! it came; a transform failure `500`; success `200`.

use vstd::prelude::*;
use vstd::string::StringExecFns;
use vstd::utf8::decode_utf8;
use vstd::utf8::valid_utf8;
use crate::config::PathConfig;
use crate::fetch::FetchMode;
use crate::fetch::FetchOutcome;
use crate::fetch::InboundRequest;
use crate::fetch::OutboundRequest;
use crate::fetch::UpstreamResponse;
use crate::fetch::is_success_status;
use crate::fetch::plan_request;
use crate::fetch::utf8_to_string;
use crate::response::GatewayResponse;
use crate::response::Header;
use crate::response::decimal_digits;
use crate::response::error_json;
use crate::response::error_response;
use crate::response::forwarded_headers;
use crate::response::u16_decimal;
use crate::response::headers_view;
use crate::response::success_response;
use crate::routes::RouteTable;
use crate::routes::spec_lookup;
use crate::transform::transform_error_message;
use crate::transform::transform_message;

verus! {

/// The message a fetch-stage transport failure reports: the transport's own
/// description behind a fixed prefix naming the stage.
pub open spec fn fetch_failure_message(detail: Seq<char>) -> Seq<char> {
    "Failed to fetch from upstream: "@ + detail
}

/// The message a fetch-mode non-success upstream status reports.
pub open spec fn status_failure_message(status: u16) -> Seq<char> {
    "Upstream returned a non-success status: "@ + decimal_digits(status as nat)
}

/// What `plan` decides: either the one outbound call to make, together with
/// the upstream specification that will finish the request, or a response
/// to send at once.
pub enum PlanOutcome {
    Upstream(OutboundRequest, PathConfig),
    Respond(GatewayResponse),
}

/// What `accept_upstream` decides: either the decoded body text the filter
/// is to run over, beside the upstream headers kept for the response, or a
/// failure response to send at once.
pub enum UpstreamDecision {
    RunFilter(String, Vec<Header>),
    Respond(GatewayResponse),
}

/// Takes a received request to its first decision. A path with no route
/// answers `404` with the standard error body at once; a configured path
/// yields the planned outbound call and its upstream specification.
pub fn plan(table: &RouteTable, mode: FetchMode, path: &str, inbound: &InboundRequest) -> (r:
    PlanOutcome)
    ensures
        spec_lookup(table@, path@) is None ==> (r matches PlanOutcome::Respond(resp) && {
            &&& resp.status == 404
            &&& resp.body@ == error_json("No route configured for this path"@)
            &&& resp.headers@.len() == 0
        }),
        spec_lookup(table@, path@) matches Some(t) ==> (r matches PlanOutcome::Upstream(
            out,
            target,
        ) && {
            &&& target@ == t
            &&& out.url@ == t.source_url
            &&& mode == FetchMode::Fetch ==> {
                &&& out.method@ == "GET"@
                &&& out.headers@.len() == 0
                &&& out.body is None
            }
            &&& mode == FetchMode::Forward ==> {
                &&& out.method@ == inbound.method@
                &&& headers_view(out.headers@) =~= headers_view(inbound.headers@)
                &&& (inbound.body@.len() == 0 <==> out.body is None)
                &&& (out.body matches Some(b) ==> b@ == inbound.body@)
            }
        }),
{
    match table.lookup(path) {
        None => PlanOutcome::Respond(error_response(404, "No route configured for this path")),
        Some(found) => {
            let target = PathConfig {
                source_url: found.source_url.clone(),
                jq_filter: found.jq_filter.clone(),
            };
            let out = plan_request(mode, found, inbound);
            PlanOutcome::Upstream(out, target)
        },
    }
}

/// Takes the outcome of the outbound call to the next decision.
///
/// A transport failure answers `502` at once; in fetch mode a non-success
/// upstream status is a hard failure answered with that status as it came;
/// a body that is not valid UTF-8 answers `502`. Otherwise the decoded
/// body travels on to the filter, beside the upstream headers.
pub fn accept_upstream(mode: FetchMode, outcome: FetchOutcome) -> (r: UpstreamDecision)
    ensures
        outcome matches FetchOutcome::TransportFailure(detail) ==> (r
            matches UpstreamDecision::Respond(resp) && {
            &&& resp.status == 502
            &&& resp.body@ == error_json(fetch_failure_message(detail@))
            &&& resp.headers@.len() == 0
        }),
        outcome matches FetchOutcome::Response(u) ==> {
            &&& (mode == FetchMode::Fetch && !is_success_status(u.status)) ==> (r
                matches UpstreamDecision::Respond(resp) && {
                &&& resp.status == u.status
                &&& resp.body@ == error_json(status_failure_message(u.status))
                &&& resp.headers@.len() == 0
            })
            &&& ((mode == FetchMode::Forward || is_success_status(u.status)) && !valid_utf8(
                u.body@,
            )) ==> (r matches UpstreamDecision::Respond(resp) && {
                &&& resp.status == 502
                &&& resp.body@ == error_json("Upstream body is not valid UTF-8"@)
                &&& resp.headers@.len() == 0
            })
            &&& ((mode == FetchMode::Forward || is_success_status(u.status)) && valid_utf8(
                u.body@,
            )) ==> (r matches UpstreamDecision::RunFilter(text, kept) && {
                &&& text@ == decode_utf8(u.body@)
                &&& headers_view(kept@) == headers_view(u.headers@)
            })
        },
{
    match outcome {
        FetchOutcome::TransportFailure(detail) => {
            let msg: String = "Failed to fetch from upstream: ".to_owned().concat(
                detail.as_str(),
            );
            UpstreamDecision::Respond(error_response(502, msg.as_str()))
        },
        FetchOutcome::Response(u) => {
            let UpstreamResponse { status, headers, body } = u;
            if mode == FetchMode::Fetch && !(200 <= status && status < 300) {
                let msg: String = "Upstream returned a non-success status: ".to_owned().concat(
                    u16_decimal(status).as_str(),
                );
                UpstreamDecision::Respond(error_response(status, msg.as_str()))
            } else {
                match utf8_to_string(body) {
                    None => UpstreamDecision::Respond(
                        error_response(502, "Upstream body is not valid UTF-8"),
                    ),
                    Some(text) => UpstreamDecision::RunFilter(text, headers),
                }
            }
        },
    }
}

/// Takes the filter's outcome to the final response.
///
/// A failed evaluation — bad program, input that is not JSON, or an
/// evaluation error — answers `500` with the standard error body carrying
/// the evaluator's description. A successful one answers `200` with the
/// filter output as the body; in forward mode the upstream headers travel
/// along, in order and with duplicates kept, minus any `Content-Type`.
pub fn finish(mode: FetchMode, upstream_headers: &Vec<Header>, filtered: Result<String, String>)
    -> (r: GatewayResponse)
    ensures
        filtered matches Err(detail) ==> {
            &&& r.status == 500
            &&& r.body@ == error_json(transform_message(detail@))
            &&& r.headers@.len() == 0
        },
        filtered matches Ok(out) ==> {
            &&& r.status == 200
            &&& r.body@ == out@
            &&& (mode == FetchMode::Forward ==> headers_view(r.headers@) =~= forwarded_headers(
                headers_view(upstream_headers@),
            ))
            &&& (mode == FetchMode::Fetch ==> r.headers@.len() == 0)
        },
{
    match filtered {
        Err(detail) => {
            let msg = transform_error_message(detail.as_str());
            error_response(500, msg.as_str())
        },
        Ok(out) => {
            if mode == FetchMode::Forward {
                success_response(upstream_headers, out)
            } else {
                let none_forwarded: Vec<Header> = Vec::new();
                success_response(&none_forwarded, out)
            }
        },
    }
}

} // verus!
