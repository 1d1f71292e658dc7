//! The transform step's error reporting. The filter evaluation itself — a
//! jq program run over the upstream body — happens outside this library;
//! the dispatcher takes its outcome in as a plain value and is checked for
//! every possible outcome. What this module owns is the fixed shape of the
//! message a failed transform reports.

use vstd::prelude::*;
use vstd::string::StringExecFns;

verus! {

/// The message a failed transform step reports: the evaluator's own
/// description of the failure, behind a fixed prefix naming the stage.
pub open spec fn transform_message(detail: Seq<char>) -> Seq<char> {
    "Failed to run jq: "@ + detail
}

/// Builds the message a failed transform step reports.
pub fn transform_error_message(detail: &str) -> (r: String)
    ensures
        r@ == transform_message(detail@),
{
    "Failed to run jq: ".to_owned().concat(detail)
}

} // verus!
