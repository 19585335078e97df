//! Headline stats for the active company.
use vstd::prelude::*;

use super::{call_no_args, ToolCall};
use crate::json::JsonV;

verus! {

/// The call behind `dashboard`.
pub fn call() -> (r: ToolCall)
    ensures
        r@ == ("get_dashboard_stats"@, JsonV::Object(Seq::empty())),
{
    call_no_args("get_dashboard_stats")
}

} // verus!
