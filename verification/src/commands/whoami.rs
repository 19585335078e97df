//! The current user/company.
use vstd::prelude::*;

use super::{call_no_args, ToolCall};
use crate::json::JsonV;

verus! {

/// The call behind `whoami`: the companies of the current user.
pub fn call() -> (r: ToolCall)
    ensures
        r@ == ("list_my_companies"@, JsonV::Object(Seq::empty())),
{
    call_no_args("list_my_companies")
}

} // verus!
