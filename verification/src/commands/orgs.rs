//! Organisations of the current user.
use vstd::prelude::*;

use super::{call, call_no_args, single_str_object, ToolCall};
use crate::json::JsonV;

verus! {

pub enum OrgsCmd {
    /// List companies the current user belongs to.
    List,
    /// Switch the active company.
    Switch { company_id: String },
}

/// The tool call each orgs subcommand makes.
pub open spec fn orgs_call(cmd: OrgsCmd) -> (Seq<char>, JsonV) {
    match cmd {
        OrgsCmd::List => ("list_my_companies"@, JsonV::Object(Seq::empty())),
        OrgsCmd::Switch { company_id } => (
            "switch_company"@,
            JsonV::Object(seq![("companyId"@, JsonV::Str(company_id@))]),
        ),
    }
}

impl OrgsCmd {
    pub fn tool_call(self) -> (r: ToolCall)
        ensures
            r@ == orgs_call(self),
    {
        match self {
            OrgsCmd::List => call_no_args("list_my_companies"),
            OrgsCmd::Switch { company_id } => call(
                "switch_company",
                single_str_object("companyId", company_id),
            ),
        }
    }
}

/// Listing calls `list_my_companies` with no arguments; switching calls
/// `switch_company` with the target company's ID, and nothing else, under
/// `companyId`. The two call different tools.
pub proof fn law_orgs_calls(id: String)
    ensures
        orgs_call(OrgsCmd::List) == ("list_my_companies"@, JsonV::Object(Seq::empty())),
        orgs_call(OrgsCmd::Switch { company_id: id }) == ("switch_company"@, JsonV::Object(
            seq![("companyId"@, JsonV::Str(id@))],
        )),
        orgs_call(OrgsCmd::List).0 != orgs_call(OrgsCmd::Switch { company_id: id }).0,
{
    reveal_strlit("list_my_companies");
    reveal_strlit("switch_company");
    assert("list_my_companies"@.len() == 17 && "switch_company"@.len() == 14);
}

} // verus!
