//! Plan, quota and billing operations.
use vstd::prelude::*;
use vstd::string::*;

use super::{
    call, call_no_args, fresh_key, group_lookup_args, insert_optional, insert_str,
    lemma_insert_fresh, lemma_lookup_pair, object, opt_str_entry, opt_str_value, Entries, ToolCall,
};
use crate::json::{entries_view, insert_entry, lookup, Json, JsonNumber, JsonV, NumberV};

verus! {

broadcast use vstd::string::group_string_axioms;

/// The arguments of a `check_plan_operation` call.
pub open spec fn check_args_view(
    tool: Option<String>,
    quota: Option<String>,
    module: Option<String>,
    delta: u32,
) -> Entries {
    opt_str_entry("toolName"@, tool) + opt_str_entry("quotaCode"@, quota) + opt_str_entry(
        "moduleCode"@,
        module,
    ) + seq![("delta"@, JsonV::Number(NumberV::PosInt(delta as u64)))]
}

pub fn check_args(
    tool: Option<String>,
    quota: Option<String>,
    module: Option<String>,
    delta: u32,
) -> (r: Vec<(String, Json)>)
    ensures
        entries_view(r@) == check_args_view(tool, quota, module, delta),
{
    proof {
        reveal_strlit("toolName");
        reveal_strlit("quotaCode");
        reveal_strlit("moduleCode");
        reveal_strlit("delta");
        assert("toolName"@.len() == 8);
        assert("quotaCode"@.len() == 9);
        assert("moduleCode"@.len() == 10);
        assert("delta"@.len() == 5);
    }
    let ghost (t, q, m) = (tool, quota, module);
    let mut args: Vec<(String, Json)> = Vec::new();
    assert(entries_view(args@) =~= Seq::empty());
    insert_optional(&mut args, "toolName", tool);
    assert(fresh_key(entries_view(args@), "quotaCode"@));
    insert_optional(&mut args, "quotaCode", quota);
    assert(fresh_key(entries_view(args@), "moduleCode"@));
    insert_optional(&mut args, "moduleCode", module);
    let ghost es = entries_view(args@);
    assert(fresh_key(es, "delta"@));
    insert_entry(&mut args, String::from_str("delta"), Json::Number(JsonNumber::PosInt(delta as u64)));
    proof {
        lemma_insert_fresh(es, "delta"@, JsonV::Number(NumberV::PosInt(delta as u64)));
        assert(entries_view(args@) =~= check_args_view(t, q, m, delta));
    }
    args
}


pub enum PlanCmd {
    /// Show current plan, payment state, modules, and quota usage.
    Status,
    /// Check whether a planned operation is allowed.
    Check { tool: Option<String>, quota: Option<String>, module: Option<String>, delta: u32 },
    /// List active upgradeable plans.
    Options,
    /// Create a Stripe-hosted upgrade or billing portal link.
    Upgrade {
        plan_code: Option<String>,
        plan_id: Option<String>,
        billing_cycle: String,
        return_url: Option<String>,
        confirm: bool,
    },
    /// Create a billing portal link for the current plan.
    Portal { return_url: Option<String>, confirm: bool },
}

/// The arguments of a `create_plan_upgrade_link` call for an upgrade.
pub open spec fn upgrade_args_view(
    plan_code: Option<String>,
    plan_id: Option<String>,
    billing_cycle: Seq<char>,
    return_url: Option<String>,
    confirm: bool,
) -> Entries {
    opt_str_entry("planCode"@, plan_code) + opt_str_entry("planId"@, plan_id) + opt_str_entry(
        "returnUrl"@,
        return_url,
    ) + seq![("billingCycle"@, JsonV::Str(billing_cycle)), ("confirm"@, JsonV::Bool(confirm))]
}

/// The arguments of a `create_plan_upgrade_link` call for the billing
/// portal: always the `favcrm-lite` plan code.
pub open spec fn portal_args_view(return_url: Option<String>, confirm: bool) -> Entries {
    seq![("planCode"@, JsonV::Str("favcrm-lite"@))] + opt_str_entry("returnUrl"@, return_url)
        + seq![("confirm"@, JsonV::Bool(confirm))]
}

proof fn reveal_plan_keys()
    ensures
        "planCode"@.len() == 8,
        "planId"@.len() == 6,
        "returnUrl"@.len() == 9,
        "billingCycle"@.len() == 12,
        "confirm"@.len() == 7,
{
    reveal_strlit("planCode");
    reveal_strlit("planId");
    reveal_strlit("returnUrl");
    reveal_strlit("billingCycle");
    reveal_strlit("confirm");
}

pub fn upgrade_args(
    plan_code: Option<String>,
    plan_id: Option<String>,
    billing_cycle: String,
    return_url: Option<String>,
    confirm: bool,
) -> (r: Vec<(String, Json)>)
    ensures
        entries_view(r@) == upgrade_args_view(plan_code, plan_id, billing_cycle@, return_url, confirm),
{
    proof {
        reveal_plan_keys();
    }
    let ghost (c, i, b, u) = (plan_code, plan_id, billing_cycle@, return_url);
    let mut args: Vec<(String, Json)> = Vec::new();
    assert(entries_view(args@) =~= Seq::empty());
    insert_optional(&mut args, "planCode", plan_code);
    assert(fresh_key(entries_view(args@), "planId"@));
    insert_optional(&mut args, "planId", plan_id);
    assert(fresh_key(entries_view(args@), "returnUrl"@));
    insert_optional(&mut args, "returnUrl", return_url);
    let ghost es = entries_view(args@);
    assert(fresh_key(es, "billingCycle"@));
    insert_str(&mut args, "billingCycle", billing_cycle);
    proof {
        lemma_insert_fresh(es, "billingCycle"@, JsonV::Str(b));
    }
    let ghost es2 = entries_view(args@);
    assert(fresh_key(es2, "confirm"@));
    insert_entry(&mut args, String::from_str("confirm"), Json::Bool(confirm));
    proof {
        lemma_insert_fresh(es2, "confirm"@, JsonV::Bool(confirm));
        assert(entries_view(args@) =~= upgrade_args_view(c, i, b, u, confirm));
    }
    args
}

pub fn portal_args(return_url: Option<String>, confirm: bool) -> (r: Vec<(String, Json)>)
    ensures
        entries_view(r@) == portal_args_view(return_url, confirm),
{
    proof {
        reveal_plan_keys();
    }
    let ghost u = return_url;
    let mut args: Vec<(String, Json)> = Vec::new();
    assert(entries_view(args@) =~= Seq::empty());
    insert_str(&mut args, "planCode", String::from_str("favcrm-lite"));
    proof {
        lemma_insert_fresh(Seq::empty(), "planCode"@, JsonV::Str("favcrm-lite"@));
    }
    assert(fresh_key(entries_view(args@), "returnUrl"@));
    insert_optional(&mut args, "returnUrl", return_url);
    let ghost es = entries_view(args@);
    assert(fresh_key(es, "confirm"@));
    insert_entry(&mut args, String::from_str("confirm"), Json::Bool(confirm));
    proof {
        lemma_insert_fresh(es, "confirm"@, JsonV::Bool(confirm));
        assert(entries_view(args@) =~= portal_args_view(u, confirm));
    }
    args
}

/// The tool call each plan subcommand makes.
pub open spec fn plan_call(cmd: PlanCmd) -> (Seq<char>, JsonV) {
    match cmd {
        PlanCmd::Status => ("get_plan_status"@, JsonV::Object(Seq::empty())),
        PlanCmd::Check { tool, quota, module, delta } => (
            "check_plan_operation"@,
            JsonV::Object(check_args_view(tool, quota, module, delta)),
        ),
        PlanCmd::Options => ("list_plan_options"@, JsonV::Object(Seq::empty())),
        PlanCmd::Upgrade { plan_code, plan_id, billing_cycle, return_url, confirm } => (
            "create_plan_upgrade_link"@,
            JsonV::Object(upgrade_args_view(plan_code, plan_id, billing_cycle@, return_url, confirm)),
        ),
        PlanCmd::Portal { return_url, confirm } => (
            "create_plan_upgrade_link"@,
            JsonV::Object(portal_args_view(return_url, confirm)),
        ),
    }
}

impl PlanCmd {
    pub fn tool_call(self) -> (r: ToolCall)
        ensures
            r@ == plan_call(self),
    {
        match self {
            PlanCmd::Status => call_no_args("get_plan_status"),
            PlanCmd::Check { tool, quota, module, delta } => call(
                "check_plan_operation",
                object(check_args(tool, quota, module, delta)),
            ),
            PlanCmd::Options => call_no_args("list_plan_options"),
            PlanCmd::Upgrade { plan_code, plan_id, billing_cycle, return_url, confirm } => call(
                "create_plan_upgrade_link",
                object(upgrade_args(plan_code, plan_id, billing_cycle, return_url, confirm)),
            ),
            PlanCmd::Portal { return_url, confirm } => call(
                "create_plan_upgrade_link",
                object(portal_args(return_url, confirm)),
            ),
        }
    }
}

/// The billing portal always targets the `favcrm-lite` plan code, and an
/// upgrade or portal link is only created with the caller's confirmation
/// passed through as given.
pub proof fn law_portal_plan_code(return_url: Option<String>, confirm: bool)
    ensures
        portal_args_view(return_url, confirm)[0] == ("planCode"@, JsonV::Str("favcrm-lite"@)),
        portal_args_view(return_url, confirm).last() == ("confirm"@, JsonV::Bool(confirm)),
{
}

/// A plan check calls `check_plan_operation` with each of the tool, quota
/// and module that is given (under `toolName`, `quotaCode`, `moduleCode`)
/// and always the increment under `delta`, and nothing else.
pub proof fn law_check_sends_given_targets(
    tool: Option<String>,
    quota: Option<String>,
    module: Option<String>,
    delta: u32,
)
    ensures
        ({
            let call = plan_call(PlanCmd::Check { tool, quota, module, delta });
            &&& call.0 == "check_plan_operation"@
            &&& call.1 is Object
            &&& lookup(call.1, "toolName"@) == opt_str_value(tool)
            &&& lookup(call.1, "quotaCode"@) == opt_str_value(quota)
            &&& lookup(call.1, "moduleCode"@) == opt_str_value(module)
            &&& lookup(call.1, "delta"@) == Some(JsonV::Number(NumberV::PosInt(delta as u64)))
            &&& forall|k: Seq<char>|
                k != "toolName"@ && k != "quotaCode"@ && k != "moduleCode"@ && k != "delta"@
                    ==> #[trigger] lookup(call.1, k) is None
        }),
{
    broadcast use group_lookup_args;

    reveal_strlit("toolName");
    reveal_strlit("quotaCode");
    reveal_strlit("moduleCode");
    reveal_strlit("delta");
    assert("toolName"@.len() == 8 && "quotaCode"@.len() == 9 && "moduleCode"@.len() == 10
        && "delta"@.len() == 5);
}

/// An upgrade calls `create_plan_upgrade_link` with each of the plan code,
/// plan ID and return URL that is given, the billing cycle, and the
/// confirmation as given, and nothing else.
pub proof fn law_upgrade_sends_given_fields(
    plan_code: Option<String>,
    plan_id: Option<String>,
    billing_cycle: String,
    return_url: Option<String>,
    confirm: bool,
)
    ensures
        ({
            let call = plan_call(
                PlanCmd::Upgrade { plan_code, plan_id, billing_cycle, return_url, confirm },
            );
            &&& call.0 == "create_plan_upgrade_link"@
            &&& call.1 is Object
            &&& lookup(call.1, "planCode"@) == opt_str_value(plan_code)
            &&& lookup(call.1, "planId"@) == opt_str_value(plan_id)
            &&& lookup(call.1, "returnUrl"@) == opt_str_value(return_url)
            &&& lookup(call.1, "billingCycle"@) == Some(JsonV::Str(billing_cycle@))
            &&& lookup(call.1, "confirm"@) == Some(JsonV::Bool(confirm))
            &&& forall|k: Seq<char>|
                k != "planCode"@ && k != "planId"@ && k != "returnUrl"@ && k != "billingCycle"@ && k
                    != "confirm"@ ==> #[trigger] lookup(call.1, k) is None
        }),
{
    broadcast use group_lookup_args;

    reveal_plan_keys();
    lemma_lookup_pair(
        seq![("billingCycle"@, JsonV::Str(billing_cycle@)), ("confirm"@, JsonV::Bool(confirm))],
        "billingCycle"@,
        JsonV::Str(billing_cycle@),
        "confirm"@,
        JsonV::Bool(confirm),
    );
}

/// The billing portal calls `create_plan_upgrade_link` for the
/// `favcrm-lite` plan code, with the return URL when one is given and the
/// confirmation as given, and nothing else (no plan ID, no billing cycle).
pub proof fn law_portal_sends_lite_plan(return_url: Option<String>, confirm: bool)
    ensures
        ({
            let call = plan_call(PlanCmd::Portal { return_url, confirm });
            &&& call.0 == "create_plan_upgrade_link"@
            &&& call.1 is Object
            &&& lookup(call.1, "planCode"@) == Some(JsonV::Str("favcrm-lite"@))
            &&& lookup(call.1, "returnUrl"@) == opt_str_value(return_url)
            &&& lookup(call.1, "confirm"@) == Some(JsonV::Bool(confirm))
            &&& forall|k: Seq<char>|
                k != "planCode"@ && k != "returnUrl"@ && k != "confirm"@ ==> #[trigger] lookup(
                    call.1,
                    k,
                ) is None
        }),
{
    broadcast use group_lookup_args;

    reveal_plan_keys();
}

/// Status and options call `get_plan_status` and `list_plan_options` with
/// no arguments; checks, status, options and links call different tools.
pub proof fn law_plan_queries(a: PlanCmd, b: PlanCmd)
    ensures
        plan_call(PlanCmd::Status) == ("get_plan_status"@, JsonV::Object(Seq::empty())),
        plan_call(PlanCmd::Options) == ("list_plan_options"@, JsonV::Object(Seq::empty())),
        plan_call(a).0 == plan_call(b).0 ==> (a is Status <==> b is Status) && (a is Check
            <==> b is Check) && (a is Options <==> b is Options),
{
    reveal_strlit("get_plan_status");
    reveal_strlit("list_plan_options");
    reveal_strlit("check_plan_operation");
    reveal_strlit("create_plan_upgrade_link");
    assert("get_plan_status"@.len() == 15 && "list_plan_options"@.len() == 17
        && "check_plan_operation"@.len() == 20 && "create_plan_upgrade_link"@.len() == 24);
}

} // verus!
