//! Invoices.
use vstd::prelude::*;
use vstd::string::*;

use super::{
    call, call_no_args, fresh_key, group_lookup_args, insert_optional, insert_optional_number,
    object, opt_num_entry, opt_num_value, opt_str_entry, opt_str_value, single_str_object, Entries,
    ToolCall,
};
use crate::json::{entries_view, lookup, Json, JsonV};

verus! {

broadcast use vstd::string::group_string_axioms;

pub enum InvoicesCmd {
    /// List invoices.
    List { status: Option<String>, limit: Option<u32> },
    /// Fetch one invoice by ID.
    Get { invoice_id: String },
    /// Mark an invoice as sent (publishes + emails).
    Send { invoice_id: String },
    /// Void an invoice (reverses without deletion).
    Void { invoice_id: String },
    /// Aggregate invoice stats.
    Stats,
}

/// Arguments of `list_invoices`: each filter that is given.
pub open spec fn list_args(status: Option<String>, limit: Option<u32>) -> Entries {
    opt_str_entry("status"@, status) + opt_num_entry("limit"@, limit)
}

pub open spec fn invoice_id_args(id: String) -> JsonV {
    JsonV::Object(seq![("invoiceId"@, JsonV::Str(id@))])
}

/// The tool call each invoices subcommand makes.
pub open spec fn invoices_call(cmd: InvoicesCmd) -> (Seq<char>, JsonV) {
    match cmd {
        InvoicesCmd::List { status, limit } => (
            "list_invoices"@,
            JsonV::Object(list_args(status, limit)),
        ),
        InvoicesCmd::Get { invoice_id } => ("get_invoice"@, invoice_id_args(invoice_id)),
        InvoicesCmd::Send { invoice_id } => ("mark_invoice_sent"@, invoice_id_args(invoice_id)),
        InvoicesCmd::Void { invoice_id } => ("void_invoice"@, invoice_id_args(invoice_id)),
        InvoicesCmd::Stats => ("get_invoice_stats"@, JsonV::Object(Seq::empty())),
    }
}

impl InvoicesCmd {
    pub fn tool_call(self) -> (r: ToolCall)
        ensures
            r@ == invoices_call(self),
    {
        match self {
            InvoicesCmd::List { status, limit } => {
                proof {
                    reveal_strlit("status");
                    reveal_strlit("limit");
                    assert("status"@.len() == 6 && "limit"@.len() == 5);
                }
                let ghost (s, l) = (status, limit);
                let mut args: Vec<(String, Json)> = Vec::new();
                assert(entries_view(args@) =~= Seq::empty());
                insert_optional(&mut args, "status", status);
                assert(fresh_key(entries_view(args@), "limit"@));
                insert_optional_number(&mut args, "limit", limit);
                assert(entries_view(args@) =~= list_args(s, l));
                call("list_invoices", object(args))
            },
            InvoicesCmd::Get { invoice_id } => call(
                "get_invoice",
                single_str_object("invoiceId", invoice_id),
            ),
            InvoicesCmd::Send { invoice_id } => call(
                "mark_invoice_sent",
                single_str_object("invoiceId", invoice_id),
            ),
            InvoicesCmd::Void { invoice_id } => call(
                "void_invoice",
                single_str_object("invoiceId", invoice_id),
            ),
            InvoicesCmd::Stats => call_no_args("get_invoice_stats"),
        }
    }
}

/// Listing invoices sends exactly the filters that are given, the status
/// under `status` and the count under `limit`, and nothing else.
pub proof fn law_list_invoices_sends_given_filters(status: Option<String>, limit: Option<u32>)
    ensures
        invoices_call(InvoicesCmd::List { status, limit }).0 == "list_invoices"@,
        invoices_call(InvoicesCmd::List { status, limit }).1 is Object,
        lookup(invoices_call(InvoicesCmd::List { status, limit }).1, "status"@) == opt_str_value(
            status,
        ),
        lookup(invoices_call(InvoicesCmd::List { status, limit }).1, "limit"@) == opt_num_value(
            limit,
        ),
        forall|k: Seq<char>|
            k != "status"@ && k != "limit"@ ==> lookup(
                #[trigger] invoices_call(InvoicesCmd::List { status, limit }).1,
                k,
            ) is None,
{
    broadcast use group_lookup_args;

    reveal_strlit("status");
    reveal_strlit("limit");
    assert("status"@.len() == 6 && "limit"@.len() == 5);
}

/// A subcommand that acts on one invoice calls its own tool (fetch:
/// `get_invoice`, send: `mark_invoice_sent`, void: `void_invoice`) with the
/// invoice's ID, and nothing else, under `invoiceId`; the stats call sends no
/// arguments.
pub proof fn law_invoice_actions(id: String)
    ensures
        invoices_call(InvoicesCmd::Get { invoice_id: id }) == ("get_invoice"@, JsonV::Object(
            seq![("invoiceId"@, JsonV::Str(id@))],
        )),
        invoices_call(InvoicesCmd::Send { invoice_id: id }) == ("mark_invoice_sent"@,
        JsonV::Object(seq![("invoiceId"@, JsonV::Str(id@))])),
        invoices_call(InvoicesCmd::Void { invoice_id: id }) == ("void_invoice"@, JsonV::Object(
            seq![("invoiceId"@, JsonV::Str(id@))],
        )),
        invoices_call(InvoicesCmd::Stats) == ("get_invoice_stats"@, JsonV::Object(Seq::empty())),
{
}

/// No two invoices subcommands call the same tool.
pub proof fn law_invoices_tools_distinct(a: InvoicesCmd, b: InvoicesCmd)
    requires
        invoices_call(a).0 == invoices_call(b).0,
    ensures
        a is List <==> b is List,
        a is Get <==> b is Get,
        a is Send <==> b is Send,
        a is Void <==> b is Void,
        a is Stats <==> b is Stats,
{
    reveal_strlit("list_invoices");
    reveal_strlit("get_invoice");
    reveal_strlit("mark_invoice_sent");
    reveal_strlit("void_invoice");
    reveal_strlit("get_invoice_stats");
    assert("list_invoices"@.len() == 13 && "get_invoice"@.len() == 11
        && "mark_invoice_sent"@.len() == 17 && "void_invoice"@.len() == 12
        && "get_invoice_stats"@.len() == 17);
    assert("mark_invoice_sent"@[0] != "get_invoice_stats"@[0]);
}

} // verus!
