//! Members / customers.
use vstd::prelude::*;
use vstd::string::*;

use super::{
    call, flag_entry, flag_value, fresh_key, group_lookup_args, insert_flag, insert_optional,
    insert_optional_number, insert_str, lemma_insert_fresh, object, opt_num_entry, opt_num_value,
    opt_str_entry, opt_str_value, single_str_object, Entries, ToolCall,
};
use crate::json::{entries_view, lookup, Json, JsonV};

verus! {

broadcast use vstd::string::group_string_axioms;

pub enum MembersCmd {
    /// Create a CRM account/customer, optionally enrolling it as a member.
    Create {
        name: String,
        email: Option<String>,
        phone: Option<String>,
        first_name: Option<String>,
        last_name: Option<String>,
        enroll_membership: bool,
        tier_id: Option<String>,
        notes: Option<String>,
    },
    /// Search and filter members.
    Search {
        query: Option<String>,
        inactive_days: Option<u32>,
        tier_id: Option<String>,
        limit: Option<u32>,
    },
    /// Fetch one member's full profile.
    Get { account_id: String },
}

/// Arguments of `create_account`: the name, then each detail that is given.
pub open spec fn create_args(
    name: Seq<char>,
    email: Option<String>,
    phone: Option<String>,
    first_name: Option<String>,
    last_name: Option<String>,
    enroll: bool,
    tier_id: Option<String>,
    notes: Option<String>,
) -> Entries {
    seq![("name"@, JsonV::Str(name))] + opt_str_entry("email"@, email) + opt_str_entry(
        "phone"@,
        phone,
    ) + opt_str_entry("firstName"@, first_name) + opt_str_entry("lastName"@, last_name)
        + flag_entry("enrollMembership"@, enroll) + opt_str_entry("tierId"@, tier_id)
        + opt_str_entry("notes"@, notes)
}

/// Arguments of `search_members`: each filter that is given.
pub open spec fn search_args(
    query: Option<String>,
    inactive_days: Option<u32>,
    tier_id: Option<String>,
    limit: Option<u32>,
) -> Entries {
    opt_str_entry("search"@, query) + opt_num_entry("inactiveDays"@, inactive_days)
        + opt_str_entry("tierId"@, tier_id) + opt_num_entry("limit"@, limit)
}

/// The tool call each members subcommand makes.
pub open spec fn members_call(cmd: MembersCmd) -> (Seq<char>, JsonV) {
    match cmd {
        MembersCmd::Create {
            name,
            email,
            phone,
            first_name,
            last_name,
            enroll_membership,
            tier_id,
            notes,
        } => (
            "create_account"@,
            JsonV::Object(
                create_args(
                    name@,
                    email,
                    phone,
                    first_name,
                    last_name,
                    enroll_membership,
                    tier_id,
                    notes,
                ),
            ),
        ),
        MembersCmd::Search { query, inactive_days, tier_id, limit } => (
            "search_members"@,
            JsonV::Object(search_args(query, inactive_days, tier_id, limit)),
        ),
        MembersCmd::Get { account_id } => (
            "get_member_profile"@,
            JsonV::Object(seq![("accountId"@, JsonV::Str(account_id@))]),
        ),
    }
}

impl MembersCmd {
    pub fn tool_call(self) -> (r: ToolCall)
        ensures
            r@ == members_call(self),
    {
        proof {
            reveal_strlit("name");
            reveal_strlit("email");
            reveal_strlit("phone");
            reveal_strlit("firstName");
            reveal_strlit("lastName");
            reveal_strlit("enrollMembership");
            reveal_strlit("tierId");
            reveal_strlit("notes");
            reveal_strlit("search");
            reveal_strlit("inactiveDays");
            reveal_strlit("limit");
            assert("name"@.len() == 4 && "email"@.len() == 5 && "phone"@.len() == 5
                && "firstName"@.len() == 9 && "lastName"@.len() == 8
                && "enrollMembership"@.len() == 16 && "tierId"@.len() == 6 && "notes"@.len() == 5
                && "search"@.len() == 6 && "inactiveDays"@.len() == 12 && "limit"@.len() == 5);
            assert("email"@[0] != "phone"@[0] && "notes"@[0] != "email"@[0] && "notes"@[0]
                != "phone"@[0] && "search"@[0] != "tierId"@[0] && "limit"@[0] != "email"@[0]);
        }
        match self {
            MembersCmd::Create {
                name,
                email,
                phone,
                first_name,
                last_name,
                enroll_membership,
                tier_id,
                notes,
            } => {
                let ghost (n, e, p, f, l, en, t, no) = (
                    name@,
                    email,
                    phone,
                    first_name,
                    last_name,
                    enroll_membership,
                    tier_id,
                    notes,
                );
                let mut args: Vec<(String, Json)> = Vec::new();
                assert(entries_view(args@) =~= Seq::empty());
                insert_str(&mut args, "name", name);
                proof {
                    lemma_insert_fresh(Seq::empty(), "name"@, JsonV::Str(n));
                }
                assert(fresh_key(entries_view(args@), "email"@));
                insert_optional(&mut args, "email", email);
                assert(fresh_key(entries_view(args@), "phone"@));
                insert_optional(&mut args, "phone", phone);
                assert(fresh_key(entries_view(args@), "firstName"@));
                insert_optional(&mut args, "firstName", first_name);
                assert(fresh_key(entries_view(args@), "lastName"@));
                insert_optional(&mut args, "lastName", last_name);
                assert(fresh_key(entries_view(args@), "enrollMembership"@));
                insert_flag(&mut args, "enrollMembership", enroll_membership);
                assert(fresh_key(entries_view(args@), "tierId"@));
                insert_optional(&mut args, "tierId", tier_id);
                assert(fresh_key(entries_view(args@), "notes"@));
                insert_optional(&mut args, "notes", notes);
                assert(entries_view(args@) =~= create_args(n, e, p, f, l, en, t, no));
                call("create_account", object(args))
            },
            MembersCmd::Search { query, inactive_days, tier_id, limit } => {
                let ghost (q, d, t, l) = (query, inactive_days, tier_id, limit);
                let mut args: Vec<(String, Json)> = Vec::new();
                assert(entries_view(args@) =~= Seq::empty());
                insert_optional(&mut args, "search", query);
                assert(fresh_key(entries_view(args@), "inactiveDays"@));
                insert_optional_number(&mut args, "inactiveDays", inactive_days);
                assert(fresh_key(entries_view(args@), "tierId"@));
                insert_optional(&mut args, "tierId", tier_id);
                assert(fresh_key(entries_view(args@), "limit"@));
                insert_optional_number(&mut args, "limit", limit);
                assert(entries_view(args@) =~= search_args(q, d, t, l));
                call("search_members", object(args))
            },
            MembersCmd::Get { account_id } => call(
                "get_member_profile",
                single_str_object("accountId", account_id),
            ),
        }
    }
}

proof fn lemma_member_keys()
    ensures
        "name"@.len() == 4 && "email"@.len() == 5 && "phone"@.len() == 5 && "firstName"@.len() == 9
            && "lastName"@.len() == 8 && "enrollMembership"@.len() == 16 && "tierId"@.len() == 6
            && "notes"@.len() == 5 && "search"@.len() == 6 && "inactiveDays"@.len() == 12
            && "limit"@.len() == 5,
        "email"@ != "phone"@ && "email"@ != "notes"@ && "phone"@ != "notes"@ && "email"@
            != "limit"@ && "phone"@ != "limit"@ && "notes"@ != "limit"@ && "search"@ != "tierId"@,
{
    reveal_strlit("name");
    reveal_strlit("email");
    reveal_strlit("phone");
    reveal_strlit("firstName");
    reveal_strlit("lastName");
    reveal_strlit("enrollMembership");
    reveal_strlit("tierId");
    reveal_strlit("notes");
    reveal_strlit("search");
    reveal_strlit("inactiveDays");
    reveal_strlit("limit");
    assert("email"@[0] != "phone"@[0] && "notes"@[0] != "email"@[0] && "notes"@[0] != "phone"@[0]
        && "search"@[0] != "tierId"@[0] && "limit"@[0] != "email"@[0] && "limit"@[0]
        != "phone"@[0] && "limit"@[0] != "notes"@[0]);
}

/// Creating a member calls `create_account` with the name under `name` and
/// every detail that is given under its own key (`email`, `phone`,
/// `firstName`, `lastName`, `tierId`, `notes`, and `enrollMembership: true`
/// when enrolling), and nothing else.
pub proof fn law_create_sends_every_given_detail(
    name: String,
    email: Option<String>,
    phone: Option<String>,
    first_name: Option<String>,
    last_name: Option<String>,
    enroll_membership: bool,
    tier_id: Option<String>,
    notes: Option<String>,
)
    ensures
        ({
            let call = members_call(
                MembersCmd::Create {
                    name,
                    email,
                    phone,
                    first_name,
                    last_name,
                    enroll_membership,
                    tier_id,
                    notes,
                },
            );
            &&& call.0 == "create_account"@
            &&& call.1 is Object
            &&& lookup(call.1, "name"@) == Some(JsonV::Str(name@))
            &&& lookup(call.1, "email"@) == opt_str_value(email)
            &&& lookup(call.1, "phone"@) == opt_str_value(phone)
            &&& lookup(call.1, "firstName"@) == opt_str_value(first_name)
            &&& lookup(call.1, "lastName"@) == opt_str_value(last_name)
            &&& lookup(call.1, "enrollMembership"@) == flag_value(enroll_membership)
            &&& lookup(call.1, "tierId"@) == opt_str_value(tier_id)
            &&& lookup(call.1, "notes"@) == opt_str_value(notes)
            &&& forall|k: Seq<char>|
                k != "name"@ && k != "email"@ && k != "phone"@ && k != "firstName"@ && k
                    != "lastName"@ && k != "enrollMembership"@ && k != "tierId"@ && k != "notes"@
                    ==> #[trigger] lookup(call.1, k) is None
        }),
{
    broadcast use group_lookup_args;

    lemma_member_keys();
}

/// Searching members calls `search_members` with exactly the filters that
/// are given: the query under `search`, then `inactiveDays`, `tierId` and
/// `limit`.
pub proof fn law_search_sends_given_filters(
    query: Option<String>,
    inactive_days: Option<u32>,
    tier_id: Option<String>,
    limit: Option<u32>,
)
    ensures
        ({
            let call = members_call(MembersCmd::Search { query, inactive_days, tier_id, limit });
            &&& call.0 == "search_members"@
            &&& call.1 is Object
            &&& lookup(call.1, "search"@) == opt_str_value(query)
            &&& lookup(call.1, "inactiveDays"@) == opt_num_value(inactive_days)
            &&& lookup(call.1, "tierId"@) == opt_str_value(tier_id)
            &&& lookup(call.1, "limit"@) == opt_num_value(limit)
            &&& forall|k: Seq<char>|
                k != "search"@ && k != "inactiveDays"@ && k != "tierId"@ && k != "limit"@
                    ==> #[trigger] lookup(call.1, k) is None
        }),
{
    broadcast use group_lookup_args;

    lemma_member_keys();
}

/// Fetching a member calls `get_member_profile` with the account ID, and
/// nothing else, under `accountId`.
pub proof fn law_get_member(id: String)
    ensures
        members_call(MembersCmd::Get { account_id: id }) == ("get_member_profile"@, JsonV::Object(
            seq![("accountId"@, JsonV::Str(id@))],
        )),
{
}

/// The three members subcommands call three different tools.
pub proof fn law_members_tools_distinct(a: MembersCmd, b: MembersCmd)
    requires
        members_call(a).0 == members_call(b).0,
    ensures
        a is Create <==> b is Create,
        a is Search <==> b is Search,
        a is Get <==> b is Get,
{
    reveal_strlit("create_account");
    reveal_strlit("search_members");
    reveal_strlit("get_member_profile");
    assert("create_account"@.len() == 14 && "search_members"@.len() == 14
        && "get_member_profile"@.len() == 18);
    assert("create_account"@[0] != "search_members"@[0]);
}

} // verus!
