//! Team invites.
use vstd::prelude::*;
use vstd::string::*;

use super::{
    call, fresh_key, group_lookup_args, insert_optional, insert_optional_number, insert_str,
    lemma_insert_fresh, lemma_lookup_pair, object, opt_num_entry, opt_num_value, opt_str_entry, opt_str_value,
    single_str_object, Entries, ToolCall,
};
use super::signup::{finish_key_result, key_result_view, outcome_view, KeyOutcome};
use crate::json::{entries_view, lookup, Json, JsonV};

verus! {

broadcast use vstd::string::group_string_axioms;

pub enum TeamCmd {
    /// Create or accept an invite for a teammate.
    Invite { cmd: InviteCmd },
}

pub enum InviteCmd {
    /// Create a one-time team invite token.
    Create { email: String, name: Option<String>, role: String, expires_in_hours: Option<u32> },
    /// Request a verification code for an invite token.
    AcceptRequest { token: String },
    /// Verify an invite code and receive an MCP API key.
    AcceptVerify {
        token: String,
        code: String,
        name: Option<String>,
        no_save: bool,
        show_key: bool,
    },
}

/// Only creating an invite needs an existing key; accepting one does not.
pub open spec fn invite_needs_auth(cmd: TeamCmd) -> bool {
    match cmd {
        TeamCmd::Invite { cmd } => cmd is Create,
    }
}

impl TeamCmd {
    pub fn requires_auth(&self) -> (r: bool)
        ensures
            r == invite_needs_auth(*self),
    {
        match self {
            TeamCmd::Invite { cmd } => match cmd {
                InviteCmd::Create { .. } => true,
                _ => false,
            },
        }
    }
}

/// Arguments of `create_team_member_invite`.
pub open spec fn create_args(
    email: Seq<char>,
    role: Seq<char>,
    name: Option<String>,
    hours: Option<u32>,
) -> Entries {
    seq![("email"@, JsonV::Str(email)), ("role"@, JsonV::Str(role))] + opt_str_entry("name"@, name)
        + opt_num_entry("expiresInHours"@, hours)
}

/// Arguments of `accept_team_invite_verify`.
pub open spec fn verify_args(token: Seq<char>, code: Seq<char>, name: Option<String>) -> Entries {
    seq![("token"@, JsonV::Str(token)), ("code"@, JsonV::Str(code))] + opt_str_entry("name"@, name)
}

/// The tool call each invite subcommand makes.
pub open spec fn invite_call(cmd: InviteCmd) -> (Seq<char>, JsonV) {
    match cmd {
        InviteCmd::Create { email, name, role, expires_in_hours } => (
            "create_team_member_invite"@,
            JsonV::Object(create_args(email@, role@, name, expires_in_hours)),
        ),
        InviteCmd::AcceptRequest { token } => (
            "accept_team_invite_request"@,
            JsonV::Object(seq![("token"@, JsonV::Str(token@))]),
        ),
        InviteCmd::AcceptVerify { token, code, name, .. } => (
            "accept_team_invite_verify"@,
            JsonV::Object(verify_args(token@, code@, name)),
        ),
    }
}

impl InviteCmd {
    pub fn tool_call(self) -> (r: ToolCall)
        ensures
            r@ == invite_call(self),
    {
        proof {
            reveal_strlit("email");
            reveal_strlit("role");
            reveal_strlit("name");
            reveal_strlit("expiresInHours");
            reveal_strlit("token");
            reveal_strlit("code");
            assert("email"@.len() == 5 && "role"@.len() == 4 && "name"@.len() == 4
                && "expiresInHours"@.len() == 14 && "token"@.len() == 5 && "code"@.len() == 4);
            assert("role"@[0] != "name"@[0] && "code"@[0] != "name"@[0]);
        }
        match self {
            InviteCmd::Create { email, name, role, expires_in_hours } => {
                let ghost (e, rl, n, h) = (email@, role@, name, expires_in_hours);
                let mut args: Vec<(String, Json)> = Vec::new();
                assert(entries_view(args@) =~= Seq::empty());
                insert_str(&mut args, "email", email);
                proof {
                    lemma_insert_fresh(Seq::empty(), "email"@, JsonV::Str(e));
                }
                let ghost es1 = entries_view(args@);
                insert_str(&mut args, "role", role);
                proof {
                    assert(fresh_key(es1, "role"@));
                    lemma_insert_fresh(es1, "role"@, JsonV::Str(rl));
                }
                assert(fresh_key(entries_view(args@), "name"@));
                insert_optional(&mut args, "name", name);
                assert(fresh_key(entries_view(args@), "expiresInHours"@));
                insert_optional_number(&mut args, "expiresInHours", expires_in_hours);
                assert(entries_view(args@) =~= create_args(e, rl, n, h));
                call("create_team_member_invite", object(args))
            },
            InviteCmd::AcceptRequest { token } => call(
                "accept_team_invite_request",
                single_str_object("token", token),
            ),
            InviteCmd::AcceptVerify { token, code, name, .. } => {
                let ghost (t, c, n) = (token@, code@, name);
                let mut args: Vec<(String, Json)> = Vec::new();
                assert(entries_view(args@) =~= Seq::empty());
                insert_str(&mut args, "token", token);
                proof {
                    lemma_insert_fresh(Seq::empty(), "token"@, JsonV::Str(t));
                }
                let ghost es1 = entries_view(args@);
                insert_str(&mut args, "code", code);
                proof {
                    assert(fresh_key(es1, "code"@));
                    lemma_insert_fresh(es1, "code"@, JsonV::Str(c));
                }
                assert(fresh_key(entries_view(args@), "name"@));
                insert_optional(&mut args, "name", name);
                assert(entries_view(args@) =~= verify_args(t, c, n));
                call("accept_team_invite_verify", object(args))
            },
        }
    }
}

/// What an invite command prints: for an acceptance that returned a key,
/// the key handled (save path recorded, masked for human output unless the
/// full key was asked for); otherwise the result as it came.
pub open spec fn invite_result_view(v: JsonV, json_out: bool, verify: Option<(Option<Seq<char>>, bool)>) -> JsonV {
    match verify {
        Some((saved_to, show_key)) => key_result_view(v, saved_to, json_out, show_key),
        None => v,
    }
}

pub fn present_invite_result(value: &mut Json, json_out: bool, verify: Option<KeyOutcome>)
    ensures
        final(value)@ == invite_result_view(old(value)@, json_out, outcome_view(verify)),
{
    if let Some(outcome) = verify {
        finish_key_result(value, outcome, json_out);
    }
}

proof fn lemma_invite_keys()
    ensures
        "email"@.len() == 5 && "role"@.len() == 4 && "name"@.len() == 4
            && "expiresInHours"@.len() == 14 && "token"@.len() == 5 && "code"@.len() == 4,
        "role"@ != "name"@ && "code"@ != "name"@ && "email"@ != "token"@,
{
    reveal_strlit("email");
    reveal_strlit("role");
    reveal_strlit("name");
    reveal_strlit("expiresInHours");
    reveal_strlit("token");
    reveal_strlit("code");
    assert("role"@[0] != "name"@[0] && "code"@[0] != "name"@[0] && "email"@[0] != "token"@[0]);
}

/// Creating an invite calls `create_team_member_invite` with the email and
/// role, the name and lifetime when given (`name`, `expiresInHours`), and
/// nothing else.
pub proof fn law_create_invite_sends_given_fields(
    email: String,
    name: Option<String>,
    role: String,
    hours: Option<u32>,
)
    ensures
        ({
            let call = invite_call(
                InviteCmd::Create { email, name, role, expires_in_hours: hours },
            );
            &&& call.0 == "create_team_member_invite"@
            &&& call.1 is Object
            &&& lookup(call.1, "email"@) == Some(JsonV::Str(email@))
            &&& lookup(call.1, "role"@) == Some(JsonV::Str(role@))
            &&& lookup(call.1, "name"@) == opt_str_value(name)
            &&& lookup(call.1, "expiresInHours"@) == opt_num_value(hours)
            &&& forall|k: Seq<char>|
                k != "email"@ && k != "role"@ && k != "name"@ && k != "expiresInHours"@
                    ==> #[trigger] lookup(call.1, k) is None
        }),
{
    broadcast use group_lookup_args;

    lemma_invite_keys();
    lemma_lookup_pair(
        seq![("email"@, JsonV::Str(email@)), ("role"@, JsonV::Str(role@))],
        "email"@,
        JsonV::Str(email@),
        "role"@,
        JsonV::Str(role@),
    );
}

/// Requesting a code calls `accept_team_invite_request` with the token
/// alone; verifying calls `accept_team_invite_verify` with the token, the
/// code and the name when given, and nothing else: whether the key is saved
/// or shown never reaches the server.
pub proof fn law_accept_invite_calls(
    token: String,
    code: String,
    name: Option<String>,
    no_save: bool,
    show_key: bool,
)
    ensures
        invite_call(InviteCmd::AcceptRequest { token }) == ("accept_team_invite_request"@,
        JsonV::Object(seq![("token"@, JsonV::Str(token@))])),
        ({
            let call = invite_call(InviteCmd::AcceptVerify { token, code, name, no_save, show_key });
            &&& call.0 == "accept_team_invite_verify"@
            &&& call.1 is Object
            &&& lookup(call.1, "token"@) == Some(JsonV::Str(token@))
            &&& lookup(call.1, "code"@) == Some(JsonV::Str(code@))
            &&& lookup(call.1, "name"@) == opt_str_value(name)
            &&& forall|k: Seq<char>|
                k != "token"@ && k != "code"@ && k != "name"@ ==> #[trigger] lookup(call.1, k) is None
        }),
{
    broadcast use group_lookup_args;

    lemma_invite_keys();
    lemma_lookup_pair(
        seq![("token"@, JsonV::Str(token@)), ("code"@, JsonV::Str(code@))],
        "token"@,
        JsonV::Str(token@),
        "code"@,
        JsonV::Str(code@),
    );
}

/// The three invite subcommands call three different tools.
pub proof fn law_invite_tools_distinct(a: InviteCmd, b: InviteCmd)
    requires
        invite_call(a).0 == invite_call(b).0,
    ensures
        a is Create <==> b is Create,
        a is AcceptRequest <==> b is AcceptRequest,
        a is AcceptVerify <==> b is AcceptVerify,
{
    reveal_strlit("create_team_member_invite");
    reveal_strlit("accept_team_invite_request");
    reveal_strlit("accept_team_invite_verify");
    assert("create_team_member_invite"@.len() == 25 && "accept_team_invite_request"@.len() == 26
        && "accept_team_invite_verify"@.len() == 25);
    assert("create_team_member_invite"@[0] != "accept_team_invite_verify"@[0]);
}

} // verus!
