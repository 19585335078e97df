//! Subcommands: which need credentials, and which MCP tool call each makes.
use vstd::prelude::*;
use vstd::string::*;

use crate::json::{
    entries_insert, entries_view, insert_entry, lemma_key_index, lemma_lookup_concat,
    lemma_lookup_empty, lemma_lookup_single, lemma_view_object, lookup, Json, JsonNumber, JsonV,
    NumberV,
};

pub mod bookings;
pub mod dashboard;
pub mod doctor;
pub mod invoices;
pub mod login;
pub mod members;
pub mod orgs;
pub mod plan;
pub mod signup;
pub mod team;
pub mod tool;
pub mod whatsapp;
pub mod whoami;

verus! {

broadcast use vstd::string::group_string_axioms;

/// One MCP `tools/call` invocation: the tool's name and its arguments.
#[derive(Debug)]
pub struct ToolCall {
    pub name: String,
    pub args: Json,
}

impl View for ToolCall {
    type V = (Seq<char>, JsonV);

    open spec fn view(&self) -> (Seq<char>, JsonV) {
        (self.name@, self.args@)
    }
}

pub type Entries = Seq<(Seq<char>, JsonV)>;

/// A string entry when the option holds a value, else nothing.
pub open spec fn opt_str_entry(k: Seq<char>, o: Option<String>) -> Entries {
    match o {
        Some(v) => seq![(k, JsonV::Str(v@))],
        None => Seq::empty(),
    }
}

/// A number entry when the option holds a value, else nothing.
pub open spec fn opt_num_entry(k: Seq<char>, o: Option<u32>) -> Entries {
    match o {
        Some(n) => seq![(k, JsonV::Number(NumberV::PosInt(n as u64)))],
        None => Seq::empty(),
    }
}

/// No entry of `es` is keyed `k`.
pub open spec fn fresh_key(es: Entries, k: Seq<char>) -> bool {
    forall|i: int| 0 <= i < es.len() ==> es[i].0 != k
}

/// Storing under a key that is not yet present appends an entry.
pub proof fn lemma_insert_fresh(es: Entries, k: Seq<char>, v: JsonV)
    requires
        fresh_key(es, k),
    ensures
        entries_insert(es, k, v) == es.push((k, v)),
{
    lemma_key_index(es, k);
}

/// Stores a string under `key`.
pub fn insert_str(args: &mut Vec<(String, Json)>, key: &str, value: String)
    ensures
        entries_view(final(args)@) == entries_insert(entries_view(old(args)@), key@, JsonV::Str(value@)),
{
    insert_entry(args, String::from_str(key), Json::Str(value));
}

/// Stores a string under `key` when one is given.
pub fn insert_optional(args: &mut Vec<(String, Json)>, key: &str, value: Option<String>)
    ensures
        entries_view(final(args)@) == match value {
            Some(v) => entries_insert(entries_view(old(args)@), key@, JsonV::Str(v@)),
            None => entries_view(old(args)@),
        },
        fresh_key(entries_view(old(args)@), key@) ==> entries_view(final(args)@) == entries_view(
            old(args)@,
        ) + opt_str_entry(key@, value),
        value is None ==> final(args)@ == old(args)@,
{
    let ghost es = entries_view(args@);
    match value {
        Some(v) => {
            let ghost vv = v@;
            insert_str(args, key, v);
            proof {
                if fresh_key(es, key@) {
                    lemma_insert_fresh(es, key@, JsonV::Str(vv));
                    assert(es.push((key@, JsonV::Str(vv))) =~= es + opt_str_entry(key@, Some(v)));
                }
            }
        },
        None => {
            assert(es + opt_str_entry(key@, value) =~= es);
        },
    }
}

/// Stores a number under `key` when one is given.
pub fn insert_optional_number(args: &mut Vec<(String, Json)>, key: &str, value: Option<u32>)
    ensures
        entries_view(final(args)@) == match value {
            Some(n) => entries_insert(
                entries_view(old(args)@),
                key@,
                JsonV::Number(NumberV::PosInt(n as u64)),
            ),
            None => entries_view(old(args)@),
        },
        fresh_key(entries_view(old(args)@), key@) ==> entries_view(final(args)@) == entries_view(
            old(args)@,
        ) + opt_num_entry(key@, value),
        value is None ==> final(args)@ == old(args)@,
{
    let ghost es = entries_view(args@);
    match value {
        Some(n) => {
            insert_entry(args, String::from_str(key), Json::Number(JsonNumber::PosInt(n as u64)));
            proof {
                if fresh_key(es, key@) {
                    lemma_insert_fresh(es, key@, JsonV::Number(NumberV::PosInt(n as u64)));
                    assert(es.push((key@, JsonV::Number(NumberV::PosInt(n as u64)))) =~= es
                        + opt_num_entry(key@, value));
                }
            }
        },
        None => {
            assert(es + opt_num_entry(key@, value) =~= es);
        },
    }
}

/// A `true` entry when the flag is set, else nothing.
pub open spec fn flag_entry(k: Seq<char>, b: bool) -> Entries {
    if b {
        seq![(k, JsonV::Bool(true))]
    } else {
        Seq::empty()
    }
}

/// Stores `true` under `key` when the flag is set.
pub fn insert_flag(args: &mut Vec<(String, Json)>, key: &str, flag: bool)
    ensures
        entries_view(final(args)@) == if flag {
            entries_insert(entries_view(old(args)@), key@, JsonV::Bool(true))
        } else {
            entries_view(old(args)@)
        },
        fresh_key(entries_view(old(args)@), key@) ==> entries_view(final(args)@) == entries_view(
            old(args)@,
        ) + flag_entry(key@, flag),
{
    let ghost es = entries_view(args@);
    if flag {
        insert_entry(args, String::from_str(key), Json::Bool(true));
        proof {
            if fresh_key(es, key@) {
                lemma_insert_fresh(es, key@, JsonV::Bool(true));
                assert(es.push((key@, JsonV::Bool(true))) =~= es + flag_entry(key@, flag));
            }
        }
    } else {
        assert(es + flag_entry(key@, flag) =~= es);
    }
}

/// Wraps entries as an object, with the view the entries give.
pub fn object(args: Vec<(String, Json)>) -> (r: Json)
    ensures
        r@ == JsonV::Object(entries_view(args@)),
{
    proof {
        lemma_view_object(args);
    }
    Json::Object(args)
}

/// An object with one string entry.
pub fn single_str_object(key: &str, value: String) -> (r: Json)
    ensures
        r@ == JsonV::Object(seq![(key@, JsonV::Str(value@))]),
{
    let mut es: Vec<(String, Json)> = Vec::new();
    es.push((String::from_str(key), Json::Str(value)));
    let r = object(es);
    assert(entries_view(es@) =~= seq![(key@, JsonV::Str(value@))]);
    r
}

/// A call of `name` with the given arguments.
pub fn call(name: &str, args: Json) -> (r: ToolCall)
    ensures
        r@ == (name@, args@),
{
    ToolCall { name: String::from_str(name), args }
}

/// A call of `name` with no arguments.
pub fn call_no_args(name: &str) -> (r: ToolCall)
    ensures
        r@ == (name@, JsonV::Object(Seq::empty())),
{
    call(name, crate::client::empty_object())
}

/// A top-level subcommand.
pub enum Command {
    /// Save API key + URL to the config file.
    Login(login::Args),
    /// Register a new FavCRM workspace without an existing API key.
    Signup(signup::SignupCmd),
    /// Show the current user/company.
    Whoami,
    /// List or switch organisations.
    Orgs(orgs::OrgsCmd),
    /// Today's headline stats for the active company.
    Dashboard,
    /// Members / customers.
    Members(members::MembersCmd),
    /// Bookings.
    Bookings(bookings::BookingsCmd),
    /// Invoices.
    Invoices(invoices::InvoicesCmd),
    /// Plan, quota, and billing operations.
    Plan(plan::PlanCmd),
    /// Team invites and agentic invite acceptance.
    Team(team::TeamCmd),
    /// WhatsApp Business connection setup.
    Whatsapp(whatsapp::WhatsappCmd),
    /// Diagnose MCP endpoint, auth, plan, and channel setup.
    Doctor,
    /// Universal verb for any registered MCP tool. Subcommands:
    /// `list` (catalog), `describe <name>` (input schema), `call <name> [json]`,
    /// or shortcut `<name> [json]`.
    Tool(tool::Args),
}

/// Whether a command needs an existing API key: all do except saving a key,
/// signing up, the doctor, and accepting a team invite.
pub open spec fn needs_auth(cmd: Command) -> bool {
    match cmd {
        Command::Login(_) | Command::Signup(_) | Command::Doctor => false,
        Command::Team(c) => team::invite_needs_auth(c),
        _ => true,
    }
}

pub fn requires_auth(cmd: &Command) -> (r: bool)
    ensures
        r == needs_auth(*cmd),
{
    match cmd {
        Command::Login(_) | Command::Signup(_) | Command::Doctor => false,
        Command::Team(c) => c.requires_auth(),
        _ => true,
    }
}

/// Only the doctor uses a key when there is one and runs without one.
pub fn prefers_optional_auth(cmd: &Command) -> (r: bool)
    ensures
        r == (*cmd is Doctor),
{
    match cmd {
        Command::Doctor => true,
        _ => false,
    }
}

/// Bootstrap commands never need an existing key, so a fresh install can
/// sign up, accept an invite, or diagnose its setup; the doctor is the only
/// command that takes a key when there is one.
pub proof fn law_bootstrap_without_auth(cmd: Command)
    ensures
        (cmd is Login || cmd is Signup || cmd is Doctor) ==> !needs_auth(cmd),
        (cmd matches Command::Team(team::TeamCmd::Invite { cmd: c }) && !(c is Create)) ==> !needs_auth(cmd),
        needs_auth(cmd) ==> !(cmd is Doctor),
{
}

// ---------------------------------------------------------------------------
// Reading arguments back
// ---------------------------------------------------------------------------

/// The string member an optional value gives, if any.
pub open spec fn opt_str_value(o: Option<String>) -> Option<JsonV> {
    match o {
        Some(v) => Some(JsonV::Str(v@)),
        None => None,
    }
}

/// The number member an optional count gives, if any.
pub open spec fn opt_num_value(o: Option<u32>) -> Option<JsonV> {
    match o {
        Some(n) => Some(JsonV::Number(NumberV::PosInt(n as u64))),
        None => None,
    }
}

/// The member a flag gives: `true` when set, nothing otherwise.
pub open spec fn flag_value(b: bool) -> Option<JsonV> {
    if b {
        Some(JsonV::Bool(true))
    } else {
        None
    }
}

pub broadcast proof fn lemma_lookup_parts(a: Entries, b: Entries, k: Seq<char>)
    ensures
        #[trigger] lookup(JsonV::Object(a + b), k) == (if lookup(JsonV::Object(a), k) is Some {
            lookup(JsonV::Object(a), k)
        } else {
            lookup(JsonV::Object(b), k)
        }),
{
    lemma_lookup_concat(a, b, k);
}

pub broadcast proof fn lemma_lookup_opt_str(k2: Seq<char>, o: Option<String>, k: Seq<char>)
    ensures
        #[trigger] lookup(JsonV::Object(opt_str_entry(k2, o)), k) == (if k2 == k {
            opt_str_value(o)
        } else {
            None
        }),
{
    match o {
        Some(v) => lemma_lookup_single(k2, JsonV::Str(v@), k),
        None => lemma_lookup_empty(k),
    }
}

pub broadcast proof fn lemma_lookup_opt_num(k2: Seq<char>, o: Option<u32>, k: Seq<char>)
    ensures
        #[trigger] lookup(JsonV::Object(opt_num_entry(k2, o)), k) == (if k2 == k {
            opt_num_value(o)
        } else {
            None
        }),
{
    match o {
        Some(n) => lemma_lookup_single(k2, JsonV::Number(NumberV::PosInt(n as u64)), k),
        None => lemma_lookup_empty(k),
    }
}

pub broadcast proof fn lemma_lookup_flag(k2: Seq<char>, b: bool, k: Seq<char>)
    ensures
        #[trigger] lookup(JsonV::Object(flag_entry(k2, b)), k) == (if k2 == k {
            flag_value(b)
        } else {
            None
        }),
{
    if b {
        lemma_lookup_single(k2, JsonV::Bool(true), k);
    } else {
        lemma_lookup_empty(k);
    }
}

pub broadcast proof fn lemma_lookup_one(k2: Seq<char>, v: JsonV, k: Seq<char>)
    ensures
        #[trigger] lookup(JsonV::Object(seq![(k2, v)]), k) == (if k2 == k {
            Some(v)
        } else {
            None
        }),
{
    lemma_lookup_single(k2, v, k);
}

/// A two-entry object has exactly those two members.
pub proof fn lemma_lookup_pair(p: Entries, k1: Seq<char>, v1: JsonV, k2: Seq<char>, v2: JsonV)
    requires
        p == seq![(k1, v1), (k2, v2)],
    ensures
        forall|k: Seq<char>|
            #[trigger] lookup(JsonV::Object(p), k) == (if k1 == k {
                Some(v1)
            } else if k2 == k {
                Some(v2)
            } else {
                None
            }),
{
    assert forall|k: Seq<char>|
        #[trigger] lookup(JsonV::Object(p), k) == (if k1 == k {
            Some(v1)
        } else if k2 == k {
            Some(v2)
        } else {
            None
        }) by {
        assert(p =~= seq![(k1, v1)] + seq![(k2, v2)]);
        lemma_lookup_concat(seq![(k1, v1)], seq![(k2, v2)], k);
        lemma_lookup_single(k1, v1, k);
        lemma_lookup_single(k2, v2, k);
    }
}

pub broadcast proof fn lemma_lookup_none(k: Seq<char>)
    ensures
        #[trigger] lookup(JsonV::Object(Seq::<(Seq<char>, JsonV)>::empty()), k) is None,
{
    lemma_lookup_empty(k);
}

pub broadcast group group_lookup_args {
    lemma_lookup_parts,
    lemma_lookup_opt_str,
    lemma_lookup_opt_num,
    lemma_lookup_flag,
    lemma_lookup_one,
    lemma_lookup_none,
}

} // verus!
