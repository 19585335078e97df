//! WhatsApp Business connection setup.
use vstd::prelude::*;
use vstd::string::*;

use super::{
    call, call_no_args, fresh_key, group_lookup_args, insert_optional_number, insert_str,
    lemma_insert_fresh, object, opt_num_entry, opt_num_value, Entries, ToolCall,
};
use crate::json::{entries_view, lookup, Json, JsonV};

verus! {

broadcast use vstd::string::group_string_axioms;

pub enum WhatsappCmd {
    /// Show WhatsApp Business connection status.
    Status,
    /// Create a browser link for Meta Embedded Signup.
    Connect { mode: String, ttl_minutes: Option<u32> },
}

/// The tool's spelling of an onboarding mode: `cloud-api` becomes
/// `cloud_api`; anything else is passed through.
pub open spec fn normalized_mode(mode: Seq<char>) -> Seq<char> {
    if mode == "cloud-api"@ {
        "cloud_api"@
    } else {
        mode
    }
}

pub fn normalize_mode(mode: &str) -> (r: String)
    ensures
        r@ == normalized_mode(mode@),
{
    if String::from_str(mode) == String::from_str("cloud-api") {
        String::from_str("cloud_api")
    } else {
        String::from_str(mode)
    }
}

/// Normalizing twice is the same as normalizing once.
pub proof fn law_normalize_idempotent(mode: Seq<char>)
    ensures
        normalized_mode(normalized_mode(mode)) == normalized_mode(mode),
{
    reveal_strlit("cloud-api");
    reveal_strlit("cloud_api");
    if mode == "cloud-api"@ {
        assert("cloud_api"@[5] != "cloud-api"@[5]);
    }
}

/// Arguments of `create_whatsapp_connect_link`.
pub open spec fn connect_args(mode: Seq<char>, ttl: Option<u32>) -> Entries {
    seq![("onboardingMode"@, JsonV::Str(normalized_mode(mode)))] + opt_num_entry("ttlMinutes"@, ttl)
}

/// The tool call each WhatsApp subcommand makes.
pub open spec fn whatsapp_call(cmd: WhatsappCmd) -> (Seq<char>, JsonV) {
    match cmd {
        WhatsappCmd::Status => ("get_whatsapp_connection_status"@, JsonV::Object(Seq::empty())),
        WhatsappCmd::Connect { mode, ttl_minutes } => (
            "create_whatsapp_connect_link"@,
            JsonV::Object(connect_args(mode@, ttl_minutes)),
        ),
    }
}

impl WhatsappCmd {
    pub fn tool_call(self) -> (r: ToolCall)
        ensures
            r@ == whatsapp_call(self),
    {
        match self {
            WhatsappCmd::Status => call_no_args("get_whatsapp_connection_status"),
            WhatsappCmd::Connect { mode, ttl_minutes } => {
                proof {
                    reveal_strlit("onboardingMode");
                    reveal_strlit("ttlMinutes");
                    assert("onboardingMode"@.len() == 14 && "ttlMinutes"@.len() == 10);
                }
                let m = normalize_mode(mode.as_str());
                let ghost mv = m@;
                let mut args: Vec<(String, Json)> = Vec::new();
                assert(entries_view(args@) =~= Seq::empty());
                insert_str(&mut args, "onboardingMode", m);
                proof {
                    lemma_insert_fresh(Seq::empty(), "onboardingMode"@, JsonV::Str(mv));
                }
                assert(fresh_key(entries_view(args@), "ttlMinutes"@));
                insert_optional_number(&mut args, "ttlMinutes", ttl_minutes);
                assert(entries_view(args@) =~= connect_args(mode@, ttl_minutes));
                call("create_whatsapp_connect_link", object(args))
            },
        }
    }
}

/// `cloud-api` is sent as the tool's `cloud_api`; every other mode, such as
/// `coexistence`, is sent as given.
pub proof fn law_normalized_modes(mode: Seq<char>)
    ensures
        normalized_mode("cloud-api"@) == "cloud_api"@,
        mode != "cloud-api"@ ==> normalized_mode(mode) == mode,
{
}

/// The status subcommand calls `get_whatsapp_connection_status` with no
/// arguments. Connecting calls `create_whatsapp_connect_link` with the
/// normalized mode under `onboardingMode` and the lifetime, when one is
/// given, under `ttlMinutes`, and nothing else.
pub proof fn law_whatsapp_calls(mode: String, ttl: Option<u32>)
    ensures
        whatsapp_call(WhatsappCmd::Status) == ("get_whatsapp_connection_status"@, JsonV::Object(
            Seq::empty(),
        )),
        whatsapp_call(WhatsappCmd::Connect { mode, ttl_minutes: ttl }).0
            == "create_whatsapp_connect_link"@,
        whatsapp_call(WhatsappCmd::Connect { mode, ttl_minutes: ttl }).1 is Object,
        lookup(whatsapp_call(WhatsappCmd::Connect { mode, ttl_minutes: ttl }).1, "onboardingMode"@)
            == Some(JsonV::Str(normalized_mode(mode@))),
        lookup(whatsapp_call(WhatsappCmd::Connect { mode, ttl_minutes: ttl }).1, "ttlMinutes"@)
            == opt_num_value(ttl),
        forall|k: Seq<char>|
            k != "onboardingMode"@ && k != "ttlMinutes"@ ==> lookup(
                #[trigger] whatsapp_call(WhatsappCmd::Connect { mode, ttl_minutes: ttl }).1,
                k,
            ) is None,
        whatsapp_call(WhatsappCmd::Status).0 != whatsapp_call(
            WhatsappCmd::Connect { mode, ttl_minutes: ttl },
        ).0,
{
    broadcast use group_lookup_args;

    reveal_strlit("onboardingMode");
    reveal_strlit("ttlMinutes");
    reveal_strlit("get_whatsapp_connection_status");
    reveal_strlit("create_whatsapp_connect_link");
    assert("onboardingMode"@.len() == 14 && "ttlMinutes"@.len() == 10
        && "get_whatsapp_connection_status"@.len() == 30
        && "create_whatsapp_connect_link"@.len() == 28);
}

} // verus!
