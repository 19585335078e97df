//! Signing up a new workspace, and handling the API key a verification returns.
use vstd::prelude::*;
use vstd::string::*;

use super::{
    call, fresh_key, group_lookup_args, insert_optional, insert_str, lemma_insert_fresh,
    lemma_lookup_pair, object, opt_str_entry, opt_str_value, Entries, ToolCall,
};
use crate::json::{entries_view, json_set, lemma_lookup_after_set, lookup, Json, JsonV};

verus! {

broadcast use vstd::string::group_string_axioms;

pub enum SignupCmd {
    /// Request a signup verification code for a new workspace.
    Request {
        email: String,
        organisation_name: String,
        industry: Option<String>,
        country: Option<String>,
        timezone: Option<String>,
    },
    /// Verify a signup code and receive the first MCP API key.
    Verify { request_id: String, code: String, no_save: bool, show_key: bool },
}

/// Arguments of `register_organisation_request`.
pub open spec fn request_args(
    email: Seq<char>,
    organisation_name: Seq<char>,
    industry: Option<String>,
    country: Option<String>,
    timezone: Option<String>,
) -> Entries {
    seq![("email"@, JsonV::Str(email)), ("organisationName"@, JsonV::Str(organisation_name))]
        + opt_str_entry("industry"@, industry) + opt_str_entry("country"@, country) + opt_str_entry(
        "timezone"@,
        timezone,
    )
}

/// The tool call each signup subcommand makes.
pub open spec fn signup_call(cmd: SignupCmd) -> (Seq<char>, JsonV) {
    match cmd {
        SignupCmd::Request { email, organisation_name, industry, country, timezone } => (
            "register_organisation_request"@,
            JsonV::Object(request_args(email@, organisation_name@, industry, country, timezone)),
        ),
        SignupCmd::Verify { request_id, code, .. } => (
            "register_organisation_verify"@,
            JsonV::Object(
                seq![("requestId"@, JsonV::Str(request_id@)), ("code"@, JsonV::Str(code@))],
            ),
        ),
    }
}

impl SignupCmd {
    pub fn tool_call(self) -> (r: ToolCall)
        ensures
            r@ == signup_call(self),
    {
        proof {
            reveal_strlit("email");
            reveal_strlit("organisationName");
            reveal_strlit("industry");
            reveal_strlit("country");
            reveal_strlit("timezone");
            reveal_strlit("requestId");
            reveal_strlit("code");
            assert("email"@.len() == 5 && "organisationName"@.len() == 16 && "industry"@.len() == 8
                && "country"@.len() == 7 && "timezone"@.len() == 8 && "requestId"@.len() == 9
                && "code"@.len() == 4);
            assert("industry"@[0] != "timezone"@[0]);
        }
        match self {
            SignupCmd::Request { email, organisation_name, industry, country, timezone } => {
                let ghost (e, o, i, c, t) = (email@, organisation_name@, industry, country, timezone);
                let mut args: Vec<(String, Json)> = Vec::new();
                assert(entries_view(args@) =~= Seq::empty());
                insert_str(&mut args, "email", email);
                proof {
                    lemma_insert_fresh(Seq::empty(), "email"@, JsonV::Str(e));
                }
                let ghost es1 = entries_view(args@);
                assert(fresh_key(es1, "organisationName"@));
                insert_str(&mut args, "organisationName", organisation_name);
                proof {
                    lemma_insert_fresh(es1, "organisationName"@, JsonV::Str(o));
                }
                assert(fresh_key(entries_view(args@), "industry"@));
                insert_optional(&mut args, "industry", industry);
                assert(fresh_key(entries_view(args@), "country"@));
                insert_optional(&mut args, "country", country);
                assert(fresh_key(entries_view(args@), "timezone"@));
                insert_optional(&mut args, "timezone", timezone);
                assert(entries_view(args@) =~= request_args(e, o, i, c, t));
                call("register_organisation_request", object(args))
            },
            SignupCmd::Verify { request_id, code, .. } => {
                let ghost (r, c) = (request_id@, code@);
                let mut args: Vec<(String, Json)> = Vec::new();
                assert(entries_view(args@) =~= Seq::empty());
                insert_str(&mut args, "requestId", request_id);
                proof {
                    lemma_insert_fresh(Seq::empty(), "requestId"@, JsonV::Str(r));
                }
                let ghost es1 = entries_view(args@);
                assert(fresh_key(es1, "code"@));
                insert_str(&mut args, "code", code);
                proof {
                    lemma_insert_fresh(es1, "code"@, JsonV::Str(c));
                    assert(entries_view(args@) =~= seq![
                        ("requestId"@, JsonV::Str(r)),
                        ("code"@, JsonV::Str(c)),
                    ]);
                }
                call("register_organisation_verify", object(args))
            },
        }
    }
}

// ---------------------------------------------------------------------------
// The returned API key
// ---------------------------------------------------------------------------

/// A secret as shown to people: its first 8 and last 4 characters around
/// `...`, or `****` when it has 12 characters or fewer.
pub open spec fn masked(s: Seq<char>) -> Seq<char> {
    if s.len() <= 12 {
        "****"@
    } else {
        s.take(8) + "..."@ + s.skip(s.len() - 4)
    }
}

pub fn mask_secret(s: &str) -> (r: String)
    ensures
        r@ == masked(s@),
{
    let n = s.unicode_len();
    if n <= 12 {
        return String::from_str("****");
    }
    let start = s.substring_char(0, 8);
    let end = s.substring_char(n - 4, n);
    let r = String::from_str(start).concat("...").concat(end);
    assert(r@ =~= masked(s@));
    r
}

/// Masking an already masked secret changes nothing.
pub proof fn law_mask_idempotent(s: Seq<char>)
    ensures
        masked(masked(s)) == masked(s),
{
    reveal_strlit("****");
    reveal_strlit("...");
    if s.len() > 12 {
        let m = masked(s);
        assert(m.len() == 15);
        assert(m.take(8) =~= s.take(8));
        assert(m.skip(m.len() - 4) =~= s.skip(s.len() - 4));
    }
}

/// A masked secret shows at most 12 of the secret's characters: its first
/// 8 and its last 4.
pub proof fn law_mask_reveals_little(s: Seq<char>)
    ensures
        s.len() > 12 ==> masked(s).len() == 15 && masked(s).take(8) == s.take(8)
            && masked(s).skip(11) == s.skip(s.len() - 4),
        s.len() <= 12 ==> masked(s) == "****"@,
{
    reveal_strlit("...");
    if s.len() > 12 {
        assert(masked(s).take(8) =~= s.take(8));
        assert(masked(s).skip(11) =~= s.skip(s.len() - 4));
    }
}

/// The API key a result carries: its `apiKey` member when that is a string.
pub open spec fn api_key_of(v: JsonV) -> Option<Seq<char>> {
    match lookup(v, "apiKey"@) {
        Some(JsonV::Str(k)) => Some(k),
        _ => None,
    }
}

/// The result with its API key masked, or unchanged when it carries none.
pub open spec fn masked_result(v: JsonV) -> JsonV {
    match api_key_of(v) {
        Some(k) => json_set(v, "apiKey"@, JsonV::Str(masked(k))),
        None => v,
    }
}

fn api_key_text(value: &Json) -> (r: Option<&str>)
    ensures
        match r {
            Some(k) => api_key_of(value@) == Some(k@),
            None => api_key_of(value@) is None,
        },
{
    match value.get("apiKey") {
        Some(k) => match k.as_str() {
            Some(t) => Some(t),
            None => None,
        },
        None => None,
    }
}

/// Masks the `apiKey` member of a result for human output.
pub fn mask_api_key(value: &mut Json)
    ensures
        final(value)@ == masked_result(old(value)@),
        api_key_of(old(value)@) is None ==> final(value)@ == old(value)@,
{
    let masked_key = match api_key_text(value) {
        Some(k) => mask_secret(k),
        None => {
            return;
        },
    };
    value.set(String::from_str("apiKey"), Json::Str(masked_key));
}

/// Masks the key for human output unless the full key was asked for; JSON
/// output is never masked.
pub fn conceal_key(value: &mut Json, json_out: bool, show_key: bool)
    ensures
        final(value)@ == (if !json_out && !show_key {
            masked_result(old(value)@)
        } else {
            old(value)@
        }),
{
    if !json_out && !show_key {
        mask_api_key(value);
    }
}

/// The key to save to the config file: the result's API key, unless saving
/// was declined.
pub open spec fn key_to_save(v: JsonV, no_save: bool) -> Option<Seq<char>> {
    if no_save {
        None
    } else {
        api_key_of(v)
    }
}

pub fn api_key_to_save(value: &Json, no_save: bool) -> (r: Option<String>)
    ensures
        match r {
            Some(k) => key_to_save(value@, no_save) == Some(k@),
            None => key_to_save(value@, no_save) is None,
        },
{
    if no_save {
        return None;
    }
    match api_key_text(value) {
        Some(k) => Some(String::from_str(k)),
        None => None,
    }
}

/// Records where the key was saved, under `apiKeySavedTo`.
pub fn note_saved_path(value: &mut Json, path: String)
    ensures
        final(value)@ == json_set(old(value)@, "apiKeySavedTo"@, JsonV::Str(path@)),
{
    value.set(String::from_str("apiKeySavedTo"), Json::Str(path));
}

/// In human output, a result that saved its key also suggests the next
/// command to run.
pub open spec fn with_next_command(v: JsonV, json_out: bool) -> JsonV {
    if !json_out && lookup(v, "apiKeySavedTo"@) is Some && lookup(v, "apiKey"@) is Some {
        json_set(v, "nextCommand"@, JsonV::Str("favcrm whoami"@))
    } else {
        v
    }
}

pub fn add_next_command(value: &mut Json, json_out: bool)
    ensures
        final(value)@ == with_next_command(old(value)@, json_out),
{
    if json_out {
        return;
    }
    let saved = value.get("apiKeySavedTo").is_some();
    let has_key = value.get("apiKey").is_some();
    if saved && has_key {
        value.set(String::from_str("nextCommand"), Json::Str(String::from_str("favcrm whoami")));
    }
}

} // verus!

verus! {

/// What became of the key a verification returned: the path it was saved
/// to, if it was saved, and whether the full key was asked for.
#[derive(Debug)]
pub struct KeyOutcome {
    pub saved_to: Option<String>,
    pub show_key: bool,
}

/// A verification result after handling its key: the save path recorded
/// under `apiKeySavedTo` when the key was saved, then the key masked for
/// human output unless the full key was asked for.
pub open spec fn key_result_view(
    v: JsonV,
    saved_to: Option<Seq<char>>,
    json_out: bool,
    show_key: bool,
) -> JsonV {
    let noted = match saved_to {
        Some(p) => json_set(v, "apiKeySavedTo"@, JsonV::Str(p)),
        None => v,
    };
    if !json_out && !show_key {
        masked_result(noted)
    } else {
        noted
    }
}

pub open spec fn saved_view(o: Option<String>) -> Option<Seq<char>> {
    match o {
        Some(p) => Some(p@),
        None => None,
    }
}

/// Handles the key of a verification result: records where it was saved,
/// then masks it for human output unless the full key was asked for.
pub fn finish_key_result(value: &mut Json, outcome: KeyOutcome, json_out: bool)
    ensures
        final(value)@ == key_result_view(
            old(value)@,
            saved_view(outcome.saved_to),
            json_out,
            outcome.show_key,
        ),
{
    if let Some(path) = outcome.saved_to {
        note_saved_path(value, path);
    }
    conceal_key(value, json_out, outcome.show_key);
}

/// What a signup prints: a verification's key handled first, then, in human
/// output, the next command suggested when the key was saved.
pub open spec fn signup_result_view(v: JsonV, json_out: bool, verify: Option<(Option<Seq<char>>, bool)>) -> JsonV {
    with_next_command(
        match verify {
            Some((saved_to, show_key)) => key_result_view(v, saved_to, json_out, show_key),
            None => v,
        },
        json_out,
    )
}

pub open spec fn outcome_view(o: Option<KeyOutcome>) -> Option<(Option<Seq<char>>, bool)> {
    match o {
        Some(k) => Some((saved_view(k.saved_to), k.show_key)),
        None => None,
    }
}

/// Prepares a signup result for printing; `verify` is present for a
/// verification and carries what became of its key.
pub fn present_signup_result(value: &mut Json, json_out: bool, verify: Option<KeyOutcome>)
    ensures
        final(value)@ == signup_result_view(old(value)@, json_out, outcome_view(verify)),
{
    if let Some(outcome) = verify {
        finish_key_result(value, outcome, json_out);
    }
    add_next_command(value, json_out);
}

/// Requesting a signup calls `register_organisation_request` with the email
/// and organisation name, each of industry, country and timezone that is
/// given, and nothing else; verifying calls `register_organisation_verify`
/// with the request ID and the code alone (whether the key is saved or shown
/// never reaches the server).
pub proof fn law_signup_calls(
    email: String,
    organisation_name: String,
    industry: Option<String>,
    country: Option<String>,
    timezone: Option<String>,
    request_id: String,
    code: String,
    no_save: bool,
    show_key: bool,
)
    ensures
        ({
            let call = signup_call(
                SignupCmd::Request { email, organisation_name, industry, country, timezone },
            );
            &&& call.0 == "register_organisation_request"@
            &&& call.1 is Object
            &&& lookup(call.1, "email"@) == Some(JsonV::Str(email@))
            &&& lookup(call.1, "organisationName"@) == Some(JsonV::Str(organisation_name@))
            &&& lookup(call.1, "industry"@) == opt_str_value(industry)
            &&& lookup(call.1, "country"@) == opt_str_value(country)
            &&& lookup(call.1, "timezone"@) == opt_str_value(timezone)
            &&& forall|k: Seq<char>|
                k != "email"@ && k != "organisationName"@ && k != "industry"@ && k != "country"@
                    && k != "timezone"@ ==> #[trigger] lookup(call.1, k) is None
        }),
        ({
            let call = signup_call(SignupCmd::Verify { request_id, code, no_save, show_key });
            &&& call.0 == "register_organisation_verify"@
            &&& call.1 is Object
            &&& lookup(call.1, "requestId"@) == Some(JsonV::Str(request_id@))
            &&& lookup(call.1, "code"@) == Some(JsonV::Str(code@))
            &&& forall|k: Seq<char>|
                k != "requestId"@ && k != "code"@ ==> #[trigger] lookup(call.1, k) is None
        }),
{
    broadcast use group_lookup_args;

    reveal_strlit("email");
    reveal_strlit("organisationName");
    reveal_strlit("industry");
    reveal_strlit("country");
    reveal_strlit("timezone");
    reveal_strlit("requestId");
    reveal_strlit("code");
    assert("email"@.len() == 5 && "organisationName"@.len() == 16 && "industry"@.len() == 8
        && "country"@.len() == 7 && "timezone"@.len() == 8 && "requestId"@.len() == 9
        && "code"@.len() == 4);
    assert("industry"@[0] != "timezone"@[0]);
    lemma_lookup_pair(
        seq![("email"@, JsonV::Str(email@)), ("organisationName"@, JsonV::Str(organisation_name@))],
        "email"@,
        JsonV::Str(email@),
        "organisationName"@,
        JsonV::Str(organisation_name@),
    );
    lemma_lookup_pair(
        seq![("requestId"@, JsonV::Str(request_id@)), ("code"@, JsonV::Str(code@))],
        "requestId"@,
        JsonV::Str(request_id@),
        "code"@,
        JsonV::Str(code@),
    );
}

/// The key a verification returns is printed masked in human output unless
/// the full key was asked for, and as it came in JSON output; where it was
/// saved is recorded under `apiKeySavedTo`; human output then suggests
/// `favcrm whoami` under `nextCommand` when the key was saved. Every other
/// member of the result is left as it came.
pub proof fn law_returned_key_handling(
    v: JsonV,
    key: Seq<char>,
    saved_to: Option<Seq<char>>,
    json_out: bool,
    show_key: bool,
    other: Seq<char>,
)
    requires
        api_key_of(v) == Some(key),
    ensures
        ({
            let r = signup_result_view(v, json_out, Some((saved_to, show_key)));
            &&& lookup(r, "apiKey"@) == Some(
                JsonV::Str(
                    if !json_out && !show_key {
                        masked(key)
                    } else {
                        key
                    },
                ),
            )
            &&& (saved_to matches Some(p) ==> lookup(r, "apiKeySavedTo"@) == Some(JsonV::Str(p)))
            &&& (saved_to is None ==> lookup(r, "apiKeySavedTo"@) == lookup(v, "apiKeySavedTo"@))
            &&& lookup(r, "nextCommand"@) == if !json_out && (saved_to is Some || lookup(
                v,
                "apiKeySavedTo"@,
            ) is Some) {
                Some(JsonV::Str("favcrm whoami"@))
            } else {
                lookup(v, "nextCommand"@)
            }
            &&& (other != "apiKey"@ && other != "apiKeySavedTo"@ && other != "nextCommand"@
                ==> lookup(r, other) == lookup(v, other))
        }),
{
    broadcast use lemma_lookup_after_set;

    reveal_strlit("apiKey");
    reveal_strlit("apiKeySavedTo");
    reveal_strlit("nextCommand");
    assert("apiKey"@.len() == 6 && "apiKeySavedTo"@.len() == 13 && "nextCommand"@.len() == 11);
    assert(v is Object);
    let noted = match saved_to {
        Some(p) => json_set(v, "apiKeySavedTo"@, JsonV::Str(p)),
        None => v,
    };
    assert(noted is Object);
    assert(api_key_of(noted) == Some(key));
    let handled = if !json_out && !show_key {
        masked_result(noted)
    } else {
        noted
    };
    assert(handled == key_result_view(v, saved_to, json_out, show_key));
    assert(handled is Object);
    assert(lookup(handled, "apiKey"@) is Some);
    assert(lookup(handled, "apiKeySavedTo"@) == lookup(noted, "apiKeySavedTo"@));
    assert(lookup(handled, other) == lookup(v, other) || other == "apiKey"@ || other
        == "apiKeySavedTo"@);
}

} // verus!
