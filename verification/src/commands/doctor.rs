//! Diagnosing the MCP endpoint, auth, plan, and channel setup.
use vstd::prelude::*;
use vstd::string::*;

use super::{fresh_key, insert_str, lemma_insert_fresh, Entries};
use crate::json::{
    entries_insert, entries_view, insert_entry, lemma_view_array, Json, JsonNumber,
    JsonV, NumberV,
};

verus! {

broadcast use vstd::string::group_string_axioms;

/// Where the credentials came from, as the doctor reports it.
pub open spec fn auth_source_view(api_key_env: bool, mcp_token_env: bool, config_exists: bool) -> Seq<
    char,
> {
    if api_key_env {
        "FAVCRM_API_KEY"@
    } else if mcp_token_env {
        "FAVCRM_MCP_TOKEN"@
    } else if config_exists {
        "config file"@
    } else {
        "cli flag"@
    }
}

/// Names the source of the API key from which environment variables are set
/// and whether the config file exists.
pub fn auth_source(api_key_env: bool, mcp_token_env: bool, config_exists: bool) -> (r: String)
    ensures
        r@ == auth_source_view(api_key_env, mcp_token_env, config_exists),
{
    if api_key_env {
        String::from_str("FAVCRM_API_KEY")
    } else if mcp_token_env {
        String::from_str("FAVCRM_MCP_TOKEN")
    } else if config_exists {
        String::from_str("config file")
    } else {
        String::from_str("cli flag")
    }
}

/// The opening lines of a report: the URL, whether a key is in use, and
/// (only then) its source.
pub open spec fn start_view(url: Seq<char>, authenticated: bool, source: Seq<char>) -> Entries {
    seq![("url"@, JsonV::Str(url)), ("authenticated"@, JsonV::Bool(authenticated))] + if authenticated {
        seq![("authSource"@, JsonV::Str(source))]
    } else {
        Seq::empty()
    }
}

pub fn start_report(url: &str, authenticated: bool, source: String) -> (r: Vec<(String, Json)>)
    ensures
        entries_view(r@) == start_view(url@, authenticated, source@),
{
    proof {
        reveal_strlit("url");
        reveal_strlit("authenticated");
        reveal_strlit("authSource");
        assert("url"@.len() == 3 && "authenticated"@.len() == 13 && "authSource"@.len() == 10);
    }
    let ghost s = source@;
    let mut report: Vec<(String, Json)> = Vec::new();
    assert(entries_view(report@) =~= Seq::empty());
    insert_str(&mut report, "url", String::from_str(url));
    proof {
        lemma_insert_fresh(Seq::empty(), "url"@, JsonV::Str(url@));
    }
    let ghost es1 = entries_view(report@);
    assert(fresh_key(es1, "authenticated"@));
    insert_entry(&mut report, String::from_str("authenticated"), Json::Bool(authenticated));
    proof {
        lemma_insert_fresh(es1, "authenticated"@, JsonV::Bool(authenticated));
    }
    if authenticated {
        let ghost es2 = entries_view(report@);
        assert(fresh_key(es2, "authSource"@));
        insert_str(&mut report, "authSource", source);
        proof {
            lemma_insert_fresh(es2, "authSource"@, JsonV::Str(s));
        }
    }
    assert(entries_view(report@) =~= start_view(url@, authenticated, s));
    report
}

/// The number of tools a catalog lists: its length when it is an array,
/// else zero.
pub open spec fn tool_count(tools: JsonV) -> nat {
    match tools {
        JsonV::Array(items) => items.len(),
        _ => 0,
    }
}

/// The report after trying to fetch the tool catalog: reachable with the
/// tool count, or unreachable with the error.
pub open spec fn catalog_view(report: Entries, catalog: Result<JsonV, Seq<char>>) -> Entries {
    match catalog {
        Ok(tools) => entries_insert(
            entries_insert(report, "reachable"@, JsonV::Bool(true)),
            "toolCount"@,
            JsonV::Number(NumberV::PosInt(tool_count(tools) as u64)),
        ),
        Err(e) => entries_insert(
            entries_insert(report, "reachable"@, JsonV::Bool(false)),
            "error"@,
            JsonV::Str(e),
        ),
    }
}

pub open spec fn result_view(r: Result<Json, String>) -> Result<JsonV, Seq<char>> {
    match r {
        Ok(v) => Ok(v@),
        Err(e) => Err(e@),
    }
}

/// Records the outcome of fetching the tool catalog; returns whether the
/// endpoint was reachable (the report goes on only then).
pub fn record_catalog(report: &mut Vec<(String, Json)>, catalog: Result<Json, String>) -> (r: bool)
    ensures
        r == (catalog is Ok),
        entries_view(final(report)@) == catalog_view(entries_view(old(report)@), result_view(catalog)),
{
    match catalog {
        Ok(tools) => {
            let count: usize = match &tools {
                Json::Array(items) => {
                    proof {
                        lemma_view_array(*items);
                    }
                    items.len()
                },
                _ => 0,
            };
            insert_entry(report, String::from_str("reachable"), Json::Bool(true));
            insert_entry(
                report,
                String::from_str("toolCount"),
                Json::Number(JsonNumber::PosInt(count as u64)),
            );
            true
        },
        Err(e) => {
            insert_entry(report, String::from_str("reachable"), Json::Bool(false));
            insert_str(report, "error", e);
            false
        },
    }
}

/// The report after one probe: its result under `key`, or its error under
/// `key` followed by `Error`.
pub open spec fn probe_view(report: Entries, key: Seq<char>, outcome: Result<JsonV, Seq<char>>) -> Entries {
    match outcome {
        Ok(v) => entries_insert(report, key, v),
        Err(e) => entries_insert(report, key + "Error"@, JsonV::Str(e)),
    }
}

pub fn insert_tool_result(
    report: &mut Vec<(String, Json)>,
    key: &str,
    outcome: Result<Json, String>,
)
    ensures
        entries_view(final(report)@) == probe_view(entries_view(old(report)@), key@, result_view(outcome)),
{
    match outcome {
        Ok(v) => insert_entry(report, String::from_str(key), v),
        Err(e) => {
            let k = String::from_str(key).concat("Error");
            insert_str(report, k.as_str(), e);
        },
    }
}

/// The probes an authenticated doctor runs after the catalog, as
/// (report key, tool) pairs; none without a key.
pub open spec fn probes_view(authenticated: bool) -> Seq<(Seq<char>, Seq<char>)> {
    if authenticated {
        seq![
            ("currentUser"@, "list_my_companies"@),
            ("plan"@, "get_plan_status"@),
            ("whatsapp"@, "get_whatsapp_connection_status"@),
        ]
    } else {
        Seq::empty()
    }
}

pub fn probes(authenticated: bool) -> (r: Vec<(String, String)>)
    ensures
        r@.len() == probes_view(authenticated).len(),
        forall|i: int|
            0 <= i < r@.len() ==> (#[trigger] r@[i]).0@ == probes_view(authenticated)[i].0 && r@[i].1@
                == probes_view(authenticated)[i].1,
{
    let mut v: Vec<(String, String)> = Vec::new();
    if authenticated {
        v.push((String::from_str("currentUser"), String::from_str("list_my_companies")));
        v.push((String::from_str("plan"), String::from_str("get_plan_status")));
        v.push(
            (String::from_str("whatsapp"), String::from_str("get_whatsapp_connection_status")),
        );
    }
    v
}

/// Without a key the doctor reports no key source and probes nothing beyond
/// the catalog.
pub proof fn law_unauthenticated_doctor(url: Seq<char>, source: Seq<char>)
    ensures
        start_view(url, false, source) == seq![
            ("url"@, JsonV::Str(url)),
            ("authenticated"@, JsonV::Bool(false)),
        ],
        probes_view(false).len() == 0,
{
    assert(start_view(url, false, source) =~= seq![
        ("url"@, JsonV::Str(url)),
        ("authenticated"@, JsonV::Bool(false)),
    ]);
}

/// With a key, the doctor probes, in order, the current user
/// (`list_my_companies`, reported under `currentUser`), the plan status
/// (`get_plan_status`, under `plan`) and the WhatsApp status
/// (`get_whatsapp_connection_status`, under `whatsapp`). The probes' keys
/// differ from one another and from the keys reported before them, so no
/// probe overwrites an earlier line of the report.
pub proof fn law_authenticated_doctor_probes()
    ensures
        probes_view(true) == seq![
            ("currentUser"@, "list_my_companies"@),
            ("plan"@, "get_plan_status"@),
            ("whatsapp"@, "get_whatsapp_connection_status"@),
        ],
        forall|i: int, j: int|
            0 <= i < j < probes_view(true).len() ==> (#[trigger] probes_view(true)[i]).0 != (
            #[trigger] probes_view(true)[j]).0,
        forall|i: int|
            0 <= i < probes_view(true).len() ==> {
                let k = (#[trigger] probes_view(true)[i]).0;
                &&& k != "url"@
                &&& k != "authenticated"@
                &&& k != "authSource"@
                &&& k != "reachable"@
                &&& k != "toolCount"@
                &&& k != "error"@
            },
{
    reveal_strlit("currentUser");
    reveal_strlit("plan");
    reveal_strlit("whatsapp");
    reveal_strlit("url");
    reveal_strlit("authenticated");
    reveal_strlit("authSource");
    reveal_strlit("reachable");
    reveal_strlit("toolCount");
    reveal_strlit("error");
    assert("currentUser"@.len() == 11 && "plan"@.len() == 4 && "whatsapp"@.len() == 8
        && "url"@.len() == 3 && "authenticated"@.len() == 13 && "authSource"@.len() == 10
        && "reachable"@.len() == 9 && "toolCount"@.len() == 9 && "error"@.len() == 5);
}

} // verus!
