use favcrm::client::{
    extract_data, payload_of, request_body, rpc_outcome, rpc_request, tool_call_params, tools_of,
    truncate, EnvelopeError, RequestIds, RpcEnvelope, RpcError, RpcFailure,
};
use favcrm::commands::bookings::BookingsCmd;
use favcrm::commands::doctor::{
    auth_source, insert_tool_result, probes, record_catalog, start_report,
};
use favcrm::commands::invoices::InvoicesCmd;
use favcrm::commands::login::saved_message;
use favcrm::commands::members::MembersCmd;
use favcrm::commands::orgs::OrgsCmd;
use favcrm::commands::plan::{portal_args, PlanCmd};
use favcrm::commands::signup::{
    add_next_command, api_key_to_save, conceal_key, mask_secret, note_saved_path,
    present_signup_result, KeyOutcome, SignupCmd,
};
use favcrm::commands::team::{present_invite_result, InviteCmd, TeamCmd};
use favcrm::commands::tool::{
    describe, unknown_tool_message, Args as ToolArgs, ToolAction, ToolArgsError,
};
use favcrm::commands::whatsapp::{normalize_mode, WhatsappCmd};
use favcrm::commands::{dashboard, prefers_optional_auth, requires_auth, whoami, Command};
use favcrm::config::{mcp_url_from_base, resolve, resolve_url, FileCfg, DEFAULT_URL};
use favcrm::json::{Json, JsonNumber};
use favcrm::metadata::{env_updates, probe_url, should_probe};
use favcrm::output::{pick_array, render, render_table, stringify_cell};

fn obj(entries: Vec<(&str, Json)>) -> Json {
    Json::Object(entries.into_iter().map(|(k, v)| (k.to_string(), v)).collect())
}

fn s(text: &str) -> Json {
    Json::Str(text.to_string())
}

fn n(u: u64) -> Json {
    Json::Number(JsonNumber::PosInt(u))
}

/// Parses JSON text the way the `tool` command parses its arguments.
fn parse_json(text: &str) -> Result<Json, String> {
    match (ToolArgs { name: "parse".to_string(), args: text.to_string(), rest: None }).action() {
        Ok(ToolAction::Call(call)) => Ok(call.args),
        Err(ToolArgsError::InvalidJson { reason, .. }) => Err(reason),
        _ => panic!("not a call"),
    }
}

fn parse(text: &str) -> Json {
    parse_json(text).unwrap()
}

/// Compact JSON text, as a table cell shows an object or array.
fn compact_text(v: &Json) -> String {
    stringify_cell(v)
}

/// Pretty JSON text, as JSON mode prints it.
fn pretty_text(v: &Json) -> String {
    render(v, true)
}

// ----- JSON model -----------------------------------------------------------

#[test]
fn parses_json_into_the_model() {
    let v = parse(r#"{"b": [1, -2, 1.5, null, true], "a": "x"}"#);
    let expected = obj(vec![
        ("a", s("x")),
        (
            "b",
            Json::Array(vec![
                n(1),
                Json::Number(JsonNumber::NegInt(-2)),
                Json::Number(JsonNumber::Float("1.5".to_string())),
                Json::Null,
                Json::Bool(true),
            ]),
        ),
    ]);
    assert!(v.equals(&expected));
    assert!(parse_json("{not json").is_err());
}

#[test]
fn prints_json_with_sorted_keys() {
    let v = obj(vec![("b", n(2)), ("a", s("x"))]);
    assert_eq!(compact_text(&v), r#"{"a":"x","b":2}"#);
    assert_eq!(pretty_text(&obj(vec![("a", n(1))])), "{\n  \"a\": 1\n}");
}

#[test]
fn reading_a_key_after_setting_it_gives_the_value() {
    let mut v = obj(vec![("a", n(1)), ("b", n(2))]);
    v.set("a".to_string(), s("new"));
    assert!(v.get("a").unwrap().equals(&s("new")));
    assert!(v.get("b").unwrap().equals(&n(2)));
    v.set("c".to_string(), Json::Null);
    assert!(v.get("c").unwrap().equals(&Json::Null));
    assert!(s("scalar").get("a").is_none());
    let mut scalar = n(3);
    scalar.set("a".to_string(), n(4));
    assert!(scalar.equals(&n(3)));
}

#[test]
fn duplicate_is_a_deep_copy() {
    let v = parse(r#"{"a": {"b": [1, "x"]}}"#);
    assert!(v.duplicate().equals(&v));
    assert!(!v.equals(&parse(r#"{"a": {"b": [1, "y"]}}"#)));
}

// ----- response framing -----------------------------------------------------

#[test]
fn raw_json_body_is_its_own_payload() {
    assert_eq!(payload_of("  {\"result\": 1}"), Some("  {\"result\": 1}"));
    assert_eq!(payload_of("[1]"), Some("[1]"));
}

#[test]
fn sse_body_yields_first_data_payload() {
    let body = "event: message\ndata: [DONE]\ndata:   {\"jsonrpc\":\"2.0\"}  \r\n\n";
    assert_eq!(payload_of(body), Some("{\"jsonrpc\":\"2.0\"}"));
    assert_eq!(payload_of("event: ping\ndata:\n\n"), None);
    assert_eq!(payload_of(""), None);
}

fn envelope(result: Option<Json>, error: Option<(i64, &str)>) -> RpcEnvelope {
    RpcEnvelope {
        result,
        error: error.map(|(code, message)| RpcError { code, message: message.to_string() }),
    }
}

#[test]
fn rpc_outcome_covers_every_failure() {
    assert!(matches!(rpc_outcome(500, "boom", None), Err(RpcFailure::Http { status: 500, .. })));
    let ok_env = Some(Ok(envelope(Some(n(1)), None)));
    assert!(matches!(rpc_outcome(404, "{}", ok_env), Err(RpcFailure::Http { status: 404, .. })));
    match rpc_outcome(200, "nothing", None) {
        Err(RpcFailure::Parse { error: EnvelopeError::NoPayload, body }) => assert_eq!(body, "nothing"),
        _ => panic!("expected a missing payload"),
    }
    match rpc_outcome(200, "{oops", Some(Err("expected value".to_string()))) {
        Err(RpcFailure::Parse { error: EnvelopeError::Syntax(m), body }) => {
            assert_eq!(m, "expected value");
            assert_eq!(body, "{oops");
        }
        _ => panic!("expected a syntax failure"),
    }
    match rpc_outcome(200, "x", Some(Ok(envelope(Some(n(1)), Some((3, "bad")))))) {
        Err(RpcFailure::Mcp { code, message }) => {
            assert_eq!(code, 3);
            assert_eq!(message, "bad");
        }
        _ => panic!("expected an MCP error"),
    }
    assert!(matches!(rpc_outcome(200, "{}", Some(Ok(envelope(None, None)))), Err(RpcFailure::MissingResult)));
    let tools = obj(vec![("tools", Json::Array(vec![]))]);
    let ok = rpc_outcome(299, "x", Some(Ok(envelope(Some(tools.duplicate()), None)))).unwrap();
    assert!(ok.equals(&tools));
}

// ----- requests and results -------------------------------------------------

#[test]
fn builds_json_rpc_requests() {
    let params = tool_call_params("list_bookings", obj(vec![("limit", n(5))]));
    let req = rpc_request(7, "tools/call", params);
    assert_eq!(
        compact_text(&req),
        r#"{"id":7,"jsonrpc":"2.0","method":"tools/call","params":{"arguments":{"limit":5},"name":"list_bookings"}}"#
    );
    assert_eq!(
        request_body(1, "tools/list", Json::Object(vec![])),
        r#"{"id":1,"jsonrpc":"2.0","method":"tools/list","params":{}}"#
    );
}

#[test]
fn request_ids_count_up_from_one() {
    let mut ids = RequestIds::new();
    assert_eq!(ids.take(), 1);
    assert_eq!(ids.take(), 2);
    assert_eq!(ids.take(), 3);
}

#[test]
fn extract_data_prefers_structured_content() {
    let r = parse(r#"{"structuredContent": {"data": [1], "meta": 2}, "content": []}"#);
    assert!(extract_data(r).equals(&parse("[1]")));
    let r = parse(r#"{"structuredContent": {"meta": 2}}"#);
    assert!(extract_data(r.duplicate()).equals(&r));
}

#[test]
fn extract_data_falls_back_to_content_text() {
    let r = parse(r#"{"content": [{"type": "text", "text": "{\"a\": 1}"}]}"#);
    assert!(extract_data(r).equals(&parse(r#"{"a": 1}"#)));
    let r = parse(r#"{"content": [{"type": "text", "text": "plain words"}]}"#);
    assert!(extract_data(r.duplicate()).equals(&r));
    let r = parse(r#"{"structuredContent": {"total": 3}, "content": [{"type": "text", "text": "[1]"}]}"#);
    assert!(extract_data(r).equals(&parse("[1]")));
    let r = parse(r#"{"content": [], "other": 1}"#);
    assert!(extract_data(r.duplicate()).equals(&r));
}

#[test]
fn tools_of_defaults_to_empty() {
    assert!(tools_of(&parse(r#"{"tools": [{"name": "a"}]}"#)).equals(&parse(r#"[{"name": "a"}]"#)));
    assert!(tools_of(&parse("{}")).equals(&Json::Array(vec![])));
}

#[test]
fn truncate_cuts_at_a_byte_count() {
    assert_eq!(truncate("short", 10), "short");
    assert_eq!(truncate("abcdef", 3), "abc…");
    assert_eq!(truncate("héllo", 3), "hé…");
    assert_eq!(truncate("abc", 3), "abc");
}

// ----- output -----------------------------------------------------------------

#[test]
fn cells_render_scalars_plainly() {
    assert_eq!(stringify_cell(&Json::Null), "");
    assert_eq!(stringify_cell(&s("x")), "x");
    assert_eq!(stringify_cell(&Json::Bool(false)), "false");
    assert_eq!(stringify_cell(&n(1234567890)), "1234567890");
    assert_eq!(stringify_cell(&Json::Number(JsonNumber::NegInt(i64::MIN))), "-9223372036854775808");
    assert_eq!(stringify_cell(&Json::Number(JsonNumber::Float("2.5".to_string()))), "2.5");
    assert_eq!(stringify_cell(&parse(r#"{"k": [1]}"#)), r#"{"k":[1]}"#);
}

#[test]
fn pick_array_unwraps_known_wrappers() {
    assert!(pick_array(&parse(r#"{"total": 1, "items": [1]}"#)).equals(&parse("[1]")));
    assert!(pick_array(&parse(r#"{"results": 3, "rows": [2]}"#)).equals(&parse("[2]")));
    assert!(pick_array(&parse(r#"{"data": [3]}"#)).equals(&parse("[3]")));
    assert!(pick_array(&parse(r#"{"x": 1}"#)).equals(&parse(r#"{"x": 1}"#)));
}

#[test]
fn tables_show_rows_of_objects() {
    let v = parse(r#"{"items": [{"id": 1, "name": "Ada"}, {"name": "Bob"}], "total": 2}"#);
    let t = render_table(&v);
    assert!(t.contains("id"));
    assert!(t.contains("name"));
    assert!(t.contains("Ada"));
    assert!(t.contains("Bob"));
    assert!(!t.contains("total"));
    assert_eq!(t.lines().count(), 6);
}

#[test]
fn tables_fall_back_to_json() {
    assert_eq!(render_table(&parse("[]")), "(no rows)");
    let v = parse(r#"{"ok": true}"#);
    assert_eq!(render_table(&v), pretty_text(&v));
    let v = parse(r#"[{"a": 1}, 2]"#);
    assert_eq!(render_table(&v), pretty_text(&v));
    let v = parse(r#"{"items": [{"a": 1}, [2]]}"#);
    assert_eq!(render_table(&v), pretty_text(&v));
    let v = parse("[1, 2]");
    assert_eq!(render_table(&v), pretty_text(&v));
    assert_eq!(render(&v, true), "[\n  1,\n  2\n]");
    assert_eq!(render(&v, false), render_table(&v));
}

// ----- commands ---------------------------------------------------------------

#[test]
fn only_doctor_prefers_optional_auth() {
    assert!(prefers_optional_auth(&Command::Doctor));
    assert!(!prefers_optional_auth(&Command::Whoami));
    assert!(requires_auth(&Command::Dashboard));
    assert!(!requires_auth(&Command::Login(favcrm::commands::login::Args {
        api_key: "k".to_string(),
        url: DEFAULT_URL.to_string(),
    })));
    assert!(!requires_auth(&Command::Team(TeamCmd::Invite {
        cmd: InviteCmd::AcceptVerify {
            token: "t".to_string(),
            code: "1".to_string(),
            name: None,
            no_save: false,
            show_key: false,
        },
    })));
}

#[test]
fn bookings_list_sends_only_given_filters() {
    let c = BookingsCmd::List { from: Some("2024-01-01".to_string()), to: None, status: None, limit: Some(10) }
        .tool_call();
    assert_eq!(c.name, "list_bookings");
    assert_eq!(compact_text(&c.args), r#"{"from":"2024-01-01","limit":10}"#);
    let c = BookingsCmd::Cancel { booking_id: "b1".to_string() }.tool_call();
    assert_eq!(c.name, "cancel_booking");
    assert_eq!(compact_text(&c.args), r#"{"bookingId":"b1"}"#);
}

#[test]
fn members_create_maps_flags() {
    let c = MembersCmd::Create {
        name: "Ada".to_string(),
        email: None,
        phone: Some("+1".to_string()),
        first_name: None,
        last_name: None,
        enroll_membership: true,
        tier_id: Some("t".to_string()),
        notes: None,
    }
    .tool_call();
    assert_eq!(c.name, "create_account");
    assert_eq!(compact_text(&c.args), r#"{"enrollMembership":true,"name":"Ada","phone":"+1","tierId":"t"}"#);
    let c = MembersCmd::Search { query: Some("al".to_string()), inactive_days: Some(90), tier_id: None, limit: None }
        .tool_call();
    assert_eq!(compact_text(&c.args), r#"{"inactiveDays":90,"search":"al"}"#);
}

#[test]
fn invoices_orgs_and_simple_calls() {
    let c = InvoicesCmd::Send { invoice_id: "i9".to_string() }.tool_call();
    assert_eq!(c.name, "mark_invoice_sent");
    assert_eq!(compact_text(&c.args), r#"{"invoiceId":"i9"}"#);
    assert_eq!(InvoicesCmd::Stats.tool_call().name, "get_invoice_stats");
    let c = OrgsCmd::Switch { company_id: "c1".to_string() }.tool_call();
    assert_eq!(compact_text(&c.args), r#"{"companyId":"c1"}"#);
    assert_eq!(dashboard::call().name, "get_dashboard_stats");
    assert_eq!(whoami::call().name, "list_my_companies");
}

#[test]
fn plan_portal_always_uses_lite_plan() {
    let args = Json::Object(portal_args(None, true));
    assert_eq!(compact_text(&args), r#"{"confirm":true,"planCode":"favcrm-lite"}"#);
    let c = PlanCmd::Check { tool: Some("create_account".to_string()), quota: None, module: None, delta: 1 }
        .tool_call();
    assert_eq!(c.name, "check_plan_operation");
    assert_eq!(compact_text(&c.args), r#"{"delta":1,"toolName":"create_account"}"#);
    let c = PlanCmd::Upgrade {
        plan_code: Some("favcrm-lite".to_string()),
        plan_id: None,
        billing_cycle: "monthly".to_string(),
        return_url: None,
        confirm: false,
    }
    .tool_call();
    assert_eq!(
        compact_text(&c.args),
        r#"{"billingCycle":"monthly","confirm":false,"planCode":"favcrm-lite"}"#
    );
}

#[test]
fn whatsapp_connect_normalizes_mode() {
    let c = WhatsappCmd::Connect { mode: "cloud-api".to_string(), ttl_minutes: Some(15) }.tool_call();
    assert_eq!(c.name, "create_whatsapp_connect_link");
    assert_eq!(compact_text(&c.args), r#"{"onboardingMode":"cloud_api","ttlMinutes":15}"#);
    assert_eq!(normalize_mode(&normalize_mode("cloud-api")), normalize_mode("cloud-api"));
}

#[test]
fn team_and_signup_calls() {
    let c = InviteCmd::Create {
        email: "m@example.com".to_string(),
        name: Some("M".to_string()),
        role: "manager".to_string(),
        expires_in_hours: Some(24),
    }
    .tool_call();
    assert_eq!(c.name, "create_team_member_invite");
    assert_eq!(
        compact_text(&c.args),
        r#"{"email":"m@example.com","expiresInHours":24,"name":"M","role":"manager"}"#
    );
    let c = SignupCmd::Verify { request_id: "r".to_string(), code: "123456".to_string(), no_save: true, show_key: false }
        .tool_call();
    assert_eq!(c.name, "register_organisation_verify");
    assert_eq!(compact_text(&c.args), r#"{"code":"123456","requestId":"r"}"#);
    assert!(!TeamCmd::Invite { cmd: InviteCmd::AcceptRequest { token: "t".to_string() } }.requires_auth());
}

fn tool_args(name: &str, args: &str, rest: Option<&str>) -> ToolArgs {
    ToolArgs { name: name.to_string(), args: args.to_string(), rest: rest.map(|r| r.to_string()) }
}

#[test]
fn tool_args_must_be_json() {
    match tool_args("list_campaigns", r#"{"limit":5}"#, None).action() {
        Ok(ToolAction::Call(c)) => {
            assert_eq!(c.name, "list_campaigns");
            assert_eq!(compact_text(&c.args), r#"{"limit":5}"#);
        }
        _ => panic!("expected a call"),
    }
    match tool_args("x", "{", None).action() {
        Err(ToolArgsError::InvalidJson { args, reason }) => {
            assert_eq!(args, "{");
            assert!(!reason.is_empty());
        }
        _ => panic!("expected invalid JSON"),
    }
}

#[test]
fn tool_subcommands() {
    assert!(matches!(tool_args("list", "{}", None).action(), Ok(ToolAction::List)));
    match tool_args("describe", "create_account", None).action() {
        Ok(ToolAction::Describe(n)) => assert_eq!(n, "create_account"),
        _ => panic!("expected describe"),
    }
    match tool_args("call", "list_campaigns", Some(r#"{"limit":5}"#)).action() {
        Ok(ToolAction::Call(c)) => {
            assert_eq!(c.name, "list_campaigns");
            assert_eq!(compact_text(&c.args), r#"{"limit":5}"#);
        }
        _ => panic!("expected a call"),
    }
    match tool_args("call", "get_plan_status", None).action() {
        Ok(ToolAction::Call(c)) => assert_eq!(compact_text(&c.args), "{}"),
        _ => panic!("expected a call"),
    }
    assert!(matches!(tool_args("call", "t", Some("nope")).action(), Err(ToolArgsError::InvalidJson { .. })));
    match tool_args("list_campaigns", "{}", Some("extra")).action() {
        Err(ToolArgsError::Unexpected(w)) => assert_eq!(w, "extra"),
        _ => panic!("expected an unexpected argument"),
    }
}

#[test]
fn describe_finds_the_input_schema() {
    let catalog = parse(
        r#"[{"name": "a", "inputSchema": {"type": "object"}}, {"name": "b"}, {"name": "a", "inputSchema": 1}]"#,
    );
    assert!(describe(&catalog, "a").unwrap().equals(&parse(r#"{"type": "object"}"#)));
    assert!(describe(&catalog, "b").unwrap().equals(&Json::Null));
    assert!(describe(&catalog, "c").is_none());
    assert!(describe(&parse("{}"), "a").is_none());
}

// ----- the API key --------------------------------------------------------------

#[test]
fn mask_secret_keeps_short_keys_hidden() {
    assert_eq!(mask_secret("123456789012"), "****");
    assert_eq!(mask_secret("1234567890123"), "12345678...0123");
    assert_eq!(mask_secret(&mask_secret("test_key_1234567890abcdef")), "test_key...cdef");
    assert_eq!(mask_secret(&mask_secret("short")), "****");
}

#[test]
fn verify_result_post_processing() {
    let mut v = obj(vec![("apiKey", s("fav_mcp_abcdefghijklmnop"))]);
    assert_eq!(api_key_to_save(&v, false), Some("fav_mcp_abcdefghijklmnop".to_string()));
    assert_eq!(api_key_to_save(&v, true), None);
    assert_eq!(api_key_to_save(&obj(vec![("apiKey", n(1))]), false), None);
    note_saved_path(&mut v, "/tmp/config.toml".to_string());
    let mut json_mode = v.duplicate();
    conceal_key(&mut json_mode, true, false);
    assert!(json_mode.equals(&v));
    let mut shown = v.duplicate();
    conceal_key(&mut shown, false, true);
    assert!(shown.equals(&v));
    conceal_key(&mut v, false, false);
    assert!(v.get("apiKey").unwrap().equals(&s("fav_mcp_...mnop")));
    add_next_command(&mut v, false);
    assert!(v.get("nextCommand").unwrap().equals(&s("favcrm whoami")));
    let mut plain = obj(vec![("apiKey", s("k"))]);
    add_next_command(&mut plain, false);
    assert!(plain.get("nextCommand").is_none());
}

#[test]
fn key_results_are_presented_in_order() {
    let key = "fav_mcp_abcdefghijklmnop";
    let mut v = obj(vec![("apiKey", s(key))]);
    present_signup_result(&mut v, false, Some(KeyOutcome { saved_to: Some("/c.toml".to_string()), show_key: false }));
    assert!(v.get("apiKeySavedTo").unwrap().equals(&s("/c.toml")));
    assert!(v.get("apiKey").unwrap().equals(&s("fav_mcp_...mnop")));
    assert!(v.get("nextCommand").unwrap().equals(&s("favcrm whoami")));
    let mut v = obj(vec![("apiKey", s(key))]);
    present_signup_result(&mut v, true, Some(KeyOutcome { saved_to: Some("/c.toml".to_string()), show_key: false }));
    assert!(v.get("apiKey").unwrap().equals(&s(key)));
    assert!(v.get("nextCommand").is_none());
    let mut v = obj(vec![("apiKey", s(key))]);
    present_signup_result(&mut v, false, Some(KeyOutcome { saved_to: None, show_key: true }));
    assert!(v.get("apiKey").unwrap().equals(&s(key)));
    assert!(v.get("apiKeySavedTo").is_none());
    assert!(v.get("nextCommand").is_none());
    let mut v = obj(vec![("apiKey", s(key))]);
    present_invite_result(&mut v, false, Some(KeyOutcome { saved_to: Some("/c.toml".to_string()), show_key: false }));
    assert!(v.get("apiKey").unwrap().equals(&s("fav_mcp_...mnop")));
    assert!(v.get("nextCommand").is_none());
    let mut v = obj(vec![("ok", Json::Bool(true))]);
    present_invite_result(&mut v, false, None);
    assert!(v.equals(&obj(vec![("ok", Json::Bool(true))])));
}

// ----- configuration ------------------------------------------------------------

fn no_file() -> FileCfg {
    FileCfg { api_key: None, url: None }
}

#[test]
fn api_key_priority_order() {
    let file = FileCfg { api_key: Some("file".to_string()), url: None };
    let r = resolve(Some("flag".to_string()), DEFAULT_URL, Some("token".to_string()), None, None, file).ok().unwrap();
    assert_eq!(r.api_key, "flag");
    let file = FileCfg { api_key: Some("file".to_string()), url: None };
    let r = resolve(None, DEFAULT_URL, Some("token".to_string()), None, None, file).ok().unwrap();
    assert_eq!(r.api_key, "token");
    let file = FileCfg { api_key: Some("file".to_string()), url: None };
    let r = resolve(None, DEFAULT_URL, None, None, None, file).ok().unwrap();
    assert_eq!(r.api_key, "file");
    assert_eq!(r.url, DEFAULT_URL);
    let err = resolve(None, DEFAULT_URL, None, None, None, no_file()).err().unwrap();
    assert!(err.message().starts_with("no API key."));
}

#[test]
fn url_priority_order() {
    assert_eq!(resolve_url("http://local/mcp", Some("env".to_string()), None, None), "http://local/mcp");
    assert_eq!(resolve_url(DEFAULT_URL, Some("env".to_string()), Some("base".to_string()), None), "env");
    assert_eq!(resolve_url(DEFAULT_URL, None, Some("https://api.x//".to_string()), Some("f".to_string())), "https://api.x/mcp");
    assert_eq!(resolve_url(DEFAULT_URL, None, None, Some("f".to_string())), "f");
    assert_eq!(mcp_url_from_base("https://a.io"), "https://a.io/mcp");
    assert_eq!(mcp_url_from_base("///"), "/mcp");
}

#[test]
fn sidecar_probe_settings() {
    assert!(should_probe(false));
    assert!(!should_probe(true));
    assert_eq!(probe_url(None), "http://127.0.0.1:3002/v1/cli-token");
    assert_eq!(probe_url(Some("4000".to_string())), "http://127.0.0.1:4000/v1/cli-token");
    let u = env_updates("tok".to_string(), Some("https://u".to_string()), false);
    assert_eq!(u, vec![
        ("FAVCRM_API_KEY".to_string(), "tok".to_string()),
        ("FAVCRM_MCP_URL".to_string(), "https://u".to_string()),
    ]);
    let u = env_updates("tok".to_string(), Some("https://u".to_string()), true);
    assert_eq!(u, vec![("FAVCRM_API_KEY".to_string(), "tok".to_string())]);
}

#[test]
fn login_message() {
    assert_eq!(saved_message("https://u", "/p/config.toml"), "Saved https://u → /p/config.toml");
}

// ----- doctor -------------------------------------------------------------------

#[test]
fn doctor_report_sections() {
    assert_eq!(auth_source(true, true, true), "FAVCRM_API_KEY");
    assert_eq!(auth_source(false, true, true), "FAVCRM_MCP_TOKEN");
    assert_eq!(auth_source(false, false, true), "config file");
    assert_eq!(auth_source(false, false, false), "cli flag");
    let mut report = start_report("https://u", false, "cli flag".to_string());
    assert_eq!(report.len(), 2);
    assert!(probes(false).is_empty());
    assert!(record_catalog(&mut report, Ok(parse("[1, 2, 3]"))));
    assert_eq!(compact_text(&Json::Object(report)), r#"{"authenticated":false,"reachable":true,"toolCount":3,"url":"https://u"}"#);
    let mut report = start_report("https://u", true, "config file".to_string());
    assert!(!record_catalog(&mut report, Err("down".to_string())));
    insert_tool_result(&mut report, "plan", Err("denied".to_string()));
    insert_tool_result(&mut report, "whatsapp", Ok(s("ok")));
    assert_eq!(
        compact_text(&Json::Object(report)),
        r#"{"authSource":"config file","authenticated":true,"error":"down","planError":"denied","reachable":false,"url":"https://u","whatsapp":"ok"}"#
    );
    let p = probes(true);
    assert_eq!(p.len(), 3);
    assert_eq!(p[0], ("currentUser".to_string(), "list_my_companies".to_string()));
}

// ----- messages -----------------------------------------------------------------

#[test]
fn failures_have_exact_messages() {
    let url = "https://api.favcrm.io/mcp";
    let http = RpcFailure::Http { status: 500, body: "boom".to_string() };
    assert_eq!(http.message("500 Internal Server Error", url), "HTTP 500 Internal Server Error from https://api.favcrm.io/mcp: boom");
    let mcp = RpcFailure::Mcp { code: -32601, message: "no such tool".to_string() };
    assert_eq!(mcp.message("200 OK", url), "MCP error -32601: no such tool");
    assert_eq!(RpcFailure::MissingResult.message("200 OK", url), "MCP response missing result");
    let long = "x".repeat(250);
    let parse = RpcFailure::Parse { error: EnvelopeError::NoPayload, body: long.clone() };
    assert_eq!(parse.message("200 OK", url), format!("parse MCP response: {}…", &long[..200]));
    let short = RpcFailure::Parse { error: EnvelopeError::Syntax("bad".to_string()), body: "oops".to_string() };
    assert_eq!(short.message("200 OK", url), "parse MCP response: oops");
    assert_eq!(EnvelopeError::NoPayload.message(), "no JSON or SSE payload in response");
    assert_eq!(EnvelopeError::Syntax("expected value".to_string()).message(), "expected value");
}

#[test]
fn tool_errors_have_exact_messages() {
    let e = ToolArgsError::InvalidJson { args: "{".to_string(), reason: "eof".to_string() };
    assert_eq!(e.message(), "invalid JSON for tool args: {");
    assert_eq!(ToolArgsError::Unexpected("x".to_string()).message(), "unexpected argument 'x'");
    assert_eq!(unknown_tool_message("nope"), "unknown tool: nope");
}

#[test]
fn json_parse_reads_text() {
    assert!(Json::parse(r#"{"b": 1, "a": [true]}"#).unwrap().equals(&obj(vec![
        ("a", Json::Array(vec![Json::Bool(true)])),
        ("b", n(1)),
    ])));
    assert!(Json::parse(r#"{"a": 1, "a": 2}"#).unwrap().equals(&obj(vec![("a", n(2))])));
    assert!(Json::parse("nope").is_err());
}

