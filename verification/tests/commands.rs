use favcrm::commands::signup::{mask_api_key, SignupCmd};
use favcrm::commands::team::{InviteCmd, TeamCmd};
use favcrm::commands::whatsapp::normalize_mode;
use favcrm::commands::{requires_auth, Command};
use favcrm::json::Json;

fn obj(entries: Vec<(&str, Json)>) -> Json {
    Json::Object(entries.into_iter().map(|(k, v)| (k.to_string(), v)).collect())
}

fn s(text: &str) -> Json {
    Json::Str(text.to_string())
}

#[test]
fn bootstrap_commands_do_not_require_existing_auth() {
    assert!(!requires_auth(&Command::Signup(SignupCmd::Request {
        email: "owner@example.com".to_string(),
        organisation_name: "Example".to_string(),
        industry: None,
        country: None,
        timezone: None,
    })));
    assert!(!requires_auth(&Command::Team(TeamCmd::Invite {
        cmd: InviteCmd::AcceptRequest { token: "invite".to_string() },
    })));
    assert!(!requires_auth(&Command::Doctor));
}

#[test]
fn normal_crm_and_invite_create_commands_require_auth() {
    assert!(requires_auth(&Command::Whoami));
    assert!(requires_auth(&Command::Team(TeamCmd::Invite {
        cmd: InviteCmd::Create {
            email: "member@example.com".to_string(),
            name: None,
            role: "staff".to_string(),
            expires_in_hours: None,
        },
    })));
}

#[test]
fn masks_api_key_for_human_output() {
    let mut value = obj(vec![("apiKey", s("test_key_1234567890abcdef"))]);
    mask_api_key(&mut value);
    assert!(value.get("apiKey").unwrap().equals(&s("test_key...cdef")));
}

#[test]
fn leaves_value_without_api_key_unchanged() {
    let mut value = obj(vec![("ok", Json::Bool(true))]);
    mask_api_key(&mut value);
    assert!(value.equals(&obj(vec![("ok", Json::Bool(true))])));
}

#[test]
fn normalizes_cli_mode_to_tool_enum() {
    assert_eq!(normalize_mode("cloud-api"), "cloud_api");
    assert_eq!(normalize_mode("coexistence"), "coexistence");
}
