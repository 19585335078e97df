//! The optional sidecar probe: inside a merchant runtime a loopback endpoint
//! hands out a fresh MCP token and URL, which are placed in the environment.
use vstd::prelude::*;
use vstd::string::*;

use crate::config::opt_view;

verus! {

broadcast use vstd::string::group_string_axioms;

pub const DEFAULT_PORT: &'static str = "3002";

/// The probe runs only when `FAVCRM_API_KEY` is not already set.
pub fn should_probe(api_key_env_set: bool) -> (r: bool)
    ensures
        r == !api_key_env_set,
{
    !api_key_env_set
}

/// The token endpoint on the given port (by default 3002).
pub open spec fn probe_url_view(port_env: Option<Seq<char>>) -> Seq<char> {
    "http://127.0.0.1:"@ + match port_env {
        Some(p) => p,
        None => DEFAULT_PORT@,
    } + "/v1/cli-token"@
}

pub fn probe_url(port_env: Option<String>) -> (r: String)
    ensures
        r@ == probe_url_view(opt_view(port_env)),
{
    let port = match port_env {
        Some(p) => p,
        None => String::from_str(DEFAULT_PORT),
    };
    String::from_str("http://127.0.0.1:").concat(port.as_str()).concat("/v1/cli-token")
}

/// The environment assignments the probe's answer leads to: the token as
/// `FAVCRM_API_KEY`, and the URL as `FAVCRM_MCP_URL` when the answer has
/// one and that variable is not set yet.
pub open spec fn env_updates_view(token: Seq<char>, url: Option<Seq<char>>, mcp_url_set: bool) -> Seq<
    (Seq<char>, Seq<char>),
> {
    seq![("FAVCRM_API_KEY"@, token)] + if !mcp_url_set && url is Some {
        seq![("FAVCRM_MCP_URL"@, url->0)]
    } else {
        Seq::empty()
    }
}

pub fn env_updates(token: String, url: Option<String>, mcp_url_set: bool) -> (r: Vec<
    (String, String),
>)
    ensures
        r@.len() == env_updates_view(
            token@,
            opt_view(url),
            mcp_url_set,
        ).len(),
        forall|i: int|
            0 <= i < r@.len() ==> ((#[trigger] r@[i]).0@, r@[i].1@) == env_updates_view(
                token@,
                match url {
                    Some(u) => Some(u@),
                    None => None,
                },
                mcp_url_set,
            )[i],
{
    let ghost uv = opt_view(url);
    let ghost t = token@;
    let mut v: Vec<(String, String)> = Vec::new();
    v.push((String::from_str("FAVCRM_API_KEY"), token));
    if !mcp_url_set {
        if let Some(u) = url {
            v.push((String::from_str("FAVCRM_MCP_URL"), u));
        }
    }
    assert(forall|i: int|
        0 <= i < v@.len() ==> ((#[trigger] v@[i]).0@, v@[i].1@) == env_updates_view(t, uv, mcp_url_set)[i]);
    v
}

/// The probe asks `http://127.0.0.1:<port>/v1/cli-token`, on port 3002
/// unless another is set.
pub proof fn law_probe_url(port: Seq<char>)
    ensures
        DEFAULT_PORT@ == "3002"@,
        probe_url_view(Some(port)) == "http://127.0.0.1:"@ + port + "/v1/cli-token"@,
        probe_url_view(None) == "http://127.0.0.1:"@ + "3002"@ + "/v1/cli-token"@,
{
}

/// The probe's token always becomes `FAVCRM_API_KEY`, first; its URL becomes
/// `FAVCRM_MCP_URL` only when it has one and that variable is not already
/// set, so a URL chosen by the environment is never overridden; nothing else
/// is set.
pub proof fn law_probe_env(token: Seq<char>, url: Option<Seq<char>>, mcp_url_set: bool)
    ensures
        env_updates_view(token, url, mcp_url_set)[0] == ("FAVCRM_API_KEY"@, token),
        mcp_url_set ==> env_updates_view(token, url, mcp_url_set).len() == 1,
        url is None ==> env_updates_view(token, url, mcp_url_set).len() == 1,
        (!mcp_url_set && url is Some) ==> env_updates_view(token, url, mcp_url_set) == seq![
            ("FAVCRM_API_KEY"@, token),
            ("FAVCRM_MCP_URL"@, url->0),
        ],
{
    assert(env_updates_view(token, url, mcp_url_set)[0] == ("FAVCRM_API_KEY"@, token));
    if !mcp_url_set && url is Some {
        assert(env_updates_view(token, url, mcp_url_set) =~= seq![
            ("FAVCRM_API_KEY"@, token),
            ("FAVCRM_MCP_URL"@, url->0),
        ]);
    }
}

} // verus!
