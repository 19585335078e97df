//! Resolving the API key and the MCP URL.
//!
//! Priority order:
//!   key: --api-key (or FAVCRM_API_KEY) > FAVCRM_MCP_TOKEN > config file
//!   url: --url (when not the default) > FAVCRM_MCP_URL > FAVCRM_API_BASE + "/mcp"
//!        > config file > the production default
use vstd::prelude::*;
use vstd::string::*;

use crate::text::chars_of;

verus! {

broadcast use vstd::string::group_string_axioms;

pub const DEFAULT_URL: &'static str = "https://api.favcrm.io/mcp";

/// What the config file holds.
#[derive(Debug)]
pub struct FileCfg {
    pub api_key: Option<String>,
    pub url: Option<String>,
}

/// The credentials and endpoint a run uses.
#[derive(Debug)]
pub struct Resolved {
    pub api_key: String,
    pub url: String,
}

/// No API key was found anywhere.
#[derive(Debug)]
pub enum ResolveError {
    MissingApiKey,
}

impl ResolveError {
    pub fn message(&self) -> (r: String)
        ensures
            r@ == "no API key. Set FAVCRM_API_KEY (or FAVCRM_MCP_TOKEN inside a runtime) or run `favcrm login <KEY>`"@,
    {
        String::from_str(
            "no API key. Set FAVCRM_API_KEY (or FAVCRM_MCP_TOKEN inside a runtime) or run `favcrm login <KEY>`",
        )
    }
}

pub open spec fn opt_view(o: Option<String>) -> Option<Seq<char>> {
    match o {
        Some(s) => Some(s@),
        None => None,
    }
}

/// The first of the candidates that is present.
pub open spec fn first_present(
    a: Option<Seq<char>>,
    b: Option<Seq<char>>,
    c: Option<Seq<char>>,
) -> Option<Seq<char>> {
    if a is Some {
        a
    } else if b is Some {
        b
    } else {
        c
    }
}

/// The API key: from the command line (which also carries `FAVCRM_API_KEY`),
/// else `FAVCRM_MCP_TOKEN`, else the config file.
pub fn resolve_api_key(
    cli_key: Option<String>,
    mcp_token_env: Option<String>,
    file_key: Option<String>,
) -> (r: Option<String>)
    ensures
        opt_view(r) == first_present(opt_view(cli_key), opt_view(mcp_token_env), opt_view(file_key)),
{
    match cli_key {
        Some(k) => Some(k),
        None => match mcp_token_env {
            Some(k) => Some(k),
            None => file_key,
        },
    }
}

/// End of `s[..j]` once trailing `/` characters are removed.
pub open spec fn strip_slashes_at(s: Seq<char>, j: int) -> int
    decreases j,
{
    if j <= 0 {
        0
    } else if s[j - 1] == '/' {
        strip_slashes_at(s, j - 1)
    } else {
        j
    }
}

/// `s` without its trailing `/` characters.
pub open spec fn trim_trailing_slashes(s: Seq<char>) -> Seq<char> {
    s.take(strip_slashes_at(s, s.len() as int))
}

pub proof fn lemma_strip_slashes_bounds(s: Seq<char>, j: int)
    requires
        0 <= j <= s.len(),
    ensures
        0 <= strip_slashes_at(s, j) <= j,
    decreases j,
{
    if j > 0 && s[j - 1] == '/' {
        lemma_strip_slashes_bounds(s, j - 1);
    }
}

/// `base` without trailing slashes, followed by `/mcp`.
pub fn mcp_url_from_base(base: &str) -> (r: String)
    ensures
        r@ == trim_trailing_slashes(base@) + "/mcp"@,
{
    let chars = chars_of(base);
    let mut j = chars.len();
    while j > 0 && chars[j - 1] == '/'
        invariant
            j <= chars.len(),
            chars@ == base@,
            strip_slashes_at(base@, j as int) == strip_slashes_at(base@, base@.len() as int),
        decreases j,
    {
        j = j - 1;
    }
    let head = base.substring_char(0, j);
    String::from_str(head).concat("/mcp")
}

/// The MCP URL: a command-line URL other than the default wins outright;
/// otherwise `FAVCRM_MCP_URL`, then `FAVCRM_API_BASE` + `/mcp`, then the
/// config file, then the default.
pub open spec fn url_view(
    cli_url: Seq<char>,
    mcp_url_env: Option<Seq<char>>,
    api_base_env: Option<Seq<char>>,
    file_url: Option<Seq<char>>,
) -> Seq<char> {
    if cli_url != DEFAULT_URL@ {
        cli_url
    } else if mcp_url_env is Some {
        mcp_url_env->0
    } else if api_base_env is Some {
        trim_trailing_slashes(api_base_env->0) + "/mcp"@
    } else if file_url is Some {
        file_url->0
    } else {
        DEFAULT_URL@
    }
}

pub fn resolve_url(
    cli_url: &str,
    mcp_url_env: Option<String>,
    api_base_env: Option<String>,
    file_url: Option<String>,
) -> (r: String)
    ensures
        r@ == url_view(cli_url@, opt_view(mcp_url_env), opt_view(api_base_env), opt_view(file_url)),
{
    if String::from_str(cli_url) != String::from_str(DEFAULT_URL) {
        String::from_str(cli_url)
    } else if let Some(u) = mcp_url_env {
        u
    } else if let Some(base) = api_base_env {
        mcp_url_from_base(base.as_str())
    } else {
        match file_url {
            Some(u) => u,
            None => String::from_str(DEFAULT_URL),
        }
    }
}

/// Resolves the key and URL from the command line, the environment and the
/// config file; fails only when no key is found.
pub fn resolve(
    cli_key: Option<String>,
    cli_url: &str,
    mcp_token_env: Option<String>,
    mcp_url_env: Option<String>,
    api_base_env: Option<String>,
    file: FileCfg,
) -> (r: Result<Resolved, ResolveError>)
    ensures
        match first_present(opt_view(cli_key), opt_view(mcp_token_env), opt_view(file.api_key)) {
            None => r is Err,
            Some(k) => r matches Ok(res) && res.api_key@ == k && res.url@ == url_view(
                cli_url@,
                opt_view(mcp_url_env),
                opt_view(api_base_env),
                opt_view(file.url),
            ),
        },
{
    let api_key = match resolve_api_key(cli_key, mcp_token_env, file.api_key) {
        Some(k) => k,
        None => {
            return Err(ResolveError::MissingApiKey);
        },
    };
    let url = resolve_url(cli_url, mcp_url_env, api_base_env, file.url);
    Ok(Resolved { api_key, url })
}

/// A key given on the command line is always the one used, and a
/// non-default URL given on the command line is always the one used.
pub proof fn law_command_line_wins(
    cli_key: Seq<char>,
    mcp_token_env: Option<Seq<char>>,
    file_key: Option<Seq<char>>,
    cli_url: Seq<char>,
    mcp_url_env: Option<Seq<char>>,
    api_base_env: Option<Seq<char>>,
    file_url: Option<Seq<char>>,
)
    ensures
        first_present(Some(cli_key), mcp_token_env, file_key) == Some(cli_key),
        cli_url != DEFAULT_URL@ ==> url_view(cli_url, mcp_url_env, api_base_env, file_url)
            == cli_url,
{
}

proof fn lemma_strip_slashes_shape(s: Seq<char>, j: int)
    requires
        0 <= j <= s.len(),
    ensures
        0 <= strip_slashes_at(s, j) <= j,
        forall|i: int| strip_slashes_at(s, j) <= i < j ==> s[i] == '/',
        strip_slashes_at(s, j) > 0 ==> s[strip_slashes_at(s, j) - 1] != '/',
    decreases j,
{
    if j > 0 && s[j - 1] == '/' {
        lemma_strip_slashes_shape(s, j - 1);
    }
}

/// Trimming trailing slashes keeps a prefix of the text and removes only
/// `/` characters, all of them from the end: what is left does not end in
/// `/`, and trimming it again changes nothing.
pub proof fn law_trailing_slashes(s: Seq<char>)
    ensures
        trim_trailing_slashes(s).len() <= s.len(),
        trim_trailing_slashes(s) == s.take(trim_trailing_slashes(s).len() as int),
        forall|i: int| trim_trailing_slashes(s).len() <= i < s.len() ==> s[i] == '/',
        trim_trailing_slashes(s).len() > 0 ==> trim_trailing_slashes(s).last() != '/',
        trim_trailing_slashes(trim_trailing_slashes(s)) == trim_trailing_slashes(s),
{
    let m = strip_slashes_at(s, s.len() as int);
    lemma_strip_slashes_shape(s, s.len() as int);
    let t = s.take(m);
    assert(t.len() == m);
    if m > 0 {
        assert(t[m - 1] == s[m - 1]);
        assert(strip_slashes_at(t, m) == m);
    } else {
        assert(strip_slashes_at(t, m) == 0);
    }
    assert(t.take(m) =~= t);
}

/// Where the key and URL come from, in order. Key: the command line (which
/// carries `FAVCRM_API_KEY`), then `FAVCRM_MCP_TOKEN`, then the config file;
/// none found is an error. URL: a command-line URL other than the
/// production default `https://api.favcrm.io/mcp`, then `FAVCRM_MCP_URL`,
/// then `FAVCRM_API_BASE` with `/mcp` appended, then the config file, then
/// the default.
pub proof fn law_resolution_order(
    token: Seq<char>,
    file_key: Option<Seq<char>>,
    mcp_url: Seq<char>,
    base: Seq<char>,
    file_url: Seq<char>,
    api_base_env: Option<Seq<char>>,
    file_url_opt: Option<Seq<char>>,
)
    ensures
        DEFAULT_URL@ == "https://api.favcrm.io/mcp"@,
        first_present(None, Some(token), file_key) == Some(token),
        first_present(None, None, file_key) == file_key,
        url_view(DEFAULT_URL@, Some(mcp_url), api_base_env, file_url_opt) == mcp_url,
        url_view(DEFAULT_URL@, None, Some(base), file_url_opt) == trim_trailing_slashes(base)
            + "/mcp"@,
        url_view(DEFAULT_URL@, None, None, Some(file_url)) == file_url,
        url_view(DEFAULT_URL@, None, None, None) == DEFAULT_URL@,
{
}

} // verus!
