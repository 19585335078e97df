//! Saving an API key.
use vstd::prelude::*;
use vstd::string::*;

verus! {

broadcast use vstd::string::group_string_axioms;

pub struct Args {
    /// Your fav_mcp_* API key.
    pub api_key: String,
    /// MCP endpoint base URL.
    pub url: String,
}

/// The confirmation printed after saving: `Saved <url> → <path>`.
pub fn saved_message(url: &str, path: &str) -> (r: String)
    ensures
        r@ == "Saved "@ + url@ + " → "@ + path@,
{
    String::from_str("Saved ").concat(url).concat(" → ").concat(path)
}

} // verus!
