//! The universal verb for registered MCP tools: `list` (the catalog),
//! `describe <name>` (a tool's input schema), `call <name> [json]`, or the
//! shortcut `<name> [json]`.
use vstd::prelude::*;
use vstd::string::*;

use super::ToolCall;
use crate::json::{json_parse, lemma_view_array, lookup, parse_json, Json, JsonV};

verus! {

broadcast use vstd::string::group_string_axioms;

/// The words after `tool`: the first, the second (`{}` when absent) and an
/// optional third.
#[derive(Debug)]
pub struct Args {
    /// `list`, `describe`, `call`, or a tool name.
    pub name: String,
    /// A tool name (after `describe` or `call`), or the JSON arguments.
    pub args: String,
    /// The JSON arguments after `call <name>`.
    pub rest: Option<String>,
}

/// What a `tool` command does.
#[derive(Debug)]
pub enum ToolAction {
    /// Show the tool catalog.
    List,
    /// Show the input schema of the named tool.
    Describe(String),
    /// Call a tool.
    Call(ToolCall),
}

pub enum ToolActionV {
    List,
    Describe(Seq<char>),
    Call((Seq<char>, JsonV)),
}

impl View for ToolAction {
    type V = ToolActionV;

    open spec fn view(&self) -> ToolActionV {
        match self {
            ToolAction::List => ToolActionV::List,
            ToolAction::Describe(n) => ToolActionV::Describe(n@),
            ToolAction::Call(c) => ToolActionV::Call(c@),
        }
    }
}

/// Why the words after `tool` do not make a command.
#[derive(Debug)]
pub enum ToolArgsError {
    /// The arguments text is not JSON: the text and the parser's message.
    InvalidJson { args: String, reason: String },
    /// A third word given to the shortcut form.
    Unexpected(String),
}

pub enum ToolArgsErrorV {
    InvalidJson(Seq<char>, Seq<char>),
    Unexpected(Seq<char>),
}

impl View for ToolArgsError {
    type V = ToolArgsErrorV;

    open spec fn view(&self) -> ToolArgsErrorV {
        match self {
            ToolArgsError::InvalidJson { args, reason } => ToolArgsErrorV::InvalidJson(
                args@,
                reason@,
            ),
            ToolArgsError::Unexpected(w) => ToolArgsErrorV::Unexpected(w@),
        }
    }
}

/// A call of `name` with the arguments `text` parses to, or why it fails.
pub open spec fn call_of(name: Seq<char>, text: Seq<char>) -> Result<ToolActionV, ToolArgsErrorV> {
    match json_parse(text) {
        Ok(v) => Ok(ToolActionV::Call((name, v))),
        Err(m) => Err(ToolArgsErrorV::InvalidJson(text, m)),
    }
}

/// What the words after `tool` ask for.
pub open spec fn action_of(name: Seq<char>, args: Seq<char>, rest: Option<Seq<char>>) -> Result<
    ToolActionV,
    ToolArgsErrorV,
> {
    if name == "list"@ {
        Ok(ToolActionV::List)
    } else if name == "describe"@ {
        Ok(ToolActionV::Describe(args))
    } else if name == "call"@ {
        call_of(
            args,
            match rest {
                Some(t) => t,
                None => "{}"@,
            },
        )
    } else {
        match rest {
            Some(w) => Err(ToolArgsErrorV::Unexpected(w)),
            None => call_of(name, args),
        }
    }
}

pub open spec fn rest_view(o: Option<String>) -> Option<Seq<char>> {
    match o {
        Some(t) => Some(t@),
        None => None,
    }
}

fn call_with(name: String, text: String) -> (r: Result<ToolAction, ToolArgsError>)
    ensures
        match r {
            Ok(a) => call_of(name@, text@) == Ok::<ToolActionV, ToolArgsErrorV>(a@),
            Err(e) => call_of(name@, text@) == Err::<ToolActionV, ToolArgsErrorV>(e@),
        },
{
    match parse_json(text.as_str()) {
        Ok(parsed) => Ok(ToolAction::Call(ToolCall { name, args: parsed })),
        Err(reason) => Err(ToolArgsError::InvalidJson { args: text, reason }),
    }
}

impl Args {
    pub fn action(self) -> (r: Result<ToolAction, ToolArgsError>)
        ensures
            match r {
                Ok(a) => action_of(self.name@, self.args@, rest_view(self.rest)) == Ok::<
                    ToolActionV,
                    ToolArgsErrorV,
                >(a@),
                Err(e) => action_of(self.name@, self.args@, rest_view(self.rest)) == Err::<
                    ToolActionV,
                    ToolArgsErrorV,
                >(e@),
            },
    {
        if self.name == String::from_str("list") {
            Ok(ToolAction::List)
        } else if self.name == String::from_str("describe") {
            Ok(ToolAction::Describe(self.args))
        } else if self.name == String::from_str("call") {
            let text = match self.rest {
                Some(t) => t,
                None => String::from_str("{}"),
            };
            call_with(self.args, text)
        } else {
            match self.rest {
                Some(w) => Err(ToolArgsError::Unexpected(w)),
                None => call_with(self.name, self.args),
            }
        }
    }
}

/// Catalog entry `item` describes the tool called `name`.
pub open spec fn names_tool(item: JsonV, name: Seq<char>) -> bool {
    lookup(item, "name"@) == Some(JsonV::Str(name))
}

/// Position of the first entry from `i` on that describes `name`, or -1.
pub open spec fn find_tool_from(items: Seq<JsonV>, name: Seq<char>, i: int) -> int
    decreases items.len() - i,
{
    if i < 0 || i >= items.len() {
        -1
    } else if names_tool(items[i], name) {
        i
    } else {
        find_tool_from(items, name, i + 1)
    }
}

pub proof fn lemma_find_tool_bounds(items: Seq<JsonV>, name: Seq<char>, i: int)
    requires
        0 <= i,
    ensures
        find_tool_from(items, name, i) == -1 || (i <= find_tool_from(items, name, i) < items.len()
            && names_tool(items[find_tool_from(items, name, i)], name)),
    decreases items.len() - i,
{
    if i < items.len() && !names_tool(items[i], name) {
        lemma_find_tool_bounds(items, name, i + 1);
    }
}

/// The input schema the catalog gives for tool `name`: the `inputSchema` of
/// the first entry naming it (`null` when that entry has none), or nothing
/// when no entry names it.
pub open spec fn describe_view(catalog: JsonV, name: Seq<char>) -> Option<JsonV> {
    match catalog {
        JsonV::Array(items) => {
            let i = find_tool_from(items, name, 0);
            if i >= 0 {
                Some(
                    match lookup(items[i], "inputSchema"@) {
                        Some(s) => s,
                        None => JsonV::Null,
                    },
                )
            } else {
                None
            }
        },
        _ => None,
    }
}

fn names_tool_exec(item: &Json, name: &String) -> (r: bool)
    ensures
        r == names_tool(item@, name@),
{
    match item.get("name") {
        Some(Json::Str(n)) => *n == *name,
        Some(other) => {
            assert(!(other@ is Str));
            false
        },
        None => false,
    }
}

/// Looks up a tool's input schema in the catalog `tools/list` returns.
pub fn describe(catalog: &Json, name: &str) -> (r: Option<Json>)
    ensures
        match r {
            Some(s) => describe_view(catalog@, name@) == Some(s@),
            None => describe_view(catalog@, name@) is None,
        },
{
    let items = match catalog {
        Json::Array(items) => items,
        _ => {
            return None;
        },
    };
    proof {
        lemma_view_array(*items);
    }
    let ghost iv = catalog@->Array_0;
    let wanted = String::from_str(name);
    let mut i: usize = 0;
    while i < items.len()
        invariant
            i <= items.len(),
            iv.len() == items.len(),
            forall|k: int| 0 <= k < items.len() ==> #[trigger] iv[k] == items@[k]@,
            wanted@ == name@,
            find_tool_from(iv, name@, 0) == find_tool_from(iv, name@, i as int),
            describe_view(catalog@, name@) == (if find_tool_from(iv, name@, 0) >= 0 {
                Some(
                    match lookup(iv[find_tool_from(iv, name@, 0)], "inputSchema"@) {
                        Some(s) => s,
                        None => JsonV::Null,
                    },
                )
            } else {
                None::<JsonV>
            }),
        decreases items.len() - i,
    {
        if names_tool_exec(&items[i], &wanted) {
            return match items[i].get("inputSchema") {
                Some(s) => Some(s.duplicate()),
                None => Some(Json::Null),
            };
        }
        i = i + 1;
    }
    None
}

/// The text a failure is reported with. Invalid JSON is followed, as its
/// cause, by the parser's message.
pub open spec fn tool_error_message(e: ToolArgsErrorV) -> Seq<char> {
    match e {
        ToolArgsErrorV::InvalidJson(args, _) => "invalid JSON for tool args: "@ + args,
        ToolArgsErrorV::Unexpected(w) => "unexpected argument '"@ + w + "'"@,
    }
}

impl ToolArgsError {
    pub fn message(&self) -> (r: String)
        ensures
            r@ == tool_error_message(self@),
    {
        match self {
            ToolArgsError::InvalidJson { args, .. } => String::from_str(
                "invalid JSON for tool args: ",
            ).concat(args.as_str()),
            ToolArgsError::Unexpected(w) => String::from_str("unexpected argument '").concat(
                w.as_str(),
            ).concat("'"),
        }
    }
}

/// The text reported when `describe` names a tool the catalog lacks.
pub fn unknown_tool_message(name: &str) -> (r: String)
    ensures
        r@ == "unknown tool: "@ + name@,
{
    String::from_str("unknown tool: ").concat(name)
}

/// `list` asks for the catalog and `describe <name>` for one tool's schema,
/// whatever follows. `call <name>` calls the tool with the JSON that follows,
/// or with `{}`; the shortcut `<name> <json>` is the same call as
/// `call <name> <json>`, and refuses a third word.
pub proof fn law_tool_words(name: Seq<char>, args: Seq<char>, rest: Option<Seq<char>>, w: Seq<char>)
    ensures
        action_of("list"@, args, rest) == Ok::<ToolActionV, ToolArgsErrorV>(ToolActionV::List),
        action_of("describe"@, args, rest) == Ok::<ToolActionV, ToolArgsErrorV>(
            ToolActionV::Describe(args),
        ),
        action_of("call"@, args, None) == call_of(args, "{}"@),
        action_of("call"@, args, Some(w)) == call_of(args, w),
        name != "list"@ && name != "describe"@ && name != "call"@ ==> action_of(name, args, None)
            == action_of("call"@, name, Some(args)),
        name != "list"@ && name != "describe"@ && name != "call"@ ==> action_of(
            name,
            args,
            Some(w),
        ) == Err::<ToolActionV, ToolArgsErrorV>(ToolArgsErrorV::Unexpected(w)),
{
    reveal_strlit("list");
    reveal_strlit("describe");
    reveal_strlit("call");
    assert("list"@.len() == 4 && "describe"@.len() == 8 && "call"@.len() == 4);
    assert("list"@[0] != "call"@[0]);
}

proof fn lemma_find_tool_first(items: Seq<JsonV>, name: Seq<char>, start: int, i: int)
    requires
        0 <= start <= i < items.len(),
        names_tool(items[i], name),
        forall|j: int| start <= j < i ==> !names_tool(#[trigger] items[j], name),
    ensures
        find_tool_from(items, name, start) == i,
    decreases i - start,
{
    if start < i {
        lemma_find_tool_first(items, name, start + 1, i);
    }
}

proof fn lemma_find_tool_none(items: Seq<JsonV>, name: Seq<char>, start: int)
    requires
        0 <= start,
        forall|j: int| start <= j < items.len() ==> !names_tool(#[trigger] items[j], name),
    ensures
        find_tool_from(items, name, start) == -1,
    decreases items.len() - start,
{
    if start < items.len() {
        lemma_find_tool_none(items, name, start + 1);
    }
}

/// `describe` answers with the `inputSchema` of the first catalog entry whose
/// `name` is the tool's (`null` when that entry has none), and with nothing
/// when no entry names the tool.
pub proof fn law_describe_first_entry(items: Seq<JsonV>, name: Seq<char>, i: int)
    ensures
        (0 <= i < items.len() && lookup(items[i], "name"@) == Some(JsonV::Str(name)) && (forall|
            j: int,
        | 0 <= j < i ==> lookup(#[trigger] items[j], "name"@) != Some(JsonV::Str(name))))
            ==> describe_view(JsonV::Array(items), name) == Some(
            match lookup(items[i], "inputSchema"@) {
                Some(s) => s,
                None => JsonV::Null,
            },
        ),
        (forall|j: int| 0 <= j < items.len() ==> lookup(#[trigger] items[j], "name"@) != Some(
            JsonV::Str(name),
        )) ==> describe_view(JsonV::Array(items), name) is None,
{
    if 0 <= i < items.len() && names_tool(items[i], name) && (forall|j: int|
        0 <= j < i ==> !names_tool(#[trigger] items[j], name)) {
        lemma_find_tool_first(items, name, 0, i);
    }
    if forall|j: int| 0 <= j < items.len() ==> !names_tool(#[trigger] items[j], name) {
        lemma_find_tool_none(items, name, 0);
    }
}

} // verus!
