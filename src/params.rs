//! The parameter records that the adapters' tools take.

use vstd::prelude::*;
use crate::errors::ExtensionManagerToolError;
use crate::text::same_text;

verus! {

/// Parameters of the resource-reading tool.
#[derive(Debug, Clone, PartialEq, Eq)]
pub struct ReadResourceParams {
    pub uri: String,
    pub extension_name: Option<String>,
}

/// Parameters of the resource-listing tool.
#[derive(Debug, Clone, PartialEq, Eq)]
pub struct ListResourcesParams {
    pub extension_name: Option<String>,
}

/// Parameters of the tool-search tool.
#[derive(Debug, Clone, PartialEq, Eq)]
pub struct LlmSearchParams {
    pub extension_name: String,
    pub query: String,
    pub k: usize,
}

/// How many tools a search returns when the caller names no count.
pub const DEFAULT_K: usize = 5;

/// The count of results a search uses when none is given.
pub fn default_k() -> (r: usize)
    ensures
        r == DEFAULT_K,
{
    DEFAULT_K
}

impl LlmSearchParams {
    /// Search parameters; an absent count falls back to the default.
    pub fn new(extension_name: String, query: String, k: Option<usize>) -> (r: Self)
        ensures
            r.extension_name == extension_name,
            r.query == query,
            r.k == match k {
                Some(n) => n,
                None => DEFAULT_K,
            },
    {
        let k = match k {
            Some(n) => n,
            None => default_k(),
        };
        LlmSearchParams { extension_name, query, k }
    }
}

/// What a caller asks to do with an extension.
#[derive(Debug, Clone, Copy, PartialEq, Eq, Structural)]
pub enum ManageExtensionAction {
    Enable,
    Disable,
}

/// The spelling of each action on the wire.
pub open spec fn action_text(a: ManageExtensionAction) -> Seq<char> {
    match a {
        ManageExtensionAction::Enable => "enable"@,
        ManageExtensionAction::Disable => "disable"@,
    }
}

/// The action that a wire spelling names, if any.
pub open spec fn parse_action(s: Seq<char>) -> Option<ManageExtensionAction> {
    if s == action_text(ManageExtensionAction::Enable) {
        Some(ManageExtensionAction::Enable)
    } else if s == action_text(ManageExtensionAction::Disable) {
        Some(ManageExtensionAction::Disable)
    } else {
        None
    }
}

impl ManageExtensionAction {
    /// Reads an action from its lower-case spelling; any other text is an
    /// `InvalidAction` carrying that text.
    pub fn parse(s: &str) -> (r: Result<ManageExtensionAction, ExtensionManagerToolError>)
        ensures
            match parse_action(s@) {
                Some(a) => r == Ok::<_, ExtensionManagerToolError>(a),
                None => r is Err && r->Err_0.is_invalid_action(s@),
            },
    {
        proof {
            reveal_strlit("enable");
            reveal_strlit("disable");
        }
        if same_text(s, "enable") {
            Ok(ManageExtensionAction::Enable)
        } else if same_text(s, "disable") {
            Ok(ManageExtensionAction::Disable)
        } else {
            Err(ExtensionManagerToolError::InvalidAction { action: String::from_str(s) })
        }
    }

    /// The lower-case spelling of this action.
    pub fn as_str(&self) -> (r: &'static str)
        ensures
            r@ == action_text(*self),
    {
        match self {
            ManageExtensionAction::Enable => "enable",
            ManageExtensionAction::Disable => "disable",
        }
    }
}

/// Parameters of the extension-management tool.
#[derive(Debug, Clone, PartialEq, Eq)]
pub struct ManageExtensionsParams {
    pub action: ManageExtensionAction,
    pub extension_name: String,
}

impl ManageExtensionsParams {
    /// Builds the parameters from the decoded action text and extension name.
    pub fn from_parts(action: &str, extension_name: String) -> (r: Result<
        ManageExtensionsParams,
        ExtensionManagerToolError,
    >)
        ensures
            match parse_action(action@) {
                Some(a) => r == Ok::<_, ExtensionManagerToolError>(
                    ManageExtensionsParams { action: a, extension_name },
                ),
                None => r is Err && r->Err_0.is_invalid_action(action@),
            },
    {
        match ManageExtensionAction::parse(action) {
            Ok(a) => Ok(ManageExtensionsParams { action: a, extension_name }),
            Err(e) => Err(e),
        }
    }
}

} // verus!
