//! The extension manager adapter: tools to discover extensions and to enable
//! or disable one.

use vstd::prelude::*;
use crate::errors::{ClientError, ExtensionManagerToolError};
use crate::lifecycle::{Command, ManageError, ManageRun, start_spec};
use crate::params::{ManageExtensionsParams, parse_action};
use crate::text::{joined, same_text};
use crate::tools::{
    CallResult, Content, ParamSchema, Reply, ServerInfo, ToolDescriptor, ToolSpec, forward,
    forwarded_all, is_error_text, read_only_tool, tool_specs,
};

verus! {

pub const EXTENSION_NAME: &'static str = "Extension Manager";

pub const SEARCH_AVAILABLE_EXTENSIONS_TOOL_NAME: &'static str = "search_available_extensions";

pub const MANAGE_EXTENSIONS_TOOL_NAME: &'static str = "manage_extensions";

/// The management tool's name as qualified by the adapter's prefix.
pub const MANAGE_EXTENSIONS_TOOL_NAME_COMPLETE: &'static str = "extensionmanager__manage_extensions";

pub const INSTRUCTIONS: &'static str = "Extension Management\n\nUse these tools to discover, enable, and disable extensions.\n\nAvailable tools:\n- search_available_extensions: Find extensions available to enable/disable\n- manage_extensions: Enable or disable extensions\n\nUse search_available_extensions when you need to find what extensions are available.\nUse manage_extensions to enable or disable specific extensions by name.\n";

pub const SEARCH_AVAILABLE_EXTENSIONS_DESCRIPTION: &'static str = "Searches for additional extensions available to help complete tasks.\n        Use this tool when you're unable to find a specific feature or functionality you need to complete your task, or when standard approaches aren't working.\n        These extensions might provide the exact tools needed to solve your problem.\n        If you find a relevant one, consider using your tools to enable it.";

pub const MANAGE_EXTENSIONS_DESCRIPTION: &'static str = "Tool to manage extensions and tools in goose context.\n            Enable or disable extensions to help complete tasks.\n            Enable or disable an extension by providing the extension name.\n            ";

/// The tools this adapter recognises.
#[derive(Debug, Clone, Copy, PartialEq, Eq, Structural)]
pub enum ExtensionManagerTool {
    SearchAvailableExtensions,
    ManageExtensions,
}

/// The tool a name stands for, if this adapter recognises it.
pub open spec fn tool_of(name: Seq<char>) -> Option<ExtensionManagerTool> {
    if name == SEARCH_AVAILABLE_EXTENSIONS_TOOL_NAME@ {
        Some(ExtensionManagerTool::SearchAvailableExtensions)
    } else if name == MANAGE_EXTENSIONS_TOOL_NAME@ {
        Some(ExtensionManagerTool::ManageExtensions)
    } else {
        None
    }
}

/// The tools this adapter advertises, in this order, whatever the live state.
pub open spec fn tools_spec() -> Seq<ToolSpec> {
    seq![
        read_only_tool(
            SEARCH_AVAILABLE_EXTENSIONS_TOOL_NAME@,
            SEARCH_AVAILABLE_EXTENSIONS_DESCRIPTION@,
            ParamSchema::Empty,
            "Discover extensions"@,
        ),
        ToolSpec {
            read_only: false,
            ..read_only_tool(
                MANAGE_EXTENSIONS_TOOL_NAME@,
                MANAGE_EXTENSIONS_DESCRIPTION@,
                ParamSchema::ManageExtensions,
                "Enable or disable an extension"@,
            )
        },
    ]
}

/// The arguments of a management call, as far as the decoder got with them.
#[derive(Debug, Clone, PartialEq, Eq)]
pub enum ManageArguments {
    /// The argument object did not have the expected shape; the decoder's message.
    Undecodable(String),
    /// The object's two fields, the action still in its wire spelling.
    Decoded { action: String, extension_name: String },
}

/// How a finished run shows to the caller: its message as one text item, or
/// its failure as an `OperationFailed` carrying the run's message.
pub open spec fn manage_result_ok<C>(r: Result<Vec<Content<C>>, ExtensionManagerToolError>, message: Seq<char>) -> bool {
    &&& r is Ok
    &&& r->Ok_0@.len() == 1
    &&& r->Ok_0@[0] is Text
    &&& r->Ok_0@[0]->Text_0@ == message
}

pub open spec fn is_operation_failed(e: ExtensionManagerToolError, message: Seq<char>) -> bool {
    match e {
        ExtensionManagerToolError::OperationFailed { message: m } => m@ == message,
        _ => false,
    }
}

/// The adapter that offers extension discovery and management as tools.
pub struct ExtensionManagerClient {
    info: ServerInfo,
}

impl ExtensionManagerClient {
    pub closed spec fn info_spec(&self) -> ServerInfo {
        self.info
    }

    /// The adapter, with its static description.
    pub fn new() -> (r: ExtensionManagerClient)
        ensures
            r.info_spec().describes(EXTENSION_NAME@, INSTRUCTIONS@),
    {
        ExtensionManagerClient { info: ServerInfo::tools_only(EXTENSION_NAME, INSTRUCTIONS) }
    }

    /// The description given at initialisation.
    pub fn get_info(&self) -> (r: &ServerInfo)
        ensures
            *r == self.info_spec(),
    {
        &self.info
    }

    /// The tools offered: discovery, then management.
    pub fn list_tools(&self) -> (r: Vec<ToolDescriptor>)
        ensures
            tool_specs(r@) == tools_spec(),
    {
        let mut tools: Vec<ToolDescriptor> = Vec::new();
        tools.push(
            ToolDescriptor::new(
                SEARCH_AVAILABLE_EXTENSIONS_TOOL_NAME,
                SEARCH_AVAILABLE_EXTENSIONS_DESCRIPTION,
                ParamSchema::Empty,
                "Discover extensions",
                true,
            ),
        );
        tools.push(
            ToolDescriptor::new(
                MANAGE_EXTENSIONS_TOOL_NAME,
                MANAGE_EXTENSIONS_DESCRIPTION,
                ParamSchema::ManageExtensions,
                "Enable or disable an extension",
                false,
            ),
        );
        assert(tool_specs(tools@) =~= tools_spec());
        tools
    }

    /// The tool that `name` calls, if it is one of this adapter's.
    pub fn dispatch(name: &str) -> (r: Option<ExtensionManagerTool>)
        ensures
            r == tool_of(name@),
    {
        if same_text(name, SEARCH_AVAILABLE_EXTENSIONS_TOOL_NAME) {
            Some(ExtensionManagerTool::SearchAvailableExtensions)
        } else if same_text(name, MANAGE_EXTENSIONS_TOOL_NAME) {
            Some(ExtensionManagerTool::ManageExtensions)
        } else {
            None
        }
    }

    /// The discovery tool, given the extension manager's answer to the search.
    pub fn handle_search_available_extensions<C>(reply: Reply<C>) -> (r: Result<
        Vec<Content<C>>,
        ExtensionManagerToolError,
    >)
        ensures
            match reply {
                Reply::Unavailable => r == Err::<Vec<Content<C>>, _>(
                    ExtensionManagerToolError::ManagerUnavailable,
                ),
                Reply::Failed(m) => r is Err && is_operation_failed(
                    r->Err_0,
                    "Failed to search available extensions: "@ + m@,
                ),
                Reply::Content(items) => r is Ok && forwarded_all(items@, r->Ok_0@),
            },
    {
        match reply {
            Reply::Unavailable => Err(ExtensionManagerToolError::ManagerUnavailable),
            Reply::Failed(m) => Err(
                ExtensionManagerToolError::OperationFailed {
                    message: joined("Failed to search available extensions: ", m.as_str()),
                },
            ),
            Reply::Content(items) => Ok(forward(items)),
        }
    }

    /// Starts the management tool: checks its arguments and begins a run of
    /// the enable/disable procedure, returning the run and its first command.
    pub fn handle_manage_extensions(arguments: Option<ManageArguments>) -> (r: Result<
        (ManageRun, Command),
        ExtensionManagerToolError,
    >)
        ensures
            match arguments {
                None => r is Err && r->Err_0.is_missing_parameter("arguments"@),
                Some(ManageArguments::Undecodable(e)) => r == Err::<(ManageRun, Command), _>(
                    ExtensionManagerToolError::DeserializationError(e),
                ),
                Some(ManageArguments::Decoded { action, extension_name }) => match parse_action(
                    action@,
                ) {
                    Some(a) => r is Ok && r->Ok_0.0@ == start_spec(a, extension_name@)
                        && r->Ok_0.1 == Command::ResolveManagers,
                    None => r is Err && r->Err_0.is_invalid_action(action@),
                },
            },
    {
        match arguments {
            None => Err(
                ExtensionManagerToolError::MissingParameter {
                    param_name: String::from_str("arguments"),
                },
            ),
            Some(ManageArguments::Undecodable(e)) => Err(
                ExtensionManagerToolError::DeserializationError(e),
            ),
            Some(ManageArguments::Decoded { action, extension_name }) => {
                match ManageExtensionsParams::from_parts(action.as_str(), extension_name) {
                    Ok(params) => Ok(ManageRun::start(params)),
                    Err(e) => Err(e),
                }
            },
        }
    }

    /// Ends the management tool with the outcome its run finished on.
    pub fn manage_extensions_result<C>(outcome: Result<String, ManageError>) -> (r: Result<
        Vec<Content<C>>,
        ExtensionManagerToolError,
    >)
        ensures
            match outcome {
                Ok(m) => manage_result_ok(r, m@),
                Err(e) => r is Err && is_operation_failed(r->Err_0, e.message@),
            },
    {
        match outcome {
            Ok(m) => {
                let mut content: Vec<Content<C>> = Vec::new();
                content.push(Content::Text(m));
                Ok(content)
            },
            Err(e) => Err(ExtensionManagerToolError::OperationFailed { message: e.message }),
        }
    }

    /// The result of calling `name`, given what its handler produced. An
    /// unrecognised name gives an `UnknownTool` error result and the handler's
    /// outcome is not looked at; a handler's error becomes an error result
    /// carrying its message.
    pub fn call_tool<C>(
        &self,
        name: &str,
        handled: Result<Vec<Content<C>>, ExtensionManagerToolError>,
    ) -> (r: CallResult<C>)
        ensures
            tool_of(name@) is None ==> is_error_text(r, "Unknown tool: "@ + name@),
            tool_of(name@) is Some ==> match handled {
                Ok(content) => !r.is_error && r.content == content,
                Err(e) => is_error_text(r, e.message_spec()),
            },
    {
        match Self::dispatch(name) {
            None => {
                let e = ExtensionManagerToolError::UnknownTool { tool_name: String::from_str(name) };
                CallResult::error(e.message())
            },
            Some(_) => match handled {
                Ok(content) => CallResult::success(content),
                Err(e) => CallResult::error(e.message()),
            },
        }
    }

    /// Resources are not offered by this adapter.
    pub fn list_resources(&self) -> (r: Result<(), ClientError>)
        ensures
            r == Err::<(), _>(ClientError::TransportClosed),
    {
        Err(ClientError::TransportClosed)
    }

    /// Resources are not offered by this adapter.
    pub fn read_resource(&self, uri: &str) -> (r: Result<(), ClientError>)
        ensures
            r == Err::<(), _>(ClientError::TransportClosed),
    {
        Err(ClientError::TransportClosed)
    }

    /// Prompts are not offered by this adapter.
    pub fn list_prompts(&self) -> (r: Result<(), ClientError>)
        ensures
            r == Err::<(), _>(ClientError::TransportClosed),
    {
        Err(ClientError::TransportClosed)
    }

    /// Prompts are not offered by this adapter.
    pub fn get_prompt(&self, name: &str) -> (r: Result<(), ClientError>)
        ensures
            r == Err::<(), _>(ClientError::TransportClosed),
    {
        Err(ClientError::TransportClosed)
    }
}

} // verus!
