//! The core adapter: tools to browse extensions' resources and to search
//! for tools, advertised according to what is live at the time of asking.

use vstd::prelude::*;
use crate::errors::{ClientError, CoreToolError};
use crate::extension_manager_extension::{
    MANAGE_EXTENSIONS_TOOL_NAME, SEARCH_AVAILABLE_EXTENSIONS_TOOL_NAME,
};
use crate::text::{joined, same_text};
use crate::tools::{
    CallResult, Content, ParamSchema, Reply, ServerInfo, ToolDescriptor, ToolSpec, forward,
    forwarded_all, is_error_text, read_only_tool, tool_names, tool_specs,
};

verus! {

pub const EXTENSION_NAME: &'static str = "Core";

pub const READ_RESOURCE_TOOL_NAME: &'static str = "read_resource";

pub const LIST_RESOURCES_TOOL_NAME: &'static str = "list_resources";

pub const SEARCH_TOOLS_TOOL_NAME: &'static str = "search_tools";

pub const INSTRUCTIONS: &'static str = "Core Extension\n\nThis extension provides tools to review MCP resources and tool discovery capabilities.\n\nAvailable tools:\n- list_resources: List resources from extensions. This tool is only available if any of the extensions supports resources.\n- read_resource: Read specific resources from extensions. This tool is only available if any of the extensions supports resources.\n- search_tools: Search for relevant tools based on user messages\n\nUse list_resources and read_resource to work with extension data and resources.\nUse search_tools to dynamically discover and retrieve the most relevant tools for a given task.\n";

pub const LIST_RESOURCES_DESCRIPTION: &'static str = "List resources from an extension(s).\n\nResources allow extensions to share data that provide context to LLMs, such as\nfiles, database schemas, or application-specific information. This tool lists resources\nin the provided extension, and returns a list for the user to browse. If no extension\nis provided, the tool will search all extensions for the resource.\n";

pub const READ_RESOURCE_DESCRIPTION: &'static str = "Read a resource from an extension.\n\nResources allow extensions to share data that provide context to LLMs, such as\nfiles, database schemas, or application-specific information. This tool searches for the\nresource URI in the provided extension, and reads in the resource content. If no extension\nis provided, the tool will search all extensions for the resource.\n";

pub const SEARCH_TOOLS_DESCRIPTION: &'static str = "Searches for relevant tools based on the user's messages.\nFormat a query to search for the most relevant tools based on the user's messages.\nPay attention to the keywords in the user's messages, especially the last message and potential tools they are asking for.\nThis tool should be invoked when the user's messages suggest they are asking for a tool to be run.\nUse the extension_name parameter to filter tools by the appropriate extension.\nFor example, if the user is asking to list the files in the current directory, you filter for the \"developer\" extension.\nExample: {\"User\": \"list the files in the current directory\", \"Query\": \"list files in current directory\", \"Extension Name\": \"developer\", \"k\": 5}\nExtension name is not optional, it is required.\nThe returned result will be a list of tool names, descriptions, and schemas from which you, the agent can select the most relevant tool to invoke.\n";

/// The opening of the tool-selection prompt, up to its list of platform tools.
pub const SEARCH_PROMPT_HEAD: &'static str = "# LLM Tool Selection Instructions\n    Important: the user has opted to dynamically enable tools, so although an extension could be enabled, \\\n    please invoke the llm search tool to actually retrieve the most relevant tools to use according to the user's messages.\n    For example, if the user has 3 extensions enabled, but they are asking for a tool to read a pdf file, \\\n    you would invoke the llm_search tool to find the most relevant read pdf tool.\n    By dynamically enabling tools, you (goose) as the agent save context window space and allow the user to dynamically retrieve the most relevant tools.\n    Be sure to format a query packed with relevant keywords to search for the most relevant tools.\n    In addition to the extension names available to you, you also have platform extension tools available to you.\n    The platform extensions contains the following tools:\n";

/// One line of the prompt's tool list, without its name.
pub const PROMPT_ITEM: &'static str = "    - ";

/// The tool-selection prompt: its opening, then one line per platform tool.
pub open spec fn llm_search_tool_prompt_spec() -> Seq<char> {
    SEARCH_PROMPT_HEAD@ + PROMPT_ITEM@ + SEARCH_AVAILABLE_EXTENSIONS_TOOL_NAME@ + "\n"@
        + PROMPT_ITEM@ + MANAGE_EXTENSIONS_TOOL_NAME@ + "\n"@ + PROMPT_ITEM@
        + READ_RESOURCE_TOOL_NAME@ + "\n"@ + PROMPT_ITEM@ + LIST_RESOURCES_TOOL_NAME@ + "\n"@
        + PROMPT_ITEM@ + SEARCH_TOOLS_TOOL_NAME@ + "\n"@ + "    "@
}

fn push_item(s: &mut String, name: &str)
    ensures
        final(s)@ == old(s)@ + PROMPT_ITEM@ + name@ + "\n"@,
{
    s.append(PROMPT_ITEM);
    s.append(name);
    s.append("\n");
}

/// The instructions that tell a model to search for tools rather than use
/// every enabled one, naming the platform tools.
pub fn llm_search_tool_prompt() -> (r: String)
    ensures
        r@ == llm_search_tool_prompt_spec(),
{
    let mut s = String::from_str(SEARCH_PROMPT_HEAD);
    push_item(&mut s, SEARCH_AVAILABLE_EXTENSIONS_TOOL_NAME);
    push_item(&mut s, MANAGE_EXTENSIONS_TOOL_NAME);
    push_item(&mut s, READ_RESOURCE_TOOL_NAME);
    push_item(&mut s, LIST_RESOURCES_TOOL_NAME);
    push_item(&mut s, SEARCH_TOOLS_TOOL_NAME);
    s.append("    ");
    s
}

/// What the backing components are at the moment of asking.
#[derive(Debug, Clone, Copy, PartialEq, Eq, Structural)]
pub struct LiveState {
    /// The extension manager's reference resolved.
    pub extension_manager_live: bool,
    /// Some enabled extension supports resources (as the live manager reports).
    pub supports_resources: bool,
    /// The tool router's reference resolved.
    pub tool_route_manager_live: bool,
}

/// Resource tools are offered only while a live manager reports resource support.
pub open spec fn resources_offered(live: LiveState) -> bool {
    live.extension_manager_live && live.supports_resources
}

pub open spec fn list_resources_tool() -> ToolSpec {
    read_only_tool(
        LIST_RESOURCES_TOOL_NAME@,
        LIST_RESOURCES_DESCRIPTION@,
        ParamSchema::ListResources,
        "List resources"@,
    )
}

pub open spec fn read_resource_tool() -> ToolSpec {
    read_only_tool(
        READ_RESOURCE_TOOL_NAME@,
        READ_RESOURCE_DESCRIPTION@,
        ParamSchema::ReadResource,
        "Read a resource"@,
    )
}

pub open spec fn search_tools_tool() -> ToolSpec {
    read_only_tool(
        SEARCH_TOOLS_TOOL_NAME@,
        SEARCH_TOOLS_DESCRIPTION@,
        ParamSchema::LlmSearch,
        "LLM search for relevant tools"@,
    )
}

/// The tools offered in a live state, in declaration order.
pub open spec fn tools_spec(live: LiveState) -> Seq<ToolSpec> {
    (if resources_offered(live) {
        seq![list_resources_tool(), read_resource_tool()]
    } else {
        Seq::empty()
    }) + (if live.tool_route_manager_live {
        seq![search_tools_tool()]
    } else {
        Seq::empty()
    })
}

/// The tools this adapter recognises.
#[derive(Debug, Clone, Copy, PartialEq, Eq, Structural)]
pub enum CoreTool {
    ListResources,
    ReadResource,
    SearchTools,
}

/// The tool a name stands for, if this adapter recognises it.
pub open spec fn tool_of(name: Seq<char>) -> Option<CoreTool> {
    if name == LIST_RESOURCES_TOOL_NAME@ {
        Some(CoreTool::ListResources)
    } else if name == READ_RESOURCE_TOOL_NAME@ {
        Some(CoreTool::ReadResource)
    } else if name == SEARCH_TOOLS_TOOL_NAME@ {
        Some(CoreTool::SearchTools)
    } else {
        None
    }
}

pub open spec fn is_operation_failed(e: CoreToolError, message: Seq<char>) -> bool {
    match e {
        CoreToolError::OperationFailed { message: m } => m@ == message,
        _ => false,
    }
}

/// What a handler makes of a reply from the extension manager: its items
/// forwarded, or its failure prefixed with `prefix`.
pub open spec fn manager_outcome<C>(
    reply: Reply<C>,
    prefix: Seq<char>,
    r: Result<Vec<Content<C>>, CoreToolError>,
) -> bool {
    match reply {
        Reply::Unavailable => r == Err::<Vec<Content<C>>, _>(CoreToolError::ManagerUnavailable),
        Reply::Failed(m) => r is Err && is_operation_failed(r->Err_0, prefix + m@),
        Reply::Content(items) => r is Ok && forwarded_all(items@, r->Ok_0@),
    }
}

/// What the search handler makes of the router's reply: its items forwarded,
/// or its failure message unchanged.
pub open spec fn search_outcome<C>(reply: Reply<C>, r: Result<Vec<Content<C>>, CoreToolError>) -> bool {
    match reply {
        Reply::Unavailable => r == Err::<Vec<Content<C>>, _>(
            CoreToolError::ToolRouteManagerUnavailable,
        ),
        Reply::Failed(m) => r is Err && is_operation_failed(r->Err_0, m@),
        Reply::Content(items) => r is Ok && forwarded_all(items@, r->Ok_0@),
    }
}

pub open spec fn handler_outcome<C>(
    tool: CoreTool,
    reply: Reply<C>,
    r: Result<Vec<Content<C>>, CoreToolError>,
) -> bool {
    match tool {
        CoreTool::ListResources => manager_outcome(reply, "Failed to list resources: "@, r),
        CoreTool::ReadResource => manager_outcome(reply, "Failed to read resource: "@, r),
        CoreTool::SearchTools => search_outcome(reply, r),
    }
}

/// What a tool reports when its backing component fails with `m`.
pub open spec fn failure_message(tool: CoreTool, m: Seq<char>) -> Seq<char> {
    match tool {
        CoreTool::ListResources => "Failed to list resources: "@ + m,
        CoreTool::ReadResource => "Failed to read resource: "@ + m,
        CoreTool::SearchTools => m,
    }
}

/// The message of a tool whose backing component is gone.
pub open spec fn unavailable_message(tool: CoreTool) -> Seq<char> {
    match tool {
        CoreTool::SearchTools => "Tool route manager not available"@,
        _ => "Extension manager not available"@,
    }
}

/// While no tool router is reachable the search tool is not offered; while
/// one is, it is offered exactly once.
pub proof fn lemma_search_tool_follows_router(live: LiveState)
    ensures
        !live.tool_route_manager_live ==> !tool_names(tools_spec(live)).contains(
            SEARCH_TOOLS_TOOL_NAME@,
        ),
        live.tool_route_manager_live ==> exists|i: int|
            0 <= i < tools_spec(live).len() && tools_spec(live)[i] == search_tools_tool()
                && forall|j: int|
                0 <= j < tools_spec(live).len() && tools_spec(live)[j].name
                    == SEARCH_TOOLS_TOOL_NAME@ ==> j == i,
{
    reveal_strlit("list_resources");
    reveal_strlit("read_resource");
    reveal_strlit("search_tools");
    let tools = tools_spec(live);
    let names = tool_names(tools);
    if resources_offered(live) {
        assert(tools[0].name == LIST_RESOURCES_TOOL_NAME@);
        assert(tools[1].name == READ_RESOURCE_TOOL_NAME@);
        assert(tools[0].name.len() != SEARCH_TOOLS_TOOL_NAME@.len());
        assert(tools[1].name.len() != SEARCH_TOOLS_TOOL_NAME@.len());
        if live.tool_route_manager_live {
            assert(tools[2] == search_tools_tool());
        } else {
            assert(tools.len() == 2);
        }
    } else {
        if live.tool_route_manager_live {
            assert(tools[0] == search_tools_tool());
        } else {
            assert(tools.len() == 0);
        }
    }
    if !live.tool_route_manager_live {
        assert forall|i: int| 0 <= i < names.len() implies names[i] != SEARCH_TOOLS_TOOL_NAME@ by {
            assert(names[i].len() != SEARCH_TOOLS_TOOL_NAME@.len());
        }
    }
}

/// The resource tools are offered both, exactly while the live extension
/// manager reports that some enabled extension supports resources, and
/// neither otherwise.
pub proof fn lemma_resource_tools_follow_support(live: LiveState)
    ensures
        resources_offered(live) ==> tool_names(tools_spec(live)).contains(LIST_RESOURCES_TOOL_NAME@)
            && tool_names(tools_spec(live)).contains(READ_RESOURCE_TOOL_NAME@),
        !resources_offered(live) ==> !tool_names(tools_spec(live)).contains(
            LIST_RESOURCES_TOOL_NAME@,
        ) && !tool_names(tools_spec(live)).contains(READ_RESOURCE_TOOL_NAME@),
{
    reveal_strlit("list_resources");
    reveal_strlit("read_resource");
    reveal_strlit("search_tools");
    let names = tool_names(tools_spec(live));
    if resources_offered(live) {
        assert(names[0] == LIST_RESOURCES_TOOL_NAME@);
        assert(names[1] == READ_RESOURCE_TOOL_NAME@);
    } else {
        assert forall|i: int| 0 <= i < names.len() implies names[i] != LIST_RESOURCES_TOOL_NAME@
            && names[i] != READ_RESOURCE_TOOL_NAME@ by {
            assert(names[i] == SEARCH_TOOLS_TOOL_NAME@);
        }
    }
}

/// The adapter that offers resource browsing and tool search as tools.
pub struct CoreClient {
    info: ServerInfo,
}

impl CoreClient {
    pub closed spec fn info_spec(&self) -> ServerInfo {
        self.info
    }

    /// The adapter, with its static description.
    pub fn new() -> (r: CoreClient)
        ensures
            r.info_spec().describes(EXTENSION_NAME@, INSTRUCTIONS@),
    {
        CoreClient { info: ServerInfo::tools_only(EXTENSION_NAME, INSTRUCTIONS) }
    }

    /// The description given at initialisation.
    pub fn get_info(&self) -> (r: &ServerInfo)
        ensures
            *r == self.info_spec(),
    {
        &self.info
    }

    /// The tools offered in the given live state: the two resource tools
    /// while resources are supported, then the search tool while the router
    /// is reachable.
    pub fn list_tools(&self, live: LiveState) -> (r: Vec<ToolDescriptor>)
        ensures
            tool_specs(r@) == tools_spec(live),
    {
        let mut tools: Vec<ToolDescriptor> = Vec::new();
        if live.extension_manager_live && live.supports_resources {
            tools.push(
                ToolDescriptor::new(
                    LIST_RESOURCES_TOOL_NAME,
                    LIST_RESOURCES_DESCRIPTION,
                    ParamSchema::ListResources,
                    "List resources",
                    true,
                ),
            );
            tools.push(
                ToolDescriptor::new(
                    READ_RESOURCE_TOOL_NAME,
                    READ_RESOURCE_DESCRIPTION,
                    ParamSchema::ReadResource,
                    "Read a resource",
                    true,
                ),
            );
        }
        if live.tool_route_manager_live {
            tools.push(
                ToolDescriptor::new(
                    SEARCH_TOOLS_TOOL_NAME,
                    SEARCH_TOOLS_DESCRIPTION,
                    ParamSchema::LlmSearch,
                    "LLM search for relevant tools",
                    true,
                ),
            );
        }
        assert(tool_specs(tools@) =~= tools_spec(live));
        tools
    }

    /// The tool that `name` calls, if it is one of this adapter's.
    pub fn dispatch(name: &str) -> (r: Option<CoreTool>)
        ensures
            r == tool_of(name@),
    {
        if same_text(name, LIST_RESOURCES_TOOL_NAME) {
            Some(CoreTool::ListResources)
        } else if same_text(name, READ_RESOURCE_TOOL_NAME) {
            Some(CoreTool::ReadResource)
        } else if same_text(name, SEARCH_TOOLS_TOOL_NAME) {
            Some(CoreTool::SearchTools)
        } else {
            None
        }
    }

    fn from_manager<C>(reply: Reply<C>, prefix: &str) -> (r: Result<Vec<Content<C>>, CoreToolError>)
        ensures
            manager_outcome(reply, prefix@, r),
    {
        match reply {
            Reply::Unavailable => Err(CoreToolError::ManagerUnavailable),
            Reply::Failed(m) => Err(
                CoreToolError::OperationFailed { message: joined(prefix, m.as_str()) },
            ),
            Reply::Content(items) => Ok(forward(items)),
        }
    }

    /// The resource-listing tool, given the extension manager's reply.
    pub fn handle_list_resources<C>(reply: Reply<C>) -> (r: Result<Vec<Content<C>>, CoreToolError>)
        ensures
            handler_outcome(CoreTool::ListResources, reply, r),
    {
        Self::from_manager(reply, "Failed to list resources: ")
    }

    /// The resource-reading tool, given the extension manager's reply.
    pub fn handle_read_resource<C>(reply: Reply<C>) -> (r: Result<Vec<Content<C>>, CoreToolError>)
        ensures
            handler_outcome(CoreTool::ReadResource, reply, r),
    {
        Self::from_manager(reply, "Failed to read resource: ")
    }

    /// The tool-search tool, given the router's reply. A failure to submit the
    /// search and a failure of the pending search both arrive as `Failed`
    /// with the router's message.
    pub fn handle_llm_search<C>(reply: Reply<C>) -> (r: Result<Vec<Content<C>>, CoreToolError>)
        ensures
            handler_outcome(CoreTool::SearchTools, reply, r),
    {
        match reply {
            Reply::Unavailable => Err(CoreToolError::ToolRouteManagerUnavailable),
            Reply::Failed(m) => Err(CoreToolError::OperationFailed { message: m }),
            Reply::Content(items) => Ok(forward(items)),
        }
    }

    /// The result of calling `name` with the reply that its backing component
    /// gave. An unrecognised name gives an `UnknownTool` error result and the
    /// reply is not looked at; a handler's error becomes an error result
    /// carrying its message.
    pub fn call_tool<C>(&self, name: &str, reply: Reply<C>) -> (r: CallResult<C>)
        ensures
            match tool_of(name@) {
                None => is_error_text(r, "Unknown tool: "@ + name@),
                Some(tool) => match reply {
                    Reply::Unavailable => is_error_text(r, unavailable_message(tool)),
                    Reply::Failed(m) => is_error_text(
                        r,
                        "Operation failed: "@ + failure_message(tool, m@),
                    ),
                    Reply::Content(items) => !r.is_error && forwarded_all(items@, r.content@),
                },
            },
    {
        let handled = match Self::dispatch(name) {
            None => {
                let e = CoreToolError::UnknownTool { tool_name: String::from_str(name) };
                return CallResult::error(e.message());
            },
            Some(CoreTool::ListResources) => Self::handle_list_resources(reply),
            Some(CoreTool::ReadResource) => Self::handle_read_resource(reply),
            Some(CoreTool::SearchTools) => Self::handle_llm_search(reply),
        };
        match handled {
            Ok(content) => CallResult::success(content),
            Err(e) => CallResult::error(e.message()),
        }
    }

    /// Resources are not offered through the protocol by this adapter.
    pub fn list_resources(&self) -> (r: Result<(), ClientError>)
        ensures
            r == Err::<(), _>(ClientError::TransportClosed),
    {
        Err(ClientError::TransportClosed)
    }

    /// Resources are not offered through the protocol by this adapter.
    pub fn read_resource(&self, uri: &str) -> (r: Result<(), ClientError>)
        ensures
            r == Err::<(), _>(ClientError::TransportClosed),
    {
        Err(ClientError::TransportClosed)
    }

    /// Prompts are not offered by this adapter.
    pub fn list_prompts(&self) -> (r: Result<(), ClientError>)
        ensures
            r == Err::<(), _>(ClientError::TransportClosed),
    {
        Err(ClientError::TransportClosed)
    }

    /// Prompts are not offered by this adapter.
    pub fn get_prompt(&self, name: &str) -> (r: Result<(), ClientError>)
        ensures
            r == Err::<(), _>(ClientError::TransportClosed),
    {
        Err(ClientError::TransportClosed)
    }
}

} // verus!
