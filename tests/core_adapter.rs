use goose::core_extension::{
    llm_search_tool_prompt, CoreClient, CoreTool, LiveState, EXTENSION_NAME, INSTRUCTIONS,
    LIST_RESOURCES_TOOL_NAME, READ_RESOURCE_TOOL_NAME, SEARCH_TOOLS_TOOL_NAME,
};
use goose::errors::{ClientError, CoreToolError};
use goose::params::{default_k, LlmSearchParams};
use goose::tools::{CallResult, Content, ParamSchema, Reply, PROTOCOL_VERSION};

fn live(manager: bool, resources: bool, router: bool) -> LiveState {
    LiveState {
        extension_manager_live: manager,
        supports_resources: resources,
        tool_route_manager_live: router,
    }
}

fn names(state: LiveState) -> Vec<String> {
    CoreClient::new()
        .list_tools(state)
        .into_iter()
        .map(|t| t.name)
        .collect()
}

fn error_text<C>(r: &CallResult<C>) -> String {
    assert!(r.is_error);
    assert_eq!(r.content.len(), 1);
    match &r.content[0] {
        Content::Text(t) => t.clone(),
        Content::Forwarded(_) => panic!("expected a text item"),
    }
}

#[test]
fn unknown_tool_is_an_error_result_naming_it() {
    let client = CoreClient::new();
    for name in ["nope", "", "LIST_RESOURCES", "manage_extensions", "search_tools "] {
        let r = client.call_tool::<String>(name, Reply::Content(vec!["x".to_string()]));
        assert_eq!(error_text(&r), format!("Unknown tool: {}", name));
    }
}

#[test]
fn search_tool_listed_only_with_router() {
    for manager in [false, true] {
        for resources in [false, true] {
            let without = names(live(manager, resources, false));
            assert!(!without.iter().any(|n| n == SEARCH_TOOLS_TOOL_NAME));
            let with = names(live(manager, resources, true));
            assert_eq!(with.iter().filter(|n| *n == SEARCH_TOOLS_TOOL_NAME).count(), 1);
        }
    }
}

#[test]
fn resource_tools_listed_only_with_resource_support() {
    for router in [false, true] {
        let none = names(live(true, false, router));
        assert!(!none.iter().any(|n| n == LIST_RESOURCES_TOOL_NAME || n == READ_RESOURCE_TOOL_NAME));
        let gone = names(live(false, true, router));
        assert!(!gone.iter().any(|n| n == LIST_RESOURCES_TOOL_NAME || n == READ_RESOURCE_TOOL_NAME));
        let both = names(live(true, true, router));
        assert!(both.iter().any(|n| n == LIST_RESOURCES_TOOL_NAME));
        assert!(both.iter().any(|n| n == READ_RESOURCE_TOOL_NAME));
    }
}

#[test]
fn core_tools_keep_declaration_order() {
    assert_eq!(
        names(live(true, true, true)),
        vec!["list_resources", "read_resource", "search_tools"]
    );
    assert!(names(live(false, false, false)).is_empty());
    let tools = CoreClient::new().list_tools(live(true, true, true));
    assert_eq!(tools[0].input_schema, ParamSchema::ListResources);
    assert_eq!(tools[1].input_schema, ParamSchema::ReadResource);
    assert_eq!(tools[2].input_schema, ParamSchema::LlmSearch);
    assert_eq!(tools[0].annotations.title, "List resources");
    assert_eq!(tools[1].annotations.title, "Read a resource");
    assert_eq!(tools[2].annotations.title, "LLM search for relevant tools");
    for t in &tools {
        assert!(t.annotations.read_only);
        assert!(!t.annotations.destructive);
        assert!(!t.annotations.idempotent);
        assert!(!t.annotations.open_world);
    }
    assert!(tools[0].description.starts_with("List resources from an extension(s).\n\n"));
    assert!(tools[2].description.contains("\"Extension Name\": \"developer\", \"k\": 5}"));
}

#[test]
fn search_without_router_reports_it_unavailable() {
    let client = CoreClient::new();
    let r = client.call_tool::<String>("search_tools", Reply::Unavailable);
    assert_eq!(error_text(&r), "Tool route manager not available");
    let direct = CoreClient::handle_llm_search::<String>(Reply::Unavailable);
    assert_eq!(direct, Err(CoreToolError::ToolRouteManagerUnavailable));
    let params = LlmSearchParams::new("developer".to_string(), "list files".to_string(), Some(5));
    assert_eq!(params.k, 5);
}

#[test]
fn search_failure_keeps_router_message() {
    let client = CoreClient::new();
    let r = client.call_tool::<String>("search_tools", Reply::Failed("index offline".to_string()));
    assert_eq!(error_text(&r), "Operation failed: index offline");
}

#[test]
fn search_results_are_forwarded_in_order() {
    let client = CoreClient::new();
    let r = client.call_tool("search_tools", Reply::Content(vec![3u32, 1, 2]));
    assert!(!r.is_error);
    assert_eq!(
        r.content,
        vec![Content::Forwarded(3), Content::Forwarded(1), Content::Forwarded(2)]
    );
}

#[test]
fn resource_failures_are_prefixed() {
    let client = CoreClient::new();
    let l = client.call_tool::<String>("list_resources", Reply::Failed("boom".to_string()));
    assert_eq!(error_text(&l), "Operation failed: Failed to list resources: boom");
    let r = client.call_tool::<String>("read_resource", Reply::Failed("no such uri".to_string()));
    assert_eq!(error_text(&r), "Operation failed: Failed to read resource: no such uri");
}

#[test]
fn resource_tools_without_manager() {
    let client = CoreClient::new();
    for name in ["list_resources", "read_resource"] {
        let r = client.call_tool::<String>(name, Reply::Unavailable);
        assert_eq!(error_text(&r), "Extension manager not available");
    }
    let ok = client.call_tool("read_resource", Reply::Content(vec!["body".to_string()]));
    assert!(!ok.is_error);
    assert_eq!(ok.content, vec![Content::Forwarded("body".to_string())]);
}

#[test]
fn core_dispatch_by_exact_name() {
    assert_eq!(CoreClient::dispatch("list_resources"), Some(CoreTool::ListResources));
    assert_eq!(CoreClient::dispatch("read_resource"), Some(CoreTool::ReadResource));
    assert_eq!(CoreClient::dispatch("search_tools"), Some(CoreTool::SearchTools));
    assert_eq!(CoreClient::dispatch("search_tool"), None);
}

#[test]
fn core_error_messages() {
    assert_eq!(
        CoreToolError::UnknownTool { tool_name: "x".to_string() }.message(),
        "Unknown tool: x"
    );
    assert_eq!(CoreToolError::ManagerUnavailable.message(), "Extension manager not available");
    assert_eq!(
        CoreToolError::OperationFailed { message: "m".to_string() }.message(),
        "Operation failed: m"
    );
    assert_eq!(
        CoreToolError::DeserializationError("bad".to_string()).message(),
        "Failed to deserialize parameters: bad"
    );
}

#[test]
fn core_info_is_static() {
    let client = CoreClient::new();
    let info = client.get_info();
    assert_eq!(info.protocol_version, PROTOCOL_VERSION);
    assert_eq!(info.protocol_version, "2025-03-26");
    assert!(info.tools && !info.tools_list_changed);
    assert!(!info.resources && !info.prompts && !info.logging);
    assert_eq!(info.name, EXTENSION_NAME);
    assert_eq!(info.title, "Core");
    assert_eq!(info.version, "1.0.0");
    assert_eq!(info.instructions, INSTRUCTIONS);
    assert!(info.instructions.starts_with("Core Extension\n\nThis extension provides"));
    assert!(info.instructions.ends_with("for a given task.\n"));
}

#[test]
fn core_protocol_operations_not_offered() {
    let client = CoreClient::new();
    assert_eq!(client.list_prompts(), Err(ClientError::TransportClosed));
    assert_eq!(client.get_prompt("p"), Err(ClientError::TransportClosed));
    assert_eq!(client.list_resources(), Err(ClientError::TransportClosed));
    assert_eq!(client.read_resource("file:///x"), Err(ClientError::TransportClosed));
}

#[test]
fn search_count_defaults_to_five() {
    assert_eq!(default_k(), 5);
    let p = LlmSearchParams::new("developer".to_string(), "q".to_string(), None);
    assert_eq!(p.k, 5);
    let q = LlmSearchParams::new("developer".to_string(), "q".to_string(), Some(9));
    assert_eq!(q.k, 9);
}

#[test]
fn prompt_lists_platform_tools() {
    let p = llm_search_tool_prompt();
    assert!(p.starts_with("# LLM Tool Selection Instructions\n    Important:"));
    assert!(p.contains("could be enabled, \\\n    please invoke"));
    assert!(p.ends_with(
        "the following tools:\n    - search_available_extensions\n    - manage_extensions\n    - read_resource\n    - list_resources\n    - search_tools\n    "
    ));
}
