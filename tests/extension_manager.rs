use goose::errors::{ClientError, ExtensionManagerToolError};
use goose::extension_manager_extension::{
    ExtensionManagerClient, ExtensionManagerTool, ManageArguments, EXTENSION_NAME,
    MANAGE_EXTENSIONS_TOOL_NAME, SEARCH_AVAILABLE_EXTENSIONS_TOOL_NAME,
};
use goose::lifecycle::{Command, ErrorCode, Event, IndexAction, ManageError, ManageRun, Phase};
use goose::params::{ManageExtensionAction, ManageExtensionsParams};
use goose::tools::{Content, ParamSchema, Reply};

fn start(action: ManageExtensionAction, name: &str) -> ManageRun {
    let (run, first) = ManageRun::start(ManageExtensionsParams {
        action,
        extension_name: name.to_string(),
    });
    assert_eq!(first, Command::ResolveManagers);
    run
}

fn run_all(run: &mut ManageRun, events: Vec<Event>) -> Vec<Command> {
    let mut out = Vec::new();
    for ev in events {
        if let Some(c) = run.step(ev) {
            out.push(c);
        }
    }
    out
}

fn resolved(router: bool) -> Event {
    Event::ManagersResolved { extension_manager: true, tool_route_manager: router }
}

fn internal(message: &str) -> ManageError {
    ManageError { code: ErrorCode::InternalError, message: message.to_string() }
}

#[test]
fn disable_updates_index_before_registry_and_keeps_its_error() {
    let mut run = start(ManageExtensionAction::Disable, "never_enabled");
    let cmds = run_all(
        &mut run,
        vec![
            resolved(true),
            Event::RouterChecked { ready: true },
            Event::IndexUpdated(Ok(())),
            Event::Removed(Err("Extension never_enabled not found".to_string())),
        ],
    );
    assert_eq!(
        cmds,
        vec![
            Command::CheckRouter,
            Command::UpdateIndex(IndexAction::Remove),
            Command::RemoveExtension,
            Command::Finish(Err(internal("Extension never_enabled not found"))),
        ]
    );
    assert_eq!(run.phase, Phase::Finished);
    let shown = ExtensionManagerClient::manage_extensions_result::<String>(Err(internal(
        "Extension never_enabled not found",
    )));
    let client = ExtensionManagerClient::new();
    let r = client.call_tool("manage_extensions", shown);
    assert!(r.is_error);
    assert_eq!(
        r.content,
        vec![Content::Text(
            "Extension operation failed: Extension never_enabled not found".to_string()
        )]
    );
}

#[test]
fn enable_unknown_leaves_speculative_index_addition() {
    let mut run = start(ManageExtensionAction::Enable, "no_such_extension");
    let cmds = run_all(
        &mut run,
        vec![
            resolved(true),
            Event::RouterChecked { ready: true },
            Event::IndexUpdated(Ok(())),
            Event::ConfigLookedUp { found: false },
        ],
    );
    assert_eq!(
        cmds,
        vec![
            Command::CheckRouter,
            Command::UpdateIndex(IndexAction::Add),
            Command::LookUpConfig,
            Command::Finish(Err(ManageError {
                code: ErrorCode::ResourceNotFound,
                message: "Extension 'no_such_extension' not found. Please check the extension name and try again."
                    .to_string(),
            })),
        ]
    );
}

#[test]
fn disable_twice_ends_alike() {
    let events = || {
        vec![
            resolved(true),
            Event::RouterChecked { ready: true },
            Event::IndexUpdated(Ok(())),
            Event::Removed(Err("not enabled".to_string())),
        ]
    };
    let mut first = start(ManageExtensionAction::Disable, "developer");
    let mut second = start(ManageExtensionAction::Disable, "developer");
    let a = run_all(&mut first, events());
    let b = run_all(&mut second, events());
    assert_eq!(a, b);
    assert_eq!(a.last(), Some(&Command::Finish(Err(internal("not enabled")))));

    let mut third = start(ManageExtensionAction::Disable, "developer");
    let c = run_all(&mut third, vec![resolved(false), Event::Removed(Ok(()))]);
    let mut fourth = start(ManageExtensionAction::Disable, "developer");
    let d = run_all(
        &mut fourth,
        vec![resolved(true), Event::RouterChecked { ready: false }, Event::Removed(Ok(()))],
    );
    let done = Command::Finish(Ok("The extension 'developer' has been disabled successfully".to_string()));
    assert_eq!(c.last(), Some(&done));
    assert_eq!(d.last(), Some(&done));
}

#[test]
fn enable_developer_updates_index_twice() {
    let mut run = start(ManageExtensionAction::Enable, "developer");
    let cmds = run_all(
        &mut run,
        vec![
            resolved(true),
            Event::RouterChecked { ready: true },
            Event::IndexUpdated(Ok(())),
            Event::ConfigLookedUp { found: true },
            Event::Added(Ok(())),
            Event::RouterChecked { ready: true },
            Event::IndexUpdated(Ok(())),
        ],
    );
    assert_eq!(
        cmds,
        vec![
            Command::CheckRouter,
            Command::UpdateIndex(IndexAction::Add),
            Command::LookUpConfig,
            Command::AddExtension,
            Command::CheckRouter,
            Command::UpdateIndex(IndexAction::Add),
            Command::Finish(Ok("The extension 'developer' has been installed successfully".to_string())),
        ]
    );
    assert_eq!(cmds.iter().filter(|c| **c == Command::UpdateIndex(IndexAction::Add)).count(), 2);
    let shown = ExtensionManagerClient::manage_extensions_result::<String>(Ok(
        "The extension 'developer' has been installed successfully".to_string(),
    ));
    let r = ExtensionManagerClient::new().call_tool("manage_extensions", shown);
    assert!(!r.is_error);
    assert_eq!(
        r.content,
        vec![Content::Text("The extension 'developer' has been installed successfully".to_string())]
    );
}

#[test]
fn missing_manager_ends_run() {
    let mut run = start(ManageExtensionAction::Enable, "developer");
    let cmds = run_all(
        &mut run,
        vec![Event::ManagersResolved { extension_manager: false, tool_route_manager: true }],
    );
    assert_eq!(
        cmds,
        vec![Command::Finish(Err(internal("Extension manager is no longer available")))]
    );
    assert_eq!(run.step(Event::RouterChecked { ready: true }), None);
}

#[test]
fn enable_without_router_skips_index() {
    let mut run = start(ManageExtensionAction::Enable, "memory");
    let cmds = run_all(
        &mut run,
        vec![resolved(false), Event::ConfigLookedUp { found: true }, Event::Added(Ok(()))],
    );
    assert_eq!(
        cmds,
        vec![
            Command::LookUpConfig,
            Command::AddExtension,
            Command::Finish(Ok("The extension 'memory' has been installed successfully".to_string())),
        ]
    );
}

#[test]
fn index_failures_end_run() {
    let mut before = start(ManageExtensionAction::Disable, "memory");
    let a = run_all(
        &mut before,
        vec![resolved(true), Event::RouterChecked { ready: true }, Event::IndexUpdated(Err("down".to_string()))],
    );
    assert_eq!(a.last(), Some(&Command::Finish(Err(internal("Failed to update LLM index: down")))));

    let mut after = start(ManageExtensionAction::Enable, "memory");
    let b = run_all(
        &mut after,
        vec![
            resolved(true),
            Event::RouterChecked { ready: false },
            Event::ConfigLookedUp { found: true },
            Event::Added(Ok(())),
            Event::RouterChecked { ready: true },
            Event::IndexUpdated(Err("down".to_string())),
        ],
    );
    assert_eq!(
        b,
        vec![
            Command::CheckRouter,
            Command::LookUpConfig,
            Command::AddExtension,
            Command::CheckRouter,
            Command::UpdateIndex(IndexAction::Add),
            Command::Finish(Err(internal("Failed to update LLM index: down"))),
        ]
    );
}

#[test]
fn install_failure_keeps_message() {
    let mut run = start(ManageExtensionAction::Enable, "memory");
    let cmds = run_all(
        &mut run,
        vec![resolved(false), Event::ConfigLookedUp { found: true }, Event::Added(Err("spawn failed".to_string()))],
    );
    assert_eq!(cmds.last(), Some(&Command::Finish(Err(internal("spawn failed")))));
}

#[test]
fn event_out_of_turn_is_ignored() {
    let mut run = start(ManageExtensionAction::Disable, "memory");
    let before = run.clone();
    assert_eq!(run.step(Event::Removed(Ok(()))), None);
    assert_eq!(run, before);
}

#[test]
fn manage_arguments_are_checked() {
    match ExtensionManagerClient::handle_manage_extensions(None) {
        Err(e) => {
            assert_eq!(e, ExtensionManagerToolError::MissingParameter { param_name: "arguments".to_string() });
            assert_eq!(e.message(), "Missing required parameter: arguments");
        }
        Ok(_) => panic!("expected an error"),
    }
    match ExtensionManagerClient::handle_manage_extensions(Some(ManageArguments::Undecodable(
        "missing field `action`".to_string(),
    ))) {
        Err(e) => assert_eq!(e.message(), "Failed to deserialize parameters: missing field `action`"),
        Ok(_) => panic!("expected an error"),
    }
    match ExtensionManagerClient::handle_manage_extensions(Some(ManageArguments::Decoded {
        action: "toggle".to_string(),
        extension_name: "developer".to_string(),
    })) {
        Err(e) => assert_eq!(e.message(), "Invalid action: toggle. Must be 'enable' or 'disable'"),
        Ok(_) => panic!("expected an error"),
    }
    match ExtensionManagerClient::handle_manage_extensions(Some(ManageArguments::Decoded {
        action: "disable".to_string(),
        extension_name: "developer".to_string(),
    })) {
        Ok((run, first)) => {
            assert_eq!(first, Command::ResolveManagers);
            assert_eq!(run.action, ManageExtensionAction::Disable);
            assert_eq!(run.extension_name, "developer");
            assert_eq!(run.phase, Phase::ResolvingManagers);
        }
        Err(_) => panic!("expected a run"),
    }
}

#[test]
fn actions_use_lower_case_spelling() {
    assert_eq!(ManageExtensionAction::parse("enable"), Ok(ManageExtensionAction::Enable));
    assert_eq!(ManageExtensionAction::parse("disable"), Ok(ManageExtensionAction::Disable));
    assert!(ManageExtensionAction::parse("Enable").is_err());
    assert_eq!(ManageExtensionAction::Disable.as_str(), "disable");
    assert_eq!(IndexAction::for_action(ManageExtensionAction::Disable), IndexAction::Remove);
    assert_eq!(IndexAction::for_action(ManageExtensionAction::Enable), IndexAction::Add);
    assert_eq!(IndexAction::Remove.as_str(), "remove");
    assert_eq!(IndexAction::Add.as_str(), "add");
}

#[test]
fn extension_manager_unknown_tool() {
    let client = ExtensionManagerClient::new();
    let r = client.call_tool::<String>("search_tools", Ok(vec![]));
    assert!(r.is_error);
    assert_eq!(r.content, vec![Content::Text("Unknown tool: search_tools".to_string())]);
}

#[test]
fn discovery_forwards_or_reports() {
    let ok = ExtensionManagerClient::handle_search_available_extensions(Reply::Content(vec![
        "a".to_string(),
        "b".to_string(),
    ]));
    assert_eq!(
        ok,
        Ok(vec![Content::Forwarded("a".to_string()), Content::Forwarded("b".to_string())])
    );
    let failed = ExtensionManagerClient::handle_search_available_extensions::<String>(Reply::Failed(
        "catalog unreadable".to_string(),
    ));
    assert_eq!(
        failed,
        Err(ExtensionManagerToolError::OperationFailed {
            message: "Failed to search available extensions: catalog unreadable".to_string()
        })
    );
    let gone = ExtensionManagerClient::handle_search_available_extensions::<String>(Reply::Unavailable);
    let r = ExtensionManagerClient::new().call_tool("search_available_extensions", gone);
    assert_eq!(r.content, vec![Content::Text("Extension manager not available".to_string())]);
}

#[test]
fn extension_manager_tools_are_fixed() {
    let tools = ExtensionManagerClient::new().list_tools();
    assert_eq!(tools.len(), 2);
    assert_eq!(tools[0].name, SEARCH_AVAILABLE_EXTENSIONS_TOOL_NAME);
    assert_eq!(tools[0].input_schema, ParamSchema::Empty);
    assert_eq!(tools[0].annotations.title, "Discover extensions");
    assert!(tools[0].annotations.read_only);
    assert_eq!(tools[1].name, MANAGE_EXTENSIONS_TOOL_NAME);
    assert_eq!(tools[1].input_schema, ParamSchema::ManageExtensions);
    assert_eq!(tools[1].annotations.title, "Enable or disable an extension");
    assert!(!tools[1].annotations.read_only);
    assert!(tools[1].description.starts_with("Tool to manage extensions and tools in goose context.\n            Enable"));
    assert_eq!(
        ExtensionManagerClient::dispatch("manage_extensions"),
        Some(ExtensionManagerTool::ManageExtensions)
    );
    assert_eq!(ExtensionManagerClient::dispatch("extensionmanager__manage_extensions"), None);
}

#[test]
fn extension_manager_info_and_transport() {
    let client = ExtensionManagerClient::new();
    let info = client.get_info();
    assert_eq!(info.name, EXTENSION_NAME);
    assert_eq!(info.title, "Extension Manager");
    assert!(info.instructions.starts_with("Extension Management\n\nUse these tools"));
    assert_eq!(client.list_prompts(), Err(ClientError::TransportClosed));
    assert_eq!(client.get_prompt("x"), Err(ClientError::TransportClosed));
    assert_eq!(client.list_resources(), Err(ClientError::TransportClosed));
    assert_eq!(client.read_resource("u"), Err(ClientError::TransportClosed));
}
