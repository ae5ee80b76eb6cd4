//! The procedure that enables or disables one extension and keeps the tool
//! router's index in step with it.
//!
//! A run is a state machine: the caller performs each `Command` the run hands
//! out against the live components and feeds back what happened as an `Event`.
//! Index updates are made before the registry change, and again after a
//! successful install; a failure at any step ends the run, and nothing done
//! before it is undone.

use vstd::prelude::*;
use crate::params::{ManageExtensionAction, ManageExtensionsParams};
use crate::text::joined;

verus! {

/// How the router's index is to change for an extension.
#[derive(Debug, Clone, Copy, PartialEq, Eq, Structural)]
pub enum IndexAction {
    Add,
    Remove,
}

/// The index change that goes with an action: removal for a disable, an
/// addition otherwise.
pub open spec fn index_action_spec(action: ManageExtensionAction) -> IndexAction {
    if action == ManageExtensionAction::Disable {
        IndexAction::Remove
    } else {
        IndexAction::Add
    }
}

pub open spec fn index_action_text(a: IndexAction) -> Seq<char> {
    match a {
        IndexAction::Add => "add"@,
        IndexAction::Remove => "remove"@,
    }
}

impl IndexAction {
    /// The index change for `action`.
    pub fn for_action(action: ManageExtensionAction) -> (r: IndexAction)
        ensures
            r == index_action_spec(action),
    {
        if action == ManageExtensionAction::Disable {
            IndexAction::Remove
        } else {
            IndexAction::Add
        }
    }

    /// The index service's name for this change.
    pub fn as_str(&self) -> (r: &'static str)
        ensures
            r@ == index_action_text(*self),
    {
        match self {
            IndexAction::Add => "add",
            IndexAction::Remove => "remove",
        }
    }
}

/// The class of a failed run.
#[derive(Debug, Clone, Copy, PartialEq, Eq, Structural)]
pub enum ErrorCode {
    InternalError,
    ResourceNotFound,
}

/// Why a run failed.
#[derive(Debug, Clone, PartialEq, Eq)]
pub struct ManageError {
    pub code: ErrorCode,
    pub message: String,
}

/// Where a run stands.
#[derive(Debug, Clone, Copy, PartialEq, Eq, Structural)]
pub enum Phase {
    ResolvingManagers,
    CheckingRouterBefore,
    UpdatingIndexBefore,
    Removing,
    LookingUpConfig,
    Adding,
    CheckingRouterAfter,
    UpdatingIndexAfter,
    Finished,
}

/// What the caller is to do next.
#[derive(Debug, PartialEq, Eq)]
pub enum Command {
    /// Resolve the references to the extension manager and the tool router.
    ResolveManagers,
    /// Ask the tool router whether it works and has a tool selector.
    CheckRouter,
    /// Update the router's index for the extension.
    UpdateIndex(IndexAction),
    /// Remove the extension from the extension manager.
    RemoveExtension,
    /// Look the extension's configuration up in the catalog.
    LookUpConfig,
    /// Install the configuration found by the lookup.
    AddExtension,
    /// The run is over: the success message, or the error.
    Finish(Result<String, ManageError>),
}

/// What the caller observed when performing a command.
#[derive(Debug, PartialEq, Eq)]
pub enum Event {
    ManagersResolved { extension_manager: bool, tool_route_manager: bool },
    /// `ready`: the router is functional and a tool selector is present.
    RouterChecked { ready: bool },
    IndexUpdated(Result<(), String>),
    Removed(Result<(), String>),
    ConfigLookedUp { found: bool },
    Added(Result<(), String>),
}

/// The model of a run's failure.
pub struct FailureSpec {
    pub code: ErrorCode,
    pub message: Seq<char>,
}

/// The model of a command.
pub enum CommandSpec {
    ResolveManagers,
    CheckRouter,
    UpdateIndex(IndexAction),
    RemoveExtension,
    LookUpConfig,
    AddExtension,
    Finish(Result<Seq<char>, FailureSpec>),
}

/// The model of an event.
pub enum EventSpec {
    ManagersResolved { extension_manager: bool, tool_route_manager: bool },
    RouterChecked { ready: bool },
    IndexUpdated(Result<(), Seq<char>>),
    Removed(Result<(), Seq<char>>),
    ConfigLookedUp { found: bool },
    Added(Result<(), Seq<char>>),
}

/// The model of a run.
pub struct RunSpec {
    pub action: ManageExtensionAction,
    pub extension_name: Seq<char>,
    pub phase: Phase,
    pub route_live: bool,
}

pub open spec fn unit_result_view(r: Result<(), String>) -> Result<(), Seq<char>> {
    match r {
        Ok(()) => Ok(()),
        Err(e) => Err(e@),
    }
}

impl View for ManageError {
    type V = FailureSpec;

    open spec fn view(&self) -> FailureSpec {
        FailureSpec { code: self.code, message: self.message@ }
    }
}

impl View for Command {
    type V = CommandSpec;

    open spec fn view(&self) -> CommandSpec {
        match self {
            Command::ResolveManagers => CommandSpec::ResolveManagers,
            Command::CheckRouter => CommandSpec::CheckRouter,
            Command::UpdateIndex(a) => CommandSpec::UpdateIndex(*a),
            Command::RemoveExtension => CommandSpec::RemoveExtension,
            Command::LookUpConfig => CommandSpec::LookUpConfig,
            Command::AddExtension => CommandSpec::AddExtension,
            Command::Finish(Ok(m)) => CommandSpec::Finish(Ok(m@)),
            Command::Finish(Err(e)) => CommandSpec::Finish(Err(e@)),
        }
    }
}

impl View for Event {
    type V = EventSpec;

    open spec fn view(&self) -> EventSpec {
        match self {
            Event::ManagersResolved { extension_manager, tool_route_manager } =>
                EventSpec::ManagersResolved {
                extension_manager: *extension_manager,
                tool_route_manager: *tool_route_manager,
            },
            Event::RouterChecked { ready } => EventSpec::RouterChecked { ready: *ready },
            Event::IndexUpdated(r) => EventSpec::IndexUpdated(unit_result_view(*r)),
            Event::Removed(r) => EventSpec::Removed(unit_result_view(*r)),
            Event::ConfigLookedUp { found } => EventSpec::ConfigLookedUp { found: *found },
            Event::Added(r) => EventSpec::Added(unit_result_view(*r)),
        }
    }
}

pub open spec fn command_view(c: Option<Command>) -> Option<CommandSpec> {
    match c {
        Some(c) => Some(c@),
        None => None,
    }
}

/// The message of a run whose extension manager is gone.
pub const MANAGER_GONE: &'static str = "Extension manager is no longer available";

pub open spec fn internal(message: Seq<char>) -> FailureSpec {
    FailureSpec { code: ErrorCode::InternalError, message }
}

pub open spec fn index_failure_message(e: Seq<char>) -> Seq<char> {
    "Failed to update LLM index: "@ + e
}

pub open spec fn disabled_message(name: Seq<char>) -> Seq<char> {
    "The extension '"@ + name + "' has been disabled successfully"@
}

pub open spec fn installed_message(name: Seq<char>) -> Seq<char> {
    "The extension '"@ + name + "' has been installed successfully"@
}

pub open spec fn not_found_message(name: Seq<char>) -> Seq<char> {
    "Extension '"@ + name + "' not found. Please check the extension name and try again."@
}

/// A fresh run; its first command is to resolve the managers.
pub open spec fn start_spec(action: ManageExtensionAction, name: Seq<char>) -> RunSpec {
    RunSpec { action, extension_name: name, phase: Phase::ResolvingManagers, route_live: false }
}

pub open spec fn finish(run: RunSpec, outcome: Result<Seq<char>, FailureSpec>) -> (
    RunSpec,
    Option<CommandSpec>,
) {
    (RunSpec { phase: Phase::Finished, ..run }, Some(CommandSpec::Finish(outcome)))
}

/// The registry change itself: removal for a disable, a catalog lookup
/// ahead of the install for an enable.
pub open spec fn apply_change(run: RunSpec) -> (RunSpec, Option<CommandSpec>) {
    match run.action {
        ManageExtensionAction::Disable => (
            RunSpec { phase: Phase::Removing, ..run },
            Some(CommandSpec::RemoveExtension),
        ),
        ManageExtensionAction::Enable => (
            RunSpec { phase: Phase::LookingUpConfig, ..run },
            Some(CommandSpec::LookUpConfig),
        ),
    }
}

/// One step of a run: the state after `ev` and the next command. An event
/// that answers nothing the run waits for leaves it unchanged, with no command.
pub open spec fn next(run: RunSpec, ev: EventSpec) -> (RunSpec, Option<CommandSpec>) {
    let name = run.extension_name;
    match (run.phase, ev) {
        (
            Phase::ResolvingManagers,
            EventSpec::ManagersResolved { extension_manager, tool_route_manager },
        ) => if !extension_manager {
            finish(run, Err(internal(MANAGER_GONE@)))
        } else if tool_route_manager {
            (
                RunSpec { phase: Phase::CheckingRouterBefore, route_live: true, ..run },
                Some(CommandSpec::CheckRouter),
            )
        } else {
            apply_change(RunSpec { route_live: false, ..run })
        },
        (Phase::CheckingRouterBefore, EventSpec::RouterChecked { ready }) => if ready {
            (
                RunSpec { phase: Phase::UpdatingIndexBefore, ..run },
                Some(CommandSpec::UpdateIndex(index_action_spec(run.action))),
            )
        } else {
            apply_change(run)
        },
        (Phase::UpdatingIndexBefore, EventSpec::IndexUpdated(r)) => match r {
            Ok(()) => apply_change(run),
            Err(e) => finish(run, Err(internal(index_failure_message(e)))),
        },
        (Phase::Removing, EventSpec::Removed(r)) => match r {
            Ok(()) => finish(run, Ok(disabled_message(name))),
            Err(e) => finish(run, Err(internal(e))),
        },
        (Phase::LookingUpConfig, EventSpec::ConfigLookedUp { found }) => if found {
            (RunSpec { phase: Phase::Adding, ..run }, Some(CommandSpec::AddExtension))
        } else {
            finish(
                run,
                Err(FailureSpec { code: ErrorCode::ResourceNotFound, message: not_found_message(name) }),
            )
        },
        (Phase::Adding, EventSpec::Added(r)) => match r {
            Ok(()) => if run.route_live {
                (RunSpec { phase: Phase::CheckingRouterAfter, ..run }, Some(CommandSpec::CheckRouter))
            } else {
                finish(run, Ok(installed_message(name)))
            },
            Err(e) => finish(run, Err(internal(e))),
        },
        (Phase::CheckingRouterAfter, EventSpec::RouterChecked { ready }) => if ready {
            (
                RunSpec { phase: Phase::UpdatingIndexAfter, ..run },
                Some(CommandSpec::UpdateIndex(index_action_spec(run.action))),
            )
        } else {
            finish(run, Ok(installed_message(name)))
        },
        (Phase::UpdatingIndexAfter, EventSpec::IndexUpdated(r)) => match r {
            Ok(()) => finish(run, Ok(installed_message(name))),
            Err(e) => finish(run, Err(internal(index_failure_message(e)))),
        },
        _ => (run, None),
    }
}

/// The state after a sequence of events, and the commands handed out on the way.
pub open spec fn drive(run: RunSpec, evs: Seq<EventSpec>) -> (RunSpec, Seq<CommandSpec>)
    decreases evs.len(),
{
    if evs.len() == 0 {
        (run, Seq::empty())
    } else {
        let (r1, c) = next(run, evs[0]);
        let (r2, cs) = drive(r1, evs.drop_first());
        (
            r2,
            match c {
                Some(c) => seq![c] + cs,
                None => cs,
            },
        )
    }
}

/// One run of the enable/disable procedure for one extension.
#[derive(Debug, Clone, PartialEq, Eq)]
pub struct ManageRun {
    pub action: ManageExtensionAction,
    pub extension_name: String,
    pub phase: Phase,
    /// Whether the tool router resolved at the start of the run.
    pub route_live: bool,
}

impl View for ManageRun {
    type V = RunSpec;

    open spec fn view(&self) -> RunSpec {
        RunSpec {
            action: self.action,
            extension_name: self.extension_name@,
            phase: self.phase,
            route_live: self.route_live,
        }
    }
}

/// The text of `"The extension '<name>'" + tail`.
fn extension_sentence(name: &str, tail: &str) -> (r: String)
    ensures
        r@ == "The extension '"@ + name@ + tail@,
{
    let mut s = joined("The extension '", name);
    s.append(tail);
    s
}

fn internal_error(message: String) -> (r: ManageError)
    ensures
        r@ == internal(message@),
{
    ManageError { code: ErrorCode::InternalError, message }
}

fn index_failure(e: String) -> (r: ManageError)
    ensures
        r@ == internal(index_failure_message(e@)),
{
    internal_error(joined("Failed to update LLM index: ", e.as_str()))
}

impl ManageRun {
    /// A new run for `params`, and its first command.
    pub fn start(params: ManageExtensionsParams) -> (r: (ManageRun, Command))
        ensures
            r.0@ == start_spec(params.action, params.extension_name@),
            r.1 == Command::ResolveManagers,
    {
        let run = ManageRun {
            action: params.action,
            extension_name: params.extension_name,
            phase: Phase::ResolvingManagers,
            route_live: false,
        };
        (run, Command::ResolveManagers)
    }

    fn finish_with(&mut self, outcome: Result<String, ManageError>) -> (r: Option<Command>)
        ensures
            final(self)@ == (RunSpec { phase: Phase::Finished, ..old(self)@ }),
            r == Some(Command::Finish(outcome)),
    {
        self.phase = Phase::Finished;
        Some(Command::Finish(outcome))
    }

    fn apply(&mut self) -> (r: Option<Command>)
        ensures
            (final(self)@, command_view(r)) == apply_change(old(self)@),
    {
        match self.action {
            ManageExtensionAction::Disable => {
                self.phase = Phase::Removing;
                Some(Command::RemoveExtension)
            },
            ManageExtensionAction::Enable => {
                self.phase = Phase::LookingUpConfig;
                Some(Command::LookUpConfig)
            },
        }
    }

    /// Feeds back what the last command observed; returns the next command,
    /// or `None` where the event answers nothing that the run waits for.
    pub fn step(&mut self, ev: Event) -> (r: Option<Command>)
        ensures
            (final(self)@, command_view(r)) == next(old(self)@, ev@),
    {
        match (self.phase, ev) {
            (
                Phase::ResolvingManagers,
                Event::ManagersResolved { extension_manager, tool_route_manager },
            ) => {
                if !extension_manager {
                    self.finish_with(Err(internal_error(String::from_str(MANAGER_GONE))))
                } else if tool_route_manager {
                    self.route_live = true;
                    self.phase = Phase::CheckingRouterBefore;
                    Some(Command::CheckRouter)
                } else {
                    self.route_live = false;
                    self.apply()
                }
            },
            (Phase::CheckingRouterBefore, Event::RouterChecked { ready }) => {
                if ready {
                    self.phase = Phase::UpdatingIndexBefore;
                    Some(Command::UpdateIndex(IndexAction::for_action(self.action)))
                } else {
                    self.apply()
                }
            },
            (Phase::UpdatingIndexBefore, Event::IndexUpdated(r)) => match r {
                Ok(()) => self.apply(),
                Err(e) => self.finish_with(Err(index_failure(e))),
            },
            (Phase::Removing, Event::Removed(r)) => match r {
                Ok(()) => {
                    let msg = extension_sentence(
                        self.extension_name.as_str(),
                        "' has been disabled successfully",
                    );
                    self.finish_with(Ok(msg))
                },
                Err(e) => self.finish_with(Err(internal_error(e))),
            },
            (Phase::LookingUpConfig, Event::ConfigLookedUp { found }) => {
                if found {
                    self.phase = Phase::Adding;
                    Some(Command::AddExtension)
                } else {
                    let mut msg = joined("Extension '", self.extension_name.as_str());
                    msg.append("' not found. Please check the extension name and try again.");
                    self.finish_with(
                        Err(ManageError { code: ErrorCode::ResourceNotFound, message: msg }),
                    )
                }
            },
            (Phase::Adding, Event::Added(r)) => match r {
                Ok(()) => {
                    if self.route_live {
                        self.phase = Phase::CheckingRouterAfter;
                        Some(Command::CheckRouter)
                    } else {
                        let msg = extension_sentence(
                            self.extension_name.as_str(),
                            "' has been installed successfully",
                        );
                        self.finish_with(Ok(msg))
                    }
                },
                Err(e) => self.finish_with(Err(internal_error(e))),
            },
            (Phase::CheckingRouterAfter, Event::RouterChecked { ready }) => {
                if ready {
                    self.phase = Phase::UpdatingIndexAfter;
                    Some(Command::UpdateIndex(IndexAction::for_action(self.action)))
                } else {
                    let msg = extension_sentence(
                        self.extension_name.as_str(),
                        "' has been installed successfully",
                    );
                    self.finish_with(Ok(msg))
                }
            },
            (Phase::UpdatingIndexAfter, Event::IndexUpdated(r)) => match r {
                Ok(()) => {
                    let msg = extension_sentence(
                        self.extension_name.as_str(),
                        "' has been installed successfully",
                    );
                    self.finish_with(Ok(msg))
                },
                Err(e) => self.finish_with(Err(index_failure(e))),
            },
            _ => None,
        }
    }
}

/// Disabling an extension while a working router is reachable updates the
/// index with a removal before the registry is asked to remove it, whether or
/// not the extension is enabled; when the registry then refuses, the run ends
/// with the registry's message unchanged, and the index removal stays.
pub proof fn lemma_disable_removes_from_index_first(name: Seq<char>, registry_error: Seq<char>)
    ensures
        drive(
            start_spec(ManageExtensionAction::Disable, name),
            seq![
                EventSpec::ManagersResolved { extension_manager: true, tool_route_manager: true },
                EventSpec::RouterChecked { ready: true },
                EventSpec::IndexUpdated(Ok(())),
                EventSpec::Removed(Err(registry_error)),
            ],
        ).1 == seq![
            CommandSpec::CheckRouter,
            CommandSpec::UpdateIndex(IndexAction::Remove),
            CommandSpec::RemoveExtension,
            CommandSpec::Finish(Err(internal(registry_error))),
        ],
{
    reveal_with_fuel(drive, 5);
    let evs = seq![
        EventSpec::ManagersResolved { extension_manager: true, tool_route_manager: true },
        EventSpec::RouterChecked { ready: true },
        EventSpec::IndexUpdated(Ok(())),
        EventSpec::Removed(Err(registry_error)),
    ];
    assert(evs.drop_first() =~= evs.subrange(1, 4));
    assert(evs.drop_first().drop_first() =~= evs.subrange(2, 4));
    assert(evs.drop_first().drop_first().drop_first() =~= evs.subrange(3, 4));
    assert(evs.drop_first().drop_first().drop_first().drop_first() =~= Seq::<EventSpec>::empty());
    let r = drive(start_spec(ManageExtensionAction::Disable, name), evs).1;
    assert(r =~= seq![
        CommandSpec::CheckRouter,
        CommandSpec::UpdateIndex(IndexAction::Remove),
        CommandSpec::RemoveExtension,
        CommandSpec::Finish(Err(internal(registry_error))),
    ]);
}

/// Enabling a name the catalog does not hold ends in a not-found error, and a
/// working router has by then already been told to add the extension to its
/// index: the speculative addition is not taken back.
pub proof fn lemma_enable_unknown_keeps_index_addition(name: Seq<char>)
    ensures
        drive(
            start_spec(ManageExtensionAction::Enable, name),
            seq![
                EventSpec::ManagersResolved { extension_manager: true, tool_route_manager: true },
                EventSpec::RouterChecked { ready: true },
                EventSpec::IndexUpdated(Ok(())),
                EventSpec::ConfigLookedUp { found: false },
            ],
        ).1 == seq![
            CommandSpec::CheckRouter,
            CommandSpec::UpdateIndex(IndexAction::Add),
            CommandSpec::LookUpConfig,
            CommandSpec::Finish(
                Err(FailureSpec { code: ErrorCode::ResourceNotFound, message: not_found_message(name) }),
            ),
        ],
{
    reveal_with_fuel(drive, 5);
    let evs = seq![
        EventSpec::ManagersResolved { extension_manager: true, tool_route_manager: true },
        EventSpec::RouterChecked { ready: true },
        EventSpec::IndexUpdated(Ok(())),
        EventSpec::ConfigLookedUp { found: false },
    ];
    assert(evs.drop_first() =~= evs.subrange(1, 4));
    assert(evs.drop_first().drop_first() =~= evs.subrange(2, 4));
    assert(evs.drop_first().drop_first().drop_first() =~= evs.subrange(3, 4));
    assert(evs.drop_first().drop_first().drop_first().drop_first() =~= Seq::<EventSpec>::empty());
    let r = drive(start_spec(ManageExtensionAction::Enable, name), evs).1;
    assert(r =~= seq![
        CommandSpec::CheckRouter,
        CommandSpec::UpdateIndex(IndexAction::Add),
        CommandSpec::LookUpConfig,
        CommandSpec::Finish(
            Err(FailureSpec { code: ErrorCode::ResourceNotFound, message: not_found_message(name) }),
        ),
    ]);
}

/// Enabling an extension that the catalog holds, with a working router and
/// every step succeeding, updates the index with an addition before and after
/// the install and ends with the install message.
pub proof fn lemma_enable_adds_to_index_twice(name: Seq<char>)
    ensures
        drive(
            start_spec(ManageExtensionAction::Enable, name),
            seq![
                EventSpec::ManagersResolved { extension_manager: true, tool_route_manager: true },
                EventSpec::RouterChecked { ready: true },
                EventSpec::IndexUpdated(Ok(())),
                EventSpec::ConfigLookedUp { found: true },
                EventSpec::Added(Ok(())),
                EventSpec::RouterChecked { ready: true },
                EventSpec::IndexUpdated(Ok(())),
            ],
        ).1 == seq![
            CommandSpec::CheckRouter,
            CommandSpec::UpdateIndex(IndexAction::Add),
            CommandSpec::LookUpConfig,
            CommandSpec::AddExtension,
            CommandSpec::CheckRouter,
            CommandSpec::UpdateIndex(IndexAction::Add),
            CommandSpec::Finish(Ok(installed_message(name))),
        ],
{
    reveal_with_fuel(drive, 8);
    let evs = seq![
        EventSpec::ManagersResolved { extension_manager: true, tool_route_manager: true },
        EventSpec::RouterChecked { ready: true },
        EventSpec::IndexUpdated(Ok(())),
        EventSpec::ConfigLookedUp { found: true },
        EventSpec::Added(Ok(())),
        EventSpec::RouterChecked { ready: true },
        EventSpec::IndexUpdated(Ok(())),
    ];
    assert(evs.drop_first() =~= evs.subrange(1, 7));
    assert(evs.subrange(1, 7).drop_first() =~= evs.subrange(2, 7));
    assert(evs.subrange(2, 7).drop_first() =~= evs.subrange(3, 7));
    assert(evs.subrange(3, 7).drop_first() =~= evs.subrange(4, 7));
    assert(evs.subrange(4, 7).drop_first() =~= evs.subrange(5, 7));
    assert(evs.subrange(5, 7).drop_first() =~= evs.subrange(6, 7));
    assert(evs.subrange(6, 7).drop_first() =~= Seq::<EventSpec>::empty());
    let r = drive(start_spec(ManageExtensionAction::Enable, name), evs).1;
    assert(r =~= seq![
        CommandSpec::CheckRouter,
        CommandSpec::UpdateIndex(IndexAction::Add),
        CommandSpec::LookUpConfig,
        CommandSpec::AddExtension,
        CommandSpec::CheckRouter,
        CommandSpec::UpdateIndex(IndexAction::Add),
        CommandSpec::Finish(Ok(installed_message(name))),
    ]);
}

/// The events of a disable run whose extension manager is reachable: the
/// router check and index update where they apply, then the registry's answer.
pub open spec fn disable_events(route_live: bool, ready: bool, removed: Result<(), Seq<char>>) -> Seq<
    EventSpec,
> {
    seq![EventSpec::ManagersResolved { extension_manager: true, tool_route_manager: route_live }]
        + (if route_live {
        seq![EventSpec::RouterChecked { ready }] + (if ready {
            seq![EventSpec::IndexUpdated(Ok(()))]
        } else {
            Seq::empty()
        })
    } else {
        Seq::empty()
    }) + seq![EventSpec::Removed(removed)]
}

/// What a disable run returns once the registry has answered `removed`.
pub open spec fn disable_outcome(name: Seq<char>, removed: Result<(), Seq<char>>) -> Result<
    Seq<char>,
    FailureSpec,
> {
    match removed {
        Ok(()) => Ok(disabled_message(name)),
        Err(e) => Err(internal(e)),
    }
}

/// A disable run ends on the registry's answer alone: the success message when
/// the removal succeeds, the registry's own message when it fails.
pub proof fn lemma_disable_outcome(
    name: Seq<char>,
    route_live: bool,
    ready: bool,
    removed: Result<(), Seq<char>>,
)
    ensures
        ({
            let (run, cmds) = drive(
                start_spec(ManageExtensionAction::Disable, name),
                disable_events(route_live, ready, removed),
            );
            &&& run.phase == Phase::Finished
            &&& cmds.len() > 0
            &&& cmds.last() == CommandSpec::Finish(disable_outcome(name, removed))
        }),
{
    reveal_with_fuel(drive, 5);
    let evs = disable_events(route_live, ready, removed);
    let resolved = EventSpec::ManagersResolved {
        extension_manager: true,
        tool_route_manager: route_live,
    };
    let last = CommandSpec::Finish(disable_outcome(name, removed));
    if route_live && ready {
        assert(evs =~= seq![
            resolved,
            EventSpec::RouterChecked { ready },
            EventSpec::IndexUpdated(Ok(())),
            EventSpec::Removed(removed),
        ]);
        assert(evs.drop_first() =~= evs.subrange(1, 4));
        assert(evs.subrange(1, 4).drop_first() =~= evs.subrange(2, 4));
        assert(evs.subrange(2, 4).drop_first() =~= evs.subrange(3, 4));
        assert(evs.subrange(3, 4).drop_first() =~= Seq::<EventSpec>::empty());
        assert(drive(start_spec(ManageExtensionAction::Disable, name), evs).1 =~= seq![
            CommandSpec::CheckRouter,
            CommandSpec::UpdateIndex(IndexAction::Remove),
            CommandSpec::RemoveExtension,
            last,
        ]);
    } else if route_live {
        assert(evs =~= seq![resolved, EventSpec::RouterChecked { ready }, EventSpec::Removed(removed)]);
        assert(evs.drop_first() =~= evs.subrange(1, 3));
        assert(evs.subrange(1, 3).drop_first() =~= evs.subrange(2, 3));
        assert(evs.subrange(2, 3).drop_first() =~= Seq::<EventSpec>::empty());
        assert(drive(start_spec(ManageExtensionAction::Disable, name), evs).1 =~= seq![
            CommandSpec::CheckRouter,
            CommandSpec::RemoveExtension,
            last,
        ]);
    } else {
        assert(evs =~= seq![resolved, EventSpec::Removed(removed)]);
        assert(evs.drop_first() =~= evs.subrange(1, 2));
        assert(evs.subrange(1, 2).drop_first() =~= Seq::<EventSpec>::empty());
        assert(drive(start_spec(ManageExtensionAction::Disable, name), evs).1 =~= seq![
            CommandSpec::RemoveExtension,
            last,
        ]);
    }
}

/// Disabling the same extension twice, with the registry answering alike both
/// times, ends both runs alike, whatever state the router is in each time.
pub proof fn lemma_disable_twice_alike(
    name: Seq<char>,
    route_live_first: bool,
    ready_first: bool,
    route_live_second: bool,
    ready_second: bool,
    removed: Result<(), Seq<char>>,
)
    ensures
        drive(
            start_spec(ManageExtensionAction::Disable, name),
            disable_events(route_live_first, ready_first, removed),
        ).1.last() == drive(
            start_spec(ManageExtensionAction::Disable, name),
            disable_events(route_live_second, ready_second, removed),
        ).1.last(),
{
    lemma_disable_outcome(name, route_live_first, ready_first, removed);
    lemma_disable_outcome(name, route_live_second, ready_second, removed);
}

} // verus!
