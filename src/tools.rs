//! What both adapters hand to their callers: tool descriptors, call results
//! and the static server description, and the reply a backing component gives.

use vstd::prelude::*;

verus! {

/// Which parameter record describes a tool's input; the schema itself is
/// generated from that record outside the library.
#[derive(Debug, Clone, Copy, PartialEq, Eq, Structural)]
pub enum ParamSchema {
    /// An object with no properties.
    Empty,
    ListResources,
    ReadResource,
    LlmSearch,
    ManageExtensions,
}

/// Usage hints advertised with a tool.
#[derive(Debug, Clone, PartialEq, Eq)]
pub struct ToolAnnotations {
    pub title: String,
    pub read_only: bool,
    pub destructive: bool,
    pub idempotent: bool,
    pub open_world: bool,
}

/// A tool as an adapter advertises it.
#[derive(Debug, Clone, PartialEq, Eq)]
pub struct ToolDescriptor {
    pub name: String,
    pub description: String,
    pub input_schema: ParamSchema,
    pub annotations: ToolAnnotations,
}

/// The model of a tool descriptor.
pub struct ToolSpec {
    pub name: Seq<char>,
    pub description: Seq<char>,
    pub input_schema: ParamSchema,
    pub title: Seq<char>,
    pub read_only: bool,
    pub destructive: bool,
    pub idempotent: bool,
    pub open_world: bool,
}

impl View for ToolDescriptor {
    type V = ToolSpec;

    open spec fn view(&self) -> ToolSpec {
        ToolSpec {
            name: self.name@,
            description: self.description@,
            input_schema: self.input_schema,
            title: self.annotations.title@,
            read_only: self.annotations.read_only,
            destructive: self.annotations.destructive,
            idempotent: self.annotations.idempotent,
            open_world: self.annotations.open_world,
        }
    }
}

/// The models of a sequence of descriptors.
pub open spec fn tool_specs(tools: Seq<ToolDescriptor>) -> Seq<ToolSpec> {
    tools.map_values(|t: ToolDescriptor| t@)
}

/// The names in a sequence of descriptor models.
pub open spec fn tool_names(tools: Seq<ToolSpec>) -> Seq<Seq<char>> {
    tools.map_values(|t: ToolSpec| t.name)
}

/// The model of a read-only tool that destroys nothing and touches no outside world.
pub open spec fn read_only_tool(
    name: Seq<char>,
    description: Seq<char>,
    input_schema: ParamSchema,
    title: Seq<char>,
) -> ToolSpec {
    ToolSpec {
        name,
        description,
        input_schema,
        title,
        read_only: true,
        destructive: false,
        idempotent: false,
        open_world: false,
    }
}

impl ToolDescriptor {
    /// A descriptor with the given text and hints.
    pub fn new(
        name: &str,
        description: &str,
        input_schema: ParamSchema,
        title: &str,
        read_only: bool,
    ) -> (r: ToolDescriptor)
        ensures
            r@ == (ToolSpec {
                name: name@,
                description: description@,
                input_schema,
                title: title@,
                read_only,
                destructive: false,
                idempotent: false,
                open_world: false,
            }),
    {
        ToolDescriptor {
            name: String::from_str(name),
            description: String::from_str(description),
            input_schema,
            annotations: ToolAnnotations {
                title: String::from_str(title),
                read_only,
                destructive: false,
                idempotent: false,
                open_world: false,
            },
        }
    }
}

/// One item of a call result: a text written by the adapter, or an item
/// that a backing component produced and the adapter passes on unchanged.
#[derive(Debug, Clone, PartialEq, Eq)]
pub enum Content<C> {
    Text(String),
    Forwarded(C),
}

/// The outcome of a tool call. An error result carries one text item with
/// the error's message.
#[derive(Debug, Clone, PartialEq, Eq)]
pub struct CallResult<C> {
    pub content: Vec<Content<C>>,
    pub is_error: bool,
}

/// Whether `r` is an error result whose only item is the text `msg`.
pub open spec fn is_error_text<C>(r: CallResult<C>, msg: Seq<char>) -> bool {
    &&& r.is_error
    &&& r.content@.len() == 1
    &&& r.content@[0] is Text
    &&& r.content@[0]->Text_0@ == msg
}

impl<C> CallResult<C> {
    /// A successful result with the given items.
    pub fn success(content: Vec<Content<C>>) -> (r: CallResult<C>)
        ensures
            r.content == content,
            !r.is_error,
    {
        CallResult { content, is_error: false }
    }

    /// An error result carrying `message` as its one text item.
    pub fn error(message: String) -> (r: CallResult<C>)
        ensures
            is_error_text(r, message@),
    {
        let mut content: Vec<Content<C>> = Vec::new();
        content.push(Content::Text(message));
        CallResult { content, is_error: true }
    }
}

/// The items passed on unchanged, in order.
pub open spec fn forwarded_all<C>(items: Seq<C>, r: Seq<Content<C>>) -> bool {
    &&& r.len() == items.len()
    &&& forall|i: int| 0 <= i < items.len() ==> r[i] == Content::<C>::Forwarded(items[i])
}

/// Wraps each item of a backing component as forwarded content, keeping the order.
pub fn forward<C>(items: Vec<C>) -> (r: Vec<Content<C>>)
    ensures
        forwarded_all(items@, r@),
{
    let mut rest = items;
    let mut out: Vec<Content<C>> = Vec::new();
    let ghost all = items@;
    while rest.len() > 0
        invariant
            out@.len() + rest@.len() == all.len(),
            rest@ == all.subrange(out@.len() as int, all.len() as int),
            forall|i: int| 0 <= i < out@.len() ==> out@[i] == Content::<C>::Forwarded(all[i]),
        decreases rest@.len(),
    {
        let item = rest.remove(0);
        out.push(Content::Forwarded(item));
    }
    out
}

/// What a backing component answered to a forwarded operation.
#[derive(Debug, Clone, PartialEq, Eq)]
pub enum Reply<C> {
    /// The component could not be reached: it is gone.
    Unavailable,
    /// The call failed with this message.
    Failed(String),
    /// The call produced these items.
    Content(Vec<C>),
}

/// The version of the tool-call protocol that both adapters speak.
pub const PROTOCOL_VERSION: &'static str = "2025-03-26";

/// The version that both adapters report for themselves.
pub const IMPLEMENTATION_VERSION: &'static str = "1.0.0";

/// The static description of an adapter, given at initialisation.
#[derive(Debug, Clone, PartialEq, Eq)]
pub struct ServerInfo {
    pub protocol_version: String,
    /// Tools are offered; the list of tools does not announce changes.
    pub tools: bool,
    pub tools_list_changed: bool,
    pub resources: bool,
    pub prompts: bool,
    pub logging: bool,
    pub name: String,
    pub title: String,
    pub version: String,
    pub instructions: String,
}

impl ServerInfo {
    /// The description shared by both adapters: tools only, under `name`.
    pub open spec fn describes(&self, name: Seq<char>, instructions: Seq<char>) -> bool {
        &&& self.protocol_version@ == PROTOCOL_VERSION@
        &&& self.tools
        &&& !self.tools_list_changed
        &&& !self.resources
        &&& !self.prompts
        &&& !self.logging
        &&& self.name@ == name
        &&& self.title@ == name
        &&& self.version@ == IMPLEMENTATION_VERSION@
        &&& self.instructions@ == instructions
    }

    /// An adapter's description offering tools only.
    pub fn tools_only(name: &str, instructions: &str) -> (r: ServerInfo)
        ensures
            r.describes(name@, instructions@),
    {
        ServerInfo {
            protocol_version: String::from_str(PROTOCOL_VERSION),
            tools: true,
            tools_list_changed: false,
            resources: false,
            prompts: false,
            logging: false,
            name: String::from_str(name),
            title: String::from_str(name),
            version: String::from_str(IMPLEMENTATION_VERSION),
            instructions: String::from_str(instructions),
        }
    }
}

} // verus!
