//! Capabilities from declarations.
//!
//! A capability is declared by its name and the tools it offers. From the
//! declaration follow the qualified names that it claims, the definitions
//! that it publishes and the function that a call is routed to; what a tool
//! does is the business of the handler that comes with the declaration.

use crate::chat_completion::clone_definitions;
use crate::json_schema::{
    clone_value, create_object_schema, empty_entries, insert_entry, json_entries, json_view,
    no_entries, null_value, object_schema, object_value, parse_json, parsed_json, text_value,
    JsonView,
};
use crate::text::join3;
use crate::tools::{
    definitions_view, ToolDefinition, ToolDefinitionView, ToolError, ToolOutput, Toolset,
};
use convert_case::{Case, Casing};
use vstd::prelude::*;

verus! {

/// A name in snake case, as `convert_case` writes it: the words of the name
/// in lower case, joined by underscores.
pub uninterp spec fn snake_case(text: Seq<char>) -> Seq<char>;

/// A name in title case, as `convert_case` writes it: the words of the name
/// with a capital first letter, joined by spaces.
pub uninterp spec fn title_case(text: Seq<char>) -> Seq<char>;

/// `convert_case::Casing::to_case` with `Case::Snake`.
#[verifier::external_body]
pub(crate) fn to_snake_case(text: &str) -> (converted: String)
    ensures
        converted@ == snake_case(text@),
{
    text.to_case(Case::Snake)
}

/// `convert_case::Casing::to_case` with `Case::Title`.
#[verifier::external_body]
pub(crate) fn to_title_case(text: &str) -> (converted: String)
    ensures
        converted@ == title_case(text@),
{
    text.to_case(Case::Title)
}

/// One parameter of a tool.
#[derive(Debug)]
pub struct Param {
    pub name: String,
    pub description: String,
    /// The JSON type of the parameter, by its name in a schema.
    pub kind: String,
    pub required: bool,
}

impl Default for Param {
    fn default() -> (param: Self)
        ensures
            param.name@ == Seq::<char>::empty(),
            param.description@ == Seq::<char>::empty(),
            param.kind@ == Seq::<char>::empty(),
            param.required,
    {
        Param { name: String::new(), description: String::new(), kind: String::new(), required: true }
    }
}

/// The declaration of one tool.
#[derive(Debug)]
pub struct ToolArgs {
    /// The name of the tool, as a reader would write it.
    pub name: String,
    /// The name of the function; where empty, it follows from `name`.
    pub fn_name: String,
    pub description: String,
    /// The parameters, one by one.
    pub params: Vec<Param>,
    /// The schema of the argument object, where it is given as a whole; it
    /// then stands in place of what `params` declares.
    pub schema: Option<serde_json::Value>,
}

/// The declaration of a capability.
#[derive(Debug)]
pub struct ToolsetArgs {
    pub name: String,
    pub description: String,
    pub tools: Vec<ToolArgs>,
}

/// The qualified name of a function: the name of its capability in snake
/// case, a hyphen, and the name of the function.
pub open spec fn qualified_name(toolset_name: Seq<char>, fn_name: Seq<char>) -> Seq<char> {
    snake_case(toolset_name) + "-"@ + fn_name
}

/// Writes the qualified name of a function.
pub fn build_fn_name(tool_name: &str, fn_name: &str) -> (qualified: String)
    ensures
        qualified@ == qualified_name(tool_name@, fn_name@),
{
    let prefix = to_snake_case(tool_name);
    join3(prefix.as_str(), "-", fn_name)
}

/// The schema of one parameter: its type and its description.
pub open spec fn param_schema(param: Param) -> JsonView {
    JsonView::Object(
        no_entries().insert("type"@, JsonView::Text(param.kind@)).insert(
            "description"@,
            JsonView::Text(param.description@),
        ),
    )
}

/// The properties that a list of parameters declares: each parameter's schema
/// under its name, a later parameter replacing an earlier one of its name.
pub open spec fn param_properties(params: Seq<Param>) -> Map<Seq<char>, JsonView>
    decreases params.len(),
{
    if params.len() == 0 {
        no_entries()
    } else {
        param_properties(params.drop_last()).insert(
            params.last().name@,
            param_schema(params.last()),
        )
    }
}

impl ToolArgs {
    /// The name of the function: `fn_name`, or `name` in snake case where
    /// `fn_name` is empty.
    pub open spec fn function_name(self) -> Seq<char> {
        if self.fn_name@.len() == 0 {
            snake_case(self.name@)
        } else {
            self.fn_name@
        }
    }

    /// The schema of the argument object.
    pub open spec fn parameters(self) -> JsonView {
        match self.schema {
            Some(schema) => json_view(schema),
            None => object_schema(param_properties(self.params@)),
        }
    }

    /// Whether the tool takes arguments.
    pub open spec fn takes_arguments(self) -> bool {
        self.schema is Some || self.params@.len() > 0
    }

    /// The definition that the tool is published with by a capability of the
    /// given name.
    pub open spec fn definition_in(self, toolset_name: Seq<char>) -> ToolDefinitionView {
        ToolDefinitionView {
            kind: "function"@,
            name: qualified_name(toolset_name, self.function_name()),
            description: self.description@,
            parameters: self.parameters(),
        }
    }

    /// Fills in the name of the function where none was given.
    pub fn infer_fn_name(&mut self)
        ensures
            final(self).fn_name@ == old(self).function_name(),
            final(self).name == old(self).name,
            final(self).description == old(self).description,
            final(self).params == old(self).params,
            final(self).schema == old(self).schema,
    {
        if self.fn_name.as_str().is_empty() {
            self.fn_name = to_snake_case(self.name.as_str());
        }
    }

    /// Writes the schema of the argument object.
    pub fn parameters_schema(&self) -> (schema: serde_json::Value)
        ensures
            json_view(schema) == self.parameters(),
    {
        if let Some(schema) = &self.schema {
            return clone_value(schema);
        }
        let mut properties = empty_entries();
        let mut i: usize = 0;
        assert(self.params@.take(0) =~= Seq::<Param>::empty());
        while i < self.params.len()
            invariant
                i <= self.params.len(),
                json_entries(properties) == param_properties(self.params@.take(i as int)),
            decreases self.params.len() - i,
        {
            let param = &self.params[i];
            let mut entries = empty_entries();
            insert_entry(&mut entries, "type", text_value(param.kind.as_str()));
            insert_entry(&mut entries, "description", text_value(param.description.as_str()));
            insert_entry(&mut properties, param.name.as_str(), object_value(entries));
            proof {
                let next = self.params@.take(i + 1);
                assert(next.drop_last() =~= self.params@.take(i as int));
                assert(next.last() == self.params@[i as int]);
            }
            i += 1;
        }
        assert(self.params@.take(i as int) =~= self.params@);
        create_object_schema(properties)
    }

    /// Writes the definition that the tool is published with.
    pub fn definition(&self, toolset_name: &str) -> (definition: ToolDefinition)
        ensures
            definition@ == self.definition_in(toolset_name@),
    {
        let fn_name = if self.fn_name.as_str().is_empty() {
            to_snake_case(self.name.as_str())
        } else {
            self.fn_name.clone()
        };
        ToolDefinition {
            kind: String::from_str("function"),
            name: build_fn_name(toolset_name, fn_name.as_str()),
            description: self.description.clone(),
            parameters: self.parameters_schema(),
        }
    }
}

impl ToolsetArgs {
    /// The definitions that the capability publishes: one for each tool, in
    /// the order of the declaration.
    pub open spec fn definitions(self) -> Seq<ToolDefinitionView> {
        Seq::new(self.tools@.len(), |i: int| self.tools@[i].definition_in(self.name@))
    }

    /// The declaration of a capability with one tool, named after the tool:
    /// the tool's name is written in title case. `schema` is the schema of
    /// the tool's argument object, where the tool takes arguments.
    pub fn single(name: &str, description: &str, schema: Option<serde_json::Value>) -> (declared:
        ToolsetArgs)
        ensures
            declared.name@ == name@,
            declared.description@ == Seq::<char>::empty(),
            declared.tools@.len() == 1,
            declared.tools@[0].name@ == title_case(name@),
            declared.tools@[0].fn_name@ == Seq::<char>::empty(),
            declared.tools@[0].description@ == description@,
            declared.tools@[0].params@ == Seq::<Param>::empty(),
            declared.tools@[0].schema == schema,
    {
        let tool = ToolArgs {
            name: to_title_case(name),
            fn_name: String::new(),
            description: String::from_str(description),
            params: Vec::new(),
            schema,
        };
        let mut tools: Vec<ToolArgs> = Vec::new();
        tools.push(tool);
        ToolsetArgs { name: String::from_str(name), description: String::new(), tools }
    }

    /// Fills in the function name of every tool that has none.
    pub fn update_defaults(&mut self)
        ensures
            final(self).name == old(self).name,
            final(self).description == old(self).description,
            final(self).tools@.len() == old(self).tools@.len(),
            forall|i: int|
                0 <= i < old(self).tools@.len() ==> {
                    &&& (#[trigger] final(self).tools@[i]).fn_name@
                        == old(self).tools@[i].function_name()
                    &&& final(self).tools@[i].name == old(self).tools@[i].name
                    &&& final(self).tools@[i].description == old(self).tools@[i].description
                    &&& final(self).tools@[i].params == old(self).tools@[i].params
                    &&& final(self).tools@[i].schema == old(self).tools@[i].schema
                },
    {
        let mut i: usize = 0;
        while i < self.tools.len()
            invariant
                i <= self.tools.len(),
                self.name == old(self).name,
                self.description == old(self).description,
                self.tools@.len() == old(self).tools@.len(),
                forall|j: int|
                    0 <= j < i ==> {
                        &&& (#[trigger] self.tools@[j]).fn_name@
                            == old(self).tools@[j].function_name()
                        &&& self.tools@[j].name == old(self).tools@[j].name
                        &&& self.tools@[j].description == old(self).tools@[j].description
                        &&& self.tools@[j].params == old(self).tools@[j].params
                        &&& self.tools@[j].schema == old(self).tools@[j].schema
                    },
                forall|j: int| i <= j < self.tools@.len() ==> self.tools@[j] == old(self).tools@[j],
            decreases self.tools.len() - i,
        {
            if self.tools[i].fn_name.as_str().is_empty() {
                let inferred = to_snake_case(self.tools[i].name.as_str());
                self.tools[i].fn_name = inferred;
            }
            i += 1;
        }
    }
}

/// What a declared capability calls to do the work of its tools.
pub trait Invoke: Send + Sync {
    /// Does the work of the function `fn_name` on the arguments; `args` is
    /// null for a tool that declares no parameters.
    fn call(&self, fn_name: &str, args: &serde_json::Value) -> Result<ToolOutput, ToolError>;
}

/// What a declared capability makes of a call before any tool has run.
pub enum Routing {
    /// The capability has no function of that name.
    Unknown,
    /// The arguments are no JSON text; the payload is the parser's report.
    Unreadable(Seq<char>),
    /// The function `name` is to be called with the arguments.
    Call { name: Seq<char>, args: JsonView },
}

/// A capability built from a declaration.
pub struct DeclaredToolset {
    name: String,
    definitions: Vec<ToolDefinition>,
    takes_args: Vec<bool>,
    handler: Box<dyn Invoke>,
}

impl DeclaredToolset {
    #[verifier::type_invariant]
    spec fn well_formed(self) -> bool {
        self.definitions@.len() == self.takes_args@.len()
    }

    /// The name of the capability.
    pub closed spec fn toolset_name(self) -> Seq<char> {
        self.name@
    }

    /// The definitions that the capability publishes.
    pub closed spec fn published(self) -> Seq<ToolDefinitionView> {
        definitions_view(self.definitions@)
    }

    /// For each definition, whether its tool declares parameters.
    pub closed spec fn declares_params(self) -> Seq<bool> {
        self.takes_args@
    }

    /// Whether one of the published definitions has the name.
    pub open spec fn publishes(self, fn_name: Seq<char>) -> bool {
        exists|i: int| 0 <= i < self.published().len() && self.published()[i].name == fn_name
    }

    /// The index of the first published definition of that name.
    pub open spec fn first_published(self, fn_name: Seq<char>, i: int) -> bool {
        &&& 0 <= i < self.published().len()
        &&& self.published()[i].name == fn_name
        &&& forall|j: int| 0 <= j < i ==> (#[trigger] self.published()[j]).name != fn_name
    }

    /// What the capability makes of a call: a name that it does not publish
    /// is unknown; the arguments of a tool with parameters are read as JSON,
    /// and a tool without parameters gets null.
    pub open spec fn routing(self, fn_name: Seq<char>, args: Seq<char>) -> Routing {
        if !self.publishes(fn_name) {
            Routing::Unknown
        } else {
            let i = choose|i: int| self.first_published(fn_name, i);
            if self.declares_params()[i] {
                match parsed_json(args) {
                    Ok(value) => Routing::Call { name: fn_name, args: value },
                    Err(report) => Routing::Unreadable(report),
                }
            } else {
                Routing::Call { name: fn_name, args: JsonView::Null }
            }
        }
    }

    /// Builds the capability that `declared` declares, with `handler` to do
    /// the work of its tools.
    pub fn new(declared: &ToolsetArgs, handler: Box<dyn Invoke>) -> (toolset: DeclaredToolset)
        ensures
            toolset.toolset_name() == snake_case(declared.name@),
            toolset.published() == declared.definitions(),
            toolset.declares_params() == Seq::new(
                declared.tools@.len(),
                |i: int| declared.tools@[i].takes_arguments(),
            ),
    {
        let mut definitions: Vec<ToolDefinition> = Vec::new();
        let mut takes_args: Vec<bool> = Vec::new();
        let mut i: usize = 0;
        while i < declared.tools.len()
            invariant
                i <= declared.tools.len(),
                definitions@.len() == i,
                takes_args@.len() == i,
                forall|j: int|
                    0 <= j < i ==> (#[trigger] definitions@[j])@
                        == declared.tools@[j].definition_in(declared.name@),
                forall|j: int|
                    0 <= j < i ==> #[trigger] takes_args@[j] == declared.tools@[j].takes_arguments(),
            decreases declared.tools.len() - i,
        {
            definitions.push(declared.tools[i].definition(declared.name.as_str()));
            takes_args.push(declared.tools[i].schema.is_some() || declared.tools[i].params.len() > 0);
            i += 1;
        }
        assert(definitions_view(definitions@) =~= declared.definitions());
        assert(takes_args@ =~= Seq::new(
            declared.tools@.len(),
            |i: int| declared.tools@[i].takes_arguments(),
        ));
        DeclaredToolset {
            name: to_snake_case(declared.name.as_str()),
            definitions,
            takes_args,
            handler,
        }
    }

    /// Finds the first published definition of the name.
    pub fn resolve(&self, fn_name: &str) -> (found: Option<usize>)
        ensures
            found is Some <==> self.publishes(fn_name@),
            found is Some ==> self.first_published(fn_name@, found->0 as int),
    {
        let wanted = String::from_str(fn_name);
        let mut i: usize = 0;
        while i < self.definitions.len()
            invariant
                i <= self.definitions.len(),
                wanted@ == fn_name@,
                forall|j: int| 0 <= j < i ==> (#[trigger] self.published()[j]).name != fn_name@,
            decreases self.definitions.len() - i,
        {
            assert(self.published()[i as int] == self.definitions@[i as int]@);
            if self.definitions[i].name == wanted {
                return Some(i);
            }
            i += 1;
        }
        None
    }

    /// Prepares a call: names the failure, or reads the arguments that the
    /// handler is to be called with.
    pub fn prepare(&self, fn_name: &str, args: &str) -> (prepared: Result<
        serde_json::Value,
        ToolError,
    >)
        ensures
            match self.routing(fn_name@, args@) {
                Routing::Unknown => prepared matches Err(ToolError::InvalidFunctionName(name))
                    && name@ == fn_name@,
                Routing::Unreadable(report) => prepared matches Err(
                    ToolError::WrongArguments(text),
                ) && text@ == report,
                Routing::Call { name, args } => prepared matches Ok(value) && json_view(value)
                    == args,
            },
    {
        proof {
            use_type_invariant(self);
        }
        match self.resolve(fn_name) {
            None => Err(ToolError::InvalidFunctionName(String::from_str(fn_name))),
            Some(i) => {
                proof {
                    let k = choose|k: int| self.first_published(fn_name@, k);
                    assert(self.first_published(fn_name@, k));
                    if k < i {
                        assert(self.published()[k].name != fn_name@);
                    } else if i < k {
                        assert(self.published()[i as int].name != fn_name@);
                    }
                }
                if self.takes_args[i] {
                    match parse_json(args) {
                        Ok(value) => Ok(value),
                        Err(report) => Err(ToolError::WrongArguments(report)),
                    }
                } else {
                    Ok(null_value())
                }
            },
        }
    }
}

impl Toolset for DeclaredToolset {
    open spec fn owns(&self, fn_name: Seq<char>) -> bool {
        self.publishes(fn_name)
    }

    open spec fn definitions(&self) -> Seq<ToolDefinitionView> {
        self.published()
    }

    open spec fn label(&self) -> Seq<char> {
        self.toolset_name()
    }

    fn name(&self) -> (name: String) {
        self.name.clone()
    }

    fn definition(&self) -> (definitions: Vec<ToolDefinition>) {
        clone_definitions(&self.definitions)
    }

    fn contain(&self, fn_name: &str) -> (claimed: bool) {
        self.resolve(fn_name).is_some()
    }

    fn invoke(&self, fn_name: &str, args: &str) -> (result: Result<ToolOutput, ToolError>)
        ensures
            match self.routing(fn_name@, args@) {
                Routing::Unknown => result matches Err(ToolError::InvalidFunctionName(name))
                    && name@ == fn_name@,
                Routing::Unreadable(report) => result matches Err(ToolError::WrongArguments(text))
                    && text@ == report,
                Routing::Call { .. } => true,
            },
    {
        match self.prepare(fn_name, args) {
            Ok(value) => self.handler.call(fn_name, &value),
            Err(error) => Err(error),
        }
    }
}

} // verus!
