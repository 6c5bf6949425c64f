//! The tools that end a turn.

use crate::json_schema::{
    create_object_schema, empty_entries, insert_entry, json_view, no_entries, object_schema,
    text_member, text_of_member, typed_schema, JsonSchema, JsonView,
};
use crate::tools::{ToolError, ToolOutput, ToolOutputView};
use crate::toolset::{DeclaredToolset, Invoke, Param, ToolArgs, ToolsetArgs};
use vstd::prelude::*;

verus! {

/// The handler of the capability `stop`: its one tool stops the turn and
/// gives no reason.
pub struct Stop;

impl Stop {
    /// The answer of the tool.
    pub fn stop(&self) -> (result: Result<ToolOutput, ToolError>)
        ensures
            result matches Ok(output) && output@ == ToolOutputView::Stop(Seq::<char>::empty()),
    {
        Ok(ToolOutput::Stop(String::new()))
    }

    /// The capability `stop` with its one tool `stop`.
    pub fn toolset() -> (toolset: DeclaredToolset)
        ensures
            toolset.published().len() == 1,
            toolset.published()[0].description == "Stop the meerai agent."@,
            !toolset.declares_params()[0],
    {
        let tool = ToolArgs {
            name: String::from_str("stop"),
            fn_name: String::new(),
            description: String::from_str("Stop the meerai agent."),
            params: Vec::new(),
            schema: None,
        };
        let mut tools: Vec<ToolArgs> = Vec::new();
        tools.push(tool);
        let declared = ToolsetArgs {
            name: String::from_str("stop"),
            description: String::from_str("Stop the meerai agent."),
            tools,
        };
        DeclaredToolset::new(&declared, Box::new(Stop))
    }
}

impl Invoke for Stop {
    /// Whatever the function and the arguments: the turn stops, and no
    /// reason is given.
    fn call(&self, fn_name: &str, args: &serde_json::Value) -> (result: Result<
        ToolOutput,
        ToolError,
    >)
        ensures
            result matches Ok(output) && output@ == ToolOutputView::Stop(Seq::<char>::empty()),
    {
        self.stop()
    }
}

/// The handler of the capability `Stop`, declared as a single tool.
pub struct StopToolset;

impl StopToolset {
    /// The answer of the tool.
    pub fn stop(&self) -> (result: Result<ToolOutput, ToolError>)
        ensures
            result matches Ok(output) && output@ == ToolOutputView::Stop(Seq::<char>::empty()),
    {
        Ok(ToolOutput::Stop(String::new()))
    }

    /// The capability.
    pub fn toolset() -> (toolset: DeclaredToolset)
        ensures
            toolset.published().len() == 1,
            toolset.published()[0].description == "Stop the agent."@,
            !toolset.declares_params()[0],
    {
        DeclaredToolset::new(
            &ToolsetArgs::single("Stop", "Stop the agent.", None),
            Box::new(StopToolset),
        )
    }
}

impl Invoke for StopToolset {
    /// Whatever the function and the arguments: the turn stops, and no
    /// reason is given.
    fn call(&self, fn_name: &str, args: &serde_json::Value) -> (result: Result<
        ToolOutput,
        ToolError,
    >)
        ensures
            result matches Ok(output) && output@ == ToolOutputView::Stop(Seq::<char>::empty()),
    {
        self.stop()
    }
}

/// The arguments of the tool that stops a turn with a reason.
#[derive(Debug)]
pub struct StopWithReasonArgs {
    pub reason: String,
}

impl Clone for StopWithReasonArgs {
    fn clone(&self) -> (copy: Self)
        ensures
            copy == *self,
    {
        StopWithReasonArgs { reason: self.reason.clone() }
    }
}

impl JsonSchema for StopWithReasonArgs {
    open spec fn schema() -> JsonView {
        object_schema(no_entries().insert("reason"@, typed_schema("string"@)))
    }

    fn json_schema() -> (schema: serde_json::Value) {
        let mut properties = empty_entries();
        insert_entry(&mut properties, "reason", String::json_schema());
        create_object_schema(properties)
    }
}

impl StopWithReasonArgs {
    /// Reads the arguments from a JSON value: an object whose member
    /// `reason` is a string.
    pub fn from_json(value: &serde_json::Value) -> (args: Result<StopWithReasonArgs, ToolError>)
        ensures
            match text_member(json_view(*value), "reason"@) {
                Some(reason) => args matches Ok(read) && read.reason@ == reason,
                None => args matches Err(ToolError::WrongArguments(report)) && report@
                    == "missing field `reason`"@,
            },
    {
        match text_of_member(value, "reason") {
            Some(reason) => Ok(StopWithReasonArgs { reason }),
            None => Err(ToolError::WrongArguments(String::from_str("missing field `reason`"))),
        }
    }
}

/// The handler of the capability `Stop with Reason`, declared as a single tool.
pub struct StopWithReasonToolset;

impl StopWithReasonToolset {
    /// The answer of the tool: the turn stops, for the reason given.
    pub fn stop_with_reason(&self, args: &StopWithReasonArgs) -> (result: Result<
        ToolOutput,
        ToolError,
    >)
        ensures
            result matches Ok(output) && output@ == ToolOutputView::Stop(args.reason@),
    {
        Ok(ToolOutput::Stop(args.reason.clone()))
    }

    /// The capability.
    pub fn toolset() -> (toolset: DeclaredToolset)
        ensures
            toolset.published().len() == 1,
            toolset.published()[0].description == "Stop the agent with a reason."@,
            toolset.published()[0].parameters == StopWithReasonArgs::schema(),
            toolset.declares_params()[0],
    {
        DeclaredToolset::new(
            &ToolsetArgs::single(
                "Stop with Reason",
                "Stop the agent with a reason.",
                Some(StopWithReasonArgs::json_schema()),
            ),
            Box::new(StopWithReasonToolset),
        )
    }
}

impl Invoke for StopWithReasonToolset {
    /// The turn stops for the reason that the arguments give; arguments that
    /// are no object with a string `reason` are refused.
    fn call(&self, fn_name: &str, args: &serde_json::Value) -> (result: Result<
        ToolOutput,
        ToolError,
    >)
        ensures
            match text_member(json_view(*args), "reason"@) {
                Some(reason) => result matches Ok(output) && output@ == ToolOutputView::Stop(
                    reason,
                ),
                None => result matches Err(ToolError::WrongArguments(report)) && report@
                    == "missing field `reason`"@,
            },
    {
        match StopWithReasonArgs::from_json(args) {
            Ok(read) => self.stop_with_reason(&read),
            Err(error) => Err(error),
        }
    }
}

} // verus!
