use meerai::json_schema::{
    create_array_schema, create_boolean_schema, create_enum_schema, create_integer_schema,
    create_number_schema, create_object_schema, create_optional_schema, create_string_schema,
    JsonSchema,
};
use meerai::stop::{Stop, StopToolset, StopWithReasonArgs, StopWithReasonToolset};
use meerai::tools::{ToolError, ToolOutput, Toolset};
use meerai::toolset::{build_fn_name, DeclaredToolset, Invoke, Param, ToolArgs, ToolsetArgs};
use std::sync::{Arc, Mutex};

fn json(text: &str) -> serde_json::Value {
    serde_json::from_str(text).unwrap()
}

fn param(name: &str, kind: &str, description: &str) -> Param {
    Param {
        name: name.to_string(),
        description: description.to_string(),
        kind: kind.to_string(),
        required: true,
    }
}

fn tool(name: &str, description: &str, params: Vec<Param>) -> ToolArgs {
    ToolArgs {
        name: name.to_string(),
        fn_name: String::new(),
        description: description.to_string(),
        params,
        schema: None,
    }
}

/// A handler that records what it is called with and answers with the
/// member `location` of the arguments.
struct Weather {
    seen: Arc<Mutex<Vec<(String, serde_json::Value)>>>,
}

impl Invoke for Weather {
    fn call(&self, fn_name: &str, args: &serde_json::Value) -> Result<ToolOutput, ToolError> {
        self.seen.lock().unwrap().push((fn_name.to_string(), args.clone()));
        match args.get("location").and_then(|location| location.as_str()) {
            Some(location) => Ok(ToolOutput::Text(location.to_string())),
            None => Ok(ToolOutput::Text("Hello world".to_string())),
        }
    }
}

fn weather_params() -> Vec<Param> {
    vec![
        param("location", "string", ""),
        Param { required: false, ..param("unit", "string", "") },
        param("size", "number", ""),
    ]
}

fn my_toolset(seen: &Arc<Mutex<Vec<(String, serde_json::Value)>>>) -> DeclaredToolset {
    let declared = ToolsetArgs {
        name: "My Toolset".to_string(),
        description: "A set of tools for various tasks".to_string(),
        tools: vec![
            tool("Get Weather", "Get weather information", weather_params()),
            tool("Set Weather", "Set weather information", weather_params()),
        ],
    };
    DeclaredToolset::new(&declared, Box::new(Weather { seen: seen.clone() }))
}

#[test]
fn schemas_of_plain_types() {
    assert_eq!(create_integer_schema(), json("{\"type\":\"integer\"}"));
    assert_eq!(create_number_schema(), json("{\"type\":\"number\"}"));
    assert_eq!(create_boolean_schema(), json("{\"type\":\"boolean\"}"));
    assert_eq!(create_string_schema(), json("{\"type\":\"string\"}"));
    assert_eq!(i32::json_schema(), json("{\"type\":\"integer\"}"));
    assert_eq!(i64::json_schema(), json("{\"type\":\"integer\"}"));
    assert_eq!(isize::json_schema(), json("{\"type\":\"integer\"}"));
    assert_eq!(bool::json_schema(), json("{\"type\":\"boolean\"}"));
    assert_eq!(String::json_schema(), json("{\"type\":\"string\"}"));
}

#[test]
fn schemas_of_composed_types() {
    assert_eq!(
        create_optional_schema(create_string_schema()),
        json("{\"oneOf\":[{\"type\":\"null\"},{\"type\":\"string\"}]}")
    );
    assert_eq!(
        create_array_schema(create_integer_schema()),
        json("{\"type\":\"array\",\"items\":{\"type\":\"integer\"}}")
    );
    assert_eq!(
        Option::<Vec<bool>>::json_schema(),
        json("{\"oneOf\":[{\"type\":\"null\"},{\"type\":\"array\",\"items\":{\"type\":\"boolean\"}}]}")
    );
    assert_eq!(
        Vec::<Option<i64>>::json_schema(),
        json("{\"type\":\"array\",\"items\":{\"oneOf\":[{\"type\":\"null\"},{\"type\":\"integer\"}]}}")
    );
    let mut properties = serde_json::Map::new();
    properties.insert("a".to_string(), create_string_schema());
    assert_eq!(
        create_object_schema(properties),
        json("{\"type\":\"object\",\"properties\":{\"a\":{\"type\":\"string\"}}}")
    );
    assert_eq!(
        StopWithReasonArgs::json_schema(),
        json("{\"type\":\"object\",\"properties\":{\"reason\":{\"type\":\"string\"}}}")
    );
    assert_eq!(
        create_enum_schema("Unit"),
        json("{\"type\":\"string\",\"description\":\"Enum type Unit\"}")
    );
}

#[test]
fn qualified_names() {
    assert_eq!(build_fn_name("My Toolset", "get_weather"), "my_toolset-get_weather");
    assert_eq!(build_fn_name("stop", "stop"), "stop-stop");
    assert_eq!(build_fn_name("Hello Derive", "hello"), "hello_derive-hello");
    assert_eq!(build_fn_name("X Tool", "read_tweet"), "x_tool-read_tweet");
    assert_eq!(build_fn_name("", ""), "-");
}

#[test]
fn function_names_follow_from_tool_names() {
    let mut inferred = tool("Get Weather", "d", Vec::new());
    inferred.infer_fn_name();
    assert_eq!(inferred.fn_name, "get_weather");
    assert_eq!(inferred.name, "Get Weather");
    let mut given = ToolArgs { fn_name: "fetch".to_string(), ..tool("Get Weather", "d", Vec::new()) };
    given.infer_fn_name();
    assert_eq!(given.fn_name, "fetch");
    let mut declared = ToolsetArgs {
        name: "n".to_string(),
        description: "d".to_string(),
        tools: vec![
            tool("Post Tweet", "p", Vec::new()),
            ToolArgs { fn_name: "kept".to_string(), ..tool("Other", "o", Vec::new()) },
        ],
    };
    declared.update_defaults();
    assert_eq!(declared.tools[0].fn_name, "post_tweet");
    assert_eq!(declared.tools[1].fn_name, "kept");
    assert_eq!(declared.tools[1].name, "Other");
    assert_eq!(declared.name, "n");
}

#[test]
fn single_tool_is_named_in_title_case() {
    let declared = ToolsetArgs::single("stop with reason", "why", None);
    assert_eq!(declared.name, "stop with reason");
    assert_eq!(declared.description, "");
    assert_eq!(declared.tools.len(), 1);
    assert_eq!(declared.tools[0].name, "Stop With Reason");
    assert_eq!(declared.tools[0].fn_name, "");
    assert_eq!(declared.tools[0].description, "why");
    assert!(declared.tools[0].params.is_empty());
    assert!(declared.tools[0].schema.is_none());
}

#[test]
fn default_param_is_required_and_empty() {
    let param = Param::default();
    assert_eq!(param.name, "");
    assert_eq!(param.description, "");
    assert_eq!(param.kind, "");
    assert!(param.required);
}

#[test]
fn definitions_follow_the_declaration() {
    let declared = tool(
        "hello",
        "Hello world",
        vec![
            param("arg1", "string", "Argument 1"),
            param("arg2", "integer", ""),
            param("arg1", "boolean", "said twice"),
        ],
    );
    assert_eq!(
        declared.parameters_schema(),
        json(
            "{\"type\":\"object\",\"properties\":{\
             \"arg1\":{\"type\":\"boolean\",\"description\":\"said twice\"},\
             \"arg2\":{\"type\":\"integer\",\"description\":\"\"}}}"
        )
    );
    let definition = declared.definition("Hello Derive");
    assert_eq!(definition.kind, "function");
    assert_eq!(definition.name, "hello_derive-hello");
    assert_eq!(definition.description, "Hello world");
    let whole = ToolArgs { schema: Some(json("{\"type\":\"string\"}")), ..declared };
    assert_eq!(whole.parameters_schema(), json("{\"type\":\"string\"}"));
    assert_eq!(
        tool("bare", "", Vec::new()).parameters_schema(),
        json("{\"type\":\"object\",\"properties\":{}}")
    );
}

#[test]
fn declared_capability_claims_what_it_publishes() {
    let seen = Arc::new(Mutex::new(Vec::new()));
    let toolset = my_toolset(&seen);
    assert_eq!(toolset.name(), "my_toolset");
    let definitions = toolset.definition();
    assert_eq!(definitions.len(), 2);
    assert_eq!(definitions[0].name, "my_toolset-get_weather");
    assert_eq!(definitions[1].name, "my_toolset-set_weather");
    assert_eq!(definitions[1].description, "Set weather information");
    assert!(toolset.contain("my_toolset-get_weather"));
    assert!(toolset.contain("my_toolset-set_weather"));
    assert!(!toolset.contain("my_toolset"));
    assert!(!toolset.contain("get_weather"));
    assert!(!toolset.contain("my_toolset-get_weather "));
    assert_eq!(toolset.resolve("my_toolset-set_weather"), Some(1));
    assert_eq!(toolset.resolve("other-set_weather"), None);
}

#[test]
fn call_of_an_unknown_function_is_refused() {
    let seen = Arc::new(Mutex::new(Vec::new()));
    let toolset = my_toolset(&seen);
    match toolset.invoke("my_toolset-rain", "{}") {
        Err(ToolError::InvalidFunctionName(name)) => assert_eq!(name, "my_toolset-rain"),
        other => panic!("unexpected result: {:?}", other),
    }
    assert!(seen.lock().unwrap().is_empty());
}

#[test]
fn arguments_that_are_no_json_are_refused() {
    let seen = Arc::new(Mutex::new(Vec::new()));
    let toolset = my_toolset(&seen);
    match toolset.invoke("my_toolset-get_weather", "{ location: ") {
        Err(ToolError::WrongArguments(report)) => {
            assert_eq!(report, "key must be a string at line 1 column 3")
        }
        other => panic!("unexpected result: {:?}", other),
    }
    assert!(matches!(toolset.prepare("my_toolset-get_weather", ""), Err(ToolError::WrongArguments(_))));
    assert!(seen.lock().unwrap().is_empty());
}

#[test]
fn handler_gets_the_arguments_as_a_value() {
    let seen = Arc::new(Mutex::new(Vec::new()));
    let toolset = my_toolset(&seen);
    let args = "{ \"location\": \"Menlo Park, CA\", \"size\": 1.0 }";
    assert_eq!(toolset.prepare("my_toolset-get_weather", args).unwrap(), json(args));
    assert!(seen.lock().unwrap().is_empty());
    assert_eq!(
        toolset.invoke("my_toolset-set_weather", args).unwrap(),
        ToolOutput::Text("Menlo Park, CA".to_string())
    );
    assert_eq!(seen.lock().unwrap().len(), 1);
    assert_eq!(seen.lock().unwrap()[0].0, "my_toolset-set_weather");
    assert_eq!(seen.lock().unwrap()[0].1, json(args));
}

#[test]
fn tool_without_parameters_gets_null() {
    let seen = Arc::new(Mutex::new(Vec::new()));
    let declared = ToolsetArgs {
        name: "plain".to_string(),
        description: String::new(),
        tools: vec![tool("ping", "", Vec::new())],
    };
    let toolset = DeclaredToolset::new(&declared, Box::new(Weather { seen: seen.clone() }));
    assert_eq!(toolset.prepare("plain-ping", "this is no json").unwrap(), serde_json::Value::Null);
    assert!(toolset.invoke("plain-ping", "this is no json").is_ok());
    assert_eq!(seen.lock().unwrap()[0].1, serde_json::Value::Null);
}

#[test]
fn stop_capabilities() {
    let stop = Stop::toolset();
    assert_eq!(stop.name(), "stop");
    assert_eq!(stop.definition().len(), 1);
    assert_eq!(stop.definition()[0].name, "stop-stop");
    assert_eq!(stop.definition()[0].kind, "function");
    assert_eq!(stop.definition()[0].description, "Stop the meerai agent.");
    assert!(stop.contain("stop-stop"));
    assert_eq!(stop.invoke("stop-stop", "").unwrap(), ToolOutput::Stop(String::new()));
    assert_eq!(Stop.stop().unwrap(), ToolOutput::Stop(String::new()));
    assert!(matches!(stop.invoke("stop", ""), Err(ToolError::InvalidFunctionName(_))));
}

#[test]
fn stop_with_reason_reads_its_reason() {
    let toolset = StopWithReasonToolset::toolset();
    assert_eq!(toolset.name(), "stop_with_reason");
    assert_eq!(
        toolset.definition()[0].parameters,
        json("{\"type\":\"object\",\"properties\":{\"reason\":{\"type\":\"string\"}}}")
    );
    assert_eq!(
        toolset.invoke("stop_with_reason-stop_with_reason", "{\"reason\":\"done for today\"}").unwrap(),
        ToolOutput::Stop("done for today".to_string())
    );
    match toolset.invoke("stop_with_reason-stop_with_reason", "{\"reason\":7}") {
        Err(ToolError::WrongArguments(report)) => assert_eq!(report, "missing field `reason`"),
        other => panic!("unexpected result: {:?}", other),
    }
    assert!(matches!(
        toolset.invoke("stop_with_reason-stop_with_reason", "[]"),
        Err(ToolError::WrongArguments(_))
    ));
    assert!(matches!(
        toolset.invoke("stop_with_reason-stop_with_reason", "not json"),
        Err(ToolError::WrongArguments(_))
    ));
    let read = StopWithReasonArgs::from_json(&json("{\"reason\":\"r\",\"more\":1}")).unwrap();
    assert_eq!(read.reason, "r");
    assert_eq!(read.clone().reason, "r");
}

#[test]
fn test_stop_tool() {
    let toolset = StopToolset::toolset();
    let definitions = toolset.definition();
    assert_eq!(definitions.len(), 1);
    assert_eq!(definitions[0].name, "stop-stop");

    let result = StopToolset.stop().unwrap();
    assert_eq!(result, ToolOutput::Stop("".to_string()));
}

#[test]
fn test_stop_with_reason_tool() {
    let toolset = StopWithReasonToolset::toolset();
    let definitions = toolset.definition();
    assert_eq!(definitions.len(), 1);
    assert_eq!(definitions[0].name, "stop_with_reason-stop_with_reason");

    let args = StopWithReasonArgs { reason: "Test reason".to_string() };
    let result = StopWithReasonToolset.stop_with_reason(&args).unwrap();
    assert_eq!(result, ToolOutput::Stop("Test reason".to_string()));
}

#[test]
fn test_tool() {
    let seen = Arc::new(Mutex::new(Vec::new()));
    let declared = ToolsetArgs {
        name: "my_tool".to_string(),
        description: String::new(),
        tools: vec![ToolArgs {
            fn_name: "run".to_string(),
            ..tool("my_tool", "My tool", vec![param("arg1", "string", "Argument 1")])
        }],
    };
    let toolset = DeclaredToolset::new(&declared, Box::new(Weather { seen }));
    assert_eq!(toolset.name(), "my_tool");
    let definitions = toolset.definition();
    assert_eq!(definitions.len(), 1);
    assert_eq!(definitions[0].kind, "function");
    assert_eq!(definitions[0].description, "My tool");
    assert_eq!(
        definitions[0].parameters,
        json(
            "{\"type\":\"object\",\"properties\":{\
             \"arg1\":{\"type\":\"string\",\"description\":\"Argument 1\"}}}"
        )
    );
    assert!(toolset.contain("my_tool-run"));
    assert_eq!(
        toolset.invoke("my_tool-run", "{}").unwrap(),
        ToolOutput::Text("Hello world".to_string())
    );
    assert!(true);
}

fn hello_derive(params: Vec<Param>) -> DeclaredToolset {
    let declared = ToolsetArgs {
        name: "Hello Derive".to_string(),
        description: "Hello derive".to_string(),
        tools: vec![tool("hello", "Hello world", params)],
    };
    DeclaredToolset::new(&declared, Box::new(Weather { seen: Arc::new(Mutex::new(Vec::new())) }))
}

#[test]
fn test_snapshot_derive_with_param() {
    let output = hello_derive(vec![param("arg1", "string", "")]);
    assert_eq!(output.name(), "hello_derive");
    assert_eq!(output.definition()[0].name, "hello_derive-hello");
    assert_eq!(output.definition()[0].description, "Hello world");
    assert_eq!(
        output.definition()[0].parameters,
        json("{\"type\":\"object\",\"properties\":{\"arg1\":{\"type\":\"string\",\"description\":\"\"}}}")
    );
    assert!(output.contain("hello_derive-hello"));
    assert!(matches!(output.invoke("hello_derive-hello", "?"), Err(ToolError::WrongArguments(_))));
}

#[test]
fn test_snapshot_derive_with_multiple_params() {
    let kinds = ["string", "integer", "boolean", "array", "object", "null", "any", "number"];
    let params = kinds
        .iter()
        .enumerate()
        .map(|(at, kind)| param(&format!("arg{}", at + 1), kind, ""))
        .collect();
    let output = hello_derive(params);
    let parameters = output.definition()[0].parameters.clone();
    assert_eq!(parameters["type"], "object");
    for (at, kind) in kinds.iter().enumerate() {
        assert_eq!(parameters["properties"][format!("arg{}", at + 1)]["type"], *kind);
    }
    assert_eq!(parameters["properties"].as_object().unwrap().len(), 8);
}

#[test]
fn test_snapshot_derive_without_param() {
    let output = hello_derive(Vec::new());
    assert_eq!(output.name(), "hello_derive");
    assert_eq!(output.definition()[0].name, "hello_derive-hello");
    assert_eq!(
        output.definition()[0].parameters,
        json("{\"type\":\"object\",\"properties\":{}}")
    );
    assert!(output.invoke("hello_derive-hello", "?").is_ok());
    assert!(matches!(output.invoke("hello", ""), Err(ToolError::InvalidFunctionName(_))));
}

fn hello_with_schema(schema: Option<serde_json::Value>) -> DeclaredToolset {
    let declared = ToolsetArgs {
        name: "Hello Derive".to_string(),
        description: String::new(),
        tools: vec![ToolArgs { schema, ..tool("hello", "Hello", Vec::new()) }],
    };
    DeclaredToolset::new(&declared, Box::new(Weather { seen: Arc::new(Mutex::new(Vec::new())) }))
}

#[test]
fn test_snapshot_derive_with_params() {
    let output = hello_with_schema(Some(StopWithReasonArgs::json_schema()));
    assert_eq!(output.definition()[0].name, "hello_derive-hello");
    assert_eq!(output.definition()[0].description, "Hello");
    assert_eq!(output.definition()[0].parameters, StopWithReasonArgs::json_schema());
    assert!(matches!(output.invoke("hello_derive-hello", "?"), Err(ToolError::WrongArguments(_))));
}

#[test]
fn test_snapshot_derive_without_params() {
    let output = hello_with_schema(None);
    assert_eq!(output.definition()[0].name, "hello_derive-hello");
    assert_eq!(output.definition()[0].description, "Hello");
    assert_eq!(
        output.definition()[0].parameters,
        json("{\"type\":\"object\",\"properties\":{}}")
    );
    assert!(output.invoke("hello_derive-hello", "?").is_ok());
}

fn hello_attribute(schema: Option<serde_json::Value>) -> DeclaredToolset {
    DeclaredToolset::new(
        &ToolsetArgs::single("hello", "hello", schema),
        Box::new(Weather { seen: Arc::new(Mutex::new(Vec::new())) }),
    )
}

#[test]
fn test_snapshot_attribute_with_params() {
    let output = hello_attribute(Some(String::json_schema()));
    assert_eq!(output.name(), "hello");
    assert_eq!(output.definition()[0].name, "hello-hello");
    assert_eq!(output.definition()[0].description, "hello");
    assert_eq!(output.definition()[0].parameters, json("{\"type\":\"string\"}"));
    assert_eq!(
        output.invoke("hello-hello", "\"hello\"").unwrap(),
        ToolOutput::Text("Hello world".to_string())
    );
}

#[test]
fn test_snapshot_attribute_without_params() {
    let output = hello_attribute(None);
    assert_eq!(output.name(), "hello");
    assert_eq!(output.definition()[0].name, "hello-hello");
    assert_eq!(output.definition()[0].description, "hello");
    assert!(output.invoke("hello-hello", "").is_ok());
}

fn get_weather(seen: &Arc<Mutex<Vec<(String, serde_json::Value)>>>) -> DeclaredToolset {
    let mut properties = serde_json::Map::new();
    properties.insert("location".to_string(), String::json_schema());
    properties.insert("unit".to_string(), Option::<String>::json_schema());
    properties.insert("size".to_string(), create_number_schema());
    DeclaredToolset::new(
        &ToolsetArgs::single(
            "Get Weather",
            "Get weather information",
            Some(create_object_schema(properties)),
        ),
        Box::new(Weather { seen: seen.clone() }),
    )
}

#[test]
fn test_attribute_tool_pass() {
    let seen = Arc::new(Mutex::new(Vec::new()));
    let tool = get_weather(&seen);
    let size: f64 = 1.0;
    let direct_call = Weather { seen: seen.clone() }
        .call(
            "get_weather-get_weather",
            &json(&format!("{{\"location\":\"Menlo Park, CA\",\"unit\":\"C\",\"size\":{:?}}}", size)),
        )
        .unwrap();

    let json_args = "{ \"location\": \"Menlo Park, CA\", \"size\": 1.0 }";
    let invoke_call = tool.invoke("get_weather-get_weather", json_args).unwrap();

    let definition = tool.definition();
    println!("{:?}", definition);
    assert_eq!(direct_call, invoke_call);
}

#[test]
fn test_derive_schema_pass() {
    let mut children = serde_json::Map::new();
    children.insert("chil".to_string(), String::json_schema());
    children.insert("arg2".to_string(), Option::<String>::json_schema());
    children.insert("arg3".to_string(), create_number_schema());
    children.insert("arg4".to_string(), isize::json_schema());
    children.insert("arg5".to_string(), Vec::<String>::json_schema());
    let mut sample = serde_json::Map::new();
    sample.insert("arg1".to_string(), String::json_schema());
    sample.insert("arg2".to_string(), Option::<String>::json_schema());
    sample.insert("arg3".to_string(), create_number_schema());
    sample.insert("arg4".to_string(), isize::json_schema());
    sample.insert("arg5".to_string(), Vec::<String>::json_schema());
    sample.insert("arg6".to_string(), create_object_schema(children));
    let value = create_object_schema(sample);
    println!("Args Schema: {}", value);
    assert_eq!(value["properties"]["arg6"]["properties"]["arg5"]["items"]["type"], "string");
    assert_eq!(value["properties"]["arg2"]["oneOf"][0]["type"], "null");
}

#[test]
fn test_derive_toolset_pass() {
    let seen = Arc::new(Mutex::new(Vec::new()));
    let tool = my_toolset(&seen);
    assert_eq!(tool.name(), "my_toolset");

    let direct_call = Weather { seen: seen.clone() }
        .call(
            "my_toolset-get_weather",
            &json("{\"location\":\"Menlo Park, CA\",\"unit\":\"C\",\"size\":1.0}"),
        )
        .unwrap();

    let json_args = "{ \"location\": \"Menlo Park, CA\", \"size\": 1.0 }";
    let invoke_call = tool.invoke("my_toolset-get_weather", json_args).unwrap();

    let definition = tool.definition();
    println!("{:?}", definition);
    assert_eq!(direct_call, invoke_call);
}

#[test]
fn test_tool_derive_pass() {
    let seen = Arc::new(Mutex::new(Vec::new()));
    let tool = my_toolset(&seen);
    let json_args = "{ \"location\": \"Menlo Park, CA\", \"size\": 1.0 }";

    let direct_call = Weather { seen: seen.clone() }
        .call("my_toolset-get_weather", &json(json_args))
        .unwrap();
    let invoke_call = tool.invoke("my_toolset-get_weather", json_args).unwrap();

    let definition = tool.definition();
    println!("{:?}", definition);
    assert_eq!(direct_call, invoke_call);
}
