use rust_mcp_sdk::declaration::{
    declared_tool, prompt_attribute, prompt_attributes_complete, tool_argument, tool_attribute,
    tool_attributes_complete, tool_input_schema, tool_output_schema, tool_return_check, tool_value,
    type_is_option, PromptAttribute, ReturnTypeShape, ToolAttribute,
};
use rust_mcp_sdk::InputSchema;
use serde_json::Value;

fn json(text: &str) -> Value {
    serde_json::from_str(text).unwrap()
}

#[test]
fn option_parameters_are_optional() {
    assert!(type_is_option(&vec!["std".to_string(), "option".to_string(), "Option".to_string()]));
    assert!(type_is_option(&vec!["Option".to_string()]));
    assert!(!type_is_option(&vec!["String".to_string()]));
    assert!(!type_is_option(&vec!["Option".to_string(), "Vec".to_string()]));
    assert!(!type_is_option(&Vec::new()));
}

#[test]
fn input_schema_lists_properties_and_required_names() {
    let schema = tool_input_schema(
        vec![
            ("a".to_string(), json(r#"{"type":"integer"}"#)),
            ("b".to_string(), json(r#"{"type":"string"}"#)),
        ],
        &vec!["a".to_string()],
    );
    assert_eq!(
        schema,
        json(r#"{"type":"object","properties":{"a":{"type":"integer"},"b":{"type":"string"}},"required":["a"]}"#)
    );
    let repeated = tool_input_schema(
        vec![("a".to_string(), json("1")), ("a".to_string(), json("2"))],
        &Vec::new(),
    );
    assert_eq!(repeated, json(r#"{"type":"object","properties":{"a":2},"required":[]}"#));
}

#[test]
fn declared_tool_wraps_its_value_schema() {
    assert_eq!(
        tool_output_schema(json(r#"{"type":"integer"}"#)),
        json(r#"{"type":"object","properties":{"value":{"type":"integer"}}}"#)
    );
    let tool = declared_tool(
        "add".to_string(),
        "Add".to_string(),
        "Adds two numbers".to_string(),
        json(r#"{"type":"object"}"#),
        json(r#"{"type":"integer"}"#),
    );
    assert_eq!(tool.name, "add");
    assert_eq!(tool.title.as_deref(), Some("Add"));
    assert_eq!(tool.description, "Adds two numbers");
    assert_eq!(tool.input_schema, InputSchema::Inline(json(r#"{"type":"object"}"#)));
    assert_eq!(
        tool.output_schema,
        Some(InputSchema::Inline(json(r#"{"type":"object","properties":{"value":{"type":"integer"}}}"#)))
    );
    assert_eq!(tool.requires_auth, Some(false));
    assert!(tool.experimental.is_none() && tool.annotations.is_none());
}

#[test]
fn arguments_are_read_by_name_and_values_wrapped() {
    let params = json(r#"{"a":3,"b":"x"}"#);
    assert_eq!(tool_argument(&params, "a"), json("3"));
    assert_eq!(tool_argument(&params, "b"), json(r#""x""#));
    assert_eq!(tool_argument(&params, "c"), Value::Null);
    assert_eq!(tool_argument(&Value::Null, "a"), Value::Null);
    assert_eq!(tool_value(json("[1,2]")), json(r#"{"value":[1,2]}"#));
}

#[test]
fn declaration_attributes_are_checked() {
    assert!(matches!(tool_attribute("title"), Ok(ToolAttribute::Title)));
    assert!(matches!(tool_attribute("description"), Ok(ToolAttribute::Description)));
    assert_eq!(tool_attribute("name").err(), Some("Unknown attribute: name".to_string()));
    assert!(matches!(prompt_attribute("name"), Ok(PromptAttribute::Name)));
    assert_eq!(prompt_attribute("x").err(), Some("Unknown prompt attribute: x".to_string()));
    assert_eq!(tool_attributes_complete("Add", "Adds"), Ok(()));
    assert_eq!(
        tool_attributes_complete("", "Adds"),
        Err("#[tool] requires both `title` and `description` attributes.".to_string())
    );
    assert_eq!(prompt_attributes_complete("p", "P", "d"), Ok(()));
    assert_eq!(
        prompt_attributes_complete("p", "", "d"),
        Err("#[prompt] requires `name`, `title`, and `description` attributes.".to_string())
    );
    let result = |seg: &str, angle: bool, ty: bool| ReturnTypeShape::Path {
        last_segment: Some(seg.to_string()),
        angle_bracketed: angle,
        first_argument_is_type: ty,
    };
    assert_eq!(tool_return_check(&result("Result", true, true)), Ok(()));
    assert_eq!(tool_return_check(&ReturnTypeShape::Default), Err("Tool must return a Result".to_string()));
    assert_eq!(tool_return_check(&ReturnTypeShape::Other), Err("Unsupported return type".to_string()));
    assert_eq!(tool_return_check(&result("Option", true, true)), Err("Tool must return Result<T, E>".to_string()));
    assert_eq!(tool_return_check(&result("Result", false, false)), Err("Tool Result must be Result<T, E>".to_string()));
    assert_eq!(tool_return_check(&result("Result", true, false)), Err("Tool Result must have Ok type".to_string()));
}
