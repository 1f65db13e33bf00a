//! Tools declared from plain async functions: the definition that such a
//! tool registers (an object schema for its parameters, and an output schema
//! that wraps its value), how each argument is taken from a call's
//! parameters, and how the function's value is handed back.

use crate::fields::{field_holds, json_strings, push_field, strings_json};
use crate::json::{json_get, json_model, json_null, json_object, json_string, object_of, JsonModel};
use crate::types::{InputSchema, Tool};
use vstd::prelude::*;

verus! {

/// Whether a parameter's type is an `Option`: the last segment of its type
/// path is `Option`. A type that is not a path has no segments. Parameters of
/// any other type are required.
pub fn type_is_option(path_segments: &Vec<String>) -> (r: bool)
    ensures
        r == (path_segments@.len() > 0 && path_segments@.last()@ == "Option"@),
{
    if path_segments.len() == 0 {
        return false;
    }
    let last = &path_segments[path_segments.len() - 1];
    last.eq(&"Option".to_string())
}

/// The parameter schema of a declared tool: an object with the given
/// properties (a name given twice keeps its last schema), of which the named
/// ones are required.
pub open spec fn input_schema_json(
    properties: Map<Seq<char>, JsonModel>,
    required: Seq<String>,
) -> JsonModel {
    JsonModel::Object(
        Map::empty().insert("type"@, JsonModel::Str("object"@)).insert(
            "properties"@,
            JsonModel::Object(properties),
        ).insert("required"@, strings_json(required)),
    )
}

/// The output schema of a declared tool: an object whose `value` has the
/// schema of the function's value.
pub open spec fn output_schema_json(value_schema: JsonModel) -> JsonModel {
    JsonModel::Object(
        Map::empty().insert("type"@, JsonModel::Str("object"@)).insert(
            "properties"@,
            JsonModel::Object(Map::empty().insert("value"@, value_schema)),
        ),
    )
}

/// The parameter schema of a declared tool, from each parameter's name and
/// schema and the names of the parameters that are not `Option`s.
pub fn tool_input_schema(
    properties: Vec<(String, serde_json::Value)>,
    required: &Vec<String>,
) -> (r: serde_json::Value)
    ensures
        json_model(r) == input_schema_json(object_of(properties@), required@),
{
    let props = json_object(properties);
    let mut entries: Vec<(String, serde_json::Value)> = Vec::new();
    push_field(&mut entries, "type", json_string("object".to_string()));
    push_field(&mut entries, "properties", props);
    push_field(&mut entries, "required", json_strings(required));
    proof {
        reveal_strlit("object");
    }
    json_object(entries)
}

/// The output schema of a declared tool, from the schema of its value.
pub fn tool_output_schema(value_schema: serde_json::Value) -> (r: serde_json::Value)
    ensures
        json_model(r) == output_schema_json(json_model(value_schema)),
{
    let mut properties: Vec<(String, serde_json::Value)> = Vec::new();
    push_field(&mut properties, "value", value_schema);
    let mut entries: Vec<(String, serde_json::Value)> = Vec::new();
    push_field(&mut entries, "type", json_string("object".to_string()));
    push_field(&mut entries, "properties", json_object(properties));
    proof {
        reveal_strlit("object");
    }
    json_object(entries)
}

/// The definition that a declared tool registers: named after its function,
/// with the declared title and description, its parameter schema, and the
/// output schema around its value's schema; it asks for no authentication.
pub fn declared_tool(
    name: String,
    title: String,
    description: String,
    input_schema: serde_json::Value,
    value_schema: serde_json::Value,
) -> (r: Tool)
    ensures
        r.name == name,
        r.title == Some(title),
        r.description == description,
        r.input_schema == InputSchema::Inline(input_schema),
        r.output_schema matches Some(InputSchema::Inline(o)) && json_model(o) == output_schema_json(
            json_model(value_schema),
        ),
        r.requires_auth == Some(false),
        r.experimental is None,
        r.annotations is None,
{
    Tool {
        name,
        title: Some(title),
        description,
        input_schema: InputSchema::Inline(input_schema),
        output_schema: Some(InputSchema::Inline(tool_output_schema(value_schema))),
        requires_auth: Some(false),
        experimental: None,
        annotations: None,
    }
}

/// The argument of a declared tool's parameter: the field of the call's
/// parameters named after it, or `null` when there is no such field.
pub fn tool_argument(params: &serde_json::Value, name: &str) -> (r: serde_json::Value)
    ensures
        json_model(r) == match json_model(*params) {
            JsonModel::Object(fields) => if fields.dom().contains(name@) {
                fields[name@]
            } else {
                JsonModel::Null
            },
            _ => JsonModel::Null,
        },
{
    match json_get(params, name) {
        Some(v) => v.clone(),
        None => json_null(),
    }
}

/// What a declared tool hands back for the value its function returned:
/// `{"value": value}`.
pub fn tool_value(value: serde_json::Value) -> (r: serde_json::Value)
    ensures
        json_model(r) == JsonModel::Object(Map::empty().insert("value"@, json_model(value))),
{
    let mut entries: Vec<(String, serde_json::Value)> = Vec::new();
    push_field(&mut entries, "value", value);
    json_object(entries)
}

// ---- What a declaration must give (refused while the declaration is read)

/// The attributes that a tool declaration takes.
pub enum ToolAttribute {
    Title,
    Description,
}

/// Reads the name of a tool declaration's attribute: `title` or
/// `description`; any other is refused.
pub fn tool_attribute(ident: &str) -> (r: Result<ToolAttribute, String>)
    ensures
        ident@ == "title"@ ==> r matches Ok(ToolAttribute::Title),
        ident@ == "description"@ ==> r matches Ok(ToolAttribute::Description),
        ident@ != "title"@ && ident@ != "description"@ ==> (r matches Err(m) && m@
            == "Unknown attribute: "@ + ident@),
{
    proof {
        reveal_strlit("title");
        reveal_strlit("description");
        assert("title"@.len() != "description"@.len());
    }
    let name = ident.to_string();
    if name.eq(&"title".to_string()) {
        Ok(ToolAttribute::Title)
    } else if name.eq(&"description".to_string()) {
        Ok(ToolAttribute::Description)
    } else {
        let mut text = "Unknown attribute: ".to_string();
        text.append(ident);
        Err(text)
    }
}

/// A tool declaration must give both a title and a description.
pub fn tool_attributes_complete(title: &str, description: &str) -> (r: Result<(), String>)
    ensures
        title@.len() > 0 && description@.len() > 0 ==> r is Ok,
        !(title@.len() > 0 && description@.len() > 0) ==> (r matches Err(m) && m@
            == "#[tool] requires both `title` and `description` attributes."@),
{
    if title.is_empty() || description.is_empty() {
        return Err("#[tool] requires both `title` and `description` attributes.".to_string());
    }
    Ok(())
}

/// The attributes that a prompt declaration takes.
pub enum PromptAttribute {
    Name,
    Title,
    Description,
}

/// Reads the name of a prompt declaration's attribute: `name`, `title` or
/// `description`; any other is refused.
pub fn prompt_attribute(ident: &str) -> (r: Result<PromptAttribute, String>)
    ensures
        ident@ == "name"@ ==> r matches Ok(PromptAttribute::Name),
        ident@ == "title"@ ==> r matches Ok(PromptAttribute::Title),
        ident@ == "description"@ ==> r matches Ok(PromptAttribute::Description),
        ident@ != "name"@ && ident@ != "title"@ && ident@ != "description"@ ==> (r matches Err(m)
            && m@ == "Unknown prompt attribute: "@ + ident@),
{
    proof {
        reveal_strlit("name");
        reveal_strlit("title");
        reveal_strlit("description");
        assert("name"@.len() != "title"@.len());
        assert("name"@.len() != "description"@.len());
        assert("title"@.len() != "description"@.len());
    }
    let name = ident.to_string();
    if name.eq(&"name".to_string()) {
        Ok(PromptAttribute::Name)
    } else if name.eq(&"title".to_string()) {
        Ok(PromptAttribute::Title)
    } else if name.eq(&"description".to_string()) {
        Ok(PromptAttribute::Description)
    } else {
        let mut text = "Unknown prompt attribute: ".to_string();
        text.append(ident);
        Err(text)
    }
}

/// A prompt declaration must give a name, a title and a description.
pub fn prompt_attributes_complete(name: &str, title: &str, description: &str) -> (r: Result<
    (),
    String,
>)
    ensures
        name@.len() > 0 && title@.len() > 0 && description@.len() > 0 ==> r is Ok,
        !(name@.len() > 0 && title@.len() > 0 && description@.len() > 0) ==> (r matches Err(m)
            && m@ == "#[prompt] requires `name`, `title`, and `description` attributes."@),
{
    if name.is_empty() || title.is_empty() || description.is_empty() {
        return Err(
            "#[prompt] requires `name`, `title`, and `description` attributes.".to_string(),
        );
    }
    Ok(())
}

/// The shape of a declared tool function's return type.
pub enum ReturnTypeShape {
    /// No return type is written.
    Default,
    /// A type path: its last segment (if it has one), whether that segment
    /// has angle-bracketed arguments, and whether the first of them is a type.
    Path { last_segment: Option<String>, angle_bracketed: bool, first_argument_is_type: bool },
    /// Any other kind of type.
    Other,
}

/// The message with which a tool's return type is refused, if it is: a tool
/// must return a `Result` whose first argument is its value's type.
pub open spec fn return_type_refusal(shape: ReturnTypeShape) -> Option<Seq<char>> {
    match shape {
        ReturnTypeShape::Default => Some("Tool must return a Result"@),
        ReturnTypeShape::Other => Some("Unsupported return type"@),
        ReturnTypeShape::Path { last_segment, angle_bracketed, first_argument_is_type } => match last_segment {
            None => Some("Unsupported return type"@),
            Some(seg) => if seg@ != "Result"@ {
                Some("Tool must return Result<T, E>"@)
            } else if !angle_bracketed {
                Some("Tool Result must be Result<T, E>"@)
            } else if !first_argument_is_type {
                Some("Tool Result must have Ok type"@)
            } else {
                None
            },
        },
    }
}

/// Checks a declared tool's return type (see `return_type_refusal`).
pub fn tool_return_check(shape: &ReturnTypeShape) -> (r: Result<(), String>)
    ensures
        match return_type_refusal(*shape) {
            None => r is Ok,
            Some(t) => r matches Err(m) && m@ == t,
        },
{
    match shape {
        ReturnTypeShape::Default => Err("Tool must return a Result".to_string()),
        ReturnTypeShape::Other => Err("Unsupported return type".to_string()),
        ReturnTypeShape::Path { last_segment, angle_bracketed, first_argument_is_type } => {
            match last_segment {
                None => Err("Unsupported return type".to_string()),
                Some(seg) => {
                    if !seg.eq(&"Result".to_string()) {
                        Err("Tool must return Result<T, E>".to_string())
                    } else if !*angle_bracketed {
                        Err("Tool Result must be Result<T, E>".to_string())
                    } else if !*first_argument_is_type {
                        Err("Tool Result must have Ok type".to_string())
                    } else {
                        Ok(())
                    }
                },
            }
        },
    }
}

/// A declared tool's parameter schema is an object schema: `type` is
/// `"object"`, `properties` holds the given properties and `required` lists
/// the required names in order; its output schema is an object schema whose
/// only property is `value`.
pub proof fn law_declared_schemas(properties: Map<Seq<char>, JsonModel>, required: Seq<String>, value_schema: JsonModel)
    ensures
        input_schema_json(properties, required) is Object,
        field_holds(input_schema_json(properties, required)->Object_0, "type"@, Some(JsonModel::Str("object"@))),
        field_holds(
            input_schema_json(properties, required)->Object_0,
            "properties"@,
            Some(JsonModel::Object(properties)),
        ),
        field_holds(
            input_schema_json(properties, required)->Object_0,
            "required"@,
            Some(JsonModel::Array(required.map_values(|s: String| JsonModel::Str(s@)))),
        ),
        forall|k: Seq<char>| #[trigger] input_schema_json(properties, required)->Object_0.dom().contains(k)
            ==> k == "type"@ || k == "properties"@ || k == "required"@,
        output_schema_json(value_schema) is Object,
        field_holds(output_schema_json(value_schema)->Object_0, "type"@, Some(JsonModel::Str("object"@))),
        field_holds(
            output_schema_json(value_schema)->Object_0,
            "properties"@,
            Some(JsonModel::Object(Map::empty().insert("value"@, value_schema))),
        ),
        forall|k: Seq<char>| #[trigger] output_schema_json(value_schema)->Object_0.dom().contains(k)
            ==> k == "type"@ || k == "properties"@,
{
    reveal_strlit("type");
    reveal_strlit("properties");
    reveal_strlit("required");
    assert("type"@.len() != "properties"@.len());
    assert("type"@.len() != "required"@.len());
    assert("properties"@.len() != "required"@.len());
}

} // verus!
