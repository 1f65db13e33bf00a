//! The MCP payload types: who the peers are, what they can do, and the
//! tool-related requests and results. The initialization payloads can be
//! written as JSON here; the others are carried as plain data.

use crate::fields::{
    field_holds, opt_bool_json, opt_bool_value, opt_clone, opt_json, opt_str_json,
    opt_string_value, push_field, push_optional, with_optional,
};
use crate::json::{json_model, json_object, json_string, JsonModel};
use std::collections::HashMap;
use vstd::prelude::*;

verus! {

#[derive(Debug, Clone, PartialEq)]
pub struct ClientInfo {
    pub name: String,
    pub title: Option<String>,
    pub version: Option<String>,
}

#[derive(Debug, Clone, PartialEq)]
pub struct ServerInfo {
    pub name: String,
    pub title: Option<String>,
    pub version: Option<String>,
}

#[derive(Debug, Clone, PartialEq)]
pub struct ClientCapabilities {
    pub roots: Option<ClientRootsCapability>,
    pub sampling: Option<serde_json::Value>,
    pub elicitation: Option<serde_json::Value>,
    pub experimental: Option<serde_json::Value>,
}

#[derive(Debug, Clone, PartialEq)]
pub struct ClientRootsCapability {
    pub list_changed: Option<bool>,
}

#[derive(Debug, Clone, PartialEq)]
pub struct ServerCapabilities {
    pub logging: Option<serde_json::Value>,
    pub prompts: Option<ServerPromptsCapability>,
    pub resources: Option<ServerResourcesCapability>,
    pub tools: Option<ServerToolsCapability>,
    pub completions: Option<serde_json::Value>,
    pub experimental: Option<serde_json::Value>,
}

#[derive(Debug, Clone, PartialEq)]
pub struct ServerResourcesCapability {
    pub subscribe: Option<bool>,
    pub list_changed: Option<bool>,
}

#[derive(Debug, Clone, PartialEq)]
pub struct ServerToolsCapability {
    pub list_changed: Option<bool>,
}

#[derive(Debug, Clone, PartialEq)]
pub struct ServerPromptsCapability {
    pub list_changed: Option<bool>,
}

#[derive(Debug, Clone, PartialEq)]
pub struct InitializeRequestParams {
    pub protocol_version: String,
    pub capabilities: ClientCapabilities,
    pub client_info: Option<ClientInfo>,
}

#[derive(Debug, Clone, PartialEq)]
pub struct InitializeResult {
    pub protocol_version: String,
    pub capabilities: ServerCapabilities,
    pub server_info: Option<ServerInfo>,
    pub instructions: Option<String>,
}

/// A JSON schema, given inline or as a reference to a definition.
#[derive(Debug, Clone, PartialEq)]
pub enum InputSchema {
    Reference(String),
    Inline(serde_json::Value),
}

#[derive(Debug, Clone, PartialEq)]
pub struct Tool {
    pub name: String,
    pub title: Option<String>,
    pub description: String,
    pub input_schema: InputSchema,
    pub output_schema: Option<InputSchema>,
    pub requires_auth: Option<bool>,
    pub experimental: Option<serde_json::Value>,
    pub annotations: Option<serde_json::Value>,
}

#[derive(Debug, Clone, PartialEq)]
pub struct ToolsListRequestParams {
    pub cursor: Option<String>,
}

#[derive(Debug, Clone, PartialEq)]
pub struct ToolsListResult {
    pub tools: Vec<Tool>,
    pub next_cursor: Option<String>,
}

#[derive(Debug, Clone, PartialEq)]
pub struct ToolsCallRequestParams {
    pub tool_name: String,
    pub tool_parameters: Option<serde_json::Value>,
}

/// One block of a tool's output.
#[derive(Debug, Clone, PartialEq)]
pub enum ToolOutputContentBlock {
    Text { text: String },
    Image { data: String, mime_type: String, extra_fields: HashMap<String, serde_json::Value> },
    Audio { data: String, mime_type: String, extra_fields: HashMap<String, serde_json::Value> },
    ResourceLink {
        uri: String,
        name: Option<String>,
        description: Option<String>,
        mime_type: Option<String>,
        extra_fields: HashMap<String, serde_json::Value>,
    },
    EmbeddedResource { resource: Resource, extra_fields: HashMap<String, serde_json::Value> },
    Other,
}

#[derive(Debug, Clone, PartialEq)]
pub struct Resource {
    pub uri: String,
    pub title: Option<String>,
    pub mime_type: Option<String>,
    pub text: Option<String>,
}

#[derive(Debug, Clone, PartialEq)]
pub struct ToolsCallResult {
    pub content: Vec<ToolOutputContentBlock>,
    pub is_error: bool,
    pub error_message: Option<String>,
    pub structured_content: Option<serde_json::Value>,
    pub metadata: Option<serde_json::Value>,
}

// ---- JSON form of the initialization payloads (field names in camelCase,
// ---- fields that are `None` left out)

pub open spec fn client_info_json(c: ClientInfo) -> JsonModel {
    JsonModel::Object(
        with_optional(
            with_optional(
                Map::empty().insert("name"@, JsonModel::Str(c.name@)),
                "title"@,
                opt_str_json(c.title),
            ),
            "version"@,
            opt_str_json(c.version),
        ),
    )
}

pub open spec fn server_info_json(c: ServerInfo) -> JsonModel {
    JsonModel::Object(
        with_optional(
            with_optional(
                Map::empty().insert("name"@, JsonModel::Str(c.name@)),
                "title"@,
                opt_str_json(c.title),
            ),
            "version"@,
            opt_str_json(c.version),
        ),
    )
}

pub open spec fn list_changed_json(list_changed: Option<bool>) -> JsonModel {
    JsonModel::Object(with_optional(Map::empty(), "listChanged"@, opt_bool_json(list_changed)))
}

pub open spec fn opt_list_changed_json<T>(o: Option<T>, list_changed: spec_fn(T) -> Option<bool>) -> Option<
    JsonModel,
> {
    match o {
        Some(c) => Some(list_changed_json(list_changed(c))),
        None => None,
    }
}

pub open spec fn client_capabilities_json(c: ClientCapabilities) -> JsonModel {
    JsonModel::Object(
        with_optional(
            with_optional(
                with_optional(
                    with_optional(
                        Map::empty(),
                        "roots"@,
                        opt_list_changed_json(c.roots, |r: ClientRootsCapability| r.list_changed),
                    ),
                    "sampling"@,
                    opt_json(c.sampling),
                ),
                "elicitation"@,
                opt_json(c.elicitation),
            ),
            "experimental"@,
            opt_json(c.experimental),
        ),
    )
}

pub open spec fn resources_capability_json(c: ServerResourcesCapability) -> JsonModel {
    JsonModel::Object(
        with_optional(
            with_optional(Map::empty(), "subscribe"@, opt_bool_json(c.subscribe)),
            "listChanged"@,
            opt_bool_json(c.list_changed),
        ),
    )
}

pub open spec fn server_capabilities_json(c: ServerCapabilities) -> JsonModel {
    JsonModel::Object(
        with_optional(
            with_optional(
                with_optional(
                    with_optional(
                        with_optional(
                            with_optional(Map::empty(), "logging"@, opt_json(c.logging)),
                            "prompts"@,
                            opt_list_changed_json(
                                c.prompts,
                                |p: ServerPromptsCapability| p.list_changed,
                            ),
                        ),
                        "resources"@,
                        match c.resources {
                            Some(r) => Some(resources_capability_json(r)),
                            None => None,
                        },
                    ),
                    "tools"@,
                    opt_list_changed_json(c.tools, |t: ServerToolsCapability| t.list_changed),
                ),
                "completions"@,
                opt_json(c.completions),
            ),
            "experimental"@,
            opt_json(c.experimental),
        ),
    )
}

pub open spec fn initialize_params_json(p: InitializeRequestParams) -> JsonModel {
    JsonModel::Object(
        with_optional(
            Map::empty().insert("protocolVersion"@, JsonModel::Str(p.protocol_version@)).insert(
                "capabilities"@,
                client_capabilities_json(p.capabilities),
            ),
            "clientInfo"@,
            match p.client_info {
                Some(c) => Some(client_info_json(c)),
                None => None,
            },
        ),
    )
}

pub open spec fn initialize_result_json(r: InitializeResult) -> JsonModel {
    JsonModel::Object(
        with_optional(
            with_optional(
                Map::empty().insert("protocolVersion"@, JsonModel::Str(r.protocol_version@)).insert(
                    "capabilities"@,
                    server_capabilities_json(r.capabilities),
                ),
                "serverInfo"@,
                match r.server_info {
                    Some(s) => Some(server_info_json(s)),
                    None => None,
                },
            ),
            "instructions"@,
            opt_str_json(r.instructions),
        ),
    )
}

fn list_changed_value(list_changed: Option<bool>) -> (r: serde_json::Value)
    ensures
        json_model(r) == list_changed_json(list_changed),
{
    let mut entries: Vec<(String, serde_json::Value)> = Vec::new();
    push_optional(&mut entries, "listChanged", opt_bool_value(list_changed));
    json_object(entries)
}

impl ClientInfo {
    pub fn to_value(&self) -> (r: serde_json::Value)
        ensures
            json_model(r) == client_info_json(*self),
    {
        let mut entries: Vec<(String, serde_json::Value)> = Vec::new();
        push_field(&mut entries, "name", json_string(self.name.clone()));
        push_optional(&mut entries, "title", opt_string_value(&self.title));
        push_optional(&mut entries, "version", opt_string_value(&self.version));
        json_object(entries)
    }
}

impl ServerInfo {
    pub fn to_value(&self) -> (r: serde_json::Value)
        ensures
            json_model(r) == server_info_json(*self),
    {
        let mut entries: Vec<(String, serde_json::Value)> = Vec::new();
        push_field(&mut entries, "name", json_string(self.name.clone()));
        push_optional(&mut entries, "title", opt_string_value(&self.title));
        push_optional(&mut entries, "version", opt_string_value(&self.version));
        json_object(entries)
    }
}

impl ClientCapabilities {
    pub fn to_value(&self) -> (r: serde_json::Value)
        ensures
            json_model(r) == client_capabilities_json(*self),
    {
        let mut entries: Vec<(String, serde_json::Value)> = Vec::new();
        let roots = match &self.roots {
            Some(c) => Some(list_changed_value(c.list_changed)),
            None => None,
        };
        push_optional(&mut entries, "roots", roots);
        push_optional(&mut entries, "sampling", opt_clone(&self.sampling));
        push_optional(&mut entries, "elicitation", opt_clone(&self.elicitation));
        push_optional(&mut entries, "experimental", opt_clone(&self.experimental));
        json_object(entries)
    }
}

impl ServerResourcesCapability {
    pub fn to_value(&self) -> (r: serde_json::Value)
        ensures
            json_model(r) == resources_capability_json(*self),
    {
        let mut entries: Vec<(String, serde_json::Value)> = Vec::new();
        push_optional(&mut entries, "subscribe", opt_bool_value(self.subscribe));
        push_optional(&mut entries, "listChanged", opt_bool_value(self.list_changed));
        json_object(entries)
    }
}

impl ServerCapabilities {
    pub fn to_value(&self) -> (r: serde_json::Value)
        ensures
            json_model(r) == server_capabilities_json(*self),
    {
        let mut entries: Vec<(String, serde_json::Value)> = Vec::new();
        push_optional(&mut entries, "logging", opt_clone(&self.logging));
        let prompts = match &self.prompts {
            Some(c) => Some(list_changed_value(c.list_changed)),
            None => None,
        };
        push_optional(&mut entries, "prompts", prompts);
        let resources = match &self.resources {
            Some(c) => Some(c.to_value()),
            None => None,
        };
        push_optional(&mut entries, "resources", resources);
        let tools = match &self.tools {
            Some(c) => Some(list_changed_value(c.list_changed)),
            None => None,
        };
        push_optional(&mut entries, "tools", tools);
        push_optional(&mut entries, "completions", opt_clone(&self.completions));
        push_optional(&mut entries, "experimental", opt_clone(&self.experimental));
        json_object(entries)
    }
}

impl InitializeRequestParams {
    pub fn to_value(&self) -> (r: serde_json::Value)
        ensures
            json_model(r) == initialize_params_json(*self),
    {
        let mut entries: Vec<(String, serde_json::Value)> = Vec::new();
        push_field(&mut entries, "protocolVersion", json_string(self.protocol_version.clone()));
        push_field(&mut entries, "capabilities", self.capabilities.to_value());
        let info = match &self.client_info {
            Some(c) => Some(c.to_value()),
            None => None,
        };
        push_optional(&mut entries, "clientInfo", info);
        json_object(entries)
    }
}

impl InitializeResult {
    pub fn to_value(&self) -> (r: serde_json::Value)
        ensures
            json_model(r) == initialize_result_json(*self),
    {
        let mut entries: Vec<(String, serde_json::Value)> = Vec::new();
        push_field(&mut entries, "protocolVersion", json_string(self.protocol_version.clone()));
        push_field(&mut entries, "capabilities", self.capabilities.to_value());
        let info = match &self.server_info {
            Some(s) => Some(s.to_value()),
            None => None,
        };
        push_optional(&mut entries, "serverInfo", info);
        push_optional(&mut entries, "instructions", opt_string_value(&self.instructions));
        json_object(entries)
    }
}

// ---- Laws: each payload's JSON holds each of its fields under its own
// ---- camelCase key, exactly when the field has a value, and nothing else

/// The text of an optional string as JSON.
pub open spec fn text_field(o: Option<String>) -> Option<JsonModel> {
    match o {
        Some(t) => Some(JsonModel::Str(t@)),
        None => None,
    }
}

/// The value of an optional flag as JSON.
pub open spec fn flag_field(o: Option<bool>) -> Option<JsonModel> {
    match o {
        Some(b) => Some(JsonModel::Bool(b)),
        None => None,
    }
}

/// The document an optional JSON value holds.
pub open spec fn value_field(o: Option<serde_json::Value>) -> Option<JsonModel> {
    match o {
        Some(v) => Some(json_model(v)),
        None => None,
    }
}

proof fn lemma_payload_keys_distinct()
    ensures
        "name"@ != "title"@,
        "name"@ != "version"@,
        "title"@ != "version"@,
        "roots"@ != "sampling"@,
        "roots"@ != "elicitation"@,
        "roots"@ != "experimental"@,
        "sampling"@ != "elicitation"@,
        "sampling"@ != "experimental"@,
        "elicitation"@ != "experimental"@,
        "subscribe"@ != "listChanged"@,
        "logging"@ != "prompts"@,
        "logging"@ != "resources"@,
        "logging"@ != "tools"@,
        "logging"@ != "completions"@,
        "logging"@ != "experimental"@,
        "prompts"@ != "resources"@,
        "prompts"@ != "tools"@,
        "prompts"@ != "completions"@,
        "prompts"@ != "experimental"@,
        "resources"@ != "tools"@,
        "resources"@ != "completions"@,
        "resources"@ != "experimental"@,
        "tools"@ != "completions"@,
        "tools"@ != "experimental"@,
        "completions"@ != "experimental"@,
        "protocolVersion"@ != "capabilities"@,
        "protocolVersion"@ != "clientInfo"@,
        "protocolVersion"@ != "serverInfo"@,
        "protocolVersion"@ != "instructions"@,
        "capabilities"@ != "clientInfo"@,
        "capabilities"@ != "serverInfo"@,
        "capabilities"@ != "instructions"@,
        "serverInfo"@ != "instructions"@,
{
    reveal_strlit("name");
    reveal_strlit("title");
    reveal_strlit("version");
    reveal_strlit("roots");
    reveal_strlit("sampling");
    reveal_strlit("elicitation");
    reveal_strlit("experimental");
    reveal_strlit("subscribe");
    reveal_strlit("listChanged");
    reveal_strlit("logging");
    reveal_strlit("prompts");
    reveal_strlit("resources");
    reveal_strlit("tools");
    reveal_strlit("completions");
    reveal_strlit("protocolVersion");
    reveal_strlit("capabilities");
    reveal_strlit("clientInfo");
    reveal_strlit("serverInfo");
    reveal_strlit("instructions");
    assert("name"@[0] != "title"@[0]);
    assert("name"@[0] != "version"@[0]);
    assert("title"@[0] != "version"@[0]);
    assert("roots"@[0] != "sampling"@[0]);
    assert("roots"@[0] != "elicitation"@[0]);
    assert("roots"@[0] != "experimental"@[0]);
    assert("sampling"@[0] != "elicitation"@[0]);
    assert("sampling"@[0] != "experimental"@[0]);
    assert("elicitation"@[1] != "experimental"@[1]);
    assert("subscribe"@[0] != "listChanged"@[0]);
    assert("logging"@[0] != "prompts"@[0]);
    assert("logging"@[0] != "resources"@[0]);
    assert("logging"@[0] != "tools"@[0]);
    assert("logging"@[0] != "completions"@[0]);
    assert("logging"@[0] != "experimental"@[0]);
    assert("prompts"@[0] != "resources"@[0]);
    assert("prompts"@[0] != "tools"@[0]);
    assert("prompts"@[0] != "completions"@[0]);
    assert("prompts"@[0] != "experimental"@[0]);
    assert("resources"@[0] != "tools"@[0]);
    assert("resources"@[0] != "completions"@[0]);
    assert("resources"@[0] != "experimental"@[0]);
    assert("tools"@[0] != "completions"@[0]);
    assert("tools"@[0] != "experimental"@[0]);
    assert("completions"@[0] != "experimental"@[0]);
    assert("protocolVersion"@[0] != "capabilities"@[0]);
    assert("protocolVersion"@[0] != "clientInfo"@[0]);
    assert("protocolVersion"@[0] != "serverInfo"@[0]);
    assert("protocolVersion"@[0] != "instructions"@[0]);
    assert("capabilities"@[1] != "clientInfo"@[1]);
    assert("capabilities"@[0] != "serverInfo"@[0]);
    assert("capabilities"@[0] != "instructions"@[0]);
    assert("serverInfo"@[0] != "instructions"@[0]);
}

/// A client's or server's description as JSON: `name` always, `title` and
/// `version` each exactly when it is given (one does not depend on the
/// other), and no other key.
pub proof fn law_client_info_fields(c: ClientInfo)
    ensures
        client_info_json(c) is Object,
        field_holds(client_info_json(c)->Object_0, "name"@, Some(JsonModel::Str(c.name@))),
        field_holds(client_info_json(c)->Object_0, "title"@, text_field(c.title)),
        field_holds(client_info_json(c)->Object_0, "version"@, text_field(c.version)),
        forall|k: Seq<char>| #[trigger] client_info_json(c)->Object_0.dom().contains(k) ==> k
            == "name"@ || k == "title"@ || k == "version"@,
{
    lemma_payload_keys_distinct();
}

/// See `law_client_info_fields`: the same holds of a server's description.
pub proof fn law_server_info_fields(c: ServerInfo)
    ensures
        server_info_json(c) is Object,
        field_holds(server_info_json(c)->Object_0, "name"@, Some(JsonModel::Str(c.name@))),
        field_holds(server_info_json(c)->Object_0, "title"@, text_field(c.title)),
        field_holds(server_info_json(c)->Object_0, "version"@, text_field(c.version)),
        forall|k: Seq<char>| #[trigger] server_info_json(c)->Object_0.dom().contains(k) ==> k
            == "name"@ || k == "title"@ || k == "version"@,
{
    lemma_payload_keys_distinct();
}

/// A `listChanged` capability as JSON: the flag under `listChanged` when
/// it is given, and no other key.
pub proof fn law_list_changed_fields(list_changed: Option<bool>)
    ensures
        list_changed_json(list_changed) is Object,
        field_holds(list_changed_json(list_changed)->Object_0, "listChanged"@, flag_field(list_changed)),
        forall|k: Seq<char>| #[trigger] list_changed_json(list_changed)->Object_0.dom().contains(k)
            ==> k == "listChanged"@,
{
}

/// What a client can do, as JSON: each capability under its own key exactly
/// when it is given (`roots` as its `listChanged` object; `sampling`,
/// `elicitation` and `experimental` as given), and no other key.
pub proof fn law_client_capabilities_fields(c: ClientCapabilities)
    ensures
        client_capabilities_json(c) is Object,
        field_holds(
            client_capabilities_json(c)->Object_0,
            "roots"@,
            match c.roots {
                Some(r) => Some(list_changed_json(r.list_changed)),
                None => None,
            },
        ),
        field_holds(client_capabilities_json(c)->Object_0, "sampling"@, value_field(c.sampling)),
        field_holds(client_capabilities_json(c)->Object_0, "elicitation"@, value_field(c.elicitation)),
        field_holds(client_capabilities_json(c)->Object_0, "experimental"@, value_field(c.experimental)),
        forall|k: Seq<char>| #[trigger] client_capabilities_json(c)->Object_0.dom().contains(k) ==> k
            == "roots"@ || k == "sampling"@ || k == "elicitation"@ || k == "experimental"@,
{
    lemma_payload_keys_distinct();
}

/// A server's resources capability as JSON: `subscribe` and `listChanged`,
/// each exactly when given, and no other key.
pub proof fn law_resources_capability_fields(c: ServerResourcesCapability)
    ensures
        resources_capability_json(c) is Object,
        field_holds(resources_capability_json(c)->Object_0, "subscribe"@, flag_field(c.subscribe)),
        field_holds(resources_capability_json(c)->Object_0, "listChanged"@, flag_field(c.list_changed)),
        forall|k: Seq<char>| #[trigger] resources_capability_json(c)->Object_0.dom().contains(k) ==> k
            == "subscribe"@ || k == "listChanged"@,
{
    lemma_payload_keys_distinct();
}

/// What a server can do, as JSON: each capability under its own key exactly
/// when it is given, and no other key.
pub proof fn law_server_capabilities_fields(c: ServerCapabilities)
    ensures
        server_capabilities_json(c) is Object,
        field_holds(server_capabilities_json(c)->Object_0, "logging"@, value_field(c.logging)),
        field_holds(
            server_capabilities_json(c)->Object_0,
            "prompts"@,
            match c.prompts {
                Some(p) => Some(list_changed_json(p.list_changed)),
                None => None,
            },
        ),
        field_holds(
            server_capabilities_json(c)->Object_0,
            "resources"@,
            match c.resources {
                Some(r) => Some(resources_capability_json(r)),
                None => None,
            },
        ),
        field_holds(
            server_capabilities_json(c)->Object_0,
            "tools"@,
            match c.tools {
                Some(t) => Some(list_changed_json(t.list_changed)),
                None => None,
            },
        ),
        field_holds(server_capabilities_json(c)->Object_0, "completions"@, value_field(c.completions)),
        field_holds(server_capabilities_json(c)->Object_0, "experimental"@, value_field(c.experimental)),
        forall|k: Seq<char>| #[trigger] server_capabilities_json(c)->Object_0.dom().contains(k) ==> k
            == "logging"@ || k == "prompts"@ || k == "resources"@ || k == "tools"@ || k
            == "completions"@ || k == "experimental"@,
{
    lemma_payload_keys_distinct();
}

/// The parameters of `initialize` as JSON: `protocolVersion` and
/// `capabilities` always, `clientInfo` exactly when given, and no other key.
pub proof fn law_initialize_params_fields(p: InitializeRequestParams)
    ensures
        initialize_params_json(p) is Object,
        field_holds(
            initialize_params_json(p)->Object_0,
            "protocolVersion"@,
            Some(JsonModel::Str(p.protocol_version@)),
        ),
        field_holds(
            initialize_params_json(p)->Object_0,
            "capabilities"@,
            Some(client_capabilities_json(p.capabilities)),
        ),
        field_holds(
            initialize_params_json(p)->Object_0,
            "clientInfo"@,
            match p.client_info {
                Some(c) => Some(client_info_json(c)),
                None => None,
            },
        ),
        forall|k: Seq<char>| #[trigger] initialize_params_json(p)->Object_0.dom().contains(k) ==> k
            == "protocolVersion"@ || k == "capabilities"@ || k == "clientInfo"@,
{
    lemma_payload_keys_distinct();
}

/// The result of `initialize` as JSON: `protocolVersion` and `capabilities`
/// always, `serverInfo` and `instructions` exactly when given, and no other
/// key.
pub proof fn law_initialize_result_fields(r: InitializeResult)
    ensures
        initialize_result_json(r) is Object,
        field_holds(
            initialize_result_json(r)->Object_0,
            "protocolVersion"@,
            Some(JsonModel::Str(r.protocol_version@)),
        ),
        field_holds(
            initialize_result_json(r)->Object_0,
            "capabilities"@,
            Some(server_capabilities_json(r.capabilities)),
        ),
        field_holds(
            initialize_result_json(r)->Object_0,
            "serverInfo"@,
            match r.server_info {
                Some(s) => Some(server_info_json(s)),
                None => None,
            },
        ),
        field_holds(initialize_result_json(r)->Object_0, "instructions"@, text_field(r.instructions)),
        forall|k: Seq<char>| #[trigger] initialize_result_json(r)->Object_0.dom().contains(k) ==> k
            == "protocolVersion"@ || k == "capabilities"@ || k == "serverInfo"@ || k
            == "instructions"@,
{
    lemma_payload_keys_distinct();
}

} // verus!
