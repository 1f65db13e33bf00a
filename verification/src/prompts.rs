//! The result of `prompts/get`: the messages that a prompt expands to.

use crate::types::Resource;
use std::collections::HashMap;
use vstd::prelude::*;

verus! {

/// Who speaks a prompt message.
#[derive(Debug, Clone, Copy, PartialEq, Eq)]
pub enum PromptMessageRole {
    User,
    Assistant,
}

#[derive(Debug, Clone, PartialEq)]
pub struct PromptsGetResult {
    pub description: Option<String>,
    pub messages: Vec<PromptMessage>,
}

#[derive(Debug, Clone, PartialEq)]
pub struct PromptMessage {
    pub role: PromptMessageRole,
    pub content: PromptMessageContent,
    pub annotations: Option<serde_json::Value>,
}

#[derive(Debug, Clone, PartialEq)]
pub enum PromptMessageContent {
    Text { text: String },
    Image { data: String, mime_type: String },
    Audio { data: String, mime_type: String },
    Resource { resource: Resource, extra_fields: HashMap<String, serde_json::Value> },
}

} // verus!
