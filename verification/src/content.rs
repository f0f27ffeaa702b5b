use vstd::prelude::*;
use crate::json::JsonValue;

verus! {

/// Who authored a turn of the conversation.
pub enum Role {
    Operator,
    Model,
}

/// One unit of turn content. `Image` and `Document` are opaque to the
/// engine: their `source` is carried through untouched, only echoed, never
/// interpreted.
pub enum Fragment {
    Text(String),
    Image { source: String },
    Document { source: String },
    ToolRequest { id: String, name: String, input: JsonValue },
    ToolResult { request_id: String, content: Vec<Fragment>, is_error: bool },
}

/// One contiguous block of content authored by a single role. Immutable
/// once appended to the transcript.
pub struct Turn {
    pub role: Role,
    pub fragments: Vec<Fragment>,
}

} // verus!
