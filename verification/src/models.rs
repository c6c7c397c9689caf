//! Plain data carried between the decoder, the registry and the client.

use vstd::prelude::*;

verus! {

/// Token usage of one turn, captured from the terminal result record.
///
/// `input_tokens` is the *total* billed input: raw input tokens plus
/// cache-write plus cache-read tokens.
#[derive(Clone, Copy, Debug, PartialEq, Eq, Structural)]
pub struct UsageInfo {
    pub input_tokens: u64,
    pub output_tokens: u64,
}

/// One message of a stored chat transcript.
pub struct ChatMessage {
    pub role: String,
    pub content: String,
    pub timestamp: String,
    pub model: String,
}

/// One stored chat transcript, keyed by `id`.
pub struct ChatSession {
    pub id: String,
    pub title: String,
    pub messages: Vec<ChatMessage>,
    pub created_at: String,
    pub model: String,
}

/// The phase a tool-activity notification reports.
#[derive(Clone, Copy, Debug, PartialEq, Eq, Structural)]
pub enum ToolPhase {
    /// Auto-approved: the tool is about to run.
    Start,
    /// The reserved question-asking tool wants the user's answer.
    Ask,
    /// The tool is not pre-approved and wants the user's approval.
    Approval,
    /// A result of an executed tool; the "result" phase on the wire.
    Outcome,
}

/// One tool-activity notification.
pub struct ToolActivity {
    pub tool_name: String,
    pub tool_id: String,
    pub phase: ToolPhase,
    pub input: Option<serde_json::Value>,
    pub result: Option<String>,
    pub is_error: Option<bool>,
}

/// One notification pushed to the client. Exactly one of the optional
/// parts is meaningful per chunk; the rest stay empty.
pub struct StreamChunk {
    pub content: String,
    pub done: bool,
    pub session_id: Option<String>,
    pub usage: Option<UsageInfo>,
    pub tool: Option<ToolActivity>,
}

/// The view of an optional string.
pub open spec fn view_opt_string(o: Option<String>) -> Option<Seq<char>> {
    match o {
        Option::Some(s) => Option::Some(s@),
        Option::None => Option::None,
    }
}

/// A text-fragment notification carrying exactly `text`.
pub open spec fn is_text_chunk(c: StreamChunk, text: Seq<char>) -> bool {
    &&& c.content@ == text
    &&& !c.done
    &&& c.session_id is None
    &&& c.usage is None
    &&& c.tool is None
}

/// A session-identifier announcement carrying exactly `sid`.
pub open spec fn is_session_chunk(c: StreamChunk, sid: Seq<char>) -> bool {
    &&& c.content@ == Seq::<char>::empty()
    &&& !c.done
    &&& (c.session_id matches Some(s) && s@ == sid)
    &&& c.usage is None
    &&& c.tool is None
}

/// A tool-activity notification with the given name, identifier, phase,
/// whether structured input is attached, result payload and error flag.
pub open spec fn is_tool_chunk(
    c: StreamChunk,
    name: Seq<char>,
    id: Seq<char>,
    phase: ToolPhase,
    has_input: bool,
    result: Option<Seq<char>>,
    is_error: Option<bool>,
) -> bool {
    &&& c.content@ == Seq::<char>::empty()
    &&& !c.done
    &&& c.session_id is None
    &&& c.usage is None
    &&& (c.tool matches Some(t) && t.tool_name@ == name && t.tool_id@ == id && t.phase == phase
        && (t.input is Some <==> has_input) && view_opt_string(t.result) == result && t.is_error
        == is_error)
}

/// The one completion notification of a turn, carrying the accumulated
/// usage counters, if any were observed.
pub open spec fn is_done_chunk(c: StreamChunk, usage: Option<UsageInfo>) -> bool {
    &&& c.content@ == Seq::<char>::empty()
    &&& c.done
    &&& c.session_id is None
    &&& c.usage == usage
    &&& c.tool is None
}

} // verus!
