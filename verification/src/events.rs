//! Decoded streaming events: one parsed line of the agent's output, plus
//! the usage accounting taken from the terminal result record.

use vstd::prelude::*;
use crate::models::UsageInfo;
use crate::models::view_opt_string;

verus! {

/// One tool-result item carried by a result record line.
pub struct ToolResultItem {
    pub tool_name: String,
    pub tool_id: String,
    pub content: String,
    pub is_error: bool,
}

/// The usage counters of the terminal turn-result record. A field the
/// record does not carry is `None` and counts as zero.
#[derive(Clone, Copy, Debug, PartialEq, Eq)]
pub struct UsageFields {
    pub input_tokens: Option<u64>,
    pub cache_creation: Option<u64>,
    pub cache_read: Option<u64>,
    pub output_tokens: Option<u64>,
}

/// The shape of one decoded line.
pub enum EventKind {
    /// A fragment of generated text.
    TextDelta { text: String },
    /// A fragment of a tool invocation's input; never individually valid
    /// structured data.
    InputFragment { fragment: String },
    /// A tool invocation opens, with its correlation index.
    ToolStart { name: String, id: String, index: Option<u64> },
    /// A tool invocation's input is complete.
    ToolStop { index: Option<u64> },
    /// Results of an executed tool.
    ToolResults { items: Vec<ToolResultItem> },
    /// The terminal turn-result record's usage counters.
    TurnUsage { fields: UsageFields },
    /// Any other well-formed record; carries no information the decoder
    /// needs.
    Other,
}

/// One decoded line: any line may announce the session identifier,
/// whatever its shape.
pub struct AgentEvent {
    pub session_id: Option<String>,
    pub kind: EventKind,
}

/// Mathematical image of `ToolResultItem`.
pub struct SpecResultItem {
    pub tool_name: Seq<char>,
    pub tool_id: Seq<char>,
    pub content: Seq<char>,
    pub is_error: bool,
}

/// Mathematical image of `EventKind`.
pub enum SpecEventKind {
    TextDelta { text: Seq<char> },
    InputFragment { fragment: Seq<char> },
    ToolStart { name: Seq<char>, id: Seq<char>, index: Option<u64> },
    ToolStop { index: Option<u64> },
    ToolResults { items: Seq<SpecResultItem> },
    TurnUsage { fields: UsageFields },
    Other,
}

/// Mathematical image of `AgentEvent`.
pub struct SpecEvent {
    pub session_id: Option<Seq<char>>,
    pub kind: SpecEventKind,
}

impl View for ToolResultItem {
    type V = SpecResultItem;

    open spec fn view(&self) -> SpecResultItem {
        SpecResultItem {
            tool_name: self.tool_name@,
            tool_id: self.tool_id@,
            content: self.content@,
            is_error: self.is_error,
        }
    }
}

impl View for EventKind {
    type V = SpecEventKind;

    open spec fn view(&self) -> SpecEventKind {
        match self {
            EventKind::TextDelta { text } => SpecEventKind::TextDelta { text: text@ },
            EventKind::InputFragment { fragment } => (SpecEventKind::InputFragment {
                fragment: fragment@,
            }),
            EventKind::ToolStart { name, id, index } => (SpecEventKind::ToolStart {
                name: name@,
                id: id@,
                index: *index,
            }),
            EventKind::ToolStop { index } => SpecEventKind::ToolStop { index: *index },
            EventKind::ToolResults { items } => (SpecEventKind::ToolResults {
                items: items@.map_values(|it: ToolResultItem| it@),
            }),
            EventKind::TurnUsage { fields } => SpecEventKind::TurnUsage { fields: *fields },
            EventKind::Other => SpecEventKind::Other,
        }
    }
}

impl View for AgentEvent {
    type V = SpecEvent;

    open spec fn view(&self) -> SpecEvent {
        SpecEvent { session_id: view_opt_string(self.session_id), kind: self.kind@ }
    }
}

/// An absent usage field counts as zero.
pub open spec fn zero_if_absent(o: Option<u64>) -> int {
    match o {
        Option::Some(v) => v as int,
        Option::None => 0,
    }
}

/// The billed input-token total: raw input plus cache-write plus
/// cache-read. All three represent consumption; they are summed, not
/// chosen.
pub open spec fn spec_input_total(f: UsageFields) -> int {
    zero_if_absent(f.input_tokens) + zero_if_absent(f.cache_creation) + zero_if_absent(
        f.cache_read,
    )
}

/// Saturation of a non-negative integer at the `u64` maximum.
pub open spec fn sat_u64(x: int) -> u64
    recommends
        x >= 0,
{
    if x <= u64::MAX {
        x as u64
    } else {
        u64::MAX
    }
}

/// The usage counters a turn stores for a turn-result record.
pub open spec fn spec_usage(f: UsageFields) -> UsageInfo {
    UsageInfo {
        input_tokens: sat_u64(spec_input_total(f)),
        output_tokens: zero_if_absent(f.output_tokens) as u64,
    }
}

/// Computes the turn's usage counters: input tokens are the sum of raw
/// input, cache-write and cache-read counts, absent fields counting as
/// zero; the sum saturates at the `u64` maximum.
pub fn usage_of_fields(f: &UsageFields) -> (u: UsageInfo)
    ensures
        u == spec_usage(*f),
        spec_input_total(*f) <= u64::MAX ==> u.input_tokens == spec_input_total(*f),
        u.output_tokens == zero_if_absent(f.output_tokens),
{
    let a = f.input_tokens.unwrap_or(0);
    let b = f.cache_creation.unwrap_or(0);
    let c = f.cache_read.unwrap_or(0);
    let ab = if a <= u64::MAX - b {
        a + b
    } else {
        u64::MAX
    };
    let abc = if ab <= u64::MAX - c {
        ab + c
    } else {
        u64::MAX
    };
    UsageInfo { input_tokens: abc, output_tokens: f.output_tokens.unwrap_or(0) }
}

} // verus!
