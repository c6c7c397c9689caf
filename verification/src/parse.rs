//! Classification of one raw output line into a decoded event.
//!
//! `classify_line` states, over the named results of the JSON boundary,
//! exactly which event each parsed line becomes — the project's own
//! record grammar — and `parse_line` is proved to compute it.

use vstd::prelude::*;
use crate::events::AgentEvent;
use crate::events::EventKind;
use crate::events::SpecEvent;
use crate::events::SpecEventKind;
use crate::events::SpecResultItem;
use crate::events::ToolResultItem;
use crate::events::UsageFields;
use crate::jsonval::bool_of;
use crate::jsonval::items_of;
use crate::jsonval::json_as_array;
use crate::jsonval::json_as_bool;
use crate::jsonval::json_as_str;
use crate::jsonval::json_as_u64;
use crate::jsonval::json_get;
use crate::jsonval::member_of;
use crate::jsonval::parse_json;
use crate::jsonval::parsed_of;
use crate::jsonval::str_of;
use crate::jsonval::u64_of;
use crate::text::is_lit;

verus! {

/// The string member `key` of `v`, when `v` is an object that has one.
pub open spec fn spec_str_field(v: serde_json::Value, key: Seq<char>) -> Option<Seq<char>> {
    match member_of(v, key) {
        Option::Some(f) => str_of(f),
        Option::None => Option::None,
    }
}

/// The unsigned integer member `key` of `v`, when `v` is an object that
/// has one.
pub open spec fn spec_u64_field(v: serde_json::Value, key: Seq<char>) -> Option<u64> {
    match member_of(v, key) {
        Option::Some(f) => u64_of(f),
        Option::None => Option::None,
    }
}

/// The shape a partial-message stream record classifies to.
pub open spec fn spec_classify_stream(v: serde_json::Value) -> SpecEventKind {
    match member_of(v, "event"@) {
        Option::None => SpecEventKind::Other,
        Option::Some(event) => {
            let event_type = spec_str_field(event, "type"@);
            if event_type == Option::Some("content_block_delta"@) {
                match member_of(event, "delta"@) {
                    Option::None => SpecEventKind::Other,
                    Option::Some(delta) => {
                        let delta_type = spec_str_field(delta, "type"@);
                        if delta_type == Option::Some("text_delta"@) {
                            match spec_str_field(delta, "text"@) {
                                Option::Some(text) => SpecEventKind::TextDelta { text },
                                Option::None => SpecEventKind::Other,
                            }
                        } else if delta_type == Option::Some("input_json_delta"@) {
                            match spec_str_field(delta, "partial_json"@) {
                                Option::Some(fragment) => (SpecEventKind::InputFragment {
                                    fragment,
                                }),
                                Option::None => SpecEventKind::Other,
                            }
                        } else {
                            SpecEventKind::Other
                        }
                    },
                }
            } else if event_type == Option::Some("content_block_start"@) {
                match member_of(event, "content_block"@) {
                    Option::None => SpecEventKind::Other,
                    Option::Some(block) => {
                        if spec_str_field(block, "type"@) == Option::Some("tool_use"@) {
                            SpecEventKind::ToolStart {
                                name: match spec_str_field(block, "name"@) {
                                    Option::Some(n) => n,
                                    Option::None => "unknown"@,
                                },
                                id: match spec_str_field(block, "id"@) {
                                    Option::Some(i) => i,
                                    Option::None => Seq::empty(),
                                },
                                index: spec_u64_field(event, "index"@),
                            }
                        } else {
                            SpecEventKind::Other
                        }
                    },
                }
            } else if event_type == Option::Some("content_block_stop"@) {
                SpecEventKind::ToolStop { index: spec_u64_field(event, "index"@) }
            } else {
                SpecEventKind::Other
            }
        },
    }
}

/// The best-effort tool name of a result-carrying record: looked up from
/// the record's adjacent field, defaulting to a generic label.
pub open spec fn spec_result_tool_name(v: serde_json::Value) -> Seq<char> {
    match member_of(v, "tool_use_result"@) {
        Option::Some(r) => match spec_str_field(r, "tool_name"@) {
            Option::Some(n) => n,
            Option::None => "Tool"@,
        },
        Option::None => "Tool"@,
    }
}

/// The tool-result items among `items`: one per array item of shape
/// `tool_result`, in order, all under the record's tool name.
pub open spec fn spec_result_items(items: Seq<serde_json::Value>, name: Seq<char>) -> Seq<
    SpecResultItem,
>
    decreases items.len(),
{
    if items.len() == 0 {
        Seq::empty()
    } else {
        let last = items.last();
        spec_result_items(items.drop_last(), name) + (if spec_str_field(last, "type"@)
            == Option::Some("tool_result"@) {
            seq![
                SpecResultItem {
                    tool_name: name,
                    tool_id: match spec_str_field(last, "tool_use_id"@) {
                        Option::Some(t) => t,
                        Option::None => Seq::empty(),
                    },
                    content: match spec_str_field(last, "content"@) {
                        Option::Some(c) => c,
                        Option::None => Seq::empty(),
                    },
                    is_error: match member_of(last, "is_error"@) {
                        Option::Some(e) => match bool_of(e) {
                            Option::Some(b) => b,
                            Option::None => false,
                        },
                        Option::None => false,
                    },
                },
            ]
        } else {
            Seq::empty()
        })
    }
}

/// The shape a result-carrying record classifies to.
pub open spec fn spec_classify_user(v: serde_json::Value) -> SpecEventKind {
    match member_of(v, "message"@) {
        Option::None => SpecEventKind::Other,
        Option::Some(m) => match member_of(m, "content"@) {
            Option::None => SpecEventKind::Other,
            Option::Some(c) => match items_of(c) {
                Option::None => SpecEventKind::Other,
                Option::Some(arr) => (SpecEventKind::ToolResults {
                    items: spec_result_items(arr, spec_result_tool_name(v)),
                }),
            },
        },
    }
}

/// The shape the terminal turn-result record classifies to; a field the
/// usage object does not carry stays `None`.
pub open spec fn spec_classify_result(v: serde_json::Value) -> SpecEventKind {
    match member_of(v, "usage"@) {
        Option::Some(usage) => SpecEventKind::TurnUsage {
            fields: UsageFields {
                input_tokens: spec_u64_field(usage, "input_tokens"@),
                cache_creation: spec_u64_field(usage, "cache_creation_input_tokens"@),
                cache_read: spec_u64_field(usage, "cache_read_input_tokens"@),
                output_tokens: spec_u64_field(usage, "output_tokens"@),
            },
        },
        Option::None => SpecEventKind::Other,
    }
}

/// The event a parsed line classifies to: any line may announce the
/// session identifier; the shape follows the top-level tag, and a record
/// that omits the tag but carries an `event` member is still a stream
/// event.
pub open spec fn classify_line(v: serde_json::Value) -> SpecEvent {
    SpecEvent {
        session_id: spec_str_field(v, "session_id"@),
        kind: {
            let line_type = spec_str_field(v, "type"@);
            if line_type == Option::Some("stream_event"@) {
                spec_classify_stream(v)
            } else if line_type == Option::Some("user"@) {
                spec_classify_user(v)
            } else if line_type == Option::Some("result"@) {
                spec_classify_result(v)
            } else if line_type is None {
                spec_classify_stream(v)
            } else {
                SpecEventKind::Other
            }
        },
    }
}

/// The string member `key` of `v`, when `v` is an object that has one.
fn get_str_field(v: &serde_json::Value, key: &str) -> (r: Option<String>)
    ensures
        crate::models::view_opt_string(r) == spec_str_field(*v, key@),
{
    match json_get(v, key) {
        Option::Some(f) => json_as_str(f),
        Option::None => Option::None,
    }
}

/// The unsigned integer member `key` of `v`, when `v` is an object that
/// has one.
fn get_u64_field(v: &serde_json::Value, key: &str) -> (r: Option<u64>)
    ensures
        r == spec_u64_field(*v, key@),
{
    match json_get(v, key) {
        Option::Some(f) => json_as_u64(f),
        Option::None => Option::None,
    }
}

/// Whether the optional string `o` holds exactly `lit`.
fn opt_is(o: &Option<String>, lit: &str) -> (r: bool)
    ensures
        r == (crate::models::view_opt_string(*o) == Option::Some(lit@)),
{
    match o {
        Option::Some(s) => is_lit(s, lit),
        Option::None => false,
    }
}

fn classify_stream_event(v: &serde_json::Value) -> (r: EventKind)
    ensures
        r@ == spec_classify_stream(*v),
{
    let event = match json_get(v, "event") {
        Option::Some(e) => e,
        Option::None => {
            return EventKind::Other;
        },
    };
    let event_type = get_str_field(event, "type");
    if opt_is(&event_type, "content_block_delta") {
        let delta = match json_get(event, "delta") {
            Option::Some(d) => d,
            Option::None => {
                return EventKind::Other;
            },
        };
        let delta_type = get_str_field(delta, "type");
        if opt_is(&delta_type, "text_delta") {
            match get_str_field(delta, "text") {
                Option::Some(text) => EventKind::TextDelta { text },
                Option::None => EventKind::Other,
            }
        } else if opt_is(&delta_type, "input_json_delta") {
            match get_str_field(delta, "partial_json") {
                Option::Some(fragment) => EventKind::InputFragment { fragment },
                Option::None => EventKind::Other,
            }
        } else {
            EventKind::Other
        }
    } else if opt_is(&event_type, "content_block_start") {
        let block = match json_get(event, "content_block") {
            Option::Some(b) => b,
            Option::None => {
                return EventKind::Other;
            },
        };
        let block_type = get_str_field(block, "type");
        if opt_is(&block_type, "tool_use") {
            let name = match get_str_field(block, "name") {
                Option::Some(n) => n,
                Option::None => "unknown".to_owned(),
            };
            let id = match get_str_field(block, "id") {
                Option::Some(i) => i,
                Option::None => String::new(),
            };
            let index = get_u64_field(event, "index");
            EventKind::ToolStart { name, id, index }
        } else {
            EventKind::Other
        }
    } else if opt_is(&event_type, "content_block_stop") {
        EventKind::ToolStop { index: get_u64_field(event, "index") }
    } else {
        EventKind::Other
    }
}

fn classify_tool_results(v: &serde_json::Value) -> (r: EventKind)
    ensures
        r@ == spec_classify_user(*v),
{
    let content = match json_get(v, "message") {
        Option::Some(m) => match json_get(m, "content") {
            Option::Some(c) => c,
            Option::None => {
                return EventKind::Other;
            },
        },
        Option::None => {
            return EventKind::Other;
        },
    };
    let arr = match json_as_array(content) {
        Option::Some(a) => a,
        Option::None => {
            return EventKind::Other;
        },
    };
    let tool_name = match json_get(v, "tool_use_result") {
        Option::Some(res) => match get_str_field(res, "tool_name") {
            Option::Some(n) => n,
            Option::None => "Tool".to_owned(),
        },
        Option::None => "Tool".to_owned(),
    };
    let ghost name = tool_name@;
    let mut items: Vec<ToolResultItem> = Vec::new();
    let mut i: usize = 0;
    while i < arr.len()
        invariant
            i <= arr@.len(),
            name == spec_result_tool_name(*v),
            tool_name@ == name,
            items@.map_values(|it: ToolResultItem| it@) == spec_result_items(
                arr@.take(i as int),
                name,
            ),
        decreases arr@.len() - i,
    {
        let ghost items_before = items@;
        let item = &arr[i];
        let item_type = get_str_field(item, "type");
        if opt_is(&item_type, "tool_result") {
            let tool_id = match get_str_field(item, "tool_use_id") {
                Option::Some(t) => t,
                Option::None => String::new(),
            };
            let item_content = match get_str_field(item, "content") {
                Option::Some(c) => c,
                Option::None => String::new(),
            };
            let is_error = match json_get(item, "is_error") {
                Option::Some(e) => match json_as_bool(e) {
                    Option::Some(b) => b,
                    Option::None => false,
                },
                Option::None => false,
            };
            items.push(
                ToolResultItem {
                    tool_name: tool_name.clone(),
                    tool_id,
                    content: item_content,
                    is_error,
                },
            );
        }
        i += 1;
        proof {
            assert(arr@.take(i as int).drop_last() =~= arr@.take(i as int - 1));
            assert(arr@.take(i as int).last() == arr@[i as int - 1]);
            assert(items@.map_values(|it: ToolResultItem| it@) =~= spec_result_items(
                arr@.take(i as int),
                name,
            ));
        }
    }
    proof {
        assert(arr@.take(arr@.len() as int) =~= arr@);
    }
    EventKind::ToolResults { items }
}

fn classify_turn_usage(v: &serde_json::Value) -> (r: EventKind)
    ensures
        r@ == spec_classify_result(*v),
{
    match json_get(v, "usage") {
        Option::Some(usage) => EventKind::TurnUsage {
            fields: UsageFields {
                input_tokens: get_u64_field(usage, "input_tokens"),
                cache_creation: get_u64_field(usage, "cache_creation_input_tokens"),
                cache_read: get_u64_field(usage, "cache_read_input_tokens"),
                output_tokens: get_u64_field(usage, "output_tokens"),
            },
        },
        Option::None => EventKind::Other,
    }
}

/// Parses one raw output line into a decoded event; `None` exactly when
/// the line is not well-formed JSON (such lines are skipped, never
/// fatal); otherwise the event the line classifies to.
pub fn parse_line(line: &String) -> (r: Option<AgentEvent>)
    ensures
        match r {
            Option::Some(ev) => (parsed_of(line@) matches Some(v) && ev@ == classify_line(v)),
            Option::None => parsed_of(line@) is None,
        },
{
    let v = match parse_json(line.as_str()) {
        Option::Some(v) => v,
        Option::None => {
            return Option::None;
        },
    };
    let session_id = get_str_field(&v, "session_id");
    let line_type = get_str_field(&v, "type");
    let kind = if opt_is(&line_type, "stream_event") {
        classify_stream_event(&v)
    } else if opt_is(&line_type, "user") {
        classify_tool_results(&v)
    } else if opt_is(&line_type, "result") {
        classify_turn_usage(&v)
    } else if line_type.is_none() {
        // A record may omit the top-level tag; one that carries an
        // `event` member is still a stream event.
        classify_stream_event(&v)
    } else {
        EventKind::Other
    };
    Option::Some(AgentEvent { session_id, kind })
}

} // verus!
