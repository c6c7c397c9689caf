//! Core logic of a desktop front-end for a line-streaming coding agent:
//! the per-session process registry, the launcher argument builder, and
//! the streaming-event decoder with its tool-approval interception.

mod approval;
mod decoder;
mod events;
mod jsonval;
mod launcher;
mod models;
mod parse;
mod registry;
mod sessions;
mod text;

pub use approval::ApprovalDecision;
pub use approval::ask_tool_name;
pub use approval::contains_name;
pub use approval::decide_approval;
pub use approval::lemma_allow_list_decides;
pub use approval::lemma_ask_tool_always_asks;
pub use approval::spec_decision;
pub use approval::view_tools;
pub use decoder::PendingTool;
pub use decoder::SpecPending;
pub use decoder::SpecTurn;
pub use decoder::StepAction;
pub use decoder::TurnState;
pub use decoder::initial_turn;
pub use decoder::observes_session;
pub use decoder::pending_decision;
pub use decoder::spec_step;
pub use decoder::spec_step_kind;
pub use decoder::step_chunks_ok;
pub use decoder::step_intercepts;
pub use decoder::step_session;
pub use decoder::stop_matches;
pub use decoder::view_opt_pending;
pub use decoder::views_of_events;
pub use decoder::spec_run;
pub use decoder::lemma_spec_run_snoc;
pub use decoder::lemma_no_decode_after_end;
pub use decoder::lemma_run_stops_at_interception;
pub use decoder::concat_deltas;
pub use decoder::lemma_text_is_delta_concat;
pub use decoder::run_chunks_ok;
pub use decoder::registry_outcome;
pub use decoder::line_outcome;
pub use decoder::turn_outcome;
pub use decoder::run_events;
pub use decoder::handle_line;
pub use decoder::run_lines;
pub use decoder::spec_error_message;
pub use decoder::finish_turn;
pub use parse::classify_line;
pub use parse::parse_line;
pub use parse::spec_classify_result;
pub use parse::spec_classify_stream;
pub use parse::spec_classify_user;
pub use parse::spec_result_items;
pub use parse::spec_result_tool_name;
pub use parse::spec_str_field;
pub use parse::spec_u64_field;
pub use decoder::events_of_lines;
pub use decoder::line_events;
pub use jsonval::bool_of;
pub use jsonval::items_of;
pub use jsonval::member_of;
pub use jsonval::parsed_of;
pub use jsonval::str_of;
pub use jsonval::u64_of;
pub use events::AgentEvent;
pub use events::EventKind;
pub use events::SpecEvent;
pub use events::SpecEventKind;
pub use events::SpecResultItem;
pub use events::ToolResultItem;
pub use events::UsageFields;
pub use events::spec_input_total;
pub use events::spec_usage;
pub use events::usage_of_fields;
pub use events::zero_if_absent;
pub use launcher::base_args;
pub use launcher::build_args;
pub use launcher::check_claude_outcome;
pub use launcher::spec_args;
pub use launcher::version_outcome;
pub use launcher::view_strings;
pub use sessions::delete_outcome;
pub use sessions::lex_leq;
pub use sessions::sort_sessions;
pub use sessions::sorted_desc;
pub use models::ChatMessage;
pub use models::ChatSession;
pub use models::StreamChunk;
pub use models::ToolActivity;
pub use models::ToolPhase;
pub use models::UsageInfo;
pub use models::is_done_chunk;
pub use models::is_session_chunk;
pub use models::is_text_chunk;
pub use models::is_tool_chunk;
pub use models::view_opt_string;
pub use registry::ProcessEntry;
pub use registry::ProcessRegistry;
pub use registry::lemma_register_then_unregister;
pub use text::trimmed;
