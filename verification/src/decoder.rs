//! The stream decoder and tool-interception state machine: consumes the
//! agent's output one decoded event at a time, reconstructs fragmented
//! tool invocations, decides whether each completed invocation may
//! proceed, and emits the client's notifications in decode order.

use vstd::prelude::*;
use vstd::string::StringExecFns;
use crate::approval::ApprovalDecision;
use crate::approval::decide_approval;
use crate::approval::spec_decision;
use crate::approval::view_tools;
use crate::events::AgentEvent;
use crate::events::EventKind;
use crate::events::SpecEvent;
use crate::events::SpecEventKind;
use crate::events::ToolResultItem;
use crate::events::usage_of_fields;
use crate::events::spec_usage;
use crate::jsonval::json_null;
use crate::jsonval::parse_json;
use crate::jsonval::parsed_of;
use crate::parse::classify_line;
use crate::parse::parse_line;
use crate::registry::ProcessRegistry;
use crate::text::decimal_i32;
use crate::text::i32_to_string;
use crate::text::trim_of;
use crate::text::trimmed;
use crate::models::StreamChunk;
use crate::models::ToolActivity;
use crate::models::ToolPhase;
use crate::models::UsageInfo;
use crate::models::is_done_chunk;
use crate::models::is_session_chunk;
use crate::models::is_text_chunk;
use crate::models::is_tool_chunk;
use crate::models::view_opt_string;

verus! {

/// The accumulator of one in-flight tool invocation: name, identifier,
/// the correlation index that ties its start to its stop, and the raw
/// input fragments gathered so far.
pub struct PendingTool {
    pub name: String,
    pub id: String,
    pub index: Option<u64>,
    pub input_buf: String,
}

/// Mathematical image of `PendingTool`.
#[verifier::ext_equal]
pub struct SpecPending {
    pub name: Seq<char>,
    pub id: Seq<char>,
    pub index: Option<u64>,
    pub buf: Seq<char>,
}

impl View for PendingTool {
    type V = SpecPending;

    open spec fn view(&self) -> SpecPending {
        SpecPending {
            name: self.name@,
            id: self.id@,
            index: self.index,
            buf: self.input_buf@,
        }
    }
}

/// The per-turn decoder state. All of it is exclusive to one turn's
/// worker; nothing here is shared across sessions.
pub struct TurnState {
    /// The turn's optional allow-list of pre-approved tool names.
    pub allowed_tools: Option<Vec<String>>,
    /// The session identifier once one has been observed this turn.
    pub session_id: Option<String>,
    /// The accumulated response text.
    pub text: String,
    /// At most one tool invocation is open at a time.
    pub pending: Option<PendingTool>,
    /// The usage counters of the terminal turn-result record, once seen.
    pub usage: Option<UsageInfo>,
    /// Set when an interception ended the turn: nothing further is
    /// decoded.
    pub ended: bool,
}

/// Mathematical image of `TurnState`.
#[verifier::ext_equal]
pub struct SpecTurn {
    pub allowed: Option<Seq<Seq<char>>>,
    pub session_id: Option<Seq<char>>,
    pub text: Seq<char>,
    pub pending: Option<SpecPending>,
    pub usage: Option<UsageInfo>,
    pub ended: bool,
}

/// The view of an optional pending invocation.
pub open spec fn view_opt_pending(o: Option<PendingTool>) -> Option<SpecPending> {
    match o {
        Option::Some(p) => Option::Some(p@),
        Option::None => Option::None,
    }
}

impl View for TurnState {
    type V = SpecTurn;

    open spec fn view(&self) -> SpecTurn {
        SpecTurn {
            allowed: view_tools(self.allowed_tools),
            session_id: view_opt_string(self.session_id),
            text: self.text@,
            pending: view_opt_pending(self.pending),
            usage: self.usage,
            ended: self.ended,
        }
    }
}

/// The state a turn starts in.
pub open spec fn initial_turn(allowed: Option<Seq<Seq<char>>>) -> SpecTurn {
    SpecTurn {
        allowed: allowed,
        session_id: Option::None,
        text: Seq::empty(),
        pending: Option::None,
        usage: Option::None,
        ended: false,
    }
}

/// Whether this event makes the turn capture a session identifier: none
/// has been observed yet and the event carries one. This is independent
/// of the event's shape: the client needs the resumption token as early
/// as possible.
pub open spec fn observes_session(s: SpecTurn, ev: SpecEvent) -> bool {
    s.session_id is None && ev.session_id is Some
}

/// The state after the session-capture part of a step.
pub open spec fn step_session(s: SpecTurn, ev: SpecEvent) -> SpecTurn {
    if observes_session(s, ev) {
        SpecTurn { session_id: ev.session_id, ..s }
    } else {
        s
    }
}

/// Whether a stop event's correlation index matches the open invocation.
pub open spec fn stop_matches(s: SpecTurn, index: Option<u64>) -> bool {
    match s.pending {
        Option::Some(p) => p.index == index,
        Option::None => false,
    }
}

/// The approval decision for the open invocation of `s`.
pub open spec fn pending_decision(s: SpecTurn) -> ApprovalDecision
    recommends
        s.pending is Some,
{
    match s.pending {
        Option::Some(p) => spec_decision(p.name, s.allowed),
        Option::None => ApprovalDecision::Auto,
    }
}

/// The state transition for one event's shape, after session capture.
pub open spec fn spec_step_kind(s: SpecTurn, k: SpecEventKind) -> SpecTurn {
    match k {
        SpecEventKind::TextDelta { text } => SpecTurn { text: s.text + text, ..s },
        SpecEventKind::InputFragment { fragment } => match s.pending {
            Option::Some(p) => (SpecTurn {
                pending: Option::Some(SpecPending { buf: p.buf + fragment, ..p }),
                ..s
            }),
            Option::None => s,
        },
        SpecEventKind::ToolStart { name, id, index } => (SpecTurn {
            pending: Option::Some(SpecPending { name, id, index, buf: Seq::empty() }),
            ..s
        }),
        SpecEventKind::ToolStop { index } => if stop_matches(s, index) {
            if pending_decision(s) == ApprovalDecision::Auto {
                SpecTurn { pending: Option::None, ..s }
            } else {
                SpecTurn { ended: true, ..s }
            }
        } else {
            s
        },
        SpecEventKind::ToolResults { items } => s,
        SpecEventKind::TurnUsage { fields } => SpecTurn { usage: Option::Some(spec_usage(fields)), ..s },
        SpecEventKind::Other => s,
    }
}

/// The state transition for one decoded event. An ended turn decodes
/// nothing further: the step is the identity.
pub open spec fn spec_step(s: SpecTurn, ev: SpecEvent) -> SpecTurn {
    if s.ended {
        s
    } else {
        spec_step_kind(step_session(s, ev), ev.kind)
    }
}

/// Whether this step intercepts the open tool invocation: its stop event
/// matches and the decision is not auto-approval. The turn is then marked
/// ended and the session's process must be signaled.
pub open spec fn step_intercepts(s: SpecTurn, ev: SpecEvent) -> bool {
    &&& !s.ended
    &&& match ev.kind {
        SpecEventKind::ToolStop { index } => stop_matches(s, index) && pending_decision(s)
            != ApprovalDecision::Auto,
        _ => false,
    }
}

/// The notifications one step emits, pinned shape by shape: first the
/// session announcement when one is captured, then the chunks of the
/// event's own shape, in decode order.
pub open spec fn step_chunks_ok(s: SpecTurn, ev: SpecEvent, out: Seq<StreamChunk>) -> bool {
    if s.ended {
        out.len() == 0
    } else {
        let base: int = if observes_session(s, ev) {
            1
        } else {
            0
        };
        let s1 = step_session(s, ev);
        &&& (observes_session(s, ev) ==> out.len() >= 1 && is_session_chunk(
            out[0],
            match ev.session_id {
                Option::Some(sid) => sid,
                Option::None => Seq::empty(),
            },
        ))
        &&& match ev.kind {
            SpecEventKind::TextDelta { text } => out.len() == base + 1 && is_text_chunk(
                out[base],
                text,
            ),
            SpecEventKind::ToolStop { index } => if stop_matches(s1, index) {
                let p = match s1.pending {
                    Option::Some(p) => p,
                    Option::None => arbitrary(),
                };
                let d = spec_decision(p.name, s1.allowed);
                out.len() == base + 1 && is_tool_chunk(
                    out[base],
                    p.name,
                    p.id,
                    match d {
                        ApprovalDecision::Ask => ToolPhase::Ask,
                        ApprovalDecision::Approval => ToolPhase::Approval,
                        ApprovalDecision::Auto => ToolPhase::Start,
                    },
                    true,
                    Option::None,
                    Option::None,
                )
            } else {
                out.len() == base
            },
            SpecEventKind::ToolResults { items } => out.len() == base + items.len() && (forall|
                i: int,
            |
                0 <= i < items.len() ==> is_tool_chunk(
                    #[trigger] out[base + i],
                    items[i].tool_name,
                    items[i].tool_id,
                    ToolPhase::Outcome,
                    false,
                    Option::Some(items[i].content),
                    Option::Some(items[i].is_error),
                )),
            _ => out.len() == base,
        }
    }
}

/// What one step asks of the caller next.
#[derive(Clone, Copy, Debug, PartialEq, Eq, Structural)]
pub enum StepAction {
    /// Keep decoding.
    Continue,
    /// The turn was intercepted: signal the session's process and stop
    /// decoding.
    Intercept,
}

fn opt_u64_eq(a: Option<u64>, b: Option<u64>) -> (r: bool)
    ensures
        r == (a == b),
{
    match (a, b) {
        (Option::Some(x), Option::Some(y)) => x == y,
        (Option::None, Option::None) => true,
        _ => false,
    }
}

fn empty_string() -> (r: String)
    ensures
        r@ == Seq::<char>::empty(),
{
    String::new()
}

impl TurnState {
    /// A fresh turn with the given allow-list of pre-approved tools.
    pub fn new(allowed_tools: Option<Vec<String>>) -> (r: TurnState)
        ensures
            r@ == initial_turn(view_tools(allowed_tools)),
    {
        TurnState {
            allowed_tools,
            session_id: Option::None,
            text: String::new(),
            pending: Option::None,
            usage: Option::None,
            ended: false,
        }
    }

    /// Decodes one event: updates the turn state as `spec_step` says and
    /// returns the notifications to push, in order, together with what
    /// the caller must do next. On interception the "ask"/"approval"
    /// notification is already in the returned chunks — the caller
    /// signals the process *after* pushing them, so the client learns
    /// what the agent wanted before the process is torn down.
    pub fn step(&mut self, ev: AgentEvent) -> (r: (Vec<StreamChunk>, StepAction))
        ensures
            final(self)@ == spec_step(old(self)@, ev@),
            step_chunks_ok(old(self)@, ev@, r.0@),
            r.1 == StepAction::Intercept <==> step_intercepts(old(self)@, ev@),
    {
        if self.ended {
            return (Vec::new(), StepAction::Continue);
        }
        let mut out: Vec<StreamChunk> = Vec::new();
        let AgentEvent { session_id, kind } = ev;
        match session_id {
            Option::Some(sid) => {
                if self.session_id.is_none() {
                    out.push(
                        StreamChunk {
                            content: empty_string(),
                            done: false,
                            session_id: Option::Some(sid.clone()),
                            usage: Option::None,
                            tool: Option::None,
                        },
                    );
                    self.session_id = Option::Some(sid);
                }
            },
            Option::None => {},
        }
        match kind {
            EventKind::TextDelta { text } => {
                self.text.append(text.as_str());
                out.push(
                    StreamChunk {
                        content: text,
                        done: false,
                        session_id: Option::None,
                        usage: Option::None,
                        tool: Option::None,
                    },
                );
                (out, StepAction::Continue)
            },
            EventKind::InputFragment { fragment } => {
                match &mut self.pending {
                    Option::Some(p) => {
                        p.input_buf.append(fragment.as_str());
                    },
                    Option::None => {},
                }
                (out, StepAction::Continue)
            },
            EventKind::ToolStart { name, id, index } => {
                self.pending = Option::Some(
                    PendingTool { name, id, index, input_buf: String::new() },
                );
                (out, StepAction::Continue)
            },
            EventKind::ToolStop { index } => {
                let hit: Option<(String, String, String)> = match &self.pending {
                    Option::Some(p) => {
                        if opt_u64_eq(p.index, index) {
                            Option::Some((p.name.clone(), p.id.clone(), p.input_buf.clone()))
                        } else {
                            Option::None
                        }
                    },
                    Option::None => Option::None,
                };
                match hit {
                    Option::None => (out, StepAction::Continue),
                    Option::Some((name, id, buf)) => {
                        let input_val = match parse_json(buf.as_str()) {
                            Option::Some(v) => v,
                            Option::None => json_null(),
                        };
                        let d = decide_approval(&name, &self.allowed_tools);
                        if d == ApprovalDecision::Auto {
                            out.push(
                                StreamChunk {
                                    content: empty_string(),
                                    done: false,
                                    session_id: Option::None,
                                    usage: Option::None,
                                    tool: Option::Some(
                                        ToolActivity {
                                            tool_name: name,
                                            tool_id: id,
                                            phase: ToolPhase::Start,
                                            input: Option::Some(input_val),
                                            result: Option::None,
                                            is_error: Option::None,
                                        },
                                    ),
                                },
                            );
                            self.pending = Option::None;
                            (out, StepAction::Continue)
                        } else {
                            let phase = if d == ApprovalDecision::Ask {
                                ToolPhase::Ask
                            } else {
                                ToolPhase::Approval
                            };
                            out.push(
                                StreamChunk {
                                    content: empty_string(),
                                    done: false,
                                    session_id: Option::None,
                                    usage: Option::None,
                                    tool: Option::Some(
                                        ToolActivity {
                                            tool_name: name,
                                            tool_id: id,
                                            phase,
                                            input: Option::Some(input_val),
                                            result: Option::None,
                                            is_error: Option::None,
                                        },
                                    ),
                                },
                            );
                            self.ended = true;
                            (out, StepAction::Intercept)
                        }
                    },
                }
            },
            EventKind::ToolResults { items } => {
                let ghost base = out@.len() as int;
                let ghost out0 = out@;
                let ghost items_view = items@.map_values(|it: ToolResultItem| it@);
                let mut i: usize = 0;
                while i < items.len()
                    invariant
                        i <= items@.len(),
                        out@.len() == base + i,
                        base == out0.len(),
                        items_view == items@.map_values(|it: ToolResultItem| it@),
                        forall|j: int| 0 <= j < base ==> out@[j] == out0[j],
                        forall|j: int|
                            0 <= j < i ==> is_tool_chunk(
                                #[trigger] out@[base + j],
                                items_view[j].tool_name,
                                items_view[j].tool_id,
                                ToolPhase::Outcome,
                                false,
                                Option::Some(items_view[j].content),
                                Option::Some(items_view[j].is_error),
                            ),
                    decreases items@.len() - i,
                {
                    let item_name = items[i].tool_name.clone();
                    let item_id = items[i].tool_id.clone();
                    let item_content = items[i].content.clone();
                    let item_is_error = items[i].is_error;
                    out.push(
                        StreamChunk {
                            content: empty_string(),
                            done: false,
                            session_id: Option::None,
                            usage: Option::None,
                            tool: Option::Some(
                                ToolActivity {
                                    tool_name: item_name,
                                    tool_id: item_id,
                                    phase: ToolPhase::Outcome,
                                    input: Option::None,
                                    result: Option::Some(item_content),
                                    is_error: Option::Some(item_is_error),
                                },
                            ),
                        },
                    );
                    i += 1;
                }
                (out, StepAction::Continue)
            },
            EventKind::TurnUsage { fields } => {
                self.usage = Option::Some(usage_of_fields(&fields));
                (out, StepAction::Continue)
            },
            EventKind::Other => (out, StepAction::Continue),
        }
    }
}

/// The views of a vector of decoded events.
pub open spec fn views_of_events(evs: Seq<AgentEvent>) -> Seq<SpecEvent> {
    evs.map_values(|e: AgentEvent| e@)
}

/// The state after decoding a whole event sequence, in order.
pub open spec fn spec_run(s: SpecTurn, evs: Seq<SpecEvent>) -> SpecTurn
    decreases evs.len(),
{
    if evs.len() == 0 {
        s
    } else {
        spec_run(spec_step(s, evs.first()), evs.drop_first())
    }
}

/// Unrolling a decode from its last event.
pub proof fn lemma_spec_run_snoc(s: SpecTurn, evs: Seq<SpecEvent>, ev: SpecEvent)
    ensures
        spec_run(s, evs.push(ev)) == spec_step(spec_run(s, evs), ev),
    decreases evs.len(),
{
    if evs.len() == 0 {
        assert(evs.push(ev).first() == ev);
        assert(evs.push(ev).drop_first() =~= Seq::<SpecEvent>::empty());
        assert(spec_run(spec_step(s, ev), Seq::<SpecEvent>::empty()) == spec_step(s, ev));
        assert(spec_run(s, evs) == s);
    } else {
        assert(evs.push(ev).first() == evs.first());
        assert(evs.push(ev).drop_first() =~= evs.drop_first().push(ev));
        lemma_spec_run_snoc(spec_step(s, evs.first()), evs.drop_first(), ev);
        assert(spec_run(s, evs) == spec_run(spec_step(s, evs.first()), evs.drop_first()));
        assert(spec_run(s, evs.push(ev)) == spec_run(
            spec_step(s, evs.first()),
            evs.drop_first().push(ev),
        ));
    }
}

/// Law: once a turn has ended — an "ask"/"approval" notification was
/// emitted — no further events are decoded: every later step is the
/// identity, whatever arrives.
pub proof fn lemma_no_decode_after_end(s: SpecTurn, evs: Seq<SpecEvent>)
    requires
        s.ended,
    ensures
        spec_run(s, evs) == s,
    decreases evs.len(),
{
    if evs.len() > 0 {
        lemma_no_decode_after_end(s, evs.drop_first());
    }
}

/// Law: decoding stops at the interception point: if some prefix of the
/// event sequence ends the turn, the whole sequence decodes to exactly
/// that prefix's state — the events after the triggering stop event are
/// never processed.
pub proof fn lemma_run_stops_at_interception(s: SpecTurn, evs: Seq<SpecEvent>, k: int)
    requires
        0 <= k <= evs.len(),
        spec_run(s, evs.take(k)).ended,
    ensures
        spec_run(s, evs) == spec_run(s, evs.take(k)),
    decreases k,
{
    if s.ended {
        lemma_no_decode_after_end(s, evs);
        lemma_no_decode_after_end(s, evs.take(k));
    } else if k == 0 {
        assert(evs.take(0) =~= Seq::<SpecEvent>::empty());
    } else {
        let s1 = spec_step(s, evs.first());
        assert(evs.take(k).first() == evs.first());
        assert(evs.take(k).drop_first() =~= evs.drop_first().take(k - 1));
        lemma_run_stops_at_interception(s1, evs.drop_first(), k - 1);
    }
}

/// The concatenation of all text-delta contents of `evs`, in order.
pub open spec fn concat_deltas(evs: Seq<SpecEvent>) -> Seq<char>
    decreases evs.len(),
{
    if evs.len() == 0 {
        Seq::empty()
    } else {
        (match evs.first().kind {
            SpecEventKind::TextDelta { text } => text,
            _ => Seq::empty(),
        }) + concat_deltas(evs.drop_first())
    }
}

/// Law: for a turn that is never intercepted, the accumulated response
/// text is the starting text followed by the concatenation of all
/// text-delta contents, in arrival order.
pub proof fn lemma_text_is_delta_concat(s: SpecTurn, evs: Seq<SpecEvent>)
    requires
        !spec_run(s, evs).ended,
    ensures
        spec_run(s, evs).text == s.text + concat_deltas(evs),
    decreases evs.len(),
{
    if evs.len() == 0 {
        assert(s.text + concat_deltas(evs) =~= s.text);
    } else {
        if s.ended {
            lemma_no_decode_after_end(s, evs);
        }
        let s1 = spec_step(s, evs.first());
        lemma_text_is_delta_concat(s1, evs.drop_first());
        assert(spec_run(s, evs).text =~= s.text + concat_deltas(evs));
    }
}

/// The chunks a whole decode emits: for each event in order, a slice of
/// the output that is exactly that step's chunks.
pub open spec fn run_chunks_ok(s0: SpecTurn, evs: Seq<SpecEvent>, out: Seq<StreamChunk>) -> bool
    decreases evs.len(),
{
    if evs.len() == 0 {
        out.len() == 0
    } else {
        exists|k: int|
            #![trigger out.take(k)]
            {
                &&& 0 <= k <= out.len()
                &&& run_chunks_ok(s0, evs.drop_last(), out.take(k))
                &&& step_chunks_ok(spec_run(s0, evs.drop_last()), evs.last(), out.skip(k))
            }
    }
}

/// How the registry and the returned process id relate to the decode:
/// exactly when this decode ended the turn, the session's entry was
/// removed and its process id (if one was registered) handed back for
/// signaling; otherwise the registry is untouched and nothing is
/// signaled.
pub open spec fn registry_outcome(
    s0: SpecTurn,
    s1: SpecTurn,
    m0: Map<Seq<char>, u32>,
    m1: Map<Seq<char>, u32>,
    key: Seq<char>,
    killed: Option<u32>,
) -> bool {
    if !s0.ended && s1.ended {
        &&& (m0.contains_key(key) ==> killed == Option::Some(m0[key]) && m1 == m0.remove(key))
        &&& (!m0.contains_key(key) ==> killed is None && m1 == m0)
    } else {
        killed is None && m1 == m0
    }
}

/// The outcome of handling one decoded event: one decoder step, its
/// chunks, and the registry consequence of an interception.
pub open spec fn line_outcome(
    s0: SpecTurn,
    m0: Map<Seq<char>, u32>,
    key: Seq<char>,
    ev: SpecEvent,
    s1: SpecTurn,
    m1: Map<Seq<char>, u32>,
    out: Seq<StreamChunk>,
    killed: Option<u32>,
) -> bool {
    &&& s1 == spec_step(s0, ev)
    &&& step_chunks_ok(s0, ev, out)
    &&& registry_outcome(s0, s1, m0, m1, key, killed)
}

/// The outcome of decoding a whole event sequence: the state fold, the
/// emitted chunks in decode order, and the registry consequence.
pub open spec fn turn_outcome(
    s0: SpecTurn,
    m0: Map<Seq<char>, u32>,
    key: Seq<char>,
    evs: Seq<SpecEvent>,
    s1: SpecTurn,
    m1: Map<Seq<char>, u32>,
    out: Seq<StreamChunk>,
    killed: Option<u32>,
) -> bool {
    &&& s1 == spec_run(s0, evs)
    &&& run_chunks_ok(s0, evs, out)
    &&& registry_outcome(s0, s1, m0, m1, key, killed)
}

proof fn lemma_turn_outcome_snoc(
    s0: SpecTurn,
    m0: Map<Seq<char>, u32>,
    key: Seq<char>,
    evs: Seq<SpecEvent>,
    sm: SpecTurn,
    mm: Map<Seq<char>, u32>,
    out0: Seq<StreamChunk>,
    k0: Option<u32>,
    ev: SpecEvent,
    s1: SpecTurn,
    m1: Map<Seq<char>, u32>,
    out1: Seq<StreamChunk>,
    k1: Option<u32>,
)
    requires
        turn_outcome(s0, m0, key, evs, sm, mm, out0, k0),
        line_outcome(sm, mm, key, ev, s1, m1, out1, k1),
    ensures
        turn_outcome(
            s0,
            m0,
            key,
            evs.push(ev),
            s1,
            m1,
            out0 + out1,
            if k0 is Some {
                k0
            } else {
                k1
            },
        ),
{
    lemma_spec_run_snoc(s0, evs, ev);
    if s0.ended {
        lemma_no_decode_after_end(s0, evs);
    }
    let out = out0 + out1;
    let n = out0.len() as int;
    let evs2 = evs.push(ev);
    assert(evs2.drop_last() =~= evs);
    assert(evs2.last() == ev);
    assert(out.take(n) =~= out0);
    assert(out.skip(n) =~= out1);
    assert(run_chunks_ok(s0, evs2.drop_last(), out.take(n)));
    assert(step_chunks_ok(spec_run(s0, evs2.drop_last()), evs2.last(), out.skip(n)));
    assert(run_chunks_ok(s0, evs2, out));
    assert(s1 == spec_step(sm, ev));
    if sm.ended {
        assert(s1 == sm);
    }
}

/// What the decoded events of one turn do to a registry entry, to the
/// notification stream and to the turn state, all at once. Decodes every
/// event in order (events after an interception are no-ops), stops the
/// session's process through the registry as the immediate next action
/// after an interception's notification, and returns the notifications
/// in decode order together with the process id the caller must signal,
/// if any.
pub fn run_events(
    state: &mut TurnState,
    events: Vec<AgentEvent>,
    registry: &mut ProcessRegistry,
    process_id: &String,
) -> (r: (Vec<StreamChunk>, Option<u32>))
    requires
        old(registry).wf(),
    ensures
        final(registry).wf(),
        turn_outcome(
            old(state)@,
            old(registry)@,
            process_id@,
            views_of_events(events@),
            final(state)@,
            final(registry)@,
            r.0@,
            r.1,
        ),
{
    let ghost s0 = state@;
    let ghost m0 = registry@;
    let ghost evs0 = views_of_events(events@);
    let mut rest = events;
    let mut out: Vec<StreamChunk> = Vec::new();
    let mut killed: Option<u32> = Option::None;
    let ghost mut done_evs: Seq<SpecEvent> = Seq::empty();
    proof {
        assert(done_evs + views_of_events(rest@) =~= evs0);
        assert(spec_run(s0, done_evs) == s0);
        assert(run_chunks_ok(s0, done_evs, out@));
    }
    while rest.len() > 0
        invariant
            registry.wf(),
            done_evs + views_of_events(rest@) == evs0,
            turn_outcome(s0, m0, process_id@, done_evs, state@, registry@, out@, killed),
        decreases rest@.len(),
    {
        let ghost rest_before = rest@;
        let ev = rest.remove(0);
        let ghost evv = ev@;
        let ghost sm = state@;
        let ghost mm = registry@;
        let (mut chunks, act) = state.step(ev);
        let ghost step_out = chunks@;
        let mut k1: Option<u32> = Option::None;
        if act == StepAction::Intercept {
            match registry.stop(process_id) {
                Result::Ok(pid) => {
                    k1 = Option::Some(pid);
                },
                Result::Err(_) => {},
            }
        }
        let ghost out_pre = out@;
        proof {
            assert(line_outcome(sm, mm, process_id@, evv, state@, registry@, step_out, k1));
            lemma_turn_outcome_snoc(
                s0,
                m0,
                process_id@,
                done_evs,
                sm,
                mm,
                out_pre,
                killed,
                evv,
                state@,
                registry@,
                step_out,
                k1,
            );
            done_evs = done_evs.push(evv);
            assert(views_of_events(rest_before) =~= views_of_events(rest@).insert(0, evv));
            assert(done_evs + views_of_events(rest@) =~= evs0);
        }
        out.append(&mut chunks);
        if killed.is_none() {
            killed = k1;
        }
        proof {
            assert(out@ == out_pre + step_out);
        }
    }
    proof {
        assert(views_of_events(rest@) =~= Seq::<SpecEvent>::empty());
        assert(done_evs =~= evs0);
    }
    (out, killed)
}

/// Decodes one raw output line. A blank line, or one that is not
/// well-formed JSON, is silently skipped (never fatal); any other line
/// behaves as one decoder step on the event it classifies to. On
/// interception the returned chunks already hold the "ask"/"approval"
/// notification and the returned process id (if a process was
/// registered) must be signaled by the caller — notify first, then kill.
pub fn handle_line(
    state: &mut TurnState,
    line: &String,
    registry: &mut ProcessRegistry,
    process_id: &String,
) -> (r: (Vec<StreamChunk>, Option<u32>))
    requires
        old(registry).wf(),
    ensures
        final(registry).wf(),
        trimmed(line@).len() == 0 || parsed_of(line@) is None ==> *final(state) == *old(state)
            && *final(registry) == *old(registry) && r.0@.len() == 0 && r.1 is None,
        trimmed(line@).len() > 0 ==> (parsed_of(line@) matches Some(v) ==> line_outcome(
            old(state)@,
            old(registry)@,
            process_id@,
            classify_line(v),
            final(state)@,
            final(registry)@,
            r.0@,
            r.1,
        )),
{
    let t = trim_of(line);
    if t.as_str().is_empty() {
        return (Vec::new(), Option::None);
    }
    match parse_line(line) {
        Option::None => (Vec::new(), Option::None),
        Option::Some(ev) => {
            let ghost evv = ev@;
            let (chunks, act) = state.step(ev);
            let mut killed: Option<u32> = Option::None;
            if act == StepAction::Intercept {
                match registry.stop(process_id) {
                    Result::Ok(pid) => {
                        killed = Option::Some(pid);
                    },
                    Result::Err(_) => {},
                }
            }
            let result = (chunks, killed);
            proof {
                assert(line_outcome(
                    old(state)@,
                    old(registry)@,
                    process_id@,
                    evv,
                    state@,
                    registry@,
                    result.0@,
                    result.1,
                ));
            }
            result
        },
    }
}

/// The events one raw line contributes to a turn: none for a blank or
/// malformed line, else the event it classifies to.
pub open spec fn line_events(line: String) -> Seq<SpecEvent> {
    if trimmed(line@).len() == 0 {
        Seq::empty()
    } else {
        match parsed_of(line@) {
            Option::Some(v) => seq![classify_line(v)],
            Option::None => Seq::empty(),
        }
    }
}

/// The events a whole transcript of raw lines decodes to, in order.
pub open spec fn events_of_lines(lines: Seq<String>) -> Seq<SpecEvent>
    decreases lines.len(),
{
    if lines.len() == 0 {
        Seq::empty()
    } else {
        events_of_lines(lines.drop_last()) + line_events(lines.last())
    }
}

/// Decodes a whole transcript of raw output lines: the turn behaves as
/// the decode of exactly the events the lines classify to. Events after
/// an interception are provably no-ops, so the driver may consume the
/// rest of a pre-read transcript; the live decode loop stops reading
/// instead.
pub fn run_lines(
    state: &mut TurnState,
    lines: &Vec<String>,
    registry: &mut ProcessRegistry,
    process_id: &String,
) -> (r: (Vec<StreamChunk>, Option<u32>))
    requires
        old(registry).wf(),
    ensures
        final(registry).wf(),
        turn_outcome(
            old(state)@,
            old(registry)@,
            process_id@,
            events_of_lines(lines@),
            final(state)@,
            final(registry)@,
            r.0@,
            r.1,
        ),
{
    let ghost s0 = state@;
    let ghost m0 = registry@;
    let mut out: Vec<StreamChunk> = Vec::new();
    let mut killed: Option<u32> = Option::None;
    let mut i: usize = 0;
    proof {
        assert(events_of_lines(lines@.take(0)) =~= Seq::<SpecEvent>::empty());
        assert(spec_run(s0, events_of_lines(lines@.take(0))) == s0);
        assert(run_chunks_ok(s0, events_of_lines(lines@.take(0)), out@));
    }
    while i < lines.len()
        invariant
            i <= lines@.len(),
            registry.wf(),
            turn_outcome(
                s0,
                m0,
                process_id@,
                events_of_lines(lines@.take(i as int)),
                state@,
                registry@,
                out@,
                killed,
            ),
        decreases lines@.len() - i,
    {
        let ghost l = lines@[i as int];
        let ghost sm = state@;
        let ghost mm = registry@;
        let (mut chunks, k1) = handle_line(state, &lines[i], registry, process_id);
        let ghost step_out = chunks@;
        let ghost out_pre = out@;
        proof {
            assert(lines@.take(i as int + 1).drop_last() =~= lines@.take(i as int));
            assert(lines@.take(i as int + 1).last() == l);
            if trimmed(l@).len() == 0 || parsed_of(l@) is None {
                assert(line_events(l) =~= Seq::<SpecEvent>::empty());
                assert(events_of_lines(lines@.take(i as int + 1)) =~= events_of_lines(
                    lines@.take(i as int),
                ));
            } else {
                let v = choose|v: serde_json::Value| parsed_of(l@) == Option::Some(v);
                assert(parsed_of(l@) == Option::Some(v));
                lemma_turn_outcome_snoc(
                    s0,
                    m0,
                    process_id@,
                    events_of_lines(lines@.take(i as int)),
                    sm,
                    mm,
                    out_pre,
                    killed,
                    classify_line(v),
                    state@,
                    registry@,
                    step_out,
                    k1,
                );
                assert(events_of_lines(lines@.take(i as int + 1)) =~= events_of_lines(
                    lines@.take(i as int),
                ).push(classify_line(v)));
            }
        }
        out.append(&mut chunks);
        if killed.is_none() {
            killed = k1;
        }
        proof {
            assert(out@ == out_pre + step_out);
            if step_out.len() == 0 {
                assert(out@ =~= out_pre);
            }
        }
        i += 1;
    }
    let result = (out, killed);
    proof {
        assert(lines@.take(lines@.len() as int) =~= lines@);
        assert(turn_outcome(
            old(state)@,
            old(registry)@,
            process_id@,
            events_of_lines(lines@),
            state@,
            registry@,
            result.0@,
            result.1,
        ));
    }
    result
}

/// The terminal error message of a failed turn: the captured diagnostic
/// text, or, when that is blank, the process's exit code.
pub open spec fn spec_error_message(err_trimmed: Seq<char>, exit_code: Option<i32>) -> Seq<char> {
    if err_trimmed.len() > 0 {
        err_trimmed
    } else {
        "El agente salio con codigo: "@ + decimal_i32(
            match exit_code {
                Option::Some(c) => c as int,
                Option::None => -1,
            },
        )
    }
}

/// Completes a turn once the process is gone: builds the one completion
/// notification (carrying the usage counters, absent if none were
/// observed) and the turn's own result. A turn ended by interception
/// succeeds with the text accumulated so far — the client resumes the
/// session after the user responds. Otherwise the turn succeeds when the
/// process exited cleanly or any text was accumulated, and fails with the
/// captured error-stream text (or, when that is blank, the exit code).
pub fn finish_turn(
    state: &TurnState,
    exit_success: bool,
    exit_code: Option<i32>,
    stderr_text: &String,
) -> (r: (StreamChunk, Result<String, String>))
    ensures
        is_done_chunk(r.0, state@.usage),
        state@.ended || exit_success || trimmed(state@.text).len() > 0 ==> (r.1 matches Ok(t)
            && t@ == trimmed(state@.text)),
        !(state@.ended || exit_success || trimmed(state@.text).len() > 0) ==> (r.1 matches Err(m)
            && m@ == spec_error_message(trimmed(stderr_text@), exit_code)),
{
    let done = StreamChunk {
        content: empty_string(),
        done: true,
        session_id: Option::None,
        usage: state.usage,
        tool: Option::None,
    };
    let text = trim_of(&state.text);
    if state.ended || exit_success || !text.as_str().is_empty() {
        (done, Result::Ok(text))
    } else {
        let err_text = trim_of(stderr_text);
        if !err_text.as_str().is_empty() {
            (done, Result::Err(err_text))
        } else {
            let mut msg = "El agente salio con codigo: ".to_owned();
            let code_text = i32_to_string(exit_code.unwrap_or(-1));
            msg.append(code_text.as_str());
            (done, Result::Err(msg))
        }
    }
}

} // verus!
