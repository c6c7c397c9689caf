//! The tool-approval interception policy: whether a completed tool
//! invocation may proceed, must wait for the user's answer to a question,
//! or must wait for the user's approval.

use vstd::prelude::*;
use crate::text::is_lit;
use crate::text::string_eq;

verus! {

/// The decision taken for one completed tool invocation.
#[derive(Clone, Copy, Debug, PartialEq, Eq, Structural)]
pub enum ApprovalDecision {
    /// The reserved question-asking tool: always requires the user's
    /// answer, whatever the allow-list holds.
    Ask,
    /// Not pre-approved: requires the user's approval before it may run.
    Approval,
    /// Pre-approved: the tool may run.
    Auto,
}

/// The reserved question-asking tool's name.
pub open spec fn ask_tool_name() -> Seq<char> {
    "AskUserQuestion"@
}

/// Whether `n` is an exact element of the allow-list `l`.
pub open spec fn contains_name(l: Seq<Seq<char>>, n: Seq<char>) -> bool {
    exists|i: int| 0 <= i < l.len() && l[i] == n
}

/// The view of an optional tool allow-list.
pub open spec fn view_tools(allowed: Option<Vec<String>>) -> Option<Seq<Seq<char>>> {
    match allowed {
        Option::Some(v) => Option::Some(v@.map_values(|s: String| s@)),
        Option::None => Option::None,
    }
}

/// The approval policy. The question-asking tool always requires
/// interaction; otherwise, with an allow-list present, a tool is
/// auto-approved exactly when its name appears in the list; with no
/// allow-list, every tool is auto-approved.
pub open spec fn spec_decision(name: Seq<char>, allowed: Option<Seq<Seq<char>>>) -> ApprovalDecision {
    if name == ask_tool_name() {
        ApprovalDecision::Ask
    } else {
        match allowed {
            Option::None => ApprovalDecision::Auto,
            Option::Some(l) => if contains_name(l, name) {
                ApprovalDecision::Auto
            } else {
                ApprovalDecision::Approval
            },
        }
    }
}

fn contains_string(list: &Vec<String>, x: &String) -> (r: bool)
    ensures
        r == contains_name(list@.map_values(|s: String| s@), x@),
{
    let ghost l = list@.map_values(|s: String| s@);
    let mut i: usize = 0;
    while i < list.len()
        invariant
            i <= list@.len(),
            l == list@.map_values(|s: String| s@),
            forall|j: int| 0 <= j < i ==> l[j] != x@,
        decreases list@.len() - i,
    {
        if string_eq(&list[i], x) {
            proof {
                assert(l[i as int] == x@);
            }
            return true;
        }
        i += 1;
    }
    false
}

/// Decides what happens to a completed tool invocation named `tool_name`
/// under the turn's optional allow-list.
pub fn decide_approval(tool_name: &String, allowed: &Option<Vec<String>>) -> (d: ApprovalDecision)
    ensures
        d == spec_decision(tool_name@, view_tools(*allowed)),
{
    if is_lit(tool_name, "AskUserQuestion") {
        return ApprovalDecision::Ask;
    }
    match allowed {
        Option::None => ApprovalDecision::Auto,
        Option::Some(list) => {
            if contains_string(list, tool_name) {
                ApprovalDecision::Auto
            } else {
                ApprovalDecision::Approval
            }
        },
    }
}

/// Law: the reserved question-asking tool always requires interaction,
/// regardless of the allow-list's contents.
pub proof fn lemma_ask_tool_always_asks(allowed: Option<Seq<Seq<char>>>)
    ensures
        spec_decision(ask_tool_name(), allowed) == ApprovalDecision::Ask,
{
}

/// Law: for any other tool, with an allow-list present the tool is
/// auto-approved exactly when its name is an element of the list, and
/// with no allow-list it is always auto-approved.
pub proof fn lemma_allow_list_decides(name: Seq<char>, allowed: Option<Seq<Seq<char>>>)
    requires
        name != ask_tool_name(),
    ensures
        allowed matches Some(l) ==> (spec_decision(name, allowed) == ApprovalDecision::Auto
            <==> contains_name(l, name)),
        allowed is None ==> spec_decision(name, allowed) == ApprovalDecision::Auto,
{
}

} // verus!
