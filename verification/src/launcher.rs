//! The agent launcher's pure part: the exact invocation argument
//! sequence for a request, and the outcomes of the version probes.
//! Spawning the process, and registering it, is the caller's side of the
//! boundary.

use vstd::prelude::*;
use crate::models::view_opt_string;
use crate::text::trim_of;
use crate::text::trimmed;

verus! {

/// The fixed leading flags of every launch: streaming output, verbose
/// partial-message mode, and skipping the agent's own interactive
/// permission prompts — approval is enforced by this system, not by the
/// agent.
pub open spec fn base_args() -> Seq<Seq<char>> {
    seq![
        "--print"@,
        "--verbose"@,
        "--output-format"@,
        "stream-json"@,
        "--include-partial-messages"@,
        "--dangerously-skip-permissions"@,
    ]
}

/// The views of an argument vector.
pub open spec fn view_strings(v: Seq<String>) -> Seq<Seq<char>> {
    v.map_values(|s: String| s@)
}

/// The exact invocation argument sequence of a request: the fixed flags,
/// then the optional resume flag with its token, then the optional model
/// flag with its selector, then the message as the final positional
/// argument.
pub open spec fn spec_args(
    message: Seq<char>,
    resume: Option<Seq<char>>,
    model: Option<Seq<char>>,
) -> Seq<Seq<char>> {
    base_args() + (match resume {
        Option::Some(sid) => seq!["--resume"@, sid],
        Option::None => Seq::empty(),
    }) + (match model {
        Option::Some(m) => seq!["--model"@, m],
        Option::None => Seq::empty(),
    }) + seq![message]
}

/// Builds the invocation arguments for one request.
pub fn build_args(message: String, session_id: &Option<String>, model: &Option<String>) -> (args:
    Vec<String>)
    ensures
        view_strings(args@) == spec_args(
            message@,
            view_opt_string(*session_id),
            view_opt_string(*model),
        ),
{
    let mut args: Vec<String> = Vec::new();
    args.push("--print".to_owned());
    args.push("--verbose".to_owned());
    args.push("--output-format".to_owned());
    args.push("stream-json".to_owned());
    args.push("--include-partial-messages".to_owned());
    args.push("--dangerously-skip-permissions".to_owned());
    match session_id {
        Option::Some(sid) => {
            args.push("--resume".to_owned());
            args.push(sid.clone());
        },
        Option::None => {},
    }
    match model {
        Option::Some(m) => {
            args.push("--model".to_owned());
            args.push(m.clone());
        },
        Option::None => {},
    }
    args.push(message);
    proof {
        assert(view_strings(args@) =~= spec_args(
            message@,
            view_opt_string(*session_id),
            view_opt_string(*model),
        ));
    }
    args
}

/// The outcome of the agent-presence check, given whether the version
/// probe ran and exited successfully and what it printed: the trimmed
/// version text, or the fixed installation hint.
pub fn check_claude_outcome(ran_ok: bool, stdout_text: &String) -> (r: Result<String, String>)
    ensures
        ran_ok ==> (r matches Ok(v) && v@ == trimmed(stdout_text@)),
        !ran_ok ==> (r matches Err(m) && m@
            == "El agente no esta instalado"@),
{
    if ran_ok {
        Result::Ok(trim_of(stdout_text))
    } else {
        Result::Err(
            "El agente no esta instalado".to_owned(),
        )
    }
}

/// The outcome of the version query, given whether the probe exited
/// successfully and what it printed: the trimmed version text, or the
/// fixed failure message.
pub fn version_outcome(status_ok: bool, stdout_text: &String) -> (r: Result<String, String>)
    ensures
        status_ok ==> (r matches Ok(v) && v@ == trimmed(stdout_text@)),
        !status_ok ==> (r matches Err(m) && m@ == "No se pudo obtener la version"@),
{
    if status_ok {
        Result::Ok(trim_of(stdout_text))
    } else {
        Result::Err("No se pudo obtener la version".to_owned())
    }
}

} // verus!
