use potato_code::ProcessRegistry;
use potato_code::ToolPhase;
use potato_code::TurnState;
use potato_code::finish_turn;
use potato_code::handle_line;
use potato_code::run_lines;

fn lines(v: &[&str]) -> Vec<String> {
    v.iter().map(|s| s.to_string()).collect()
}

#[test]
fn session_id_then_text_delta_then_done() {
    let mut state = TurnState::new(None);
    let mut reg = ProcessRegistry::new();
    let input = lines(&[
        r#"{"session_id":"s1"}"#,
        r#"{"event":{"type":"content_block_delta","delta":{"type":"text_delta","text":"Hi"}}}"#,
    ]);
    let (chunks, killed) = run_lines(&mut state, &input, &mut reg, &"p1".to_string());
    assert_eq!(killed, None);
    assert_eq!(chunks.len(), 2);
    assert_eq!(chunks[0].session_id, Some("s1".to_string()));
    assert_eq!(chunks[0].content, "");
    assert!(!chunks[0].done);
    assert_eq!(chunks[1].content, "Hi");
    assert!(chunks[1].session_id.is_none());
    assert_eq!(state.text, "Hi");

    let (done, outcome) = finish_turn(&state, true, Some(0), &String::new());
    assert!(done.done);
    assert!(done.usage.is_none());
    assert_eq!(outcome, Ok("Hi".to_string()));
}

#[test]
fn session_id_is_announced_only_once() {
    let mut state = TurnState::new(None);
    let mut reg = ProcessRegistry::new();
    let input = lines(&[
        r#"{"session_id":"s1"}"#,
        r#"{"session_id":"s1","type":"stream_event","event":{"type":"content_block_delta","delta":{"type":"text_delta","text":"A"}}}"#,
    ]);
    let (chunks, _) = run_lines(&mut state, &input, &mut reg, &"p1".to_string());
    let announcements = chunks.iter().filter(|c| c.session_id.is_some()).count();
    assert_eq!(announcements, 1);
    assert_eq!(chunks.len(), 2);
    assert_eq!(chunks[1].content, "A");
}

#[test]
fn blank_and_malformed_lines_are_skipped() {
    let mut state = TurnState::new(None);
    let mut reg = ProcessRegistry::new();
    let input = lines(&[
        "",
        "   ",
        "not json at all {",
        r#"{"type":"stream_event","event":{"type":"content_block_delta","delta":{"type":"text_delta","text":"ok"}}}"#,
    ]);
    let (chunks, killed) = run_lines(&mut state, &input, &mut reg, &"p1".to_string());
    assert_eq!(killed, None);
    assert_eq!(chunks.len(), 1);
    assert_eq!(chunks[0].content, "ok");
    assert_eq!(state.text, "ok");
}

#[test]
fn unlisted_tool_is_intercepted_and_process_stopped() {
    let mut state = TurnState::new(Some(vec!["Read".to_string()]));
    let mut reg = ProcessRegistry::new();
    reg.register(&"p1".to_string(), 4242);
    let input = lines(&[
        r#"{"type":"stream_event","event":{"type":"content_block_start","index":0,"content_block":{"type":"tool_use","name":"Bash","id":"t1"}}}"#,
        r#"{"type":"stream_event","event":{"type":"content_block_delta","delta":{"type":"input_json_delta","partial_json":"{\"cmd\""}}}"#,
        r#"{"type":"stream_event","event":{"type":"content_block_delta","delta":{"type":"input_json_delta","partial_json":":\"ls\"}"}}}"#,
        r#"{"type":"stream_event","event":{"type":"content_block_stop","index":0}}"#,
        r#"{"type":"stream_event","event":{"type":"content_block_delta","delta":{"type":"text_delta","text":"NEVER"}}}"#,
    ]);
    let (chunks, killed) = run_lines(&mut state, &input, &mut reg, &"p1".to_string());
    assert_eq!(chunks.len(), 1);
    let tool = chunks[0].tool.as_ref().expect("tool activity");
    assert_eq!(tool.phase, ToolPhase::Approval);
    assert_eq!(tool.tool_name, "Bash");
    assert_eq!(tool.tool_id, "t1");
    let want: serde_json::Value = serde_json::from_str(r#"{"cmd":"ls"}"#).unwrap();
    assert_eq!(tool.input, Some(want));
    // notify, then kill: the process id is handed back for signaling and
    // the registry entry is gone.
    assert_eq!(killed, Some(4242));
    assert_eq!(reg.get_pid(&"p1".to_string()), None);
    // nothing after the triggering stop event was decoded
    assert_eq!(state.text, "");
    assert!(state.ended);

    // an interception is not an error: the turn succeeds with the text so far
    let (done, outcome) = finish_turn(&state, false, None, &String::new());
    assert!(done.done);
    assert_eq!(outcome, Ok(String::new()));
}

#[test]
fn ask_tool_is_intercepted_with_ask_phase() {
    let mut state = TurnState::new(None);
    let mut reg = ProcessRegistry::new();
    reg.register(&"p1".to_string(), 7);
    let input = lines(&[
        r#"{"type":"stream_event","event":{"type":"content_block_start","index":2,"content_block":{"type":"tool_use","name":"AskUserQuestion","id":"q1"}}}"#,
        r#"{"type":"stream_event","event":{"type":"content_block_stop","index":2}}"#,
    ]);
    let (chunks, killed) = run_lines(&mut state, &input, &mut reg, &"p1".to_string());
    assert_eq!(chunks.len(), 1);
    let tool = chunks[0].tool.as_ref().unwrap();
    assert_eq!(tool.phase, ToolPhase::Ask);
    assert_eq!(tool.tool_name, "AskUserQuestion");
    // empty input buffer parses to the explicit "no structured input" marker
    assert_eq!(tool.input, Some(serde_json::Value::Null));
    assert_eq!(killed, Some(7));
}

#[test]
fn listed_tool_starts_and_decoding_continues() {
    let mut state = TurnState::new(Some(vec!["Read".to_string()]));
    let mut reg = ProcessRegistry::new();
    reg.register(&"p1".to_string(), 99);
    let input = lines(&[
        r#"{"type":"stream_event","event":{"type":"content_block_start","index":1,"content_block":{"type":"tool_use","name":"Read","id":"r1"}}}"#,
        r#"{"type":"stream_event","event":{"type":"content_block_delta","delta":{"type":"input_json_delta","partial_json":"{\"file\":\"x\"}"}}}"#,
        r#"{"type":"stream_event","event":{"type":"content_block_stop","index":1}}"#,
        r#"{"type":"stream_event","event":{"type":"content_block_delta","delta":{"type":"text_delta","text":"after"}}}"#,
    ]);
    let (chunks, killed) = run_lines(&mut state, &input, &mut reg, &"p1".to_string());
    assert_eq!(killed, None);
    assert_eq!(chunks.len(), 2);
    let tool = chunks[0].tool.as_ref().unwrap();
    assert_eq!(tool.phase, ToolPhase::Start);
    assert_eq!(tool.tool_name, "Read");
    assert_eq!(tool.tool_id, "r1");
    let want: serde_json::Value = serde_json::from_str(r#"{"file":"x"}"#).unwrap();
    assert_eq!(tool.input, Some(want));
    // subsequent text deltas are still processed
    assert_eq!(chunks[1].content, "after");
    assert_eq!(state.text, "after");
    // the process keeps running
    assert_eq!(reg.get_pid(&"p1".to_string()), Some(99));
    assert!(!state.ended);
}

#[test]
fn mismatched_stop_index_is_ignored() {
    let mut state = TurnState::new(Some(vec![]));
    let mut reg = ProcessRegistry::new();
    reg.register(&"p1".to_string(), 5);
    let input = lines(&[
        r#"{"type":"stream_event","event":{"type":"content_block_start","index":0,"content_block":{"type":"tool_use","name":"Bash","id":"t1"}}}"#,
        r#"{"type":"stream_event","event":{"type":"content_block_stop","index":3}}"#,
    ]);
    let (chunks, killed) = run_lines(&mut state, &input, &mut reg, &"p1".to_string());
    assert!(chunks.is_empty());
    assert_eq!(killed, None);
    assert_eq!(reg.get_pid(&"p1".to_string()), Some(5));
}

#[test]
fn malformed_tool_input_becomes_null_marker() {
    let mut state = TurnState::new(Some(vec![]));
    let mut reg = ProcessRegistry::new();
    let input = lines(&[
        r#"{"type":"stream_event","event":{"type":"content_block_start","index":0,"content_block":{"type":"tool_use","name":"Bash","id":"t1"}}}"#,
        r#"{"type":"stream_event","event":{"type":"content_block_delta","delta":{"type":"input_json_delta","partial_json":"{\"unterminated"}}}"#,
        r#"{"type":"stream_event","event":{"type":"content_block_stop","index":0}}"#,
    ]);
    let (chunks, _) = run_lines(&mut state, &input, &mut reg, &"p1".to_string());
    assert_eq!(chunks.len(), 1);
    let tool = chunks[0].tool.as_ref().unwrap();
    assert_eq!(tool.input, Some(serde_json::Value::Null));
}

#[test]
fn tool_results_emit_one_chunk_per_item() {
    let mut state = TurnState::new(None);
    let mut reg = ProcessRegistry::new();
    let input = lines(&[
        r#"{"type":"user","message":{"content":[{"type":"tool_result","tool_use_id":"t1","content":"listing","is_error":false},{"type":"tool_result","tool_use_id":"t2","content":"boom","is_error":true}]},"tool_use_result":{"tool_name":"Bash"}}"#,
    ]);
    let (chunks, _) = run_lines(&mut state, &input, &mut reg, &"p1".to_string());
    assert_eq!(chunks.len(), 2);
    let first = chunks[0].tool.as_ref().unwrap();
    assert_eq!(first.phase, ToolPhase::Outcome);
    assert_eq!(first.tool_name, "Bash");
    assert_eq!(first.tool_id, "t1");
    assert_eq!(first.result, Some("listing".to_string()));
    assert_eq!(first.is_error, Some(false));
    let second = chunks[1].tool.as_ref().unwrap();
    assert_eq!(second.tool_id, "t2");
    assert_eq!(second.result, Some("boom".to_string()));
    assert_eq!(second.is_error, Some(true));
}

#[test]
fn tool_result_name_defaults_to_generic_label() {
    let mut state = TurnState::new(None);
    let mut reg = ProcessRegistry::new();
    let input = lines(&[
        r#"{"type":"user","message":{"content":[{"type":"tool_result","tool_use_id":"t9","content":"x"}]}}"#,
    ]);
    let (chunks, _) = run_lines(&mut state, &input, &mut reg, &"p1".to_string());
    assert_eq!(chunks.len(), 1);
    let tool = chunks[0].tool.as_ref().unwrap();
    assert_eq!(tool.tool_name, "Tool");
    assert_eq!(tool.is_error, Some(false));
}

#[test]
fn turn_result_usage_reaches_the_completion_notification() {
    let mut state = TurnState::new(None);
    let mut reg = ProcessRegistry::new();
    let input = lines(&[
        r#"{"type":"stream_event","event":{"type":"content_block_delta","delta":{"type":"text_delta","text":"done"}}}"#,
        r#"{"type":"result","usage":{"input_tokens":1,"cache_creation_input_tokens":2,"cache_read_input_tokens":3,"output_tokens":4}}"#,
    ]);
    let (chunks, _) = run_lines(&mut state, &input, &mut reg, &"p1".to_string());
    // the usage record itself emits no notification
    assert_eq!(chunks.len(), 1);
    let (done, outcome) = finish_turn(&state, true, Some(0), &String::new());
    let usage = done.usage.expect("usage captured");
    assert_eq!(usage.input_tokens, 6);
    assert_eq!(usage.output_tokens, 4);
    assert_eq!(outcome, Ok("done".to_string()));
}

#[test]
fn usage_with_missing_fields_treats_them_as_zero() {
    let mut state = TurnState::new(None);
    let mut reg = ProcessRegistry::new();
    let input = lines(&[r#"{"type":"result","usage":{"input_tokens":11,"output_tokens":2}}"#]);
    let (_, _) = run_lines(&mut state, &input, &mut reg, &"p1".to_string());
    let usage = state.usage.expect("usage captured");
    assert_eq!(usage.input_tokens, 11);
    assert_eq!(usage.output_tokens, 2);
}

#[test]
fn text_accumulates_in_arrival_order() {
    let mut state = TurnState::new(None);
    let mut reg = ProcessRegistry::new();
    let pid = "p1".to_string();
    for text in ["Hola", ", ", "mundo"] {
        let line = format!(
            r#"{{"type":"stream_event","event":{{"type":"content_block_delta","delta":{{"type":"text_delta","text":"{}"}}}}}}"#,
            text
        );
        let (chunks, _) = handle_line(&mut state, &line, &mut reg, &pid);
        assert_eq!(chunks.len(), 1);
        assert_eq!(chunks[0].content, text);
    }
    assert_eq!(state.text, "Hola, mundo");
}
