use potato_code::TurnState;
use potato_code::finish_turn;

#[test]
fn accumulated_text_is_trimmed() {
    let mut state = TurnState::new(None);
    state.text = "  hola  \n".to_string();
    let (_, outcome) = finish_turn(&state, true, Some(0), &String::new());
    assert_eq!(outcome, Ok("hola".to_string()));
}

#[test]
fn nonzero_exit_with_text_still_succeeds() {
    let mut state = TurnState::new(None);
    state.text = "partial".to_string();
    let (_, outcome) = finish_turn(&state, false, Some(1), &String::new());
    assert_eq!(outcome, Ok("partial".to_string()));
}

#[test]
fn failure_uses_trimmed_error_stream_text() {
    let state = TurnState::new(None);
    let (_, outcome) = finish_turn(&state, false, Some(1), &"  boom boom  \n".to_string());
    assert_eq!(outcome, Err("boom boom".to_string()));
}

#[test]
fn failure_without_diagnostics_reports_the_exit_code() {
    let state = TurnState::new(None);
    let (_, outcome) = finish_turn(&state, false, Some(3), &"   ".to_string());
    assert_eq!(outcome, Err("El agente salio con codigo: 3".to_string()));
}

#[test]
fn missing_exit_code_reports_minus_one() {
    let state = TurnState::new(None);
    let (_, outcome) = finish_turn(&state, false, None, &String::new());
    assert_eq!(outcome, Err("El agente salio con codigo: -1".to_string()));
}

#[test]
fn interception_is_not_an_error() {
    let mut state = TurnState::new(None);
    state.text = "so far".to_string();
    state.ended = true;
    let (done, outcome) = finish_turn(&state, false, None, &"ignored".to_string());
    assert!(done.done);
    assert_eq!(outcome, Ok("so far".to_string()));
}
