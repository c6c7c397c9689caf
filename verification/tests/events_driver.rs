use potato_code::AgentEvent;
use potato_code::EventKind;
use potato_code::ProcessRegistry;
use potato_code::ToolPhase;
use potato_code::TurnState;
use potato_code::run_events;

fn bare(kind: EventKind) -> AgentEvent {
    AgentEvent { session_id: None, kind }
}

#[test]
fn events_after_an_interception_are_not_processed() {
    let mut state = TurnState::new(Some(vec!["Read".to_string()]));
    let mut reg = ProcessRegistry::new();
    reg.register(&"p1".to_string(), 31337);
    let events = vec![
        bare(EventKind::ToolStart {
            name: "Bash".to_string(),
            id: "t1".to_string(),
            index: Some(0),
        }),
        bare(EventKind::InputFragment { fragment: "{}".to_string() }),
        bare(EventKind::ToolStop { index: Some(0) }),
        bare(EventKind::TextDelta { text: "NEVER".to_string() }),
        bare(EventKind::ToolStart {
            name: "Read".to_string(),
            id: "t2".to_string(),
            index: Some(1),
        }),
        bare(EventKind::ToolStop { index: Some(1) }),
    ];
    let (chunks, killed) = run_events(&mut state, events, &mut reg, &"p1".to_string());
    assert_eq!(chunks.len(), 1);
    assert_eq!(chunks[0].tool.as_ref().unwrap().phase, ToolPhase::Approval);
    assert_eq!(killed, Some(31337));
    assert!(state.ended);
    assert_eq!(state.text, "");
    assert_eq!(reg.get_pid(&"p1".to_string()), None);
}

#[test]
fn auto_approved_flow_keeps_decoding() {
    let mut state = TurnState::new(None);
    let mut reg = ProcessRegistry::new();
    reg.register(&"p1".to_string(), 1);
    let events = vec![
        AgentEvent {
            session_id: Some("s7".to_string()),
            kind: EventKind::TextDelta { text: "a".to_string() },
        },
        bare(EventKind::ToolStart {
            name: "Write".to_string(),
            id: "t1".to_string(),
            index: None,
        }),
        bare(EventKind::ToolStop { index: None }),
        bare(EventKind::TextDelta { text: "b".to_string() }),
    ];
    let (chunks, killed) = run_events(&mut state, events, &mut reg, &"p1".to_string());
    assert_eq!(killed, None);
    // session announcement, text, tool start, text — in decode order
    assert_eq!(chunks.len(), 4);
    assert_eq!(chunks[0].session_id, Some("s7".to_string()));
    assert_eq!(chunks[1].content, "a");
    assert_eq!(chunks[2].tool.as_ref().unwrap().phase, ToolPhase::Start);
    assert_eq!(chunks[3].content, "b");
    assert_eq!(state.text, "ab");
    assert_eq!(state.session_id, Some("s7".to_string()));
    assert_eq!(reg.get_pid(&"p1".to_string()), Some(1));
}
