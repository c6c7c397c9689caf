use potato_code::ChatSession;
use potato_code::delete_outcome;
use potato_code::sort_sessions;

fn session(id: &str, created_at: &str) -> ChatSession {
    ChatSession {
        id: id.to_string(),
        title: format!("title {}", id),
        messages: Vec::new(),
        created_at: created_at.to_string(),
        model: "m".to_string(),
    }
}

#[test]
fn sessions_sort_most_recent_first() {
    let input = vec![
        session("a", "2024-01-05T10:00:00"),
        session("b", "2024-03-01T09:30:00"),
        session("c", "2023-12-31T23:59:59"),
        session("d", "2024-03-01T09:30:01"),
    ];
    let sorted = sort_sessions(input);
    let ids: Vec<&str> = sorted.iter().map(|s| s.id.as_str()).collect();
    assert_eq!(ids, vec!["d", "b", "a", "c"]);
}

#[test]
fn sorting_keeps_every_session() {
    let input = vec![
        session("a", "2"),
        session("b", "1"),
        session("c", "2"),
    ];
    let sorted = sort_sessions(input);
    assert_eq!(sorted.len(), 3);
    let mut ids: Vec<&str> = sorted.iter().map(|s| s.id.as_str()).collect();
    ids.sort();
    assert_eq!(ids, vec!["a", "b", "c"]);
    assert_eq!(sorted[2].created_at, "1");
}

#[test]
fn deleting_a_missing_session_is_reported() {
    assert_eq!(delete_outcome(false, None), Err("Sesion no encontrada".to_string()));
    assert_eq!(delete_outcome(true, None), Ok(()));
    assert_eq!(
        delete_outcome(true, Some("permiso denegado".to_string())),
        Err("permiso denegado".to_string())
    );
}

#[test]
fn empty_listing_stays_empty() {
    let sorted = sort_sessions(Vec::new());
    assert!(sorted.is_empty());
}
