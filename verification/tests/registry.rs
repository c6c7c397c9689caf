use potato_code::ProcessRegistry;

#[test]
fn register_and_get_pid() {
    let mut reg = ProcessRegistry::new();
    reg.register(&"s1".to_string(), 100);
    reg.register(&"s2".to_string(), 200);
    assert_eq!(reg.get_pid(&"s1".to_string()), Some(100));
    assert_eq!(reg.get_pid(&"s2".to_string()), Some(200));
    assert_eq!(reg.get_pid(&"s3".to_string()), None);
}

#[test]
fn register_overwrites_stale_entry() {
    let mut reg = ProcessRegistry::new();
    reg.register(&"s1".to_string(), 100);
    reg.register(&"s1".to_string(), 777);
    assert_eq!(reg.get_pid(&"s1".to_string()), Some(777));
    assert_eq!(reg.stop(&"s1".to_string()), Ok(777));
    assert_eq!(reg.get_pid(&"s1".to_string()), None);
}

#[test]
fn unregister_is_idempotent() {
    let mut reg = ProcessRegistry::new();
    reg.register(&"s1".to_string(), 100);
    reg.unregister(&"s1".to_string());
    assert_eq!(reg.get_pid(&"s1".to_string()), None);
    reg.unregister(&"s1".to_string());
    assert_eq!(reg.get_pid(&"s1".to_string()), None);
}

#[test]
fn register_then_unregister_leaves_registry_empty() {
    let mut reg = ProcessRegistry::new();
    reg.register(&"s1".to_string(), 100);
    reg.unregister(&"s1".to_string());
    let pids = reg.stop_all();
    assert!(pids.is_empty());
}

#[test]
fn stop_unregistered_session_is_an_error() {
    let mut reg = ProcessRegistry::new();
    let r = reg.stop(&"nope".to_string());
    assert_eq!(r, Err("No hay proceso activo para esa sesion".to_string()));
}

#[test]
fn stop_removes_and_hands_back_the_pid() {
    let mut reg = ProcessRegistry::new();
    reg.register(&"s1".to_string(), 4242);
    assert_eq!(reg.stop(&"s1".to_string()), Ok(4242));
    assert_eq!(
        reg.stop(&"s1".to_string()),
        Err("No hay proceso activo para esa sesion".to_string())
    );
}

#[test]
fn stop_all_signals_every_pid_exactly_once() {
    let mut reg = ProcessRegistry::new();
    reg.register(&"a".to_string(), 1);
    reg.register(&"b".to_string(), 2);
    reg.register(&"c".to_string(), 3);
    let mut pids = reg.stop_all();
    pids.sort();
    assert_eq!(pids, vec![1, 2, 3]);
    assert_eq!(reg.get_pid(&"a".to_string()), None);
    assert_eq!(reg.get_pid(&"b".to_string()), None);
    assert_eq!(reg.get_pid(&"c".to_string()), None);
    assert!(reg.stop_all().is_empty());
}
