use dcgm_safe::loader::LibraryLoad;

#[test]
fn successful_load_lets_sessions_proceed() {
    let mut load = LibraryLoad::new();
    assert!(!load.attempted());
    load.record(None);
    assert!(load.attempted());
    assert!(load.gate().is_ok());
    assert!(load.gate().is_ok());
}

#[test]
fn failed_load_poisons_every_session_attempt() {
    let mut load = LibraryLoad::new();
    load.record(Some("Failed to load DCGM library".to_string()));
    let first = load.gate().unwrap_err();
    assert_eq!(first.message, "Failed to load DCGM library");
    let second = load.gate().unwrap_err();
    assert_eq!(second.message, "Failed to load DCGM library");
}
