use vinput_daemon::adaptor_manager::AdaptorManager;
use vinput_daemon::protocol::AdaptorStatus;

#[test]
fn test_adaptor_manager() {
    let mut manager = AdaptorManager::new();

    manager.start_adaptor("test-adaptor").unwrap();
    assert_eq!(manager.get_status("test-adaptor"), AdaptorStatus::Running);

    manager.stop_adaptor("test-adaptor").unwrap();
    assert_eq!(manager.get_status("test-adaptor"), AdaptorStatus::Stopped);
}

#[test]
fn test_get_running_adaptors() {
    let mut manager = AdaptorManager::new();

    manager.start_adaptor("adaptor-1").unwrap();
    manager.start_adaptor("adaptor-2").unwrap();

    let running = manager.get_running_adaptors();
    assert_eq!(running.len(), 2);

    manager.stop_all();
    assert!(manager.get_running_adaptors().is_empty());
}

#[test]
fn unknown_adaptor_reports_stopped() {
    let manager = AdaptorManager::default();
    assert_eq!(manager.get_status("nobody"), AdaptorStatus::Stopped);
    assert!(manager.get_running_adaptors().is_empty());
}

#[test]
fn stopping_unknown_adaptor_is_harmless() {
    let mut manager = AdaptorManager::new();
    manager.start_adaptor("a").unwrap();
    assert!(manager.stop_adaptor("b").is_ok());
    assert_eq!(manager.get_status("a"), AdaptorStatus::Running);
    assert_eq!(manager.get_status("b"), AdaptorStatus::Stopped);
    assert_eq!(manager.get_running_adaptors(), vec!["a".to_string()]);
}

#[test]
fn starting_twice_lists_adaptor_once() {
    let mut manager = AdaptorManager::new();
    manager.start_adaptor("a").unwrap();
    manager.start_adaptor("a").unwrap();
    assert_eq!(manager.get_running_adaptors(), vec!["a".to_string()]);
}

#[test]
fn stopped_adaptor_can_be_restarted() {
    let mut manager = AdaptorManager::new();
    manager.start_adaptor("a").unwrap();
    manager.stop_adaptor("a").unwrap();
    assert!(manager.get_running_adaptors().is_empty());
    manager.start_adaptor("a").unwrap();
    assert_eq!(manager.get_status("a"), AdaptorStatus::Running);
    assert_eq!(manager.get_running_adaptors(), vec!["a".to_string()]);
}

#[test]
fn stop_all_only_touches_registered_adaptors() {
    let mut manager = AdaptorManager::new();
    manager.start_adaptor("x").unwrap();
    manager.start_adaptor("y").unwrap();
    manager.start_adaptor("z").unwrap();
    manager.stop_adaptor("y").unwrap();
    let mut running = manager.get_running_adaptors();
    running.sort();
    assert_eq!(running, vec!["x".to_string(), "z".to_string()]);
    manager.stop_all();
    for id in ["x", "y", "z"] {
        assert_eq!(manager.get_status(id), AdaptorStatus::Stopped);
    }
}
