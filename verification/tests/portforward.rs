use kubedesk_core::errors::PortForwardError;
use kubedesk_core::portforward::{derive_forward_id, PortForwardManager};

fn runtime() -> tokio::runtime::Runtime {
    tokio::runtime::Builder::new_multi_thread().enable_all().build().unwrap()
}

#[test]
fn test_derive_forward_id() {
    let id = derive_forward_id("service", "pg-rw", "default", 15432);
    assert_eq!(id, "service-default-pg-rw-15432");
    let again = derive_forward_id("service", "pg-rw", "default", 15432);
    assert_eq!(id, again);
    assert_eq!(derive_forward_id("pod", "web-0", "prod", 80), "pod-prod-web-0-80");
}

#[test]
fn test_start_stop_restart_cycle() {
    let rt = runtime();
    let _guard = rt.enter();
    let mut manager = PortForwardManager::with_command("true".to_string());

    let info = manager
        .start_port_forward("service", "pg-rw", "default", 15432, 5432)
        .expect("first start must succeed");
    assert_eq!(info.local_port, 15432);
    assert_eq!(info.remote_port, 5432);
    assert_eq!(info.status, "running");
    assert_eq!(info.id, "service-default-pg-rw-15432");
    assert_eq!(info.resource_type, "service");
    assert_eq!(info.resource_name, "pg-rw");
    assert_eq!(info.namespace, "default");

    let second = manager.start_port_forward("service", "pg-rw", "default", 15432, 5432);
    assert!(matches!(second, Err(PortForwardError::AlreadyExists)));

    manager.stop_port_forward(&info.id).expect("stop of a registered forward");

    let third = manager
        .start_port_forward("service", "pg-rw", "default", 15432, 5432)
        .expect("restart after stop must succeed");
    assert_eq!(third.id, info.id);
}

#[test]
fn test_second_start_leaves_one_entry() {
    let rt = runtime();
    let _guard = rt.enter();
    let mut manager = PortForwardManager::with_command("true".to_string());

    let info = manager
        .start_port_forward("service", "db-rw", "default", 25432, 5432)
        .expect("start");
    let second = manager.start_port_forward("service", "db-rw", "default", 25432, 5432);
    assert!(matches!(second, Err(PortForwardError::AlreadyExists)));

    // exactly one entry carries the id: the first stop removes it, a second
    // stop finds nothing
    manager.stop_port_forward(&info.id).expect("the refused start left the entry in place");
    let again = manager.stop_port_forward(&info.id);
    assert!(matches!(again, Err(PortForwardError::NotFound)));
}

#[test]
fn test_stop_unknown_id() {
    let rt = runtime();
    let _guard = rt.enter();
    let mut manager = PortForwardManager::new();
    let r = manager.stop_port_forward("service-default-nothing-1");
    assert!(matches!(r, Err(PortForwardError::NotFound)));
}

#[test]
fn test_list_prunes_exited_forward() {
    let rt = runtime();
    let _guard = rt.enter();
    let mut manager = PortForwardManager::with_command("true".to_string());

    // `true` exits at once, so the liveness sweep must drop the entry
    let info = manager
        .start_port_forward("service", "gone-rw", "default", 35432, 5432)
        .expect("start");
    rt.block_on(async {
        tokio::time::sleep(std::time::Duration::from_millis(500)).await;
    });
    let listed = manager.list_port_forwards();
    assert!(listed.iter().all(|i| i.id != info.id));
    assert!(listed.is_empty());
}

#[test]
fn test_retain_live_drops_flagged_entries() {
    let rt = runtime();
    let _guard = rt.enter();
    let mut manager = PortForwardManager::with_command("true".to_string());
    let a = manager.start_port_forward("service", "a-rw", "default", 41001, 5432).unwrap();
    let b = manager.start_port_forward("service", "b-rw", "default", 41002, 5432).unwrap();
    let kept = manager.retain_live(&vec![false, true]);
    assert_eq!(kept.len(), 1);
    assert_eq!(kept[0].id, b.id);
    assert!(kept.iter().all(|i| i.id != a.id));
    manager.stop_all().unwrap();
}

#[test]
fn test_stop_all_empties_registry() {
    let rt = runtime();
    let _guard = rt.enter();
    let mut manager = PortForwardManager::with_command("true".to_string());
    manager.start_port_forward("service", "x-rw", "default", 42001, 5432).unwrap();
    manager.start_port_forward("pod", "web-0", "default", 42002, 80).unwrap();
    manager.stop_all().unwrap();
    assert!(manager.list_port_forwards().is_empty());
}

#[test]
fn test_spawn_failure_registers_nothing() {
    let rt = runtime();
    let _guard = rt.enter();
    let mut manager =
        PortForwardManager::with_command("forwarder-that-does-not-exist".to_string());
    let r = manager.start_port_forward("service", "pg-rw", "default", 15432, 5432);
    assert!(matches!(r, Err(PortForwardError::Spawn(_))));
    assert!(manager.list_port_forwards().is_empty());
}
