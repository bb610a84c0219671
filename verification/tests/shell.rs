use kubedesk_core::errors::ShellError;
use kubedesk_core::shell::{
    attach_failure, shell_candidates, validate_shell_target, ContainerState, PodSnapshot, ShellManager,
};

fn runtime() -> tokio::runtime::Runtime {
    tokio::runtime::Builder::new_multi_thread().enable_all().build().unwrap()
}

fn running_pod() -> PodSnapshot {
    PodSnapshot {
        phase: "Running".to_string(),
        containers: vec![
            ContainerState { name: "app".to_string(), ready: true },
            ContainerState { name: "sidecar".to_string(), ready: false },
        ],
    }
}

#[test]
fn test_validate_rejects_pending_pod() {
    let pod = PodSnapshot {
        phase: "Pending".to_string(),
        containers: vec![ContainerState { name: "app".to_string(), ready: true }],
    };
    let r = validate_shell_target(&pod, &None);
    assert!(matches!(r, Err(ShellError::PreconditionFailed(_))));
}

#[test]
fn test_validate_resolves_first_container() {
    let pod = running_pod();
    let c = validate_shell_target(&pod, &None).expect("running pod with ready first container");
    assert_eq!(c, "app");
}

#[test]
fn test_validate_rejects_unready_container() {
    let pod = running_pod();
    let r = validate_shell_target(&pod, &Some("sidecar".to_string()));
    assert!(matches!(r, Err(ShellError::PreconditionFailed(_))));
}

#[test]
fn test_validate_rejects_unknown_container() {
    let pod = running_pod();
    let r = validate_shell_target(&pod, &Some("nope".to_string()));
    assert!(matches!(r, Err(ShellError::PreconditionFailed(_))));
}

#[test]
fn test_validate_rejects_empty_pod() {
    let pod = PodSnapshot { phase: "Running".to_string(), containers: vec![] };
    let r = validate_shell_target(&pod, &None);
    assert!(matches!(r, Err(ShellError::PreconditionFailed(_))));
}

#[test]
fn test_shell_candidates() {
    let defaults = shell_candidates(&None);
    assert_eq!(defaults, vec!["/bin/bash", "/bin/sh", "/bin/ash"]);
    let forced = shell_candidates(&Some("/bin/zsh".to_string()));
    assert_eq!(forced, vec!["/bin/zsh"]);
}

#[test]
fn test_send_input_unknown_session() {
    let manager = ShellManager::new();
    let r = manager.send_input("no-such-session", "ls\n".to_string());
    assert!(matches!(r, Err(ShellError::SessionNotFound)));
}

#[test]
fn test_session_lifecycle_and_isolation() {
    let rt = runtime();
    let (tx, mut rx) = tokio::sync::mpsc::unbounded_channel::<String>();
    let task = rt.spawn(async move { while rx.recv().await.is_some() {} });

    let mut manager = ShellManager::new();
    let id = manager.register_session(
        "web-0".to_string(),
        "default".to_string(),
        Some("app".to_string()),
        tx,
        task,
    );
    assert!(manager.has_session(&id));

    manager.send_input(&id, "echo hi\n".to_string()).expect("send to a live session");

    manager.close_session(&id).expect("close never fails");
    assert!(!manager.has_session(&id));

    // input after close must fail, never silently succeed
    let r = manager.send_input(&id, "echo again\n".to_string());
    assert!(matches!(r, Err(ShellError::SessionNotFound)));

    // a second close is a quiet no-op
    manager.close_session(&id).expect("second close never fails");
}

#[test]
fn test_send_after_pumps_ended() {
    let rt = runtime();
    let (tx, rx) = tokio::sync::mpsc::unbounded_channel::<String>();
    drop(rx);
    let task = rt.spawn(async {});
    let mut manager = ShellManager::new();
    let id = manager.register_session(
        "web-0".to_string(),
        "default".to_string(),
        None,
        tx,
        task,
    );
    // the receiving half is gone: the session is registered but input fails
    let r = manager.send_input(&id, "ls\n".to_string());
    assert!(matches!(r, Err(ShellError::ChannelClosed(_))));
    manager.close_all_sessions().unwrap();
}

#[test]
fn test_close_all_sessions() {
    let rt = runtime();
    let mut manager = ShellManager::new();
    let mut ids = Vec::new();
    for _ in 0..3 {
        let (tx, mut rx) = tokio::sync::mpsc::unbounded_channel::<String>();
        let task = rt.spawn(async move { while rx.recv().await.is_some() {} });
        ids.push(manager.register_session(
            "web-0".to_string(),
            "default".to_string(),
            None,
            tx,
            task,
        ));
    }
    manager.close_all_sessions().unwrap();
    for id in ids {
        assert!(!manager.has_session(&id));
    }
}

#[test]
fn test_attach_failure_message() {
    let e = attach_failure("app", Some("permission denied".to_string()));
    assert_eq!(
        e.message(),
        "Failed to execute shell in container 'app'. Tried /bin/bash, /bin/sh, /bin/ash. Last error: permission denied"
    );
    let e = attach_failure("app", None);
    assert_eq!(
        e.message(),
        "Failed to execute shell in container 'app'. Tried /bin/bash, /bin/sh, /bin/ash. Last error: Unknown error"
    );
    assert!(matches!(e, ShellError::ExecFailed(_)));
}
