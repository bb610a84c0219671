use kubedesk_core::kubeconfig::{
    apply_context_switch, get_cluster_by_name, get_current_context, get_kubeconfig_path,
    get_kubeconfig_paths, merge_kubeconfigs, Cluster, ClusterEntry, Context, ContextEntry,
    KubeConfig, User, UserEntry,
};

fn context(name: &str) -> ContextEntry {
    ContextEntry {
        name: name.to_string(),
        context: Context {
            cluster: format!("{}-cluster", name),
            user: format!("{}-user", name),
            namespace: None,
        },
    }
}

fn cluster(name: &str, server: &str) -> ClusterEntry {
    ClusterEntry {
        name: name.to_string(),
        cluster: Cluster {
            server: server.to_string(),
            certificate_authority_data: None,
            certificate_authority: None,
        },
    }
}

fn user(name: &str) -> UserEntry {
    UserEntry {
        name: name.to_string(),
        user: User {
            client_certificate_data: None,
            client_key_data: None,
            token: None,
            exec_config: None,
        },
    }
}

fn config(current: &str, names: &[&str]) -> KubeConfig {
    KubeConfig {
        current_context: current.to_string(),
        contexts: names.iter().map(|n| context(n)).collect(),
        clusters: names.iter().map(|n| cluster(n, "https://example:6443")).collect(),
        users: names.iter().map(|n| user(n)).collect(),
    }
}

#[test]
fn test_kubeconfig_paths_from_variable() {
    let r = get_kubeconfig_paths(Some("/a/config:/b/config::"), Some("/home/me")).unwrap();
    assert_eq!(r, vec!["/a/config", "/b/config"]);
}

#[test]
fn test_kubeconfig_paths_fall_back_to_home() {
    let r = get_kubeconfig_paths(None, Some("/home/me")).unwrap();
    assert_eq!(r, vec!["/home/me/.kube/config"]);
    let empty_var = get_kubeconfig_paths(Some(":::"), Some("/home/me")).unwrap();
    assert_eq!(empty_var, vec!["/home/me/.kube/config"]);
}

#[test]
fn test_kubeconfig_paths_need_some_source() {
    assert!(get_kubeconfig_paths(None, None).is_err());
    assert!(get_kubeconfig_path(None, None).is_err());
    let first = get_kubeconfig_path(Some("/a:/b"), None).unwrap();
    assert_eq!(first, "/a");
}

#[test]
fn test_get_current_context() {
    let c = config("beta", &["alpha", "beta"]);
    let found = get_current_context(&c).expect("beta is present");
    assert_eq!(found.name, "beta");

    let missing = config("gone", &["alpha", "beta"]);
    assert!(get_current_context(&missing).is_none());
}

#[test]
fn test_get_cluster_by_name() {
    let c = config("alpha", &["alpha", "beta"]);
    let found = get_cluster_by_name(&c, "beta").expect("beta is present");
    assert_eq!(found.name, "beta");
    assert!(get_cluster_by_name(&c, "gamma").is_none());
}

#[test]
fn test_merge_keeps_first_and_dedups() {
    let first = config("alpha", &["alpha", "beta"]);
    let second = config("beta", &["beta", "gamma"]);
    let merged = merge_kubeconfigs(vec![first, second]).expect("two files");
    assert_eq!(merged.current_context, "alpha");
    let names: Vec<&str> = merged.contexts.iter().map(|c| c.name.as_str()).collect();
    assert_eq!(names, vec!["alpha", "beta", "gamma"]);
    let cluster_names: Vec<&str> = merged.clusters.iter().map(|c| c.name.as_str()).collect();
    assert_eq!(cluster_names, vec!["alpha", "beta", "gamma"]);
    let user_names: Vec<&str> = merged.users.iter().map(|u| u.name.as_str()).collect();
    assert_eq!(user_names, vec!["alpha", "beta", "gamma"]);
}

#[test]
fn test_merge_of_nothing_fails() {
    assert!(merge_kubeconfigs(vec![]).is_err());
}

#[test]
fn test_apply_context_switch() {
    let first = config("alpha", &["alpha"]);
    let merged = merge_kubeconfigs(vec![config("alpha", &["alpha"]), config("beta", &["beta"])])
        .unwrap();
    let switched = apply_context_switch(first, &merged, "beta").expect("beta exists merged");
    assert_eq!(switched.current_context, "beta");
    // only the current context changes; the first file's entries stay
    assert_eq!(switched.contexts.len(), 1);
    assert_eq!(switched.contexts[0].name, "alpha");

    let first = config("alpha", &["alpha"]);
    let r = apply_context_switch(first, &merged, "gamma");
    assert!(r.is_err());
}
