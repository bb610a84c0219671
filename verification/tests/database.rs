use kubedesk_core::connection::{
    teardown_steps, ConnectionManager, DatabaseConnection, DatabasePortForward, TeardownStep,
};
use kubedesk_core::database::DbConnectionInfo;
use kubedesk_core::errors::DatabaseError;
use kubedesk_core::portforward::PortForwardManager;

fn runtime() -> tokio::runtime::Runtime {
    tokio::runtime::Builder::new_multi_thread().enable_all().build().unwrap()
}

#[test]
fn test_connection_info() {
    let info = DbConnectionInfo {
        connection_id: "test-123".to_string(),
        cluster_name: "test-cluster".to_string(),
        namespace: "test-ns".to_string(),
        database: "testdb".to_string(),
        local_port: 54321,
    };

    assert_eq!(info.connection_id, "test-123");
    assert_eq!(info.cluster_name, "test-cluster");
    assert_eq!(info.namespace, "test-ns");
    assert_eq!(info.database, "testdb");
    assert_eq!(info.local_port, 54321);
}

#[test]
fn test_teardown_order() {
    let steps = teardown_steps();
    assert_eq!(steps, vec![TeardownStep::ClosePool, TeardownStep::StopPortForward]);
}

#[test]
fn test_database_port_forward_targets_rw_service() {
    let rt = runtime();
    let _guard = rt.enter();
    let mut pf = PortForwardManager::with_command("true".to_string());
    let d = DatabasePortForward::create(&mut pf, "pgcluster", "default", "conn-1".to_string(), 46001)
        .expect("create");
    assert_eq!(d.service_name, "pgcluster-rw");
    assert_eq!(d.remote_port, 5432);
    assert_eq!(d.local_port, 46001);
    assert_eq!(d.namespace, "default");
    assert_eq!(d.connection_id, "conn-1");
    assert_eq!(d.port_forward_id, "service-default-pgcluster-rw-46001");
    DatabasePortForward::stop(&mut pf, &d.port_forward_id).expect("stop");
}

#[test]
fn test_failed_probe_leaks_no_tunnel() {
    let rt = runtime();
    let _guard = rt.enter();
    let mut pf = PortForwardManager::with_command("true".to_string());

    let conn = DatabaseConnection::create(
        &mut pf, "pgcluster", "default", "appdb", "user", "pw", 46101,
    )
    .expect("forward and pool are built before the readiness gate");

    // the readiness probe failed: the connect must unwind completely
    let r = conn.confirm(&mut pf, Err(DatabaseError::PostgresError("test query failed".to_string())));
    assert!(matches!(r, Err(DatabaseError::PostgresError(_))));
    assert!(pf.list_port_forwards().is_empty());
}

#[test]
fn test_successful_probe_registers_connection() {
    let rt = runtime();
    let _guard = rt.enter();
    let mut pf = PortForwardManager::with_command("true".to_string());

    let conn = DatabaseConnection::create(
        &mut pf, "pgcluster", "default", "appdb", "user", "pw", 46201,
    )
    .expect("create");
    let conn = conn.confirm(&mut pf, Ok(())).expect("confirmed connection");
    assert_eq!(conn.info.cluster_name, "pgcluster");
    assert_eq!(conn.info.database, "appdb");
    assert_eq!(conn.info.local_port, 46201);
    assert_eq!(conn.info.connection_id.len(), 36);

    let mut manager = ConnectionManager::new();
    let id = conn.info.connection_id.clone();
    assert!(!manager.has_connection(&id));
    let info = manager.register(conn);
    assert_eq!(info.connection_id, id);
    assert!(manager.has_connection(&id));

    let listed = manager.list_connections();
    assert_eq!(listed.len(), 1);
    assert_eq!(listed[0].connection_id, id);

    // teardown: the connection leaves the registry and its forward is stopped
    manager.disconnect(&mut pf, &id).expect("disconnect");
    assert!(!manager.has_connection(&id));
    assert!(pf.list_port_forwards().is_empty());
}

#[test]
fn test_disconnect_unknown_connection() {
    let rt = runtime();
    let _guard = rt.enter();
    let mut pf = PortForwardManager::new();
    let mut manager = ConnectionManager::new();
    let r = manager.disconnect(&mut pf, "missing");
    assert!(matches!(r, Err(DatabaseError::ConnectionNotFound(_))));
}

#[test]
fn test_health_check_never_errors() {
    let rt = runtime();
    let _guard = rt.enter();
    let mut pf = PortForwardManager::with_command("true".to_string());
    let conn = DatabaseConnection::create(
        &mut pf, "pgcluster", "default", "appdb", "user", "pw", 46301,
    )
    .expect("create");

    // a broken pool yields `false`, never a propagated error
    let broken = conn.health_check(Err(DatabaseError::PoolError("connection refused".to_string())));
    assert_eq!(broken, Ok(false));
    let healthy = conn.health_check(Ok(()));
    assert_eq!(healthy, Ok(true));

    conn.close(&mut pf).expect("close");
    assert!(pf.list_port_forwards().is_empty());
}

#[test]
fn test_stop_missing_forward() {
    let rt = runtime();
    let _guard = rt.enter();
    let mut pf = PortForwardManager::new();
    let r = DatabasePortForward::stop(&mut pf, "service-default-x-rw-1");
    assert!(matches!(r, Err(DatabaseError::PortForwardError(_))));
}
