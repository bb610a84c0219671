use kubedesk_core::cnpg::{build_connection_details, secret_candidates};

#[test]
fn test_build_connection_details() {
    let d = build_connection_details(
        "pgcluster",
        "default",
        "appdb".to_string(),
        "app".to_string(),
        "pw".to_string(),
    );
    assert_eq!(d.host, "pgcluster-rw");
    assert_eq!(d.port, "5432");
    assert_eq!(d.uri, "postgresql://app:pw@pgcluster-rw:5432/appdb");
    assert_eq!(
        d.fqdn_uri,
        "postgresql://app:pw@pgcluster-rw.default.svc.cluster.local:5432/appdb"
    );
    assert_eq!(d.jdbc_uri, "jdbc:postgresql://pgcluster-rw:5432/appdb");
    assert_eq!(
        d.fqdn_jdbc_uri,
        "jdbc:postgresql://pgcluster-rw.default.svc.cluster.local:5432/appdb"
    );
    assert_eq!(d.pgpass, "pgcluster-rw:5432:appdb:app:pw");
}

#[test]
fn test_secret_candidates() {
    let with_configured = secret_candidates("pg", Some("my-secret".to_string()));
    assert_eq!(with_configured, vec!["my-secret", "pg-app", "pg-appuser", "pg-superuser"]);
    let conventional = secret_candidates("pg", None);
    assert_eq!(conventional, vec!["pg-app", "pg-appuser", "pg-superuser"]);
}
