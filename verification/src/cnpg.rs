//! Connection details of a CloudNativePG cluster: the conventional service
//! names, the candidate credential secrets, and the connection strings built
//! from decoded credential fields. Fetching and decoding the secrets is the
//! cluster gateway's work; everything here is plain string construction.

use vstd::prelude::*;
use vstd::string::StringExecFns;

use crate::connection::rw_service;

verus! {

/// Everything a caller needs to reach one CloudNativePG database.
#[derive(Debug, Clone, PartialEq, Eq)]
pub struct CNPGConnectionDetails {
    pub cluster_name: String,
    pub namespace: String,
    pub database: String,
    pub username: String,
    pub password: String,
    pub host: String,
    pub port: String,
    pub uri: String,
    pub fqdn_uri: String,
    pub jdbc_uri: String,
    pub fqdn_jdbc_uri: String,
    pub pgpass: String,
}

/// The in-cluster domain name of the cluster's read-write service.
pub open spec fn fqdn_host_spec(cluster: Seq<char>, namespace: Seq<char>) -> Seq<char> {
    rw_service(cluster) + "."@ + namespace + ".svc.cluster.local"@
}

/// `postgresql://{user}:{password}@{host}:{port}/{database}`.
pub open spec fn pg_uri_spec(
    username: Seq<char>,
    password: Seq<char>,
    host: Seq<char>,
    port: Seq<char>,
    database: Seq<char>,
) -> Seq<char> {
    "postgresql://"@ + username + ":"@ + password + "@"@ + host + ":"@ + port + "/"@ + database
}

/// `jdbc:postgresql://{host}:{port}/{database}`.
pub open spec fn jdbc_uri_spec(host: Seq<char>, port: Seq<char>, database: Seq<char>) -> Seq<
    char,
> {
    "jdbc:postgresql://"@ + host + ":"@ + port + "/"@ + database
}

/// One line of a password file: `host:port:database:username:password`.
pub open spec fn pgpass_spec(
    host: Seq<char>,
    port: Seq<char>,
    database: Seq<char>,
    username: Seq<char>,
    password: Seq<char>,
) -> Seq<char> {
    host + ":"@ + port + ":"@ + database + ":"@ + username + ":"@ + password
}

fn fqdn_host(cluster_name: &str, namespace: &str) -> (r: String)
    ensures
        r@ == fqdn_host_spec(cluster_name@, namespace@),
{
    proof {
        reveal_strlit("-rw");
        assert("-rw"@ =~= seq!['-', 'r', 'w']);
    }
    let mut r = cluster_name.to_owned();
    r.append("-rw");
    r.append(".");
    r.append(namespace);
    r.append(".svc.cluster.local");
    proof {
        assert(r@ =~= fqdn_host_spec(cluster_name@, namespace@));
    }
    r
}

fn pg_uri(username: &str, password: &str, host: &str, port: &str, database: &str) -> (r: String)
    ensures
        r@ == pg_uri_spec(username@, password@, host@, port@, database@),
{
    let mut r = "postgresql://".to_owned();
    r.append(username);
    r.append(":");
    r.append(password);
    r.append("@");
    r.append(host);
    r.append(":");
    r.append(port);
    r.append("/");
    r.append(database);
    proof {
        assert(r@ =~= pg_uri_spec(username@, password@, host@, port@, database@));
    }
    r
}

fn jdbc_uri(host: &str, port: &str, database: &str) -> (r: String)
    ensures
        r@ == jdbc_uri_spec(host@, port@, database@),
{
    let mut r = "jdbc:postgresql://".to_owned();
    r.append(host);
    r.append(":");
    r.append(port);
    r.append("/");
    r.append(database);
    proof {
        assert(r@ =~= jdbc_uri_spec(host@, port@, database@));
    }
    r
}

fn pgpass_line(host: &str, port: &str, database: &str, username: &str, password: &str) -> (r:
    String)
    ensures
        r@ == pgpass_spec(host@, port@, database@, username@, password@),
{
    let mut r = host.to_owned();
    r.append(":");
    r.append(port);
    r.append(":");
    r.append(database);
    r.append(":");
    r.append(username);
    r.append(":");
    r.append(password);
    proof {
        assert(r@ =~= pgpass_spec(host@, port@, database@, username@, password@));
    }
    r
}

/// Builds the full connection details from credentials the gateway decoded:
/// the host is the cluster's read-write service under its conventional name,
/// the port the PostgreSQL default, and every connection string is assembled
/// exactly from those parts.
pub fn build_connection_details(
    cluster_name: &str,
    namespace: &str,
    database: String,
    username: String,
    password: String,
) -> (r: CNPGConnectionDetails)
    ensures
        r.cluster_name@ == cluster_name@,
        r.namespace@ == namespace@,
        r.database == database,
        r.username == username,
        r.password == password,
        r.host@ == rw_service(cluster_name@),
        r.port@ == "5432"@,
        r.uri@ == pg_uri_spec(username@, password@, rw_service(cluster_name@), "5432"@, database@),
        r.fqdn_uri@ == pg_uri_spec(
            username@,
            password@,
            fqdn_host_spec(cluster_name@, namespace@),
            "5432"@,
            database@,
        ),
        r.jdbc_uri@ == jdbc_uri_spec(rw_service(cluster_name@), "5432"@, database@),
        r.fqdn_jdbc_uri@ == jdbc_uri_spec(
            fqdn_host_spec(cluster_name@, namespace@),
            "5432"@,
            database@,
        ),
        r.pgpass@ == pgpass_spec(
            rw_service(cluster_name@),
            "5432"@,
            database@,
            username@,
            password@,
        ),
{
    proof {
        reveal_strlit("-rw");
        assert("-rw"@ =~= seq!['-', 'r', 'w']);
    }
    let mut host = cluster_name.to_owned();
    host.append("-rw");
    proof {
        assert(host@ =~= rw_service(cluster_name@));
    }
    let port = "5432".to_owned();
    let fqdn = fqdn_host(cluster_name, namespace);
    let uri = pg_uri(
        username.as_str(),
        password.as_str(),
        host.as_str(),
        port.as_str(),
        database.as_str(),
    );
    let fqdn_uri = pg_uri(
        username.as_str(),
        password.as_str(),
        fqdn.as_str(),
        port.as_str(),
        database.as_str(),
    );
    let jdbc = jdbc_uri(host.as_str(), port.as_str(), database.as_str());
    let fqdn_jdbc = jdbc_uri(fqdn.as_str(), port.as_str(), database.as_str());
    let pgpass = pgpass_line(
        host.as_str(),
        port.as_str(),
        database.as_str(),
        username.as_str(),
        password.as_str(),
    );
    CNPGConnectionDetails {
        cluster_name: cluster_name.to_owned(),
        namespace: namespace.to_owned(),
        database,
        username,
        password,
        host,
        port,
        uri,
        fqdn_uri,
        jdbc_uri: jdbc,
        fqdn_jdbc_uri: fqdn_jdbc,
        pgpass,
    }
}

/// The credential secrets tried for a cluster, in order: the configured
/// bootstrap secret when the cluster names one, then the conventional
/// `-app`, `-appuser` and `-superuser` secrets.
pub fn secret_candidates(cluster_name: &str, configured: Option<String>) -> (r: Vec<String>)
    ensures
        ({
            let conventional = seq![
                cluster_name@ + "-app"@,
                cluster_name@ + "-appuser"@,
                cluster_name@ + "-superuser"@,
            ];
            let names = Seq::new(r@.len(), |i: int| r@[i]@);
            match configured {
                Some(c) => names =~= seq![c@] + conventional,
                None => names =~= conventional,
            }
        }),
{
    let mut r: Vec<String> = Vec::new();
    if let Some(c) = configured {
        r.push(c);
    }
    let mut app = cluster_name.to_owned();
    app.append("-app");
    r.push(app);
    let mut appuser = cluster_name.to_owned();
    appuser.append("-appuser");
    r.push(appuser);
    let mut superuser = cluster_name.to_owned();
    superuser.append("-superuser");
    r.push(superuser);
    r
}

} // verus!
