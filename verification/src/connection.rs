//! The database connection manager: each connection owns one private
//! port-forward and one pooled SQL client, created forward-first and torn
//! down pool-first.

use vstd::prelude::*;
use vstd::pervasive::unreached;
use vstd::string::StringExecFns;

use crate::database::{DbConnectionInfo, DbConnectionInfoV};
use crate::errors::DatabaseError;
use crate::portforward::{
    forward_id_spec, has_id, index_of_id, without_id, PortForwardManager,
};
use crate::text::str_eq;
use crate::types::PortForwardInfoV;

verus! {

/// The read-write service of a CloudNativePG cluster: `{cluster}-rw`.
pub open spec fn rw_service(cluster: Seq<char>) -> Seq<char> {
    cluster + seq!['-', 'r', 'w']
}

/// The PostgreSQL port a database forward always targets.
pub open spec fn postgres_port() -> u16 {
    5432
}

/// An opaque handle to the pooled SQL client manager. The pool type of the
/// `deadpool` crates cannot be declared to the verifier (its generics are
/// bounded by an outside trait), so it is sealed here; the asynchronous layer
/// around the library reaches the pool through the public field, and verified
/// code only ever creates the pool and closes it, through the trusted
/// wrappers below.
#[verifier::external_body]
pub struct DbPool {
    pub pool: deadpool_postgres::Pool,
}

/// Relies on `deadpool_postgres::Config::create_pool`: builds a pool bound to
/// the given host and port with the given credentials, a bounded connect
/// timeout, and fast recycling; no connection is attempted at build time.
#[verifier::external_body]
fn make_pool(
    host: &str,
    port: u16,
    dbname: &str,
    user: &str,
    password: &str,
    connect_timeout_secs: u64,
) -> (r: Result<DbPool, String>) {
    let mut cfg = deadpool_postgres::Config::new();
    cfg.host = Some(host.to_string());
    cfg.port = Some(port);
    cfg.dbname = Some(dbname.to_string());
    cfg.user = Some(user.to_string());
    cfg.password = Some(password.to_string());
    cfg.connect_timeout = Some(std::time::Duration::from_secs(connect_timeout_secs));
    cfg.manager = Some(deadpool_postgres::ManagerConfig {
        recycling_method: deadpool_postgres::RecyclingMethod::Fast,
    });
    match cfg.create_pool(Some(deadpool_postgres::Runtime::Tokio1), tokio_postgres::NoTls) {
        Ok(pool) => Ok(DbPool { pool }),
        Err(e) => Err(format!("Failed to create pool: {}", e)),
    }
}

/// Relies on `deadpool::managed::Pool::close`: marks the pool closed, so
/// pending and future acquisitions fail instead of touching the transport.
#[verifier::external_body]
fn close_pool(pool: &DbPool) {
    pool.pool.close();
}

/// The private port-forward owned by one database connection.
#[derive(Debug, Clone, PartialEq, Eq)]
pub struct DatabasePortForward {
    pub connection_id: String,
    pub port_forward_id: String,
    pub local_port: u16,
    pub namespace: String,
    pub service_name: String,
    pub remote_port: u16,
}

impl DatabasePortForward {
    /// Starts the forward of one database connection: local `local_port` to
    /// port 5432 of the cluster's `{cluster}-rw` service. On failure nothing
    /// stays registered.
    pub fn create(
        pf_manager: &mut PortForwardManager,
        cluster_name: &str,
        namespace: &str,
        connection_id: String,
        local_port: u16,
    ) -> (r: Result<DatabasePortForward, DatabaseError>)
        requires
            old(pf_manager).wf(),
        ensures
            final(pf_manager).wf(),
            final(pf_manager).command_spec() == old(pf_manager).command_spec(),
            match r {
                Ok(d) => {
                    &&& d.connection_id@ == connection_id@
                    &&& d.port_forward_id@ == forward_id_spec(
                        "service"@,
                        namespace@,
                        rw_service(cluster_name@),
                        local_port,
                    )
                    &&& d.local_port == local_port
                    &&& d.namespace@ == namespace@
                    &&& d.service_name@ == rw_service(cluster_name@)
                    &&& d.remote_port == postgres_port()
                    &&& !old(pf_manager).contains_id(d.port_forward_id@)
                    &&& final(pf_manager).infos() =~= old(pf_manager).infos().push(
                        PortForwardInfoV {
                            id: d.port_forward_id@,
                            resource_type: "service"@,
                            resource_name: rw_service(cluster_name@),
                            namespace: namespace@,
                            local_port,
                            remote_port: postgres_port(),
                            status: "running"@,
                        },
                    )
                },
                Err(DatabaseError::PortForwardError(_)) => final(pf_manager).infos() == old(
                    pf_manager,
                ).infos(),
                Err(_) => false,
            },
    {
        let mut service_name = cluster_name.to_owned();
        proof {
            reveal_strlit("-rw");
            assert("-rw"@ =~= seq!['-', 'r', 'w']);
        }
        service_name.append("-rw");
        proof {
            assert(service_name@ =~= rw_service(cluster_name@));
        }
        match pf_manager.start_port_forward(
            "service",
            service_name.as_str(),
            namespace,
            local_port,
            5432,
        ) {
            Err(e) => Err(DatabaseError::PortForwardError(e.message())),
            Ok(info) => Ok(
                DatabasePortForward {
                    connection_id,
                    port_forward_id: info.id,
                    local_port,
                    namespace: namespace.to_owned(),
                    service_name,
                    remote_port: 5432,
                },
            ),
        }
    }

    /// Stops the forward with the given id through the registry; afterwards
    /// no forward with that id is registered, except when none was to begin
    /// with, which is reported as an error and changes nothing.
    pub fn stop(pf_manager: &mut PortForwardManager, port_forward_id: &str) -> (r: Result<
        (),
        DatabaseError,
    >)
        requires
            old(pf_manager).wf(),
        ensures
            final(pf_manager).wf(),
            final(pf_manager).command_spec() == old(pf_manager).command_spec(),
            final(pf_manager).infos() =~= without_id(old(pf_manager).infos(), port_forward_id@),
            !final(pf_manager).contains_id(port_forward_id@) || !old(pf_manager).contains_id(
                port_forward_id@,
            ),
            match r {
                Ok(()) => old(pf_manager).contains_id(port_forward_id@),
                Err(DatabaseError::PortForwardError(_)) => true,
                Err(_) => false,
            },
    {
        match pf_manager.stop_port_forward(port_forward_id) {
            Ok(()) => Ok(()),
            Err(e) => Err(DatabaseError::PortForwardError(e.message())),
        }
    }
}

/// One step of the teardown plan of a database connection.
#[derive(Debug, Clone, Copy, PartialEq, Eq, Structural)]
pub enum TeardownStep {
    /// Close the pool, so in-flight queries fail cleanly.
    ClosePool,
    /// Stop the owned port-forward.
    StopPortForward,
}

/// The teardown plan of every database connection: the pool closes first,
/// then the owned port-forward stops.
pub open spec fn teardown_order() -> Seq<TeardownStep> {
    seq![TeardownStep::ClosePool, TeardownStep::StopPortForward]
}

/// The teardown plan as executable data; `DatabaseConnection::close` executes
/// exactly these steps in this order.
pub fn teardown_steps() -> (steps: Vec<TeardownStep>)
    ensures
        steps@ =~= teardown_order(),
{
    let mut steps: Vec<TeardownStep> = Vec::new();
    steps.push(TeardownStep::ClosePool);
    steps.push(TeardownStep::StopPortForward);
    steps
}

/// Law: in the teardown plan of a database connection, the pool closes
/// strictly before the owned port-forward stops.
pub proof fn lemma_pool_closes_before_forward_stops()
    ensures
        teardown_order().len() == 2,
        teardown_order()[0] == TeardownStep::ClosePool,
        teardown_order()[1] == TeardownStep::StopPortForward,
{
}

/// One ready database connection: its descriptor, the pooled SQL client
/// bound to the forwarded local port, and the owned port-forward.
pub struct DatabaseConnection {
    pub info: DbConnectionInfo,
    pub pool: DbPool,
    pub port_forward: DatabasePortForward,
}

impl DatabaseConnection {
    /// The id of the owned port-forward.
    pub closed spec fn forward_id(&self) -> Seq<char> {
        self.port_forward.port_forward_id@
    }

    /// Builds a connection up to its readiness gate: a fresh connection id, a
    /// private forward of an ephemeral local port to the cluster's read-write
    /// service, and a pool bound to that port. The pool is not used yet —
    /// the caller must let the tunnel settle, run the readiness probe, and
    /// hand its outcome to [`DatabaseConnection::confirm`]. Failure at either
    /// step leaves no forward registered.
    pub fn create(
        pf_manager: &mut PortForwardManager,
        cluster_name: &str,
        namespace: &str,
        database: &str,
        username: &str,
        password: &str,
        local_port: u16,
    ) -> (r: Result<DatabaseConnection, DatabaseError>)
        requires
            old(pf_manager).wf(),
        ensures
            final(pf_manager).wf(),
            final(pf_manager).command_spec() == old(pf_manager).command_spec(),
            match r {
                Ok(conn) => {
                    &&& conn.info@.cluster_name == cluster_name@
                    &&& conn.info@.namespace == namespace@
                    &&& conn.info@.database == database@
                    &&& conn.info@.local_port == local_port
                    &&& conn.info@.connection_id.len() == 36
                    &&& conn.forward_id() == forward_id_spec(
                        "service"@,
                        namespace@,
                        rw_service(cluster_name@),
                        local_port,
                    )
                    &&& !old(pf_manager).contains_id(conn.forward_id())
                    &&& final(pf_manager).infos() =~= old(pf_manager).infos().push(
                        PortForwardInfoV {
                            id: conn.forward_id(),
                            resource_type: "service"@,
                            resource_name: rw_service(cluster_name@),
                            namespace: namespace@,
                            local_port,
                            remote_port: postgres_port(),
                            status: "running"@,
                        },
                    )
                },
                Err(DatabaseError::PortForwardError(_)) => final(pf_manager).infos() == old(
                    pf_manager,
                ).infos(),
                Err(DatabaseError::ConfigError(_)) => final(pf_manager).infos() =~= old(
                    pf_manager,
                ).infos(),
                Err(_) => false,
            },
    {
        let connection_id = crate::token::new_token();
        let port_forward = match DatabasePortForward::create(
            pf_manager,
            cluster_name,
            namespace,
            connection_id.clone(),
            local_port,
        ) {
            Ok(d) => d,
            Err(e) => {
                return Err(e);
            },
        };
        let ghost mid_infos = pf_manager.infos();
        let ghost fwd_id = port_forward.port_forward_id@;
        match make_pool("127.0.0.1", local_port, database, username, password, 10) {
            Err(e) => {
                let _ = DatabasePortForward::stop(
                    pf_manager,
                    port_forward.port_forward_id.as_str(),
                );
                proof {
                    assert(mid_infos[mid_infos.len() - 1].id == fwd_id);
                    assert(has_id(mid_infos, fwd_id));
                    let k = index_of_id(mid_infos, fwd_id);
                    assert(0 <= k < mid_infos.len() && mid_infos[k].id == fwd_id);
                    if k < mid_infos.len() - 1 {
                        assert(mid_infos[k] == old(pf_manager).infos()[k]);
                        assert(has_id(old(pf_manager).infos(), fwd_id));
                        assert(false);
                    }
                    assert(without_id(mid_infos, fwd_id) =~= old(pf_manager).infos());
                    assert(final(pf_manager).infos() =~= old(pf_manager).infos());
                }
                Err(DatabaseError::ConfigError(e))
            },
            Ok(pool) => {
                let info = DbConnectionInfo {
                    connection_id,
                    cluster_name: cluster_name.to_owned(),
                    namespace: namespace.to_owned(),
                    database: database.to_owned(),
                    local_port,
                };
                Ok(DatabaseConnection { info, pool, port_forward })
            },
        }
    }

    /// The readiness gate: given the outcome of the one probe (acquire a
    /// pooled client and run a trivial query), either the connection is
    /// confirmed unchanged, or it is unwound — the pool closed, the owned
    /// forward stopped and gone from the registry — and the probe's error is
    /// returned. All-or-nothing: no half-ready connection escapes.
    pub fn confirm(self, pf_manager: &mut PortForwardManager, probe: Result<
        (),
        DatabaseError,
    >) -> (r: Result<DatabaseConnection, DatabaseError>)
        requires
            old(pf_manager).wf(),
        ensures
            final(pf_manager).wf(),
            final(pf_manager).command_spec() == old(pf_manager).command_spec(),
            match r {
                Ok(conn) => {
                    &&& probe is Ok
                    &&& conn == self
                    &&& final(pf_manager).infos() == old(pf_manager).infos()
                },
                Err(e) => {
                    &&& probe matches Err(pe) && e == pe
                    &&& !final(pf_manager).contains_id(self.forward_id())
                    &&& final(pf_manager).infos() =~= without_id(
                        old(pf_manager).infos(),
                        self.forward_id(),
                    )
                },
            },
    {
        match probe {
            Ok(()) => Ok(self),
            Err(e) => {
                close_pool(&self.pool);
                let _ = DatabasePortForward::stop(
                    pf_manager,
                    self.port_forward.port_forward_id.as_str(),
                );
                Err(e)
            },
        }
    }

    /// The connection's descriptor.
    pub fn info(&self) -> (r: &DbConnectionInfo)
        ensures
            r == &self.info,
    {
        &self.info
    }

    /// Tears the connection down along the teardown plan: the pool is closed
    /// first, so in-flight queries fail cleanly, and only then is the owned
    /// port-forward stopped. Afterwards the forward is gone from the
    /// registry; the one reported failure is a forward that could not be
    /// stopped cleanly.
    pub fn close(self, pf_manager: &mut PortForwardManager) -> (r: Result<(), DatabaseError>)
        requires
            old(pf_manager).wf(),
        ensures
            final(pf_manager).wf(),
            final(pf_manager).command_spec() == old(pf_manager).command_spec(),
            !final(pf_manager).contains_id(self.forward_id()),
            final(pf_manager).infos() =~= without_id(old(pf_manager).infos(), self.forward_id()),
            match r {
                Ok(()) => old(pf_manager).contains_id(self.forward_id()),
                Err(DatabaseError::PortForwardError(_)) => true,
                Err(_) => false,
            },
    {
        let steps = teardown_steps();
        match steps[0] {
            TeardownStep::ClosePool => close_pool(&self.pool),
            TeardownStep::StopPortForward => unreached(),
        }
        match steps[1] {
            TeardownStep::StopPortForward => DatabasePortForward::stop(
                pf_manager,
                self.port_forward.port_forward_id.as_str(),
            ),
            TeardownStep::ClosePool => unreached(),
        }
    }

    /// Judges the health probe: a connection is healthy exactly when
    /// acquiring a pooled client and running a trivial query both worked.
    /// Any failure turns into `false` — a health check never surfaces an
    /// error, so it is safe to poll in a loop.
    pub fn health_check(&self, probe: Result<(), DatabaseError>) -> (r: Result<
        bool,
        DatabaseError,
    >)
        ensures
            r matches Ok(healthy) && healthy == (probe is Ok),
    {
        match probe {
            Ok(()) => Ok(true),
            Err(_) => Ok(false),
        }
    }
}

/// The view of one registered connection: its descriptor and the id of its
/// owned port-forward.
pub ghost struct DbConnectionV {
    pub info: DbConnectionInfoV,
    pub forward_id: Seq<char>,
}

spec fn connection_views(s: Seq<DatabaseConnection>) -> Seq<DbConnectionV> {
    Seq::new(s.len(), |i: int| DbConnectionV { info: s[i].info@, forward_id: s[i].forward_id() })
}

/// Whether some connection of `s` carries the given id.
pub open spec fn has_connection_id(s: Seq<DbConnectionV>, id: Seq<char>) -> bool {
    exists|i: int| 0 <= i < s.len() && s[i].info.connection_id == id
}

/// Whether the connection ids of `s` are pairwise distinct.
pub open spec fn connection_ids_distinct(s: Seq<DbConnectionV>) -> bool {
    forall|i: int, j: int| 0 <= i < j < s.len() ==> s[i].info.connection_id != s[j].info.connection_id
}

/// The index of the connection of `s` carrying the given id.
pub open spec fn connection_index(s: Seq<DbConnectionV>, id: Seq<char>) -> int {
    choose|i: int| 0 <= i < s.len() && s[i].info.connection_id == id
}

/// The registry of ready database connections, keyed by connection id.
pub struct ConnectionManager {
    connections: Vec<DatabaseConnection>,
}

impl ConnectionManager {
    /// The registered connections, in registration order.
    pub closed spec fn connections(&self) -> Seq<DbConnectionV> {
        connection_views(self.connections@)
    }

    /// Whether a connection with the given id is registered.
    pub open spec fn contains_connection(&self, id: Seq<char>) -> bool {
        has_connection_id(self.connections(), id)
    }

    /// Well-formed: at most one connection per id.
    pub open spec fn wf(&self) -> bool {
        connection_ids_distinct(self.connections())
    }

    /// An empty registry.
    pub fn new() -> (r: Self)
        ensures
            r.wf(),
            r.connections() =~= Seq::<DbConnectionV>::empty(),
    {
        ConnectionManager { connections: Vec::new() }
    }

    fn position_of(&self, id: &str) -> (r: Option<usize>)
        ensures
            match r {
                Some(i) => i < self.connections().len()
                    && self.connections()[i as int].info.connection_id == id@,
                None => !self.contains_connection(id@),
            },
    {
        let n = self.connections.len();
        let mut i: usize = 0;
        while i < n
            invariant
                i <= n,
                n == self.connections().len(),
                forall|j: int| 0 <= j < i ==> self.connections()[j].info.connection_id != id@,
            decreases n - i,
        {
            if str_eq(self.connections[i].info.connection_id.as_str(), id) {
                return Some(i);
            }
            i = i + 1;
        }
        None
    }

    /// Whether a connection with the given id is registered.
    pub fn has_connection(&self, connection_id: &str) -> (r: bool)
        ensures
            r == self.contains_connection(connection_id@),
    {
        match self.position_of(connection_id) {
            Some(_) => true,
            None => false,
        }
    }

    /// Registers a confirmed connection and returns its descriptor.
    pub fn register(&mut self, conn: DatabaseConnection) -> (info: DbConnectionInfo)
        requires
            old(self).wf(),
            !old(self).contains_connection(conn.info@.connection_id),
        ensures
            final(self).wf(),
            info == conn.info,
            final(self).connections() =~= old(self).connections().push(
                DbConnectionV { info: conn.info@, forward_id: conn.forward_id() },
            ),
    {
        let info = conn.info.clone();
        self.connections.push(conn);
        proof {
            assert(final(self).connections() =~= old(self).connections().push(
                DbConnectionV { info: info@, forward_id: conn.forward_id() },
            ));
        }
        info
    }

    /// The descriptors of the registered connections.
    pub fn list_connections(&self) -> (infos: Vec<DbConnectionInfo>)
        ensures
            infos@.len() == self.connections().len(),
            forall|i: int|
                0 <= i < infos@.len() ==> #[trigger] infos@[i]@ == self.connections()[i].info,
    {
        let n = self.connections.len();
        let mut infos: Vec<DbConnectionInfo> = Vec::new();
        let mut i: usize = 0;
        while i < n
            invariant
                i <= n,
                n == self.connections().len(),
                infos@.len() == i,
                forall|j: int|
                    0 <= j < i ==> #[trigger] infos@[j]@ == self.connections()[j].info,
            decreases n - i,
        {
            infos.push(self.connections[i].info.clone());
            i = i + 1;
        }
        infos
    }

    /// Disconnects the connection with the given id: refused with
    /// `ConnectionNotFound` when none is registered, changing nothing;
    /// otherwise the connection leaves the registry and is torn down along
    /// the teardown plan, leaving its owned forward gone.
    pub fn disconnect(
        &mut self,
        pf_manager: &mut PortForwardManager,
        connection_id: &str,
    ) -> (r: Result<(), DatabaseError>)
        requires
            old(self).wf(),
            old(pf_manager).wf(),
        ensures
            final(self).wf(),
            final(pf_manager).wf(),
            final(pf_manager).command_spec() == old(pf_manager).command_spec(),
            match r {
                Err(DatabaseError::ConnectionNotFound(_)) => {
                    &&& !old(self).contains_connection(connection_id@)
                    &&& final(self).connections() == old(self).connections()
                    &&& final(pf_manager).infos() == old(pf_manager).infos()
                },
                Ok(()) | Err(DatabaseError::PortForwardError(_)) => {
                    &&& old(self).contains_connection(connection_id@)
                    &&& final(self).connections() =~= old(self).connections().remove(
                        connection_index(old(self).connections(), connection_id@),
                    )
                    &&& !final(self).contains_connection(connection_id@)
                    &&& final(pf_manager).infos() =~= without_id(
                        old(pf_manager).infos(),
                        old(self).connections()[connection_index(
                            old(self).connections(),
                            connection_id@,
                        )].forward_id,
                    )
                },
                Err(_) => false,
            },
    {
        match self.position_of(connection_id) {
            None => Err(
                DatabaseError::ConnectionNotFound(
                    "Connection not found".to_owned(),
                ),
            ),
            Some(i) => {
                proof {
                    let k = connection_index(old(self).connections(), connection_id@);
                    assert(0 <= k < old(self).connections().len() && old(
                        self,
                    ).connections()[k].info.connection_id == connection_id@);
                    if k != i as int {
                        assert(false);
                    }
                }
                let conn = self.connections.remove(i);
                proof {
                    assert(connection_views(self.connections@) =~= old(
                        self,
                    ).connections().remove(i as int));
                    assert forall|j: int|
                        0 <= j < self.connections().len() implies self.connections()[j].info.connection_id
                        != connection_id@ by {
                        if j < i as int {
                            assert(self.connections()[j] == old(self).connections()[j]);
                        } else {
                            assert(self.connections()[j] == old(self).connections()[j + 1]);
                        }
                    }
                }
                conn.close(pf_manager)
            },
        }
    }
}

} // verus!
