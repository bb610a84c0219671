//! Plain data of the database browser: connection descriptors, catalog
//! entries, and the shape of a query result.

use vstd::prelude::*;

verus! {

/// The caller-facing descriptor of one database connection.
#[derive(Debug, PartialEq, Eq)]
pub struct DbConnectionInfo {
    pub connection_id: String,
    pub cluster_name: String,
    pub namespace: String,
    pub database: String,
    pub local_port: u16,
}

/// The mathematical view of a [`DbConnectionInfo`].
pub ghost struct DbConnectionInfoV {
    pub connection_id: Seq<char>,
    pub cluster_name: Seq<char>,
    pub namespace: Seq<char>,
    pub database: Seq<char>,
    pub local_port: u16,
}

impl View for DbConnectionInfo {
    type V = DbConnectionInfoV;

    open spec fn view(&self) -> DbConnectionInfoV {
        DbConnectionInfoV {
            connection_id: self.connection_id@,
            cluster_name: self.cluster_name@,
            namespace: self.namespace@,
            database: self.database@,
            local_port: self.local_port,
        }
    }
}

impl Clone for DbConnectionInfo {
    fn clone(&self) -> (r: Self)
        ensures
            r == *self,
    {
        DbConnectionInfo {
            connection_id: self.connection_id.clone(),
            cluster_name: self.cluster_name.clone(),
            namespace: self.namespace.clone(),
            database: self.database.clone(),
            local_port: self.local_port,
        }
    }
}

/// A table or view of a schema.
#[derive(Debug, Clone, PartialEq, Eq)]
pub struct DbTable {
    pub schema: String,
    pub name: String,
    pub table_type: String,
    pub row_count: Option<i64>,
}

/// One column of a table.
#[derive(Debug, Clone, PartialEq, Eq)]
pub struct DbColumn {
    pub name: String,
    pub data_type: String,
    pub is_nullable: bool,
    pub column_default: Option<String>,
    pub character_maximum_length: Option<i32>,
    pub is_primary_key: bool,
}

/// A request for one page of a table's rows.
#[derive(Debug, Clone, PartialEq, Eq)]
pub struct TableDataRequest {
    pub connection_id: String,
    pub schema: String,
    pub table: String,
    pub limit: i64,
    pub offset: i64,
}

/// A database of the cluster with its rendered size.
#[derive(Debug, Clone, PartialEq, Eq)]
pub struct DbDatabase {
    pub name: String,
    pub size: Option<String>,
}

/// A schema of the current database.
#[derive(Debug, Clone, PartialEq, Eq)]
pub struct DbSchema {
    pub name: String,
    pub owner: Option<String>,
}

/// Default page size for table-data requests.
pub fn default_limit() -> (r: i64)
    ensures
        r == 100,
{
    100
}

} // verus!
