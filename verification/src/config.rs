//! Configured connections: which backend kind to reach, under what
//! display name, at what connection string.

use vstd::prelude::*;

verus! {

/// The closed set of backend kinds a connection can name.
#[derive(Debug, PartialEq, Eq, Structural, PartialOrd, Clone, Copy)]
pub enum ConnectionType {
    Redis,
    Postgres,
    MySql,
}

/// The display name of a backend kind.
pub open spec fn connection_type_label(t: ConnectionType) -> Seq<char> {
    match t {
        ConnectionType::Redis => "Redis"@,
        ConnectionType::Postgres => "Postgres"@,
        ConnectionType::MySql => "MySql"@,
    }
}

impl ConnectionType {
    /// The display name of this backend kind.
    pub fn label(&self) -> (s: String)
        ensures
            s@ == connection_type_label(*self),
    {
        match self {
            ConnectionType::Redis => "Redis".to_owned(),
            ConnectionType::Postgres => "Postgres".to_owned(),
            ConnectionType::MySql => "MySql".to_owned(),
        }
    }
}

/// One configured connection: its backend kind, display name, and
/// connection string.
#[derive(Debug, PartialEq, Clone)]
pub struct Connection {
    pub connection_type: ConnectionType,
    pub name: String,
    pub connection_string: String,
}

/// The whole configuration: the connections a user may pick from.
#[derive(Debug, PartialEq, Clone)]
pub struct Config {
    pub connections: Vec<Connection>,
}

} // verus!
