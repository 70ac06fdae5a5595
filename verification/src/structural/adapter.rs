//! Adapter: the interface of a class is turned into the interface that its
//! clients expect.
//!
//! Two databases each have a request of their own; the adapters offer both
//! through the one interface that the client works with.

use crate::text::texts;
use vstd::prelude::*;

verus! {

/// The interface that the client works with.
pub trait DBConnection {
    /// The address that a request goes to.
    spec fn address(&self) -> Seq<char>;

    /// Makes a request and returns the address that it went to.
    fn request(&self) -> (address: String)
        ensures
            address@ == self.address(),
    ;
}

/// A MySQL database on the host `mysql`.
pub struct MySQL {
    pub mysql: String,
}

impl MySQL {
    /// The address of the database: `mysql://` and the host.
    pub fn make_sql_request(&self) -> (address: String)
        ensures
            address@ == "mysql://"@ + self.mysql@,
    {
        let mut address = "mysql://".to_owned();
        address.append(self.mysql.as_str());
        address
    }
}

impl DBConnection for MySQL {
    open spec fn address(&self) -> Seq<char> {
        "mysql://"@ + self.mysql@
    }

    fn request(&self) -> (address: String) {
        self.make_sql_request()
    }
}

/// A PostgreSQL database on the host `postgresql`.
pub struct PostgreSQL {
    pub postgresql: String,
}

impl PostgreSQL {
    /// The address of the database: `postgresql://` and the host.
    pub fn make_postgresql_request(&self) -> (address: String)
        ensures
            address@ == "postgresql://"@ + self.postgresql@,
    {
        let mut address = "postgresql://".to_owned();
        address.append(self.postgresql.as_str());
        address
    }
}

impl DBConnection for PostgreSQL {
    open spec fn address(&self) -> Seq<char> {
        "postgresql://"@ + self.postgresql@
    }

    fn request(&self) -> (address: String) {
        self.make_postgresql_request()
    }
}

/// Offers a PostgreSQL database through [`DBConnection`].
pub struct PostgresAdapter {
    pub adaptee: PostgreSQL,
}

impl DBConnection for PostgresAdapter {
    open spec fn address(&self) -> Seq<char> {
        self.adaptee.address()
    }

    fn request(&self) -> (address: String) {
        self.adaptee.make_postgresql_request()
    }
}

/// Offers a MySQL database through [`DBConnection`].
pub struct MysqlAdapter {
    pub adaptee: MySQL,
}

impl DBConnection for MysqlAdapter {
    open spec fn address(&self) -> Seq<char> {
        self.adaptee.address()
    }

    fn request(&self) -> (address: String) {
        self.adaptee.make_sql_request()
    }
}

/// The client: it knows `db` only as a [`DBConnection`].
pub fn make_db_request<T: DBConnection>(db: &T) -> (address: String)
    ensures
        address@ == db.address(),
{
    db.request()
}

/// The addresses that [`demo_adapter`] requests, in order.
pub open spec fn demo_adapter_addresses() -> Seq<Seq<char>> {
    seq![
        "postgresql://"@ + "localhost"@,
        "mysql://"@ + "localhost"@,
        "mysql://"@ + "localhost"@,
        "postgresql://"@ + "localhost"@,
    ]
}

/// Requests a PostgreSQL and a MySQL database on `localhost`, first each
/// by itself and then each through its adapter, and returns the four
/// addresses in that order.
pub fn demo_adapter() -> (addresses: Vec<String>)
    ensures
        texts(addresses@) == demo_adapter_addresses(),
{
    let postgresql = PostgreSQL { postgresql: "localhost".to_owned() };
    let mysql = MySQL { mysql: "localhost".to_owned() };
    let mut addresses: Vec<String> = Vec::new();
    addresses.push(make_db_request(&postgresql));
    addresses.push(make_db_request(&mysql));

    let mysql_adapter = MysqlAdapter { adaptee: mysql };
    let postgres_adapter = PostgresAdapter { adaptee: postgresql };
    addresses.push(make_db_request(&mysql_adapter));
    addresses.push(make_db_request(&postgres_adapter));
    addresses
}

} // verus!
