//! The registry store: durable CRUD over the device table.
//!
//! The table lives in an SQLite database reached through `rusqlite`. The
//! model of the store is a pair of uninterpreted names over the connection:
//! whether the device table exists, and the multiset of its rows, each row a
//! pair of the address and the name. The intended reading of `table_rows` is
//! "the rows of the device table, and the empty multiset while the table is
//! absent"; every trusted contract below is stated under that reading. No
//! order of rows is promised anywhere: the store keeps them in
//! storage-defined order.
//!
//! A delete matches by true string equality, never by a substring or
//! pattern comparison: addresses and names are opaque values, and a value
//! that happens to contain a pattern character selects only the records
//! that equal it exactly.

use vstd::prelude::*;
use vstd::multiset::Multiset;
use crate::device::Record;
use crate::device::StoreError;

verus! {

#[verifier::external_type_specification]
#[verifier::external_body]
pub struct ExConnection(rusqlite::Connection);

#[verifier::external_type_specification]
#[verifier::external_body]
pub struct ExSqliteError(rusqlite::Error);

/// Whether the device table exists in the database behind `c`.
pub uninterp spec fn table_present(c: rusqlite::Connection) -> bool;

/// The rows of the device table behind `c`, each as (address, name);
/// the empty multiset while the table is absent.
pub uninterp spec fn table_rows(c: rusqlite::Connection) -> Multiset<(Seq<char>, Seq<char>)>;

/// The empty registry.
pub open spec fn no_rows() -> Multiset<(Seq<char>, Seq<char>)> {
    Multiset::empty()
}

/// The views of a vector of records, in order.
pub open spec fn row_views(v: Seq<Record>) -> Seq<(Seq<char>, Seq<char>)> {
    v.map(|i: int, rec: Record| rec@)
}

/// The rows a delete by address leaves behind: those whose address is not
/// the value.
pub open spec fn keep_address(value: Seq<char>) -> spec_fn((Seq<char>, Seq<char>)) -> bool {
    |row: (Seq<char>, Seq<char>)| row.0 != value
}

/// The rows a delete by name leaves behind: those whose name is not the
/// value.
pub open spec fn keep_name(value: Seq<char>) -> spec_fn((Seq<char>, Seq<char>)) -> bool {
    |row: (Seq<char>, Seq<char>)| row.1 != value
}

/// Relies on `rusqlite::Connection::open_in_memory`: a newly opened
/// in-memory database is empty, so it holds no device table and no rows.
#[verifier::external_body]
fn conn_open_in_memory() -> (r: Result<rusqlite::Connection, rusqlite::Error>)
    ensures
        r matches Ok(c) ==> !table_present(c) && table_rows(c) == no_rows(),
{
    rusqlite::Connection::open_in_memory()
}

/// Relies on `rusqlite::Connection::open`: opens the database file at
/// `path`, creating it if absent. What the file already holds depends on
/// the disk, so nothing is promised of the contents.
#[verifier::external_body]
fn conn_open(path: &str) -> (r: Result<rusqlite::Connection, rusqlite::Error>)
{
    rusqlite::Connection::open(path)
}

/// Relies on `rusqlite::Connection::execute` running
/// `CREATE TABLE IF NOT EXISTS`: on success the device table exists and its
/// rows are untouched (a fresh table holds none, an existing one keeps
/// every row); a failed statement changes nothing.
#[verifier::external_body]
fn conn_create_table(conn: &mut rusqlite::Connection) -> (r: Result<(), rusqlite::Error>)
    ensures
        r is Ok ==> table_present(*final(conn))
            && table_rows(*final(conn)) == table_rows(*old(conn)),
        r is Err ==> table_present(*final(conn)) == table_present(*old(conn))
            && table_rows(*final(conn)) == table_rows(*old(conn)),
{
    match conn.execute("CREATE TABLE IF NOT EXISTS WLED (ip TEXT, name TEXT)", ()) {
        Ok(_) => Ok(()),
        Err(e) => Err(e),
    }
}

/// Relies on `rusqlite::Connection::execute` running
/// `INSERT INTO ... VALUES (?1, ?2)`: on success exactly the given row was
/// added; inserting into an absent table fails; a failed statement changes
/// nothing.
#[verifier::external_body]
fn conn_insert(conn: &mut rusqlite::Connection, rec: &Record) -> (r: Result<(), rusqlite::Error>)
    ensures
        r is Ok ==> table_present(*old(conn)) && table_present(*final(conn))
            && table_rows(*final(conn)) == table_rows(*old(conn)).insert(rec@),
        !table_present(*old(conn)) ==> r is Err,
        r is Err ==> table_present(*final(conn)) == table_present(*old(conn))
            && table_rows(*final(conn)) == table_rows(*old(conn)),
{
    match conn.execute("INSERT INTO WLED (ip, name) VALUES (?1, ?2)", (&rec.address, &rec.name)) {
        Ok(_) => Ok(()),
        Err(e) => Err(e),
    }
}

/// Relies on `rusqlite::Connection::execute` running
/// `DELETE FROM ... WHERE ip = ?1`: on success exactly the rows whose
/// address equals `value` are gone and the number of removed rows is
/// returned; deleting from an absent table fails; a failed statement
/// changes nothing.
#[verifier::external_body]
fn conn_delete_by_address(conn: &mut rusqlite::Connection, value: &str) -> (r: Result<usize, rusqlite::Error>)
    ensures
        r matches Ok(n) ==> table_present(*old(conn)) && table_present(*final(conn))
            && table_rows(*final(conn)) == table_rows(*old(conn)).filter(keep_address(value@))
            && n as int == table_rows(*old(conn)).len() - table_rows(*final(conn)).len(),
        !table_present(*old(conn)) ==> r is Err,
        r is Err ==> table_present(*final(conn)) == table_present(*old(conn))
            && table_rows(*final(conn)) == table_rows(*old(conn)),
{
    conn.execute("DELETE FROM WLED WHERE ip = ?1", (value,))
}

/// Relies on `rusqlite::Connection::execute` running
/// `DELETE FROM ... WHERE name = ?1`: as for the delete by address, over
/// the name column.
#[verifier::external_body]
fn conn_delete_by_name(conn: &mut rusqlite::Connection, value: &str) -> (r: Result<usize, rusqlite::Error>)
    ensures
        r matches Ok(n) ==> table_present(*old(conn)) && table_present(*final(conn))
            && table_rows(*final(conn)) == table_rows(*old(conn)).filter(keep_name(value@))
            && n as int == table_rows(*old(conn)).len() - table_rows(*final(conn)).len(),
        !table_present(*old(conn)) ==> r is Err,
        r is Err ==> table_present(*final(conn)) == table_present(*old(conn))
            && table_rows(*final(conn)) == table_rows(*old(conn)),
{
    conn.execute("DELETE FROM WLED WHERE name = ?1", (value,))
}

/// Relies on `rusqlite::Connection::prepare` and
/// `rusqlite::Statement::query_map` running `SELECT ip, name FROM ...`: on
/// success every row of the table comes back, in storage-defined order, and
/// the table is untouched; reading an absent table fails; a failed read
/// changes nothing.
#[verifier::external_body]
fn conn_select_all(conn: &mut rusqlite::Connection) -> (r: Result<Vec<Record>, rusqlite::Error>)
    ensures
        r matches Ok(v) ==> table_present(*old(conn))
            && row_views(v@).to_multiset() == table_rows(*old(conn)),
        !table_present(*old(conn)) ==> r is Err,
        table_present(*final(conn)) == table_present(*old(conn)),
        table_rows(*final(conn)) == table_rows(*old(conn)),
{
    match conn.prepare("SELECT ip, name FROM WLED") {
        Ok(mut stmt) => {
            match stmt.query_map((), |row| Ok(Record { address: row.get(0)?, name: row.get(1)? })) {
                Ok(rows) => rows.collect(),
                Err(e) => Err(e),
            }
        }
        Err(e) => Err(e),
    }
}

/// Relies on `rusqlite::Connection::execute` running `DROP TABLE`: on
/// success the device table and all its rows are gone; dropping an absent
/// table fails; a failed statement changes nothing.
#[verifier::external_body]
fn conn_drop_table(conn: &mut rusqlite::Connection) -> (r: Result<(), rusqlite::Error>)
    ensures
        r is Ok ==> table_present(*old(conn)) && !table_present(*final(conn))
            && table_rows(*final(conn)) == no_rows(),
        !table_present(*old(conn)) ==> r is Err,
        r is Err ==> table_present(*final(conn)) == table_present(*old(conn))
            && table_rows(*final(conn)) == table_rows(*old(conn)),
{
    match conn.execute("DROP TABLE WLED", ()) {
        Ok(_) => Ok(()),
        Err(e) => Err(e),
    }
}

/// The registry store: one open connection to the database that owns the
/// device table. Every operation re-reads from storage; nothing is cached.
pub struct Store {
    conn: rusqlite::Connection,
}

impl Store {
    /// Whether the device table exists.
    pub closed spec fn present(&self) -> bool {
        table_present(self.conn)
    }

    /// The rows of the device table, as (address, name) pairs; empty while
    /// the table is absent.
    pub closed spec fn records(&self) -> Multiset<(Seq<char>, Seq<char>)> {
        table_rows(self.conn)
    }

    /// Opens a store over a fresh, empty in-memory database: no table yet,
    /// no rows.
    pub fn in_memory() -> (r: Result<Store, StoreError>)
        ensures
            r matches Ok(s) ==> !s.present() && s.records() == no_rows(),
    {
        match conn_open_in_memory() {
            Ok(c) => Ok(Store { conn: c }),
            Err(_) => Err(StoreError),
        }
    }

    /// Opens a store over the database file at `path`, creating the file if
    /// absent. What it already holds depends on the disk.
    pub fn at_path(path: &str) -> (r: Result<Store, StoreError>)
    {
        match conn_open(path) {
            Ok(c) => Ok(Store { conn: c }),
            Err(_) => Err(StoreError),
        }
    }

    /// Creates the device table if it does not exist. Idempotent: a second
    /// call finds the table present and leaves the rows exactly as they
    /// were; it never fails because the table already exists, only on a
    /// storage fault.
    pub fn ensure_schema(&mut self) -> (r: Result<(), StoreError>)
        ensures
            r is Ok ==> final(self).present() && final(self).records() == old(self).records(),
            r is Err ==> final(self).present() == old(self).present()
                && final(self).records() == old(self).records(),
    {
        match conn_create_table(&mut self.conn) {
            Ok(()) => Ok(()),
            Err(_) => Err(StoreError),
        }
    }

    /// Appends one record. No uniqueness check: a duplicate address or name
    /// is admitted. Fails if the table is absent or on a storage fault, and
    /// then changes nothing.
    pub fn insert(&mut self, rec: &Record) -> (r: Result<(), StoreError>)
        ensures
            r is Ok ==> old(self).present() && final(self).present()
                && final(self).records() == old(self).records().insert(rec@),
            !old(self).present() ==> r is Err,
            r is Err ==> final(self).present() == old(self).present()
                && final(self).records() == old(self).records(),
    {
        match conn_insert(&mut self.conn, rec) {
            Ok(()) => Ok(()),
            Err(_) => Err(StoreError),
        }
    }

    /// Produces every record of the registry, in storage-defined order: the
    /// records returned are, as a multiset, exactly the rows of the table.
    /// Fails if the table is absent or on a storage fault. The store is
    /// left untouched either way.
    pub fn list(&mut self) -> (r: Result<Vec<Record>, StoreError>)
        ensures
            r matches Ok(v) ==> old(self).present()
                && row_views(v@).to_multiset() == old(self).records(),
            !old(self).present() ==> r is Err,
            final(self).present() == old(self).present(),
            final(self).records() == old(self).records(),
    {
        match conn_select_all(&mut self.conn) {
            Ok(v) => Ok(v),
            Err(_) => Err(StoreError),
        }
    }

    /// Removes every record whose address exactly equals `value` and
    /// returns the count removed; count 0 when nothing matches. Fails if
    /// the table is absent or on a storage fault, and then changes nothing.
    pub fn delete_by_address(&mut self, value: &str) -> (r: Result<usize, StoreError>)
        ensures
            r matches Ok(n) ==> old(self).present() && final(self).present()
                && final(self).records() == old(self).records().filter(keep_address(value@))
                && n as int == old(self).records().len() - final(self).records().len(),
            !old(self).present() ==> r is Err,
            r is Err ==> final(self).present() == old(self).present()
                && final(self).records() == old(self).records(),
    {
        match conn_delete_by_address(&mut self.conn, value) {
            Ok(n) => Ok(n),
            Err(_) => Err(StoreError),
        }
    }

    /// Removes every record whose name exactly equals `value`, as the
    /// delete by address does over the name field.
    pub fn delete_by_name(&mut self, value: &str) -> (r: Result<usize, StoreError>)
        ensures
            r matches Ok(n) ==> old(self).present() && final(self).present()
                && final(self).records() == old(self).records().filter(keep_name(value@))
                && n as int == old(self).records().len() - final(self).records().len(),
            !old(self).present() ==> r is Err,
            r is Err ==> final(self).present() == old(self).present()
                && final(self).records() == old(self).records(),
    {
        match conn_delete_by_name(&mut self.conn, value) {
            Ok(n) => Ok(n),
            Err(_) => Err(StoreError),
        }
    }

    /// Destroys the whole table, not just its rows: afterwards the schema
    /// must be ensured again before any read or write succeeds. Fails if
    /// the table is absent or on a storage fault, and then changes nothing.
    pub fn drop_all(&mut self) -> (r: Result<(), StoreError>)
        ensures
            r is Ok ==> !final(self).present() && final(self).records() == no_rows(),
            !old(self).present() ==> r is Err,
            r is Err ==> final(self).present() == old(self).present()
                && final(self).records() == old(self).records(),
    {
        match conn_drop_table(&mut self.conn) {
            Ok(()) => Ok(()),
            Err(_) => Err(StoreError),
        }
    }
}

} // verus!
