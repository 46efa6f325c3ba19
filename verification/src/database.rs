//! The dedup ledger: a durable set of (sensor, instant) keys, one for every
//! reading that was forwarded, backed by a SQLite table through rusqlite.
//!
//! The table's contents stand behind the uninterpreted `db_entries`; the
//! trusted wrappers state how each SQL statement reads or changes that set,
//! and everything above them is verified against those statements.

use vstd::prelude::*;

use crate::timestamp::now_epoch;

verus! {

/// Declares rusqlite's `Connection` so that the ledger can hold one; the
/// library sees nothing inside a connection value.
#[verifier::external_type_specification]
#[verifier::external_body]
pub struct ExConnection(rusqlite::Connection);

/// An error of the ledger's backing store, carrying the underlying message.
#[derive(Debug, Clone, PartialEq, Eq)]
pub struct LedgerError {
    /// What the backing store reported.
    pub message: String,
}

/// Durable record of which (sensor, instant) pairs have already been
/// forwarded. Entries are only ever added, never updated or removed, and
/// only after a confirmed downstream success.
pub struct Ledger {
    conn: rusqlite::Connection,
}

/// The keys recorded in the `sent_measurements` table behind a connection:
/// each a (sensor, epoch-second) pair. Left uninterpreted; the trusted
/// wrappers below state how each call reads or changes it.
pub uninterp spec fn db_entries(conn: rusqlite::Connection) -> Set<(u32, i64)>;

impl View for Ledger {
    type V = Set<(u32, i64)>;

    /// The set of (sensor, instant) keys recorded as sent.
    closed spec fn view(&self) -> Set<(u32, i64)> {
        db_entries(self.conn)
    }
}

/// Relies on rusqlite's `Connection::open`: opens the database file at
/// `path`, creating it when absent. Nothing is assumed of the contents
/// found there.
#[verifier::external_body]
fn open_connection(path: &str) -> (r: Result<Ledger, LedgerError>) {
    match rusqlite::Connection::open(path) {
        Ok(conn) => Ok(Ledger { conn }),
        Err(e) => Err(LedgerError { message: e.to_string() }),
    }
}

/// Relies on rusqlite's `Connection::execute` running `CREATE TABLE IF NOT
/// EXISTS`: the statement creates the `sent_measurements` table when it is
/// missing and leaves recorded rows as they are.
#[verifier::external_body]
fn create_table(l: &mut Ledger) -> (r: Result<(), LedgerError>)
    ensures
        db_entries(final(l).conn) == db_entries(old(l).conn),
{
    match l.conn.execute(
        "CREATE TABLE IF NOT EXISTS sent_measurements (sensor_id INTEGER NOT NULL, measurement_timestamp INTEGER NOT NULL, sent_at INTEGER NOT NULL, PRIMARY KEY (sensor_id, measurement_timestamp))",
        (),
    ) {
        Ok(_) => Ok(()),
        Err(e) => Err(LedgerError { message: e.to_string() }),
    }
}

/// Relies on rusqlite's `Connection::query_row` running `SELECT 1 ... WHERE
/// sensor_id = ? AND measurement_timestamp = ?`: a row comes back exactly
/// when the key is recorded, and `QueryReturnedNoRows` is the no-row
/// outcome.
#[verifier::external_body]
fn query_contains(l: &Ledger, sensor_id: u32, timestamp: i64) -> (r: Result<bool, LedgerError>)
    ensures
        r matches Ok(b) ==> b == db_entries(l.conn).contains((sensor_id, timestamp)),
{
    match l.conn.query_row(
        "SELECT 1 FROM sent_measurements WHERE sensor_id = ? AND measurement_timestamp = ?",
        (sensor_id, timestamp),
        |_| Ok(()),
    ) {
        Ok(()) => Ok(true),
        Err(rusqlite::Error::QueryReturnedNoRows) => Ok(false),
        Err(e) => Err(LedgerError { message: e.to_string() }),
    }
}

/// Relies on rusqlite's `Connection::execute` running `INSERT`: the
/// `(sensor_id, measurement_timestamp)` primary key makes the insert fail
/// on an already-recorded key and add exactly that key otherwise, and a
/// failed statement changes nothing.
#[verifier::external_body]
fn insert_entry(l: &mut Ledger, sensor_id: u32, timestamp: i64, sent_at: i64) -> (r: Result<
    (),
    LedgerError,
>)
    ensures
        r is Ok ==> db_entries(final(l).conn) == db_entries(old(l).conn).insert(
            (sensor_id, timestamp),
        ),
        db_entries(old(l).conn).contains((sensor_id, timestamp)) ==> r is Err,
        r is Err ==> db_entries(final(l).conn) == db_entries(old(l).conn),
{
    match l.conn.execute(
        "INSERT INTO sent_measurements (sensor_id, measurement_timestamp, sent_at) VALUES (?, ?, ?)",
        (sensor_id, timestamp, sent_at),
    ) {
        Ok(_) => Ok(()),
        Err(e) => Err(LedgerError { message: e.to_string() }),
    }
}

/// Opens the ledger database at `path`, creating the file and the
/// `sent_measurements` table when they are absent; recorded entries are
/// never removed.
pub fn init_database(path: &str) -> (r: Result<Ledger, LedgerError>) {
    match open_connection(path) {
        Ok(mut l) => match create_table(&mut l) {
            Ok(()) => Ok(l),
            Err(e) => Err(e),
        },
        Err(e) => Err(e),
    }
}

/// Whether the (sensor, instant) key is recorded as sent: exact match, at
/// second resolution.
pub fn is_measurement_sent(l: &Ledger, sensor_id: u32, timestamp: i64) -> (r: Result<
    bool,
    LedgerError,
>)
    ensures
        r matches Ok(b) ==> b == l@.contains((sensor_id, timestamp)),
{
    query_contains(l, sensor_id, timestamp)
}

/// Records that the (sensor, instant) reading was forwarded. The call fails
/// on a key that is already recorded — the processor checks first, so a
/// duplicate insert signals a logic error — and a failed call leaves the
/// ledger unchanged.
pub fn record_measurement_sent(l: &mut Ledger, sensor_id: u32, timestamp: i64) -> (r: Result<
    (),
    LedgerError,
>)
    ensures
        old(l)@.contains((sensor_id, timestamp)) ==> r is Err,
        r is Ok ==> final(l)@ == old(l)@.insert((sensor_id, timestamp)),
        r is Err ==> final(l)@ == old(l)@,
{
    let sent_at = now_epoch();
    insert_entry(l, sensor_id, timestamp, sent_at)
}

/// Idempotence of the ledger: once a key is recorded, it stays visible to
/// every later membership check, and no other key is disturbed. Together
/// with the contract of `record_measurement_sent` — whose first clause makes
/// a second record of the same key fail — this is the dedup guarantee the
/// processor builds on.
pub proof fn lemma_ledger_idempotent(entries: Set<(u32, i64)>, key: (u32, i64))
    ensures
        entries.insert(key).contains(key),
        forall|k: (u32, i64)| entries.contains(k) ==> entries.insert(key).contains(k),
{
}

} // verus!
