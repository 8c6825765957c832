//! The conversation store: schema, statements and the calls into SQLite.
//!
//! Everything the store does to a database goes through the handful of
//! trusted functions of this file, each of which stands for one call into
//! `rusqlite`. What the database answers is not known to the verifier; the
//! functions of [`topic`] and [`message`] are proved for every answer, and
//! what they make of an answer is stated by functions that take the
//! answer as an argument. What the statements mean for the tables is
//! stated and proved in [`memory`] and [`laws`].

pub mod conversation;
pub mod laws;
pub mod memory;
pub mod message;
pub mod topic;

use rusqlite::params_from_iter;
use rusqlite::types::{Value, ValueRef};
use vstd::prelude::*;
use vstd::string::*;

verus! {

/// Trusted: makes `rusqlite::Connection` known as an opaque type.
#[verifier::external_type_specification]
#[verifier::external_body]
pub struct ExConnection(rusqlite::Connection);

/// Trusted: makes `rusqlite::Error` known as an opaque type.
#[verifier::external_type_specification]
#[verifier::external_body]
pub struct ExSqliteError(rusqlite::Error);

/// A value bound to a statement's parameter.
#[derive(Debug)]
pub enum SqlParam {
    Integer(i64),
    Text(String),
}

/// A [`SqlParam`] as plain values.
pub enum SqlParamView {
    Integer(i64),
    Text(Seq<char>),
}

impl View for SqlParam {
    type V = SqlParamView;

    open spec fn view(&self) -> SqlParamView {
        match *self {
            SqlParam::Integer(i) => SqlParamView::Integer(i),
            SqlParam::Text(t) => SqlParamView::Text(t@),
        }
    }
}

/// One statement with the values bound to its parameters, in order.
#[derive(Debug)]
pub struct Statement {
    pub sql: String,
    pub params: Vec<SqlParam>,
}

/// A [`Statement`] as plain values.
pub struct StatementView {
    pub sql: Seq<char>,
    pub params: Seq<SqlParamView>,
}

impl View for Statement {
    type V = StatementView;

    open spec fn view(&self) -> StatementView {
        StatementView {
            sql: self.sql@,
            params: Seq::new(self.params@.len(), |i: int| self.params@[i]@),
        }
    }
}

impl Statement {
    /// A statement that takes no parameters.
    pub fn plain(sql: &str) -> (r: Statement)
        ensures
            r@ == (StatementView { sql: sql@, params: Seq::empty() }),
    {
        let r = Statement { sql: String::from_str(sql), params: Vec::new() };
        assert(r@.params =~= Seq::empty());
        r
    }
}

/// A value read from a row.
#[derive(Debug)]
pub enum SqlCell {
    Null,
    Integer(i64),
    /// A floating-point cell; its number is not kept.
    Real,
    Text(String),
    Blob(Vec<u8>),
}

/// Why a store operation failed.
#[derive(Debug)]
pub enum StoreError {
    /// The database refused; the text is its own message.
    Database(String),
    /// A row does not have the shape that the schema promises.
    Malformed,
    /// A number does not fit where it has to go.
    OutOfRange,
    /// A reply names a user message that the store does not hold.
    Orphan,
    /// The fault that a caller asked a batch to simulate.
    Injected,
}

pub const MALFORMED: &'static str = "a row does not have the shape that the schema promises";

pub const OUT_OF_RANGE: &'static str = "a number does not fit where it has to go";

pub const ORPHAN: &'static str = "a reply names a user message that the store does not hold";

pub const INJECTED: &'static str = "simulated fault";

impl StoreError {
    /// The error in words: the database's own message where it refused,
    /// a fixed sentence otherwise.
    pub open spec fn spec_message(self) -> Seq<char> {
        match self {
            StoreError::Database(text) => text@,
            StoreError::Malformed => MALFORMED@,
            StoreError::OutOfRange => OUT_OF_RANGE@,
            StoreError::Orphan => ORPHAN@,
            StoreError::Injected => INJECTED@,
        }
    }

    /// The error in words.
    pub fn message(&self) -> (r: String)
        ensures
            r@ == self.spec_message(),
    {
        match self {
            StoreError::Database(text) => text.clone(),
            StoreError::Malformed => String::from_str(MALFORMED),
            StoreError::OutOfRange => String::from_str(OUT_OF_RANGE),
            StoreError::Orphan => String::from_str(ORPHAN),
            StoreError::Injected => String::from_str(INJECTED),
        }
    }
}

/// The largest number that an integer column holds.
pub const MAX_INTEGER: u64 = 0x7fff_ffff_ffff_ffff;

/// Binds an unsigned number, which the database holds as a signed one.
pub fn bind_u64(n: u64) -> (r: Result<SqlParam, StoreError>)
    ensures
        n <= MAX_INTEGER ==> (r matches Ok(p) && p@ == SqlParamView::Integer(n as i64)),
        n > MAX_INTEGER ==> r matches Err(StoreError::OutOfRange),
{
    if n <= MAX_INTEGER {
        Ok(SqlParam::Integer(n as i64))
    } else {
        Err(StoreError::OutOfRange)
    }
}

/// Reads a cell as an unsigned 32-bit number: an integer in range.
pub fn cell_u32(cell: &SqlCell) -> (r: Result<u32, StoreError>)
    ensures
        match *cell {
            SqlCell::Integer(i) => if 0 <= i <= u32::MAX {
                r == Ok::<u32, StoreError>(i as u32)
            } else {
                r matches Err(StoreError::OutOfRange)
            },
            _ => r matches Err(StoreError::Malformed),
        },
{
    match cell {
        SqlCell::Integer(i) => {
            if 0 <= *i && *i <= 0xffff_ffff {
                Ok(*i as u32)
            } else {
                Err(StoreError::OutOfRange)
            }
        },
        _ => Err(StoreError::Malformed),
    }
}

/// Reads a cell as an unsigned 64-bit number: an integer that is not
/// negative.
pub fn cell_u64(cell: &SqlCell) -> (r: Result<u64, StoreError>)
    ensures
        match *cell {
            SqlCell::Integer(i) => if 0 <= i {
                r == Ok::<u64, StoreError>(i as u64)
            } else {
                r matches Err(StoreError::OutOfRange)
            },
            _ => r matches Err(StoreError::Malformed),
        },
{
    match cell {
        SqlCell::Integer(i) => {
            if 0 <= *i {
                Ok(*i as u64)
            } else {
                Err(StoreError::OutOfRange)
            }
        },
        _ => Err(StoreError::Malformed),
    }
}

/// Reads a cell as text.
pub fn cell_text(cell: &SqlCell) -> (r: Result<String, StoreError>)
    ensures
        match *cell {
            SqlCell::Text(t) => (r matches Ok(s) && s@ == t@),
            _ => r matches Err(StoreError::Malformed),
        },
{
    match cell {
        SqlCell::Text(t) => Ok(t.clone()),
        _ => Err(StoreError::Malformed),
    }
}

/// Reads a cell as a truth value: an integer, true unless it is zero.
pub fn cell_bool(cell: &SqlCell) -> (r: Result<bool, StoreError>)
    ensures
        match *cell {
            SqlCell::Integer(i) => r == Ok::<bool, StoreError>(i != 0),
            _ => r matches Err(StoreError::Malformed),
        },
{
    match cell {
        SqlCell::Integer(i) => Ok(*i != 0),
        _ => Err(StoreError::Malformed),
    }
}

/// Runs one statement with its parameters and returns how many rows it
/// changed.
///
/// Trusted: stands for `rusqlite::Connection::execute`. Nothing is claimed
/// of the result, which depends on the database.
#[verifier::external_body]
pub(crate) fn execute(conn: &rusqlite::Connection, sql: &str, params: &Vec<SqlParam>) -> (r: Result<
    usize,
    rusqlite::Error,
>) {
    let bound = params.iter().map(|p| match p {
        SqlParam::Integer(i) => Value::Integer(*i),
        SqlParam::Text(t) => Value::Text(t.clone()),
    });
    conn.execute(sql, params_from_iter(bound))
}

/// Runs a batch of statements that take no parameters.
///
/// Trusted: stands for `rusqlite::Connection::execute_batch`. Nothing is
/// claimed of the result, which depends on the database.
#[verifier::external_body]
pub(crate) fn execute_batch(conn: &rusqlite::Connection, sql: &str) -> (r: Result<
    (),
    rusqlite::Error,
>) {
    conn.execute_batch(sql)
}

/// Runs a query and returns its rows in the order the database yields
/// them, each as the list of its cells. A text cell that is not valid
/// UTF-8 fails the query with the database's conversion error.
///
/// Trusted: stands for `rusqlite::Connection::prepare` followed by
/// `rusqlite::Statement::query_map`, with each cell read by
/// `rusqlite::Row::get_ref` and a text cell by `rusqlite::Row::get`.
/// Nothing is claimed of the result, which depends on the database.
#[verifier::external_body]
pub(crate) fn query(conn: &rusqlite::Connection, sql: &str, params: &Vec<SqlParam>) -> (r: Result<
    Vec<Vec<SqlCell>>,
    rusqlite::Error,
>) {
    let bound = params.iter().map(|p| match p {
        SqlParam::Integer(i) => Value::Integer(*i),
        SqlParam::Text(t) => Value::Text(t.clone()),
    });
    let mut stmt = conn.prepare(sql)?;
    let rows = stmt.query_map(params_from_iter(bound), |row| {
        (0..row.as_ref().column_count()).map(|i| Ok(match row.get_ref(i)? {
            ValueRef::Null => SqlCell::Null,
            ValueRef::Integer(n) => SqlCell::Integer(n),
            ValueRef::Real(_) => SqlCell::Real,
            ValueRef::Text(_) => SqlCell::Text(row.get(i)?),
            ValueRef::Blob(b) => SqlCell::Blob(b.to_vec()),
        })).collect()
    })?;
    rows.collect()
}

/// The row id of the most recent successful insert on this connection.
///
/// Trusted: stands for `rusqlite::Connection::last_insert_rowid`. Nothing
/// is claimed of the result, which depends on the database.
#[verifier::external_body]
pub(crate) fn last_insert_rowid(conn: &rusqlite::Connection) -> (r: i64) {
    conn.last_insert_rowid()
}

/// The database's message for an error.
///
/// Trusted: stands for the `Display` text of `rusqlite::Error`. Nothing is
/// claimed of the text.
#[verifier::external_body]
pub(crate) fn error_text(e: &rusqlite::Error) -> (r: String) {
    e.to_string()
}

/// What a call into the database comes to: its answer as it is, or, for
/// a refusal, the store's error that carries the database's message.
pub fn reported<T>(outcome: Result<T, rusqlite::Error>) -> (r: Result<T, StoreError>)
    ensures
        outcome matches Ok(answer) ==> r == Ok::<T, StoreError>(answer),
        outcome is Err ==> (r matches Err(e) && e is Database),
{
    match outcome {
        Ok(answer) => Ok(answer),
        Err(e) => Err(refused(&e)),
    }
}

/// Runs a query and returns its rows in the order the database yields
/// them, each as the list of its cells.
pub fn query_cells(conn: &rusqlite::Connection, sql: &str, params: &Vec<SqlParam>) -> (r: Result<
    Vec<Vec<SqlCell>>,
    StoreError,
>)
    ensures
        r matches Err(e) ==> e is Database,
{
    reported(query(conn, sql, params))
}

/// Runs one statement and returns how many rows it changed.
pub fn run(conn: &rusqlite::Connection, statement: &Statement) -> (r: Result<usize, StoreError>)
    ensures
        r matches Err(e) ==> e is Database,
{
    reported(execute(conn, statement.sql.as_str(), &statement.params))
}

/// Runs a query statement and returns its rows as cells.
pub fn fetch(conn: &rusqlite::Connection, statement: &Statement) -> (r: Result<
    Vec<Vec<SqlCell>>,
    StoreError,
>)
    ensures
        r matches Err(e) ==> e is Database,
{
    query_cells(conn, statement.sql.as_str(), &statement.params)
}

pub const BEGIN: &'static str = "BEGIN";

pub const COMMIT: &'static str = "COMMIT";

pub const ROLLBACK: &'static str = "ROLLBACK";

/// Opens a transaction on `conn`.
pub fn begin(conn: &rusqlite::Connection) -> (r: Result<(), StoreError>)
    ensures
        r matches Err(e) ==> e is Database,
{
    reported(execute_batch(conn, BEGIN))
}

/// Commits the open transaction; where the database refuses, rolls it
/// back and reports the refusal.
pub fn commit(conn: &rusqlite::Connection) -> (r: Result<(), StoreError>)
    ensures
        r matches Err(e) ==> e is Database,
{
    match reported(execute_batch(conn, COMMIT)) {
        Ok(()) => Ok(()),
        Err(e) => {
            rollback(conn);
            Err(e)
        },
    }
}

/// Rolls the open transaction back. A refusal is not reported: the caller
/// is already on its way out with the error that made it roll back.
pub fn rollback(conn: &rusqlite::Connection) {
    let _ = execute_batch(conn, ROLLBACK);
}

/// What a transaction does next.
#[derive(Debug, Clone, Copy, PartialEq, Eq, Structural)]
pub enum BatchMove {
    /// Take the step with this position.
    Run(usize),
    /// Every step went through: commit.
    Commit,
    /// A step was refused: roll back.
    Rollback,
}

/// What a transaction of `total` steps does next, when `done` of them
/// went through and `ok` says that none was refused: it rolls back after
/// a refusal, takes the next step while one is left, and commits once all
/// went through.
pub fn batch_move(total: usize, done: usize, ok: bool) -> (m: BatchMove)
    requires
        done <= total,
    ensures
        !ok ==> m is Rollback,
        ok && done < total ==> m == BatchMove::Run(done),
        ok && done == total ==> m is Commit,
{
    if !ok {
        BatchMove::Rollback
    } else if done < total {
        BatchMove::Run(done)
    } else {
        BatchMove::Commit
    }
}

/// Runs the statements in order inside one transaction, moving as
/// [`batch_move`] says: either all take effect, or, when the database
/// refuses one of them or the commit, the transaction is rolled back and
/// the refusal reported.
pub fn run_atomically(conn: &rusqlite::Connection, statements: &Vec<Statement>) -> (r: Result<
    (),
    StoreError,
>)
    ensures
        r matches Err(e) ==> e is Database,
{
    begin(conn)?;
    let total = statements.len();
    let mut done: usize = 0;
    let mut refusal: Option<StoreError> = None;
    loop
        invariant
            total == statements.len(),
            done <= total,
            refusal matches Some(e) ==> e is Database,
        decreases
                total - done + if refusal is None {
                    1int
                } else {
                    0int
                },
    {
        match batch_move(total, done, refusal.is_none()) {
            BatchMove::Run(i) => {
                match run(conn, &statements[i]) {
                    Ok(_) => {
                        done = done + 1;
                    },
                    Err(e) => {
                        refusal = Some(e);
                    },
                }
            },
            BatchMove::Commit => {
                return commit(conn);
            },
            BatchMove::Rollback => {
                assert(refusal is Some);
                rollback(conn);
                return match refusal {
                    Some(e) => Err(e),
                    None => Ok(()),
                };
            },
        }
    }
}

/// The store's error for a database error.
pub(crate) fn refused(e: &rusqlite::Error) -> (r: StoreError)
    ensures
        r is Database,
{
    StoreError::Database(error_text(e))
}

} // verus!
