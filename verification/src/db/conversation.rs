//! The conversation table: one row per conversation opened under a topic.

use vstd::prelude::*;
use vstd::string::*;
use crate::db::{
    bind_u64, run, SqlParam, SqlParamView, Statement, StatementView,
    StoreError, MAX_INTEGER,
};
use crate::db::topic::FREE_TOPIC_ID;
use crate::time::now;

verus! {

pub const CONVERSATION_TABLE: &'static str = "CREATE TABLE IF NOT EXISTS conversation (
    id INTEGER PRIMARY KEY AUTOINCREMENT,
    created_at INTEGER NOT NULL,
    topic_id INTEGER NOT NULL,
    CONSTRAINT fk_topic
    FOREIGN KEY (topic_id)
    REFERENCES topic (id)
)";

pub const CONVERSATION_INSERT: &'static str =
    "INSERT INTO conversation (created_at, topic_id) VALUES (?1, ?2)";

/// A conversation under a topic. An `id` of zero means that the store has
/// yet to assign one.
#[derive(Debug)]
pub struct Conversation {
    id: u32,
    created_at: u64,
    topic_id: u32,
}

impl Conversation {
    pub closed spec fn spec_id(&self) -> u32 {
        self.id
    }

    pub closed spec fn spec_created_at(&self) -> u64 {
        self.created_at
    }

    pub closed spec fn spec_topic_id(&self) -> u32 {
        self.topic_id
    }

    /// The statement that inserts the conversation.
    pub open spec fn spec_insert_statement(self) -> StatementView
        recommends
            self.spec_created_at() <= MAX_INTEGER,
    {
        StatementView {
            sql: CONVERSATION_INSERT@,
            params: seq![
                SqlParamView::Integer(self.spec_created_at() as i64),
                SqlParamView::Integer(self.spec_topic_id() as i64),
            ],
        }
    }

    /// A conversation that the store has not seen yet.
    pub fn new(created_at: &u64, topic_id: &u32) -> (r: Conversation)
        ensures
            r.spec_id() == 0,
            r.spec_created_at() == *created_at,
            r.spec_topic_id() == *topic_id,
    {
        Conversation { id: 0, created_at: *created_at, topic_id: *topic_id }
    }

    pub fn id(&self) -> (r: u32)
        ensures
            r == self.spec_id(),
    {
        self.id
    }

    pub fn created_at(&self) -> (r: u64)
        ensures
            r == self.spec_created_at(),
    {
        self.created_at
    }

    pub fn topic_id(&self) -> (r: u32)
        ensures
            r == self.spec_topic_id(),
    {
        self.topic_id
    }

    /// The statement that inserts this conversation. A creation time that
    /// the database cannot hold is refused.
    pub fn insert_statement(&self) -> (r: Result<Statement, StoreError>)
        ensures
            self.spec_created_at() <= MAX_INTEGER ==> (r matches Ok(st) && st@
                == self.spec_insert_statement()),
            self.spec_created_at() > MAX_INTEGER ==> r matches Err(StoreError::OutOfRange),
    {
        let created_at = bind_u64(self.created_at)?;
        let mut params: Vec<SqlParam> = Vec::new();
        params.push(created_at);
        params.push(SqlParam::Integer(self.topic_id as i64));
        let st = Statement { sql: String::from_str(CONVERSATION_INSERT), params };
        assert(st@.params =~= self.spec_insert_statement().params);
        Ok(st)
    }

    /// Inserts this conversation through `conn` and returns how many rows
    /// the database changed.
    pub fn insert(self, conn: &rusqlite::Connection) -> (r: Result<usize, StoreError>)
        ensures
            self.spec_created_at() > MAX_INTEGER ==> r matches Err(StoreError::OutOfRange),
            self.spec_created_at() <= MAX_INTEGER ==> (r matches Err(e) ==> e is Database),
    {
        let statement = self.insert_statement()?;
        run(conn, &statement)
    }
}

/// The statement that creates the conversation table where it is
/// missing.
pub fn table_statement() -> (r: Statement)
    ensures
        r@ == (StatementView { sql: CONVERSATION_TABLE@, params: Seq::empty() }),
{
    Statement::plain(CONVERSATION_TABLE)
}

/// Creates the conversation table where it is missing, and opens a
/// conversation under the reserved context-free topic.
pub fn init_conversation(conn: &rusqlite::Connection) -> (r: Result<(), StoreError>)
    ensures
        r matches Err(e) ==> e is Database || e is OutOfRange,
{
    run(conn, &table_statement())?;
    let clock = match now() {
        Ok(t) => t,
        Err(_) => 0,
    };
    let free = Conversation::new(&clock, &FREE_TOPIC_ID);
    free.insert(conn)?;
    Ok(())
}

} // verus!
