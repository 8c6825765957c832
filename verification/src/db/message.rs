//! Messages: what the user sent and what the assistant replied.

use vstd::prelude::*;
use vstd::string::*;
use crate::chat::stream::Exchange;
use crate::db::memory::{clear_steps, delete_at_steps, delete_steps, Selector, Step, Store};
use crate::db::topic::exists_answer;
use crate::db::{
    batch_move, begin, bind_u64, cell_text, cell_u32, cell_u64, commit, fetch, last_insert_rowid,
    rollback, run, run_atomically, BatchMove, SqlCell, SqlParam, SqlParamView, Statement,
    StatementView, StoreError, MAX_INTEGER,
};

verus! {

pub const USER_MESSAGE_TABLE: &'static str = "CREATE TABLE IF NOT EXISTS user_message (
    id INTEGER PRIMARY KEY AUTOINCREMENT,
    message TEXT NOT NULL,
    created_at INTEGER NOT NULL,
    topic_id INTEGER NOT NULL,
    CONSTRAINT fk_topic
    FOREIGN KEY (topic_id)
    REFERENCES topic (id)
)";

pub const USER_MESSAGE_INSERT: &'static str =
    "INSERT INTO user_message (message, created_at, topic_id) VALUES (?1, ?2, ?3)";

pub const ASSISTANT_MESSAGE_TABLE: &'static str = "CREATE TABLE IF NOT EXISTS assistant_message (
    id INTEGER PRIMARY KEY AUTOINCREMENT,
    message TEXT NOT NULL,
    created_at INTEGER NOT NULL,
    user_message_id INTEGER NOT NULL,
    CONSTRAINT fk_user_message
    FOREIGN KEY (user_message_id)
    REFERENCES user_message (id)
)";

pub const ASSISTANT_MESSAGE_INSERT: &'static str =
    "INSERT INTO assistant_message (message, created_at, user_message_id) VALUES (?1, ?2, ?3)";

pub const SELECT_ALL_MESSAGES: &'static str =
    "SELECT um.id, um.message, um.created_at, am.id, am.message, am.created_at, am.user_message_id
    FROM user_message um
    INNER JOIN assistant_message am ON um.id = am.user_message_id
    WHERE um.topic_id = ?
    ORDER BY um.id, am.id";

pub const DELETE_TOPIC_REPLIES: &'static str =
    "DELETE FROM assistant_message WHERE user_message_id IN (
        SELECT id FROM user_message WHERE topic_id = ?1
    )";

pub const DELETE_TOPIC_MESSAGES: &'static str = "DELETE FROM user_message WHERE topic_id = ?1";

pub const DELETE_TOPIC: &'static str = "DELETE FROM topic WHERE id = ?1";

pub const DELETE_REPLIES_BY_TIME: &'static str =
    "DELETE FROM assistant_message WHERE user_message_id IN (
        SELECT id FROM user_message WHERE created_at = ?1
    )";

pub const USER_MESSAGE_EXISTS: &'static str =
    "SELECT EXISTS(SELECT 1 FROM user_message WHERE id = ? LIMIT 1)";

pub const DELETE_MESSAGES_BY_TIME: &'static str = "DELETE FROM user_message WHERE created_at = ?1";

/// One outbound message. An `id` of zero means that the store has yet to
/// assign one.
#[derive(Debug)]
pub struct UserMessage {
    id: u32,
    message: String,
    created_at: u64,
    topic_id: u32,
}

/// A [`UserMessage`] as plain values.
pub struct UserRow {
    pub id: u32,
    pub message: Seq<char>,
    pub created_at: u64,
    pub topic_id: u32,
}

impl View for UserMessage {
    type V = UserRow;

    closed spec fn view(&self) -> UserRow {
        UserRow {
            id: self.id,
            message: self.message@,
            created_at: self.created_at,
            topic_id: self.topic_id,
        }
    }
}

/// One reply to a user message. An `id` of zero means that the store has
/// yet to assign one.
#[derive(Debug)]
pub struct AssistantMessage {
    id: u32,
    message: String,
    created_at: u64,
    user_message_id: u32,
}

/// An [`AssistantMessage`] as plain values.
pub struct ReplyRow {
    pub id: u32,
    pub message: Seq<char>,
    pub created_at: u64,
    pub user_message_id: u32,
}

impl View for AssistantMessage {
    type V = ReplyRow;

    closed spec fn view(&self) -> ReplyRow {
        ReplyRow {
            id: self.id,
            message: self.message@,
            created_at: self.created_at,
            user_message_id: self.user_message_id,
        }
    }
}

/// One exchange as it is read back: a user message and its reply.
#[derive(Debug)]
pub struct Conversation {
    user: UserMessage,
    assistant: AssistantMessage,
}

/// A [`Conversation`] as plain values.
pub struct ConversationView {
    pub user: UserRow,
    pub assistant: ReplyRow,
}

impl View for Conversation {
    type V = ConversationView;

    closed spec fn view(&self) -> ConversationView {
        ConversationView { user: self.user@, assistant: self.assistant@ }
    }
}

impl ConversationView {
    /// The reply answers the user message it stands beside.
    pub open spec fn matched(self) -> bool {
        self.assistant.user_message_id == self.user.id
    }

    /// Whether the store can hold the pair: both creation times fit an
    /// integer column.
    pub open spec fn storable(self) -> bool {
        self.user.created_at <= MAX_INTEGER && self.assistant.created_at <= MAX_INTEGER
    }
}

impl UserRow {
    /// The statement that inserts the message.
    pub open spec fn insert_statement(self) -> StatementView
        recommends
            self.created_at <= MAX_INTEGER,
    {
        StatementView {
            sql: USER_MESSAGE_INSERT@,
            params: seq![
                SqlParamView::Text(self.message),
                SqlParamView::Integer(self.created_at as i64),
                SqlParamView::Integer(self.topic_id as i64),
            ],
        }
    }
}

impl ReplyRow {
    /// The statement that inserts the reply.
    pub open spec fn insert_statement(self) -> StatementView
        recommends
            self.created_at <= MAX_INTEGER,
    {
        StatementView {
            sql: ASSISTANT_MESSAGE_INSERT@,
            params: seq![
                SqlParamView::Text(self.message),
                SqlParamView::Integer(self.created_at as i64),
                SqlParamView::Integer(self.user_message_id as i64),
            ],
        }
    }
}

impl UserMessage {
    /// A message that the store has not seen yet.
    pub fn new(message: &str, created_at: u64, topic_id: u32) -> (r: UserMessage)
        ensures
            r@ == (UserRow { id: 0, message: message@, created_at, topic_id }),
    {
        UserMessage { id: 0, message: String::from_str(message), created_at, topic_id }
    }

    /// A message as the store holds it.
    pub fn stored(id: u32, message: String, created_at: u64, topic_id: u32) -> (r: UserMessage)
        ensures
            r@ == (UserRow { id, message: message@, created_at, topic_id }),
    {
        UserMessage { id, message, created_at, topic_id }
    }

    pub fn id(&self) -> (r: u32)
        ensures
            r == self@.id,
    {
        self.id
    }

    pub fn message(&self) -> (r: &String)
        ensures
            r@ == self@.message,
    {
        &self.message
    }

    pub fn created_at(&self) -> (r: u64)
        ensures
            r == self@.created_at,
    {
        self.created_at
    }

    pub fn topic_id(&self) -> (r: u32)
        ensures
            r == self@.topic_id,
    {
        self.topic_id
    }

    /// A copy of the message.
    pub fn duplicate(&self) -> (r: UserMessage)
        ensures
            r@ == self@,
    {
        UserMessage {
            id: self.id,
            message: self.message.clone(),
            created_at: self.created_at,
            topic_id: self.topic_id,
        }
    }

    /// The statement that inserts this message. A creation time that the
    /// database cannot hold is refused.
    pub fn insert_statement(&self) -> (r: Result<Statement, StoreError>)
        ensures
            self@.created_at <= MAX_INTEGER ==> (r matches Ok(st) && st@
                == self@.insert_statement()),
            self@.created_at > MAX_INTEGER ==> r matches Err(StoreError::OutOfRange),
    {
        let created_at = bind_u64(self.created_at)?;
        let mut params: Vec<SqlParam> = Vec::new();
        params.push(SqlParam::Text(self.message.clone()));
        params.push(created_at);
        params.push(SqlParam::Integer(self.topic_id as i64));
        let st = Statement { sql: String::from_str(USER_MESSAGE_INSERT), params };
        assert(st@.params =~= self@.insert_statement().params);
        Ok(st)
    }

    /// Inserts this message through `conn` and returns how many rows the
    /// database changed.
    pub fn insert(&self, conn: &rusqlite::Connection) -> (r: Result<usize, StoreError>)
        ensures
            self@.created_at > MAX_INTEGER ==> r matches Err(StoreError::OutOfRange),
            self@.created_at <= MAX_INTEGER ==> (r matches Err(e) ==> e is Database),
    {
        let statement = self.insert_statement()?;
        run(conn, &statement)
    }
}

impl AssistantMessage {
    /// A reply that the store has not seen yet.
    pub fn new(message: String, created_at: u64, user_message_id: u32) -> (r: AssistantMessage)
        ensures
            r@ == (ReplyRow { id: 0, message: message@, created_at, user_message_id }),
    {
        AssistantMessage { id: 0, message, created_at, user_message_id }
    }

    /// A reply as the store holds it.
    pub fn stored(id: u32, message: String, created_at: u64, user_message_id: u32) -> (r:
        AssistantMessage)
        ensures
            r@ == (ReplyRow { id, message: message@, created_at, user_message_id }),
    {
        AssistantMessage { id, message, created_at, user_message_id }
    }

    pub fn id(&self) -> (r: u32)
        ensures
            r == self@.id,
    {
        self.id
    }

    pub fn message(&self) -> (r: &String)
        ensures
            r@ == self@.message,
    {
        &self.message
    }

    pub fn created_at(&self) -> (r: u64)
        ensures
            r == self@.created_at,
    {
        self.created_at
    }

    pub fn user_message_id(&self) -> (r: u32)
        ensures
            r == self@.user_message_id,
    {
        self.user_message_id
    }

    /// A copy of the reply.
    pub fn duplicate(&self) -> (r: AssistantMessage)
        ensures
            r@ == self@,
    {
        AssistantMessage {
            id: self.id,
            message: self.message.clone(),
            created_at: self.created_at,
            user_message_id: self.user_message_id,
        }
    }

    /// The statement that inserts this reply. A creation time that the
    /// database cannot hold is refused.
    pub fn insert_statement(&self) -> (r: Result<Statement, StoreError>)
        ensures
            self@.created_at <= MAX_INTEGER ==> (r matches Ok(st) && st@
                == self@.insert_statement()),
            self@.created_at > MAX_INTEGER ==> r matches Err(StoreError::OutOfRange),
    {
        let created_at = bind_u64(self.created_at)?;
        let mut params: Vec<SqlParam> = Vec::new();
        params.push(SqlParam::Text(self.message.clone()));
        params.push(created_at);
        params.push(SqlParam::Integer(self.user_message_id as i64));
        let st = Statement { sql: String::from_str(ASSISTANT_MESSAGE_INSERT), params };
        assert(st@.params =~= self@.insert_statement().params);
        Ok(st)
    }

    /// What inserting this reply comes to, once the store has said whether
    /// it holds the user message that the reply names: the insert
    /// statement where it does. A creation time that the database cannot
    /// hold is refused first, then a reply whose user message is missing.
    pub fn insertion(&self, owner_found: bool) -> (r: Result<Statement, StoreError>)
        ensures
            self@.created_at > MAX_INTEGER ==> r matches Err(StoreError::OutOfRange),
            self@.created_at <= MAX_INTEGER && !owner_found ==> r matches Err(StoreError::Orphan),
            self@.created_at <= MAX_INTEGER && owner_found ==> (r matches Ok(st) && st@
                == self@.insert_statement()),
    {
        let statement = self.insert_statement()?;
        if owner_found {
            Ok(statement)
        } else {
            Err(StoreError::Orphan)
        }
    }

    /// Inserts this reply through `conn` and returns how many rows the
    /// database changed. A reply is stored only beside its user message:
    /// where the store does not hold the user message that the reply
    /// names, nothing is inserted.
    pub fn insert(&self, conn: &rusqlite::Connection) -> (r: Result<usize, StoreError>)
        ensures
            self@.created_at > MAX_INTEGER ==> r matches Err(StoreError::OutOfRange),
            self@.created_at <= MAX_INTEGER ==> (r matches Err(e) ==> e is Database || e is Malformed
                || e is Orphan),
    {
        let _ = self.insert_statement()?;
        let rows = fetch(conn, &user_exists_statement(self.user_message_id))?;
        let owner_found = exists_answer(&rows)?;
        let statement = self.insertion(owner_found)?;
        run(conn, &statement)
    }
}

impl Conversation {
    /// A user message beside its reply.
    pub fn pair(user: UserMessage, assistant: AssistantMessage) -> (r: Conversation)
        ensures
            r@ == (ConversationView { user: user@, assistant: assistant@ }),
    {
        Conversation { user, assistant }
    }

    pub fn user(&self) -> (r: &UserMessage)
        ensures
            r@ == self@.user,
    {
        &self.user
    }

    pub fn assistant(&self) -> (r: &AssistantMessage)
        ensures
            r@ == self@.assistant,
    {
        &self.assistant
    }
}

/// A statement with one integer parameter.
pub fn keyed_statement(sql: &str, key: i64) -> (r: Statement)
    ensures
        r@ == (StatementView { sql: sql@, params: seq![SqlParamView::Integer(key)] }),
{
    let mut params: Vec<SqlParam> = Vec::new();
    params.push(SqlParam::Integer(key));
    let r = Statement { sql: String::from_str(sql), params };
    assert(r@.params =~= seq![SqlParamView::Integer(key)]);
    r
}

/// The views of a list of statements.
pub open spec fn statement_views(statements: Seq<Statement>) -> Seq<StatementView> {
    Seq::new(statements.len(), |i: int| statements[i]@)
}

/// Whether the database can hold what the step is keyed by.
pub open spec fn step_storable(step: Step) -> bool {
    match step {
        Step::DeleteReplies(Selector::Time(at)) => at <= MAX_INTEGER,
        Step::DeleteMessages(Selector::Time(at)) => at <= MAX_INTEGER,
        _ => true,
    }
}

/// The statement that carries a step of the store's batches out on the
/// database.
pub open spec fn step_statement(step: Step) -> StatementView
    recommends
        step_storable(step),
{
    match step {
        Step::DeleteReplies(Selector::Topic(topic_id)) => StatementView {
            sql: DELETE_TOPIC_REPLIES@,
            params: seq![SqlParamView::Integer(topic_id as i64)],
        },
        Step::DeleteReplies(Selector::Time(at)) => StatementView {
            sql: DELETE_REPLIES_BY_TIME@,
            params: seq![SqlParamView::Integer(at as i64)],
        },
        Step::DeleteMessages(Selector::Topic(topic_id)) => StatementView {
            sql: DELETE_TOPIC_MESSAGES@,
            params: seq![SqlParamView::Integer(topic_id as i64)],
        },
        Step::DeleteMessages(Selector::Time(at)) => StatementView {
            sql: DELETE_MESSAGES_BY_TIME@,
            params: seq![SqlParamView::Integer(at as i64)],
        },
        Step::DeleteTopic(topic_id) => StatementView {
            sql: DELETE_TOPIC@,
            params: seq![SqlParamView::Integer(topic_id as i64)],
        },
    }
}

/// The statements that carry the steps out, in order.
pub open spec fn step_statements(steps: Seq<Step>) -> Seq<StatementView> {
    Seq::new(steps.len(), |i: int| step_statement(steps[i]))
}

/// Whether the database can hold what each of the steps is keyed by.
pub open spec fn steps_storable(steps: Seq<Step>) -> bool {
    forall|i: int| 0 <= i < steps.len() ==> step_storable(#[trigger] steps[i])
}

/// The statement that carries `step` out on the database. A step keyed by
/// a time that the database cannot hold is refused.
pub fn statement_of(step: Step) -> (r: Result<Statement, StoreError>)
    ensures
        step_storable(step) ==> (r matches Ok(statement) && statement@ == step_statement(step)),
        !step_storable(step) ==> r matches Err(StoreError::OutOfRange),
{
    match step {
        Step::DeleteReplies(Selector::Topic(topic_id)) => Ok(
            keyed_statement(DELETE_TOPIC_REPLIES, topic_id as i64),
        ),
        Step::DeleteReplies(Selector::Time(at)) => {
            if at > MAX_INTEGER {
                Err(StoreError::OutOfRange)
            } else {
                Ok(keyed_statement(DELETE_REPLIES_BY_TIME, at as i64))
            }
        },
        Step::DeleteMessages(Selector::Topic(topic_id)) => Ok(
            keyed_statement(DELETE_TOPIC_MESSAGES, topic_id as i64),
        ),
        Step::DeleteMessages(Selector::Time(at)) => {
            if at > MAX_INTEGER {
                Err(StoreError::OutOfRange)
            } else {
                Ok(keyed_statement(DELETE_MESSAGES_BY_TIME, at as i64))
            }
        },
        Step::DeleteTopic(topic_id) => Ok(keyed_statement(DELETE_TOPIC, topic_id as i64)),
    }
}

/// The statements that carry `steps` out on the database, in order. One
/// step that the database cannot hold refuses the whole batch.
pub fn batch_of(steps: &Vec<Step>) -> (r: Result<Vec<Statement>, StoreError>)
    ensures
        steps_storable(steps@) ==> (r matches Ok(batch) && statement_views(batch@)
            == step_statements(steps@)),
        !steps_storable(steps@) ==> r matches Err(StoreError::OutOfRange),
{
    let mut batch: Vec<Statement> = Vec::new();
    let mut i: usize = 0;
    while i < steps.len()
        invariant
            i <= steps.len(),
            batch.len() == i,
            forall|k: int| 0 <= k < i ==> step_storable(#[trigger] steps[k]),
            forall|k: int| 0 <= k < i ==> (#[trigger] batch[k])@ == step_statement(steps[k]),
        decreases steps.len() - i,
    {
        match statement_of(steps[i]) {
            Ok(statement) => {
                batch.push(statement);
            },
            Err(e) => {
                assert(!step_storable(steps@[i as int]));
                return Err(e);
            },
        }
        i = i + 1;
    }
    assert(statement_views(batch@) =~= step_statements(steps@));
    Ok(batch)
}

/// The batch that clears the topic `topic_id`: the statements of the
/// store's steps for it.
pub fn clear_batch(topic_id: u32) -> (r: Vec<Statement>)
    ensures
        statement_views(r@) == step_statements(clear_steps(topic_id)),
{
    let steps = Store::clear_steps(topic_id);
    assert(steps_storable(steps@));
    match batch_of(&steps) {
        Ok(batch) => batch,
        Err(_) => Vec::new(),
    }
}

/// The batch that deletes the topic `topic_id` with all its messages: the
/// statements of the store's steps for it.
pub fn delete_batch(topic_id: u32) -> (r: Vec<Statement>)
    ensures
        statement_views(r@) == step_statements(delete_steps(topic_id)),
{
    let steps = Store::delete_steps(topic_id);
    assert(steps_storable(steps@));
    match batch_of(&steps) {
        Ok(batch) => batch,
        Err(_) => Vec::new(),
    }
}

/// The batch that deletes the user messages created at `create_at` with
/// the replies to them: the statements of the store's steps for it. A time
/// that the database cannot hold is refused.
pub fn delete_at_batch(create_at: u64) -> (r: Result<Vec<Statement>, StoreError>)
    ensures
        create_at <= MAX_INTEGER ==> (r matches Ok(batch) && statement_views(batch@)
            == step_statements(delete_at_steps(create_at))),
        create_at > MAX_INTEGER ==> r matches Err(StoreError::OutOfRange),
{
    let steps = Store::delete_at_steps(create_at);
    proof {
        if create_at <= MAX_INTEGER {
            assert(steps_storable(steps@));
        } else {
            assert(!step_storable(steps@[0]));
        }
    }
    batch_of(&steps)
}

/// Removes all messages under the topic `topic_id`, and the replies to
/// them, as one unit: when the database refuses a part, nothing is removed.
pub fn clear_topic(conn: &rusqlite::Connection, topic_id: u32) -> (r: Result<(), StoreError>)
    ensures
        r matches Err(e) ==> e is Database,
{
    run_atomically(conn, &clear_batch(topic_id))
}

/// Removes the topic `topic_id` with all messages under it and the replies
/// to them, as one unit: when the database refuses a part, nothing is
/// removed.
pub fn delete_topic(conn: &rusqlite::Connection, topic_id: u32) -> (r: Result<(), StoreError>)
    ensures
        r matches Err(e) ==> e is Database,
{
    run_atomically(conn, &delete_batch(topic_id))
}

/// Removes the user messages created at `create_at`, and the replies to
/// all of them, as one unit. A time that the database cannot hold is
/// refused before anything is sent.
pub fn delete_user_message_by_time(conn: &rusqlite::Connection, create_at: u64) -> (r: Result<
    (),
    StoreError,
>)
    ensures
        create_at > MAX_INTEGER ==> r matches Err(StoreError::OutOfRange),
        create_at <= MAX_INTEGER ==> (r matches Err(e) ==> e is Database),
{
    let batch = delete_at_batch(create_at)?;
    run_atomically(conn, &batch)
}

/// The statement that creates the table of user messages where it is
/// missing.
pub fn user_table_statement() -> (r: Statement)
    ensures
        r@ == (StatementView { sql: USER_MESSAGE_TABLE@, params: Seq::empty() }),
{
    Statement::plain(USER_MESSAGE_TABLE)
}

/// The statement that creates the table of replies where it is missing.
pub fn assistant_table_statement() -> (r: Statement)
    ensures
        r@ == (StatementView { sql: ASSISTANT_MESSAGE_TABLE@, params: Seq::empty() }),
{
    Statement::plain(ASSISTANT_MESSAGE_TABLE)
}

/// The statement that reads the exchanges under the topic `topic_id`.
pub fn messages_statement(topic_id: u32) -> (r: Statement)
    ensures
        r@ == (StatementView {
            sql: SELECT_ALL_MESSAGES@,
            params: seq![SqlParamView::Integer(topic_id as i64)],
        }),
{
    keyed_statement(SELECT_ALL_MESSAGES, topic_id as i64)
}

/// The statement that asks whether a user message with `id` exists.
pub fn user_exists_statement(id: u32) -> (r: Statement)
    ensures
        r@ == (StatementView {
            sql: USER_MESSAGE_EXISTS@,
            params: seq![SqlParamView::Integer(id as i64)],
        }),
{
    keyed_statement(USER_MESSAGE_EXISTS, id as i64)
}

/// Creates the two message tables where they are missing.
pub fn init_messages(conn: &rusqlite::Connection) -> (r: Result<(), StoreError>)
    ensures
        r matches Err(e) ==> e is Database,
{
    run(conn, &user_table_statement())?;
    run(conn, &assistant_table_statement())?;
    Ok(())
}

/// The exchange that a row of [`SELECT_ALL_MESSAGES`] holds for the topic
/// `topic_id`, where the row has seven cells of the right kinds and ranges
/// and its reply names its user message.
pub open spec fn spec_conversation_of_row(cells: Seq<SqlCell>, topic_id: u32) -> Option<
    ConversationView,
> {
    if cells.len() == 7 {
        match (cells[0], cells[1], cells[2], cells[3], cells[4], cells[5], cells[6]) {
            (
                SqlCell::Integer(uid),
                SqlCell::Text(utext),
                SqlCell::Integer(utime),
                SqlCell::Integer(aid),
                SqlCell::Text(atext),
                SqlCell::Integer(atime),
                SqlCell::Integer(owner),
            ) => if 0 <= uid <= u32::MAX && 0 <= utime && 0 <= aid <= u32::MAX && 0 <= atime
                && owner == uid {
                Some(
                    ConversationView {
                        user: UserRow {
                            id: uid as u32,
                            message: utext@,
                            created_at: utime as u64,
                            topic_id,
                        },
                        assistant: ReplyRow {
                            id: aid as u32,
                            message: atext@,
                            created_at: atime as u64,
                            user_message_id: owner as u32,
                        },
                    },
                )
            } else {
                None
            },
            _ => None,
        }
    } else {
        None
    }
}

/// Reads an exchange from a row of [`SELECT_ALL_MESSAGES`].
pub fn conversation_of_row(cells: &Vec<SqlCell>, topic_id: u32) -> (r: Result<
    Conversation,
    StoreError,
>)
    ensures
        match spec_conversation_of_row(cells@, topic_id) {
            Some(row) => r matches Ok(c) && c@ == row,
            None => r matches Err(e) && (e is Malformed || e is OutOfRange),
        },
{
    if cells.len() != 7 {
        return Err(StoreError::Malformed);
    }
    let uid = cell_u32(&cells[0])?;
    let utext = cell_text(&cells[1])?;
    let utime = cell_u64(&cells[2])?;
    let aid = cell_u32(&cells[3])?;
    let atext = cell_text(&cells[4])?;
    let atime = cell_u64(&cells[5])?;
    let owner = cell_u32(&cells[6])?;
    if owner != uid {
        return Err(StoreError::Malformed);
    }
    Ok(
        Conversation::pair(
            UserMessage::stored(uid, utext, utime, topic_id),
            AssistantMessage::stored(aid, atext, atime, owner),
        ),
    )
}

/// The views of a list of exchanges.
pub open spec fn conversation_views(list: Seq<Conversation>) -> Seq<ConversationView> {
    Seq::new(list.len(), |i: int| list[i]@)
}

/// The exchanges that the rows hold, where every row holds one.
pub open spec fn spec_conversations_of_rows(rows: Seq<Vec<SqlCell>>, topic_id: u32) -> Option<
    Seq<ConversationView>,
> {
    if forall|i: int|
        0 <= i < rows.len() ==> spec_conversation_of_row(#[trigger] rows[i]@, topic_id) is Some {
        Some(Seq::new(rows.len(), |i: int| spec_conversation_of_row(rows[i]@, topic_id)->0))
    } else {
        None
    }
}

/// Reads the exchanges from the rows of [`SELECT_ALL_MESSAGES`], in order.
/// One row that holds no exchange fails the whole read.
pub fn conversations_of_rows(rows: &Vec<Vec<SqlCell>>, topic_id: u32) -> (r: Result<
    Vec<Conversation>,
    StoreError,
>)
    ensures
        match spec_conversations_of_rows(rows@, topic_id) {
            Some(expected) => r matches Ok(list) && conversation_views(list@) == expected,
            None => r matches Err(e) && (e is Malformed || e is OutOfRange),
        },
{
    let mut list: Vec<Conversation> = Vec::new();
    let mut i: usize = 0;
    while i < rows.len()
        invariant
            i <= rows.len(),
            list.len() == i,
            forall|k: int|
                0 <= k < i ==> spec_conversation_of_row(#[trigger] rows[k]@, topic_id) == Some(
                    list[k]@,
                ),
        decreases rows.len() - i,
    {
        match conversation_of_row(&rows[i], topic_id) {
            Ok(c) => {
                list.push(c);
            },
            Err(e) => {
                assert(spec_conversation_of_row(rows[i as int]@, topic_id) is None);
                return Err(e);
            },
        }
        i = i + 1;
    }
    proof {
        assert(spec_conversations_of_rows(rows@, topic_id) is Some);
        assert(conversation_views(list@) =~= spec_conversations_of_rows(rows@, topic_id)->0);
    }
    Ok(list)
}

/// The exchanges under the topic `topic_id`, oldest first. A user message
/// without a reply is not among them: every pair read holds a user message
/// of the topic beside a reply that names it, and is one that the store
/// can hold. The read fails where the database refuses it, or where a row
/// that it yields holds no such pair.
pub fn get_messages(conn: &rusqlite::Connection, topic_id: u32) -> (r: Result<
    Vec<Conversation>,
    StoreError,
>)
    ensures
        r matches Ok(list) ==> forall|i: int|
            0 <= i < list.len() ==> (#[trigger] list[i])@.user.topic_id == topic_id
                && list[i]@.matched() && list[i]@.storable(),
        r matches Err(e) ==> e is Database || e is Malformed || e is OutOfRange,
{
    let rows = fetch(conn, &messages_statement(topic_id))?;
    let list = conversations_of_rows(&rows, topic_id)?;
    proof {
        let expected = spec_conversations_of_rows(rows@, topic_id)->0;
        assert(conversation_views(list@).len() == list.len());
        assert(expected.len() == rows.len());
        assert forall|i: int| 0 <= i < list.len() implies (#[trigger] list[i])@.user.topic_id
            == topic_id && list[i]@.matched() && list[i]@.storable() by {
            assert(conversation_views(list@)[i] == list[i]@);
            assert(expected[i] == spec_conversation_of_row(rows[i]@, topic_id)->0);
        }
    }
    Ok(list)
}

/// The id that the database assigned, where it fits 32 bits and is not
/// the id that stands for "none".
pub open spec fn spec_assigned_id(rowid: i64) -> Option<u32> {
    if 0 < rowid <= u32::MAX {
        Some(rowid as u32)
    } else {
        None
    }
}

/// Reads the id that the database assigned to the row just inserted.
pub fn assigned_id(rowid: i64) -> (r: Result<u32, StoreError>)
    ensures
        match spec_assigned_id(rowid) {
            Some(id) => r == Ok::<u32, StoreError>(id),
            None => r matches Err(StoreError::OutOfRange),
        },
{
    if 0 < rowid && rowid <= 0xffff_ffff {
        Ok(rowid as u32)
    } else {
        Err(StoreError::OutOfRange)
    }
}

/// The user message of an exchange.
pub fn user_message_of(exchange: &Exchange) -> (r: UserMessage)
    ensures
        r@ == (UserRow {
            id: 0,
            message: exchange@.user_text,
            created_at: exchange@.created_at,
            topic_id: exchange@.topic_id,
        }),
{
    UserMessage::new(exchange.user_text.as_str(), exchange.created_at, exchange.topic_id)
}

/// The reply of an exchange, answering the user message `user_message_id`.
pub fn reply_of(exchange: &Exchange, user_message_id: u32) -> (r: AssistantMessage)
    ensures
        r@ == (ReplyRow {
            id: 0,
            message: exchange@.reply_text,
            created_at: exchange@.reply_time,
            user_message_id,
        }),
{
    AssistantMessage::new(exchange.reply_text.clone(), exchange.reply_time, user_message_id)
}

/// Stores an exchange through `conn` as one unit: the user message, then
/// the reply under the id that the user message got. Returns that id.
/// A time that the database cannot hold is refused before anything is
/// sent. After that the three steps (insert the user message, read its id,
/// insert the reply) are taken as [`batch_move`] says, so that a refusal
/// rolls back what was done and nothing is stored.
pub fn record_exchange(conn: &rusqlite::Connection, exchange: &Exchange) -> (r: Result<
    u32,
    StoreError,
>)
    ensures
        exchange@.created_at > MAX_INTEGER ==> r matches Err(StoreError::OutOfRange),
        exchange@.reply_time > MAX_INTEGER ==> r matches Err(StoreError::OutOfRange),
        r matches Ok(id) ==> id != 0,
        r matches Err(e) ==> e is Database || e is OutOfRange,
{
    let insert_user = user_message_of(exchange).insert_statement()?;
    let _ = bind_u64(exchange.reply_time)?;
    begin(conn)?;
    let mut done: usize = 0;
    let mut refusal: Option<StoreError> = None;
    let mut id: u32 = 0;
    loop
        invariant
            exchange@.created_at <= MAX_INTEGER,
            exchange@.reply_time <= MAX_INTEGER,
            done <= 3,
            done >= 2 ==> id != 0,
            refusal matches Some(e) ==> e is Database || e is OutOfRange,
        decreases
                3 - done + if refusal is None {
                    1int
                } else {
                    0int
                },
    {
        match batch_move(3, done, refusal.is_none()) {
            BatchMove::Run(step) => {
                let outcome = if step == 0 {
                    run(conn, &insert_user)
                } else if step == 1 {
                    match assigned_id(last_insert_rowid(conn)) {
                        Ok(assigned) => {
                            id = assigned;
                            Ok(1)
                        },
                        Err(e) => Err(e),
                    }
                } else {
                    match reply_of(exchange, id).insert_statement() {
                        Ok(insert_reply) => run(conn, &insert_reply),
                        Err(e) => Err(e),
                    }
                };
                match outcome {
                    Ok(_) => {
                        done = done + 1;
                    },
                    Err(e) => {
                        refusal = Some(e);
                    },
                }
            },
            BatchMove::Commit => {
                commit(conn)?;
                return Ok(id);
            },
            BatchMove::Rollback => {
                assert(refusal is Some);
                rollback(conn);
                return match refusal {
                    Some(e) => Err(e),
                    None => Ok(id),
                };
            },
        }
    }
}

} // verus!
