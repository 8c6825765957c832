//! Topics: named buckets of conversation.

use vstd::prelude::*;
use vstd::string::*;
use crate::db::message::{assigned_id, spec_assigned_id};
use crate::db::{
    bind_u64, cell_bool, cell_text, cell_u32, cell_u64, fetch, last_insert_rowid, run, SqlCell,
    SqlParam, SqlParamView, Statement, StatementView, StoreError, MAX_INTEGER,
};
use crate::time::now;

verus! {

pub const TOPIC_TABLE: &'static str = "CREATE TABLE IF NOT EXISTS topic (
    id INTEGER PRIMARY KEY AUTOINCREMENT,
    name VARCHAR(20) NOT NULL,
    description VARCHAR(200) NOT NULL DEFAULT '',
    created_at INTEGER NOT NULL
)";

pub const TOPIC_INSERT: &'static str =
    "INSERT INTO topic (name, description, created_at) VALUES (?1, ?2, ?3)";

pub const TOPIC_INSERT_WITH_ID: &'static str =
    "INSERT INTO topic (id, name, description, created_at) VALUES (?1, ?2, ?3, ?4)";

pub const TOPIC_EXISTS: &'static str = "SELECT EXISTS(SELECT 1 FROM topic WHERE id = ? LIMIT 1)";

pub const TOPIC_EXISTS_BY_NAME: &'static str =
    "SELECT EXISTS(SELECT 1 FROM topic WHERE name = ? LIMIT 1)";

pub const SELECT_ALL_TOPICS: &'static str = "SELECT id, name, description, created_at FROM topic";

pub const TOPIC_UPDATE: &'static str = "UPDATE topic SET name = ?1, description = ?2 WHERE id = ?3";

/// The id of the reserved topic for questions without context.
pub const FREE_TOPIC_ID: u32 = 1;

pub const FREE_TOPIC_NAME: &'static str = "自由对话";

pub const FREE_TOPIC_DESCRIPTION: &'static str =
    "不使用上下文的简单问答，可在此主题中提问一些常识或答案偏固定的问题。";

/// The id of the reserved topic for refining a question.
pub const PROMPT_TOPIC_ID: u32 = 2;

pub const PROMPT_TOPIC_NAME: &'static str = "问题完善";

pub const PROMPT_TOPIC_DESCRIPTION: &'static str =
    "当你的问题比较笼统、不精确，已经或可能使 ChatGPT 无法正确理解时，可以通过此主题对你的问题进行完善。需要注意的是，当你完善一个问题后，在完善下一个问题前，应清空历史记录，否则生成的问题可能存在逻辑错误。";

/// A topic. An `id` of zero means that the store has yet to assign one.
#[derive(Debug)]
pub struct Topic {
    pub id: u32,
    pub name: String,
    pub description: String,
    pub created_at: u64,
}

/// A [`Topic`] as plain values.
pub struct TopicRow {
    pub id: u32,
    pub name: Seq<char>,
    pub description: Seq<char>,
    pub created_at: u64,
}

impl View for Topic {
    type V = TopicRow;

    open spec fn view(&self) -> TopicRow {
        TopicRow {
            id: self.id,
            name: self.name@,
            description: self.description@,
            created_at: self.created_at,
        }
    }
}

/// How the store looks for a topic before inserting it: by its id where
/// one was assigned beforehand, by its name otherwise.
#[derive(Debug)]
pub enum TopicLookup {
    ById(u32),
    ByName(String),
}

/// A [`TopicLookup`] as plain values.
pub enum TopicLookupView {
    ById(u32),
    ByName(Seq<char>),
}

impl View for TopicLookup {
    type V = TopicLookupView;

    open spec fn view(&self) -> TopicLookupView {
        match *self {
            TopicLookup::ById(id) => TopicLookupView::ById(id),
            TopicLookup::ByName(name) => TopicLookupView::ByName(name@),
        }
    }
}

impl TopicRow {
    /// Whether the id was assigned before the topic reaches the store.
    pub open spec fn has_id(self) -> bool {
        self.id > 0
    }

    /// How the store looks for the topic before inserting it.
    pub open spec fn lookup(self) -> TopicLookupView {
        if self.has_id() {
            TopicLookupView::ById(self.id)
        } else {
            TopicLookupView::ByName(self.name)
        }
    }

    /// Whether the store can hold the topic: its creation time fits an
    /// integer column.
    pub open spec fn storable(self) -> bool {
        self.created_at <= MAX_INTEGER
    }

    /// The statement that inserts the topic.
    pub open spec fn insert_statement(self) -> StatementView
        recommends
            self.created_at <= MAX_INTEGER,
    {
        if self.has_id() {
            StatementView {
                sql: TOPIC_INSERT_WITH_ID@,
                params: seq![
                    SqlParamView::Integer(self.id as i64),
                    SqlParamView::Text(self.name),
                    SqlParamView::Text(self.description),
                    SqlParamView::Integer(self.created_at as i64),
                ],
            }
        } else {
            StatementView {
                sql: TOPIC_INSERT@,
                params: seq![
                    SqlParamView::Text(self.name),
                    SqlParamView::Text(self.description),
                    SqlParamView::Integer(self.created_at as i64),
                ],
            }
        }
    }
}

/// The statement that asks whether a topic with `topic_id` exists.
pub fn exists_statement(topic_id: u32) -> (r: Statement)
    ensures
        r@ == (StatementView {
            sql: TOPIC_EXISTS@,
            params: seq![SqlParamView::Integer(topic_id as i64)],
        }),
{
    let mut params: Vec<SqlParam> = Vec::new();
    params.push(SqlParam::Integer(topic_id as i64));
    let r = Statement { sql: String::from_str(TOPIC_EXISTS), params };
    assert(r@.params =~= seq![SqlParamView::Integer(topic_id as i64)]);
    r
}

/// The statement that asks whether a topic named `name` exists.
pub fn exists_by_name_statement(name: &str) -> (r: Statement)
    ensures
        r@ == (StatementView {
            sql: TOPIC_EXISTS_BY_NAME@,
            params: seq![SqlParamView::Text(name@)],
        }),
{
    let mut params: Vec<SqlParam> = Vec::new();
    params.push(SqlParam::Text(String::from_str(name)));
    let r = Statement { sql: String::from_str(TOPIC_EXISTS_BY_NAME), params };
    assert(r@.params =~= seq![SqlParamView::Text(name@)]);
    r
}

/// The statement that renames the topic `topic_id` and replaces its
/// description.
pub fn update_statement(topic_id: u32, new_name: &str, new_description: &str) -> (r: Statement)
    ensures
        r@ == (StatementView {
            sql: TOPIC_UPDATE@,
            params: seq![
                SqlParamView::Text(new_name@),
                SqlParamView::Text(new_description@),
                SqlParamView::Integer(topic_id as i64),
            ],
        }),
{
    let mut params: Vec<SqlParam> = Vec::new();
    params.push(SqlParam::Text(String::from_str(new_name)));
    params.push(SqlParam::Text(String::from_str(new_description)));
    params.push(SqlParam::Integer(topic_id as i64));
    let r = Statement { sql: String::from_str(TOPIC_UPDATE), params };
    assert(r@.params =~= seq![
        SqlParamView::Text(new_name@),
        SqlParamView::Text(new_description@),
        SqlParamView::Integer(topic_id as i64),
    ]);
    r
}

/// What an existence query answered: the truth value in the first cell of
/// the first row.
pub open spec fn spec_exists_answer(rows: Seq<Vec<SqlCell>>) -> Option<bool> {
    if rows.len() > 0 && rows[0]@.len() > 0 {
        match rows[0]@[0] {
            SqlCell::Integer(i) => Some(i != 0),
            _ => None,
        }
    } else {
        None
    }
}

/// Reads the answer of an existence query. Rows of any other shape are
/// malformed.
pub fn exists_answer(rows: &Vec<Vec<SqlCell>>) -> (r: Result<bool, StoreError>)
    ensures
        match spec_exists_answer(rows@) {
            Some(b) => r == Ok::<bool, StoreError>(b),
            None => r matches Err(StoreError::Malformed),
        },
{
    if rows.len() > 0 && rows[0].len() > 0 {
        cell_bool(&rows[0][0])
    } else {
        Err(StoreError::Malformed)
    }
}

/// The topic that a row of [`SELECT_ALL_TOPICS`] holds, where the row has
/// four cells: an id that fits 32 bits, two texts and a time that is not
/// negative.
pub open spec fn spec_topic_of_row(cells: Seq<SqlCell>) -> Option<TopicRow> {
    if cells.len() == 4 {
        match (cells[0], cells[1], cells[2], cells[3]) {
            (
                SqlCell::Integer(id),
                SqlCell::Text(name),
                SqlCell::Text(description),
                SqlCell::Integer(created_at),
            ) => if 0 <= id <= u32::MAX && 0 <= created_at {
                Some(
                    TopicRow {
                        id: id as u32,
                        name: name@,
                        description: description@,
                        created_at: created_at as u64,
                    },
                )
            } else {
                None
            },
            _ => None,
        }
    } else {
        None
    }
}

/// Reads a topic from a row of [`SELECT_ALL_TOPICS`].
pub fn topic_of_row(cells: &Vec<SqlCell>) -> (r: Result<Topic, StoreError>)
    ensures
        match spec_topic_of_row(cells@) {
            Some(row) => r matches Ok(topic) && topic@ == row,
            None => r matches Err(e) && (e is Malformed || e is OutOfRange),
        },
{
    if cells.len() != 4 {
        return Err(StoreError::Malformed);
    }
    let id = cell_u32(&cells[0])?;
    let name = cell_text(&cells[1])?;
    let description = cell_text(&cells[2])?;
    let created_at = cell_u64(&cells[3])?;
    Ok(Topic { id, name, description, created_at })
}

/// The topics that the rows hold, where every row holds one.
pub open spec fn spec_topics_of_rows(rows: Seq<Vec<SqlCell>>) -> Option<Seq<TopicRow>> {
    if forall|i: int| 0 <= i < rows.len() ==> spec_topic_of_row(#[trigger] rows[i]@) is Some {
        Some(Seq::new(rows.len(), |i: int| spec_topic_of_row(rows[i]@)->0))
    } else {
        None
    }
}

/// The views of a list of topics.
pub open spec fn topic_rows(topics: Seq<Topic>) -> Seq<TopicRow> {
    Seq::new(topics.len(), |i: int| topics[i]@)
}

/// Reads the topics from the rows of [`SELECT_ALL_TOPICS`], in order. One
/// row that holds no topic fails the whole read.
pub fn topics_of_rows(rows: &Vec<Vec<SqlCell>>) -> (r: Result<Vec<Topic>, StoreError>)
    ensures
        match spec_topics_of_rows(rows@) {
            Some(expected) => r matches Ok(topics) && topic_rows(topics@) == expected,
            None => r matches Err(e) && (e is Malformed || e is OutOfRange),
        },
{
    let mut topics: Vec<Topic> = Vec::new();
    let mut i: usize = 0;
    while i < rows.len()
        invariant
            i <= rows.len(),
            topics.len() == i,
            forall|k: int| 0 <= k < i ==> spec_topic_of_row(#[trigger] rows[k]@) == Some(topics[k]@),
        decreases rows.len() - i,
    {
        match topic_of_row(&rows[i]) {
            Ok(topic) => {
                topics.push(topic);
            },
            Err(e) => {
                assert(spec_topic_of_row(rows[i as int]@) is None);
                return Err(e);
            },
        }
        i = i + 1;
    }
    proof {
        assert(spec_topics_of_rows(rows@) is Some);
        assert(topic_rows(topics@) =~= spec_topics_of_rows(rows@)->0);
    }
    Ok(topics)
}

impl Topic {
    /// A topic whose creation time is `created_at`, or `clock` where
    /// `created_at` is zero.
    pub fn stamped(id: u32, name: &str, description: &str, created_at: u64, clock: u64) -> (r: Topic)
        ensures
            r@ == (TopicRow {
                id,
                name: name@,
                description: description@,
                created_at: if created_at == 0 {
                    clock
                } else {
                    created_at
                },
            }),
    {
        Topic {
            id,
            name: String::from_str(name),
            description: String::from_str(description),
            created_at: if created_at == 0 {
                clock
            } else {
                created_at
            },
        }
    }

    /// A topic without an id. A `created_at` of zero stands for the
    /// current time.
    pub fn new(name: &str, description: &str, created_at: u64) -> (r: Result<Topic, ()>)
        ensures
            r matches Ok(topic) && topic.id == 0 && topic.name@ == name@ && topic.description@
                == description@ && (created_at != 0 ==> topic.created_at == created_at),
    {
        Self::new_with_id(0, name, description, created_at)
    }

    /// A topic with the given id. A `created_at` of zero stands for the
    /// current time.
    pub fn new_with_id(id: u32, name: &str, description: &str, created_at: u64) -> (r: Result<
        Topic,
        (),
    >)
        ensures
            r matches Ok(topic) && topic.id == id && topic.name@ == name@ && topic.description@
                == description@ && (created_at != 0 ==> topic.created_at == created_at),
    {
        let clock = if created_at == 0 {
            now()?
        } else {
            created_at
        };
        Ok(Self::stamped(id, name, description, created_at, clock))
    }

    /// How the store looks for this topic before inserting it.
    pub fn lookup(&self) -> (r: TopicLookup)
        ensures
            r@ == self@.lookup(),
    {
        if self.id > 0 {
            TopicLookup::ById(self.id)
        } else {
            TopicLookup::ByName(self.name.clone())
        }
    }

    /// The statement that inserts this topic. A creation time that the
    /// database cannot hold is refused.
    pub fn insert_statement(&self) -> (r: Result<Statement, StoreError>)
        ensures
            self.created_at <= MAX_INTEGER ==> (r matches Ok(st) && st@
                == self@.insert_statement()),
            self.created_at > MAX_INTEGER ==> r matches Err(StoreError::OutOfRange),
    {
        let created_at = bind_u64(self.created_at)?;
        let mut params: Vec<SqlParam> = Vec::new();
        if self.id > 0 {
            params.push(SqlParam::Integer(self.id as i64));
            params.push(SqlParam::Text(self.name.clone()));
            params.push(SqlParam::Text(self.description.clone()));
            params.push(created_at);
            let st = Statement { sql: String::from_str(TOPIC_INSERT_WITH_ID), params };
            assert(st@.params =~= self@.insert_statement().params);
            Ok(st)
        } else {
            params.push(SqlParam::Text(self.name.clone()));
            params.push(SqlParam::Text(self.description.clone()));
            params.push(created_at);
            let st = Statement { sql: String::from_str(TOPIC_INSERT), params };
            assert(st@.params =~= self@.insert_statement().params);
            Ok(st)
        }
    }

    /// Inserts this topic through `conn` and returns how many rows the
    /// database changed.
    pub fn insert(&self, conn: &rusqlite::Connection) -> (r: Result<usize, StoreError>)
        ensures
            self.created_at > MAX_INTEGER ==> r matches Err(StoreError::OutOfRange),
            self.created_at <= MAX_INTEGER ==> (r matches Err(e) ==> e is Database),
    {
        let statement = self.insert_statement()?;
        run(conn, &statement)
    }
}

/// What inserting a topic comes to, once the store has said whether it
/// holds the topic already.
#[derive(Debug)]
pub enum Insertion {
    /// The topic is there: nothing is sent.
    Skip,
    /// The topic is missing: this statement inserts it.
    Insert(Statement),
}

/// What inserting `topic` comes to, given whether the store was `found`
/// to hold it already: nothing where it was, the topic's insert statement
/// where it was not. A topic that is missing and whose creation time the
/// database cannot hold is refused.
pub fn insertion(topic: &Topic, found: bool) -> (r: Result<Insertion, StoreError>)
    ensures
        found ==> r matches Ok(Insertion::Skip),
        !found && topic@.storable() ==> (r matches Ok(Insertion::Insert(statement)) && statement@
            == topic@.insert_statement()),
        !found && !topic@.storable() ==> r matches Err(StoreError::OutOfRange),
{
    if found {
        Ok(Insertion::Skip)
    } else {
        Ok(Insertion::Insert(topic.insert_statement()?))
    }
}

/// What seeding a reserved topic comes to, once the store has said
/// whether its id and its name are taken: nothing where either is, the
/// topic's insert statement where neither is. A topic that is missing and
/// whose creation time the database cannot hold is refused.
pub fn seeding(topic: &Topic, id_taken: bool, name_taken: bool) -> (r: Result<
    Insertion,
    StoreError,
>)
    ensures
        id_taken || name_taken ==> r matches Ok(Insertion::Skip),
        !id_taken && !name_taken && topic@.storable() ==> (r matches Ok(
            Insertion::Insert(statement),
        ) && statement@ == topic@.insert_statement()),
        !id_taken && !name_taken && !topic@.storable() ==> r matches Err(StoreError::OutOfRange),
{
    insertion(topic, id_taken || name_taken)
}

/// The id to report for a topic that was to be created: none where the
/// store was `found` to hold the topic already, so that no row was made;
/// otherwise the row id that the database assigned, which must fit 32
/// bits and not be zero.
pub fn reported_id(found: bool, rowid: i64) -> (r: Result<Option<u32>, StoreError>)
    ensures
        found ==> r == Ok::<Option<u32>, StoreError>(None),
        !found ==> match spec_assigned_id(rowid) {
            Some(id) => r == Ok::<Option<u32>, StoreError>(Some(id)),
            None => r matches Err(StoreError::OutOfRange),
        },
{
    if found {
        Ok(None)
    } else {
        Ok(Some(assigned_id(rowid)?))
    }
}

/// The statement that creates the topic table where it is missing.
pub fn table_statement() -> (r: Statement)
    ensures
        r@ == (StatementView { sql: TOPIC_TABLE@, params: Seq::empty() }),
{
    Statement::plain(TOPIC_TABLE)
}

/// The statement that reads all topics.
pub fn all_topics_statement() -> (r: Statement)
    ensures
        r@ == (StatementView { sql: SELECT_ALL_TOPICS@, params: Seq::empty() }),
{
    Statement::plain(SELECT_ALL_TOPICS)
}

/// Whether the store holds a topic with `topic_id`.
pub fn topic_exists(conn: &rusqlite::Connection, topic_id: u32) -> (r: Result<bool, StoreError>)
    ensures
        r matches Err(e) ==> e is Database || e is Malformed,
{
    let rows = fetch(conn, &exists_statement(topic_id))?;
    exists_answer(&rows)
}

/// Whether the store holds a topic named `name`.
pub fn topic_exists_by_name(conn: &rusqlite::Connection, name: &str) -> (r: Result<
    bool,
    StoreError,
>)
    ensures
        r matches Err(e) ==> e is Database || e is Malformed,
{
    let rows = fetch(conn, &exists_by_name_statement(name))?;
    exists_answer(&rows)
}

/// Inserts `topic` unless the store already holds it: a topic with an id
/// is looked for by that id, one without by its name. Inserting a topic
/// that is already there changes nothing.
pub fn insert_topic(conn: &rusqlite::Connection, topic: &Topic) -> (r: Result<(), StoreError>)
    ensures
        r matches Err(e) ==> e is Database || e is Malformed || (e is OutOfRange && topic.created_at
            > MAX_INTEGER),
{
    let found = match topic.lookup() {
        TopicLookup::ById(id) => topic_exists(conn, id)?,
        TopicLookup::ByName(name) => topic_exists_by_name(conn, name.as_str())?,
    };
    match insertion(topic, found)? {
        Insertion::Skip => Ok(()),
        Insertion::Insert(statement) => {
            run(conn, &statement)?;
            Ok(())
        },
    }
}

/// Creates `topic` unless the store already holds it, looked for as
/// [`insert_topic`] does, and says which row it made: the id that the
/// database assigned to the new row, or none where the topic was there
/// already and no row was made.
pub fn create_topic(conn: &rusqlite::Connection, topic: &Topic) -> (r: Result<
    Option<u32>,
    StoreError,
>)
    ensures
        r matches Ok(Some(id)) ==> id != 0,
        r matches Err(e) ==> e is Database || e is Malformed || e is OutOfRange,
{
    let found = match topic.lookup() {
        TopicLookup::ById(id) => topic_exists(conn, id)?,
        TopicLookup::ByName(name) => topic_exists_by_name(conn, name.as_str())?,
    };
    match insertion(topic, found)? {
        Insertion::Skip => {},
        Insertion::Insert(statement) => {
            run(conn, &statement)?;
        },
    }
    reported_id(found, last_insert_rowid(conn))
}

/// Inserts a reserved topic unless the store already holds a topic with
/// its id or with its name.
pub fn seed_topic(conn: &rusqlite::Connection, topic: &Topic) -> (r: Result<(), StoreError>)
    ensures
        r matches Err(e) ==> e is Database || e is Malformed || (e is OutOfRange && topic.created_at
            > MAX_INTEGER),
{
    let id_taken = topic_exists(conn, topic.id)?;
    let name_taken = topic_exists_by_name(conn, topic.name.as_str())?;
    match seeding(topic, id_taken, name_taken)? {
        Insertion::Skip => Ok(()),
        Insertion::Insert(statement) => {
            run(conn, &statement)?;
            Ok(())
        },
    }
}

/// The reserved topic for questions without context, created at `clock`.
pub fn free_topic(clock: u64) -> (r: Topic)
    ensures
        r@ == (TopicRow {
            id: FREE_TOPIC_ID,
            name: FREE_TOPIC_NAME@,
            description: FREE_TOPIC_DESCRIPTION@,
            created_at: clock,
        }),
{
    Topic {
        id: FREE_TOPIC_ID,
        name: String::from_str(FREE_TOPIC_NAME),
        description: String::from_str(FREE_TOPIC_DESCRIPTION),
        created_at: clock,
    }
}

/// The reserved topic for refining a question, created at `clock`.
pub fn prompt_topic(clock: u64) -> (r: Topic)
    ensures
        r@ == (TopicRow {
            id: PROMPT_TOPIC_ID,
            name: PROMPT_TOPIC_NAME@,
            description: PROMPT_TOPIC_DESCRIPTION@,
            created_at: clock,
        }),
{
    Topic {
        id: PROMPT_TOPIC_ID,
        name: String::from_str(PROMPT_TOPIC_NAME),
        description: String::from_str(PROMPT_TOPIC_DESCRIPTION),
        created_at: clock,
    }
}

/// Creates the topic table where it is missing, and the two reserved
/// topics where neither their id nor their name is taken.
pub fn init_topic(conn: &rusqlite::Connection) -> (r: Result<(), StoreError>)
    ensures
        r matches Err(e) ==> e is Database || e is Malformed || e is OutOfRange,
{
    run(conn, &table_statement())?;
    let clock = match now() {
        Ok(t) => t,
        Err(_) => 0,
    };
    seed_topic(conn, &free_topic(clock))?;
    seed_topic(conn, &prompt_topic(clock))?;
    Ok(())
}

/// All topics of the store, in the order the database yields them. The
/// read fails where the database refuses it, or where a row that it
/// yields holds no topic. Every topic read is one that the store can
/// hold, so that it can be written back.
pub fn get_all_topics(conn: &rusqlite::Connection) -> (r: Result<Vec<Topic>, StoreError>)
    ensures
        r matches Ok(topics) ==> forall|i: int|
            0 <= i < topics.len() ==> (#[trigger] topics[i])@.storable(),
        r matches Err(e) ==> e is Database || e is Malformed || e is OutOfRange,
{
    let rows = fetch(conn, &all_topics_statement())?;
    let topics = topics_of_rows(&rows)?;
    proof {
        let expected = spec_topics_of_rows(rows@)->0;
        assert(topic_rows(topics@).len() == topics.len());
        assert forall|i: int| 0 <= i < topics.len() implies (#[trigger] topics[i])@.storable() by {
            assert(topic_rows(topics@)[i] == topics[i]@);
            assert(expected[i] == spec_topic_of_row(rows[i]@)->0);
        }
    }
    Ok(topics)
}

/// Renames the topic `topid_id` and replaces its description. Returns how
/// many rows the database changed.
pub fn update_topic_by_id(
    conn: &rusqlite::Connection,
    topid_id: u32,
    new_name: &str,
    new_description: &str,
) -> (r: Result<usize, StoreError>)
    ensures
        r matches Err(e) ==> e is Database,
{
    run(conn, &update_statement(topid_id, new_name, new_description))
}

} // verus!
