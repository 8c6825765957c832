use chatgpt_client::db::conversation::Conversation;
use chatgpt_client::db::message::{
    assigned_id, clear_batch, conversation_of_row, conversations_of_rows, delete_batch,
    reply_of, user_message_of, AssistantMessage, UserMessage, DELETE_TOPIC, DELETE_TOPIC_MESSAGES,
    DELETE_TOPIC_REPLIES,
};
use chatgpt_client::db::message::{get_messages, init_messages, record_exchange};
use chatgpt_client::db::memory::{Selector, Step};
use chatgpt_client::db::message::{
    assistant_table_statement, batch_of, delete_at_batch, delete_user_message_by_time,
    messages_statement, statement_of, user_exists_statement, user_table_statement,
    ASSISTANT_MESSAGE_TABLE, DELETE_MESSAGES_BY_TIME, DELETE_REPLIES_BY_TIME, SELECT_ALL_MESSAGES,
    USER_MESSAGE_EXISTS, USER_MESSAGE_TABLE,
};
use chatgpt_client::db::topic::{
    all_topics_statement, create_topic, get_all_topics, insertion, reported_id, seeding,
    table_statement, Insertion, SELECT_ALL_TOPICS, TOPIC_TABLE,
};
use chatgpt_client::db::{batch_move, query_cells, BatchMove, Statement};
use chatgpt_client::db::reported;
use chatgpt_client::db::topic::{
    exists_answer, exists_by_name_statement, exists_statement, free_topic, init_topic,
    prompt_topic, seed_topic, topic_of_row, topics_of_rows, update_statement, Topic, TopicLookup,
    TOPIC_INSERT, TOPIC_INSERT_WITH_ID,
};
use chatgpt_client::db::memory::Store;
use chatgpt_client::db::{
    bind_u64, cell_bool, cell_text, cell_u32, cell_u64, SqlCell, SqlParam, StoreError,
};
use chatgpt_client::chat::stream::{Exchange, SessionError};
use rusqlite::Connection;

fn whole(i: i64) -> SqlCell {
    SqlCell::Integer(i)
}

fn words(t: &str) -> SqlCell {
    SqlCell::Text(t.to_string())
}

#[test]
fn bind_u64_stops_at_the_largest_integer() {
    assert!(matches!(bind_u64(0), Ok(SqlParam::Integer(0))));
    assert!(matches!(bind_u64(i64::MAX as u64), Ok(SqlParam::Integer(i64::MAX))));
    assert!(matches!(bind_u64(i64::MAX as u64 + 1), Err(StoreError::OutOfRange)));
}

#[test]
fn cells_are_read_by_kind_and_range() {
    assert!(matches!(cell_u32(&whole(7)), Ok(7)));
    assert!(matches!(cell_u32(&whole(u32::MAX as i64)), Ok(u32::MAX)));
    assert!(matches!(cell_u32(&whole(u32::MAX as i64 + 1)), Err(StoreError::OutOfRange)));
    assert!(matches!(cell_u32(&whole(-1)), Err(StoreError::OutOfRange)));
    assert!(matches!(cell_u32(&words("7")), Err(StoreError::Malformed)));
    assert!(matches!(cell_u64(&whole(i64::MAX)), Ok(0x7fff_ffff_ffff_ffff)));
    assert!(matches!(cell_u64(&whole(-1)), Err(StoreError::OutOfRange)));
    assert!(matches!(cell_u64(&SqlCell::Null), Err(StoreError::Malformed)));
    assert_eq!(cell_text(&words("abc")).unwrap(), "abc");
    assert!(matches!(cell_text(&whole(1)), Err(StoreError::Malformed)));
    assert!(matches!(cell_text(&SqlCell::Blob(vec![1])), Err(StoreError::Malformed)));
    assert!(matches!(cell_bool(&whole(0)), Ok(false)));
    assert!(matches!(cell_bool(&whole(1)), Ok(true)));
    assert!(matches!(cell_bool(&whole(-5)), Ok(true)));
    assert!(matches!(cell_bool(&SqlCell::Real), Err(StoreError::Malformed)));
}

#[test]
fn exists_answer_reads_the_first_cell() {
    assert!(matches!(exists_answer(&vec![vec![whole(1)]]), Ok(true)));
    assert!(matches!(exists_answer(&vec![vec![whole(0)], vec![whole(1)]]), Ok(false)));
    assert!(matches!(exists_answer(&vec![]), Err(StoreError::Malformed)));
    assert!(matches!(exists_answer(&vec![vec![]]), Err(StoreError::Malformed)));
    assert!(matches!(exists_answer(&vec![vec![words("yes")]]), Err(StoreError::Malformed)));
}

#[test]
fn topic_of_row_reads_four_cells() {
    let topic = topic_of_row(&vec![whole(3), words("n"), words("d"), whole(9)]).unwrap();
    assert_eq!((topic.id, topic.name.as_str(), topic.description.as_str(), topic.created_at), (3, "n", "d", 9));
    assert!(matches!(topic_of_row(&vec![whole(3), words("n"), words("d")]), Err(StoreError::Malformed)));
    assert!(matches!(topic_of_row(&vec![whole(-3), words("n"), words("d"), whole(9)]), Err(StoreError::OutOfRange)));
    assert!(matches!(topic_of_row(&vec![whole(3), whole(1), words("d"), whole(9)]), Err(StoreError::Malformed)));
    assert!(matches!(topic_of_row(&vec![whole(3), words("n"), words("d"), whole(-9)]), Err(StoreError::OutOfRange)));
    let rows = vec![
        vec![whole(1), words("a"), words(""), whole(1)],
        vec![whole(2), words("b"), words(""), whole(2)],
    ];
    let topics = topics_of_rows(&rows).unwrap();
    assert_eq!(topics.len(), 2);
    assert_eq!(topics[1].name, "b");
    let bad = vec![vec![whole(1), words("a"), words(""), whole(1)], vec![whole(2)]];
    assert!(matches!(topics_of_rows(&bad), Err(StoreError::Malformed)));
    assert!(topics_of_rows(&Vec::new()).unwrap().is_empty());
}

#[test]
fn conversation_of_row_wants_a_reply_that_names_its_message() {
    let row = vec![whole(4), words("q"), whole(10), whole(6), words("a"), whole(20), whole(4)];
    let c = conversation_of_row(&row, 2).unwrap();
    assert_eq!(c.user().id(), 4);
    assert_eq!(c.user().message(), "q");
    assert_eq!(c.user().created_at(), 10);
    assert_eq!(c.user().topic_id(), 2);
    assert_eq!(c.assistant().id(), 6);
    assert_eq!(c.assistant().message(), "a");
    assert_eq!(c.assistant().created_at(), 20);
    assert_eq!(c.assistant().user_message_id(), 4);
    let stray = vec![whole(4), words("q"), whole(10), whole(6), words("a"), whole(20), whole(5)];
    assert!(matches!(conversation_of_row(&stray, 2), Err(StoreError::Malformed)));
    assert!(matches!(conversation_of_row(&row[..6].to_vec_cells(), 2), Err(StoreError::Malformed)));
    assert!(matches!(conversations_of_rows(&vec![row_copy(), stray], 2), Err(StoreError::Malformed)));
    assert_eq!(conversations_of_rows(&vec![row_copy(), row_copy()], 2).unwrap().len(), 2);
}

fn row_copy() -> Vec<SqlCell> {
    vec![whole(4), words("q"), whole(10), whole(6), words("a"), whole(20), whole(4)]
}

trait ToVecCells {
    fn to_vec_cells(&self) -> Vec<SqlCell>;
}

impl ToVecCells for [SqlCell] {
    fn to_vec_cells(&self) -> Vec<SqlCell> {
        self.iter()
            .map(|c| match c {
                SqlCell::Null => SqlCell::Null,
                SqlCell::Integer(i) => SqlCell::Integer(*i),
                SqlCell::Real => SqlCell::Real,
                SqlCell::Text(t) => SqlCell::Text(t.clone()),
                SqlCell::Blob(b) => SqlCell::Blob(b.clone()),
            })
            .collect()
    }
}

#[test]
fn assigned_id_must_fit_and_not_be_zero() {
    assert!(matches!(assigned_id(1), Ok(1)));
    assert!(matches!(assigned_id(u32::MAX as i64), Ok(u32::MAX)));
    assert!(matches!(assigned_id(0), Err(StoreError::OutOfRange)));
    assert!(matches!(assigned_id(-1), Err(StoreError::OutOfRange)));
    assert!(matches!(assigned_id(u32::MAX as i64 + 1), Err(StoreError::OutOfRange)));
}

#[test]
fn statements_bind_their_values_in_order() {
    let with_id = Topic::new_with_id(7, "n", "d", 9).unwrap().insert_statement().unwrap();
    assert_eq!(with_id.sql, TOPIC_INSERT_WITH_ID);
    assert_eq!(format!("{:?}", with_id.params), "[Integer(7), Text(\"n\"), Text(\"d\"), Integer(9)]");
    let without = Topic::new("n", "d", 9).unwrap().insert_statement().unwrap();
    assert_eq!(without.sql, TOPIC_INSERT);
    assert_eq!(format!("{:?}", without.params), "[Text(\"n\"), Text(\"d\"), Integer(9)]");
    assert_eq!(format!("{:?}", exists_statement(5).params), "[Integer(5)]");
    assert_eq!(format!("{:?}", exists_by_name_statement("x").params), "[Text(\"x\")]");
    assert_eq!(format!("{:?}", update_statement(5, "a", "b").params), "[Text(\"a\"), Text(\"b\"), Integer(5)]");
    let user = UserMessage::new("hi", 3, 8).insert_statement().unwrap();
    assert_eq!(format!("{:?}", user.params), "[Text(\"hi\"), Integer(3), Integer(8)]");
    let reply = AssistantMessage::new("yo".to_string(), 4, 2).insert_statement().unwrap();
    assert_eq!(format!("{:?}", reply.params), "[Text(\"yo\"), Integer(4), Integer(2)]");
    let conversation = Conversation::new(&5, &1).insert_statement().unwrap();
    assert_eq!(format!("{:?}", conversation.params), "[Integer(5), Integer(1)]");
    assert!(matches!(UserMessage::new("hi", u64::MAX, 8).insert_statement(), Err(StoreError::OutOfRange)));
}

#[test]
fn batches_delete_replies_before_messages_before_the_topic() {
    let clear = clear_batch(3);
    assert_eq!(clear.len(), 2);
    assert_eq!(clear[0].sql, DELETE_TOPIC_REPLIES);
    assert_eq!(clear[1].sql, DELETE_TOPIC_MESSAGES);
    let delete = delete_batch(3);
    assert_eq!(delete.len(), 3);
    assert_eq!(delete[0].sql, DELETE_TOPIC_REPLIES);
    assert_eq!(delete[1].sql, DELETE_TOPIC_MESSAGES);
    assert_eq!(delete[2].sql, DELETE_TOPIC);
    for st in delete.iter() {
        assert_eq!(format!("{:?}", st.params), "[Integer(3)]");
    }
}

#[test]
fn lookup_goes_by_id_where_there_is_one() {
    assert!(matches!(Topic::new_with_id(7, "n", "d", 9).unwrap().lookup(), TopicLookup::ById(7)));
    match Topic::new("n", "d", 9).unwrap().lookup() {
        TopicLookup::ByName(name) => assert_eq!(name, "n"),
        other => panic!("unexpected {:?}", other),
    }
}

#[test]
fn exchange_splits_into_message_and_reply() {
    let x = Exchange { topic_id: 2, user_text: "q".to_string(), created_at: 5, reply_text: "a".to_string(), reply_time: 6 };
    let user = user_message_of(&x);
    assert_eq!((user.id(), user.message().as_str(), user.created_at(), user.topic_id()), (0, "q", 5, 2));
    let reply = reply_of(&x, 11);
    assert_eq!((reply.id(), reply.message().as_str(), reply.created_at(), reply.user_message_id()), (0, "a", 6, 11));
    let copy = user.duplicate();
    assert_eq!(copy.message(), "q");
    assert_eq!(reply.duplicate().user_message_id(), 11);
}

#[test]
fn session_error_duplicate_keeps_kind_and_detail() {
    match SessionError::Persistence("disk full".to_string()).duplicate() {
        SessionError::Persistence(d) => assert_eq!(d, "disk full"),
        other => panic!("unexpected {:?}", other),
    }
    assert!(matches!(SessionError::Protocol.duplicate(), SessionError::Protocol));
    assert!(matches!(SessionError::Decode("x".to_string()).duplicate(), SessionError::Decode(_)));
    assert!(matches!(SessionError::Transport("x".to_string()).duplicate(), SessionError::Transport(_)));
    assert!(matches!(SessionError::Subscriber("x".to_string()).duplicate(), SessionError::Subscriber(_)));
}

#[test]
fn seeding_skips_a_taken_id_or_name() {
    let conn = Connection::open_in_memory().unwrap();
    init_topic(&conn).unwrap();
    let count = |conn: &Connection| -> i64 {
        conn.query_row("SELECT COUNT(*) FROM topic", [], |row| row.get(0)).unwrap()
    };
    assert_eq!(count(&conn), 2);
    seed_topic(&conn, &Topic::new_with_id(9, free_topic(1).name.as_str(), "", 1).unwrap()).unwrap();
    assert_eq!(count(&conn), 2);
    seed_topic(&conn, &Topic::new_with_id(2, "fresh name", "", 1).unwrap()).unwrap();
    assert_eq!(count(&conn), 2);
    seed_topic(&conn, &Topic::new_with_id(9, "fresh name", "", 1).unwrap()).unwrap();
    assert_eq!(count(&conn), 3);

    let mut store = Store::new();
    store.init_topic(77);
    store.init_topic(78);
    let topics = store.get_all_topics();
    assert_eq!(topics.len(), 2);
    assert_eq!(topics[0].id, 1);
    assert_eq!(topics[0].name, free_topic(0).name);
    assert_eq!(topics[0].created_at, 77);
    assert_eq!(topics[1].id, 2);
    assert_eq!(topics[1].name, prompt_topic(0).name);
    store.seed_topic(&Topic::new_with_id(9, prompt_topic(0).name.as_str(), "", 1).unwrap());
    assert_eq!(store.get_all_topics().len(), 2);
    store.seed_topic(&Topic::new_with_id(9, "fresh name", "", 1).unwrap());
    assert_eq!(store.get_all_topics().len(), 3);
}

#[test]
fn reported_keeps_the_answer_and_carries_the_refusal() {
    assert!(matches!(reported::<usize>(Ok(5)), Ok(5)));
    assert_eq!(reported(Ok("rows".to_string())).unwrap(), "rows");
    let refusal = rusqlite::Error::QueryReturnedNoRows;
    let said = refusal.to_string();
    match reported::<usize>(Err(refusal)) {
        Err(StoreError::Database(message)) => assert_eq!(message, said),
        other => panic!("unexpected {:?}", other),
    }
    match reported::<()>(Err(rusqlite::Error::InvalidParameterCount(1, 2))) {
        Err(StoreError::Database(message)) => assert!(message.contains("1")),
        other => panic!("unexpected {:?}", other),
    }
}

#[test]
fn insertion_skips_what_was_found_and_inserts_what_was_not() {
    let topic = Topic::new_with_id(7, "n", "d", 9).unwrap();
    assert!(matches!(insertion(&topic, true), Ok(Insertion::Skip)));
    match insertion(&topic, false) {
        Ok(Insertion::Insert(statement)) => {
            assert_eq!(statement.sql, TOPIC_INSERT_WITH_ID);
            assert_eq!(format!("{:?}", statement.params), "[Integer(7), Text(\"n\"), Text(\"d\"), Integer(9)]");
        }
        other => panic!("unexpected {:?}", other),
    }
    let unnamed = Topic::new("n", "d", 9).unwrap();
    match insertion(&unnamed, false) {
        Ok(Insertion::Insert(statement)) => assert_eq!(statement.sql, TOPIC_INSERT),
        other => panic!("unexpected {:?}", other),
    }
    let late = Topic::new("late", "", u64::MAX).unwrap();
    assert!(matches!(insertion(&late, true), Ok(Insertion::Skip)));
    assert!(matches!(insertion(&late, false), Err(StoreError::OutOfRange)));
}

#[test]
fn a_topic_that_is_there_is_skipped_whatever_its_time() {
    let conn = Connection::open_in_memory().unwrap();
    init_topic(&conn).unwrap();
    let late = Topic::new_with_id(1, "other", "", u64::MAX).unwrap();
    chatgpt_client::db::topic::insert_topic(&conn, &late).unwrap();
    seed_topic(&conn, &late).unwrap();
    assert_eq!(get_all_topics(&conn).unwrap().len(), 2);
    let missing = Topic::new_with_id(5, "other", "", u64::MAX).unwrap();
    assert!(matches!(seed_topic(&conn, &missing), Err(StoreError::OutOfRange)));
}

#[test]
fn topics_read_can_be_written_back() {
    let conn = Connection::open_in_memory().unwrap();
    init_topic(&conn).unwrap();
    let edge = Topic::new_with_id(5, "edge", "", i64::MAX as u64).unwrap();
    chatgpt_client::db::topic::insert_topic(&conn, &edge).unwrap();
    let topics = get_all_topics(&conn).unwrap();
    assert_eq!(topics.len(), 3);
    for topic in topics.iter() {
        assert!(topic.created_at <= i64::MAX as u64);
        assert!(topic.insert_statement().is_ok());
    }
    assert_eq!(topics[2].created_at, i64::MAX as u64);
}

#[test]
fn a_row_that_holds_no_topic_fails_the_read() {
    let conn = Connection::open_in_memory().unwrap();
    init_topic(&conn).unwrap();
    conn.execute("INSERT INTO topic (name, created_at) VALUES ('before the epoch', -5)", ()).unwrap();
    assert!(matches!(get_all_topics(&conn), Err(StoreError::OutOfRange)));
    conn.execute("DELETE FROM topic WHERE created_at = -5", ()).unwrap();
    assert_eq!(get_all_topics(&conn).unwrap().len(), 2);
    conn.execute("INSERT INTO topic (name, created_at) VALUES (x'00ff', 5)", ()).unwrap();
    assert!(matches!(get_all_topics(&conn), Err(StoreError::Malformed)));
}

#[test]
fn a_row_that_holds_no_pair_fails_the_read() {
    let conn = Connection::open_in_memory().unwrap();
    init_topic(&conn).unwrap();
    init_messages(&conn).unwrap();
    let x = Exchange { topic_id: 1, user_text: "q".to_string(), created_at: i64::MAX as u64, reply_text: "a".to_string(), reply_time: 6 };
    record_exchange(&conn, &x).unwrap();
    let list = get_messages(&conn, 1).unwrap();
    assert_eq!(list.len(), 1);
    assert!(list[0].user().created_at() <= i64::MAX as u64);
    assert!(list[0].assistant().created_at() <= i64::MAX as u64);
    assert!(list[0].user().insert_statement().is_ok());
    conn.execute("UPDATE assistant_message SET created_at = -1", ()).unwrap();
    assert!(matches!(get_messages(&conn, 1), Err(StoreError::OutOfRange)));
    conn.execute("UPDATE assistant_message SET created_at = 1, message = x'00ff'", ()).unwrap();
    assert!(matches!(get_messages(&conn, 1), Err(StoreError::Malformed)));
    assert!(get_messages(&conn, 2).unwrap().is_empty());
}

#[test]
fn a_text_cell_that_is_not_utf8_fails_the_read() {
    let conn = Connection::open_in_memory().unwrap();
    let r = query_cells(&conn, "SELECT CAST(x'ff' AS TEXT)", &Vec::new());
    assert!(matches!(r, Err(StoreError::Database(_))));
    let good = query_cells(&conn, "SELECT CAST(x'41' AS TEXT), 7, NULL, x'ff', 1.5", &Vec::new()).unwrap();
    assert_eq!(format!("{:?}", good), "[[Text(\"A\"), Integer(7), Null, Blob([255]), Real]]");
    init_topic(&conn).unwrap();
    init_messages(&conn).unwrap();
    conn.execute("INSERT INTO topic (name, created_at) VALUES (CAST(x'c328' AS TEXT), 5)", ()).unwrap();
    assert!(matches!(get_all_topics(&conn), Err(StoreError::Database(_))));
    assert!(matches!(
        chatgpt_client::db::topic::topic_exists_by_name(&conn, "plain"),
        Ok(false)
    ));
    conn.execute("INSERT INTO user_message (message, created_at, topic_id) VALUES (CAST(x'ff' AS TEXT), 5, 1)", ()).unwrap();
    conn.execute("INSERT INTO assistant_message (message, created_at, user_message_id) VALUES ('a', 6, 1)", ()).unwrap();
    assert!(matches!(get_messages(&conn, 1), Err(StoreError::Database(_))));
}

#[test]
fn query_cells_binds_its_parameters() {
    let conn = Connection::open_in_memory().unwrap();
    let params = vec![SqlParam::Integer(41), SqlParam::Text("x".to_string())];
    let rows = query_cells(&conn, "SELECT ?1 + 1, ?2 || 'y'", &params).unwrap();
    assert_eq!(format!("{:?}", rows), "[[Integer(42), Text(\"xy\")]]");
    assert!(matches!(query_cells(&conn, "SELECT ?1", &Vec::new()), Err(StoreError::Database(_))));
}

#[test]
fn seeding_skips_when_either_is_taken() {
    let topic = Topic::new_with_id(7, "n", "d", 9).unwrap();
    assert!(matches!(seeding(&topic, true, false), Ok(Insertion::Skip)));
    assert!(matches!(seeding(&topic, false, true), Ok(Insertion::Skip)));
    assert!(matches!(seeding(&topic, true, true), Ok(Insertion::Skip)));
    match seeding(&topic, false, false) {
        Ok(Insertion::Insert(statement)) => assert_eq!(statement.sql, TOPIC_INSERT_WITH_ID),
        other => panic!("unexpected {:?}", other),
    }
    let late = Topic::new_with_id(7, "n", "d", u64::MAX).unwrap();
    assert!(matches!(seeding(&late, false, true), Ok(Insertion::Skip)));
    assert!(matches!(seeding(&late, false, false), Err(StoreError::OutOfRange)));
}

#[test]
fn batch_move_runs_then_commits_and_rolls_back_after_a_refusal() {
    assert_eq!(batch_move(3, 0, true), BatchMove::Run(0));
    assert_eq!(batch_move(3, 2, true), BatchMove::Run(2));
    assert_eq!(batch_move(3, 3, true), BatchMove::Commit);
    assert_eq!(batch_move(0, 0, true), BatchMove::Commit);
    assert_eq!(batch_move(3, 0, false), BatchMove::Rollback);
    assert_eq!(batch_move(3, 2, false), BatchMove::Rollback);
    assert_eq!(batch_move(3, 3, false), BatchMove::Rollback);
}

#[test]
fn reported_id_is_none_for_a_topic_that_was_there() {
    assert!(matches!(reported_id(true, 5), Ok(None)));
    assert!(matches!(reported_id(true, 0), Ok(None)));
    assert!(matches!(reported_id(false, 5), Ok(Some(5))));
    assert!(matches!(reported_id(false, 0), Err(StoreError::OutOfRange)));
    assert!(matches!(reported_id(false, -1), Err(StoreError::OutOfRange)));
    assert!(matches!(reported_id(false, u32::MAX as i64 + 1), Err(StoreError::OutOfRange)));
}

#[test]
fn create_topic_reports_only_the_row_it_made() {
    let conn = Connection::open_in_memory().unwrap();
    init_topic(&conn).unwrap();
    assert_eq!(create_topic(&conn, &Topic::new("rust", "", 5).unwrap()).unwrap(), Some(3));
    assert_eq!(create_topic(&conn, &Topic::new("rust", "again", 6).unwrap()).unwrap(), None);
    assert_eq!(create_topic(&conn, &Topic::new("verus", "", 7).unwrap()).unwrap(), Some(4));
    assert_eq!(create_topic(&conn, &Topic::new_with_id(9, "nine", "", 7).unwrap()).unwrap(), Some(9));
    assert_eq!(create_topic(&conn, &Topic::new_with_id(9, "other", "", 7).unwrap()).unwrap(), None);
    assert_eq!(get_all_topics(&conn).unwrap().len(), 5);
    assert!(matches!(
        create_topic(&conn, &Topic::new("late", "", u64::MAX).unwrap()),
        Err(StoreError::OutOfRange)
    ));
}

#[test]
fn steps_become_the_statements_that_carry_them_out() {
    let topic = statement_of(Step::DeleteTopic(4)).unwrap();
    assert_eq!(topic.sql, DELETE_TOPIC);
    assert_eq!(format!("{:?}", topic.params), "[Integer(4)]");
    assert_eq!(statement_of(Step::DeleteReplies(Selector::Topic(4))).unwrap().sql, DELETE_TOPIC_REPLIES);
    assert_eq!(statement_of(Step::DeleteMessages(Selector::Topic(4))).unwrap().sql, DELETE_TOPIC_MESSAGES);
    let replies = statement_of(Step::DeleteReplies(Selector::Time(77))).unwrap();
    assert_eq!(replies.sql, DELETE_REPLIES_BY_TIME);
    assert_eq!(format!("{:?}", replies.params), "[Integer(77)]");
    assert_eq!(statement_of(Step::DeleteMessages(Selector::Time(77))).unwrap().sql, DELETE_MESSAGES_BY_TIME);
    assert!(matches!(statement_of(Step::DeleteReplies(Selector::Time(u64::MAX))), Err(StoreError::OutOfRange)));
    assert!(matches!(statement_of(Step::DeleteMessages(Selector::Time(u64::MAX))), Err(StoreError::OutOfRange)));
    let batch = batch_of(&vec![Step::DeleteTopic(1), Step::DeleteReplies(Selector::Time(2))]).unwrap();
    assert_eq!(batch.len(), 2);
    assert_eq!(batch[0].sql, DELETE_TOPIC);
    assert_eq!(batch[1].sql, DELETE_REPLIES_BY_TIME);
    assert!(matches!(
        batch_of(&vec![Step::DeleteTopic(1), Step::DeleteMessages(Selector::Time(u64::MAX))]),
        Err(StoreError::OutOfRange)
    ));
    assert!(batch_of(&Vec::new()).unwrap().is_empty());
    let at = delete_at_batch(100).unwrap();
    assert_eq!(at.len(), 2);
    assert_eq!(at[0].sql, DELETE_REPLIES_BY_TIME);
    assert_eq!(at[1].sql, DELETE_MESSAGES_BY_TIME);
    assert!(matches!(delete_at_batch(u64::MAX), Err(StoreError::OutOfRange)));
}

#[test]
fn statement_makers_name_their_text() {
    assert_eq!(table_statement().sql, TOPIC_TABLE);
    assert!(table_statement().params.is_empty());
    assert_eq!(all_topics_statement().sql, SELECT_ALL_TOPICS);
    assert_eq!(user_table_statement().sql, USER_MESSAGE_TABLE);
    assert_eq!(assistant_table_statement().sql, ASSISTANT_MESSAGE_TABLE);
    assert_eq!(chatgpt_client::db::conversation::table_statement().sql, chatgpt_client::db::conversation::CONVERSATION_TABLE);
    let messages = messages_statement(3);
    assert_eq!(messages.sql, SELECT_ALL_MESSAGES);
    assert_eq!(format!("{:?}", messages.params), "[Integer(3)]");
    let exists = user_exists_statement(8);
    assert_eq!(exists.sql, USER_MESSAGE_EXISTS);
    assert_eq!(format!("{:?}", exists.params), "[Integer(8)]");
    let plain = Statement::plain("SELECT 1");
    assert_eq!(plain.sql, "SELECT 1");
    assert!(plain.params.is_empty());
}

#[test]
fn deleting_by_time_leaves_no_reply_without_its_message() {
    let conn = Connection::open_in_memory().unwrap();
    init_topic(&conn).unwrap();
    init_messages(&conn).unwrap();
    let at = |topic_id: u32, user: &str, reply: &str, time: u64| Exchange {
        topic_id,
        user_text: user.to_string(),
        created_at: time,
        reply_text: reply.to_string(),
        reply_time: time + 1,
    };
    record_exchange(&conn, &at(1, "a", "b", 100)).unwrap();
    record_exchange(&conn, &at(2, "c", "d", 100)).unwrap();
    record_exchange(&conn, &at(1, "e", "f", 200)).unwrap();
    delete_user_message_by_time(&conn, 100).unwrap();
    let count = |sql: &str| -> i64 { conn.query_row(sql, [], |row| row.get(0)).unwrap() };
    assert_eq!(count("SELECT COUNT(*) FROM user_message"), 1);
    assert_eq!(count("SELECT COUNT(*) FROM assistant_message"), 1);
    assert_eq!(
        count("SELECT COUNT(*) FROM assistant_message WHERE user_message_id NOT IN (SELECT id FROM user_message)"),
        0
    );
    assert_eq!(get_messages(&conn, 1).unwrap().len(), 1);
    assert!(get_messages(&conn, 2).unwrap().is_empty());
}

#[test]
fn a_reply_is_stored_only_beside_its_message() {
    let conn = Connection::open_in_memory().unwrap();
    init_topic(&conn).unwrap();
    init_messages(&conn).unwrap();
    let stray = AssistantMessage::new("b".to_string(), 2, 4);
    assert!(matches!(stray.insert(&conn), Err(StoreError::Orphan)));
    let count: i64 = conn.query_row("SELECT COUNT(*) FROM assistant_message", [], |row| row.get(0)).unwrap();
    assert_eq!(count, 0);
    assert!(matches!(stray.insertion(false), Err(StoreError::Orphan)));
    assert_eq!(format!("{:?}", stray.insertion(true).unwrap().params), "[Text(\"b\"), Integer(2), Integer(4)]");
    let late = AssistantMessage::new("b".to_string(), u64::MAX, 4);
    assert!(matches!(late.insertion(false), Err(StoreError::OutOfRange)));
    assert!(matches!(late.insertion(true), Err(StoreError::OutOfRange)));
    assert!(matches!(late.insert(&conn), Err(StoreError::OutOfRange)));
    UserMessage::new("a", 1, 1).insert(&conn).unwrap();
    assert_eq!(AssistantMessage::new("b".to_string(), 2, 1).insert(&conn).unwrap(), 1);
}
