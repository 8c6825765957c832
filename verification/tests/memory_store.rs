use chatgpt_client::chat::stream::Exchange;
use chatgpt_client::db::memory::{Selector, Step, Store};
use chatgpt_client::db::message::{AssistantMessage, UserMessage};
use chatgpt_client::db::topic::Topic;
use chatgpt_client::db::StoreError;

fn exchange(topic_id: u32, user: &str, reply: &str) -> Exchange {
    Exchange {
        topic_id,
        user_text: user.to_string(),
        created_at: 10,
        reply_text: reply.to_string(),
        reply_time: 20,
    }
}

fn seeded() -> Store {
    let mut store = Store::new();
    store.insert_topic(&Topic::new_with_id(1, "free", "no context", 5).unwrap()).unwrap();
    store.insert_topic(&Topic::new_with_id(2, "refine", "better questions", 5).unwrap()).unwrap();
    store
}

fn snapshot(store: &Store) -> String {
    format!("{:?}", store)
}

#[test]
fn store_insert_topic_with_id_is_idempotent() {
    let mut store = seeded();
    let topic = Topic::new_with_id(7, "rust", "about rust", 100).unwrap();
    store.insert_topic(&topic).unwrap();
    let once = snapshot(&store);
    assert_eq!(store.get_all_topics().iter().filter(|t| t.id == 7).count(), 1);
    store.insert_topic(&topic).unwrap();
    assert_eq!(snapshot(&store), once);
    assert_eq!(store.get_all_topics().iter().filter(|t| t.id == 7).count(), 1);
    assert_eq!(store.get_all_topics().len(), 3);
}

#[test]
fn store_insert_topic_without_id_takes_the_next_id_and_skips_known_names() {
    let mut store = seeded();
    store.insert_topic(&Topic::new_with_id(9, "nine", "", 1).unwrap()).unwrap();
    store.insert_topic(&Topic::new("verus", "proofs", 5).unwrap()).unwrap();
    let topics = store.get_all_topics();
    assert_eq!(topics.len(), 4);
    assert_eq!(topics[3].id, 10);
    assert_eq!(topics[3].name, "verus");
    assert_eq!(topics[3].description, "proofs");
    assert_eq!(topics[3].created_at, 5);
    store.insert_topic(&Topic::new("verus", "again", 6).unwrap()).unwrap();
    assert_eq!(store.get_all_topics().len(), 4);
    assert!(store.topic_exists(10));
    assert!(!store.topic_exists(11));
    assert!(store.topic_exists_by_name("verus"));
    assert!(!store.topic_exists_by_name("Verus"));
}

#[test]
fn store_refuses_a_topic_when_no_id_is_left() {
    let mut store = Store::new();
    store.insert_topic(&Topic::new_with_id(u32::MAX, "last", "", 1).unwrap()).unwrap();
    let before = snapshot(&store);
    let r = store.insert_topic(&Topic::new("one more", "", 1).unwrap());
    assert!(matches!(r, Err(StoreError::OutOfRange)));
    assert_eq!(snapshot(&store), before);
}

#[test]
fn store_update_topic_changes_only_the_named_topic() {
    let mut store = seeded();
    assert_eq!(store.update_topic_by_id(2, "renamed", "new text"), 1);
    assert_eq!(store.update_topic_by_id(5, "x", "y"), 0);
    let topics = store.get_all_topics();
    assert_eq!(topics[0].name, "free");
    assert_eq!(topics[1].name, "renamed");
    assert_eq!(topics[1].description, "new text");
    assert_eq!(topics[1].created_at, 5);
    assert_eq!(topics[1].id, 2);
}

#[test]
fn store_record_exchange_adds_a_matched_pair() {
    let mut store = seeded();
    assert_eq!(store.record_exchange(&exchange(1, "Hello", "Hi there")).unwrap(), 1);
    assert_eq!(store.record_exchange(&exchange(2, "a", "b")).unwrap(), 2);
    assert_eq!(store.record_exchange(&exchange(1, "More", "Sure")).unwrap(), 3);
    let list = store.get_messages(1);
    assert_eq!(list.len(), 2);
    assert_eq!(list[0].user().message(), "Hello");
    assert_eq!(list[0].assistant().message(), "Hi there");
    assert_eq!(list[0].assistant().user_message_id(), list[0].user().id());
    assert_eq!(list[0].user().created_at(), 10);
    assert_eq!(list[0].assistant().created_at(), 20);
    assert_eq!(list[1].user().id(), 3);
    assert_eq!(list[1].assistant().id(), 3);
    assert_eq!(store.get_messages(2).len(), 1);
    assert!(store.get_messages(3).is_empty());
}

#[test]
fn store_get_messages_leaves_out_a_user_message_without_reply() {
    let mut store = seeded();
    assert_eq!(store.insert_user_message(&UserMessage::new("lonely", 1, 1)).unwrap(), 1);
    store.record_exchange(&exchange(1, "Hello", "Hi")).unwrap();
    assert_eq!(store.user_messages().len(), 2);
    let list = store.get_messages(1);
    assert_eq!(list.len(), 1);
    assert_eq!(list[0].user().message(), "Hello");
    for c in list.iter() {
        assert_eq!(c.user().id(), c.assistant().user_message_id());
        assert_eq!(c.user().topic_id(), 1);
    }
}

#[test]
fn store_refuses_a_reply_to_a_message_it_does_not_hold() {
    let mut store = seeded();
    let before = snapshot(&store);
    let r = store.insert_assistant_message(&AssistantMessage::new("b".to_string(), 2, 4));
    assert!(matches!(r, Err(StoreError::Orphan)));
    assert_eq!(snapshot(&store), before);
    let id = store.insert_user_message(&UserMessage::new("a", 1, 1)).unwrap();
    assert!(store.user_exists(id));
    assert_eq!(store.insert_assistant_message(&AssistantMessage::new("b".to_string(), 2, id)).unwrap(), 1);
    assert_eq!(store.get_messages(1).len(), 1);
}

#[test]
fn store_delete_topic_removes_the_topic_and_everything_under_it() {
    let mut store = seeded();
    store.record_exchange(&exchange(1, "a", "b")).unwrap();
    store.record_exchange(&exchange(2, "c", "d")).unwrap();
    store.record_exchange(&exchange(1, "e", "f")).unwrap();
    store.delete_topic(1);
    assert!(!store.topic_exists(1));
    assert!(store.topic_exists(2));
    let users = store.user_messages();
    let replies = store.assistant_messages();
    assert_eq!(users.len(), 1);
    assert_eq!(users[0].message(), "c");
    assert_eq!(replies.len(), 1);
    assert_eq!(replies[0].message(), "d");
    assert!(store.get_messages(1).is_empty());
    assert_eq!(store.get_messages(2).len(), 1);
    assert_eq!(store.record_exchange(&exchange(2, "g", "h")).unwrap(), 4);
}

#[test]
fn store_clear_topic_keeps_the_topic() {
    let mut store = seeded();
    store.record_exchange(&exchange(1, "a", "b")).unwrap();
    store.record_exchange(&exchange(2, "c", "d")).unwrap();
    store.clear_topic(1);
    assert!(store.topic_exists(1));
    assert!(store.get_messages(1).is_empty());
    assert_eq!(store.get_messages(2).len(), 1);
    assert!(!store.owner_in_topic(1, 1));
    assert!(store.owner_in_topic(2, 2));
}

#[test]
fn store_batch_that_fails_leaves_the_store_unchanged() {
    let steps = Store::delete_steps(1);
    assert_eq!(
        steps,
        vec![
            Step::DeleteReplies(Selector::Topic(1)),
            Step::DeleteMessages(Selector::Topic(1)),
            Step::DeleteTopic(1)
        ]
    );
    for k in 0..3 {
        let mut store = seeded();
        store.record_exchange(&exchange(1, "a", "b")).unwrap();
        store.record_exchange(&exchange(2, "c", "d")).unwrap();
        let before = snapshot(&store);
        let r = store.run_batch(&steps, Some(k));
        assert!(matches!(r, Err(StoreError::Injected)));
        assert_eq!(snapshot(&store), before);
    }
    let mut store = seeded();
    store.record_exchange(&exchange(1, "a", "b")).unwrap();
    assert!(store.run_batch(&steps, Some(3)).is_ok());
    assert!(!store.topic_exists(1));
    assert!(store.user_messages().is_empty());
}

#[test]
fn store_duplicate_is_an_equal_store() {
    let mut store = seeded();
    store.record_exchange(&exchange(1, "a", "b")).unwrap();
    let copy = store.duplicate();
    assert_eq!(snapshot(&copy), snapshot(&store));
    store.apply(Step::DeleteReplies(Selector::Topic(1)));
    assert!(store.assistant_messages().is_empty());
    assert_eq!(copy.assistant_messages().len(), 1);
}

#[test]
fn store_error_message_names_the_fault() {
    assert_eq!(StoreError::Database("disk I/O error".to_string()).message(), "disk I/O error");
    assert_eq!(StoreError::OutOfRange.message(), "a number does not fit where it has to go");
    assert_eq!(StoreError::Injected.message(), "simulated fault");
    assert!(!StoreError::Malformed.message().is_empty());
    assert!(!StoreError::Orphan.message().is_empty());
}

fn exchange_at(topic_id: u32, user: &str, reply: &str, at: u64) -> Exchange {
    Exchange {
        topic_id,
        user_text: user.to_string(),
        created_at: at,
        reply_text: reply.to_string(),
        reply_time: at + 1,
    }
}

#[test]
fn store_delete_by_time_removes_every_message_of_that_time_with_its_reply() {
    let mut store = seeded();
    store.record_exchange(&exchange_at(1, "a", "b", 100)).unwrap();
    store.record_exchange(&exchange_at(2, "c", "d", 100)).unwrap();
    store.record_exchange(&exchange_at(1, "e", "f", 200)).unwrap();
    assert_eq!(
        Store::delete_at_steps(100),
        vec![Step::DeleteReplies(Selector::Time(100)), Step::DeleteMessages(Selector::Time(100))]
    );
    store.delete_user_message_by_time(100);
    let users = store.user_messages();
    let replies = store.assistant_messages();
    assert_eq!(users.len(), 1);
    assert_eq!(users[0].message(), "e");
    assert_eq!(replies.len(), 1);
    assert_eq!(replies[0].message(), "f");
    for reply in replies.iter() {
        assert!(store.user_exists(reply.user_message_id()));
    }
    assert!(store.owner_selected(3, Selector::Time(200)));
    assert!(!store.owner_selected(3, Selector::Time(100)));
    assert!(Selector::Topic(1).picks(&users[0]));
    assert!(!Selector::Topic(2).picks(&users[0]));
    assert_eq!(store.get_all_topics().len(), 2);
}
