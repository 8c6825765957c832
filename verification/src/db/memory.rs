//! The store's tables held in memory.
//!
//! [`Store`] states what each operation of the store does to the three
//! tables, as a function on plain values ([`StoreState`]), and proves the
//! laws that the rest of the client relies on. It serves wherever a
//! database is not at hand, and as the yardstick for the statements that
//! [`crate::db::topic`] and [`crate::db::message`] send to SQLite: the
//! batches sent there are the statements of the [`Step`]s defined here
//! ([`crate::db::message::step_statement`]).

use vstd::prelude::*;
use vstd::string::*;
use crate::chat::stream::{Exchange, ExchangeView};
use crate::db::message::{
    conversation_views, reply_of, user_message_of, AssistantMessage, Conversation,
    ConversationView, ReplyRow, UserMessage, UserRow,
};
use crate::db::topic::{
    free_topic, prompt_topic, topic_rows, Topic, TopicLookup, TopicLookupView, TopicRow,
    FREE_TOPIC_DESCRIPTION, FREE_TOPIC_ID, FREE_TOPIC_NAME, PROMPT_TOPIC_DESCRIPTION,
    PROMPT_TOPIC_ID, PROMPT_TOPIC_NAME,
};
use crate::db::StoreError;
use crate::text::text_eq;

verus! {

/// The views of a list of user messages.
pub open spec fn user_rows(list: Seq<UserMessage>) -> Seq<UserRow> {
    Seq::new(list.len(), |i: int| list[i]@)
}

/// The views of a list of replies.
pub open spec fn reply_rows(list: Seq<AssistantMessage>) -> Seq<ReplyRow> {
    Seq::new(list.len(), |i: int| list[i]@)
}

/// The three tables as plain values, rows in order of insertion, and for
/// each table the largest id that it has ever handed out.
pub struct StoreState {
    pub topics: Seq<TopicRow>,
    pub users: Seq<UserRow>,
    pub replies: Seq<ReplyRow>,
    pub last_topic: u32,
    pub last_user: u32,
    pub last_reply: u32,
}

impl StoreState {
    /// The store before anything was inserted.
    pub open spec fn empty() -> StoreState {
        StoreState {
            topics: Seq::empty(),
            users: Seq::empty(),
            replies: Seq::empty(),
            last_topic: 0,
            last_user: 0,
            last_reply: 0,
        }
    }

    /// Whether a topic with this id exists.
    pub open spec fn has_topic(self, id: u32) -> bool {
        exists|i: int| 0 <= i < self.topics.len() && (#[trigger] self.topics[i]).id == id
    }

    /// Whether a topic with this name exists.
    pub open spec fn has_topic_named(self, name: Seq<char>) -> bool {
        exists|i: int| 0 <= i < self.topics.len() && (#[trigger] self.topics[i]).name == name
    }

    /// How many topics have this id.
    pub open spec fn count_topics(self, id: u32) -> nat {
        count_topic_rows(self.topics, id)
    }

    /// Whether the lookup finds a topic.
    pub open spec fn finds(self, lookup: TopicLookupView) -> bool {
        match lookup {
            TopicLookupView::ById(id) => self.has_topic(id),
            TopicLookupView::ByName(name) => self.has_topic_named(name),
        }
    }

    /// The id that a topic gets on insertion: its own where it has one, the
    /// next unused one otherwise.
    pub open spec fn topic_id_for(self, topic: TopicRow) -> int {
        if topic.has_id() {
            topic.id as int
        } else {
            self.last_topic + 1
        }
    }

    /// Whether inserting the topic would add a row.
    pub open spec fn admits(self, topic: TopicRow) -> bool {
        !self.finds(topic.lookup())
    }

    /// The store after inserting the topic: unchanged where the lookup
    /// finds it, one row longer otherwise.
    pub open spec fn insert_topic(self, topic: TopicRow) -> StoreState
        recommends
            self.topic_id_for(topic) <= u32::MAX,
    {
        if self.admits(topic) {
            let id = self.topic_id_for(topic) as u32;
            StoreState {
                topics: self.topics.push(TopicRow { id, ..topic }),
                last_topic: if id > self.last_topic {
                    id
                } else {
                    self.last_topic
                },
                ..self
            }
        } else {
            self
        }
    }

    /// Whether seeding the topic would add a row: neither its id nor its
    /// name is taken.
    pub open spec fn lacks(self, topic: TopicRow) -> bool {
        !self.has_topic(topic.id) && !self.has_topic_named(topic.name)
    }

    /// The store after seeding a reserved topic: unchanged where its id or
    /// its name is taken, one row longer otherwise.
    pub open spec fn seed_topic(self, topic: TopicRow) -> StoreState {
        if self.lacks(topic) {
            StoreState {
                topics: self.topics.push(topic),
                last_topic: if topic.id > self.last_topic {
                    topic.id
                } else {
                    self.last_topic
                },
                ..self
            }
        } else {
            self
        }
    }

    /// The store after renaming the topic `id` and replacing its
    /// description.
    pub open spec fn update_topic(self, id: u32, name: Seq<char>, description: Seq<char>)
        -> StoreState {
        StoreState {
            topics: Seq::new(
                self.topics.len(),
                |i: int|
                    if self.topics[i].id == id {
                        TopicRow { name, description, ..self.topics[i] }
                    } else {
                        self.topics[i]
                    },
            ),
            ..self
        }
    }

    /// Every row has an id of its own, above zero and not above the
    /// largest that its table has handed out.
    pub open spec fn wf(self) -> bool {
        &&& forall|i: int|
            0 <= i < self.topics.len() ==> 0 < (#[trigger] self.topics[i]).id <= self.last_topic
        &&& forall|i: int, j: int|
            0 <= i < j < self.topics.len() ==> (#[trigger] self.topics[i]).id != (
            #[trigger] self.topics[j]).id
        &&& forall|i: int|
            0 <= i < self.users.len() ==> 0 < (#[trigger] self.users[i]).id <= self.last_user
        &&& forall|i: int, j: int|
            0 <= i < j < self.users.len() ==> (#[trigger] self.users[i]).id < (
            #[trigger] self.users[j]).id
        &&& forall|i: int|
            0 <= i < self.replies.len() ==> 0 < (#[trigger] self.replies[i]).id <= self.last_reply
        &&& forall|i: int, j: int|
            0 <= i < j < self.replies.len() ==> (#[trigger] self.replies[i]).id < (
            #[trigger] self.replies[j]).id
        &&& forall|i: int|
            0 <= i < self.replies.len() ==> (#[trigger] self.replies[i]).user_message_id
                <= self.last_user
    }

    /// Whether a user message with this id exists.
    pub open spec fn has_user(self, id: u32) -> bool {
        exists|i: int| 0 <= i < self.users.len() && (#[trigger] self.users[i]).id == id
    }

    /// The store after inserting a user message, which gets the next
    /// unused id.
    pub open spec fn insert_user(self, message: UserRow) -> StoreState
        recommends
            self.last_user < u32::MAX,
    {
        let id = (self.last_user + 1) as u32;
        StoreState { users: self.users.push(UserRow { id, ..message }), last_user: id, ..self }
    }

    /// The store after inserting a reply, which gets the next unused id.
    pub open spec fn insert_reply(self, reply: ReplyRow) -> StoreState
        recommends
            self.last_reply < u32::MAX,
    {
        let id = (self.last_reply + 1) as u32;
        StoreState { replies: self.replies.push(ReplyRow { id, ..reply }), last_reply: id, ..self }
    }

    /// Whether both message tables have an id left to hand out.
    pub open spec fn has_room(self) -> bool {
        self.last_user < u32::MAX && self.last_reply < u32::MAX
    }

    /// The store after recording an exchange: the user message, then the
    /// reply under the id that the user message got.
    pub open spec fn record(self, exchange: ExchangeView) -> StoreState
        recommends
            self.has_room(),
    {
        self.insert_user(
            UserRow {
                id: 0,
                message: exchange.user_text,
                created_at: exchange.created_at,
                topic_id: exchange.topic_id,
            },
        ).insert_reply(
            ReplyRow {
                id: 0,
                message: exchange.reply_text,
                created_at: exchange.reply_time,
                user_message_id: (self.last_user + 1) as u32,
            },
        )
    }

    /// The exchanges under a topic, oldest first: each user message of the
    /// topic beside each reply that names it.
    pub open spec fn messages(self, topic_id: u32) -> Seq<ConversationView> {
        join_rows(self.users, self.replies, topic_id)
    }

    /// The store after one step of a batch.
    pub open spec fn apply(self, step: Step) -> StoreState {
        match step {
            Step::DeleteReplies(which) => StoreState {
                replies: replies_kept(self.replies, self.users, which),
                ..self
            },
            Step::DeleteMessages(which) => StoreState {
                users: users_kept(self.users, which),
                ..self
            },
            Step::DeleteTopic(topic_id) => StoreState {
                topics: topics_kept(self.topics, topic_id),
                ..self
            },
        }
    }

    /// The store after all steps of a batch, in order.
    pub open spec fn apply_all(self, steps: Seq<Step>) -> StoreState
        decreases steps.len(),
    {
        if steps.len() == 0 {
            self
        } else {
            self.apply_all(steps.drop_last()).apply(steps.last())
        }
    }

    /// The store after clearing a topic.
    pub open spec fn clear_topic(self, topic_id: u32) -> StoreState {
        self.apply_all(clear_steps(topic_id))
    }

    /// The store after deleting a topic.
    pub open spec fn delete_topic(self, topic_id: u32) -> StoreState {
        self.apply_all(delete_steps(topic_id))
    }

    /// The store after deleting the user messages created at a time.
    pub open spec fn delete_at(self, created_at: u64) -> StoreState {
        self.apply_all(delete_at_steps(created_at))
    }

    /// Every reply names a user message that the store holds.
    pub open spec fn no_orphans(self) -> bool {
        forall|i: int|
            0 <= i < self.replies.len() ==> self.has_user(
                (#[trigger] self.replies[i]).user_message_id,
            )
    }
}

/// One step of a batch of deletions.
#[derive(Debug, Clone, Copy, PartialEq, Eq, Structural)]
pub enum Step {
    /// Delete the replies to the user messages selected.
    DeleteReplies(Selector),
    /// Delete the user messages selected.
    DeleteMessages(Selector),
    /// Delete the topic row with this id.
    DeleteTopic(u32),
}

/// Which user messages a step is about.
#[derive(Debug, Clone, Copy, PartialEq, Eq, Structural)]
pub enum Selector {
    /// Those under the topic with this id.
    Topic(u32),
    /// Those created at this time.
    Time(u64),
}

impl Selector {
    /// Whether the user message is among those selected.
    pub open spec fn selects(self, user: UserRow) -> bool {
        match self {
            Selector::Topic(topic_id) => user.topic_id == topic_id,
            Selector::Time(created_at) => user.created_at == created_at,
        }
    }

    /// Whether the user message is among those selected.
    pub fn picks(&self, user: &UserMessage) -> (r: bool)
        ensures
            r == self.selects(user@),
    {
        match self {
            Selector::Topic(topic_id) => user.topic_id() == *topic_id,
            Selector::Time(created_at) => user.created_at() == *created_at,
        }
    }
}

/// The batch that clears a topic: the replies first, while the user
/// messages still say which they are.
pub open spec fn clear_steps(topic_id: u32) -> Seq<Step> {
    seq![
        Step::DeleteReplies(Selector::Topic(topic_id)),
        Step::DeleteMessages(Selector::Topic(topic_id)),
    ]
}

/// The batch that deletes the user messages created at a time: the
/// replies to them first, while the user messages still say which they
/// are.
pub open spec fn delete_at_steps(created_at: u64) -> Seq<Step> {
    seq![
        Step::DeleteReplies(Selector::Time(created_at)),
        Step::DeleteMessages(Selector::Time(created_at)),
    ]
}

/// The batch that deletes a topic: what clears it, then the topic row.
pub open spec fn delete_steps(topic_id: u32) -> Seq<Step> {
    seq![
        Step::DeleteReplies(Selector::Topic(topic_id)),
        Step::DeleteMessages(Selector::Topic(topic_id)),
        Step::DeleteTopic(topic_id),
    ]
}

/// Whether the user message `user_id` exists and stands under the topic.
pub open spec fn owner_in_topic(users: Seq<UserRow>, user_id: u32, topic_id: u32) -> bool {
    owner_selected(users, user_id, Selector::Topic(topic_id))
}

/// Whether the user message `user_id` exists and is among those selected.
pub open spec fn owner_selected(users: Seq<UserRow>, user_id: u32, which: Selector) -> bool {
    exists|i: int|
        0 <= i < users.len() && (#[trigger] users[i]).id == user_id && which.selects(users[i])
}

/// The replies that stay when the replies to the user messages selected
/// are deleted.
pub open spec fn replies_kept(replies: Seq<ReplyRow>, users: Seq<UserRow>, which: Selector) -> Seq<
    ReplyRow,
>
    decreases replies.len(),
{
    if replies.len() == 0 {
        Seq::empty()
    } else {
        let rest = replies_kept(replies.drop_last(), users, which);
        if owner_selected(users, replies.last().user_message_id, which) {
            rest
        } else {
            rest.push(replies.last())
        }
    }
}

/// The user messages that stay when those selected are deleted.
pub open spec fn users_kept(users: Seq<UserRow>, which: Selector) -> Seq<UserRow>
    decreases users.len(),
{
    if users.len() == 0 {
        Seq::empty()
    } else {
        let rest = users_kept(users.drop_last(), which);
        if which.selects(users.last()) {
            rest
        } else {
            rest.push(users.last())
        }
    }
}

/// The topics that stay when the topic `topic_id` is deleted.
pub open spec fn topics_kept(topics: Seq<TopicRow>, topic_id: u32) -> Seq<TopicRow>
    decreases topics.len(),
{
    if topics.len() == 0 {
        Seq::empty()
    } else {
        let rest = topics_kept(topics.drop_last(), topic_id);
        if topics.last().id == topic_id {
            rest
        } else {
            rest.push(topics.last())
        }
    }
}

/// A user message beside each reply that names it, oldest reply first.
pub open spec fn replies_to(replies: Seq<ReplyRow>, user: UserRow) -> Seq<ConversationView>
    decreases replies.len(),
{
    if replies.len() == 0 {
        Seq::empty()
    } else {
        let rest = replies_to(replies.drop_last(), user);
        if replies.last().user_message_id == user.id {
            rest.push(ConversationView { user, assistant: replies.last() })
        } else {
            rest
        }
    }
}

/// The inner join of user messages and replies for one topic, oldest user
/// message first.
pub open spec fn join_rows(users: Seq<UserRow>, replies: Seq<ReplyRow>, topic_id: u32) -> Seq<
    ConversationView,
>
    decreases users.len(),
{
    if users.len() == 0 {
        Seq::empty()
    } else {
        let rest = join_rows(users.drop_last(), replies, topic_id);
        if users.last().topic_id == topic_id {
            rest + replies_to(replies, users.last())
        } else {
            rest
        }
    }
}

/// The reserved topic for questions without context, as plain values.
pub open spec fn free_topic_row(clock: u64) -> TopicRow {
    TopicRow {
        id: FREE_TOPIC_ID,
        name: FREE_TOPIC_NAME@,
        description: FREE_TOPIC_DESCRIPTION@,
        created_at: clock,
    }
}

/// The reserved topic for refining a question, as plain values.
pub open spec fn prompt_topic_row(clock: u64) -> TopicRow {
    TopicRow {
        id: PROMPT_TOPIC_ID,
        name: PROMPT_TOPIC_NAME@,
        description: PROMPT_TOPIC_DESCRIPTION@,
        created_at: clock,
    }
}

/// How many of the rows have this id.
pub open spec fn count_topic_rows(rows: Seq<TopicRow>, id: u32) -> nat
    decreases rows.len(),
{
    if rows.len() == 0 {
        0
    } else {
        count_topic_rows(rows.drop_last(), id) + if rows.last().id == id {
            1nat
        } else {
            0nat
        }
    }
}

/// The store's tables in memory.
#[derive(Debug)]
pub struct Store {
    topics: Vec<Topic>,
    users: Vec<UserMessage>,
    replies: Vec<AssistantMessage>,
    last_topic: u32,
    last_user: u32,
    last_reply: u32,
}

impl View for Store {
    type V = StoreState;

    closed spec fn view(&self) -> StoreState {
        StoreState {
            topics: topic_rows(self.topics@),
            users: user_rows(self.users@),
            replies: reply_rows(self.replies@),
            last_topic: self.last_topic,
            last_user: self.last_user,
            last_reply: self.last_reply,
        }
    }
}

impl Store {
    /// A store with empty tables.
    pub fn new() -> (r: Store)
        ensures
            r@ == StoreState::empty(),
            r@.wf(),
    {
        let r = Store {
            topics: Vec::new(),
            users: Vec::new(),
            replies: Vec::new(),
            last_topic: 0,
            last_user: 0,
            last_reply: 0,
        };
        assert(r@.topics =~= Seq::empty());
        assert(r@.users =~= Seq::empty());
        assert(r@.replies =~= Seq::empty());
        r
    }

    /// Whether a topic with this id exists.
    pub fn topic_exists(&self, topic_id: u32) -> (r: bool)
        ensures
            r == self@.has_topic(topic_id),
    {
        let mut i: usize = 0;
        while i < self.topics.len()
            invariant
                i <= self.topics.len(),
                forall|k: int| 0 <= k < i ==> (#[trigger] self@.topics[k]).id != topic_id,
            decreases self.topics.len() - i,
        {
            if self.topics[i].id == topic_id {
                assert(self@.topics[i as int].id == topic_id);
                return true;
            }
            i = i + 1;
        }
        false
    }

    /// Whether a topic with this name exists.
    pub fn topic_exists_by_name(&self, name: &str) -> (r: bool)
        ensures
            r == self@.has_topic_named(name@),
    {
        let mut i: usize = 0;
        while i < self.topics.len()
            invariant
                i <= self.topics.len(),
                forall|k: int| 0 <= k < i ==> (#[trigger] self@.topics[k]).name != name@,
            decreases self.topics.len() - i,
        {
            if text_eq(self.topics[i].name.as_str(), name) {
                assert(self@.topics[i as int].name == name@);
                return true;
            }
            i = i + 1;
        }
        false
    }

    /// Inserts `topic` unless the store already holds it: a topic with an
    /// id is looked for by that id, one without by its name, and then gets
    /// the next unused id. Fails only where no id is left to hand out.
    pub fn insert_topic(&mut self, topic: &Topic) -> (r: Result<(), StoreError>)
        requires
            old(self)@.wf(),
        ensures
            final(self)@.wf(),
            old(self)@.admits(topic@) && old(self)@.topic_id_for(topic@) > u32::MAX ==> (r matches Err(
                StoreError::OutOfRange,
            )) && final(self)@ == old(self)@,
            !(old(self)@.admits(topic@) && old(self)@.topic_id_for(topic@) > u32::MAX) ==> r is Ok
                && final(self)@ == old(self)@.insert_topic(topic@),
    {
        let exists = match topic.lookup() {
            TopicLookup::ById(id) => self.topic_exists(id),
            TopicLookup::ByName(name) => self.topic_exists_by_name(name.as_str()),
        };
        if exists {
            return Ok(());
        }
        let id = if topic.id > 0 {
            topic.id
        } else if self.last_topic < u32::MAX {
            self.last_topic + 1
        } else {
            return Err(StoreError::OutOfRange);
        };
        self.topics.push(
            Topic {
                id,
                name: topic.name.clone(),
                description: topic.description.clone(),
                created_at: topic.created_at,
            },
        );
        if id > self.last_topic {
            self.last_topic = id;
        }
        proof {
            let before = old(self)@;
            let after = before.insert_topic(topic@);
            assert(self@.topics =~= after.topics);
            assert(self@.users =~= after.users);
            assert(self@.replies =~= after.replies);
            assert(!before.has_topic(id)) by {
                if topic.id == 0 {
                    // every id handed out so far is at most `last_topic`
                    assert(forall|i: int|
                        0 <= i < before.topics.len() ==> (#[trigger] before.topics[i]).id != id);
                }
            }
            assert forall|i: int, j: int| 0 <= i < j < self@.topics.len() implies (
            #[trigger] self@.topics[i]).id != (#[trigger] self@.topics[j]).id by {
                if j == before.topics.len() {
                    assert(before.topics[i].id != id);
                }
            }
        }
        Ok(())
    }

    /// Inserts a reserved topic unless the store already holds a topic
    /// with its id or with its name.
    pub fn seed_topic(&mut self, topic: &Topic)
        requires
            old(self)@.wf(),
            topic.id > 0,
        ensures
            final(self)@.wf(),
            final(self)@ == old(self)@.seed_topic(topic@),
    {
        if self.topic_exists(topic.id) || self.topic_exists_by_name(topic.name.as_str()) {
            return ;
        }
        self.topics.push(
            Topic {
                id: topic.id,
                name: topic.name.clone(),
                description: topic.description.clone(),
                created_at: topic.created_at,
            },
        );
        if topic.id > self.last_topic {
            self.last_topic = topic.id;
        }
        proof {
            let before = old(self)@;
            let after = before.seed_topic(topic@);
            assert(self@.topics =~= after.topics);
            assert(self@.users =~= after.users);
            assert(self@.replies =~= after.replies);
            assert(!before.has_topic(topic.id));
            assert forall|i: int, j: int| 0 <= i < j < self@.topics.len() implies (
            #[trigger] self@.topics[i]).id != (#[trigger] self@.topics[j]).id by {
                if j == before.topics.len() {
                    assert(before.topics[i].id != topic.id);
                }
            }
        }
    }

    /// Seeds the two reserved topics, created at `clock`, where neither
    /// their id nor their name is taken.
    pub fn init_topic(&mut self, clock: u64)
        requires
            old(self)@.wf(),
        ensures
            final(self)@.wf(),
            final(self)@ == old(self)@.seed_topic(free_topic_row(clock)).seed_topic(
                prompt_topic_row(clock),
            ),
    {
        self.seed_topic(&free_topic(clock));
        self.seed_topic(&prompt_topic(clock));
    }

    /// All topics, in order of insertion.
    pub fn get_all_topics(&self) -> (r: Vec<Topic>)
        ensures
            topic_rows(r@) == self@.topics,
    {
        let mut out: Vec<Topic> = Vec::new();
        let mut i: usize = 0;
        while i < self.topics.len()
            invariant
                i <= self.topics.len(),
                out.len() == i,
                forall|k: int| 0 <= k < i ==> (#[trigger] out[k])@ == self.topics[k]@,
            decreases self.topics.len() - i,
        {
            let t = &self.topics[i];
            out.push(
                Topic {
                    id: t.id,
                    name: t.name.clone(),
                    description: t.description.clone(),
                    created_at: t.created_at,
                },
            );
            i = i + 1;
        }
        assert(topic_rows(out@) =~= self@.topics);
        out
    }

    /// Renames the topic `topic_id` and replaces its description. Returns
    /// how many rows changed: one where the topic exists, none otherwise.
    pub fn update_topic_by_id(&mut self, topic_id: u32, new_name: &str, new_description: &str) -> (r:
        usize)
        requires
            old(self)@.wf(),
        ensures
            final(self)@.wf(),
            final(self)@ == old(self)@.update_topic(topic_id, new_name@, new_description@),
            r == if old(self)@.has_topic(topic_id) {
                1usize
            } else {
                0usize
            },
    {
        let mut i: usize = 0;
        while i < self.topics.len()
            invariant
                i <= self.topics.len(),
                *self == *old(self),
                old(self)@.wf(),
                forall|k: int| 0 <= k < i ==> (#[trigger] self@.topics[k]).id != topic_id,
            decreases self.topics.len() - i,
        {
            if self.topics[i].id == topic_id {
                let created_at = self.topics[i].created_at;
                self.topics.set(
                    i,
                    Topic {
                        id: topic_id,
                        name: String::from_str(new_name),
                        description: String::from_str(new_description),
                        created_at,
                    },
                );
                proof {
                    let before = old(self)@;
                    let after = before.update_topic(topic_id, new_name@, new_description@);
                    assert(before.topics[i as int].id == topic_id);
                    assert forall|k: int| 0 <= k < self@.topics.len() implies self@.topics[k]
                        == after.topics[k] by {
                        if k != i {
                            assert(self.topics@[k] == old(self).topics@[k]);
                            if k > i {
                                assert(before.topics[i as int].id != before.topics[k].id);
                            } else {
                                assert(before.topics[k].id != topic_id);
                            }
                        }
                    }
                    assert(self@.topics =~= after.topics);
                    assert(self@.users =~= after.users);
                    assert(self@.replies =~= after.replies);
                }
                return 1;
            }
            i = i + 1;
        }
        proof {
            let before = old(self)@;
            let after = before.update_topic(topic_id, new_name@, new_description@);
            assert(self@.topics =~= after.topics);
        }
        0
    }

    /// Whether a user message with this id exists.
    pub fn user_exists(&self, user_id: u32) -> (r: bool)
        ensures
            r == self@.has_user(user_id),
    {
        let mut i: usize = 0;
        while i < self.users.len()
            invariant
                i <= self.users.len(),
                forall|k: int| 0 <= k < i ==> (#[trigger] self@.users[k]).id != user_id,
            decreases self.users.len() - i,
        {
            if self.users[i].id() == user_id {
                assert(self@.users[i as int].id == user_id);
                return true;
            }
            i = i + 1;
        }
        false
    }

    /// Inserts a user message under the next unused id and returns that
    /// id. Fails only where no id is left to hand out.
    pub fn insert_user_message(&mut self, message: &UserMessage) -> (r: Result<u32, StoreError>)
        requires
            old(self)@.wf(),
        ensures
            final(self)@.wf(),
            old(self)@.last_user < u32::MAX ==> r == Ok::<u32, StoreError>(
                (old(self)@.last_user + 1) as u32,
            ) && final(self)@ == old(self)@.insert_user(message@),
            old(self)@.last_user == u32::MAX ==> (r matches Err(StoreError::OutOfRange))
                && final(self)@ == old(self)@,
    {
        if self.last_user == u32::MAX {
            return Err(StoreError::OutOfRange);
        }
        let id = self.last_user + 1;
        self.users.push(
            UserMessage::stored(
                id,
                message.message().clone(),
                message.created_at(),
                message.topic_id(),
            ),
        );
        self.last_user = id;
        proof {
            let after = old(self)@.insert_user(message@);
            assert(self@.topics =~= after.topics);
            assert(self@.users =~= after.users);
            assert(self@.replies =~= after.replies);
        }
        Ok(id)
    }

    /// Inserts a reply under the next unused id and returns that id. The
    /// user message that the reply names must exist.
    pub fn insert_assistant_message(&mut self, reply: &AssistantMessage) -> (r: Result<
        u32,
        StoreError,
    >)
        requires
            old(self)@.wf(),
        ensures
            final(self)@.wf(),
            !old(self)@.has_user(reply@.user_message_id) ==> (r matches Err(StoreError::Orphan))
                && final(self)@ == old(self)@,
            old(self)@.has_user(reply@.user_message_id) && old(self)@.last_reply == u32::MAX ==> (
            r matches Err(StoreError::OutOfRange)) && final(self)@ == old(self)@,
            old(self)@.has_user(reply@.user_message_id) && old(self)@.last_reply < u32::MAX ==> r
                == Ok::<u32, StoreError>((old(self)@.last_reply + 1) as u32) && final(self)@ == old(
                self,
            )@.insert_reply(reply@),
    {
        if !self.user_exists(reply.user_message_id()) {
            return Err(StoreError::Orphan);
        }
        if self.last_reply == u32::MAX {
            return Err(StoreError::OutOfRange);
        }
        let id = self.last_reply + 1;
        self.replies.push(
            AssistantMessage::stored(
                id,
                reply.message().clone(),
                reply.created_at(),
                reply.user_message_id(),
            ),
        );
        self.last_reply = id;
        proof {
            let after = old(self)@.insert_reply(reply@);
            assert(self@.topics =~= after.topics);
            assert(self@.users =~= after.users);
            assert(self@.replies =~= after.replies);
        }
        Ok(id)
    }

    /// Records an exchange: the user message, then the reply under the id
    /// that the user message got. Returns that id. Where either table has
    /// no id left, nothing is stored.
    pub fn record_exchange(&mut self, exchange: &Exchange) -> (r: Result<u32, StoreError>)
        requires
            old(self)@.wf(),
        ensures
            final(self)@.wf(),
            old(self)@.has_room() ==> r == Ok::<u32, StoreError>((old(self)@.last_user + 1) as u32)
                && final(self)@ == old(self)@.record(exchange@),
            !old(self)@.has_room() ==> (r matches Err(StoreError::OutOfRange)) && final(self)@
                == old(self)@,
    {
        if self.last_user == u32::MAX || self.last_reply == u32::MAX {
            return Err(StoreError::OutOfRange);
        }
        let id = self.last_user + 1;
        let user = user_message_of(exchange);
        let _ = self.insert_user_message(&user);
        assert(self@.users.last().id == id);
        let reply = reply_of(exchange, id);
        let _ = self.insert_assistant_message(&reply);
        Ok(id)
    }

    /// The exchanges under a topic, oldest first. A user message without a
    /// reply is not among them.
    pub fn get_messages(&self, topic_id: u32) -> (r: Vec<Conversation>)
        ensures
            conversation_views(r@) == self@.messages(topic_id),
    {
        let mut out: Vec<Conversation> = Vec::new();
        let mut i: usize = 0;
        assert(self@.users.take(0) =~= Seq::empty());
        assert(conversation_views(out@) =~= Seq::empty());
        while i < self.users.len()
            invariant
                i <= self.users.len(),
                conversation_views(out@) == join_rows(
                    self@.users.take(i as int),
                    self@.replies,
                    topic_id,
                ),
            decreases self.users.len() - i,
        {
            let user = &self.users[i];
            proof {
                assert(self@.users.take(i + 1).drop_last() =~= self@.users.take(i as int));
                assert(self@.users.take(i + 1).last() == user@);
            }
            if user.topic_id() == topic_id {
                let ghost before = conversation_views(out@);
                let mut j: usize = 0;
                assert(self@.replies.take(0) =~= Seq::empty());
                assert(before + Seq::<ConversationView>::empty() =~= before);
                while j < self.replies.len()
                    invariant
                        j <= self.replies.len(),
                        i < self.users.len(),
                        user == &self.users[i as int],
                        conversation_views(out@) == before + replies_to(
                            self@.replies.take(j as int),
                            user@,
                        ),
                    decreases self.replies.len() - j,
                {
                    let reply = &self.replies[j];
                    proof {
                        assert(self@.replies.take(j + 1).drop_last() =~= self@.replies.take(
                            j as int,
                        ));
                        assert(self@.replies.take(j + 1).last() == reply@);
                    }
                    if reply.user_message_id() == user.id() {
                        let ghost so_far = conversation_views(out@);
                        out.push(Conversation::pair(user.duplicate(), reply.duplicate()));
                        assert(conversation_views(out@) =~= so_far.push(
                            ConversationView { user: user@, assistant: reply@ },
                        ));
                        assert(conversation_views(out@) =~= before + replies_to(
                            self@.replies.take(j + 1),
                            user@,
                        ));
                    }
                    j = j + 1;
                }
                assert(self@.replies.take(j as int) =~= self@.replies);
            }
            i = i + 1;
        }
        assert(self@.users.take(i as int) =~= self@.users);
        out
    }

    /// Whether the user message `user_id` exists and stands under the
    /// topic `topic_id`.
    pub fn owner_in_topic(&self, user_id: u32, topic_id: u32) -> (r: bool)
        ensures
            r == owner_in_topic(self@.users, user_id, topic_id),
    {
        self.owner_selected(user_id, Selector::Topic(topic_id))
    }

    /// Whether the user message `user_id` exists and is among those
    /// selected.
    pub fn owner_selected(&self, user_id: u32, which: Selector) -> (r: bool)
        ensures
            r == owner_selected(self@.users, user_id, which),
    {
        let mut i: usize = 0;
        while i < self.users.len()
            invariant
                i <= self.users.len(),
                forall|k: int|
                    0 <= k < i ==> !((#[trigger] self@.users[k]).id == user_id && which.selects(
                        self@.users[k],
                    )),
            decreases self.users.len() - i,
        {
            if self.users[i].id() == user_id && which.picks(&self.users[i]) {
                assert(self@.users[i as int].id == user_id);
                return true;
            }
            i = i + 1;
        }
        false
    }

    /// All user messages, in order of insertion.
    pub fn user_messages(&self) -> (r: Vec<UserMessage>)
        ensures
            user_rows(r@) == self@.users,
    {
        let mut users: Vec<UserMessage> = Vec::new();
        let mut i: usize = 0;
        while i < self.users.len()
            invariant
                i <= self.users.len(),
                users.len() == i,
                forall|k: int| 0 <= k < i ==> (#[trigger] users[k])@ == self.users[k]@,
            decreases self.users.len() - i,
        {
            users.push(self.users[i].duplicate());
            i = i + 1;
        }
        assert(user_rows(users@) =~= self@.users);
        users
    }

    /// All replies, in order of insertion.
    pub fn assistant_messages(&self) -> (r: Vec<AssistantMessage>)
        ensures
            reply_rows(r@) == self@.replies,
    {
        let mut replies: Vec<AssistantMessage> = Vec::new();
        let mut j: usize = 0;
        while j < self.replies.len()
            invariant
                j <= self.replies.len(),
                replies.len() == j,
                forall|k: int| 0 <= k < j ==> (#[trigger] replies[k])@ == self.replies[k]@,
            decreases self.replies.len() - j,
        {
            replies.push(self.replies[j].duplicate());
            j = j + 1;
        }
        assert(reply_rows(replies@) =~= self@.replies);
        replies
    }

    /// A copy of the store.
    pub fn duplicate(&self) -> (r: Store)
        ensures
            r@ == self@,
    {
        Store {
            topics: self.get_all_topics(),
            users: self.user_messages(),
            replies: self.assistant_messages(),
            last_topic: self.last_topic,
            last_user: self.last_user,
            last_reply: self.last_reply,
        }
    }

    fn delete_replies(&mut self, which: Selector)
        requires
            old(self)@.wf(),
        ensures
            final(self)@.wf(),
            final(self)@ == old(self)@.apply(Step::DeleteReplies(which)),
    {
        let mut out: Vec<AssistantMessage> = Vec::new();
        let mut i: usize = 0;
        assert(self@.replies.take(0) =~= Seq::empty());
        assert(reply_rows(out@) =~= Seq::empty());
        while i < self.replies.len()
            invariant
                i <= self.replies.len(),
                *self == *old(self),
                self@.wf(),
                reply_rows(out@) == replies_kept(self@.replies.take(i as int), self@.users, which),
                forall|k: int|
                    0 <= k < out.len() ==> 0 < (#[trigger] reply_rows(out@)[k]).id
                        <= self@.last_reply && reply_rows(out@)[k].user_message_id
                        <= self@.last_user,
                forall|k: int, l: int|
                    0 <= k < l < out.len() ==> (#[trigger] reply_rows(out@)[k]).id < (
                    #[trigger] reply_rows(out@)[l]).id,
                forall|k: int, m: int|
                    0 <= k < out.len() && i <= m < self.replies.len() ==> (
                    #[trigger] reply_rows(out@)[k]).id < (#[trigger] self@.replies[m]).id,
            decreases self.replies.len() - i,
        {
            let reply = &self.replies[i];
            proof {
                assert(self@.replies.take(i + 1).drop_last() =~= self@.replies.take(i as int));
                assert(self@.replies.take(i + 1).last() == reply@);
                assert(self@.replies[i as int] == reply@);
            }
            if !self.owner_selected(reply.user_message_id(), which) {
                let ghost so_far = reply_rows(out@);
                out.push(reply.duplicate());
                assert(reply_rows(out@) =~= so_far.push(reply@));
                assert forall|k: int, m: int|
                    0 <= k < out.len() && i + 1 <= m < self.replies.len() implies (
                #[trigger] reply_rows(out@)[k]).id < (#[trigger] self@.replies[m]).id by {
                    if k == out.len() - 1 {
                        assert(self@.replies[i as int].id < self@.replies[m].id);
                    } else {
                        assert(reply_rows(out@)[k] == so_far[k]);
                    }
                }
                assert forall|k: int, l: int| 0 <= k < l < out.len() implies (
                #[trigger] reply_rows(out@)[k]).id < (#[trigger] reply_rows(out@)[l]).id by {
                    assert(reply_rows(out@)[k] == so_far[k]);
                    if l == out.len() - 1 {
                        assert(so_far[k].id < self@.replies[i as int].id);
                    } else {
                        assert(reply_rows(out@)[l] == so_far[l]);
                    }
                }
                assert forall|k: int| 0 <= k < out.len() implies 0 < (
                #[trigger] reply_rows(out@)[k]).id <= self@.last_reply && reply_rows(
                    out@,
                )[k].user_message_id <= self@.last_user by {
                    if k < out.len() - 1 {
                        assert(reply_rows(out@)[k] == so_far[k]);
                    }
                }
            }
            i = i + 1;
        }
        assert(self@.replies.take(i as int) =~= self@.replies);
        self.replies = out;
        proof {
            let after = old(self)@.apply(Step::DeleteReplies(which));
            assert(self@.topics =~= after.topics);
            assert(self@.users =~= after.users);
        }
    }

    fn delete_messages(&mut self, which: Selector)
        requires
            old(self)@.wf(),
        ensures
            final(self)@.wf(),
            final(self)@ == old(self)@.apply(Step::DeleteMessages(which)),
    {
        let mut out: Vec<UserMessage> = Vec::new();
        let mut i: usize = 0;
        assert(self@.users.take(0) =~= Seq::empty());
        assert(user_rows(out@) =~= Seq::empty());
        while i < self.users.len()
            invariant
                i <= self.users.len(),
                *self == *old(self),
                self@.wf(),
                user_rows(out@) == users_kept(self@.users.take(i as int), which),
                forall|k: int|
                    0 <= k < out.len() ==> 0 < (#[trigger] user_rows(out@)[k]).id
                        <= self@.last_user,
                forall|k: int, l: int|
                    0 <= k < l < out.len() ==> (#[trigger] user_rows(out@)[k]).id < (
                    #[trigger] user_rows(out@)[l]).id,
                forall|k: int, m: int|
                    0 <= k < out.len() && i <= m < self.users.len() ==> (
                    #[trigger] user_rows(out@)[k]).id < (#[trigger] self@.users[m]).id,
            decreases self.users.len() - i,
        {
            let user = &self.users[i];
            proof {
                assert(self@.users.take(i + 1).drop_last() =~= self@.users.take(i as int));
                assert(self@.users.take(i + 1).last() == user@);
                assert(self@.users[i as int] == user@);
            }
            if !which.picks(user) {
                let ghost so_far = user_rows(out@);
                out.push(user.duplicate());
                assert(user_rows(out@) =~= so_far.push(user@));
                assert forall|k: int, m: int|
                    0 <= k < out.len() && i + 1 <= m < self.users.len() implies (
                #[trigger] user_rows(out@)[k]).id < (#[trigger] self@.users[m]).id by {
                    if k == out.len() - 1 {
                        assert(self@.users[i as int].id < self@.users[m].id);
                    } else {
                        assert(user_rows(out@)[k] == so_far[k]);
                    }
                }
                assert forall|k: int, l: int| 0 <= k < l < out.len() implies (
                #[trigger] user_rows(out@)[k]).id < (#[trigger] user_rows(out@)[l]).id by {
                    assert(user_rows(out@)[k] == so_far[k]);
                    if l == out.len() - 1 {
                        assert(so_far[k].id < self@.users[i as int].id);
                    } else {
                        assert(user_rows(out@)[l] == so_far[l]);
                    }
                }
                assert forall|k: int| 0 <= k < out.len() implies 0 < (
                #[trigger] user_rows(out@)[k]).id <= self@.last_user by {
                    if k < out.len() - 1 {
                        assert(user_rows(out@)[k] == so_far[k]);
                    }
                }
            }
            i = i + 1;
        }
        assert(self@.users.take(i as int) =~= self@.users);
        self.users = out;
        proof {
            let after = old(self)@.apply(Step::DeleteMessages(which));
            assert(self@.topics =~= after.topics);
            assert(self@.replies =~= after.replies);
        }
    }

    fn delete_topic_row(&mut self, topic_id: u32)
        requires
            old(self)@.wf(),
        ensures
            final(self)@.wf(),
            final(self)@ == old(self)@.apply(Step::DeleteTopic(topic_id)),
    {
        let mut out: Vec<Topic> = Vec::new();
        let mut i: usize = 0;
        assert(self@.topics.take(0) =~= Seq::empty());
        assert(topic_rows(out@) =~= Seq::empty());
        while i < self.topics.len()
            invariant
                i <= self.topics.len(),
                *self == *old(self),
                self@.wf(),
                topic_rows(out@) == topics_kept(self@.topics.take(i as int), topic_id),
                forall|k: int|
                    0 <= k < out.len() ==> 0 < (#[trigger] topic_rows(out@)[k]).id
                        <= self@.last_topic,
                forall|k: int, l: int|
                    0 <= k < l < out.len() ==> (#[trigger] topic_rows(out@)[k]).id != (
                    #[trigger] topic_rows(out@)[l]).id,
                forall|k: int, m: int|
                    0 <= k < out.len() && i <= m < self.topics.len() ==> (
                    #[trigger] topic_rows(out@)[k]).id != (#[trigger] self@.topics[m]).id,
            decreases self.topics.len() - i,
        {
            let topic = &self.topics[i];
            proof {
                assert(self@.topics.take(i + 1).drop_last() =~= self@.topics.take(i as int));
                assert(self@.topics.take(i + 1).last() == topic@);
                assert(self@.topics[i as int] == topic@);
            }
            if topic.id != topic_id {
                let ghost so_far = topic_rows(out@);
                out.push(
                    Topic {
                        id: topic.id,
                        name: topic.name.clone(),
                        description: topic.description.clone(),
                        created_at: topic.created_at,
                    },
                );
                assert(topic_rows(out@) =~= so_far.push(topic@));
                assert forall|k: int, m: int|
                    0 <= k < out.len() && i + 1 <= m < self.topics.len() implies (
                #[trigger] topic_rows(out@)[k]).id != (#[trigger] self@.topics[m]).id by {
                    if k == out.len() - 1 {
                        assert(self@.topics[i as int].id != self@.topics[m].id);
                    } else {
                        assert(topic_rows(out@)[k] == so_far[k]);
                    }
                }
                assert forall|k: int, l: int| 0 <= k < l < out.len() implies (
                #[trigger] topic_rows(out@)[k]).id != (#[trigger] topic_rows(out@)[l]).id by {
                    assert(topic_rows(out@)[k] == so_far[k]);
                    if l == out.len() - 1 {
                        assert(so_far[k].id != self@.topics[i as int].id);
                    } else {
                        assert(topic_rows(out@)[l] == so_far[l]);
                    }
                }
                assert forall|k: int| 0 <= k < out.len() implies 0 < (
                #[trigger] topic_rows(out@)[k]).id <= self@.last_topic by {
                    if k < out.len() - 1 {
                        assert(topic_rows(out@)[k] == so_far[k]);
                    }
                }
            }
            i = i + 1;
        }
        assert(self@.topics.take(i as int) =~= self@.topics);
        self.topics = out;
        proof {
            let after = old(self)@.apply(Step::DeleteTopic(topic_id));
            assert(self@.users =~= after.users);
            assert(self@.replies =~= after.replies);
        }
    }

    /// Applies one step of a batch.
    pub fn apply(&mut self, step: Step)
        requires
            old(self)@.wf(),
        ensures
            final(self)@.wf(),
            final(self)@ == old(self)@.apply(step),
    {
        match step {
            Step::DeleteReplies(which) => self.delete_replies(which),
            Step::DeleteMessages(which) => self.delete_messages(which),
            Step::DeleteTopic(topic_id) => self.delete_topic_row(topic_id),
        }
    }

    /// Runs a batch as one unit. With `fail_at` naming one of its steps,
    /// the batch fails when it reaches that step, and the store is left
    /// exactly as it was. Otherwise all steps take effect, in order.
    pub fn run_batch(&mut self, steps: &Vec<Step>, fail_at: Option<usize>) -> (r: Result<
        (),
        StoreError,
    >)
        requires
            old(self)@.wf(),
        ensures
            final(self)@.wf(),
            (fail_at matches Some(k) && k < steps.len()) ==> (r matches Err(StoreError::Injected))
                && final(self)@ == old(self)@,
            !(fail_at matches Some(k) && k < steps.len()) ==> r is Ok && final(self)@ == old(
                self,
            )@.apply_all(steps@),
    {
        let mut scratch = self.duplicate();
        let mut i: usize = 0;
        assert(steps@.take(0) =~= Seq::empty());
        while i < steps.len()
            invariant
                i <= steps.len(),
                *self == *old(self),
                old(self)@.wf(),
                scratch@.wf(),
                scratch@ == old(self)@.apply_all(steps@.take(i as int)),
                !(fail_at matches Some(k) && k < i),
            decreases steps.len() - i,
        {
            match fail_at {
                Some(k) => {
                    if k == i {
                        return Err(StoreError::Injected);
                    }
                },
                None => {},
            }
            proof {
                assert(steps@.take(i + 1).drop_last() =~= steps@.take(i as int));
                assert(steps@.take(i + 1).last() == steps@[i as int]);
            }
            scratch.apply(steps[i]);
            i = i + 1;
        }
        assert(steps@.take(i as int) =~= steps@);
        *self = scratch;
        Ok(())
    }

    /// The batch that clears the topic `topic_id`.
    pub fn clear_steps(topic_id: u32) -> (r: Vec<Step>)
        ensures
            r@ == clear_steps(topic_id),
    {
        let mut r: Vec<Step> = Vec::new();
        r.push(Step::DeleteReplies(Selector::Topic(topic_id)));
        r.push(Step::DeleteMessages(Selector::Topic(topic_id)));
        assert(r@ =~= clear_steps(topic_id));
        r
    }

    /// The batch that deletes the topic `topic_id` with all under it.
    pub fn delete_steps(topic_id: u32) -> (r: Vec<Step>)
        ensures
            r@ == delete_steps(topic_id),
    {
        let mut r: Vec<Step> = Vec::new();
        r.push(Step::DeleteReplies(Selector::Topic(topic_id)));
        r.push(Step::DeleteMessages(Selector::Topic(topic_id)));
        r.push(Step::DeleteTopic(topic_id));
        assert(r@ =~= delete_steps(topic_id));
        r
    }

    /// The batch that deletes the user messages created at `created_at`
    /// with the replies to them.
    pub fn delete_at_steps(created_at: u64) -> (r: Vec<Step>)
        ensures
            r@ == delete_at_steps(created_at),
    {
        let mut r: Vec<Step> = Vec::new();
        r.push(Step::DeleteReplies(Selector::Time(created_at)));
        r.push(Step::DeleteMessages(Selector::Time(created_at)));
        assert(r@ =~= delete_at_steps(created_at));
        r
    }

    /// Removes the user messages created at `created_at`, and the replies
    /// to them.
    pub fn delete_user_message_by_time(&mut self, created_at: u64)
        requires
            old(self)@.wf(),
        ensures
            final(self)@.wf(),
            final(self)@ == old(self)@.delete_at(created_at),
    {
        let _ = self.run_batch(&Self::delete_at_steps(created_at), None);
    }

    /// Removes all messages under the topic `topic_id`, and the replies to
    /// them.
    pub fn clear_topic(&mut self, topic_id: u32)
        requires
            old(self)@.wf(),
        ensures
            final(self)@.wf(),
            final(self)@ == old(self)@.clear_topic(topic_id),
    {
        let _ = self.run_batch(&Self::clear_steps(topic_id), None);
    }

    /// Removes the topic `topic_id` with all messages under it and the
    /// replies to them.
    pub fn delete_topic(&mut self, topic_id: u32)
        requires
            old(self)@.wf(),
        ensures
            final(self)@.wf(),
            final(self)@ == old(self)@.delete_topic(topic_id),
    {
        let _ = self.run_batch(&Self::delete_steps(topic_id), None);
    }
}

} // verus!
