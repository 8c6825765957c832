//! Laws of the store, proved of [`StoreState`].

use vstd::prelude::*;
use crate::db::memory::{
    clear_steps, count_topic_rows, delete_steps, join_rows, owner_in_topic, owner_selected,
    replies_kept, replies_to, topics_kept, users_kept, Selector, Step, StoreState,
};
use crate::chat::stream::ExchangeView;
use crate::db::message::{ConversationView, ReplyRow, UserRow};
use crate::db::topic::TopicRow;

verus! {

proof fn lemma_count_none(rows: Seq<TopicRow>, id: u32)
    requires
        forall|i: int| 0 <= i < rows.len() ==> (#[trigger] rows[i]).id != id,
    ensures
        count_topic_rows(rows, id) == 0,
    decreases rows.len(),
{
    if rows.len() > 0 {
        assert forall|i: int| 0 <= i < rows.drop_last().len() implies (
        #[trigger] rows.drop_last()[i]).id != id by {
            assert(rows.drop_last()[i] == rows[i]);
        }
        lemma_count_none(rows.drop_last(), id);
    }
}

proof fn lemma_count_one(rows: Seq<TopicRow>, id: u32)
    requires
        forall|i: int, j: int|
            0 <= i < j < rows.len() ==> (#[trigger] rows[i]).id != (#[trigger] rows[j]).id,
        exists|i: int| 0 <= i < rows.len() && (#[trigger] rows[i]).id == id,
    ensures
        count_topic_rows(rows, id) == 1,
    decreases rows.len(),
{
    let rest = rows.drop_last();
    assert forall|i: int, j: int| 0 <= i < j < rest.len() implies (#[trigger] rest[i]).id != (
    #[trigger] rest[j]).id by {
        assert(rest[i] == rows[i]);
        assert(rest[j] == rows[j]);
    }
    if rows.last().id == id {
        assert forall|i: int| 0 <= i < rest.len() implies (#[trigger] rest[i]).id != id by {
            assert(rest[i] == rows[i]);
            assert(rows[i].id != rows[rows.len() - 1].id);
        }
        lemma_count_none(rest, id);
    } else {
        let w = choose|i: int| 0 <= i < rows.len() && (#[trigger] rows[i]).id == id;
        assert(rest[w] == rows[w]);
        lemma_count_one(rest, id);
    }
}

/// Inserting a topic keeps the store well formed.
pub proof fn lemma_insert_topic_wf(s: StoreState, topic: TopicRow)
    requires
        s.wf(),
        s.topic_id_for(topic) <= u32::MAX,
    ensures
        s.insert_topic(topic).wf(),
{
    if s.admits(topic) {
        let id = s.topic_id_for(topic) as u32;
        let after = s.insert_topic(topic);
        assert forall|i: int| 0 <= i < s.topics.len() implies (#[trigger] s.topics[i]).id
            != id by {
            if topic.has_id() {
                assert(!s.has_topic(id));
            }
        }
        assert forall|i: int, j: int| 0 <= i < j < after.topics.len() implies (
        #[trigger] after.topics[i]).id != (#[trigger] after.topics[j]).id by {
            assert(after.topics[i] == s.topics[i]);
            if j < s.topics.len() {
                assert(after.topics[j] == s.topics[j]);
            }
        }
        assert forall|i: int| 0 <= i < after.topics.len() implies 0 < (
        #[trigger] after.topics[i]).id <= after.last_topic by {
            if i < s.topics.len() {
                assert(after.topics[i] == s.topics[i]);
            }
        }
    }
}

/// Inserting a topic that carries an id is idempotent: after one
/// insertion or two, the store is the same and holds exactly one topic
/// with that id.
pub proof fn law_insert_topic_idempotent(s: StoreState, topic: TopicRow)
    requires
        s.wf(),
        topic.has_id(),
    ensures
        s.insert_topic(topic).insert_topic(topic) == s.insert_topic(topic),
        s.insert_topic(topic).count_topics(topic.id) == 1,
        s.insert_topic(topic).insert_topic(topic).count_topics(topic.id) == 1,
{
    let once = s.insert_topic(topic);
    lemma_insert_topic_wf(s, topic);
    if s.admits(topic) {
        assert(once.topics[s.topics.len() as int].id == topic.id);
    }
    assert(once.has_topic(topic.id));
    lemma_count_one(once.topics, topic.id);
}

/// Seeding a reserved topic is idempotent: a second seeding changes
/// nothing, and afterwards the topic's id or its name is taken.
pub proof fn law_seed_topic_idempotent(s: StoreState, topic: TopicRow)
    ensures
        s.seed_topic(topic).seed_topic(topic) == s.seed_topic(topic),
        !s.seed_topic(topic).lacks(topic),
{
    let once = s.seed_topic(topic);
    if s.lacks(topic) {
        assert(once.topics[s.topics.len() as int] == topic);
        assert(once.has_topic(topic.id));
    }
}

/// Recording an exchange in a store with room adds exactly one pair to
/// what its topic reads back, at the end, and leaves what the other
/// topics read back as it was.
pub proof fn law_record_reads_back(s: StoreState, x: ExchangeView, topic_id: u32)
    requires
        s.wf(),
        s.has_room(),
    ensures
        ({
            let after = s.record(x);
            let pair = ConversationView {
                user: UserRow {
                    id: (s.last_user + 1) as u32,
                    message: x.user_text,
                    created_at: x.created_at,
                    topic_id: x.topic_id,
                },
                assistant: ReplyRow {
                    id: (s.last_reply + 1) as u32,
                    message: x.reply_text,
                    created_at: x.reply_time,
                    user_message_id: (s.last_user + 1) as u32,
                },
            };
            &&& after.users.len() == s.users.len() + 1
            &&& after.replies.len() == s.replies.len() + 1
            &&& after.topics == s.topics
            &&& topic_id == x.topic_id ==> after.messages(topic_id) == s.messages(topic_id).push(
                pair,
            )
            &&& topic_id != x.topic_id ==> after.messages(topic_id) == s.messages(topic_id)
        }),
{
    let after = s.record(x);
    let user = after.users.last();
    let reply = after.replies.last();
    assert(after.users.drop_last() =~= s.users);
    assert(after.replies.drop_last() =~= s.replies);
    lemma_join_ignores_foreign_reply(s.users, s.replies, reply, topic_id);
    lemma_no_replies_yet(s.replies, user);
    assert(replies_to(after.replies, user) =~= seq![ConversationView { user, assistant: reply }]);
    assert(s.messages(topic_id) + seq![ConversationView { user, assistant: reply }]
        =~= s.messages(topic_id).push(ConversationView { user, assistant: reply }));
}

proof fn lemma_no_replies_yet(replies: Seq<ReplyRow>, user: UserRow)
    requires
        forall|i: int| 0 <= i < replies.len() ==> (#[trigger] replies[i]).user_message_id < user.id,
    ensures
        replies_to(replies, user) == Seq::<ConversationView>::empty(),
    decreases replies.len(),
{
    if replies.len() > 0 {
        assert forall|i: int| 0 <= i < replies.drop_last().len() implies (
        #[trigger] replies.drop_last()[i]).user_message_id < user.id by {
            assert(replies.drop_last()[i] == replies[i]);
        }
        lemma_no_replies_yet(replies.drop_last(), user);
    }
}

proof fn lemma_join_ignores_foreign_reply(
    users: Seq<UserRow>,
    replies: Seq<ReplyRow>,
    reply: ReplyRow,
    topic_id: u32,
)
    requires
        forall|i: int| 0 <= i < users.len() ==> (#[trigger] users[i]).id != reply.user_message_id,
    ensures
        join_rows(users, replies.push(reply), topic_id) == join_rows(users, replies, topic_id),
    decreases users.len(),
{
    if users.len() > 0 {
        assert forall|i: int| 0 <= i < users.drop_last().len() implies (
        #[trigger] users.drop_last()[i]).id != reply.user_message_id by {
            assert(users.drop_last()[i] == users[i]);
        }
        lemma_join_ignores_foreign_reply(users.drop_last(), replies, reply, topic_id);
        assert(replies.push(reply).drop_last() =~= replies);
        assert(users[users.len() - 1].id != reply.user_message_id);
    }
}

proof fn lemma_push_contains<A>(s: Seq<A>, x: A, t: A)
    ensures
        s.push(x).contains(t) <==> (s.contains(t) || t == x),
{
    if s.push(x).contains(t) {
        let i = choose|i: int| 0 <= i < s.push(x).len() && s.push(x)[i] == t;
        if i < s.len() {
            assert(s[i] == t);
        }
    }
    if s.contains(t) {
        let i = choose|i: int| 0 <= i < s.len() && s[i] == t;
        assert(s.push(x)[i] == t);
    }
    if t == x {
        assert(s.push(x)[s.len() as int] == t);
    }
}

proof fn lemma_last_contains<A>(s: Seq<A>, t: A)
    requires
        s.len() > 0,
    ensures
        s.contains(t) <==> (s.drop_last().contains(t) || t == s.last()),
{
    assert(s =~= s.drop_last().push(s.last()));
    lemma_push_contains(s.drop_last(), s.last(), t);
}

proof fn lemma_topics_kept(topics: Seq<TopicRow>, topic_id: u32)
    ensures
        forall|t: TopicRow|
            #[trigger] topics_kept(topics, topic_id).contains(t) <==> topics.contains(t) && t.id
                != topic_id,
    decreases topics.len(),
{
    let kept = topics_kept(topics, topic_id);
    assert forall|t: TopicRow| #[trigger] kept.contains(t) <==> topics.contains(t) && t.id
        != topic_id by {
        if topics.len() > 0 {
            let rest = topics.drop_last();
            lemma_topics_kept(rest, topic_id);
            lemma_last_contains(topics, t);
            lemma_push_contains(topics_kept(rest, topic_id), topics.last(), t);
        }
    }
}

proof fn lemma_users_kept(users: Seq<UserRow>, which: Selector)
    ensures
        forall|u: UserRow|
            #[trigger] users_kept(users, which).contains(u) <==> users.contains(u)
                && !which.selects(u),
    decreases users.len(),
{
    let kept = users_kept(users, which);
    assert forall|u: UserRow| #[trigger] kept.contains(u) <==> users.contains(u) && !which.selects(
        u,
    ) by {
        if users.len() > 0 {
            let rest = users.drop_last();
            lemma_users_kept(rest, which);
            lemma_last_contains(users, u);
            lemma_push_contains(users_kept(rest, which), users.last(), u);
        }
    }
}

proof fn lemma_replies_kept(replies: Seq<ReplyRow>, users: Seq<UserRow>, which: Selector)
    ensures
        forall|r: ReplyRow|
            #[trigger] replies_kept(replies, users, which).contains(r) <==> replies.contains(r)
                && !owner_selected(users, r.user_message_id, which),
    decreases replies.len(),
{
    let kept = replies_kept(replies, users, which);
    assert forall|r: ReplyRow| #[trigger] kept.contains(r) <==> replies.contains(r)
        && !owner_selected(users, r.user_message_id, which) by {
        if replies.len() > 0 {
            let rest = replies.drop_last();
            lemma_replies_kept(rest, users, which);
            lemma_last_contains(replies, r);
            lemma_push_contains(replies_kept(rest, users, which), replies.last(), r);
        }
    }
}

/// What a batch of two steps does, written out.
pub proof fn lemma_two_steps(s: StoreState, a: Step, b: Step)
    ensures
        s.apply_all(seq![a, b]) == s.apply(a).apply(b),
{
    let none = Seq::<Step>::empty();
    assert(seq![a].drop_last() =~= none);
    assert(seq![a, b].drop_last() =~= seq![a]);
    assert(s.apply_all(none) == s);
    assert(s.apply_all(seq![a]) == s.apply(a));
}

/// What a batch of three steps does, written out.
pub proof fn lemma_delete_steps(s: StoreState, topic_id: u32)
    ensures
        s.clear_topic(topic_id) == s.apply(Step::DeleteReplies(Selector::Topic(topic_id))).apply(
            Step::DeleteMessages(Selector::Topic(topic_id)),
        ),
        s.delete_topic(topic_id) == s.clear_topic(topic_id).apply(Step::DeleteTopic(topic_id)),
{
    let a = Step::DeleteReplies(Selector::Topic(topic_id));
    let b = Step::DeleteMessages(Selector::Topic(topic_id));
    let c = Step::DeleteTopic(topic_id);
    let none = Seq::<Step>::empty();
    assert(seq![a].drop_last() =~= none);
    assert(seq![a, b].drop_last() =~= seq![a]);
    assert(seq![a, b, c].drop_last() =~= seq![a, b]);
    assert(s.apply_all(none) == s);
    assert(s.apply_all(seq![a]) == s.apply(a));
    assert(s.apply_all(seq![a, b]) == s.apply(a).apply(b));
    assert(clear_steps(topic_id) =~= seq![a, b]);
    assert(delete_steps(topic_id) =~= seq![a, b, c]);
}

/// Deleting a topic removes its row, every user message under it and
/// every reply to one of those, and touches nothing else.
pub proof fn law_delete_topic(s: StoreState, topic_id: u32)
    ensures
        ({
            let d = s.delete_topic(topic_id);
            &&& !d.has_topic(topic_id)
            &&& forall|t: TopicRow|
                #[trigger] d.topics.contains(t) <==> s.topics.contains(t) && t.id != topic_id
            &&& forall|u: UserRow|
                #[trigger] d.users.contains(u) <==> s.users.contains(u) && u.topic_id != topic_id
            &&& forall|r: ReplyRow|
                #[trigger] d.replies.contains(r) <==> s.replies.contains(r) && !owner_in_topic(
                    s.users,
                    r.user_message_id,
                    topic_id,
                )
            &&& d.last_topic == s.last_topic && d.last_user == s.last_user && d.last_reply
                == s.last_reply
        }),
{
    lemma_delete_steps(s, topic_id);
    lemma_replies_kept(s.replies, s.users, Selector::Topic(topic_id));
    lemma_users_kept(s.users, Selector::Topic(topic_id));
    lemma_topics_kept(s.topics, topic_id);
    let d = s.delete_topic(topic_id);
    assert(d.topics == topics_kept(s.topics, topic_id));
    assert(d.users == users_kept(s.users, Selector::Topic(topic_id)));
    assert(d.replies == replies_kept(s.replies, s.users, Selector::Topic(topic_id)));
    if d.has_topic(topic_id) {
        let i = choose|i: int| 0 <= i < d.topics.len() && (#[trigger] d.topics[i]).id == topic_id;
        assert(d.topics.contains(d.topics[i]));
    }
}

/// Clearing a topic removes every user message under it and every reply
/// to one of those, and touches nothing else: the topic rows stay.
pub proof fn law_clear_topic(s: StoreState, topic_id: u32)
    ensures
        ({
            let d = s.clear_topic(topic_id);
            &&& d.topics == s.topics
            &&& forall|u: UserRow|
                #[trigger] d.users.contains(u) <==> s.users.contains(u) && u.topic_id != topic_id
            &&& forall|r: ReplyRow|
                #[trigger] d.replies.contains(r) <==> s.replies.contains(r) && !owner_in_topic(
                    s.users,
                    r.user_message_id,
                    topic_id,
                )
        }),
{
    lemma_delete_steps(s, topic_id);
    lemma_replies_kept(s.replies, s.users, Selector::Topic(topic_id));
    lemma_users_kept(s.users, Selector::Topic(topic_id));
}

/// Deleting the user messages created at a time removes exactly those,
/// and every reply to one of them, and touches nothing else. In a store
/// where every reply names a user message that is there, that still holds
/// afterwards: no reply is left without its user message.
pub proof fn law_delete_at(s: StoreState, created_at: u64)
    ensures
        ({
            let d = s.delete_at(created_at);
            &&& d.topics == s.topics
            &&& forall|u: UserRow|
                #[trigger] d.users.contains(u) <==> s.users.contains(u) && u.created_at
                    != created_at
            &&& forall|r: ReplyRow|
                #[trigger] d.replies.contains(r) <==> s.replies.contains(r) && !owner_selected(
                    s.users,
                    r.user_message_id,
                    Selector::Time(created_at),
                )
            &&& s.no_orphans() ==> d.no_orphans()
        }),
{
    let which = Selector::Time(created_at);
    lemma_two_steps(s, Step::DeleteReplies(which), Step::DeleteMessages(which));
    lemma_replies_kept(s.replies, s.users, which);
    lemma_users_kept(s.users, which);
    let d = s.delete_at(created_at);
    assert(d.users == users_kept(s.users, which));
    assert(d.replies == replies_kept(s.replies, s.users, which));
    if s.no_orphans() {
        assert forall|i: int| 0 <= i < d.replies.len() implies d.has_user(
            (#[trigger] d.replies[i]).user_message_id,
        ) by {
            let r = d.replies[i];
            assert(d.replies.contains(r));
            assert(s.replies.contains(r));
            let j = choose|j: int| 0 <= j < s.replies.len() && s.replies[j] == r;
            assert(s.has_user(s.replies[j].user_message_id));
            let k = choose|k: int|
                0 <= k < s.users.len() && (#[trigger] s.users[k]).id == r.user_message_id;
            let u = s.users[k];
            assert(s.users.contains(u));
            assert(!which.selects(u));
            assert(d.users.contains(u));
            let m = choose|m: int| 0 <= m < d.users.len() && d.users[m] == u;
            assert(d.users[m].id == r.user_message_id);
        }
    }
}

proof fn lemma_replies_to(replies: Seq<ReplyRow>, user: UserRow)
    ensures
        forall|i: int|
            0 <= i < replies_to(replies, user).len() ==> {
                let c = #[trigger] replies_to(replies, user)[i];
                c.user == user && c.matched() && replies.contains(c.assistant)
            },
    decreases replies.len(),
{
    let all = replies_to(replies, user);
    if replies.len() > 0 {
        let rest = replies.drop_last();
        lemma_replies_to(rest, user);
        assert forall|i: int| 0 <= i < all.len() implies {
            let c = #[trigger] all[i];
            c.user == user && c.matched() && replies.contains(c.assistant)
        } by {
            if replies.last().user_message_id == user.id && i == all.len() - 1 {
                assert(replies[replies.len() - 1] == all[i].assistant);
            } else {
                let c = replies_to(rest, user)[i];
                assert(all[i] == c);
                let m = choose|m: int| 0 <= m < rest.len() && rest[m] == c.assistant;
                assert(replies[m] == c.assistant);
            }
        }
    }
}

proof fn lemma_join_rows(users: Seq<UserRow>, replies: Seq<ReplyRow>, topic_id: u32)
    ensures
        forall|i: int|
            0 <= i < join_rows(users, replies, topic_id).len() ==> {
                let c = #[trigger] join_rows(users, replies, topic_id)[i];
                c.matched() && c.user.topic_id == topic_id && users.contains(c.user)
                    && replies.contains(c.assistant)
            },
    decreases users.len(),
{
    let all = join_rows(users, replies, topic_id);
    if users.len() > 0 {
        let rest = users.drop_last();
        let before = join_rows(rest, replies, topic_id);
        lemma_join_rows(rest, replies, topic_id);
        lemma_replies_to(replies, users.last());
        assert forall|i: int| 0 <= i < all.len() implies {
            let c = #[trigger] all[i];
            c.matched() && c.user.topic_id == topic_id && users.contains(c.user)
                && replies.contains(c.assistant)
        } by {
            if i < before.len() {
                let c = before[i];
                assert(all[i] == c);
                let m = choose|m: int| 0 <= m < rest.len() && rest[m] == c.user;
                assert(users[m] == c.user);
            } else {
                let c = replies_to(replies, users.last())[i - before.len()];
                assert(all[i] == c);
                assert(users[users.len() - 1] == c.user);
            }
        }
    }
}

/// Reading a topic's exchanges never yields a user message without a
/// reply that names it: every pair read holds a user message of the topic
/// and a reply of the store that answers it.
pub proof fn law_messages_matched(s: StoreState, topic_id: u32)
    ensures
        forall|i: int|
            0 <= i < s.messages(topic_id).len() ==> {
                let c = #[trigger] s.messages(topic_id)[i];
                c.matched() && c.user.topic_id == topic_id && s.users.contains(c.user)
                    && s.replies.contains(c.assistant)
            },
{
    lemma_join_rows(s.users, s.replies, topic_id);
}

} // verus!
