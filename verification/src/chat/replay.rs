//! Replaying a recorded stream.
//!
//! A recorded stream is the list of frames that a stream parser yielded,
//! each with what decoding its payload gave. Replaying it drives the
//! session controller through the exchange with surroundings that always
//! cooperate (every delivery is taken) and a store held in memory. This
//! is where the controller's laws are stated: what a stream that runs to
//! its sentinel leaves in the store, and that a cancelled one leaves
//! nothing.

use vstd::prelude::*;
use vstd::string::*;
use crate::chat::chat::MessageChunk;
use crate::chat::stream::{
    join, lemma_join_skips_empty, spec_step, without_empty, Action, ActionView, Event, EventView,
    Exchange, Frame, FrameView, SessionError, SessionErrorView, SessionState, Stage, StreamSession,
    DONE_SENTINEL, NO_ID,
};
use crate::db::memory::{Store, StoreState};
use crate::db::StoreError;

verus! {

/// One frame of a recorded stream, with what decoding its payload gave.
/// The decoding is consulted only for a message that is not the sentinel.
#[derive(Debug)]
pub struct Recorded {
    pub frame: Frame,
    pub decoded: Result<MessageChunk, String>,
}

/// A [`Recorded`] as plain values.
pub struct RecordedView {
    pub frame: FrameView,
    pub decoded: Result<MessageChunk, Seq<char>>,
}

impl View for Recorded {
    type V = RecordedView;

    open spec fn view(&self) -> RecordedView {
        RecordedView {
            frame: self.frame@,
            decoded: match self.decoded {
                Ok(chunk) => Ok(chunk),
                Err(detail) => Err(detail@),
            },
        }
    }
}

/// The views of a recorded stream.
pub open spec fn recorded_views(frames: Seq<Recorded>) -> Seq<RecordedView> {
    Seq::new(frames.len(), |i: int| frames[i]@)
}

impl RecordedView {
    /// What the decoder reports for this frame's payload.
    pub open spec fn decoded_event(self) -> EventView {
        match self.decoded {
            Ok(chunk) => EventView::Decoded(chunk),
            Err(detail) => EventView::DecodeFailed(detail),
        }
    }

    /// A message other than the sentinel that decodes to a delta frame.
    pub open spec fn is_delta(self) -> bool {
        &&& self.frame matches FrameView::Message(payload) && payload != DONE_SENTINEL@
        &&& self.decoded matches Ok(chunk) && chunk.has_delta()
    }

    /// A frame after which the stream goes on: the opening frame or a
    /// delta frame.
    pub open spec fn goes_on(self) -> bool {
        self.frame is Open || self.is_delta()
    }

    /// The sentinel.
    pub open spec fn is_done(self) -> bool {
        self.frame == FrameView::Message(DONE_SENTINEL@)
    }
}

/// The state in which the controller awaits the first frame.
pub open spec fn started(topic_id: u32, user_text: Seq<char>, created_at: u64) -> SessionState {
    SessionState { stage: Stage::AwaitFrame, ..SessionState::initial(topic_id, user_text, created_at) }
}

/// The controller's state after the poll that ends a frame's handling.
pub open spec fn polled(s: SessionState, cancelled: bool) -> SessionState {
    spec_step(s, EventView::Cancel(cancelled)).0
}

/// The controller's state after it handled one frame, every delivery
/// taken, and polled the cancellation signal, which read `cancelled`. A
/// controller that no longer awaits a frame does not take one.
pub open spec fn feed(s: SessionState, r: RecordedView, cancelled: bool) -> SessionState {
    if s.stage != Stage::AwaitFrame {
        s
    } else {
        let (s1, a1) = spec_step(s, EventView::Frame(r.frame));
        match a1 {
            ActionView::PollCancel => polled(s1, cancelled),
            ActionView::DeliverDone => polled(spec_step(s1, EventView::Delivered).0, cancelled),
            ActionView::Decode(_) => {
                let (s2, a2) = spec_step(s1, r.decoded_event());
                match a2 {
                    ActionView::Deliver(_) => polled(
                        spec_step(s2, EventView::Delivered).0,
                        cancelled,
                    ),
                    _ => s2,
                }
            },
            _ => s1,
        }
    }
}

/// The controller's state after the frames, in order. With `cancel_after`
/// naming a frame, the cancellation signal fires once that frame is
/// handled: the poll after it reads true.
pub open spec fn feed_all(s: SessionState, frames: Seq<RecordedView>, cancel_after: Option<int>)
    -> SessionState
    decreases frames.len(),
{
    if frames.len() == 0 {
        s
    } else {
        feed(
            feed_all(s, frames.drop_last(), cancel_after),
            frames.last(),
            cancel_after == Some(frames.len() - 1),
        )
    }
}

/// The text fragments that the delta frames among `frames` carry, in
/// order.
pub open spec fn fragments(frames: Seq<RecordedView>) -> Seq<Seq<char>>
    decreases frames.len(),
{
    if frames.len() == 0 {
        Seq::empty()
    } else {
        let rest = fragments(frames.drop_last());
        let last = frames.last();
        if last.is_delta() && last.decoded->Ok_0.delta().content is Some {
            rest.push(last.decoded->Ok_0.delta().content->0)
        } else {
            rest
        }
    }
}

/// The generation time of the first delta frame among `frames`.
pub open spec fn first_created(frames: Seq<RecordedView>) -> Option<u64>
    decreases frames.len(),
{
    if frames.len() == 0 {
        None
    } else {
        match first_created(frames.drop_last()) {
            Some(t) => Some(t),
            None => if frames.last().is_delta() {
                Some(frames.last().decoded->Ok_0.created)
            } else {
                None
            },
        }
    }
}

/// A result as plain values.
pub open spec fn result_view(r: Result<u32, SessionError>) -> Result<u32, SessionErrorView> {
    match r {
        Ok(id) => Ok(id),
        Err(e) => Err(e@),
    }
}

/// What a replay leaves behind, given the state in which the frames left
/// the controller: the store, and the result handed to the caller.
///
/// A controller that awaits the save gets the exchange recorded, if the
/// store has room. One that still awaits a frame has seen the stream run
/// out without the sentinel, and aborts. Any other has settled already.
pub open spec fn replay_outcome(end: SessionState, store: StoreState) -> (
    StoreState,
    Result<u32, SessionErrorView>,
) {
    match end.stage {
        Stage::AwaitSave => if store.has_room() {
            (store.record(end.exchange()), Ok((store.last_user + 1) as u32))
        } else {
            (store, Err(SessionErrorView::Persistence(StoreError::OutOfRange.spec_message())))
        },
        Stage::AwaitFrame => (store, Ok(NO_ID)),
        _ => (store, end.outcome.result()),
    }
}

impl StreamSession {
    fn poll(&mut self, cancelled: bool) -> (saved: Option<Exchange>)
        ensures
            final(self)@ == polled(old(self)@, cancelled),
            match saved {
                Some(x) => spec_step(old(self)@, EventView::Cancel(cancelled)).1 == ActionView::Save(
                    x@,
                ),
                None => !(spec_step(old(self)@, EventView::Cancel(cancelled)).1 is Save),
            },
    {
        match self.step(Event::Cancel(cancelled)) {
            Action::Save(x) => Some(x),
            _ => None,
        }
    }

    /// Handles one recorded frame, every delivery taken, and polls the
    /// cancellation signal, which reads `cancelled`. Returns the exchange
    /// to store where this frame completed the reply.
    pub fn feed(&mut self, recorded: Recorded, cancelled: bool) -> (saved: Option<Exchange>)
        ensures
            final(self)@ == feed(old(self)@, recorded@, cancelled),
            match saved {
                Some(x) => old(self)@.stage == Stage::AwaitFrame && final(self)@.stage
                    == Stage::AwaitSave && x@ == final(self)@.exchange(),
                None => !(old(self)@.stage == Stage::AwaitFrame && final(self)@.stage
                    == Stage::AwaitSave),
            },
    {
        match self.stage() {
            Stage::AwaitFrame => {},
            _ => {
                return None;
            },
        }
        let Recorded { frame, decoded } = recorded;
        match self.step(Event::Frame(frame)) {
            Action::PollCancel => self.poll(cancelled),
            Action::DeliverDone => {
                let _ = self.step(Event::Delivered);
                self.poll(cancelled)
            },
            Action::Decode(_) => {
                let event = match decoded {
                    Ok(chunk) => Event::Decoded(chunk),
                    Err(detail) => Event::DecodeFailed(detail),
                };
                match self.step(event) {
                    Action::Deliver(_) => {
                        let _ = self.step(Event::Delivered);
                        self.poll(cancelled)
                    },
                    _ => None,
                }
            },
            _ => None,
        }
    }
}

/// The stages in which the controller can be between two frames: awaiting
/// the next frame, awaiting the save, or settled.
pub open spec fn between_frames(stage: Stage) -> bool {
    stage == Stage::AwaitFrame || stage == Stage::AwaitSave || stage == Stage::Closing
}

/// Handling a frame leaves the controller between two frames again.
pub proof fn lemma_feed_between_frames(s: SessionState, r: RecordedView, cancelled: bool)
    requires
        between_frames(s.stage),
    ensures
        between_frames(feed(s, r, cancelled).stage),
{
}

/// The frame after which the cancellation signal fires, as a position in
/// the recording.
pub open spec fn cancel_position(cancel_after: Option<usize>) -> Option<int> {
    match cancel_after {
        Some(k) => Some(k as int),
        None => None,
    }
}

/// Replays a recorded stream into `store`: runs one exchange under
/// `topic_id` whose outbound message is `user_text`, sent at `created_at`,
/// against the frames, with the cancellation signal firing after the frame
/// `cancel_after` if one is named. Returns what the exchange returns to
/// its caller.
///
/// The store gains the exchange exactly when the frames leave the
/// controller awaiting the save and the store has room; it is untouched
/// otherwise.
pub fn replay(
    store: &mut Store,
    topic_id: u32,
    user_text: &str,
    created_at: u64,
    frames: Vec<Recorded>,
    cancel_after: Option<usize>,
) -> (r: Result<u32, SessionError>)
    requires
        old(store)@.wf(),
    ensures
        final(store)@.wf(),
        (final(store)@, result_view(r)) == replay_outcome(
            feed_all(
                started(topic_id, user_text@, created_at),
                recorded_views(frames@),
                cancel_position(cancel_after),
            ),
            old(store)@,
        ),
{
    let ghost all = recorded_views(frames@);
    let ghost cancel = cancel_position(cancel_after);
    let ghost start = started(topic_id, user_text@, created_at);
    let mut session = StreamSession::new(topic_id, user_text, created_at);
    let _ = session.step(Event::Start);
    let _ = session.step(Event::Opened);
    assert(session@ == start);
    let mut frames = frames;
    assert(all.len() == frames.len());
    let mut saved: Option<Exchange> = None;
    let mut i: usize = 0;
    assert(all.take(0) =~= Seq::empty());
    while frames.len() > 0
        invariant
            i + frames.len() == all.len(),
            all.len() <= usize::MAX,
            between_frames(session@.stage),
            recorded_views(frames@) =~= all.skip(i as int),
            session@ == feed_all(start, all.take(i as int), cancel),
            cancel == cancel_position(cancel_after),
            session@.stage == Stage::AwaitSave ==> (saved matches Some(x) && x@
                == session@.exchange()),
        decreases frames.len(),
    {
        let ghost before = recorded_views(frames@);
        let ghost held = frames@;
        let ghost state = session@;
        let recorded = frames.remove(0);
        let cancelled = match cancel_after {
            Some(k) => k == i,
            None => false,
        };
        proof {
            assert(recorded@ == before[0]);
            assert(before[0] == all[i as int]);
            assert(all.take(i + 1).drop_last() =~= all.take(i as int));
            assert(all.take(i + 1).last() == all[i as int]);
            assert(cancelled == (cancel == Some((i + 1) as int - 1)));
            assert(frames@ =~= held.remove(0));
            assert forall|k: int| 0 <= k < frames@.len() implies recorded_views(frames@)[k]
                == all.skip(i + 1)[k] by {
                assert(frames@[k] == held[k + 1]);
                assert(before[k + 1] == held[k + 1]@);
                assert(before[k + 1] == all.skip(i as int)[k + 1]);
            }
            assert(recorded_views(frames@) =~= all.skip(i + 1));
            lemma_feed_between_frames(state, recorded@, cancelled);
        }
        match session.feed(recorded, cancelled) {
            Some(x) => {
                saved = Some(x);
            },
            None => {},
        }
        i = i + 1;
    }
    assert(all.take(i as int) =~= all);
    match session.stage() {
        Stage::AwaitSave => {
            match saved {
                Some(x) => {
                    match store.record_exchange(&x) {
                        Ok(id) => {
                            let _ = session.step(Event::Saved(id));
                        },
                        Err(e) => {
                            let _ = session.step(Event::SaveFailed(e.message()));
                        },
                    }
                },
                None => {},
            }
        },
        Stage::AwaitFrame => {
            let _ = session.step(Event::Frame(Frame::StreamEnded));
        },
        _ => {},
    }
    let _ = session.step(Event::Closed);
    match session.step(Event::Unsubscribed) {
        Action::Finish(r) => r,
        _ => Err(SessionError::Protocol),
    }
}

/// Every frame of the recording is one after which the stream goes on.
pub open spec fn all_go_on(frames: Seq<RecordedView>) -> bool {
    forall|i: int| 0 <= i < frames.len() ==> (#[trigger] frames[i]).goes_on()
}

/// While the frames go on and nothing cancels, the controller keeps
/// reading: it has gathered the frames' fragments in order and kept the
/// first frame's time, and nothing else has changed.
pub proof fn lemma_streaming(s0: SessionState, frames: Seq<RecordedView>)
    requires
        s0.stage == Stage::AwaitFrame,
        !s0.done_seen,
        all_go_on(frames),
    ensures
        feed_all(s0, frames, None) == (SessionState {
            parts: s0.parts + fragments(frames),
            reply_time: match s0.reply_time {
                Some(t) => Some(t),
                None => first_created(frames),
            },
            ..s0
        }),
    decreases frames.len(),
{
    if frames.len() == 0 {
        assert(s0.parts + fragments(frames) =~= s0.parts);
    } else {
        let rest = frames.drop_last();
        let last = frames.last();
        assert(all_go_on(rest)) by {
            assert forall|i: int| 0 <= i < rest.len() implies (#[trigger] rest[i]).goes_on() by {
                assert(rest[i] == frames[i]);
            }
        }
        lemma_streaming(s0, rest);
        let s = feed_all(s0, rest, None);
        assert(last.goes_on());
        assert(feed_all(s0, frames, None) == feed(s, last, false));
        if last.is_delta() {
            let chunk = last.decoded->Ok_0;
            match chunk.delta().content {
                Some(text) => {
                    assert(s.parts.push(text) =~= s0.parts + fragments(frames));
                },
                None => {},
            }
        }
    }
}

/// A stream of frames that go on, ended by the sentinel and never
/// cancelled, completes: the controller awaits the save of an exchange
/// whose reply is the frames' fragments joined in order (which is what
/// those among them that are not empty give) and whose time is that of the
/// first delta frame. Replayed into a store with room, it adds
/// exactly one user message and one reply that names it, and returns the
/// user message's id.
pub proof fn law_completed_stream(
    topic_id: u32,
    user_text: Seq<char>,
    created_at: u64,
    frames: Seq<RecordedView>,
    done: RecordedView,
    store: StoreState,
)
    requires
        all_go_on(frames),
        done.is_done(),
        store.has_room(),
    ensures
        ({
            let end = feed_all(started(topic_id, user_text, created_at), frames.push(done), None);
            let reply_time = match first_created(frames) {
                Some(t) => t,
                None => 0,
            };
            let (after, result) = replay_outcome(end, store);
            let user_id = (store.last_user + 1) as u32;
            &&& end.stage == Stage::AwaitSave
            &&& end.exchange().reply_text == join(fragments(frames))
            &&& end.exchange().reply_text == join(without_empty(fragments(frames)))
            &&& end.exchange().reply_time == reply_time
            &&& result == Ok::<u32, SessionErrorView>(user_id)
            &&& after.topics == store.topics
            &&& after.users == store.users.push(
                crate::db::message::UserRow {
                    id: user_id,
                    message: user_text,
                    created_at,
                    topic_id,
                },
            )
            &&& after.replies == store.replies.push(
                crate::db::message::ReplyRow {
                    id: (store.last_reply + 1) as u32,
                    message: join(fragments(frames)),
                    created_at: reply_time,
                    user_message_id: user_id,
                },
            )
        }),
{
    let s0 = started(topic_id, user_text, created_at);
    lemma_streaming(s0, frames);
    lemma_join_skips_empty(fragments(frames));
    let all = frames.push(done);
    assert(all.drop_last() =~= frames);
    assert(all.last() == done);
    assert(s0.parts + fragments(frames) =~= fragments(frames));
    let s = feed_all(s0, frames, None);
    assert(feed_all(s0, all, None) == feed(s, done, false));
}

/// Once the controller no longer awaits a frame, further frames change
/// nothing.
pub proof fn lemma_no_more_frames(s: SessionState, frames: Seq<RecordedView>, cancel: Option<int>)
    requires
        s.stage != Stage::AwaitFrame,
    ensures
        feed_all(s, frames, cancel) == s,
    decreases frames.len(),
{
    if frames.len() > 0 {
        lemma_no_more_frames(s, frames.drop_last(), cancel);
    }
}

/// A poll that reads the signal as fired settles the exchange: whatever
/// the frame before it was, the controller ends up closing, and never
/// with a completed exchange. After a frame that goes on, or the
/// sentinel, the exchange is aborted.
pub proof fn lemma_cancel_settles(s: SessionState, r: RecordedView)
    requires
        s.stage == Stage::AwaitFrame,
    ensures
        feed(s, r, true).stage == Stage::Closing,
        !(feed(s, r, true).outcome is Completed),
        !(feed(s, r, true).outcome is Pending),
        r.goes_on() || r.is_done() ==> feed(s, r, true).outcome is Aborted,
{
}

/// Cancelling after the frame `k`, which the controller was still there
/// to read, stores nothing: the frames leave the controller closing, no
/// exchange completed, and a replay leaves the store as it was. Where the
/// frame `k` was one that goes on, or the sentinel, the caller gets the id
/// that stands for none.
pub proof fn law_cancelled_stream(
    s0: SessionState,
    frames: Seq<RecordedView>,
    k: int,
    store: StoreState,
)
    requires
        0 <= k < frames.len(),
        feed_all(s0, frames.take(k), Some(k)).stage == Stage::AwaitFrame,
    ensures
        ({
            let end = feed_all(s0, frames, Some(k));
            &&& end.stage == Stage::Closing
            &&& !(end.outcome is Completed)
            &&& replay_outcome(end, store).0 == store
            &&& frames[k].goes_on() || frames[k].is_done() ==> replay_outcome(end, store).1 == Ok::<
                u32,
                SessionErrorView,
            >(NO_ID)
        }),
    decreases frames.len(),
{
    let rest = frames.drop_last();
    if frames.len() == k + 1 {
        assert(rest =~= frames.take(k));
        lemma_cancel_settles(feed_all(s0, rest, Some(k)), frames[k]);
    } else {
        assert(rest.take(k) =~= frames.take(k));
        assert(rest[k] == frames[k]);
        law_cancelled_stream(s0, rest, k, store);
    }
}

} // verus!
