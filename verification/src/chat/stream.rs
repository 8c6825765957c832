//! The streaming session controller.
//!
//! One streamed exchange is a dialogue between the controller and its
//! surroundings. The controller decides; the surroundings do the work that
//! needs the network, the subscriber or the store, and report how it went.
//! [`StreamSession::step`] takes one report ([`Event`]) and answers with the
//! next piece of work ([`Action`]). What it answers is fixed by
//! [`spec_step`], a function on plain values.

use vstd::prelude::*;
use vstd::string::*;
use crate::chat::chat::{outbound_text, ChatGPTResponse, Message, MessageChunk};
use crate::text::text_eq;

verus! {

/// The payload that marks the logical end of a streamed reply.
pub const DONE_SENTINEL: &'static str = "[DONE]";

/// The id reported when an exchange ended without being stored.
pub const NO_ID: u32 = 0;

/// The detail of the decode error raised for a frame without alternatives.
pub const NO_DELTA: &'static str = "frame carries no delta";

/// One frame of the event stream, as the stream parser yields it.
#[derive(Debug)]
pub enum Frame {
    /// The connection is established.
    Open,
    /// One data chunk.
    Message(String),
    /// The remote side closed the stream cleanly.
    StreamEnded,
    /// The transport failed.
    TransportError(String),
}

/// A [`Frame`] as plain values.
pub enum FrameView {
    Open,
    Message(Seq<char>),
    StreamEnded,
    TransportError(Seq<char>),
}

impl View for Frame {
    type V = FrameView;

    open spec fn view(&self) -> FrameView {
        match *self {
            Frame::Open => FrameView::Open,
            Frame::Message(payload) => FrameView::Message(payload@),
            Frame::StreamEnded => FrameView::StreamEnded,
            Frame::TransportError(detail) => FrameView::TransportError(detail@),
        }
    }
}

/// Why an exchange failed.
#[derive(Debug)]
pub enum SessionError {
    /// The request could not be issued, or the transport failed mid-stream.
    Transport(String),
    /// A frame's payload could not be decoded.
    Decode(String),
    /// The subscriber refused a delivery.
    Subscriber(String),
    /// The stream completed but the exchange could not be stored.
    Persistence(String),
    /// A report arrived that does not answer the work last asked for.
    Protocol,
}

/// A [`SessionError`] as plain values.
pub enum SessionErrorView {
    Transport(Seq<char>),
    Decode(Seq<char>),
    Subscriber(Seq<char>),
    Persistence(Seq<char>),
    Protocol,
}

impl View for SessionError {
    type V = SessionErrorView;

    open spec fn view(&self) -> SessionErrorView {
        match *self {
            SessionError::Transport(d) => SessionErrorView::Transport(d@),
            SessionError::Decode(d) => SessionErrorView::Decode(d@),
            SessionError::Subscriber(d) => SessionErrorView::Subscriber(d@),
            SessionError::Persistence(d) => SessionErrorView::Persistence(d@),
            SessionError::Protocol => SessionErrorView::Protocol,
        }
    }
}

impl SessionError {
    /// A copy of the error.
    pub fn duplicate(&self) -> (r: SessionError)
        ensures
            r@ == self@,
    {
        match self {
            SessionError::Transport(d) => SessionError::Transport(d.clone()),
            SessionError::Decode(d) => SessionError::Decode(d.clone()),
            SessionError::Subscriber(d) => SessionError::Subscriber(d.clone()),
            SessionError::Persistence(d) => SessionError::Persistence(d.clone()),
            SessionError::Protocol => SessionError::Protocol,
        }
    }
}

/// A completed exchange, ready to be stored: the outbound message and the
/// reply that was streamed back.
#[derive(Debug)]
pub struct Exchange {
    pub topic_id: u32,
    pub user_text: String,
    pub created_at: u64,
    pub reply_text: String,
    pub reply_time: u64,
}

/// An [`Exchange`] as plain values.
pub struct ExchangeView {
    pub topic_id: u32,
    pub user_text: Seq<char>,
    pub created_at: u64,
    pub reply_text: Seq<char>,
    pub reply_time: u64,
}

impl View for Exchange {
    type V = ExchangeView;

    open spec fn view(&self) -> ExchangeView {
        ExchangeView {
            topic_id: self.topic_id,
            user_text: self.user_text@,
            created_at: self.created_at,
            reply_text: self.reply_text@,
            reply_time: self.reply_time,
        }
    }
}

/// What the surroundings report to the controller.
#[derive(Debug)]
pub enum Event {
    /// The caller asks for the exchange to begin.
    Start,
    /// The request was issued.
    Opened,
    /// The request could not be issued.
    OpenFailed(String),
    /// The stream parser yielded a frame.
    Frame(Frame),
    /// The payload handed out for decoding is this delta frame.
    Decoded(MessageChunk),
    /// The payload handed out for decoding is malformed.
    DecodeFailed(String),
    /// The subscriber took the delivery.
    Delivered,
    /// The subscriber refused the delivery.
    DeliveryFailed(String),
    /// The cancellation signal was polled and read as given.
    Cancel(bool),
    /// The exchange was stored; the user message got this id.
    Saved(u32),
    /// The exchange could not be stored.
    SaveFailed(String),
    /// The transport stream was released.
    Closed,
    /// The cancellation signal is no longer subscribed to.
    Unsubscribed,
}

/// An [`Event`] as plain values.
pub enum EventView {
    Start,
    Opened,
    OpenFailed(Seq<char>),
    Frame(FrameView),
    Decoded(MessageChunk),
    DecodeFailed(Seq<char>),
    Delivered,
    DeliveryFailed(Seq<char>),
    Cancel(bool),
    Saved(u32),
    SaveFailed(Seq<char>),
    Closed,
    Unsubscribed,
}

impl View for Event {
    type V = EventView;

    open spec fn view(&self) -> EventView {
        match *self {
            Event::Start => EventView::Start,
            Event::Opened => EventView::Opened,
            Event::OpenFailed(d) => EventView::OpenFailed(d@),
            Event::Frame(f) => EventView::Frame(f@),
            Event::Decoded(c) => EventView::Decoded(c),
            Event::DecodeFailed(d) => EventView::DecodeFailed(d@),
            Event::Delivered => EventView::Delivered,
            Event::DeliveryFailed(d) => EventView::DeliveryFailed(d@),
            Event::Cancel(b) => EventView::Cancel(b),
            Event::Saved(id) => EventView::Saved(id),
            Event::SaveFailed(d) => EventView::SaveFailed(d@),
            Event::Closed => EventView::Closed,
            Event::Unsubscribed => EventView::Unsubscribed,
        }
    }
}

/// What the controller asks the surroundings to do next.
#[derive(Debug)]
pub enum Action {
    /// Subscribe to the cancellation signal and issue the request.
    Open,
    /// Await the next frame of the stream.
    Next,
    /// Decode this payload as a delta frame.
    Decode(String),
    /// Hand this delta frame to the subscriber.
    Deliver(MessageChunk),
    /// Tell the subscriber that the reply is complete.
    DeliverDone,
    /// Read the cancellation signal.
    PollCancel,
    /// Store this exchange on one pooled connection.
    Save(Exchange),
    /// Release the transport stream.
    Close,
    /// Unsubscribe from the cancellation signal.
    Unsubscribe,
    /// Return this result to the caller; nothing is left to do.
    Finish(Result<u32, SessionError>),
}

/// An [`Action`] as plain values.
pub enum ActionView {
    Open,
    Next,
    Decode(Seq<char>),
    Deliver(MessageChunk),
    DeliverDone,
    PollCancel,
    Save(ExchangeView),
    Close,
    Unsubscribe,
    Finish(Result<u32, SessionErrorView>),
}

impl View for Action {
    type V = ActionView;

    open spec fn view(&self) -> ActionView {
        match *self {
            Action::Open => ActionView::Open,
            Action::Next => ActionView::Next,
            Action::Decode(p) => ActionView::Decode(p@),
            Action::Deliver(c) => ActionView::Deliver(c),
            Action::DeliverDone => ActionView::DeliverDone,
            Action::PollCancel => ActionView::PollCancel,
            Action::Save(x) => ActionView::Save(x@),
            Action::Close => ActionView::Close,
            Action::Unsubscribe => ActionView::Unsubscribe,
            Action::Finish(r) => ActionView::Finish(
                match r {
                    Ok(id) => Ok(id),
                    Err(e) => Err(e@),
                },
            ),
        }
    }
}

/// Which report the controller waits for.
#[derive(Debug, Clone, Copy, PartialEq, Eq, Structural)]
pub enum Stage {
    /// Nothing has been asked for yet.
    Idle,
    /// The request is being issued.
    Requesting,
    /// The next frame is awaited.
    AwaitFrame,
    /// A payload is out for decoding.
    AwaitDecode,
    /// A delta frame, or the word that the reply is complete, is out for
    /// delivery.
    AwaitDelivery,
    /// The cancellation signal is being read.
    AwaitCancel,
    /// The exchange is out for storing.
    AwaitSave,
    /// The exchange is settled; the stream is being released.
    Closing,
    /// The cancellation signal is being unsubscribed from.
    Unsubscribing,
    /// The result has been handed back.
    Terminal,
}

/// The coarse state of an exchange.
#[derive(Debug, Clone, Copy, PartialEq, Eq, Structural)]
pub enum Phase {
    Idle,
    Requesting,
    /// Frames are being read and no sentinel has arrived.
    Streaming,
    /// The sentinel has arrived: the reply is being stored, or was.
    Completing,
    /// The exchange was cancelled, or its stream ended without sentinel.
    Aborting,
    /// The exchange failed.
    Failing,
    Terminal,
}

/// How an exchange ended, once that is decided.
#[derive(Debug)]
pub enum Outcome {
    /// Not decided yet.
    Pending,
    /// The reply completed and was stored under this user-message id.
    Completed(u32),
    /// The exchange was cancelled, or the stream ended without the sentinel.
    Aborted,
    /// The exchange failed.
    Failed(SessionError),
}

/// An [`Outcome`] as plain values.
pub enum OutcomeView {
    Pending,
    Completed(u32),
    Aborted,
    Failed(SessionErrorView),
}

impl View for Outcome {
    type V = OutcomeView;

    open spec fn view(&self) -> OutcomeView {
        match *self {
            Outcome::Pending => OutcomeView::Pending,
            Outcome::Completed(id) => OutcomeView::Completed(id),
            Outcome::Aborted => OutcomeView::Aborted,
            Outcome::Failed(e) => OutcomeView::Failed(e@),
        }
    }
}

impl OutcomeView {
    /// What the caller gets back: the id under which the exchange was
    /// stored, [`NO_ID`] where nothing was stored, or the failure.
    pub open spec fn result(self) -> Result<u32, SessionErrorView> {
        match self {
            OutcomeView::Pending => Ok(NO_ID),
            OutcomeView::Completed(id) => Ok(id),
            OutcomeView::Aborted => Ok(NO_ID),
            OutcomeView::Failed(e) => Err(e),
        }
    }
}

/// The text fragments of a reply joined in order, with nothing between them.
pub open spec fn join(parts: Seq<Seq<char>>) -> Seq<char>
    decreases parts.len(),
{
    if parts.len() == 0 {
        Seq::empty()
    } else {
        join(parts.drop_last()) + parts.last()
    }
}

/// The fragments that are not empty, in order.
pub open spec fn without_empty(parts: Seq<Seq<char>>) -> Seq<Seq<char>>
    decreases parts.len(),
{
    if parts.len() == 0 {
        Seq::empty()
    } else if parts.last().len() == 0 {
        without_empty(parts.drop_last())
    } else {
        without_empty(parts.drop_last()).push(parts.last())
    }
}

/// Joining all fragments gives what joining those that are not empty
/// gives.
pub proof fn lemma_join_skips_empty(parts: Seq<Seq<char>>)
    ensures
        join(parts) == join(without_empty(parts)),
    decreases parts.len(),
{
    if parts.len() > 0 {
        let rest = parts.drop_last();
        lemma_join_skips_empty(rest);
        if parts.last().len() == 0 {
            assert(join(rest) + parts.last() =~= join(rest));
        } else {
            let kept = without_empty(rest).push(parts.last());
            assert(kept.drop_last() =~= without_empty(rest));
            assert(kept.last() == parts.last());
        }
    }
}

/// The views of a list of texts.
pub open spec fn texts(parts: Seq<String>) -> Seq<Seq<char>> {
    Seq::new(parts.len(), |i: int| parts[i]@)
}

/// The controller's state as plain values.
pub struct SessionState {
    pub stage: Stage,
    pub topic_id: u32,
    pub user_text: Seq<char>,
    pub created_at: u64,
    /// The text fragments received so far, in order of arrival.
    pub parts: Seq<Seq<char>>,
    /// The generation time of the first decoded delta frame.
    pub reply_time: Option<u64>,
    /// Whether the sentinel has arrived.
    pub done_seen: bool,
    pub outcome: OutcomeView,
}

impl SessionState {
    /// The state before anything happened.
    pub open spec fn initial(topic_id: u32, user_text: Seq<char>, created_at: u64) -> SessionState {
        SessionState {
            stage: Stage::Idle,
            topic_id,
            user_text,
            created_at,
            parts: Seq::empty(),
            reply_time: None,
            done_seen: false,
            outcome: OutcomeView::Pending,
        }
    }

    /// The exchange that would be stored if the reply completed now.
    pub open spec fn exchange(self) -> ExchangeView {
        ExchangeView {
            topic_id: self.topic_id,
            user_text: self.user_text,
            created_at: self.created_at,
            reply_text: join(self.parts),
            reply_time: match self.reply_time {
                Some(t) => t,
                None => 0,
            },
        }
    }

    /// The coarse state.
    pub open spec fn phase(self) -> Phase {
        match self.stage {
            Stage::Idle => Phase::Idle,
            Stage::Requesting => Phase::Requesting,
            Stage::AwaitFrame | Stage::AwaitDecode | Stage::AwaitDelivery | Stage::AwaitCancel => {
                if self.done_seen {
                    Phase::Completing
                } else {
                    Phase::Streaming
                }
            },
            Stage::AwaitSave => Phase::Completing,
            Stage::Closing | Stage::Unsubscribing => match self.outcome {
                OutcomeView::Completed(_) => Phase::Completing,
                OutcomeView::Failed(_) => Phase::Failing,
                _ => Phase::Aborting,
            },
            Stage::Terminal => Phase::Terminal,
        }
    }

    /// The state once the exchange's fate is `outcome`: what is left is to
    /// release the stream and to unsubscribe.
    pub open spec fn settle(self, outcome: OutcomeView) -> (SessionState, ActionView) {
        (SessionState { stage: Stage::Closing, outcome, ..self }, ActionView::Close)
    }

    /// The state after a report that does not answer the work asked for.
    pub open spec fn violated(self) -> (SessionState, ActionView) {
        self.settle(OutcomeView::Failed(SessionErrorView::Protocol))
    }

    /// The state after a delta frame was decoded: the first frame's time is
    /// kept, and the frame's text fragment, if any, is appended.
    pub open spec fn absorb(self, chunk: MessageChunk) -> SessionState
        recommends
            chunk.has_delta(),
    {
        SessionState {
            stage: Stage::AwaitDelivery,
            reply_time: match self.reply_time {
                Some(t) => Some(t),
                None => Some(chunk.created),
            },
            parts: match chunk.delta().content {
                Some(text) => self.parts.push(text),
                None => self.parts,
            },
            ..self
        }
    }
}

/// The controller's rule: the state after `event`, and the work asked for.
pub open spec fn spec_step(s: SessionState, event: EventView) -> (SessionState, ActionView) {
    match s.stage {
        Stage::Idle => match event {
            EventView::Start => (SessionState { stage: Stage::Requesting, ..s }, ActionView::Open),
            _ => s.violated(),
        },
        Stage::Requesting => match event {
            EventView::Opened => (SessionState { stage: Stage::AwaitFrame, ..s }, ActionView::Next),
            EventView::OpenFailed(detail) => s.settle(
                OutcomeView::Failed(SessionErrorView::Transport(detail)),
            ),
            _ => s.violated(),
        },
        Stage::AwaitFrame => match event {
            EventView::Frame(FrameView::Open) => (
                SessionState { stage: Stage::AwaitCancel, ..s },
                ActionView::PollCancel,
            ),
            EventView::Frame(FrameView::Message(payload)) => if payload == DONE_SENTINEL@ {
                (
                    SessionState { stage: Stage::AwaitDelivery, done_seen: true, ..s },
                    ActionView::DeliverDone,
                )
            } else {
                (SessionState { stage: Stage::AwaitDecode, ..s }, ActionView::Decode(payload))
            },
            EventView::Frame(FrameView::StreamEnded) => s.settle(OutcomeView::Aborted),
            EventView::Frame(FrameView::TransportError(detail)) => s.settle(
                OutcomeView::Failed(SessionErrorView::Transport(detail)),
            ),
            _ => s.violated(),
        },
        Stage::AwaitDecode => match event {
            EventView::Decoded(chunk) => if chunk.has_delta() {
                (s.absorb(chunk), ActionView::Deliver(chunk))
            } else {
                s.settle(OutcomeView::Failed(SessionErrorView::Decode(NO_DELTA@)))
            },
            EventView::DecodeFailed(detail) => s.settle(
                OutcomeView::Failed(SessionErrorView::Decode(detail)),
            ),
            _ => s.violated(),
        },
        Stage::AwaitDelivery => match event {
            EventView::Delivered => (
                SessionState { stage: Stage::AwaitCancel, ..s },
                ActionView::PollCancel,
            ),
            EventView::DeliveryFailed(detail) => s.settle(
                OutcomeView::Failed(SessionErrorView::Subscriber(detail)),
            ),
            _ => s.violated(),
        },
        Stage::AwaitCancel => match event {
            EventView::Cancel(true) => s.settle(OutcomeView::Aborted),
            EventView::Cancel(false) => if s.done_seen {
                (SessionState { stage: Stage::AwaitSave, ..s }, ActionView::Save(s.exchange()))
            } else {
                (SessionState { stage: Stage::AwaitFrame, ..s }, ActionView::Next)
            },
            _ => s.violated(),
        },
        Stage::AwaitSave => match event {
            EventView::Saved(id) => s.settle(OutcomeView::Completed(id)),
            EventView::SaveFailed(detail) => s.settle(
                OutcomeView::Failed(SessionErrorView::Persistence(detail)),
            ),
            _ => s.violated(),
        },
        Stage::Closing => (
            SessionState { stage: Stage::Unsubscribing, ..s },
            ActionView::Unsubscribe,
        ),
        Stage::Unsubscribing => (
            SessionState { stage: Stage::Terminal, ..s },
            ActionView::Finish(s.outcome.result()),
        ),
        Stage::Terminal => (s, ActionView::Finish(s.outcome.result())),
    }
}

impl Stage {
    /// The exchange's fate is decided: what is left is to release the
    /// stream, to unsubscribe and to hand the result back.
    pub open spec fn settled(self) -> bool {
        self == Stage::Closing || self == Stage::Unsubscribing || self == Stage::Terminal
    }

    /// The controller has asked for the save, or is past it.
    pub open spec fn past_streaming(self) -> bool {
        self == Stage::AwaitSave || self.settled()
    }
}

/// No exit without unsubscribing: whatever is reported, the controller
/// hands a result back only on reaching the terminal stage, it reaches
/// that stage only from the stage in which it awaits the unsubscribing,
/// and it gets there only by asking to unsubscribe, after asking to
/// release the stream.
pub proof fn law_exit_unsubscribes(s: SessionState, event: EventView)
    ensures
        ({
            let (next, action) = spec_step(s, event);
            &&& action is Finish ==> next.stage == Stage::Terminal
            &&& next.stage == Stage::Terminal && s.stage != Stage::Terminal ==> s.stage
                == Stage::Unsubscribing
            &&& next.stage == Stage::Unsubscribing ==> s.stage == Stage::Closing && action
                == ActionView::Unsubscribe
            &&& next.stage == Stage::Closing ==> action == ActionView::Close
        }),
{
}

/// Once the exchange's fate is decided, three reports of any kind bring
/// the controller to the terminal stage, where it hands back the result
/// decided.
pub proof fn law_settled_finishes(s: SessionState, e1: EventView, e2: EventView, e3: EventView)
    requires
        s.stage.settled(),
    ensures
        ({
            let s3 = spec_step(spec_step(spec_step(s, e1).0, e2).0, e3);
            s3.0.stage == Stage::Terminal && s3.1 == ActionView::Finish(s.outcome.result())
        }),
{
}

/// The save is asked for at most once, and only for a reply that the
/// sentinel completed and no cancellation preceded: the controller asks
/// for it only on a poll that reads the signal as not fired, after the
/// sentinel, with the exchange as gathered; and once it has asked, it
/// never streams or asks again.
pub proof fn law_save_once(s: SessionState, event: EventView)
    ensures
        ({
            let (next, action) = spec_step(s, event);
            &&& action is Save ==> s.stage == Stage::AwaitCancel && s.done_seen && event
                == EventView::Cancel(false) && next.stage == Stage::AwaitSave && action
                == ActionView::Save(s.exchange())
            &&& s.stage.past_streaming() ==> next.stage.settled() && !(action is Save)
            &&& next.outcome is Completed && !(s.outcome is Completed) ==> s.stage
                == Stage::AwaitSave && event is Saved
        }),
{
}

/// Joins text fragments in order, with nothing between them.
pub fn join_parts(parts: &Vec<String>) -> (r: String)
    ensures
        r@ == join(texts(parts@)),
{
    let mut r = String::new();
    let mut i: usize = 0;
    while i < parts.len()
        invariant
            i <= parts.len(),
            r@ == join(texts(parts@).take(i as int)),
        decreases parts.len() - i,
    {
        r.append(parts[i].as_str());
        proof {
            let all = texts(parts@);
            assert(all.take(i + 1).drop_last() =~= all.take(i as int));
            assert(all.take(i + 1).last() == parts@[i as int]@);
        }
        i = i + 1;
    }
    proof {
        assert(texts(parts@).take(i as int) =~= texts(parts@));
    }
    r
}

/// The controller of one streamed exchange.
#[derive(Debug)]
pub struct StreamSession {
    stage: Stage,
    topic_id: u32,
    user_text: String,
    created_at: u64,
    parts: Vec<String>,
    reply_time: Option<u64>,
    done_seen: bool,
    outcome: Outcome,
}

impl View for StreamSession {
    type V = SessionState;

    closed spec fn view(&self) -> SessionState {
        SessionState {
            stage: self.stage,
            topic_id: self.topic_id,
            user_text: self.user_text@,
            created_at: self.created_at,
            parts: texts(self.parts@),
            reply_time: self.reply_time,
            done_seen: self.done_seen,
            outcome: self.outcome@,
        }
    }
}

impl StreamSession {
    /// A controller for an exchange under `topic_id` whose outbound message
    /// is `user_text`, sent at `created_at`.
    pub fn new(topic_id: u32, user_text: &str, created_at: u64) -> (r: StreamSession)
        ensures
            r@ == SessionState::initial(topic_id, user_text@, created_at),
    {
        let r = StreamSession {
            stage: Stage::Idle,
            topic_id,
            user_text: String::from_str(user_text),
            created_at,
            parts: Vec::new(),
            reply_time: None,
            done_seen: false,
            outcome: Outcome::Pending,
        };
        assert(texts(r.parts@) =~= Seq::empty());
        r
    }

    /// A controller for sending the last of `messages` under `topic_id` at
    /// `created_at`. There is none for an empty conversation.
    pub fn for_messages(topic_id: u32, messages: &Vec<Message>, created_at: u64) -> (r: Option<
        StreamSession,
    >)
        ensures
            messages.len() == 0 ==> r is None,
            messages.len() > 0 ==> (r matches Some(session) && session@ == SessionState::initial(
                topic_id,
                messages[messages.len() - 1].content@,
                created_at,
            )),
    {
        match outbound_text(messages) {
            Some(text) => Some(Self::new(topic_id, text.as_str(), created_at)),
            None => None,
        }
    }

    /// Which report the controller waits for.
    pub fn stage(&self) -> (r: Stage)
        ensures
            r == self@.stage,
    {
        self.stage
    }

    /// The coarse state of the exchange.
    pub fn phase(&self) -> (r: Phase)
        ensures
            r == self@.phase(),
    {
        match self.stage {
            Stage::Idle => Phase::Idle,
            Stage::Requesting => Phase::Requesting,
            Stage::AwaitFrame | Stage::AwaitDecode | Stage::AwaitDelivery | Stage::AwaitCancel => {
                if self.done_seen {
                    Phase::Completing
                } else {
                    Phase::Streaming
                }
            },
            Stage::AwaitSave => Phase::Completing,
            Stage::Closing | Stage::Unsubscribing => match &self.outcome {
                Outcome::Completed(_) => Phase::Completing,
                Outcome::Failed(_) => Phase::Failing,
                _ => Phase::Aborting,
            },
            Stage::Terminal => Phase::Terminal,
        }
    }

    /// The reply text received so far.
    pub fn reply_so_far(&self) -> (r: String)
        ensures
            r@ == join(self@.parts),
    {
        join_parts(&self.parts)
    }

    fn settle(&mut self, outcome: Outcome) -> (action: Action)
        ensures
            (final(self)@, action@) == old(self)@.settle(outcome@),
    {
        self.stage = Stage::Closing;
        self.outcome = outcome;
        Action::Close
    }

    fn result(&self) -> (r: Result<u32, SessionError>)
        ensures
            Action::Finish(r)@ == ActionView::Finish(self@.outcome.result()),
    {
        match &self.outcome {
            Outcome::Pending => Ok(NO_ID),
            Outcome::Completed(id) => Ok(*id),
            Outcome::Aborted => Ok(NO_ID),
            Outcome::Failed(e) => Err(e.duplicate()),
        }
    }

    fn exchange(&self) -> (r: Exchange)
        ensures
            r@ == self@.exchange(),
    {
        Exchange {
            topic_id: self.topic_id,
            user_text: self.user_text.clone(),
            created_at: self.created_at,
            reply_text: join_parts(&self.parts),
            reply_time: match self.reply_time {
                Some(t) => t,
                None => 0,
            },
        }
    }

    fn absorb(&mut self, chunk: &MessageChunk)
        requires
            chunk.has_delta(),
        ensures
            final(self)@ == old(self)@.absorb(*chunk),
    {
        if self.reply_time.is_none() {
            self.reply_time = Some(chunk.created);
        }
        match chunk.fragment() {
            Some(text) => {
                self.parts.push(text.clone());
                assert(texts(self.parts@) =~= texts(old(self).parts@).push(text@));
            },
            None => {},
        }
        self.stage = Stage::AwaitDelivery;
    }

    /// Takes one report and answers with the next piece of work, as
    /// [`spec_step`] lays down.
    pub fn step(&mut self, event: Event) -> (action: Action)
        ensures
            (final(self)@, action@) == spec_step(old(self)@, event@),
    {
        match self.stage {
            Stage::Idle => match event {
                Event::Start => {
                    self.stage = Stage::Requesting;
                    Action::Open
                },
                _ => self.settle(Outcome::Failed(SessionError::Protocol)),
            },
            Stage::Requesting => match event {
                Event::Opened => {
                    self.stage = Stage::AwaitFrame;
                    Action::Next
                },
                Event::OpenFailed(detail) => self.settle(
                    Outcome::Failed(SessionError::Transport(detail)),
                ),
                _ => self.settle(Outcome::Failed(SessionError::Protocol)),
            },
            Stage::AwaitFrame => match event {
                Event::Frame(Frame::Open) => {
                    self.stage = Stage::AwaitCancel;
                    Action::PollCancel
                },
                Event::Frame(Frame::Message(payload)) => {
                    if text_eq(payload.as_str(), DONE_SENTINEL) {
                        self.stage = Stage::AwaitDelivery;
                        self.done_seen = true;
                        Action::DeliverDone
                    } else {
                        self.stage = Stage::AwaitDecode;
                        Action::Decode(payload)
                    }
                },
                Event::Frame(Frame::StreamEnded) => self.settle(Outcome::Aborted),
                Event::Frame(Frame::TransportError(detail)) => self.settle(
                    Outcome::Failed(SessionError::Transport(detail)),
                ),
                _ => self.settle(Outcome::Failed(SessionError::Protocol)),
            },
            Stage::AwaitDecode => match event {
                Event::Decoded(chunk) => {
                    if chunk.choices.len() > 0 {
                        self.absorb(&chunk);
                        Action::Deliver(chunk)
                    } else {
                        self.settle(
                            Outcome::Failed(SessionError::Decode(String::from_str(NO_DELTA))),
                        )
                    }
                },
                Event::DecodeFailed(detail) => self.settle(
                    Outcome::Failed(SessionError::Decode(detail)),
                ),
                _ => self.settle(Outcome::Failed(SessionError::Protocol)),
            },
            Stage::AwaitDelivery => match event {
                Event::Delivered => {
                    self.stage = Stage::AwaitCancel;
                    Action::PollCancel
                },
                Event::DeliveryFailed(detail) => self.settle(
                    Outcome::Failed(SessionError::Subscriber(detail)),
                ),
                _ => self.settle(Outcome::Failed(SessionError::Protocol)),
            },
            Stage::AwaitCancel => match event {
                Event::Cancel(true) => self.settle(Outcome::Aborted),
                Event::Cancel(false) => {
                    if self.done_seen {
                        let exchange = self.exchange();
                        self.stage = Stage::AwaitSave;
                        Action::Save(exchange)
                    } else {
                        self.stage = Stage::AwaitFrame;
                        Action::Next
                    }
                },
                _ => self.settle(Outcome::Failed(SessionError::Protocol)),
            },
            Stage::AwaitSave => match event {
                Event::Saved(id) => self.settle(Outcome::Completed(id)),
                Event::SaveFailed(detail) => self.settle(
                    Outcome::Failed(SessionError::Persistence(detail)),
                ),
                _ => self.settle(Outcome::Failed(SessionError::Protocol)),
            },
            Stage::Closing => {
                self.stage = Stage::Unsubscribing;
                Action::Unsubscribe
            },
            Stage::Unsubscribing => {
                let r = self.result();
                self.stage = Stage::Terminal;
                Action::Finish(r)
            },
            Stage::Terminal => {
                let r = self.result();
                Action::Finish(r)
            },
        }
    }
}

/// The exchange that a whole reply completes: the last of `messages` as
/// sent at `created_at` under `topic_id`, answered by the response's first
/// alternative at the time the response reports.
pub open spec fn spec_exchange_of_response(
    topic_id: u32,
    messages: Seq<Message>,
    created_at: u64,
    response: ChatGPTResponse,
) -> Option<ExchangeView> {
    if messages.len() > 0 && response.choices@.len() > 0 {
        Some(
            ExchangeView {
                topic_id,
                user_text: messages.last().content@,
                created_at,
                reply_text: response.choices@[0].message.content@,
                reply_time: response.created,
            },
        )
    } else {
        None
    }
}

/// The exchange that a whole reply completes. There is none where the
/// conversation is empty or the response carries no alternative.
pub fn exchange_of_response(
    topic_id: u32,
    messages: &Vec<Message>,
    created_at: u64,
    response: &ChatGPTResponse,
) -> (r: Option<Exchange>)
    ensures
        match spec_exchange_of_response(topic_id, messages@, created_at, *response) {
            Some(expected) => r matches Some(x) && x@ == expected,
            None => r is None,
        },
{
    match (outbound_text(messages), response.reply()) {
        (Some(text), Some(reply)) => Some(
            Exchange {
                topic_id,
                user_text: text.clone(),
                created_at,
                reply_text: reply.content.clone(),
                reply_time: response.created,
            },
        ),
        _ => None,
    }
}

} // verus!
