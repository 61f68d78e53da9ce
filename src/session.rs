//! The subscription session: the decisions of one stream's receive loop.
//!
//! The session is driven from outside: the caller's `close` requests, the
//! messages the transport yields, and the way its stream ends all come in as
//! calls, and each call answers with what is to be done (a message to hand to
//! the consumer, a terminal notification, a cancellation to signal). `step`
//! states these answers; the laws below hold of every sequence of events.
use vstd::prelude::*;

use crate::entry::{DecodeError, DecodedShredstreamEntry, Entry};
use crate::request::{is_wire_request, lemma_empty_request_wire, SubscribeRequest, WireSubscribeRequest};
use crate::update::{SubscribeUpdate, UpdateOneof};

verus! {

/// Lifecycle of a session. `Closed` is final.
#[derive(Clone, Copy, Debug, PartialEq, Eq, Structural)]
pub enum SessionState {
    Idle,
    Streaming,
    Closing,
    Closed,
}

/// How the transport's stream ended.
#[derive(Clone, Debug, PartialEq, Eq)]
pub enum StreamEnd {
    /// The peer ended the stream.
    Completed,
    /// The stream failed, for the reason given.
    Error(String),
    /// The transport acknowledged a cancellation.
    Cancelled,
}

/// The single terminal notification of a session.
#[derive(Clone, Debug, PartialEq, Eq)]
pub enum Termination {
    Completed,
    Failed(String),
    Cancelled,
}

/// What the per-message callback receives.
#[derive(Clone, Debug, PartialEq, Eq)]
pub enum Delivery {
    /// A message, as it came.
    Update(SubscribeUpdate),
    /// An entry batch, decoded.
    Entries(DecodedShredstreamEntry),
    /// An entry batch that could not be decoded; the session goes on.
    DecodeError(DecodeError),
}

/// The transport could not open the stream.
#[derive(Clone, Debug, PartialEq, Eq)]
pub struct ConnectionError {
    pub reason: String,
}

/// One thing that happens to a session.
#[derive(Clone, Debug, PartialEq, Eq)]
pub enum SessionEvent {
    /// The caller asked to close.
    Close,
    /// The transport yielded a message.
    Message(SubscribeUpdate),
    /// The transport's stream ended.
    End(StreamEnd),
}

/// One thing a session does in answer to an event.
#[derive(Clone, Debug, PartialEq, Eq)]
pub enum SessionAction {
    /// Invoke the per-message callback for this message.
    Deliver(SubscribeUpdate),
    /// Deliver the terminal notification.
    Terminate(Termination),
    /// Tell the transport to cancel the stream.
    CancelTransport,
}

/// The terminal notification for a stream that ended on its own.
pub open spec fn termination_of(end: StreamEnd) -> Termination {
    match end {
        StreamEnd::Completed => Termination::Completed,
        StreamEnd::Error(reason) => Termination::Failed(reason),
        StreamEnd::Cancelled => Termination::Cancelled,
    }
}

/// The next state and the actions that answer event `e` in state `s`.
///
/// Messages are handed on only while streaming. A close request while
/// streaming asks the transport to cancel; anywhere else it does nothing. The
/// stream's end closes the session with one terminal notification: the one
/// the end stands for, or `Cancelled` where a close request came first.
pub open spec fn step(s: SessionState, e: SessionEvent) -> (SessionState, Seq<SessionAction>) {
    match e {
        SessionEvent::Close => if s == SessionState::Streaming {
            (SessionState::Closing, seq![SessionAction::CancelTransport])
        } else {
            (s, Seq::empty())
        },
        SessionEvent::Message(m) => if s == SessionState::Streaming {
            (s, seq![SessionAction::Deliver(m)])
        } else {
            (s, Seq::empty())
        },
        SessionEvent::End(end) => if s == SessionState::Streaming {
            (SessionState::Closed, seq![SessionAction::Terminate(termination_of(end))])
        } else if s == SessionState::Closing {
            (SessionState::Closed, seq![SessionAction::Terminate(Termination::Cancelled)])
        } else {
            (s, Seq::empty())
        },
    }
}

/// The state after the events `evs`, starting in `s`, and all actions taken on the way.
pub open spec fn run(s: SessionState, evs: Seq<SessionEvent>) -> (SessionState, Seq<SessionAction>)
    decreases evs.len(),
{
    if evs.len() == 0 {
        (s, Seq::empty())
    } else {
        let first = step(s, evs[0]);
        let rest = run(first.0, evs.drop_first());
        (rest.0, first.1 + rest.1)
    }
}

/// The terminal notifications among `acts`, in order.
pub open spec fn terminations(acts: Seq<SessionAction>) -> Seq<Termination>
    decreases acts.len(),
{
    if acts.len() == 0 {
        Seq::empty()
    } else {
        let rest = terminations(acts.drop_first());
        match acts[0] {
            SessionAction::Terminate(t) => seq![t] + rest,
            _ => rest,
        }
    }
}

/// The messages handed to the per-message callback among `acts`, in order.
pub open spec fn deliveries(acts: Seq<SessionAction>) -> Seq<SubscribeUpdate>
    decreases acts.len(),
{
    if acts.len() == 0 {
        Seq::empty()
    } else {
        let rest = deliveries(acts.drop_first());
        match acts[0] {
            SessionAction::Deliver(m) => seq![m] + rest,
            _ => rest,
        }
    }
}

/// The terminal notification owed once `evs` have happened to a session that
/// streams, where `close_requested` says whether the caller has already asked
/// to close: the first end of the stream decides, and a close request that
/// came before it makes the notification `Cancelled`.
pub open spec fn owed_termination(close_requested: bool, evs: Seq<SessionEvent>) -> Option<
    Termination,
>
    decreases evs.len(),
{
    if evs.len() == 0 {
        None
    } else {
        match evs[0] {
            SessionEvent::Close => owed_termination(true, evs.drop_first()),
            SessionEvent::Message(_) => owed_termination(close_requested, evs.drop_first()),
            SessionEvent::End(end) => Some(
                if close_requested {
                    Termination::Cancelled
                } else {
                    termination_of(end)
                },
            ),
        }
    }
}

/// The messages of `evs` that come before the first close request or end of stream.
pub open spec fn messages_before_stop(evs: Seq<SessionEvent>) -> Seq<SubscribeUpdate>
    decreases evs.len(),
{
    if evs.len() == 0 {
        Seq::empty()
    } else {
        match evs[0] {
            SessionEvent::Message(m) => seq![m] + messages_before_stop(evs.drop_first()),
            _ => Seq::empty(),
        }
    }
}

pub open spec fn option_seq<T>(o: Option<T>) -> Seq<T> {
    match o {
        Some(t) => seq![t],
        None => Seq::empty(),
    }
}

/// The state after the transport answered a request to open the stream:
/// an idle session streams once the stream is open.
pub open spec fn connect_step(s: SessionState, opened: bool) -> SessionState {
    if s == SessionState::Idle && opened {
        SessionState::Streaming
    } else {
        s
    }
}

/// The batch slot of a message that carries an entry batch.
pub open spec fn batch_slot(m: SubscribeUpdate) -> Option<u64> {
    match m.update_oneof {
        Some(UpdateOneof::EntryBatch(b)) => Some(b.slot),
        _ => None,
    }
}

/// What the per-message callback receives for `m`. A session that decodes
/// batches hands on, for a batch whose decoding outcome is given, the decoded
/// entries or the decoding error, under the batch's slot; every other message
/// goes on as it came.
pub open spec fn delivery_for(
    auto_decode: bool,
    m: SubscribeUpdate,
    decoded: Option<Result<Vec<Entry>, String>>,
) -> Delivery {
    match batch_slot(m) {
        Some(slot) => if auto_decode {
            match decoded {
                Some(Ok(entries)) => Delivery::Entries(DecodedShredstreamEntry { slot, entries }),
                Some(Err(reason)) => Delivery::DecodeError(DecodeError { slot, reason }),
                None => Delivery::Update(m),
            }
        } else {
            Delivery::Update(m)
        },
        None => Delivery::Update(m),
    }
}

proof fn lemma_terminations_append(a: Seq<SessionAction>, b: Seq<SessionAction>)
    ensures
        terminations(a + b) == terminations(a) + terminations(b),
    decreases a.len(),
{
    if a.len() == 0 {
        assert(a + b =~= b);
        assert(terminations(a) + terminations(b) =~= terminations(b));
    } else {
        assert((a + b).drop_first() =~= a.drop_first() + b);
        assert((a + b)[0] == a[0]);
        lemma_terminations_append(a.drop_first(), b);
        match a[0] {
            SessionAction::Terminate(t) => {
                assert(seq![t] + (terminations(a.drop_first()) + terminations(b)) =~= (seq![t]
                    + terminations(a.drop_first())) + terminations(b));
            },
            _ => {},
        }
    }
}

proof fn lemma_deliveries_append(a: Seq<SessionAction>, b: Seq<SessionAction>)
    ensures
        deliveries(a + b) == deliveries(a) + deliveries(b),
    decreases a.len(),
{
    if a.len() == 0 {
        assert(a + b =~= b);
        assert(deliveries(a) + deliveries(b) =~= deliveries(b));
    } else {
        assert((a + b).drop_first() =~= a.drop_first() + b);
        assert((a + b)[0] == a[0]);
        lemma_deliveries_append(a.drop_first(), b);
        match a[0] {
            SessionAction::Deliver(m) => {
                assert(seq![m] + (deliveries(a.drop_first()) + deliveries(b)) =~= (seq![m]
                    + deliveries(a.drop_first())) + deliveries(b));
            },
            _ => {},
        }
    }
}

/// Once closed, a session stays closed and does nothing more, whatever happens.
pub proof fn lemma_closed_is_final(evs: Seq<SessionEvent>)
    ensures
        run(SessionState::Closed, evs) == (SessionState::Closed, Seq::<SessionAction>::empty()),
    decreases evs.len(),
{
    if evs.len() > 0 {
        lemma_closed_is_final(evs.drop_first());
        assert(Seq::<SessionAction>::empty() + Seq::<SessionAction>::empty() =~= Seq::<
            SessionAction,
        >::empty());
    }
}

/// Closing is idempotent: a close request on a session that is closing or
/// closed changes nothing and produces no notification.
pub proof fn lemma_close_idempotent(s: SessionState)
    requires
        s == SessionState::Closing || s == SessionState::Closed,
    ensures
        step(s, SessionEvent::Close) == (s, Seq::<SessionAction>::empty()),
        run(s, seq![SessionEvent::Close, SessionEvent::Close]) == (
            s,
            Seq::<SessionAction>::empty(),
        ),
{
    reveal_with_fuel(run, 3);
    let evs = seq![SessionEvent::Close, SessionEvent::Close];
    assert(evs.drop_first() =~= seq![SessionEvent::Close]);
    assert(evs.drop_first().drop_first() =~= Seq::<SessionEvent>::empty());
    assert(Seq::<SessionAction>::empty() + Seq::<SessionAction>::empty() =~= Seq::<
        SessionAction,
    >::empty());
}

proof fn lemma_one_action(a: SessionAction)
    ensures
        terminations(Seq::<SessionAction>::empty()) == Seq::<Termination>::empty(),
        deliveries(Seq::<SessionAction>::empty()) == Seq::<SubscribeUpdate>::empty(),
        terminations(seq![a]) == match a {
            SessionAction::Terminate(t) => seq![t],
            _ => Seq::<Termination>::empty(),
        },
        deliveries(seq![a]) == match a {
            SessionAction::Deliver(m) => seq![m],
            _ => Seq::<SubscribeUpdate>::empty(),
        },
{
    assert(seq![a].drop_first() =~= Seq::<SessionAction>::empty());
    assert(terminations(Seq::<SessionAction>::empty()) =~= Seq::<Termination>::empty());
    assert(deliveries(Seq::<SessionAction>::empty()) =~= Seq::<SubscribeUpdate>::empty());
    match a {
        SessionAction::Terminate(t) => {
            assert(seq![t] + Seq::<Termination>::empty() =~= seq![t]);
        },
        SessionAction::Deliver(m) => {
            assert(seq![m] + Seq::<SubscribeUpdate>::empty() =~= seq![m]);
        },
        _ => {},
    }
}

proof fn lemma_terminations_from(s: SessionState, evs: Seq<SessionEvent>)
    requires
        s == SessionState::Streaming || s == SessionState::Closing,
    ensures
        terminations(run(s, evs).1) == option_seq(
            owed_termination(s == SessionState::Closing, evs),
        ),
        (run(s, evs).0 == SessionState::Closed) == (owed_termination(
            s == SessionState::Closing,
            evs,
        ) is Some),
    decreases evs.len(),
{
    lemma_one_action(SessionAction::CancelTransport);
    if evs.len() > 0 {
        let first = step(s, evs[0]);
        let rest = evs.drop_first();
        lemma_terminations_append(first.1, run(first.0, rest).1);
        if first.1.len() > 0 {
            assert(first.1 =~= seq![first.1[0]]);
            lemma_one_action(first.1[0]);
        } else {
            assert(first.1 =~= Seq::<SessionAction>::empty());
        }
        match evs[0] {
            SessionEvent::End(end) => {
                lemma_closed_is_final(rest);
                let t = if s == SessionState::Closing {
                    Termination::Cancelled
                } else {
                    termination_of(end)
                };
                assert(seq![t] + Seq::<Termination>::empty() =~= seq![t]);
            },
            _ => {
                lemma_terminations_from(first.0, rest);
                assert(Seq::<Termination>::empty() + terminations(run(first.0, rest).1)
                    =~= terminations(run(first.0, rest).1));
            },
        }
    }
}

/// Exactly-once termination: whatever the order of transport events and
/// close requests, a streaming session delivers at most one terminal
/// notification. It delivers one exactly when it ends up closed, and its kind
/// is that of the first end of the stream, or `Cancelled` where the caller
/// asked to close before that end.
pub proof fn lemma_exactly_once_termination(evs: Seq<SessionEvent>)
    ensures
        terminations(run(SessionState::Streaming, evs).1) == option_seq(
            owed_termination(false, evs),
        ),
        terminations(run(SessionState::Streaming, evs).1).len() <= 1,
        (run(SessionState::Streaming, evs).0 == SessionState::Closed) == (terminations(
            run(SessionState::Streaming, evs).1,
        ).len() == 1),
{
    lemma_terminations_from(SessionState::Streaming, evs);
}

proof fn lemma_deliveries_from(s: SessionState, evs: Seq<SessionEvent>)
    requires
        s == SessionState::Streaming || s == SessionState::Closing,
    ensures
        deliveries(run(s, evs).1) == if s == SessionState::Streaming {
            messages_before_stop(evs)
        } else {
            Seq::<SubscribeUpdate>::empty()
        },
    decreases evs.len(),
{
    lemma_one_action(SessionAction::CancelTransport);
    if evs.len() > 0 {
        let first = step(s, evs[0]);
        let rest = evs.drop_first();
        lemma_deliveries_append(first.1, run(first.0, rest).1);
        if first.1.len() > 0 {
            assert(first.1 =~= seq![first.1[0]]);
            lemma_one_action(first.1[0]);
        } else {
            assert(first.1 =~= Seq::<SessionAction>::empty());
        }
        match evs[0] {
            SessionEvent::End(_) => {
                lemma_closed_is_final(rest);
                assert(Seq::<SubscribeUpdate>::empty() + Seq::<SubscribeUpdate>::empty()
                    =~= Seq::<SubscribeUpdate>::empty());
            },
            _ => {
                lemma_deliveries_from(first.0, rest);
                assert(Seq::<SubscribeUpdate>::empty() + Seq::<SubscribeUpdate>::empty()
                    =~= Seq::<SubscribeUpdate>::empty());
            },
        }
    }
}

/// Order preservation: a streaming session hands the per-message callback
/// exactly the messages that arrive before the first close request or end of
/// stream, in the order the transport yielded them; for a stream of messages
/// alone, that is every message, in order.
pub proof fn lemma_order_preserved(evs: Seq<SessionEvent>, msgs: Seq<SubscribeUpdate>)
    ensures
        deliveries(run(SessionState::Streaming, evs).1) == messages_before_stop(evs),
        deliveries(
            run(SessionState::Streaming, msgs.map_values(|m| SessionEvent::Message(m))).1,
        ) == msgs,
{
    lemma_deliveries_from(SessionState::Streaming, evs);
    let mevs = msgs.map_values(|m| SessionEvent::Message(m));
    lemma_deliveries_from(SessionState::Streaming, mevs);
    lemma_messages_only(msgs);
}

proof fn lemma_messages_only(msgs: Seq<SubscribeUpdate>)
    ensures
        messages_before_stop(msgs.map_values(|m| SessionEvent::Message(m))) == msgs,
    decreases msgs.len(),
{
    let mevs = msgs.map_values(|m| SessionEvent::Message(m));
    if msgs.len() > 0 {
        lemma_messages_only(msgs.drop_first());
        assert(mevs.drop_first() =~= msgs.drop_first().map_values(|m| SessionEvent::Message(m)));
        assert(seq![msgs[0]] + msgs.drop_first() =~= msgs);
    } else {
        assert(msgs =~= Seq::<SubscribeUpdate>::empty());
    }
}

/// The terminal notification is the last thing a session does: no action
/// follows it, whatever happens afterwards.
pub proof fn lemma_termination_is_last(s: SessionState, evs: Seq<SessionEvent>, i: int)
    requires
        0 <= i < run(s, evs).1.len(),
        run(s, evs).1[i] is Terminate,
    ensures
        i == run(s, evs).1.len() - 1,
        run(s, evs).0 == SessionState::Closed,
    decreases evs.len(),
{
    let first = step(s, evs[0]);
    let rest = evs.drop_first();
    let acts = run(s, evs).1;
    assert(acts == first.1 + run(first.0, rest).1);
    if i < first.1.len() {
        assert(first.1[i] is Terminate);
        assert(first.0 == SessionState::Closed);
        lemma_closed_is_final(rest);
    } else {
        assert(run(first.0, rest).1[i - first.1.len()] is Terminate);
        lemma_termination_is_last(first.0, rest, i - first.1.len());
    }
}

/// An all-empty request subscribes like any other: opening a session on it
/// asks the transport for a stream with no group and no setting, and the
/// session streams as soon as the transport has opened that stream.
pub proof fn lemma_empty_request_streams(r: SubscribeRequest, w: WireSubscribeRequest)
    requires
        r.is_empty(),
        is_wire_request(w, r),
    ensures
        w.accounts@.len() == 0 && w.slots@.len() == 0 && w.transactions@.len() == 0,
        w.transactions_status@.len() == 0 && w.blocks@.len() == 0 && w.blocks_meta@.len() == 0,
        w.entry@.len() == 0 && w.accounts_data_slice@.len() == 0,
        w.commitment is None && w.ping is None && w.from_slot is None,
        connect_step(SessionState::Idle, true) == SessionState::Streaming,
{
    lemma_empty_request_wire(r, w);
}

/// The decisions of one subscription's receive loop.
pub struct Session {
    state: SessionState,
    auto_decode: bool,
}

impl Session {
    /// The session's lifecycle state.
    pub closed spec fn phase(&self) -> SessionState {
        self.state
    }

    /// Whether the session decodes entry batches before handing them on.
    pub closed spec fn decodes(&self) -> bool {
        self.auto_decode
    }

    /// A session that has not opened a stream yet.
    pub fn new(auto_decode: bool) -> (r: Session)
        ensures
            r.phase() == SessionState::Idle,
            r.decodes() == auto_decode,
    {
        Session { state: SessionState::Idle, auto_decode }
    }

    /// Starts a session on `request`: any request is accepted, the empty one
    /// too. Returns the session, not yet streaming, and the wire request that
    /// the transport is to open the stream with.
    pub fn open(request: SubscribeRequest, auto_decode: bool) -> (r: (Session, WireSubscribeRequest))
        ensures
            r.0.phase() == SessionState::Idle,
            r.0.decodes() == auto_decode,
            is_wire_request(r.1, request),
    {
        (Session::new(auto_decode), request.to_wire())
    }

    pub fn state(&self) -> (r: SessionState)
        ensures
            r == self.phase(),
    {
        self.state
    }

    pub fn auto_decode(&self) -> (r: bool)
        ensures
            r == self.decodes(),
    {
        self.auto_decode
    }

    /// Records the transport's answer to opening the stream: the session
    /// streams if the stream was opened, and stays idle, with the reason as
    /// a connection error, if it was not.
    pub fn connected(&mut self, outcome: Result<(), String>) -> (r: Result<(), ConnectionError>)
        requires
            old(self).phase() == SessionState::Idle,
        ensures
            final(self).decodes() == old(self).decodes(),
            final(self).phase() == connect_step(old(self).phase(), outcome is Ok),
            match outcome {
                Ok(()) => r is Ok && final(self).phase() == SessionState::Streaming,
                Err(reason) => r == Err::<(), ConnectionError>(ConnectionError { reason })
                    && final(self).phase() == SessionState::Idle,
            },
    {
        match outcome {
            Ok(()) => {
                self.state = SessionState::Streaming;
                Ok(())
            },
            Err(reason) => Err(ConnectionError { reason }),
        }
    }

    /// The caller asks to close. Returns whether the transport is to be told
    /// to cancel, which is the case only for a streaming session.
    pub fn close(&mut self) -> (cancel: bool)
        ensures
            final(self).decodes() == old(self).decodes(),
            cancel == (old(self).phase() == SessionState::Streaming),
            step(old(self).phase(), SessionEvent::Close) == (
                final(self).phase(),
                if cancel {
                    seq![SessionAction::CancelTransport]
                } else {
                    Seq::empty()
                },
            ),
    {
        if self.state == SessionState::Streaming {
            self.state = SessionState::Closing;
            true
        } else {
            false
        }
    }

    /// Whether `m` is to be decoded before it is handed on.
    pub fn wants_decoding(&self, m: &SubscribeUpdate) -> (r: bool)
        ensures
            r == (self.decodes() && batch_slot(*m) is Some),
    {
        if self.auto_decode {
            match &m.update_oneof {
                Some(UpdateOneof::EntryBatch(_)) => true,
                _ => false,
            }
        } else {
            false
        }
    }

    /// The transport yielded `m`; `decoded` is the outcome of decoding its
    /// entry batch, where it was decoded. Returns what the per-message
    /// callback is to receive, if anything: only a streaming session hands
    /// messages on. The state does not change, also when decoding failed.
    pub fn on_message(
        &mut self,
        m: SubscribeUpdate,
        decoded: Option<Result<Vec<Entry>, String>>,
    ) -> (r: Option<Delivery>)
        ensures
            *final(self) == *old(self),
            step(old(self).phase(), SessionEvent::Message(m)).0 == final(self).phase(),
            r is Some == (step(old(self).phase(), SessionEvent::Message(m)).1.len() == 1),
            r is Some == (old(self).phase() == SessionState::Streaming),
            r is Some ==> r == Some(delivery_for(old(self).decodes(), m, decoded)),
    {
        if self.state != SessionState::Streaming {
            return None;
        }
        let slot = match &m.update_oneof {
            Some(UpdateOneof::EntryBatch(b)) => Some(b.slot),
            _ => None,
        };
        match slot {
            Some(slot) => if self.auto_decode {
                match decoded {
                    Some(Ok(entries)) => Some(
                        Delivery::Entries(DecodedShredstreamEntry { slot, entries }),
                    ),
                    Some(Err(reason)) => Some(Delivery::DecodeError(DecodeError { slot, reason })),
                    None => Some(Delivery::Update(m)),
                }
            } else {
                Some(Delivery::Update(m))
            },
            None => Some(Delivery::Update(m)),
        }
    }

    /// The transport's stream ended. Returns the terminal notification to
    /// deliver, if one is owed now: at most one is ever returned.
    pub fn on_end(&mut self, end: StreamEnd) -> (r: Option<Termination>)
        ensures
            final(self).decodes() == old(self).decodes(),
            r == (if old(self).phase() == SessionState::Streaming {
                Some(termination_of(end))
            } else if old(self).phase() == SessionState::Closing {
                Some(Termination::Cancelled)
            } else {
                None
            }),
            step(old(self).phase(), SessionEvent::End(end)) == (
                final(self).phase(),
                option_seq(r).map_values(|t| SessionAction::Terminate(t)),
            ),
    {
        let r = if self.state == SessionState::Streaming {
            self.state = SessionState::Closed;
            match end {
                StreamEnd::Completed => Some(Termination::Completed),
                StreamEnd::Error(reason) => Some(Termination::Failed(reason)),
                StreamEnd::Cancelled => Some(Termination::Cancelled),
            }
        } else if self.state == SessionState::Closing {
            self.state = SessionState::Closed;
            Some(Termination::Cancelled)
        } else {
            None
        };
        assert(option_seq(r).map_values(|t| SessionAction::Terminate(t)) =~= step(
            old(self).phase(),
            SessionEvent::End(end),
        ).1);
        r
    }
}

} // verus!
