use vstd::prelude::*;
use crate::cursor::{lemma_cursor_is_running_max, lemma_max_fold_append, max_fold, DeliveryCursor};
use crate::error::{registration_outcome, OpenPondError, Result, CONFLICT};
use crate::types::Message;

verus! {

/// Where a session stands in its life. A stop takes effect at once: the
/// running loop finds itself inactive at its next unit of work and ends.
#[derive(PartialEq, Eq, Structural, Clone, Copy, Debug)]
pub enum Phase {
    Idle,
    Starting,
    Running,
}

/// Milliseconds to wait after the event stream failed, before it reconnects.
pub const STREAM_BACKOFF_MS: u64 = 1000;

/// Milliseconds between two polls of the message endpoint.
pub const POLL_INTERVAL_MS: u64 = 5000;

/// One thing the delivery loop is to do, in the order given.
pub enum Action {
    /// Hand the message to the message callback.
    Deliver(Message),
    /// Hand the error to the error callback.
    Report(OpenPondError),
    /// Wait this many milliseconds.
    Pause(u64),
}

/// What arrived on the push stream.
pub enum StreamEvent {
    /// A message event whose payload decoded.
    Message(Message),
    /// A message event whose payload did not decode, with the decoder's error.
    Malformed(serde_json::Error),
    /// A comment, a connect notice or another event kind.
    Other,
    /// The stream failed; it reconnects by itself.
    Failure(OpenPondError),
}

/// The abstract state of a delivery engine.
pub struct EngineState {
    pub phase: Phase,
    pub epoch: u64,
    pub cursor: int,
    pub owner: Option<Seq<char>>,
    pub has_message_callback: bool,
    pub has_error_callback: bool,
}

/// Whether a loop launched under `epoch` is the one that may deliver now.
pub open spec fn active(s: EngineState, epoch: u64) -> bool {
    s.phase == Phase::Running && s.epoch == epoch
}

/// The epoch that follows `e`.
pub open spec fn next_epoch(e: u64) -> u64 {
    if e == u64::MAX {
        0
    } else {
        (e + 1) as u64
    }
}

/// Timestamps of a batch, in its order.
pub open spec fn timestamps(ms: Seq<Message>) -> Seq<i64> {
    ms.map_values(|m: Message| m.timestamp)
}

/// One delivery per message, in the batch's order.
pub open spec fn deliveries(ms: Seq<Message>) -> Seq<Action> {
    ms.map_values(|m: Message| Action::Deliver(m))
}

/// A message is for this session when the session has no identity of its
/// own, or when it is addressed to that identity.
pub open spec fn relevant(owner: Option<Seq<char>>, m: Message) -> bool {
    match owner {
        None => true,
        Some(id) => m.to_agent_id@ == id,
    }
}

/// One delivery per message of `ms` that is for this session, in the
/// batch's order.
pub open spec fn relevant_deliveries(owner: Option<Seq<char>>, ms: Seq<Message>) -> Seq<Action>
    decreases ms.len(),
{
    if ms.len() == 0 {
        seq![]
    } else if relevant(owner, ms.last()) {
        relevant_deliveries(owner, ms.drop_last()).push(Action::Deliver(ms.last()))
    } else {
        relevant_deliveries(owner, ms.drop_last())
    }
}

/// The state after a poll under `epoch` returned `fetched`.
pub open spec fn after_poll(s: EngineState, epoch: u64, fetched: Result<Vec<Message>>) -> EngineState {
    if active(s, epoch) {
        match fetched {
            Ok(ms) => EngineState { cursor: max_fold(s.cursor, timestamps(ms@)), ..s },
            Err(_) => s,
        }
    } else {
        s
    }
}

/// What a poll under `epoch` that returned `fetched` asks the loop to do.
pub open spec fn poll_actions(s: EngineState, epoch: u64, fetched: Result<Vec<Message>>) -> Seq<Action> {
    if !active(s, epoch) {
        seq![]
    } else {
        match fetched {
            Ok(ms) => if s.has_message_callback {
                relevant_deliveries(s.owner, ms@)
            } else {
                seq![]
            },
            Err(e) => if s.has_error_callback {
                seq![Action::Report(e)]
            } else {
                seq![]
            },
        }
    }
}

/// What a stream event under `epoch` asks the loop to do.
pub open spec fn stream_actions(s: EngineState, epoch: u64, ev: StreamEvent) -> Seq<Action> {
    if !active(s, epoch) {
        seq![]
    } else {
        match ev {
            StreamEvent::Message(m) => if s.has_message_callback && relevant(s.owner, m) {
                seq![Action::Deliver(m)]
            } else {
                seq![]
            },
            StreamEvent::Malformed(e) => if s.has_error_callback {
                seq![Action::Report(OpenPondError::SerializationError(e))]
            } else {
                seq![]
            },
            StreamEvent::Failure(e) => if s.has_error_callback {
                seq![Action::Report(e), Action::Pause(STREAM_BACKOFF_MS)]
            } else {
                seq![Action::Pause(STREAM_BACKOFF_MS)]
            },
            StreamEvent::Other => seq![],
        }
    }
}

/// The state after a start request: only an idle session begins to start.
pub open spec fn after_begin_start(s: EngineState) -> EngineState {
    if s.phase == Phase::Idle {
        EngineState { phase: Phase::Starting, ..s }
    } else {
        s
    }
}

/// The state once registration answered `registration`.
pub open spec fn after_registration(s: EngineState, registration: Result<()>) -> EngineState {
    if s.phase == Phase::Starting {
        match registration {
            Ok(_) => EngineState { phase: Phase::Running, epoch: next_epoch(s.epoch), ..s },
            Err(_) => EngineState { phase: Phase::Idle, ..s },
        }
    } else {
        s
    }
}

/// What `start` hands back once registration answered `registration`: the
/// epoch of the loop to launch, none where the session was stopped meanwhile,
/// or the registration's error.
pub open spec fn registration_result(s: EngineState, registration: Result<()>) -> Result<Option<u64>> {
    match registration {
        Ok(_) => if s.phase == Phase::Starting {
            Ok(Some(next_epoch(s.epoch)))
        } else {
            Ok(None)
        },
        Err(e) => Err(e),
    }
}

/// The decisions of one session: its phase, the delivery cursor and the two
/// callback slots. The loop that talks to the service asks it what to do
/// with each answer it gets.
pub struct DeliveryEngine<M, E> {
    phase: Phase,
    epoch: u64,
    cursor: DeliveryCursor,
    owner: Option<String>,
    message_callback: Option<M>,
    error_callback: Option<E>,
}

impl<M, E> View for DeliveryEngine<M, E> {
    type V = EngineState;

    closed spec fn view(&self) -> EngineState {
        EngineState {
            phase: self.phase,
            epoch: self.epoch,
            cursor: self.cursor@,
            owner: match self.owner {
                Some(id) => Some(id@),
                None => None,
            },
            has_message_callback: self.message_callback is Some,
            has_error_callback: self.error_callback is Some,
        }
    }
}

impl<M, E> DeliveryEngine<M, E> {
    /// The callback in the message slot.
    pub closed spec fn message_slot(&self) -> Option<M> {
        self.message_callback
    }

    /// The callback in the error slot.
    pub closed spec fn error_slot(&self) -> Option<E> {
        self.error_callback
    }

    /// An idle engine for a session that owns the identity `owner`, or for a
    /// hosted agent where `owner` is `None`.
    pub fn new(owner: Option<String>) -> (r: Self)
        ensures
            r@.phase == Phase::Idle,
            r@.epoch == 0,
            r@.cursor == 0,
            r@.owner == (match owner {
                Some(id) => Some(id@),
                None => None::<Seq<char>>,
            }),
            r.message_slot() is None,
            r.error_slot() is None,
    {
        DeliveryEngine {
            phase: Phase::Idle,
            epoch: 0,
            cursor: DeliveryCursor::new(),
            owner,
            message_callback: None,
            error_callback: None,
        }
    }

    pub fn phase(&self) -> (r: Phase)
        ensures
            r == self@.phase,
    {
        self.phase
    }

    /// The cursor's position: the newest timestamp delivered so far.
    pub fn cursor(&self) -> (r: i64)
        ensures
            r as int == self@.cursor,
    {
        self.cursor.read()
    }

    /// Whether a loop launched under `epoch` is still the one to run.
    pub fn is_active(&self, epoch: u64) -> (r: bool)
        ensures
            r == active(self@, epoch),
    {
        self.phase == Phase::Running && self.epoch == epoch
    }

    /// Whether `m` is for this session.
    fn is_for_session(&self, m: &Message) -> (r: bool)
        ensures
            r == relevant(self@.owner, *m),
    {
        match &self.owner {
            Some(id) => m.to_agent_id == *id,
            None => true,
        }
    }

    /// Puts `f` in the message slot; what was delivered before is not replayed.
    pub fn set_message_callback(&mut self, f: M)
        ensures
            final(self)@ == (EngineState { has_message_callback: true, ..old(self)@ }),
            final(self).message_slot() == Some(f),
            final(self).error_slot() == old(self).error_slot(),
    {
        self.message_callback = Some(f);
    }

    /// Puts `f` in the error slot.
    pub fn set_error_callback(&mut self, f: E)
        ensures
            final(self)@ == (EngineState { has_error_callback: true, ..old(self)@ }),
            final(self).error_slot() == Some(f),
            final(self).message_slot() == old(self).message_slot(),
    {
        self.error_callback = Some(f);
    }

    /// The callback to hand a `Deliver` action to.
    pub fn message_callback(&self) -> (r: Option<&M>)
        ensures
            r == match self.message_slot() {
                Some(f) => Some(&f),
                None => None::<&M>,
            },
    {
        self.message_callback.as_ref()
    }

    /// The callback to hand a `Report` action to.
    pub fn error_callback(&self) -> (r: Option<&E>)
        ensures
            r == match self.error_slot() {
                Some(f) => Some(&f),
                None => None::<&E>,
            },
    {
        self.error_callback.as_ref()
    }

    /// A start request. Returns whether the caller is to register the agent
    /// now; a session that is starting or running already is left alone.
    pub fn begin_start(&mut self) -> (must_register: bool)
        ensures
            must_register == (old(self)@.phase == Phase::Idle),
            final(self)@ == after_begin_start(old(self)@),
            final(self).message_slot() == old(self).message_slot(),
            final(self).error_slot() == old(self).error_slot(),
    {
        if self.phase == Phase::Idle {
            self.phase = Phase::Starting;
            true
        } else {
            false
        }
    }

    /// Takes registration's answer. On success a starting session runs under
    /// a fresh epoch, which is returned for the loop to carry; on failure it
    /// goes back to idle and the error is returned.
    pub fn finish_start(&mut self, registration: Result<()>) -> (r: Result<Option<u64>>)
        ensures
            r == registration_result(old(self)@, registration),
            final(self)@ == after_registration(old(self)@, registration),
            final(self).message_slot() == old(self).message_slot(),
            final(self).error_slot() == old(self).error_slot(),
    {
        match registration {
            Ok(()) => {
                if self.phase == Phase::Starting {
                    self.epoch = if self.epoch == u64::MAX {
                        0
                    } else {
                        self.epoch + 1
                    };
                    self.phase = Phase::Running;
                    Ok(Some(self.epoch))
                } else {
                    Ok(None)
                }
            },
            Err(e) => {
                if self.phase == Phase::Starting {
                    self.phase = Phase::Idle;
                }
                Err(e)
            },
        }
    }

    /// Stops the session from any phase; the running loop sees that it is no
    /// longer active and ends, and nothing more is delivered.
    pub fn stop(&mut self)
        ensures
            final(self)@ == (EngineState { phase: Phase::Idle, ..old(self)@ }),
            final(self).message_slot() == old(self).message_slot(),
            final(self).error_slot() == old(self).error_slot(),
    {
        self.phase = Phase::Idle;
    }

    /// Takes the answer of one poll made by the loop of `epoch`. The messages
    /// of a batch that are for this session are delivered in the batch's
    /// order, and the whole batch moves the cursor to its newest timestamp; a
    /// failure is reported and leaves the cursor where it was.
    pub fn on_poll_result(&mut self, epoch: u64, fetched: Result<Vec<Message>>) -> (r: Vec<Action>)
        ensures
            r@ == poll_actions(old(self)@, epoch, fetched),
            final(self)@ == after_poll(old(self)@, epoch, fetched),
            final(self).message_slot() == old(self).message_slot(),
            final(self).error_slot() == old(self).error_slot(),
    {
        let ghost s = self@;
        let ghost f = fetched;
        let mut actions: Vec<Action> = Vec::new();
        if !self.is_active(epoch) {
            return actions;
        }
        match fetched {
            Ok(batch) => {
                let ghost ms = batch@;
                let deliver = self.message_callback.is_some();
                let total: usize = batch.len();
                let mut rest = batch;
                let mut k: usize = 0;
                while rest.len() > 0
                    invariant
                        0 <= k <= ms.len(),
                        ms.len() == total as int,
                        s == old(self)@,
                        rest@ == ms.skip(k as int),
                        actions@ == (if deliver {
                            relevant_deliveries(s.owner, ms.take(k as int))
                        } else {
                            Seq::<Action>::empty()
                        }),
                        self.cursor@ == max_fold(s.cursor, timestamps(ms.take(k as int))),
                        self.phase == s.phase,
                        self.epoch == s.epoch,
                        self.owner == old(self).owner,
                        self.message_callback == old(self).message_callback,
                        self.error_callback == old(self).error_callback,
                        deliver == (self.message_callback is Some),
                    decreases rest@.len(),
                {
                    let m = rest.remove(0);
                    proof {
                        assert(m == ms[k as int]);
                        assert(timestamps(ms.take(k as int + 1)).drop_last() =~= timestamps(ms.take(k as int)));
                        assert(ms.take(k as int + 1).drop_last() =~= ms.take(k as int));
                        assert(ms.take(k as int + 1).last() == m);
                        assert(rest@ =~= ms.skip(k as int + 1));
                    }
                    self.cursor.advance_to(m.timestamp);
                    if deliver && self.is_for_session(&m) {
                        actions.push(Action::Deliver(m));
                    }
                    k = k + 1;
                }
                proof {
                    assert(ms.take(k as int) =~= ms);
                }
                actions
            },
            Err(e) => {
                if self.error_callback.is_some() {
                    actions.push(Action::Report(e));
                }
                proof {
                    assert(actions@ =~= poll_actions(s, epoch, f));
                }
                actions
            },
        }
    }

    /// Takes one event of the push stream read by the loop of `epoch`. A
    /// message for this session is delivered; a payload that did not decode
    /// is reported and dropped; a failure is reported and followed by the
    /// backoff pause; anything else is passed over. The
    /// stream carries no cursor, so a message sent again after a reconnect
    /// is delivered again.
    pub fn on_stream_event(&self, epoch: u64, ev: StreamEvent) -> (r: Vec<Action>)
        ensures
            r@ == stream_actions(self@, epoch, ev),
    {
        let ghost g = ev;
        let mut actions: Vec<Action> = Vec::new();
        if !self.is_active(epoch) {
            return actions;
        }
        match ev {
            StreamEvent::Message(m) => {
                if self.message_callback.is_some() && self.is_for_session(&m) {
                    actions.push(Action::Deliver(m));
                }
            },
            StreamEvent::Malformed(e) => {
                if self.error_callback.is_some() {
                    actions.push(Action::Report(OpenPondError::SerializationError(e)));
                }
            },
            StreamEvent::Failure(e) => {
                if self.error_callback.is_some() {
                    actions.push(Action::Report(e));
                }
                actions.push(Action::Pause(STREAM_BACKOFF_MS));
            },
            StreamEvent::Other => {},
        }
        proof {
            assert(actions@ =~= stream_actions(self@, epoch, g));
        }
        actions
    }
}

/// A poll that returns no messages leaves the cursor where it was and
/// delivers nothing.
pub proof fn lemma_empty_batch_keeps_cursor(s: EngineState, epoch: u64, batch: Vec<Message>)
    requires
        batch@.len() == 0,
    ensures
        after_poll(s, epoch, Ok(batch)) == s,
        poll_actions(s, epoch, Ok(batch)) == Seq::<Action>::empty(),
{
    assert(timestamps(batch@) =~= Seq::<i64>::empty());
    assert(deliveries(batch@) =~= Seq::<Action>::empty());
}

proof fn lemma_all_relevant_delivered(owner: Option<Seq<char>>, ms: Seq<Message>)
    requires
        forall|i: int| 0 <= i < ms.len() ==> relevant(owner, #[trigger] ms[i]),
    ensures
        relevant_deliveries(owner, ms) == deliveries(ms),
    decreases ms.len(),
{
    if ms.len() > 0 {
        let init = ms.drop_last();
        assert forall|i: int| 0 <= i < init.len() implies relevant(owner, #[trigger] init[i]) by {
            assert(init[i] == ms[i]);
        }
        lemma_all_relevant_delivered(owner, init);
        assert(relevant(owner, ms[ms.len() - 1]));
        assert(deliveries(ms) =~= deliveries(init).push(Action::Deliver(ms.last())));
    }
}

/// A batch whose messages are all for this session (every batch, in hosted
/// mode) is delivered whole, once per message and in the order received, and
/// afterwards the cursor is at least every timestamp in it.
pub proof fn lemma_batch_delivered_once_in_order(s: EngineState, epoch: u64, batch: Vec<Message>)
    requires
        active(s, epoch),
        s.has_message_callback,
        forall|i: int| 0 <= i < batch@.len() ==> relevant(s.owner, #[trigger] batch@[i]),
    ensures
        poll_actions(s, epoch, Ok(batch)).len() == batch@.len(),
        forall|i: int|
            0 <= i < batch@.len() ==> #[trigger] poll_actions(s, epoch, Ok(batch))[i]
                == Action::Deliver(batch@[i]),
        forall|i: int|
            0 <= i < batch@.len() ==> after_poll(s, epoch, Ok(batch)).cursor
                >= #[trigger] batch@[i].timestamp as int,
        after_poll(s, epoch, Ok(batch)).cursor >= s.cursor,
{
    let ts = timestamps(batch@);
    lemma_all_relevant_delivered(s.owner, batch@);
    lemma_cursor_is_running_max(s.cursor, ts);
    assert forall|i: int| 0 <= i < batch@.len() implies after_poll(s, epoch, Ok(batch)).cursor
        >= #[trigger] batch@[i].timestamp as int by {
        assert(ts[i] == batch@[i].timestamp);
    }
}

/// In owned-identity mode a pushed message addressed to another agent is never
/// delivered; in hosted mode the same message is delivered.
pub proof fn lemma_identity_filtering(s: EngineState, epoch: u64, m: Message)
    requires
        active(s, epoch),
        s.has_message_callback,
    ensures
        s.owner is Some && m.to_agent_id@ != s.owner->Some_0 ==> stream_actions(
            s,
            epoch,
            StreamEvent::Message(m),
        ) == Seq::<Action>::empty(),
        s.owner is None ==> stream_actions(s, epoch, StreamEvent::Message(m)) == seq![
            Action::Deliver(m),
        ],
        stream_actions(EngineState { owner: None, ..s }, epoch, StreamEvent::Message(m)) == seq![
            Action::Deliver(m),
        ],
{
}

/// A registration answered with a conflict counts as success: the starting
/// session runs under a fresh epoch and no error reaches the caller.
pub proof fn lemma_conflict_registration_starts(s: EngineState, body: String)
    requires
        s.phase == Phase::Starting,
    ensures
        registration_outcome(CONFLICT, body) == Ok::<(), OpenPondError>(()),
        registration_result(s, registration_outcome(CONFLICT, body)) == Ok::<Option<u64>, OpenPondError>(
            Some(next_epoch(s.epoch)),
        ),
        active(after_registration(s, registration_outcome(CONFLICT, body)), next_epoch(s.epoch)),
{
}

/// A failed poll gives exactly one report to the error callback, moves
/// nothing, and leaves the loop active for its next tick.
pub proof fn lemma_failed_poll_is_isolated(s: EngineState, epoch: u64, e: OpenPondError)
    requires
        active(s, epoch),
        s.has_error_callback,
    ensures
        poll_actions(s, epoch, Err(e)) == seq![Action::Report(e)],
        after_poll(s, epoch, Err(e)) == s,
        active(after_poll(s, epoch, Err(e)), epoch),
{
}

/// Messages polled while no message callback is set are passed over, the
/// cursor moves past them all the same, and setting a callback afterwards
/// neither delivers them nor moves the cursor back.
pub proof fn lemma_late_callback_gets_no_replay(s: EngineState, epoch: u64, batch: Vec<Message>)
    requires
        active(s, epoch),
        !s.has_message_callback,
    ensures
        poll_actions(s, epoch, Ok(batch)) == Seq::<Action>::empty(),
        ({
            let later = EngineState { has_message_callback: true, ..after_poll(s, epoch, Ok(batch)) };
            &&& later.cursor == after_poll(s, epoch, Ok(batch)).cursor
            &&& forall|i: int| 0 <= i < batch@.len() ==> later.cursor >= #[trigger] batch@[i].timestamp as int
        }),
{
    let ts = timestamps(batch@);
    lemma_cursor_is_running_max(s.cursor, ts);
    assert forall|i: int| 0 <= i < batch@.len() implies after_poll(s, epoch, Ok(batch)).cursor
        >= #[trigger] batch@[i].timestamp as int by {
        assert(ts[i] == batch@[i].timestamp);
    }
}

/// Timestamps of every batch that a run of polls fetched, in order; a
/// failed poll adds none.
pub open spec fn fetched_timestamps(results: Seq<Result<Vec<Message>>>) -> Seq<i64>
    decreases results.len(),
{
    if results.len() == 0 {
        seq![]
    } else {
        fetched_timestamps(results.drop_last()) + match results.last() {
            Ok(ms) => timestamps(ms@),
            Err(_) => Seq::<i64>::empty(),
        }
    }
}

/// The state after the loop of `epoch` took each of `results` in turn.
pub open spec fn after_polls(s: EngineState, epoch: u64, results: Seq<Result<Vec<Message>>>) -> EngineState
    decreases results.len(),
{
    if results.len() == 0 {
        s
    } else {
        after_poll(after_polls(s, epoch, results.drop_last()), epoch, results.last())
    }
}

/// Over any run of polls, failed ones among them, the loop stays active and
/// the cursor that the next poll uses is the largest of the start and every
/// timestamp fetched so far; from a fresh session, the largest of zero and
/// those timestamps.
pub proof fn lemma_polls_keep_running_max(s: EngineState, epoch: u64, results: Seq<Result<Vec<Message>>>)
    requires
        active(s, epoch),
    ensures
        active(after_polls(s, epoch, results), epoch),
        after_polls(s, epoch, results).cursor == max_fold(s.cursor, fetched_timestamps(results)),
        (EngineState { cursor: s.cursor, ..after_polls(s, epoch, results) }) == s,
    decreases results.len(),
{
    if results.len() > 0 {
        let init = results.drop_last();
        lemma_polls_keep_running_max(s, epoch, init);
        match results.last() {
            Ok(ms) => {
                lemma_max_fold_append(s.cursor, fetched_timestamps(init), timestamps(ms@));
            },
            Err(_) => {
                assert(fetched_timestamps(results) =~= fetched_timestamps(init));
            },
        }
    }
}

} // verus!
