//! Dual-writing / replication support.
//!
//! Strict QoS mode:
//! - bounded queue with backpressure
//! - retry with exponential backoff
//! - fail-close if replication cannot be applied
//!
//! This module does NOT guarantee durability across process restarts.
//! For strict "Postgres == SpiceDB" correctness, pair this with a Postgres outbox.
//!
//! [`ReplicationWorker`] is the worker without its waiting and its RPCs: the
//! caller tells it what happened, and it answers what to do next.

use std::sync::Arc;
use std::time::Duration;

use vstd::arithmetic::power2::{
    lemma2_to64, lemma_pow2_strictly_increases, lemma_pow2_unfold, pow2,
};
use vstd::bits::lemma_u32_shl_is_mul;
use vstd::prelude::*;

use crate::spicedb::messages::{updates_view, RelationshipUpdate, RelationshipUpdateView};
use crate::spicedb::rebac::{
    relationship_update, update_view, write_relationship_view, RelationshipOp,
};
use crate::types::{AuthError, AuthErrorView};

verus! {

/// `Arc::<str>::from` on a `&str`: a shared copy of the string slice.
/// [`RelationshipTuple::new`] calls it through `Into`.
pub assume_specification<'a>[ <Arc<str> as From<&'a str>>::from ](s: &str) -> (r: Arc<str>)
    ensures
        (*r)@ == s@,
;

/// `Arc::<str>::from` on a `String`: a shared copy of the string.
/// [`RelationshipTuple::new`] calls it through `Into`.
pub assume_specification[ <Arc<str> as From<String>>::from ](s: String) -> (r: Arc<str>)
    ensures
        (*r)@ == s@,
;

/// What `Duration::as_nanos` returns: the length of a duration in nanoseconds.
pub uninterp spec fn duration_nanos(d: Duration) -> nat;

/// The length of `Duration::MAX` in nanoseconds.
pub open spec fn max_duration_nanos() -> nat {
    (u64::MAX * 1_000_000_000 + 999_999_999) as nat
}

/// `Duration::from_millis`: a duration of so many milliseconds.
pub assume_specification[ Duration::from_millis ](millis: u64) -> (d: Duration)
    ensures
        duration_nanos(d) == millis * 1_000_000,
;

/// `Duration::checked_mul`: the multiple, or nothing if it is longer than any duration.
pub assume_specification[ Duration::checked_mul ](d: Duration, rhs: u32) -> (r: Option<Duration>)
    ensures
        r is Some <==> duration_nanos(d) * rhs <= max_duration_nanos(),
        r matches Some(product) ==> duration_nanos(product) == duration_nanos(d) * rhs,
;

/// An edge of the relationship graph, as it travels through the queue.
///
/// The strings are shared, so that a copy is cheap.
#[derive(Debug, PartialEq, Eq)]
pub struct RelationshipTuple {
    /// The namespace of the resource.
    pub resource_type: Arc<str>,
    /// The identifier of the resource.
    pub resource_id: Arc<str>,
    /// The relation that connects the resource and the subject.
    pub relation: Arc<str>,
    /// The namespace of the subject.
    pub subject_type: Arc<str>,
    /// The identifier of the subject.
    pub subject_id: Arc<str>,
}

impl RelationshipTuple {
    /// A tuple from types that convert into an `Arc<str>`.
    pub fn new<
        RT: Into<Arc<str>>,
        RI: Into<Arc<str>>,
        R: Into<Arc<str>>,
        ST: Into<Arc<str>>,
        SI: Into<Arc<str>>,
    >(resource_type: RT, resource_id: RI, relation: R, subject_type: ST, subject_id: SI) -> (tuple:
        Self)
        ensures
            call_ensures(<RT as Into<Arc<str>>>::into, (resource_type,), tuple.resource_type),
            call_ensures(<RI as Into<Arc<str>>>::into, (resource_id,), tuple.resource_id),
            call_ensures(<R as Into<Arc<str>>>::into, (relation,), tuple.relation),
            call_ensures(<ST as Into<Arc<str>>>::into, (subject_type,), tuple.subject_type),
            call_ensures(<SI as Into<Arc<str>>>::into, (subject_id,), tuple.subject_id),
    {
        RelationshipTuple {
            resource_type: resource_type.into(),
            resource_id: resource_id.into(),
            relation: relation.into(),
            subject_type: subject_type.into(),
            subject_id: subject_id.into(),
        }
    }
}

impl Clone for RelationshipTuple {
    fn clone(&self) -> (copy: Self)
        ensures
            copy == *self,
    {
        RelationshipTuple {
            resource_type: self.resource_type.clone(),
            resource_id: self.resource_id.clone(),
            relation: self.relation.clone(),
            subject_type: self.subject_type.clone(),
            subject_id: self.subject_id.clone(),
        }
    }
}

/// A change that is to be replicated.
#[derive(Debug, PartialEq, Eq)]
pub enum ReplicationEvent {
    /// The tuple exists from now on.
    Upsert(RelationshipTuple),
    /// The tuple does not exist any more.
    Delete(RelationshipTuple),
}

impl Clone for ReplicationEvent {
    fn clone(&self) -> (copy: Self)
        ensures
            copy == *self,
    {
        match self {
            ReplicationEvent::Upsert(t) => ReplicationEvent::Upsert(t.clone()),
            ReplicationEvent::Delete(t) => ReplicationEvent::Delete(t.clone()),
        }
    }
}

/// The update that replicates an event: an upsert touches the relationship, a
/// deletion deletes it.
pub open spec fn update_of(event: ReplicationEvent) -> RelationshipUpdateView {
    let (op, t) = match event {
        ReplicationEvent::Upsert(t) => (RelationshipOp::Touch, t),
        ReplicationEvent::Delete(t) => (RelationshipOp::Delete, t),
    };
    update_view(
        op,
        (*t.resource_type)@,
        (*t.resource_id)@,
        (*t.relation)@,
        (*t.subject_type)@,
        (*t.subject_id)@,
    )
}

/// The updates that replicate events, in order.
pub open spec fn updates_of(events: Seq<ReplicationEvent>) -> Seq<RelationshipUpdateView> {
    events.map_values(|event: ReplicationEvent| update_of(event))
}

fn build_update(event: &ReplicationEvent) -> (update: RelationshipUpdate)
    ensures
        update@ == update_of(*event),
{
    let (op, t) = match event {
        ReplicationEvent::Upsert(t) => (RelationshipOp::Touch, t),
        ReplicationEvent::Delete(t) => (RelationshipOp::Delete, t),
    };
    relationship_update(
        op,
        &*t.resource_type,
        &*t.resource_id,
        &*t.relation,
        &*t.subject_type,
        &*t.subject_id,
    )
}

/// Converts events into updates, one for one and in order.
pub fn build_updates(drained: Vec<ReplicationEvent>) -> (r: Result<
    Vec<RelationshipUpdate>,
    AuthError,
>)
    ensures
        r is Ok,
        updates_view(r->Ok_0@) == updates_of(drained@),
{
    let mut out: Vec<RelationshipUpdate> = Vec::new();
    let n: usize = drained.len();
    for i in 0..n
        invariant
            n == drained@.len(),
            updates_view(out@) == updates_of(drained@.take(i as int)),
    {
        let update = build_update(&drained[i]);
        let ghost before = out@;
        out.push(update);
        proof {
            assert(updates_view(out@) =~= updates_view(before).push(update@));
            assert(updates_of(drained@.take(i + 1)) =~= updates_of(drained@.take(i as int)).push(
                update_of(drained@[i as int]),
            ));
        }
    }
    assert(drained@.take(n as int) =~= drained@);
    Ok(out)
}

/// The limits that drive the replication worker.
#[derive(Debug)]
pub struct ReplicationSettings {
    /// The number of events at which a batch is flushed at once.
    pub max_batch: usize,
    /// How long an incomplete batch waits at most.
    pub flush_interval: Duration,
    /// How often a failing batch is retried before the worker fails closed.
    pub max_retries: usize,
    /// The base of the exponential backoff.
    pub base_backoff: Duration,
}

impl Clone for ReplicationSettings {
    fn clone(&self) -> (copy: Self)
        ensures
            copy == *self,
    {
        ReplicationSettings {
            max_batch: self.max_batch,
            flush_interval: self.flush_interval,
            max_retries: self.max_retries,
            base_backoff: self.base_backoff,
        }
    }
}

impl Default for ReplicationSettings {
    /// Cautious limits: 256 events, 10 ms, 8 retries, 25 ms.
    fn default() -> (settings: Self)
        ensures
            settings.max_batch == 256,
            duration_nanos(settings.flush_interval) == 10_000_000,
            settings.max_retries == 8,
            duration_nanos(settings.base_backoff) == 25_000_000,
    {
        ReplicationSettings {
            max_batch: 256,
            flush_interval: Duration::from_millis(10),
            max_retries: 8,
            base_backoff: Duration::from_millis(25),
        }
    }
}

/// The factor of the backoff before retry number `attempt`: it doubles with
/// each retry up to the tenth.
pub open spec fn backoff_factor(attempt: nat) -> nat {
    pow2(if attempt < 10 { attempt } else { 10 })
}

proof fn lemma_small_power(e: nat)
    requires
        e <= 10,
    ensures
        pow2(e) <= 1024,
{
    lemma2_to64();
    if e < 10 {
        lemma_pow2_strictly_increases(e, 10);
    }
}

/// The time to wait before retry number `attempt`; nothing if it is longer
/// than any duration.
pub fn retry_backoff(base: Duration, attempt: usize) -> (backoff: Option<Duration>)
    ensures
        backs_off(backoff, base, attempt as nat),
{
    let exponent: u32 = if attempt < 10 {
        attempt as u32
    } else {
        10
    };
    let factor: u32 = 1u32 << exponent;
    proof {
        lemma2_to64();
        lemma_small_power(exponent as nat);
        lemma_u32_shl_is_mul(1, exponent);
    }
    base.checked_mul(factor)
}

/// The error with which an event is refused once the worker is gone.
pub fn queue_closed() -> (e: AuthError)
    ensures
        e@ == (AuthErrorView::ValidationError { message: "replication queue closed"@ }),
{
    AuthError::validation("replication queue closed".to_owned())
}

/// The error with which the worker ends once a batch has failed for good.
pub open spec fn failed_permanently() -> AuthErrorView {
    AuthErrorView::ValidationError { message: "replication failed permanently (fail-closed)"@ }
}

/// What the worker is doing.
#[derive(Debug, Clone, Copy, PartialEq, Eq, Structural)]
pub enum WorkerPhase {
    /// It gathers events.
    Collecting,
    /// It waits for the reply to a write of its batch.
    Writing,
    /// It waits before it writes its batch again.
    BackingOff,
    /// It has ended, and everything it was given is written.
    Stopped,
    /// It has ended with a batch that could not be written.
    Failed,
}

/// What the caller of the worker has to do next.
#[derive(Debug)]
pub enum WorkerAction {
    /// Wait for an event, a shutdown, the end of the queue or the flush timer.
    Wait {
        /// Whether the flush timer starts anew, at the flush interval from now.
        rearm: bool,
    },
    /// Write the batch in one transaction.
    Write,
    /// Wait for so long, then report that it has passed. Nothing, if the time
    /// is longer than any duration: the multiplication has overflowed.
    Sleep(Option<Duration>),
    /// End without an error.
    Stop,
    /// Broadcast the fatal error, so that the engine fails closed, and end
    /// with the other error.
    FailClosed {
        /// The error of the last write.
        fatal: AuthError,
        /// The error with which the worker ends.
        error: AuthError,
    },
}

/// The replication worker: gathers events, flushes them in batches, retries a
/// batch that fails, and fails closed when the retries are used up.
pub struct ReplicationWorker {
    settings: ReplicationSettings,
    phase: WorkerPhase,
    buf: Vec<ReplicationEvent>,
    batch: Vec<RelationshipUpdate>,
    attempt: usize,
    stopping: bool,
    accepted: Ghost<Seq<ReplicationEvent>>,
    written: Ghost<Seq<RelationshipUpdateView>>,
}

impl ReplicationWorker {
    /// The limits.
    pub closed spec fn limits(&self) -> ReplicationSettings {
        self.settings
    }

    /// What the worker is doing.
    pub closed spec fn state(&self) -> WorkerPhase {
        self.phase
    }

    /// The events gathered and not yet made into a batch.
    pub closed spec fn gathered(&self) -> Seq<ReplicationEvent> {
        self.buf@
    }

    /// The updates of the batch that is being written.
    pub closed spec fn in_flight(&self) -> Seq<RelationshipUpdateView> {
        updates_view(self.batch@)
    }

    /// How often the batch has been retried, or is about to be.
    pub closed spec fn retries(&self) -> nat {
        self.attempt as nat
    }

    /// Whether the worker ends once the batch is written.
    pub closed spec fn is_stopping(&self) -> bool {
        self.stopping
    }

    /// All events that the worker was ever given, in order.
    pub closed spec fn accepted_events(&self) -> Seq<ReplicationEvent> {
        self.accepted@
    }

    /// All updates whose write succeeded, in order.
    pub closed spec fn written_updates(&self) -> Seq<RelationshipUpdateView> {
        self.written@
    }

    /// The number of events at which a batch is flushed: a limit of none works as one.
    pub open spec fn batch_limit(&self) -> nat {
        if self.limits().max_batch == 0 {
            1
        } else {
            self.limits().max_batch as nat
        }
    }

    /// What holds of every worker, whatever happened to it:
    /// - nothing is lost, doubled or reordered: what it was given is what it has
    ///   written, then what it is writing, then what it has gathered;
    /// - no batch is larger than its limit, and while it gathers, what it has
    ///   gathered is below the limit;
    /// - while it writes or backs off, it has a batch, has gathered nothing, and
    ///   has retried no more often than it may;
    /// - when it has stopped, nothing is left.
    pub open spec fn wf(&self) -> bool {
        &&& updates_of(self.accepted_events()) == self.written_updates() + self.in_flight()
            + updates_of(self.gathered())
        &&& self.in_flight().len() <= self.batch_limit()
        &&& self.retries() <= self.limits().max_retries
        &&& match self.state() {
            WorkerPhase::Collecting => {
                &&& self.in_flight().len() == 0
                &&& self.gathered().len() < self.batch_limit()
                &&& !self.is_stopping()
            },
            WorkerPhase::Writing => self.in_flight().len() > 0 && self.gathered().len() == 0,
            WorkerPhase::BackingOff => {
                &&& self.in_flight().len() > 0
                &&& self.gathered().len() == 0
                &&& self.retries() > 0
            },
            WorkerPhase::Stopped => self.in_flight().len() == 0 && self.gathered().len() == 0,
            WorkerPhase::Failed => {
                &&& self.in_flight().len() > 0
                &&& self.gathered().len() == 0
                &&& self.retries() == self.limits().max_retries
            },
        }
    }

    /// Whether the worker has become one that writes all that `before` had gathered.
    pub open spec fn flushes(&self, before: &ReplicationWorker, stop: bool) -> bool {
        &&& self.state() == WorkerPhase::Writing
        &&& self.gathered() == Seq::<ReplicationEvent>::empty()
        &&& self.retries() == 0
        &&& self.is_stopping() == stop
        &&& self.limits() == before.limits()
        &&& self.written_updates() == before.written_updates()
    }

    /// Whether the worker has gone from `before` towards its end: it has
    /// stopped if nothing was gathered, and otherwise writes what was, to stop then.
    pub open spec fn drains(&self, before: &ReplicationWorker, action: WorkerAction) -> bool {
        &&& self.accepted_events() == before.accepted_events()
        &&& if before.gathered().len() == 0 {
            &&& action == WorkerAction::Stop
            &&& self.state() == WorkerPhase::Stopped
            &&& self.limits() == before.limits()
            &&& self.written_updates() == before.written_updates()
        } else {
            &&& action == WorkerAction::Write
            &&& self.flushes(before, true)
            &&& self.in_flight() == updates_of(before.gathered())
        }
    }

    /// A worker that has been given nothing.
    pub fn new(settings: ReplicationSettings) -> (worker: Self)
        ensures
            worker.wf(),
            worker.state() == WorkerPhase::Collecting,
            worker.limits() == settings,
            worker.gathered() == Seq::<ReplicationEvent>::empty(),
            worker.accepted_events() == Seq::<ReplicationEvent>::empty(),
            worker.written_updates() == Seq::<RelationshipUpdateView>::empty(),
    {
        ReplicationWorker {
            settings,
            phase: WorkerPhase::Collecting,
            buf: Vec::new(),
            batch: Vec::new(),
            attempt: 0,
            stopping: false,
            accepted: Ghost(Seq::empty()),
            written: Ghost(Seq::empty()),
        }
    }

    /// What the worker is doing.
    pub fn phase(&self) -> (phase: WorkerPhase)
        ensures
            phase == self.state(),
    {
        self.phase
    }

    /// The limits.
    pub fn settings(&self) -> (settings: &ReplicationSettings)
        ensures
            *settings == self.limits(),
    {
        &self.settings
    }

    /// The batch that is being written.
    pub fn batch(&self) -> (batch: &Vec<RelationshipUpdate>)
        ensures
            updates_view(batch@) == self.in_flight(),
    {
        &self.batch
    }

    /// Makes the gathered events into the batch to write.
    fn begin_flush(&mut self, stop: bool)
        requires
            old(self).state() == WorkerPhase::Collecting,
            0 < old(self).gathered().len() <= old(self).batch_limit(),
            old(self).in_flight().len() == 0,
            updates_of(old(self).accepted_events()) == old(self).written_updates() + updates_of(
                old(self).gathered(),
            ),
        ensures
            final(self).wf(),
            final(self).flushes(old(self), stop),
            final(self).accepted_events() == old(self).accepted_events(),
            final(self).in_flight() == updates_of(old(self).gathered()),
    {
        let mut drained: Vec<ReplicationEvent> = Vec::new();
        std::mem::swap(&mut drained, &mut self.buf);
        match build_updates(drained) {
            Ok(updates) => {
                self.batch = updates;
            },
            Err(_) => {},
        }
        self.attempt = 0;
        self.stopping = stop;
        self.phase = WorkerPhase::Writing;
        proof {
            assert(updates_of(self.buf@) =~= Seq::empty());
            assert(self.written@ + updates_view(self.batch@) + Seq::<
                RelationshipUpdateView,
            >::empty() =~= self.written@ + updates_view(self.batch@));
        }
    }

    /// An event came out of the queue: it is gathered, and a full batch is flushed.
    pub fn on_received(&mut self, event: ReplicationEvent) -> (action: WorkerAction)
        requires
            old(self).wf(),
            old(self).state() == WorkerPhase::Collecting,
        ensures
            final(self).wf(),
            final(self).accepted_events() == old(self).accepted_events().push(event),
            if old(self).gathered().len() + 1 < old(self).limits().max_batch {
                &&& action == (WorkerAction::Wait { rearm: false })
                &&& final(self).state() == WorkerPhase::Collecting
                &&& final(self).gathered() == old(self).gathered().push(event)
                &&& final(self).limits() == old(self).limits()
                &&& final(self).written_updates() == old(self).written_updates()
            } else {
                &&& action == WorkerAction::Write
                &&& final(self).flushes(old(self), false)
                &&& final(self).in_flight() == updates_of(old(self).gathered().push(event))
            },
    {
        let ghost gathered = self.buf@;
        self.buf.push(event);
        self.accepted = Ghost(self.accepted@.push(event));
        proof {
            assert(updates_of(gathered.push(event)) =~= updates_of(gathered).push(
                update_of(event),
            ));
            assert(updates_of(self.accepted@) =~= updates_of(old(self).accepted@).push(
                update_of(event),
            ));
            assert(updates_of(self.accepted@) =~= self.written@ + updates_of(self.buf@));
            assert(self.written@ + updates_view(self.batch@) + updates_of(self.buf@)
                =~= self.written@ + updates_of(self.buf@));
        }
        if self.buf.len() >= self.settings.max_batch {
            self.begin_flush(false);
            WorkerAction::Write
        } else {
            WorkerAction::Wait { rearm: false }
        }
    }

    /// Flushes what is gathered and ends: at once if nothing is.
    fn drain(&mut self) -> (action: WorkerAction)
        requires
            old(self).wf(),
            old(self).state() == WorkerPhase::Collecting,
        ensures
            final(self).wf(),
            final(self).drains(old(self), action),
    {
        if self.buf.len() == 0 {
            self.phase = WorkerPhase::Stopped;
            WorkerAction::Stop
        } else {
            proof {
                assert(self.written@ + updates_view(self.batch@) + updates_of(self.buf@)
                    =~= self.written@ + updates_of(self.buf@));
            }
            self.begin_flush(true);
            WorkerAction::Write
        }
    }

    /// A shutdown was requested: what is gathered is flushed, then the worker ends.
    pub fn on_shutdown(&mut self) -> (action: WorkerAction)
        requires
            old(self).wf(),
            old(self).state() == WorkerPhase::Collecting,
        ensures
            final(self).wf(),
            final(self).drains(old(self), action),
    {
        self.drain()
    }

    /// The queue has no sender any more: what is gathered is flushed, then the
    /// worker ends.
    pub fn on_queue_closed(&mut self) -> (action: WorkerAction)
        requires
            old(self).wf(),
            old(self).state() == WorkerPhase::Collecting,
        ensures
            final(self).wf(),
            final(self).drains(old(self), action),
    {
        self.drain()
    }

    /// The flush timer fired: what is gathered is flushed, and the timer starts anew.
    pub fn on_timer(&mut self) -> (action: WorkerAction)
        requires
            old(self).wf(),
            old(self).state() == WorkerPhase::Collecting,
        ensures
            final(self).wf(),
            final(self).accepted_events() == old(self).accepted_events(),
            if old(self).gathered().len() == 0 {
                &&& action == (WorkerAction::Wait { rearm: true })
                &&& *final(self) == *old(self)
            } else {
                &&& action == WorkerAction::Write
                &&& final(self).flushes(old(self), false)
                &&& final(self).in_flight() == updates_of(old(self).gathered())
            },
    {
        if self.buf.len() == 0 {
            WorkerAction::Wait { rearm: true }
        } else {
            proof {
                assert(self.written@ + updates_view(self.batch@) + updates_of(self.buf@)
                    =~= self.written@ + updates_of(self.buf@));
            }
            self.begin_flush(false);
            WorkerAction::Write
        }
    }

    /// The batch was written: the worker gathers again, or ends if it was to end.
    pub fn on_written(&mut self) -> (action: WorkerAction)
        requires
            old(self).wf(),
            old(self).state() == WorkerPhase::Writing,
        ensures
            final(self).wf(),
            final(self).accepted_events() == old(self).accepted_events(),
            final(self).written_updates() == old(self).written_updates() + old(self).in_flight(),
            final(self).in_flight().len() == 0,
            final(self).gathered() == Seq::<ReplicationEvent>::empty(),
            final(self).limits() == old(self).limits(),
            if old(self).is_stopping() {
                &&& action == WorkerAction::Stop
                &&& final(self).state() == WorkerPhase::Stopped
            } else {
                &&& action == (WorkerAction::Wait { rearm: true })
                &&& final(self).state() == WorkerPhase::Collecting
            },
    {
        self.written = Ghost(self.written@ + updates_view(self.batch@));
        self.batch = Vec::new();
        self.attempt = 0;
        proof {
            assert(updates_of(self.buf@) =~= Seq::empty());
            assert(updates_view(self.batch@) =~= Seq::empty());
            assert(updates_of(self.accepted@) =~= self.written@ + updates_view(self.batch@)
                + updates_of(self.buf@));
        }
        if self.stopping {
            self.phase = WorkerPhase::Stopped;
            WorkerAction::Stop
        } else {
            self.phase = WorkerPhase::Collecting;
            WorkerAction::Wait { rearm: true }
        }
    }

    /// The write of the batch failed with `e`: the worker backs off and will
    /// retry, or fails closed if the retries are used up.
    pub fn on_write_failed(&mut self, e: AuthError) -> (action: WorkerAction)
        requires
            old(self).wf(),
            old(self).state() == WorkerPhase::Writing,
        ensures
            final(self).wf(),
            final(self).accepted_events() == old(self).accepted_events(),
            final(self).written_updates() == old(self).written_updates(),
            final(self).in_flight() == old(self).in_flight(),
            final(self).limits() == old(self).limits(),
            final(self).is_stopping() == old(self).is_stopping(),
            if old(self).retries() < old(self).limits().max_retries {
                &&& final(self).state() == WorkerPhase::BackingOff
                &&& final(self).retries() == old(self).retries() + 1
                &&& action matches WorkerAction::Sleep(backoff) && backs_off(
                    backoff,
                    old(self).limits().base_backoff,
                    final(self).retries(),
                )
            } else {
                &&& final(self).state() == WorkerPhase::Failed
                &&& action matches WorkerAction::FailClosed { fatal, error } && fatal == e
                    && error@ == failed_permanently()
            },
    {
        if self.attempt < self.settings.max_retries {
            self.attempt = self.attempt + 1;
            self.phase = WorkerPhase::BackingOff;
            WorkerAction::Sleep(retry_backoff(self.settings.base_backoff, self.attempt))
        } else {
            self.phase = WorkerPhase::Failed;
            WorkerAction::FailClosed {
                fatal: e,
                error: AuthError::validation(
                    "replication failed permanently (fail-closed)".to_owned(),
                ),
            }
        }
    }

    /// The backoff has passed: the same batch is written again.
    pub fn on_backoff_elapsed(&mut self) -> (action: WorkerAction)
        requires
            old(self).wf(),
            old(self).state() == WorkerPhase::BackingOff,
        ensures
            final(self).wf(),
            action == WorkerAction::Write,
            final(self).state() == WorkerPhase::Writing,
            final(self).accepted_events() == old(self).accepted_events(),
            final(self).written_updates() == old(self).written_updates(),
            final(self).in_flight() == old(self).in_flight(),
            final(self).retries() == old(self).retries(),
            final(self).limits() == old(self).limits(),
            final(self).is_stopping() == old(self).is_stopping(),
    {
        self.phase = WorkerPhase::Writing;
        WorkerAction::Write
    }
}

/// Whether `backoff` is the time to wait before retry number `attempt`.
pub open spec fn backs_off(backoff: Option<Duration>, base: Duration, attempt: nat) -> bool {
    &&& backoff is Some <==> duration_nanos(base) * backoff_factor(attempt)
        <= max_duration_nanos()
    &&& backoff matches Some(d) ==> duration_nanos(d) == duration_nanos(base) * backoff_factor(
        attempt,
    )
}

/// Cutting events into batches changes nothing about the updates that are
/// written, nor about their order.
pub proof fn law_batches_do_not_matter(first: Seq<ReplicationEvent>, second: Seq<ReplicationEvent>)
    ensures
        updates_of(first + second) == updates_of(first) + updates_of(second),
{
    assert(updates_of(first + second) =~= updates_of(first) + updates_of(second));
}

/// Replicating a tuple writes what the engine writes when it registers the
/// tuple, and replicating its deletion what the engine writes when it revokes it.
pub proof fn law_replication_writes_what_the_engine_writes(tuple: RelationshipTuple)
    ensures
        updates_of(seq![ReplicationEvent::Upsert(tuple)]) == write_relationship_view(
            RelationshipOp::Touch,
            (*tuple.resource_type)@,
            (*tuple.resource_id)@,
            (*tuple.relation)@,
            (*tuple.subject_type)@,
            (*tuple.subject_id)@,
        ),
        updates_of(seq![ReplicationEvent::Delete(tuple)]) == write_relationship_view(
            RelationshipOp::Delete,
            (*tuple.resource_type)@,
            (*tuple.resource_id)@,
            (*tuple.relation)@,
            (*tuple.subject_type)@,
            (*tuple.subject_id)@,
        ),
{
    assert(updates_of(seq![ReplicationEvent::Upsert(tuple)]) =~= seq![
        update_of(ReplicationEvent::Upsert(tuple)),
    ]);
    assert(updates_of(seq![ReplicationEvent::Delete(tuple)]) =~= seq![
        update_of(ReplicationEvent::Delete(tuple)),
    ]);
}

/// At every moment, what has been written is a beginning of what the worker was
/// given: SpiceDB never has a later change without all the earlier ones.
pub proof fn law_written_in_order(worker: ReplicationWorker)
    requires
        worker.wf(),
    ensures
        worker.written_updates().is_prefix_of(updates_of(worker.accepted_events())),
{
}

/// A worker that has stopped has written everything that it was given.
pub proof fn law_stopped_has_written_all(worker: ReplicationWorker)
    requires
        worker.wf(),
        worker.state() == WorkerPhase::Stopped,
    ensures
        worker.written_updates() == updates_of(worker.accepted_events()),
{
    assert(updates_of(worker.gathered()) =~= Seq::empty());
    assert(worker.written_updates() + worker.in_flight() + updates_of(worker.gathered())
        =~= worker.written_updates());
}

/// A worker that has failed has used up its retries, and has not written the
/// whole of what it was given.
pub proof fn law_failed_only_after_all_retries(worker: ReplicationWorker)
    requires
        worker.wf(),
        worker.state() == WorkerPhase::Failed,
    ensures
        worker.retries() == worker.limits().max_retries,
        worker.written_updates().len() < worker.accepted_events().len(),
{
    assert(updates_of(worker.accepted_events()).len() == worker.accepted_events().len());
}

/// The backoff doubles with each retry up to the tenth, and stays there.
pub proof fn law_backoff_doubles(attempt: nat)
    ensures
        attempt < 10 ==> backoff_factor(attempt + 1) == 2 * backoff_factor(attempt),
        attempt >= 10 ==> backoff_factor(attempt) == 1024,
{
    lemma2_to64();
    if attempt < 10 {
        lemma_pow2_unfold(attempt + 1);
    }
}

/// Events become updates one for one and in order. An upsert touches, a deletion
/// deletes, and either names the resource, the relation and the subject of its
/// tuple, whatever they are. The subject is the object itself, not a relation on it.
pub proof fn law_events_become_their_updates(
    drained: Vec<ReplicationEvent>,
    r: Result<Vec<RelationshipUpdate>, AuthError>,
)
    requires
        call_ensures(build_updates, (drained,), r),
    ensures
        r is Ok,
        r->Ok_0@.len() == drained@.len(),
        forall|i: int| 0 <= i < drained@.len() ==> ({
            let update = #[trigger] r->Ok_0@[i];
            let t = match drained@[i] {
                ReplicationEvent::Upsert(t) => t,
                ReplicationEvent::Delete(t) => t,
            };
            &&& drained@[i] is Upsert ==> update.operation == 2
            &&& drained@[i] is Delete ==> update.operation == 3
            &&& update.relationship.resource.object_type@ == (*t.resource_type)@
            &&& update.relationship.resource.object_id@ == (*t.resource_id)@
            &&& update.relationship.relation@ == (*t.relation)@
            &&& update.relationship.subject.object.object_type@ == (*t.subject_type)@
            &&& update.relationship.subject.object.object_id@ == (*t.subject_id)@
            &&& update.relationship.subject.optional_relation@.len() == 0
        }),
{
    let updates = r->Ok_0@;
    assert(updates_view(updates).len() == updates.len());
    assert(updates_of(drained@).len() == drained@.len());
    assert forall|i: int| 0 <= i < drained@.len() implies (#[trigger] updates[i])@ == update_of(
        drained@[i],
    ) by {
        assert(updates_view(updates)[i] == updates[i]@);
        assert(updates_of(drained@)[i] == update_of(drained@[i]));
    }
}

/// What is in flight is what the batch holds, update by update.
pub proof fn law_batch_is_what_is_in_flight(
    worker: ReplicationWorker,
    batch: &Vec<RelationshipUpdate>,
)
    requires
        call_ensures(ReplicationWorker::batch, (&worker,), batch),
    ensures
        batch@.len() == worker.in_flight().len(),
        forall|i: int| 0 <= i < batch@.len() ==> ({
            let update = #[trigger] batch@[i];
            let view = worker.in_flight()[i];
            &&& view.operation == update.operation
            &&& view.relationship.resource.object_type == update.relationship.resource.object_type@
            &&& view.relationship.resource.object_id == update.relationship.resource.object_id@
            &&& view.relationship.relation == update.relationship.relation@
            &&& view.relationship.subject.object.object_type
                == update.relationship.subject.object.object_type@
            &&& view.relationship.subject.object.object_id
                == update.relationship.subject.object.object_id@
            &&& view.relationship.subject.optional_relation
                == update.relationship.subject.optional_relation@
        }),
{
    assert(updates_view(batch@).len() == batch@.len());
    assert forall|i: int| 0 <= i < batch@.len() implies worker.in_flight()[i] == (
    #[trigger] batch@[i])@ by {
        assert(updates_view(batch@)[i] == batch@[i]@);
    }
}

/// What has been written are the events that the worker was given first, each as
/// its own update, and what is in flight and gathered are the rest.
pub proof fn law_written_updates_are_the_events(worker: ReplicationWorker)
    requires
        worker.wf(),
    ensures
        worker.accepted_events().len() == worker.written_updates().len()
            + worker.in_flight().len() + worker.gathered().len(),
        forall|i: int| 0 <= i < worker.written_updates().len() ==> ({
            let update = #[trigger] worker.written_updates()[i];
            let t = match worker.accepted_events()[i] {
                ReplicationEvent::Upsert(t) => t,
                ReplicationEvent::Delete(t) => t,
            };
            &&& worker.accepted_events()[i] is Upsert ==> update.operation == 2
            &&& worker.accepted_events()[i] is Delete ==> update.operation == 3
            &&& update.relationship.resource.object_type == (*t.resource_type)@
            &&& update.relationship.resource.object_id == (*t.resource_id)@
            &&& update.relationship.relation == (*t.relation)@
            &&& update.relationship.subject.object.object_type == (*t.subject_type)@
            &&& update.relationship.subject.object.object_id == (*t.subject_id)@
            &&& update.relationship.subject.optional_relation.len() == 0
        }),
        forall|i: int| 0 <= i < worker.in_flight().len() ==> ({
            let update = #[trigger] worker.in_flight()[i];
            let event = worker.accepted_events()[worker.written_updates().len() + i];
            let t = match event {
                ReplicationEvent::Upsert(t) => t,
                ReplicationEvent::Delete(t) => t,
            };
            &&& event is Upsert ==> update.operation == 2
            &&& event is Delete ==> update.operation == 3
            &&& update.relationship.resource.object_type == (*t.resource_type)@
            &&& update.relationship.resource.object_id == (*t.resource_id)@
            &&& update.relationship.relation == (*t.relation)@
            &&& update.relationship.subject.object.object_type == (*t.subject_type)@
            &&& update.relationship.subject.object.object_id == (*t.subject_id)@
            &&& update.relationship.subject.optional_relation.len() == 0
        }),
{
    let accepted = worker.accepted_events();
    let written = worker.written_updates();
    let updates = updates_of(accepted);
    assert(updates.len() == accepted.len());
    assert(updates_of(worker.gathered()).len() == worker.gathered().len());
    assert forall|i: int| 0 <= i < written.len() implies #[trigger] written[i] == update_of(
        accepted[i],
    ) by {
        assert(updates[i] == written[i]);
    }
    assert forall|i: int| 0 <= i < worker.in_flight().len() implies #[trigger] worker.in_flight()[i]
        == update_of(accepted[written.len() + i]) by {
        assert(updates[written.len() + i] == worker.in_flight()[i]);
    }
}

/// A new worker has been given nothing, has its settings as its limits and gathers.
pub proof fn law_new_worker_is_idle(
    settings: ReplicationSettings,
    worker: ReplicationWorker,
    limits: &ReplicationSettings,
    phase: WorkerPhase,
)
    requires
        call_ensures(ReplicationWorker::new, (settings,), worker),
        call_ensures(ReplicationWorker::settings, (&worker,), limits),
        call_ensures(ReplicationWorker::phase, (&worker,), phase),
    ensures
        worker.wf(),
        *limits == settings,
        worker.limits() == settings,
        phase == WorkerPhase::Collecting,
        worker.accepted_events().len() == 0,
        worker.gathered().len() == 0,
        worker.written_updates().len() == 0,
{
}

/// An event that comes in is the last that was accepted. It waits with the
/// others while the batch is not full; a full batch is written at once, and
/// holds all that was gathered and the event.
pub proof fn law_received_event_waits_or_fills_the_batch(event: ReplicationEvent)
    ensures
        forall|w: &mut ReplicationWorker, action: WorkerAction| #[trigger]
            call_ensures(ReplicationWorker::on_received, (w, event), action) ==> {
                &&& final(w).wf()
                &&& final(w).accepted_events() == w.accepted_events().push(event)
                &&& final(w).limits() == w.limits()
                &&& final(w).written_updates() == w.written_updates()
                &&& w.gathered().len() + 1 < w.limits().max_batch ==> {
                    &&& action matches WorkerAction::Wait { rearm } && !rearm
                    &&& final(w).state() is Collecting
                    &&& final(w).gathered() == w.gathered().push(event)
                }
                &&& w.gathered().len() + 1 >= w.limits().max_batch ==> {
                    &&& action is Write
                    &&& final(w).state() is Writing
                    &&& final(w).gathered().len() == 0
                    &&& final(w).in_flight().len() == w.gathered().len() + 1
                    &&& final(w).retries() == 0
                    &&& !final(w).is_stopping()
                }
            },
{
    assert forall|events: Seq<ReplicationEvent>| (#[trigger] updates_of(events)).len()
        == events.len() by {}
}

/// The timer flushes what is gathered and goes on; a shutdown and the end of the
/// queue flush it and end, at once if nothing is gathered. Nothing is accepted or
/// forgotten by any of them.
pub proof fn law_timer_flushes_and_an_end_drains()
    ensures
        forall|w: &mut ReplicationWorker, action: WorkerAction| #[trigger]
            call_ensures(ReplicationWorker::on_timer, (w,), action) ==> {
                &&& final(w).wf()
                &&& final(w).accepted_events() == w.accepted_events()
                &&& final(w).limits() == w.limits()
                &&& final(w).written_updates() == w.written_updates()
                &&& w.gathered().len() == 0 ==> {
                    &&& action matches WorkerAction::Wait { rearm } && rearm
                    &&& final(w).state() == w.state()
                }
                &&& w.gathered().len() > 0 ==> {
                    &&& action is Write
                    &&& final(w).state() is Writing
                    &&& final(w).gathered().len() == 0
                    &&& final(w).in_flight().len() == w.gathered().len()
                    &&& final(w).retries() == 0
                    &&& !final(w).is_stopping()
                }
            },
        forall|w: &mut ReplicationWorker, action: WorkerAction| #[trigger]
            call_ensures(ReplicationWorker::on_shutdown, (w,), action) ==> {
                &&& final(w).wf()
                &&& final(w).accepted_events() == w.accepted_events()
                &&& final(w).limits() == w.limits()
                &&& final(w).written_updates() == w.written_updates()
                &&& w.gathered().len() == 0 ==> action is Stop && final(w).state() is Stopped
                &&& w.gathered().len() > 0 ==> {
                    &&& action is Write
                    &&& final(w).state() is Writing
                    &&& final(w).gathered().len() == 0
                    &&& final(w).in_flight().len() == w.gathered().len()
                    &&& final(w).retries() == 0
                    &&& final(w).is_stopping()
                }
            },
        forall|w: &mut ReplicationWorker, action: WorkerAction| #[trigger]
            call_ensures(ReplicationWorker::on_queue_closed, (w,), action) ==> {
                &&& final(w).wf()
                &&& final(w).accepted_events() == w.accepted_events()
                &&& final(w).limits() == w.limits()
                &&& final(w).written_updates() == w.written_updates()
                &&& w.gathered().len() == 0 ==> action is Stop && final(w).state() is Stopped
                &&& w.gathered().len() > 0 ==> {
                    &&& action is Write
                    &&& final(w).state() is Writing
                    &&& final(w).gathered().len() == 0
                    &&& final(w).in_flight().len() == w.gathered().len()
                    &&& final(w).retries() == 0
                    &&& final(w).is_stopping()
                }
            },
{
    assert forall|events: Seq<ReplicationEvent>| (#[trigger] updates_of(events)).len()
        == events.len() by {}
}

/// A batch that was written joins what is written, and leaves nothing in flight.
/// The worker then ends if it was to end, and otherwise gathers with its timer
/// started anew.
pub proof fn law_written_batch_joins_what_is_written()
    ensures
        forall|w: &mut ReplicationWorker, action: WorkerAction| #[trigger]
            call_ensures(ReplicationWorker::on_written, (w,), action) ==> {
                &&& final(w).wf()
                &&& final(w).accepted_events() == w.accepted_events()
                &&& final(w).limits() == w.limits()
                &&& final(w).written_updates() == w.written_updates() + w.in_flight()
                &&& final(w).in_flight().len() == 0
                &&& final(w).gathered().len() == 0
                &&& w.is_stopping() ==> action is Stop && final(w).state() is Stopped
                &&& !w.is_stopping() ==> {
                    &&& action matches WorkerAction::Wait { rearm } && rearm
                    &&& final(w).state() is Collecting
                }
            },
{
}

/// A write that failed leaves the batch in flight. While retries are left, one
/// more is counted and the worker waits: the base times two to the number of the
/// retry, from the tenth on times 1024, or for nothing that a duration can hold.
/// When none is left, the worker fails: it hands out the error of the write as
/// the fatal one, and ends with its own.
pub proof fn law_failed_write_is_retried_or_fails_closed(e: AuthError)
    ensures
        forall|w: &mut ReplicationWorker, action: WorkerAction| #[trigger]
            call_ensures(ReplicationWorker::on_write_failed, (w, e), action) ==> {
                &&& final(w).wf()
                &&& final(w).accepted_events() == w.accepted_events()
                &&& final(w).limits() == w.limits()
                &&& final(w).written_updates() == w.written_updates()
                &&& final(w).in_flight() == w.in_flight()
                &&& final(w).is_stopping() == w.is_stopping()
                &&& w.retries() < w.limits().max_retries ==> {
                    let retry = w.retries() + 1;
                    let wait = duration_nanos(w.limits().base_backoff) * pow2(
                        if retry < 10 {
                            retry
                        } else {
                            10
                        },
                    );
                    &&& final(w).state() is BackingOff
                    &&& final(w).retries() == retry
                    &&& action matches WorkerAction::Sleep(backoff)
                    &&& backoff is Some <==> wait <= u64::MAX * 1_000_000_000 + 999_999_999
                    &&& backoff matches Some(d) ==> duration_nanos(d) == wait
                }
                &&& w.retries() >= w.limits().max_retries ==> {
                    &&& final(w).state() is Failed
                    &&& action matches WorkerAction::FailClosed { fatal, error }
                    &&& fatal == e
                    &&& error matches AuthError::ValidationError { message }
                    &&& message@ == "replication failed permanently (fail-closed)"@
                }
            },
{
}

/// After the backoff the same batch is written again, with nothing else changed.
pub proof fn law_retry_writes_the_same_batch()
    ensures
        forall|w: &mut ReplicationWorker, action: WorkerAction| #[trigger]
            call_ensures(ReplicationWorker::on_backoff_elapsed, (w,), action) ==> {
                &&& final(w).wf()
                &&& action is Write
                &&& final(w).state() is Writing
                &&& final(w).accepted_events() == w.accepted_events()
                &&& final(w).limits() == w.limits()
                &&& final(w).written_updates() == w.written_updates()
                &&& final(w).in_flight() == w.in_flight()
                &&& final(w).retries() == w.retries()
                &&& final(w).is_stopping() == w.is_stopping()
            },
{
}

/// The wait before a retry is the base times two to the number of the retry,
/// from the tenth on times 1024; there is none only where no duration is as long.
pub proof fn law_backoff_is_a_power_of_two_times_the_base(
    base: Duration,
    attempt: usize,
    backoff: Option<Duration>,
)
    requires
        call_ensures(retry_backoff, (base, attempt), backoff),
    ensures
        ({
            let wait = duration_nanos(base) * pow2(
                if attempt < 10 {
                    attempt as nat
                } else {
                    10
                },
            );
            &&& backoff is Some <==> wait <= u64::MAX * 1_000_000_000 + 999_999_999
            &&& backoff matches Some(d) ==> duration_nanos(d) == wait
        }),
{
}

/// What holds of every worker while it works: no batch is larger than the limit,
/// where a limit of none works as one, and no batch is retried more often than
/// it may be.
pub proof fn law_limits_are_kept(worker: ReplicationWorker)
    requires
        worker.wf(),
    ensures
        worker.in_flight().len() <= worker.limits().max_batch || worker.in_flight().len() <= 1,
        worker.gathered().len() <= worker.limits().max_batch,
        worker.retries() <= worker.limits().max_retries,
{
}

/// An event is refused as an invalid input once the worker is gone.
pub proof fn law_closed_queue_is_described(error: AuthError)
    requires
        call_ensures(queue_closed, (), error),
    ensures
        error matches AuthError::ValidationError { message } && message@
            == "replication queue closed"@,
{
}

} // verus!
