//! The leader's runtime: which outside work each persisted state needs, the
//! next state that the outcome of that work gives, and the adoption of a
//! state once its guarded write has landed.

use vstd::prelude::*;
use crate::bytes::{bytes_equal, copy_bytes, fresh_uuid_bytes};
use crate::keys::{consumer_group_root, instance_lock_suffix, leader_log_suffix};
use crate::keys::{instance_lock_prefix, leader_state_log_key};
use crate::state::{ConsumerGroupLeaderSM, LeaderError, LeaderInitError, LeaderStateModel, ProducerId};
use crate::store::{init_guard, init_guard_spec, persist_guard, persist_guard_spec, guard_view, TxnCompare};

verus! {

/// Time to live, in seconds, of the leases that hold barrier keys and markers.
pub const BARRIER_LEASE_TTL_SECS: i64 = 10;

/// Outside work that the current state needs before the next state is known.
#[derive(Debug, PartialEq, Eq)]
pub enum LeaderWork {
    /// None: the next state follows from the current one.
    Nothing,
    /// Grant a lease of `ttl_secs`, list the keys under `instance_lock_prefix`
    /// and create a barrier at `barrier_key` over them, bound to the lease.
    CreateBarrier { barrier_key: Vec<u8>, instance_lock_prefix: Vec<u8>, ttl_secs: i64 },
    /// Wait on the barrier at `barrier_key`, attaching to it first when
    /// `attach` holds, raced against the interrupt.
    AwaitBarrier { barrier_key: Vec<u8>, attach: bool },
    /// List the producers that are alive.
    ListProducers,
    /// Wait for the dead signal of `producer_id`, subscribing first when
    /// `subscribe` holds, raced against the interrupt. When it fires, grant a
    /// lease of `ttl_secs` and write an empty marker at `marker_key` under it.
    AwaitDeadSignal { producer_id: ProducerId, subscribe: bool, marker_key: Vec<u8>, ttl_secs: i64 },
}

/// What the outside work of a state came to.
#[derive(Debug, PartialEq, Eq)]
pub enum WorkOutcome {
    /// The work was `Nothing`.
    Done,
    /// The interrupt fired while waiting.
    Interrupted,
    BarrierCreated { lease_id: i64, barrier_key: Vec<u8>, wait_for: Vec<Vec<u8>> },
    BarrierReleased,
    ProducersListed { live: Vec<ProducerId> },
    /// The dead signal fired and the marker was written.
    ProducerDead,
}

pub ghost enum OutcomeModel {
    Done,
    Interrupted,
    BarrierCreated { lease_id: int, barrier_key: Seq<u8>, wait_for: Seq<Seq<u8>> },
    BarrierReleased,
    ProducersListed { live: Seq<ProducerId> },
    ProducerDead,
}

impl View for WorkOutcome {
    type V = OutcomeModel;

    open spec fn view(&self) -> OutcomeModel {
        match self {
            WorkOutcome::Done => OutcomeModel::Done,
            WorkOutcome::Interrupted => OutcomeModel::Interrupted,
            WorkOutcome::BarrierCreated { lease_id, barrier_key, wait_for } =>
                OutcomeModel::BarrierCreated {
                    lease_id: *lease_id as int,
                    barrier_key: barrier_key@,
                    wait_for: wait_for.deep_view(),
                },
            WorkOutcome::BarrierReleased => OutcomeModel::BarrierReleased,
            WorkOutcome::ProducersListed { live } => OutcomeModel::ProducersListed { live: live@ },
            WorkOutcome::ProducerDead => OutcomeModel::ProducerDead,
        }
    }
}

/// The first live producer that is not `excluded`.
pub open spec fn first_eligible(live: Seq<ProducerId>, excluded: Option<ProducerId>) -> Option<
    ProducerId,
>
    decreases live.len(),
{
    if live.len() == 0 {
        None
    } else if excluded == Some(live[0]) {
        first_eligible(live.drop_first(), excluded)
    } else {
        Some(live[0])
    }
}

/// The producer and execution id of the steady state that was last left.
pub type Retired = Option<(ProducerId, Seq<u8>)>;

pub open spec fn retired_producer(retired: Retired) -> Option<ProducerId> {
    match retired {
        Some((p, _)) => Some(p),
        None => None,
    }
}

/// The steady state that follows a selection among `live` with the freshly
/// minted `fresh` execution id.
pub open spec fn selection_spec(live: Seq<ProducerId>, retired: Retired, fresh: Seq<u8>) -> Result<
    LeaderStateModel,
    LeaderError,
> {
    match first_eligible(live, retired_producer(retired)) {
        None => Err(LeaderError::NoEligibleProducer),
        Some(p) => if retired matches Some((_, e)) && e == fresh {
            Err(LeaderError::ExecutionIdCollision)
        } else {
            Ok(LeaderStateModel::Idle { producer_id: p, execution_id: fresh })
        },
    }
}

/// The transition function: the next state of `s` given the outcome of its
/// work; `Ok(None)` when the loop is interrupted and nothing is to be written.
pub open spec fn advance_spec(
    s: LeaderStateModel,
    o: OutcomeModel,
    retired: Retired,
    fresh: Seq<u8>,
) -> Result<Option<LeaderStateModel>, LeaderError> {
    match (s, o) {
        (_, OutcomeModel::Interrupted) => Ok(None),
        (LeaderStateModel::Init, OutcomeModel::Done) => Ok(
            Some(LeaderStateModel::ComputingProducerSelection),
        ),
        (
            LeaderStateModel::LostProducer { .. },
            OutcomeModel::BarrierCreated { lease_id, barrier_key, wait_for },
        ) => Ok(Some(LeaderStateModel::WaitingBarrier { lease_id, barrier_key, wait_for })),
        (LeaderStateModel::WaitingBarrier { .. }, OutcomeModel::BarrierReleased) => Ok(
            Some(LeaderStateModel::ComputingProducerSelection),
        ),
        (LeaderStateModel::ComputingProducerSelection, OutcomeModel::ProducersListed { live }) =>
            match selection_spec(live, retired, fresh) {
            Ok(n) => Ok(Some(n)),
            Err(e) => Err(e),
        },
        (LeaderStateModel::Idle { producer_id, execution_id }, OutcomeModel::ProducerDead) => Ok(
            Some(LeaderStateModel::LostProducer { lost_producer_id: producer_id, execution_id }),
        ),
        _ => Err(LeaderError::OutcomeMismatch),
    }
}

pub open spec fn state_result_view(r: Result<Option<ConsumerGroupLeaderSM>, LeaderError>) -> Result<
    Option<LeaderStateModel>,
    LeaderError,
> {
    match r {
        Ok(Some(n)) => Ok(Some(n@)),
        Ok(None) => Ok(None),
        Err(e) => Err(e),
    }
}

/// What the runtime holds, as plain values.
pub ghost struct RuntimeModel {
    pub consumer_group_id: Seq<u8>,
    pub leader_key: Seq<u8>,
    pub state: LeaderStateModel,
    pub last_revision: int,
    pub barrier_cached: bool,
    pub dead_signal_cached: bool,
    pub retired: Retired,
}

/// A runtime that has just read `state` from the store: no live handle is held.
pub open spec fn resumed_spec(
    consumer_group_id: Seq<u8>,
    leader_key: Seq<u8>,
    revision: int,
    state: LeaderStateModel,
) -> RuntimeModel {
    RuntimeModel {
        consumer_group_id,
        leader_key,
        state,
        last_revision: revision,
        barrier_cached: false,
        dead_signal_cached: false,
        retired: None,
    }
}

/// The runtime after the guarded write of `next` landed at `revision`. A
/// cached handle is kept only while the state that created it stays.
pub open spec fn committed_spec(m: RuntimeModel, next: LeaderStateModel, revision: int) -> RuntimeModel {
    RuntimeModel {
        state: next,
        last_revision: revision,
        barrier_cached: m.barrier_cached && next is WaitingBarrier,
        dead_signal_cached: m.dead_signal_cached && next is Idle,
        retired: match m.state {
            LeaderStateModel::Idle { producer_id, execution_id } => Some(
                (producer_id, execution_id),
            ),
            _ => m.retired,
        },
        ..m
    }
}

/// The outcome of a guarded write that reported `put_revision`: the revision
/// that becomes the watermark, or why the loop must stop.
pub open spec fn commit_spec(last_revision: int, put_revision: Option<i64>) -> Result<int, LeaderError> {
    match put_revision {
        None => Err(LeaderError::FailedToUpdateStateLog),
        Some(r) => if r > last_revision {
            Ok(r as int)
        } else {
            Err(LeaderError::CorruptedState)
        },
    }
}

pub struct LeaderRuntime {
    consumer_group_id: Vec<u8>,
    leader_key: Vec<u8>,
    state_machine: ConsumerGroupLeaderSM,
    last_revision: i64,
    barrier_cached: bool,
    dead_signal_cached: bool,
    retired: Option<(ProducerId, Vec<u8>)>,
}

impl View for LeaderRuntime {
    type V = RuntimeModel;

    closed spec fn view(&self) -> RuntimeModel {
        RuntimeModel {
            consumer_group_id: self.consumer_group_id@,
            leader_key: self.leader_key@,
            state: self.state_machine@,
            last_revision: self.last_revision as int,
            barrier_cached: self.barrier_cached,
            dead_signal_cached: self.dead_signal_cached,
            retired: match self.retired {
                Some((p, e)) => Some((p, e@)),
                None => None,
            },
        }
    }
}

pub ghost enum WorkModel {
    Nothing,
    CreateBarrier { barrier_key: Seq<u8>, instance_lock_prefix: Seq<u8>, ttl_secs: int },
    AwaitBarrier { barrier_key: Seq<u8>, attach: bool },
    ListProducers,
    AwaitDeadSignal { producer_id: ProducerId, subscribe: bool, marker_key: Seq<u8>, ttl_secs: int },
}

impl View for LeaderWork {
    type V = WorkModel;

    open spec fn view(&self) -> WorkModel {
        match self {
            LeaderWork::Nothing => WorkModel::Nothing,
            LeaderWork::CreateBarrier { barrier_key, instance_lock_prefix, ttl_secs } =>
                WorkModel::CreateBarrier {
                    barrier_key: barrier_key@,
                    instance_lock_prefix: instance_lock_prefix@,
                    ttl_secs: *ttl_secs as int,
                },
            LeaderWork::AwaitBarrier { barrier_key, attach } => WorkModel::AwaitBarrier {
                barrier_key: barrier_key@,
                attach: *attach,
            },
            LeaderWork::ListProducers => WorkModel::ListProducers,
            LeaderWork::AwaitDeadSignal { producer_id, subscribe, marker_key, ttl_secs } =>
                WorkModel::AwaitDeadSignal {
                    producer_id: *producer_id,
                    subscribe: *subscribe,
                    marker_key: marker_key@,
                    ttl_secs: *ttl_secs as int,
                },
        }
    }
}

/// The work of the runtime `m`, where `minted` is the fresh random key that
/// creating a barrier or writing a marker uses.
pub open spec fn work_spec(m: RuntimeModel, minted: Seq<u8>) -> WorkModel {
    match m.state {
        LeaderStateModel::Init => WorkModel::Nothing,
        LeaderStateModel::LostProducer { .. } => WorkModel::CreateBarrier {
            barrier_key: minted,
            instance_lock_prefix: consumer_group_root() + m.consumer_group_id
                + instance_lock_suffix(),
            ttl_secs: BARRIER_LEASE_TTL_SECS as int,
        },
        LeaderStateModel::WaitingBarrier { barrier_key, .. } => WorkModel::AwaitBarrier {
            barrier_key,
            attach: !m.barrier_cached,
        },
        LeaderStateModel::ComputingProducerSelection => WorkModel::ListProducers,
        LeaderStateModel::Idle { producer_id, .. } => WorkModel::AwaitDeadSignal {
            producer_id,
            subscribe: !m.dead_signal_cached,
            marker_key: minted,
            ttl_secs: BARRIER_LEASE_TTL_SECS as int,
        },
    }
}

/// The runtime once the work of its state has been handed out: the handle
/// that the work attaches or subscribes is then held.
pub open spec fn planned_spec(m: RuntimeModel) -> RuntimeModel {
    match m.state {
        LeaderStateModel::WaitingBarrier { .. } => RuntimeModel { barrier_cached: true, ..m },
        LeaderStateModel::Idle { .. } => RuntimeModel { dead_signal_cached: true, ..m },
        _ => m,
    }
}

/// The runtime after the outcome `o` of its work.
pub open spec fn advanced_spec(m: RuntimeModel, o: OutcomeModel) -> RuntimeModel {
    if m.state is LostProducer && o is BarrierCreated {
        RuntimeModel { barrier_cached: true, ..m }
    } else {
        m
    }
}

/// The producer that a selection among `live` picks: the first one that is
/// not `excluded`.
pub fn select_producer(live: &Vec<ProducerId>, excluded: Option<ProducerId>) -> (r: Option<
    ProducerId,
>)
    ensures
        r == first_eligible(live@, excluded),
{
    let mut i: usize = 0;
    assert(live@.subrange(0, live@.len() as int) =~= live@);
    while i < live.len()
        invariant
            i <= live@.len(),
            first_eligible(live@.subrange(i as int, live@.len() as int), excluded)
                == first_eligible(live@, excluded),
        decreases live@.len() - i,
    {
        proof {
            let rest = live@.subrange(i as int, live@.len() as int);
            assert(rest.drop_first() =~= live@.subrange(i + 1, live@.len() as int));
            assert(rest[0] == live@[i as int]);
        }
        if excluded != Some(live[i]) {
            return Some(live[i]);
        }
        i = i + 1;
    }
    None
}

/// A selection never picks the producer that it excludes.
pub proof fn lemma_selection_excludes(live: Seq<ProducerId>, excluded: Option<ProducerId>)
    ensures
        first_eligible(live, excluded) matches Some(p) ==> excluded != Some(p) && live.contains(p),
    decreases live.len(),
{
    if live.len() > 0 {
        lemma_selection_excludes(live.drop_first(), excluded);
        if let Some(p) = first_eligible(live.drop_first(), excluded) {
            if excluded == Some(live[0]) {
                let j = choose|j: int| 0 <= j < live.drop_first().len() && live.drop_first()[j] == p;
                assert(live[j + 1] == p);
            }
        }
        assert(live[0] == live[0]);
    }
}

impl LeaderRuntime {
    /// A runtime for a group whose state log was found holding `state`, last
    /// written at `mod_revision`.
    pub fn resume(
        consumer_group_id: Vec<u8>,
        leader_key: Vec<u8>,
        mod_revision: i64,
        state: ConsumerGroupLeaderSM,
    ) -> (r: LeaderRuntime)
        ensures
            r@ == resumed_spec(consumer_group_id@, leader_key@, mod_revision as int, state@),
    {
        LeaderRuntime {
            consumer_group_id,
            leader_key,
            state_machine: state,
            last_revision: mod_revision,
            barrier_cached: false,
            dead_signal_cached: false,
            retired: None,
        }
    }

    /// The guard of the first write of a group's state log.
    pub fn bootstrap_guard(consumer_group_id: &Vec<u8>, leader_key: &Vec<u8>) -> (r: Vec<TxnCompare>)
        ensures
            guard_view(r@) == init_guard_spec(
                leader_key@,
                consumer_group_root() + consumer_group_id@ + leader_log_suffix(),
            ),
    {
        let log_key = leader_state_log_key(consumer_group_id);
        init_guard(leader_key, &log_key)
    }

    /// A runtime for a group whose state log was absent, from the revision
    /// that the guarded write of `Init` reported, if it happened.
    pub fn from_init_write(
        consumer_group_id: Vec<u8>,
        leader_key: Vec<u8>,
        put_revision: Option<i64>,
    ) -> (r: Result<LeaderRuntime, LeaderInitError>)
        ensures
            match put_revision {
                Some(rev) => r matches Ok(rt) && rt@ == resumed_spec(
                    consumer_group_id@,
                    leader_key@,
                    rev as int,
                    LeaderStateModel::Init,
                ),
                None => r == Err::<LeaderRuntime, LeaderInitError>(
                    LeaderInitError::FailedToUpdateStateLog,
                ),
            },
    {
        match put_revision {
            Some(rev) => Ok(
                LeaderRuntime::resume(consumer_group_id, leader_key, rev, ConsumerGroupLeaderSM::Init),
            ),
            None => Err(LeaderInitError::FailedToUpdateStateLog),
        }
    }

    pub fn state(&self) -> (r: &ConsumerGroupLeaderSM)
        ensures
            r@ == self@.state,
    {
        &self.state_machine
    }

    pub fn last_revision(&self) -> (r: i64)
        ensures
            r as int == self@.last_revision,
    {
        self.last_revision
    }

    /// Whether a barrier handle for the current state is held.
    pub fn barrier_cached(&self) -> (r: bool)
        ensures
            r == self@.barrier_cached,
    {
        self.barrier_cached
    }

    /// Whether a dead-signal subscription for the current state is held.
    pub fn dead_signal_cached(&self) -> (r: bool)
        ensures
            r == self@.dead_signal_cached,
    {
        self.dead_signal_cached
    }

    /// The key of the group's state log.
    pub fn state_log_key(&self) -> (r: Vec<u8>)
        ensures
            r@ == consumer_group_root() + self@.consumer_group_id + leader_log_suffix(),
    {
        leader_state_log_key(&self.consumer_group_id)
    }

    /// The guard of the next write of the state log.
    pub fn write_guard(&self) -> (r: Vec<TxnCompare>)
        ensures
            guard_view(r@) == persist_guard_spec(
                self@.leader_key,
                consumer_group_root() + self@.consumer_group_id + leader_log_suffix(),
                self@.last_revision,
            ),
    {
        let log_key = leader_state_log_key(&self.consumer_group_id);
        persist_guard(&self.leader_key, &log_key, self.last_revision)
    }

    /// Hands out the work that the current state needs. The handle that the
    /// work attaches or subscribes counts as held from then on.
    pub fn plan(&mut self) -> (r: LeaderWork)
        ensures
            exists|minted: Seq<u8>| minted.len() == 16 && r@ == #[trigger] work_spec(old(self)@, minted),
            final(self)@ == planned_spec(old(self)@),
    {
        match &self.state_machine {
            ConsumerGroupLeaderSM::Init => {
                assert(LeaderWork::Nothing@ == work_spec(self@, Seq::new(16, |i: int| 0u8)));
                LeaderWork::Nothing
            },
            ConsumerGroupLeaderSM::LostProducer { .. } => {
                let barrier_key = fresh_uuid_bytes();
                let r = LeaderWork::CreateBarrier {
                    barrier_key,
                    instance_lock_prefix: instance_lock_prefix(&self.consumer_group_id),
                    ttl_secs: BARRIER_LEASE_TTL_SECS,
                };
                assert(r@ == work_spec(self@, barrier_key@));
                r
            },
            ConsumerGroupLeaderSM::WaitingBarrier { barrier_key, .. } => {
                let r = LeaderWork::AwaitBarrier {
                    barrier_key: copy_bytes(barrier_key),
                    attach: !self.barrier_cached,
                };
                assert(r@ == work_spec(self@, Seq::new(16, |i: int| 0u8)));
                self.barrier_cached = true;
                r
            },
            ConsumerGroupLeaderSM::ComputingProducerSelection => {
                assert(LeaderWork::ListProducers@ == work_spec(self@, Seq::new(16, |i: int| 0u8)));
                LeaderWork::ListProducers
            },
            ConsumerGroupLeaderSM::Idle { producer_id, .. } => {
                let marker_key = fresh_uuid_bytes();
                let r = LeaderWork::AwaitDeadSignal {
                    producer_id: *producer_id,
                    subscribe: !self.dead_signal_cached,
                    marker_key,
                    ttl_secs: BARRIER_LEASE_TTL_SECS,
                };
                assert(r@ == work_spec(self@, marker_key@));
                self.dead_signal_cached = true;
                r
            },
        }
    }

    /// The steady state that a selection among the live producers `live`
    /// gives, with `fresh_execution_id` as its new execution id.
    pub fn next_idle(&self, live: &Vec<ProducerId>, fresh_execution_id: Vec<u8>) -> (r: Result<
        ConsumerGroupLeaderSM,
        LeaderError,
    >)
        ensures
            match selection_spec(live@, self@.retired, fresh_execution_id@) {
                Ok(n) => r matches Ok(s) && s@ == n,
                Err(e) => r matches Err(x) && x == e,
            },
    {
        let excluded = match &self.retired {
            Some((p, _)) => Some(*p),
            None => None,
        };
        match select_producer(live, excluded) {
            None => Err(LeaderError::NoEligibleProducer),
            Some(p) => {
                if let Some((_, e)) = &self.retired {
                    if bytes_equal(e, &fresh_execution_id) {
                        return Err(LeaderError::ExecutionIdCollision);
                    }
                }
                Ok(ConsumerGroupLeaderSM::Idle { producer_id: p, execution_id: fresh_execution_id })
            },
        }
    }

    /// The next state, from the outcome of the current state's work;
    /// `Ok(None)` when the loop was interrupted and must stop without a write.
    /// A selection mints a fresh execution id.
    pub fn advance(&mut self, outcome: WorkOutcome) -> (r: Result<
        Option<ConsumerGroupLeaderSM>,
        LeaderError,
    >)
        ensures
            exists|fresh: Seq<u8>|
                fresh.len() == 16 && state_result_view(r) == #[trigger] advance_spec(
                    old(self)@.state,
                    outcome@,
                    old(self)@.retired,
                    fresh,
                ),
            final(self)@ == advanced_spec(old(self)@, outcome@),
    {
        let ghost m = self@;
        let ghost o = outcome@;
        let ghost w = Seq::new(16, |i: int| 0u8);
        if let WorkOutcome::Interrupted = outcome {
            assert(advance_spec(m.state, o, m.retired, w) == Ok::<Option<LeaderStateModel>, LeaderError>(None));
            return Ok(None);
        }
        match (&self.state_machine, outcome) {
            (ConsumerGroupLeaderSM::Init, WorkOutcome::Done) => {
                let r = Ok(Some(ConsumerGroupLeaderSM::ComputingProducerSelection));
                assert(state_result_view(r) == advance_spec(m.state, o, m.retired, w));
                r
            },
            (
                ConsumerGroupLeaderSM::LostProducer { .. },
                WorkOutcome::BarrierCreated { lease_id, barrier_key, wait_for },
            ) => {
                self.barrier_cached = true;
                let r = Ok(
                    Some(ConsumerGroupLeaderSM::WaitingBarrier { lease_id, barrier_key, wait_for }),
                );
                assert(state_result_view(r) == advance_spec(m.state, o, m.retired, w));
                r
            },
            (ConsumerGroupLeaderSM::WaitingBarrier { .. }, WorkOutcome::BarrierReleased) => {
                let r = Ok(Some(ConsumerGroupLeaderSM::ComputingProducerSelection));
                assert(state_result_view(r) == advance_spec(m.state, o, m.retired, w));
                r
            },
            (ConsumerGroupLeaderSM::ComputingProducerSelection, WorkOutcome::ProducersListed { live }) => {
                let fresh = fresh_uuid_bytes();
                let ghost f = fresh@;
                let r = match self.next_idle(&live, fresh) {
                    Ok(n) => Ok(Some(n)),
                    Err(e) => Err(e),
                };
                assert(state_result_view(r) == advance_spec(m.state, o, m.retired, f));
                r
            },
            (ConsumerGroupLeaderSM::Idle { producer_id, execution_id }, WorkOutcome::ProducerDead) => {
                let r = Ok(
                    Some(
                        ConsumerGroupLeaderSM::LostProducer {
                            lost_producer_id: *producer_id,
                            execution_id: copy_bytes(execution_id),
                        },
                    ),
                );
                assert(state_result_view(r) == advance_spec(m.state, o, m.retired, w));
                r
            },
            _ => {
                assert(advance_spec(m.state, o, m.retired, w) == Err::<Option<LeaderStateModel>, LeaderError>(LeaderError::OutcomeMismatch));
                Err(LeaderError::OutcomeMismatch)
            },
        }
    }

    /// Adopts `next` once its guarded write reported `put_revision`. A write
    /// that did not happen, or a revision that does not move past the
    /// watermark, leaves the runtime unchanged and ends the loop.
    pub fn commit(&mut self, next: ConsumerGroupLeaderSM, put_revision: Option<i64>) -> (r: Result<
        (),
        LeaderError,
    >)
        ensures
            match commit_spec(old(self)@.last_revision, put_revision) {
                Ok(rev) => r is Ok && final(self)@ == committed_spec(old(self)@, next@, rev),
                Err(e) => r == Err::<(), LeaderError>(e) && final(self)@ == old(self)@,
            },
    {
        let rev = match put_revision {
            None => {
                return Err(LeaderError::FailedToUpdateStateLog);
            },
            Some(rev) => rev,
        };
        if rev <= self.last_revision {
            return Err(LeaderError::CorruptedState);
        }
        let keep_barrier = self.barrier_cached && matches!(next, ConsumerGroupLeaderSM::WaitingBarrier { .. });
        let keep_signal = self.dead_signal_cached && matches!(next, ConsumerGroupLeaderSM::Idle { .. });
        let mut prev = next;
        std::mem::swap(&mut self.state_machine, &mut prev);
        if let ConsumerGroupLeaderSM::Idle { producer_id, execution_id } = prev {
            self.retired = Some((producer_id, execution_id));
        }
        self.last_revision = rev;
        self.barrier_cached = keep_barrier;
        self.dead_signal_cached = keep_signal;
        Ok(())
    }
}

/// Whether each write of `puts`, in turn, is adopted from the watermark `start`.
pub open spec fn commits_adopted(start: int, puts: Seq<i64>) -> bool
    decreases puts.len(),
{
    puts.len() == 0 || (commit_spec(start, Some(puts[0])) is Ok && commits_adopted(
        puts[0] as int,
        puts.drop_first(),
    ))
}

/// Over any run of adopted writes, the watermark after each write is the
/// revision that the store reported for it, and it strictly increases.
pub proof fn lemma_watermark_increases(start: int, puts: Seq<i64>)
    requires
        commits_adopted(start, puts),
    ensures
        forall|i: int|
            0 <= i < puts.len() ==> commit_spec(
                if i == 0 {
                    start
                } else {
                    puts[i - 1] as int
                },
                Some(#[trigger] puts[i]),
            ) == Ok::<int, LeaderError>(puts[i] as int),
        forall|i: int, j: int| 0 <= i < j < puts.len() ==> start < #[trigger] puts[i] < #[trigger] puts[j],
        forall|i: int| 0 <= i < puts.len() ==> start < #[trigger] puts[i],
    decreases puts.len(),
{
    if puts.len() > 0 {
        let rest = puts.drop_first();
        lemma_watermark_increases(puts[0] as int, rest);
        assert forall|i: int| 0 <= i < puts.len() implies commit_spec(
            if i == 0 {
                start
            } else {
                puts[i - 1] as int
            },
            Some(#[trigger] puts[i]),
        ) == Ok::<int, LeaderError>(puts[i] as int) by {
            if i > 0 {
                assert(puts[i] == rest[i - 1]);
                if i > 1 {
                    assert(puts[i - 1] == rest[i - 2]);
                }
            }
        }
        assert forall|i: int| 0 <= i < puts.len() implies start < #[trigger] puts[i] by {
            if i > 0 {
                assert(puts[i] == rest[i - 1]);
            }
        }
        assert forall|i: int, j: int| 0 <= i < j < puts.len() implies start < #[trigger] puts[i] < #[trigger] puts[j] by {
            assert(puts[j] == rest[j - 1]);
            if i > 0 {
                assert(puts[i] == rest[i - 1]);
            }
        }
    }
}

/// A runtime that restarts on a persisted `WaitingBarrier` attaches to the
/// same barrier key, and every outcome of that wait leads where it would
/// have led with the handle that was lost.
pub proof fn lemma_waiting_barrier_resumable(m: RuntimeModel, fresh: Seq<u8>, o: OutcomeModel)
    requires
        m.state is WaitingBarrier,
    ensures
        ({
            let r = resumed_spec(m.consumer_group_id, m.leader_key, m.last_revision, m.state);
            &&& work_spec(r, fresh) == WorkModel::AwaitBarrier {
                barrier_key: m.state->WaitingBarrier_barrier_key,
                attach: true,
            }
            &&& advance_spec(r.state, o, r.retired, fresh) == advance_spec(
                m.state,
                o,
                m.retired,
                fresh,
            )
        }),
{
}

/// An interrupt, in whatever state it comes, asks for no write and leaves the
/// runtime as it was; the persisted state stays the authority.
pub proof fn lemma_interrupt_writes_nothing(m: RuntimeModel, fresh: Seq<u8>)
    ensures
        advance_spec(m.state, OutcomeModel::Interrupted, m.retired, fresh) == Ok::<
            Option<LeaderStateModel>,
            LeaderError,
        >(None),
        advanced_spec(m, OutcomeModel::Interrupted) == m,
{
}

/// Whether `next` may follow `s` in the cycle Init, ComputingProducerSelection,
/// Idle, LostProducer, WaitingBarrier, ComputingProducerSelection, ...
pub open spec fn follows_in_cycle(s: LeaderStateModel, next: LeaderStateModel) -> bool {
    match s {
        LeaderStateModel::Init => next is ComputingProducerSelection,
        LeaderStateModel::ComputingProducerSelection => next is Idle,
        LeaderStateModel::Idle { producer_id, execution_id } => next
            == LeaderStateModel::LostProducer { lost_producer_id: producer_id, execution_id },
        LeaderStateModel::LostProducer { .. } => next is WaitingBarrier,
        LeaderStateModel::WaitingBarrier { .. } => next is ComputingProducerSelection,
    }
}

/// Every transition follows the cycle, and a new steady state never keeps
/// the producer or the execution id of the one that was left.
pub proof fn lemma_transitions_follow_cycle(
    s: LeaderStateModel,
    o: OutcomeModel,
    retired: Retired,
    fresh: Seq<u8>,
)
    ensures
        advance_spec(s, o, retired, fresh) matches Ok(Some(n)) ==> follows_in_cycle(s, n),
        advance_spec(s, o, retired, fresh) matches Ok(Some(n)) ==> (n matches LeaderStateModel::Idle {
            producer_id,
            execution_id,
        } ==> (retired matches Some((p, e)) ==> producer_id != p && execution_id != e)),
{
    if let OutcomeModel::ProducersListed { live } = o {
        lemma_selection_excludes(live, retired_producer(retired));
    }
}

} // verus!
