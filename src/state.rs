use vstd::prelude::*;

verus! {

/// Identifier of a producer: one byte names a producing machine.
#[derive(Clone, Copy, Debug, PartialEq, Eq, Structural)]
pub struct ProducerId {
    pub id: u8,
}

/// The persisted state of a consumer group's leader.
#[derive(Debug, PartialEq, Eq)]
pub enum ConsumerGroupLeaderSM {
    Init,
    LostProducer { lost_producer_id: ProducerId, execution_id: Vec<u8> },
    WaitingBarrier { lease_id: i64, barrier_key: Vec<u8>, wait_for: Vec<Vec<u8>> },
    ComputingProducerSelection,
    Idle { producer_id: ProducerId, execution_id: Vec<u8> },
}

/// Mathematical value of a `ConsumerGroupLeaderSM`.
pub ghost enum LeaderStateModel {
    Init,
    LostProducer { lost_producer_id: ProducerId, execution_id: Seq<u8> },
    WaitingBarrier { lease_id: int, barrier_key: Seq<u8>, wait_for: Seq<Seq<u8>> },
    ComputingProducerSelection,
    Idle { producer_id: ProducerId, execution_id: Seq<u8> },
}

impl View for ConsumerGroupLeaderSM {
    type V = LeaderStateModel;

    open spec fn view(&self) -> LeaderStateModel {
        match self {
            ConsumerGroupLeaderSM::Init => LeaderStateModel::Init,
            ConsumerGroupLeaderSM::LostProducer { lost_producer_id, execution_id } =>
                LeaderStateModel::LostProducer {
                    lost_producer_id: *lost_producer_id,
                    execution_id: execution_id@,
                },
            ConsumerGroupLeaderSM::WaitingBarrier { lease_id, barrier_key, wait_for } =>
                LeaderStateModel::WaitingBarrier {
                    lease_id: *lease_id as int,
                    barrier_key: barrier_key@,
                    wait_for: wait_for.deep_view(),
                },
            ConsumerGroupLeaderSM::ComputingProducerSelection =>
                LeaderStateModel::ComputingProducerSelection,
            ConsumerGroupLeaderSM::Idle { producer_id, execution_id } => LeaderStateModel::Idle {
                producer_id: *producer_id,
                execution_id: execution_id@,
            },
        }
    }
}

/// Raised when the state log of the group could not be written under its guard.
#[derive(Clone, Copy, Debug, PartialEq, Eq, Structural)]
pub enum LeaderInitError {
    FailedToUpdateStateLog,
}

impl LeaderInitError {
    /// The name of the error, as it is shown to an operator.
    pub fn message(&self) -> (r: &'static str)
        ensures
            r@ == "FailedToUpdateStateLog"@,
    {
        match self {
            LeaderInitError::FailedToUpdateStateLog => "FailedToUpdateStateLog",
        }
    }
}

/// Errors that end the leader loop of a group.
#[derive(Clone, Copy, Debug, PartialEq, Eq, Structural)]
pub enum LeaderError {
    /// The guarded write of the state log did not happen: leadership may be lost.
    FailedToUpdateStateLog,
    /// The store reported something that cannot happen in a sound system.
    CorruptedState,
    /// No live producer other than the lost one can be selected.
    NoEligibleProducer,
    /// A freshly minted execution id equals the one it must replace.
    ExecutionIdCollision,
    /// The outcome handed back does not belong to the work of the current state.
    OutcomeMismatch,
}

impl LeaderError {
    /// The bootstrap error as a loop error.
    pub fn from_init(e: LeaderInitError) -> (r: LeaderError)
        ensures
            r == LeaderError::FailedToUpdateStateLog,
    {
        match e {
            LeaderInitError::FailedToUpdateStateLog => LeaderError::FailedToUpdateStateLog,
        }
    }
}

} // verus!
