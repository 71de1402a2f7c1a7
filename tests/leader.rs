use consumer_group_leader::keys::{
    instance_lock_prefix, leader_state_log_key, producer_from_lock_key, producer_lock_key,
    producer_lock_prefix,
};
use consumer_group_leader::{
    init_guard, persist_guard, select_producer, CompareOp, CompareTarget, ConsumerGroupLeaderSM,
    DeadSignal, LeaderError, LeaderInitError, LeaderRuntime, LeaderWork, ProducerId,
    WatchEventKind, WorkOutcome, BARRIER_LEASE_TTL_SECS,
};

fn p(id: u8) -> ProducerId {
    ProducerId { id }
}

fn group() -> Vec<u8> {
    b"G1".to_vec()
}

fn leader_key() -> Vec<u8> {
    b"leader-lock".to_vec()
}

fn idle(producer: u8, exec: &[u8]) -> ConsumerGroupLeaderSM {
    ConsumerGroupLeaderSM::Idle { producer_id: p(producer), execution_id: exec.to_vec() }
}

#[test]
fn key_layout() {
    assert_eq!(leader_state_log_key(&group()), b"v1/consumer-groups/G1/leader-state-log".to_vec());
    assert_eq!(instance_lock_prefix(&group()), b"v1/consumer-groups/G1/instance-locks/".to_vec());
    let mut expected = b"v1/producer-locks/".to_vec();
    expected.push(7);
    assert_eq!(producer_lock_key(p(7)), expected);
    assert_eq!(producer_lock_prefix(), b"v1/producer-locks/".to_vec());
}

#[test]
fn init_guard_requires_lock_and_absent_log() {
    let g = init_guard(&leader_key(), &b"log".to_vec());
    assert_eq!(g.len(), 2);
    assert_eq!(g[0].key, leader_key());
    assert_eq!(g[0].target, CompareTarget::Version);
    assert_eq!(g[0].op, CompareOp::Greater);
    assert_eq!(g[0].value, 0);
    assert_eq!(g[1].key, b"log".to_vec());
    assert_eq!(g[1].target, CompareTarget::Version);
    assert_eq!(g[1].op, CompareOp::Equal);
    assert_eq!(g[1].value, 0);
}

#[test]
fn persist_guard_is_an_equality_on_mod_revision() {
    let g = persist_guard(&leader_key(), &b"log".to_vec(), 42);
    assert_eq!(g.len(), 2);
    assert_eq!(g[0].op, CompareOp::Greater);
    assert_eq!(g[1].key, b"log".to_vec());
    assert_eq!(g[1].target, CompareTarget::ModRevision);
    assert_eq!(g[1].op, CompareOp::Equal);
    assert_eq!(g[1].value, 42);
}

#[test]
fn runtime_write_guard_uses_watermark_and_log_key() {
    let rt = LeaderRuntime::resume(group(), leader_key(), 17, ConsumerGroupLeaderSM::Init);
    let g = rt.write_guard();
    assert_eq!(g[0].key, leader_key());
    assert_eq!(g[1].key, leader_state_log_key(&group()));
    assert_eq!(g[1].value, 17);
    assert_eq!(rt.state_log_key(), leader_state_log_key(&group()));
    let b = LeaderRuntime::bootstrap_guard(&group(), &leader_key());
    assert_eq!(b[1].key, leader_state_log_key(&group()));
    assert_eq!(b[1].target, CompareTarget::Version);
}

#[test]
fn bootstrap_winner_starts_in_init() {
    let rt = LeaderRuntime::from_init_write(group(), leader_key(), Some(5)).unwrap();
    assert_eq!(rt.state(), &ConsumerGroupLeaderSM::Init);
    assert_eq!(rt.last_revision(), 5);
    assert!(!rt.barrier_cached());
    assert!(!rt.dead_signal_cached());
}

#[test]
fn bootstrap_loser_fails_to_update_state_log() {
    let r = LeaderRuntime::from_init_write(group(), leader_key(), None);
    assert_eq!(r.err(), Some(LeaderInitError::FailedToUpdateStateLog));
    assert_eq!(LeaderInitError::FailedToUpdateStateLog.message(), "FailedToUpdateStateLog");
    assert_eq!(
        LeaderError::from_init(LeaderInitError::FailedToUpdateStateLog),
        LeaderError::FailedToUpdateStateLog
    );
}

#[test]
fn dead_signal_fires_at_once_when_key_absent() {
    let mut s = DeadSignal::subscribe(0);
    assert!(s.is_fired());
    assert_eq!(s.observe(WatchEventKind::Delete), Ok(false));
    assert_eq!(s.observe(WatchEventKind::Put), Ok(false));
}

#[test]
fn dead_signal_fires_once_on_delete() {
    let mut s = DeadSignal::subscribe(1);
    assert!(!s.is_fired());
    assert_eq!(s.observe(WatchEventKind::Delete), Ok(true));
    assert!(s.is_fired());
    assert_eq!(s.observe(WatchEventKind::Delete), Ok(false));
}

#[test]
fn dead_signal_put_is_corruption() {
    let mut s = DeadSignal::subscribe(1);
    assert_eq!(s.observe(WatchEventKind::Put), Err(LeaderError::CorruptedState));
    assert!(!s.is_fired());
}

#[test]
fn selection_skips_excluded() {
    assert_eq!(select_producer(&vec![p(1), p(2), p(3)], Some(p(1))), Some(p(2)));
    assert_eq!(select_producer(&vec![p(1), p(2)], None), Some(p(1)));
    assert_eq!(select_producer(&vec![p(1), p(1)], Some(p(1))), None);
    assert_eq!(select_producer(&vec![], None), None);
}

#[test]
fn init_goes_to_selection() {
    let mut rt = LeaderRuntime::from_init_write(group(), leader_key(), Some(1)).unwrap();
    assert_eq!(rt.plan(), LeaderWork::Nothing);
    let next = rt.advance(WorkOutcome::Done).unwrap().unwrap();
    assert_eq!(next, ConsumerGroupLeaderSM::ComputingProducerSelection);
    assert_eq!(rt.commit(next, Some(2)), Ok(()));
    assert_eq!(rt.last_revision(), 2);
    assert_eq!(rt.plan(), LeaderWork::ListProducers);
}

#[test]
fn end_to_end_failover() {
    let e1 = b"E1".to_vec();
    let mut rt = LeaderRuntime::resume(group(), leader_key(), 10, idle(1, &e1));

    let marker = match rt.plan() {
        LeaderWork::AwaitDeadSignal { producer_id, subscribe, marker_key, ttl_secs } => {
            assert_eq!(producer_id, p(1));
            assert!(subscribe);
            assert_eq!(ttl_secs, BARRIER_LEASE_TTL_SECS);
            marker_key
        }
        w => panic!("unexpected work {w:?}"),
    };
    assert_eq!(marker.len(), 16);
    assert!(rt.dead_signal_cached());

    let lost = rt.advance(WorkOutcome::ProducerDead).unwrap().unwrap();
    assert_eq!(
        lost,
        ConsumerGroupLeaderSM::LostProducer { lost_producer_id: p(1), execution_id: e1.clone() }
    );
    assert_eq!(rt.commit(lost, Some(11)), Ok(()));
    assert!(!rt.dead_signal_cached());

    let barrier_key = match rt.plan() {
        LeaderWork::CreateBarrier { barrier_key, instance_lock_prefix: prefix, ttl_secs } => {
            assert_eq!(prefix, instance_lock_prefix(&group()));
            assert_eq!(ttl_secs, 10);
            barrier_key
        }
        w => panic!("unexpected work {w:?}"),
    };
    assert_eq!(barrier_key.len(), 16);
    assert_ne!(barrier_key, marker);

    let wait_for = vec![b"I1".to_vec(), b"I2".to_vec()];
    let waiting = rt
        .advance(WorkOutcome::BarrierCreated {
            lease_id: 99,
            barrier_key: barrier_key.clone(),
            wait_for: wait_for.clone(),
        })
        .unwrap()
        .unwrap();
    assert_eq!(
        waiting,
        ConsumerGroupLeaderSM::WaitingBarrier {
            lease_id: 99,
            barrier_key: barrier_key.clone(),
            wait_for: wait_for.clone()
        }
    );
    assert_eq!(rt.commit(waiting, Some(12)), Ok(()));
    assert!(rt.barrier_cached());

    assert_eq!(
        rt.plan(),
        LeaderWork::AwaitBarrier { barrier_key: barrier_key.clone(), attach: false }
    );
    let selecting = rt.advance(WorkOutcome::BarrierReleased).unwrap().unwrap();
    assert_eq!(selecting, ConsumerGroupLeaderSM::ComputingProducerSelection);
    assert_eq!(rt.commit(selecting, Some(13)), Ok(()));
    assert!(!rt.barrier_cached());

    assert_eq!(rt.plan(), LeaderWork::ListProducers);
    let next = rt.advance(WorkOutcome::ProducersListed { live: vec![p(1), p(2)] }).unwrap().unwrap();
    match &next {
        ConsumerGroupLeaderSM::Idle { producer_id, execution_id } => {
            assert_eq!(*producer_id, p(2));
            assert_eq!(execution_id.len(), 16);
            assert_ne!(execution_id, &e1);
        }
        s => panic!("unexpected state {s:?}"),
    }
    assert_eq!(rt.commit(next, Some(14)), Ok(()));
    assert_eq!(rt.last_revision(), 14);
}

#[test]
fn interrupt_while_waiting_on_barrier_writes_nothing() {
    let state = ConsumerGroupLeaderSM::WaitingBarrier {
        lease_id: 3,
        barrier_key: b"bk".to_vec(),
        wait_for: vec![b"I1".to_vec()],
    };
    let mut rt = LeaderRuntime::resume(group(), leader_key(), 8, state);
    let _ = rt.plan();
    assert_eq!(rt.advance(WorkOutcome::Interrupted), Ok(None));
    assert_eq!(rt.last_revision(), 8);
    assert_eq!(
        rt.state(),
        &ConsumerGroupLeaderSM::WaitingBarrier {
            lease_id: 3,
            barrier_key: b"bk".to_vec(),
            wait_for: vec![b"I1".to_vec()],
        }
    );
}

#[test]
fn waiting_barrier_resumes_by_attaching() {
    let state = ConsumerGroupLeaderSM::WaitingBarrier {
        lease_id: 3,
        barrier_key: b"bk".to_vec(),
        wait_for: vec![b"I1".to_vec(), b"I2".to_vec()],
    };
    let mut rt = LeaderRuntime::resume(group(), leader_key(), 8, state);
    assert_eq!(rt.plan(), LeaderWork::AwaitBarrier { barrier_key: b"bk".to_vec(), attach: true });
    assert_eq!(rt.plan(), LeaderWork::AwaitBarrier { barrier_key: b"bk".to_vec(), attach: false });
    assert_eq!(
        rt.advance(WorkOutcome::BarrierReleased),
        Ok(Some(ConsumerGroupLeaderSM::ComputingProducerSelection))
    );
}

#[test]
fn failed_guarded_write_keeps_runtime() {
    let mut rt = LeaderRuntime::resume(group(), leader_key(), 20, ConsumerGroupLeaderSM::Init);
    let r = rt.commit(ConsumerGroupLeaderSM::ComputingProducerSelection, None);
    assert_eq!(r, Err(LeaderError::FailedToUpdateStateLog));
    assert_eq!(rt.state(), &ConsumerGroupLeaderSM::Init);
    assert_eq!(rt.last_revision(), 20);
}

#[test]
fn non_increasing_revision_is_corruption() {
    let mut rt = LeaderRuntime::resume(group(), leader_key(), 20, ConsumerGroupLeaderSM::Init);
    let r = rt.commit(ConsumerGroupLeaderSM::ComputingProducerSelection, Some(20));
    assert_eq!(r, Err(LeaderError::CorruptedState));
    assert_eq!(rt.last_revision(), 20);
    assert_eq!(rt.commit(ConsumerGroupLeaderSM::ComputingProducerSelection, Some(25)), Ok(()));
    assert_eq!(rt.last_revision(), 25);
}

#[test]
fn outcome_of_another_state_is_refused() {
    let mut rt = LeaderRuntime::resume(group(), leader_key(), 1, ConsumerGroupLeaderSM::Init);
    assert_eq!(rt.advance(WorkOutcome::BarrierReleased), Err(LeaderError::OutcomeMismatch));
    assert_eq!(rt.state(), &ConsumerGroupLeaderSM::Init);
}

#[test]
fn selection_errors() {
    let mut rt = LeaderRuntime::resume(group(), leader_key(), 1, idle(1, b"E1"));
    let lost = rt.advance(WorkOutcome::ProducerDead).unwrap().unwrap();
    rt.commit(lost, Some(2)).unwrap();
    assert_eq!(rt.next_idle(&vec![p(1)], b"E9".to_vec()), Err(LeaderError::NoEligibleProducer));
    assert_eq!(
        rt.next_idle(&vec![p(1), p(3)], b"E1".to_vec()),
        Err(LeaderError::ExecutionIdCollision)
    );
    assert_eq!(rt.next_idle(&vec![p(1), p(3)], b"E2".to_vec()), Ok(idle(3, b"E2")));
}

#[test]
fn fresh_keys_differ_between_plans() {
    let mut rt = LeaderRuntime::resume(group(), leader_key(), 1, idle(4, b"E"));
    let a = rt.plan();
    let b = rt.plan();
    match (a, b) {
        (
            LeaderWork::AwaitDeadSignal { marker_key: ka, subscribe: sa, .. },
            LeaderWork::AwaitDeadSignal { marker_key: kb, subscribe: sb, .. },
        ) => {
            assert!(sa);
            assert!(!sb);
            assert_eq!(ka.len(), 16);
            assert_ne!(ka, kb);
        }
        _ => panic!("unexpected work"),
    }
}

#[test]
fn lock_key_round_trip() {
    assert_eq!(producer_from_lock_key(&producer_lock_key(p(9))), Some(p(9)));
    assert_eq!(producer_from_lock_key(&b"v1/producer-locks/".to_vec()), None);
    assert_eq!(producer_from_lock_key(&b"v1/producer-lockX/1".to_vec()), None);
    assert_eq!(producer_from_lock_key(&Vec::new()), None);
}
