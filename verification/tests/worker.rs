use dan_hotstuff::models::committee::{Committee, NodeAddress};
use dan_hotstuff::models::view_id::ViewId;
use dan_hotstuff::workers::consensus_worker::{
    ConsensusWorker,
    ConsensusWorkerState,
    ConsensusWorkerStateEvent,
};

fn worker() -> ConsensusWorker {
    let committee = Committee::new(vec![
        NodeAddress(0),
        NodeAddress(1),
        NodeAddress(2),
        NodeAddress(3),
    ]);
    ConsensusWorker::new(NodeAddress(1), committee)
}

#[test]
fn worker_walks_the_phase_pipeline() {
    let mut w = worker();
    assert_eq!(w.state, ConsensusWorkerState::Starting);
    w.transition(ConsensusWorkerStateEvent::Initialized).unwrap();
    assert_eq!(w.state, ConsensusWorkerState::Prepare);
    w.transition(ConsensusWorkerStateEvent::Prepared).unwrap();
    assert_eq!(w.state, ConsensusWorkerState::PreCommit);
    w.transition(ConsensusWorkerStateEvent::PreCommitted).unwrap();
    assert_eq!(w.state, ConsensusWorkerState::Commit);
    w.transition(ConsensusWorkerStateEvent::Committed).unwrap();
    assert_eq!(w.state, ConsensusWorkerState::Decide);
    w.transition(ConsensusWorkerStateEvent::Decided).unwrap();
    assert_eq!(w.state, ConsensusWorkerState::Prepare);
    assert_eq!(w.current_view_id, ViewId(1));
}

#[test]
fn timeout_advances_exactly_one_view_and_reenters_prepare() {
    let mut w = worker();
    w.transition(ConsensusWorkerStateEvent::Initialized).unwrap();
    w.transition(ConsensusWorkerStateEvent::Prepared).unwrap();
    assert_eq!(w.state, ConsensusWorkerState::PreCommit);
    let before = w.current_view_id.0;
    w.transition(ConsensusWorkerStateEvent::TimedOut).unwrap();
    assert_eq!(w.current_view_id.0, before + 1);
    assert_eq!(w.state, ConsensusWorkerState::Prepare);
    // A second timeout advances one more view, never two.
    w.transition(ConsensusWorkerStateEvent::TimedOut).unwrap();
    assert_eq!(w.current_view_id.0, before + 2);
    assert_eq!(w.state, ConsensusWorkerState::Prepare);
}

#[test]
fn leadership_rotates_with_the_view() {
    let mut w = worker();
    // Node 1 leads view 1 (1 % 4 == 1) but not view 0 or view 2.
    assert!(!w.get_current_view().is_leader());
    w.transition(ConsensusWorkerStateEvent::TimedOut).unwrap();
    assert!(w.get_current_view().is_leader());
    w.transition(ConsensusWorkerStateEvent::TimedOut).unwrap();
    assert!(!w.get_current_view().is_leader());
    assert_eq!(w.get_current_view().view_id(), ViewId(2));
}
