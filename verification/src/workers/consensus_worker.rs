use vstd::prelude::*;
use crate::errors::DigitalAssetError;
use crate::models::committee::{Committee, NodeAddress};
use crate::models::view::View;
use crate::models::view_id::ViewId;
use vstd::view::View as _;

verus! {

/// The phase the worker is in. One full cycle runs
/// `Starting -> Prepare -> PreCommit -> Commit -> Decide -> NextView`,
/// re-entering Prepare at the next view.
#[derive(Debug, Clone, Copy, PartialEq, Eq, Structural)]
pub enum ConsensusWorkerState {
    Starting,
    Prepare,
    PreCommit,
    Commit,
    Decide,
    NextView,
}

/// What a phase handler reported back to the worker.
#[derive(Debug, Clone, Copy, PartialEq, Eq, Structural)]
pub enum ConsensusWorkerStateEvent {
    /// Setup finished; enter the first Prepare.
    Initialized,
    /// The Prepare phase reached local completeness.
    Prepared,
    /// The PreCommit phase locked in.
    PreCommitted,
    /// The Commit phase locked the certificate.
    Committed,
    /// The Decide phase finalized the payload.
    Decided,
    /// The timeout fired before the phase finished.
    TimedOut,
}

/// The top-level driver: owns the current view number, decides leadership,
/// and advances through phases on each event a phase hands back.
#[derive(Debug)]
pub struct ConsensusWorker {
    pub node_id: NodeAddress,
    pub committee: Committee,
    pub current_view_id: ViewId,
    pub state: ConsensusWorkerState,
}

impl ConsensusWorker {
    pub fn new(node_id: NodeAddress, committee: Committee) -> (r: ConsensusWorker)
        requires
            committee.members@.len() > 0,
        ensures
            r.node_id == node_id,
            r.committee.members@ == committee.members@,
            r.current_view_id == ViewId(0),
            r.state == ConsensusWorkerState::Starting,
    {
        ConsensusWorker {
            node_id,
            committee,
            current_view_id: ViewId(0),
            state: ConsensusWorkerState::Starting,
        }
    }

    /// The round as this node sees it: leadership is resolved once, by
    /// deterministic rotation, before a phase is entered.
    pub fn get_current_view(&self) -> (r: View)
        requires
            self.committee.members@.len() > 0,
        ensures
            r.view_id == self.current_view_id,
            r.is_leader == (self.committee.members@[self.current_view_id.0 as int
                % self.committee.members@.len() as int] == self.node_id),
    {
        let leader = self.committee.leader_for_view(self.current_view_id);
        View { view_id: self.current_view_id, is_leader: leader.0 == self.node_id.0 }
    }

    /// Advances the machine on one phase event.
    ///
    /// A timeout from any phase advances the view counter by exactly one and
    /// re-enters Prepare, carrying no phase-local state forward; a finished
    /// Decide does the same for the next round. The other events step the
    /// pipeline one phase forward at an unchanged view.
    pub fn transition(&mut self, event: ConsensusWorkerStateEvent) -> (r: Result<
        (),
        DigitalAssetError,
    >)
        requires
            old(self).current_view_id.0 < u64::MAX,
        ensures
            r is Ok,
            final(self).node_id == old(self).node_id,
            final(self).committee == old(self).committee,
            event == ConsensusWorkerStateEvent::TimedOut ==> (final(self).current_view_id.0 == old(
                self,
            ).current_view_id.0 + 1 && final(self).state == ConsensusWorkerState::Prepare),
            event == ConsensusWorkerStateEvent::Decided ==> (final(self).current_view_id.0 == old(
                self,
            ).current_view_id.0 + 1 && final(self).state == ConsensusWorkerState::Prepare),
            event == ConsensusWorkerStateEvent::Initialized ==> (final(self).current_view_id == old(
                self,
            ).current_view_id && final(self).state == ConsensusWorkerState::Prepare),
            event == ConsensusWorkerStateEvent::Prepared ==> (final(self).current_view_id == old(
                self,
            ).current_view_id && final(self).state == ConsensusWorkerState::PreCommit),
            event == ConsensusWorkerStateEvent::PreCommitted ==> (final(self).current_view_id
                == old(self).current_view_id && final(self).state == ConsensusWorkerState::Commit),
            event == ConsensusWorkerStateEvent::Committed ==> (final(self).current_view_id == old(
                self,
            ).current_view_id && final(self).state == ConsensusWorkerState::Decide),
    {
        match event {
            ConsensusWorkerStateEvent::Initialized => {
                self.state = ConsensusWorkerState::Prepare;
            },
            ConsensusWorkerStateEvent::Prepared => {
                self.state = ConsensusWorkerState::PreCommit;
            },
            ConsensusWorkerStateEvent::PreCommitted => {
                self.state = ConsensusWorkerState::Commit;
            },
            ConsensusWorkerStateEvent::Committed => {
                self.state = ConsensusWorkerState::Decide;
            },
            ConsensusWorkerStateEvent::Decided => {
                self.state = ConsensusWorkerState::NextView;
                self.start_next_view();
            },
            ConsensusWorkerStateEvent::TimedOut => {
                self.state = ConsensusWorkerState::NextView;
                self.start_next_view();
            },
        }
        Ok(())
    }

    /// Advances the view counter by one and re-enters Prepare.
    fn start_next_view(&mut self)
        requires
            old(self).current_view_id.0 < u64::MAX,
        ensures
            final(self).node_id == old(self).node_id,
            final(self).committee == old(self).committee,
            final(self).current_view_id.0 == old(self).current_view_id.0 + 1,
            final(self).state == ConsensusWorkerState::Prepare,
    {
        self.current_view_id = self.current_view_id.next();
        self.state = ConsensusWorkerState::Prepare;
    }
}

} // verus!
