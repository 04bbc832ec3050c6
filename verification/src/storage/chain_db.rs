use vstd::prelude::*;
use crate::errors::DigitalAssetError;
use crate::models::quorum_certificate::QuorumCertificate;
use crate::models::tree_node_hash::TreeNodeHash;

verus! {

/// A writable view of the chain store scoped to one phase step: the locked
/// certificate and the nodes added so far, each with its parent link.
#[derive(Debug)]
pub struct ChainDbUnitOfWork {
    pub locked_qc: QuorumCertificate,
    pub nodes: Vec<(TreeNodeHash, TreeNodeHash)>,
}

impl ChainDbUnitOfWork {
    pub open spec fn well_formed(&self) -> bool {
        self.locked_qc.well_formed()
    }

    /// A fresh unit of work locked on the genesis certificate.
    pub fn new() -> (r: ChainDbUnitOfWork)
        ensures
            r.well_formed(),
            r.locked_qc.spec_message_type()
                == crate::models::hot_stuff_message_type::HotStuffMessageType::Genesis,
            r.locked_qc.spec_view_number().0 == 0,
            r.nodes@.len() == 0,
    {
        ChainDbUnitOfWork { locked_qc: QuorumCertificate::genesis(TreeNodeHash::zero()), nodes: Vec::new() }
    }

    pub fn get_locked_qc(&self) -> (r: Result<&QuorumCertificate, DigitalAssetError>)
        ensures
            r matches Ok(qc) && *qc == self.locked_qc,
    {
        Ok(&self.locked_qc)
    }

    /// Replaces the locked certificate with a copy of `qc`.
    pub fn set_locked_qc(&mut self, qc: &QuorumCertificate) -> (r: Result<(), DigitalAssetError>)
        requires
            qc.well_formed(),
        ensures
            r is Ok,
            final(self).well_formed(),
            final(self).locked_qc.model() == qc.model(),
            final(self).nodes@ == old(self).nodes@,
    {
        self.locked_qc = qc.duplicate();
        Ok(())
    }

    /// Records one accepted node and its parent link.
    pub fn add_node(&mut self, hash: &TreeNodeHash, parent: &TreeNodeHash) -> (r: Result<
        (),
        DigitalAssetError,
    >)
        ensures
            r is Ok,
            final(self).nodes@.len() == old(self).nodes@.len() + 1,
            final(self).nodes@.last().0@ == hash@,
            final(self).nodes@.last().1@ == parent@,
            forall|i: int|
                0 <= i < old(self).nodes@.len() ==> final(self).nodes@[i] == old(self).nodes@[i],
            final(self).locked_qc == old(self).locked_qc,
    {
        self.nodes.push((hash.duplicate(), parent.duplicate()));
        Ok(())
    }
}

} // verus!
