use vstd::prelude::*;

verus! {

/// Failures surfaced by the consensus core.
///
/// Protocol-level noise (stale views, unknown senders, duplicate votes) is
/// dropped silently by the phase handlers and never reaches this type; these
/// variants are the conditions that end a phase step or reject an input.
#[derive(Clone, Copy, Debug, PartialEq, Eq, Structural)]
pub enum DigitalAssetError {
    /// A Prepare proposal arrived without a justify certificate.
    PreparePhaseNoQuorumCertificate,
    /// A proposal's parent hash does not equal the hash its justify
    /// certificate points at for this shard.
    PreparePhaseCertificateDoesNotExtendNode,
    /// A proposal violates the HotStuff safety rule against the locked
    /// certificate.
    PreparePhaseNodeNotSafe,
    /// A message names a shard that the payload does not involve.
    MessageReceivedForWrongShard,
    /// No committee is known for a shard that a payload involves.
    MissingShardCommittee,
    /// A second, different hash was recorded for a shard that already voted;
    /// candidate Byzantine evidence, never merged silently.
    ConflictingVoteForShard,
    /// A justify certificate carries no hash for the shard that must extend it.
    JustifyMissingShardHash,
    /// A byte is not the encoding of any message type.
    InvalidMessageType,
}

} // verus!
