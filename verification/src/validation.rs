//! Acceptance of quorum certificates, as the phase handlers perform it: a
//! certificate is taken only on enough distinct, verifying committee
//! signatures and full shard coverage — except for the genesis anchor,
//! which is accepted without threshold checks.

use vstd::prelude::*;
use vstd::bytes::spec_u64_to_le_bytes;
use crate::hashing::blake256_of;
use crate::models::committee::{Committee, NodeAddress};
use crate::models::hot_stuff_message::{
    spec_challenge_preimage,
    spec_vote_entries_encoding,
    HotStuffMessage,
};
use crate::models::hot_stuff_message_type::HotStuffMessageType;
use crate::models::payload::SimplePayload;
use crate::models::quorum_certificate::QuorumCertificate;
use crate::models::shard::Shard;
use crate::models::shard_hash_map::entries_contain;
use crate::models::validator_signature::ValidatorSignature;

verus! {

/// True when some signature in `sigs` names `a` as signer.
pub open spec fn spec_signers_contain(sigs: Seq<ValidatorSignature>, a: NodeAddress) -> bool {
    exists|i: int| #![auto] 0 <= i < sigs.len() && sigs[i].signer == a
}

/// The number of distinct signers in `sigs`: each signer counts on its
/// first occurrence only.
pub open spec fn spec_distinct_signer_count(sigs: Seq<ValidatorSignature>) -> int
    decreases sigs.len(),
{
    if sigs.len() == 0 {
        0
    } else {
        let rest = spec_distinct_signer_count(sigs.drop_last());
        if spec_signers_contain(sigs.drop_last(), sigs.last().signer) {
            rest
        } else {
            rest + 1
        }
    }
}

/// The number of signatures that count toward a certificate's threshold:
/// the signer is a committee member, the signature verifies the expected
/// challenge bytes, and the signer has not been counted before.
pub open spec fn spec_count_valid_signatures(
    sigs: Seq<ValidatorSignature>,
    members: Seq<NodeAddress>,
    challenge: Seq<u8>,
) -> int
    decreases sigs.len(),
{
    if sigs.len() == 0 {
        0
    } else {
        let rest = spec_count_valid_signatures(sigs.drop_last(), members, challenge);
        let s = sigs.last();
        if members.contains(s.signer) && s.spec_verifies(s.signer, challenge)
            && !spec_signers_contain(sigs.drop_last(), s.signer) {
            rest + 1
        } else {
            rest
        }
    }
}

/// The digest every vote that formed this certificate signed: the
/// certificate's own round over its own hash map.
pub open spec fn spec_qc_challenge(qc: QuorumCertificate) -> Seq<u8> {
    blake256_of(
        spec_challenge_preimage(
            qc.spec_message_type(),
            qc.spec_view_number().0,
            spec_u64_to_le_bytes(qc.spec_node_hashes().len() as u64) + spec_vote_entries_encoding(
                qc.spec_node_hashes(),
            ),
        ),
    )
}

/// When a certificate is accepted: the genesis anchor at view 0 with no
/// signatures passes as is; any other certificate needs a quorum of
/// distinct, verifying committee signatures and a hash for every required
/// shard.
pub open spec fn spec_valid_qc(
    qc: QuorumCertificate,
    committee: Committee,
    required: Seq<Shard>,
) -> bool {
    if qc.spec_message_type() == HotStuffMessageType::Genesis {
        qc.spec_view_number().0 == 0 && qc.spec_signatures().len() == 0
    } else {
        &&& spec_count_valid_signatures(
            qc.spec_signatures(),
            committee.members@,
            spec_qc_challenge(qc),
        ) >= committee.spec_consensus_threshold()
        &&& forall|i: int| #![auto]
            0 <= i < required.len() ==> entries_contain(qc.spec_node_hashes(), required[i].id)
    }
}

/// True exactly when a signature in `sigs[0..n]` names `a`.
fn signers_contain_prefix(sigs: &Vec<ValidatorSignature>, n: usize, a: &NodeAddress) -> (r: bool)
    requires
        n <= sigs@.len(),
    ensures
        r == spec_signers_contain(sigs@.take(n as int), *a),
{
    let mut i: usize = 0;
    while i < n
        invariant
            i <= n,
            n <= sigs@.len(),
            forall|j: int| 0 <= j < i ==> sigs@[j].signer != *a,
        decreases n - i,
    {
        if sigs[i].signer.0 == a.0 {
            proof {
                assert(sigs@.take(n as int)[i as int].signer == *a);
            }
            return true;
        }
        i = i + 1;
    }
    proof {
        assert forall|j: int| 0 <= j < n implies sigs@.take(n as int)[j].signer != *a by {}
    }
    false
}

/// Decides whether a certificate is accepted against a committee and a set
/// of required shards.
pub fn validate_quorum_certificate(
    qc: &QuorumCertificate,
    committee: &Committee,
    required_shards: &Vec<Shard>,
) -> (r: bool)
    requires
        qc.well_formed(),
        committee.members@.len() > 0,
    ensures
        r == spec_valid_qc(*qc, *committee, required_shards@),
{
    let is_genesis = qc.message_type().as_u8() == 255;
    if is_genesis {
        proof {
            crate::models::hot_stuff_message_type::lemma_message_type_round_trip(
                qc.spec_message_type(),
                HotStuffMessageType::Genesis,
            );
        }
        return qc.view_number().0 == 0 && qc.signatures().len() == 0;
    }
    proof {
        assert(crate::models::hot_stuff_message_type::message_type_u8(
            HotStuffMessageType::Genesis,
        ) == 255);
    }
    let challenge = HotStuffMessage::<SimplePayload>::vote_challenge(
        qc.message_type(),
        qc.view_number(),
        qc.node_hashes(),
    );
    let expected = crate::hashing::blake256(&challenge);
    let sigs = qc.signatures();
    let ghost members = committee.members@;
    let mut count: usize = 0;
    let mut i: usize = 0;
    while i < sigs.len()
        invariant
            i <= sigs@.len(),
            sigs@ == qc.spec_signatures(),
            members == committee.members@,
            challenge@ == spec_qc_challenge(*qc),
            expected@ == blake256_of(challenge@),
            count == spec_count_valid_signatures(sigs@.take(i as int), members, challenge@),
            count <= i,
        decreases sigs@.len() - i,
    {
        proof {
            assert(sigs@.take(i as int + 1).drop_last() =~= sigs@.take(i as int));
            assert(sigs@.take(i as int + 1).last() == sigs@[i as int]);
        }
        let sig = &sigs[i];
        let is_member = committee.contains(&sig.signer);
        let covers = crate::bytes_util::eq_bytes(&sig.challenge_hash, &expected);
        let seen = signers_contain_prefix(sigs, i, &sig.signer);
        if is_member && covers && !seen {
            count = count + 1;
        }
        i = i + 1;
    }
    proof {
        assert(sigs@.take(sigs@.len() as int) =~= sigs@);
    }
    let threshold = committee.consensus_threshold();
    if count < threshold {
        return false;
    }
    let mut k: usize = 0;
    while k < required_shards.len()
        invariant
            k <= required_shards@.len(),
            qc.well_formed(),
            qc.spec_message_type() != HotStuffMessageType::Genesis,
            spec_count_valid_signatures(
                qc.spec_signatures(),
                committee.members@,
                spec_qc_challenge(*qc),
            ) >= committee.spec_consensus_threshold(),
            forall|j: int| #![auto]
                0 <= j < k ==> entries_contain(qc.spec_node_hashes(), required_shards@[j].id),
        decreases required_shards@.len() - k,
    {
        if qc.node_hash(required_shards[k]).is_none() {
            return false;
        }
        k = k + 1;
    }
    true
}

/// Counting toward the threshold never counts more than the number of
/// distinct signers.
pub proof fn lemma_valid_count_le_distinct(
    sigs: Seq<ValidatorSignature>,
    members: Seq<NodeAddress>,
    challenge_hash: Seq<u8>,
)
    ensures
        spec_count_valid_signatures(sigs, members, challenge_hash) <= spec_distinct_signer_count(
            sigs,
        ),
    decreases sigs.len(),
{
    if sigs.len() > 0 {
        lemma_valid_count_le_distinct(sigs.drop_last(), members, challenge_hash);
    }
}

/// Threshold safety: against a committee of size `n = 3f + 1`, an accepted
/// non-genesis certificate carries at least `n - f` distinct validator
/// signatures; no certificate with fewer can be accepted.
pub proof fn lemma_threshold_safety(
    qc: QuorumCertificate,
    committee: Committee,
    required: Seq<Shard>,
    f: int,
)
    requires
        f >= 0,
        committee.members@.len() == 3 * f + 1,
        qc.spec_message_type() != HotStuffMessageType::Genesis,
        spec_valid_qc(qc, committee, required),
    ensures
        spec_distinct_signer_count(qc.spec_signatures()) >= committee.members@.len() - f,
{
    crate::models::committee::lemma_threshold_is_supermajority(committee, f);
    lemma_valid_count_le_distinct(
        qc.spec_signatures(),
        committee.members@,
        spec_qc_challenge(qc),
    );
}

/// Genesis round trip: the canonical bootstrap certificate — type
/// `Genesis`, view 0, no signatures — is accepted as a justify against any
/// committee without threshold checks.
pub proof fn lemma_genesis_qc_accepted(
    qc: QuorumCertificate,
    committee: Committee,
    required: Seq<Shard>,
)
    requires
        qc.spec_message_type() == HotStuffMessageType::Genesis,
        qc.spec_view_number().0 == 0,
        qc.spec_signatures().len() == 0,
    ensures
        spec_valid_qc(qc, committee, required),
{
}

} // verus!
