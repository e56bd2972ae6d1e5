use vstd::prelude::*;

use crate::key::{Pubkey, is_zero_key};
use crate::record::{
    commit_allowed, committed, is_initialized, next_version, revoke_error, revoked_record,
    CommitMetadata, ErrorCode, ShareCommitment,
};

verus! {

/// The number of places where a root differs from the one before it.
pub open spec fn root_changes(roots: Seq<[u8; 32]>) -> nat
    decreases roots.len(),
{
    if roots.len() <= 1 {
        0
    } else {
        let prev = roots.drop_last();
        root_changes(prev) + if roots.last()@ != prev.last()@ {
            1nat
        } else {
            0nat
        }
    }
}

/// The record after committing each root of `roots` in turn for `owner`.
pub open spec fn replay(
    rec: ShareCommitment,
    owner: Pubkey,
    roots: Seq<[u8; 32]>,
    metadata: CommitMetadata,
    now: i64,
    bump: u8,
) -> ShareCommitment
    decreases roots.len(),
{
    if roots.len() == 0 {
        rec
    } else {
        committed(replay(rec, owner, roots.drop_last(), metadata, now, bump), owner, roots.last(),
            metadata, now, bump)
    }
}

/// The first commit for an identity creates its record at version 1, owned
/// by that identity and not revoked.
pub proof fn lemma_first_commit(
    rec: ShareCommitment,
    owner: Pubkey,
    root: [u8; 32],
    metadata: CommitMetadata,
    now: i64,
    bump: u8,
)
    requires
        !is_initialized(rec),
    ensures
        commit_allowed(rec, owner),
        committed(rec, owner, root, metadata, now, bump).version == 1,
        !committed(rec, owner, root, metadata, now, bump).revoked,
        committed(rec, owner, root, metadata, now, bump).owner@ == owner@,
{
}

/// Committing the roots `r1, ..., rn` one after the other for an identity
/// other than the all-zero key, starting from an empty slot, ends at version `1 + |{ i > 1 : ri != r(i-1) }|`,
/// with the last root stored and the record owned by that identity. Every one
/// of those commits is allowed and fits the version counter.
pub proof fn lemma_version_counts_root_changes(
    start: ShareCommitment,
    owner: Pubkey,
    roots: Seq<[u8; 32]>,
    metadata: CommitMetadata,
    now: i64,
    bump: u8,
)
    requires
        !is_initialized(start),
        !is_zero_key(owner@),
        roots.len() >= 1,
        root_changes(roots) < u32::MAX,
    ensures
        forall|k: int|
            #![trigger roots.subrange(0, k)]
            0 <= k < roots.len() ==> commit_allowed(
                replay(start, owner, roots.subrange(0, k), metadata, now, bump),
                owner,
            ) && next_version(
                replay(start, owner, roots.subrange(0, k), metadata, now, bump),
                roots[k],
            ) <= u32::MAX,
        replay(start, owner, roots, metadata, now, bump).version == 1
            + root_changes(roots),
        replay(start, owner, roots, metadata, now, bump).owner@ == owner@,
        replay(start, owner, roots, metadata, now, bump).merkle_root
            == roots.last(),
    decreases roots.len(),
{
    let e = start;
    let prev = roots.drop_last();
    if roots.len() == 1 {
        assert(prev.len() == 0);
        assert(roots.subrange(0, 0) =~= prev);
    } else {
        lemma_version_counts_root_changes(start, owner, prev, metadata, now, bump);
        assert forall|k: int|
            #![trigger roots.subrange(0, k)]
            0 <= k < roots.len() implies commit_allowed(
                replay(e, owner, roots.subrange(0, k), metadata, now, bump),
                owner,
            ) && next_version(
                replay(e, owner, roots.subrange(0, k), metadata, now, bump),
                roots[k],
            ) <= u32::MAX by {
            if k < prev.len() {
                assert(roots.subrange(0, k) =~= prev.subrange(0, k));
                assert(roots[k] == prev[k]);
                lemma_changes_monotone(roots, k + 1);
            } else {
                assert(roots.subrange(0, k) =~= prev);
            }
        }
    }
}

/// A prefix of a sequence of roots has no more changes than the whole.
proof fn lemma_changes_monotone(roots: Seq<[u8; 32]>, n: int)
    requires
        0 <= n <= roots.len(),
    ensures
        root_changes(roots.subrange(0, n)) <= root_changes(roots),
    decreases roots.len(),
{
    if n < roots.len() {
        let prev = roots.drop_last();
        lemma_changes_monotone(prev, n);
        assert(prev.subrange(0, n) =~= roots.subrange(0, n));
    } else {
        assert(roots.subrange(0, n) =~= roots);
    }
}

/// Committing the root that a record already holds keeps its version.
pub proof fn lemma_same_root_keeps_version(
    rec: ShareCommitment,
    owner: Pubkey,
    metadata: CommitMetadata,
    now: i64,
    bump: u8,
)
    requires
        is_initialized(rec),
    ensures
        committed(rec, owner, rec.merkle_root, metadata, now, bump).version == rec.version,
{
}

/// Every successful commit leaves the record not revoked, whatever it was.
pub proof fn lemma_commit_clears_revocation(
    rec: ShareCommitment,
    owner: Pubkey,
    root: [u8; 32],
    metadata: CommitMetadata,
    now: i64,
    bump: u8,
)
    ensures
        !committed(rec, owner, root, metadata, now, bump).revoked,
{
}

/// The owner's revocation of a record that is not revoked succeeds and marks
/// it revoked; a second revocation then fails with `AlreadyRevoked`.
pub proof fn lemma_revoke_once(rec: ShareCommitment, owner: Pubkey)
    requires
        is_initialized(rec),
        rec.owner@ == owner@,
        !rec.revoked,
    ensures
        revoke_error(rec, owner) is None,
        revoked_record(rec).revoked,
        revoke_error(revoked_record(rec), owner) == Some(ErrorCode::AlreadyRevoked),
{
}

/// A commit for an identity into a slot that holds another identity's record
/// is not allowed: the write is rejected and the record stays as it was.
pub proof fn lemma_foreign_record_rejected(rec: ShareCommitment, owner: Pubkey)
    requires
        is_initialized(rec),
        rec.owner@ != owner@,
    ensures
        !commit_allowed(rec, owner),
{
}

/// An allowed commit always leaves the record owned by the identity it was
/// made for: a direct commit by a signer can only write the signer's record.
pub proof fn lemma_commit_owner_is_target(
    rec: ShareCommitment,
    owner: Pubkey,
    root: [u8; 32],
    metadata: CommitMetadata,
    now: i64,
    bump: u8,
)
    requires
        commit_allowed(rec, owner),
    ensures
        committed(rec, owner, root, metadata, now, bump).owner@ == owner@,
{
}

} // verus!
