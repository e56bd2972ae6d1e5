use vstd::prelude::*;

use crate::key::Pubkey;
use crate::record::{
    apply_commit, apply_revoke, commit_allowed, committed, revoke_error, revoked_record,
    version_fits, CommitMetadata, CommitmentRevoked, ErrorCode, RootCommitted, ShareCommitment,
};

verus! {

/// The accounts of a direct commit: `owner` signed the write, and
/// `commitment` is the record slot at the address the host derived from
/// `owner`, `commitment_address`, with derivation nonce `bump`.
pub struct CommitRoot {
    pub commitment: ShareCommitment,
    pub commitment_address: Pubkey,
    pub bump: u8,
    pub owner: Pubkey,
}

/// The accounts of a relayer commit: `relayer` signed and pays, and
/// `commitment` is the record slot at the address the host derived from the
/// user identity passed as an argument, not from the relayer.
pub struct CommitRootViaRelayer {
    pub commitment: ShareCommitment,
    pub commitment_address: Pubkey,
    pub bump: u8,
    pub relayer: Pubkey,
}

/// The accounts of a revocation: `owner` signed, and `commitment` is the
/// record slot at the address the host derived from `owner`.
pub struct RevokeCommitment {
    pub commitment: ShareCommitment,
    pub commitment_address: Pubkey,
    pub owner: Pubkey,
}

/// Direct commit: the signer commits `merkle_root` for itself, so the record
/// it writes always ends up owned by the signer. A slot that holds another
/// identity's record is rejected with `Unauthorized` and left unchanged.
pub fn commit_root(
    ctx: &mut CommitRoot,
    merkle_root: [u8; 32],
    metadata: CommitMetadata,
    now: i64,
) -> (r: Result<RootCommitted, ErrorCode>)
    requires
        commit_allowed(old(ctx).commitment, old(ctx).owner) ==> version_fits(
            old(ctx).commitment,
            merkle_root,
        ),
    ensures
        final(ctx).owner == old(ctx).owner,
        final(ctx).commitment_address == old(ctx).commitment_address,
        final(ctx).bump == old(ctx).bump,
        r is Ok <==> commit_allowed(old(ctx).commitment, old(ctx).owner),
        r is Ok ==> final(ctx).commitment == committed(
            old(ctx).commitment,
            old(ctx).owner,
            merkle_root,
            metadata,
            now,
            old(ctx).bump,
        ),
        r is Ok ==> final(ctx).commitment.owner@ == old(ctx).owner@,
        r is Ok ==> r->Ok_0 == (RootCommitted {
            owner: final(ctx).commitment.owner,
            commitment_address: old(ctx).commitment_address,
            merkle_root,
            version: final(ctx).commitment.version,
            timestamp: now,
        }),
        r is Err ==> r->Err_0 == ErrorCode::Unauthorized && final(ctx).commitment
            == old(ctx).commitment,
{
    let owner = ctx.owner;
    let address = ctx.commitment_address;
    let bump = ctx.bump;
    apply_commit(&mut ctx.commitment, owner, address, merkle_root, metadata, now, bump)
}

/// Relayer commit: the relayer commits `merkle_root` on behalf of
/// `user_wallet`, which does not sign. The relayer is trusted to name the
/// right identity: a new record is created for whatever identity it names.
/// A slot that already holds a record of another identity is rejected with
/// `Unauthorized` and left unchanged.
pub fn commit_root_via_relayer(
    ctx: &mut CommitRootViaRelayer,
    user_wallet: Pubkey,
    merkle_root: [u8; 32],
    metadata: CommitMetadata,
    now: i64,
) -> (r: Result<RootCommitted, ErrorCode>)
    requires
        commit_allowed(old(ctx).commitment, user_wallet) ==> version_fits(
            old(ctx).commitment,
            merkle_root,
        ),
    ensures
        final(ctx).relayer == old(ctx).relayer,
        final(ctx).commitment_address == old(ctx).commitment_address,
        final(ctx).bump == old(ctx).bump,
        r is Ok <==> commit_allowed(old(ctx).commitment, user_wallet),
        r is Ok ==> final(ctx).commitment == committed(
            old(ctx).commitment,
            user_wallet,
            merkle_root,
            metadata,
            now,
            old(ctx).bump,
        ),
        r is Ok ==> final(ctx).commitment.owner@ == user_wallet@,
        r is Ok ==> r->Ok_0 == (RootCommitted {
            owner: final(ctx).commitment.owner,
            commitment_address: old(ctx).commitment_address,
            merkle_root,
            version: final(ctx).commitment.version,
            timestamp: now,
        }),
        r is Err ==> r->Err_0 == ErrorCode::Unauthorized && final(ctx).commitment
            == old(ctx).commitment,
{
    let address = ctx.commitment_address;
    let bump = ctx.bump;
    apply_commit(&mut ctx.commitment, user_wallet, address, merkle_root, metadata, now, bump)
}

/// Revokes every outstanding share of the signer's current root at once.
/// Fails with `Unauthorized` when the slot's record is not the signer's, and
/// with `AlreadyRevoked` when it is revoked already; nothing changes then.
pub fn revoke_all(ctx: &mut RevokeCommitment, now: i64) -> (r: Result<
    CommitmentRevoked,
    ErrorCode,
>)
    ensures
        final(ctx).owner == old(ctx).owner,
        final(ctx).commitment_address == old(ctx).commitment_address,
        r is Ok <==> revoke_error(old(ctx).commitment, old(ctx).owner) is None,
        r is Ok ==> final(ctx).commitment == revoked_record(old(ctx).commitment),
        r is Ok ==> r->Ok_0 == (CommitmentRevoked {
            owner: old(ctx).commitment.owner,
            commitment_address: old(ctx).commitment_address,
            revoked_at: now,
        }),
        r is Err ==> revoke_error(old(ctx).commitment, old(ctx).owner) == Some(r->Err_0)
            && final(ctx).commitment == old(ctx).commitment,
{
    let owner = ctx.owner;
    let address = ctx.commitment_address;
    apply_revoke(&mut ctx.commitment, owner, address, now)
}

} // verus!
