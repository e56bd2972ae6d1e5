use vstd::prelude::*;

use crate::key::{Pubkey, bytes_equal, is_zero_key};

verus! {

/// Descriptive data stored beside a committed root. `chain` is a short chain
/// name (at most ten bytes on the wire); the timestamps are opaque to the store.
#[derive(Clone, Debug)]
pub struct CommitMetadata {
    pub chain: String,
    pub snapshot_timestamp: i64,
    pub expires_at: Option<i64>,
    pub privacy_score: u8,
}

/// The commitment record of one owner identity. A slot whose `owner` is the
/// all-zero key holds no record yet.
#[derive(Debug)]
pub struct ShareCommitment {
    pub owner: Pubkey,
    pub merkle_root: [u8; 32],
    pub version: u32,
    pub metadata: CommitMetadata,
    pub timestamp: i64,
    pub revoked: bool,
    pub bump: u8,
}

/// Notification of a successful commit.
#[derive(Clone, Copy, Debug)]
pub struct RootCommitted {
    pub owner: Pubkey,
    pub commitment_address: Pubkey,
    pub merkle_root: [u8; 32],
    pub version: u32,
    pub timestamp: i64,
}

/// Notification of a successful revocation.
#[derive(Clone, Copy, Debug)]
pub struct CommitmentRevoked {
    pub owner: Pubkey,
    pub commitment_address: Pubkey,
    pub revoked_at: i64,
}

/// Why a write was rejected. A rejected write changes nothing.
#[derive(Clone, Copy, Debug, PartialEq, Eq, Structural)]
pub enum ErrorCode {
    /// The record is already revoked.
    AlreadyRevoked,
    /// The acting identity is not the record's owner.
    Unauthorized,
}

/// The slot holds a record: its owner is set.
pub open spec fn is_initialized(rec: ShareCommitment) -> bool {
    !is_zero_key(rec.owner@)
}

/// A commit for `owner` may be applied to `rec`: the slot is empty, or its
/// record already belongs to `owner`.
pub open spec fn commit_allowed(rec: ShareCommitment, owner: Pubkey) -> bool {
    !is_initialized(rec) || rec.owner@ == owner@
}

/// The version that a commit of `root` gives: 1 for a new record, one more
/// when the root changes, the same otherwise.
pub open spec fn next_version(rec: ShareCommitment, root: [u8; 32]) -> int {
    if !is_initialized(rec) {
        1
    } else if rec.merkle_root@ != root@ {
        rec.version + 1
    } else {
        rec.version as int
    }
}

/// The next version fits in the 32-bit counter.
pub open spec fn version_fits(rec: ShareCommitment, root: [u8; 32]) -> bool {
    next_version(rec, root) <= u32::MAX
}

/// The record after a successful commit of `root` for `owner` at time `now`;
/// `bump` is kept from the record, or taken when the record is new.
pub open spec fn committed(
    rec: ShareCommitment,
    owner: Pubkey,
    root: [u8; 32],
    metadata: CommitMetadata,
    now: i64,
    bump: u8,
) -> ShareCommitment {
    ShareCommitment {
        owner: if is_initialized(rec) { rec.owner } else { owner },
        merkle_root: root,
        version: next_version(rec, root) as u32,
        metadata,
        timestamp: now,
        revoked: false,
        bump: if is_initialized(rec) { rec.bump } else { bump },
    }
}

/// The error that a revocation by `signer` meets, if any: a signer that is not
/// the owner first, then a record that is already revoked.
pub open spec fn revoke_error(rec: ShareCommitment, signer: Pubkey) -> Option<ErrorCode> {
    if !is_initialized(rec) || rec.owner@ != signer@ {
        Some(ErrorCode::Unauthorized)
    } else if rec.revoked {
        Some(ErrorCode::AlreadyRevoked)
    } else {
        None
    }
}

/// The record after a successful revocation.
pub open spec fn revoked_record(rec: ShareCommitment) -> ShareCommitment {
    ShareCommitment { revoked: true, ..rec }
}

impl ShareCommitment {
    /// An empty slot: no record yet.
    pub fn empty() -> (r: ShareCommitment)
        ensures
            !is_initialized(r),
            !r.revoked,
    {
        ShareCommitment {
            owner: Pubkey::zero(),
            merkle_root: [0u8; 32],
            version: 0,
            metadata: CommitMetadata {
                chain: String::new(),
                snapshot_timestamp: 0,
                expires_at: None,
                privacy_score: 0,
            },
            timestamp: 0,
            revoked: false,
            bump: 0,
        }
    }

    pub fn is_initialized(&self) -> (r: bool)
        ensures
            r == is_initialized(*self),
    {
        !self.owner.is_zero()
    }
}

/// Applies a commit of `merkle_root` for `target_owner` to the record slot
/// `rec`, which stands at `address`; `now` is the host's current time and
/// `bump` the address nonce kept when the record is created.
///
/// A slot that holds another owner's record is left as it is and the commit
/// fails with `Unauthorized`. Otherwise the record takes the root, metadata
/// and time, its version starts at 1 or moves up by one when the root
/// changes, and it is no longer revoked.
pub fn apply_commit(
    rec: &mut ShareCommitment,
    target_owner: Pubkey,
    address: Pubkey,
    merkle_root: [u8; 32],
    metadata: CommitMetadata,
    now: i64,
    bump: u8,
) -> (r: Result<RootCommitted, ErrorCode>)
    requires
        commit_allowed(*old(rec), target_owner) ==> version_fits(*old(rec), merkle_root),
    ensures
        r is Ok <==> commit_allowed(*old(rec), target_owner),
        r is Ok ==> *final(rec) == committed(*old(rec), target_owner, merkle_root, metadata, now, bump),
        r is Ok ==> r->Ok_0 == (RootCommitted {
            owner: final(rec).owner,
            commitment_address: address,
            merkle_root,
            version: final(rec).version,
            timestamp: now,
        }),
        r is Err ==> r->Err_0 == ErrorCode::Unauthorized && *final(rec) == *old(rec),
{
    if rec.is_initialized() {
        if !rec.owner.same_as(&target_owner) {
            return Err(ErrorCode::Unauthorized);
        }
        if !bytes_equal(&rec.merkle_root, &merkle_root) {
            rec.version = rec.version + 1;
        }
    } else {
        rec.owner = target_owner;
        rec.bump = bump;
        rec.version = 1;
    }
    rec.merkle_root = merkle_root;
    rec.metadata = metadata;
    rec.timestamp = now;
    rec.revoked = false;
    Ok(RootCommitted {
        owner: rec.owner,
        commitment_address: address,
        merkle_root,
        version: rec.version,
        timestamp: now,
    })
}

/// Revokes the record in `rec`, at `address`, on behalf of `signer` at time
/// `now`. Fails with `Unauthorized` when `signer` is not the record's owner
/// and with `AlreadyRevoked` when the record is revoked already; a failed
/// revocation changes nothing.
pub fn apply_revoke(
    rec: &mut ShareCommitment,
    signer: Pubkey,
    address: Pubkey,
    now: i64,
) -> (r: Result<CommitmentRevoked, ErrorCode>)
    ensures
        r is Ok <==> revoke_error(*old(rec), signer) is None,
        r is Ok ==> *final(rec) == revoked_record(*old(rec)),
        r is Ok ==> r->Ok_0 == (CommitmentRevoked {
            owner: old(rec).owner,
            commitment_address: address,
            revoked_at: now,
        }),
        r is Err ==> revoke_error(*old(rec), signer) == Some(r->Err_0) && *final(rec) == *old(rec),
{
    if !rec.is_initialized() || !rec.owner.same_as(&signer) {
        return Err(ErrorCode::Unauthorized);
    }
    if rec.revoked {
        return Err(ErrorCode::AlreadyRevoked);
    }
    rec.revoked = true;
    Ok(CommitmentRevoked { owner: rec.owner, commitment_address: address, revoked_at: now })
}

} // verus!
