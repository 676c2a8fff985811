//! State of a mirrored election account: initialised once with an authority
//! and a metadata hash, then finalised exactly once with the tally.
//!
//! Only the account's state transitions live here; signing, account storage
//! and fee payment belong to the chain runtime that hosts the account and
//! take no part in these rules.  Keys and metadata hashes are plain 32-byte
//! values.

use vstd::prelude::*;

verus! {

/// A mirrored election: who may write the tally, which election this
/// mirrors, and the tally itself once it is written.
pub struct Election {
    pub authority: [u8; 32],
    pub metadata: [u8; 32],
    pub votes_a: u64,
    pub votes_b: u64,
    pub finalised: bool,
}

/// Why a tally write was refused.
#[derive(Clone, Copy, Debug, PartialEq, Eq, Structural)]
pub enum ErrorCode {
    Unauthorised,
    AlreadyDone,
}

/// Whether a caller's attempt to write the tally is acceptable: the caller
/// must hold the account's authority key and the tally must not have been
/// written before.
pub open spec fn tally_accepted(e: Election, caller: Seq<u8>) -> bool {
    caller == e.authority@ && !e.finalised
}

/// Compares two 32-byte keys.
fn keys_equal(a: &[u8; 32], b: &[u8; 32]) -> (r: bool)
    ensures
        r == (a@ == b@),
{
    let mut i: usize = 0;
    while i < 32
        invariant
            i <= 32,
            forall|j: int| 0 <= j < i ==> a@[j] == b@[j],
        decreases 32 - i,
    {
        if a[i] != b[i] {
            return false;
        }
        i = i + 1;
    }
    proof {
        assert(a@ =~= b@);
    }
    true
}

/// Sets up the mirror account for a new election: the caller becomes its
/// authority, the metadata hash is stored, and the tally starts empty and
/// open.
pub fn initialise(authority: [u8; 32], metadata: [u8; 32]) -> (e: Election)
    ensures
        e.authority@ == authority@,
        e.metadata@ == metadata@,
        e.votes_a == 0,
        e.votes_b == 0,
        !e.finalised,
{
    Election { authority, metadata, votes_a: 0, votes_b: 0, finalised: false }
}

/// Writes the tally, once: succeeds exactly when the caller holds the
/// authority key and no tally was written before, and then stores the two
/// counts and closes the account for good.  A caller without the key is
/// refused as unauthorised; the authority itself is refused once the tally
/// stands.  A refused call leaves the account untouched.
pub fn set_tally(e: &mut Election, caller: &[u8; 32], votes_a: u64, votes_b: u64) -> (r: Result<
    (),
    ErrorCode,
>)
    ensures
        r is Ok <==> tally_accepted(*old(e), caller@),
        r is Ok ==> {
            &&& final(e).authority@ == old(e).authority@
            &&& final(e).metadata@ == old(e).metadata@
            &&& final(e).votes_a == votes_a
            &&& final(e).votes_b == votes_b
            &&& final(e).finalised
        },
        r matches Err(code) ==> {
            &&& *final(e) == *old(e)
            &&& (code == ErrorCode::Unauthorised <==> caller@ != old(e).authority@)
            &&& (code == ErrorCode::AlreadyDone <==> caller@ == old(e).authority@ && old(
                e,
            ).finalised)
        },
{
    if !keys_equal(caller, &e.authority) {
        return Err(ErrorCode::Unauthorised);
    }
    if e.finalised {
        return Err(ErrorCode::AlreadyDone);
    }
    e.votes_a = votes_a;
    e.votes_b = votes_b;
    e.finalised = true;
    Ok(())
}

/// The tally is one-shot: once an account is finalised, no caller — the
/// authority included — can have a further write accepted.
pub proof fn lemma_tally_one_shot(e: Election)
    requires
        e.finalised,
    ensures
        forall|caller: Seq<u8>| !tally_accepted(e, caller),
{
}

} // verus!
