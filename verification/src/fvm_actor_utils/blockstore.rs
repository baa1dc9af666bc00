//! A blockstore that delegates to IPLD syscalls.
use vstd::prelude::*;

use crate::bytes::Cid;

verus! {

/// A blockstore that delegates to IPLD syscalls.
///
/// The system calls compute the identifiers of blocks by themselves.
#[derive(Debug, Clone, Copy, Default)]
pub struct Blockstore;

/// A block was put under another identifier than the one that it was to have.
#[derive(Debug, PartialEq, Eq)]
pub struct WrongCid {
    /// The identifier that the block was to have
    pub wanted: Cid,
    /// The identifier that it has
    pub actual: Cid,
}

impl Blockstore {
    /// Whether a block that was to have an identifier was put under it
    pub fn put_keyed(&self, k: &Cid, k2: &Cid) -> (r: Result<(), WrongCid>)
        ensures
            r is Ok == (k@ == k2@),
            r is Err ==> r->Err_0.wanted@ == k@ && r->Err_0.actual@ == k2@,
    {
        if !k.same(k2) {
            return Err(WrongCid { wanted: k.clone(), actual: k2.clone() });
        }
        Ok(())
    }
}

} // verus!
