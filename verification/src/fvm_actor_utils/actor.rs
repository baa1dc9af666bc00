//! Generic utils related to actors on the FVM.
use vstd::prelude::*;

use crate::bytes::Cid;
use crate::fvm_actor_utils::syscalls::RootView;
use crate::fvm_actor_utils::util::ActorError;

verus! {

/// Generic utils related to actors on the FVM
pub trait Actor {
    /// The root of the actor's state, if it has one.
    spec fn state_root(&self) -> RootView;

    /// Get the root cid of the actor's state
    fn root_cid(&self) -> (r: Result<Cid, ActorError>)
        ensures
            r is Ok == self.state_root() is Some,
            r is Ok ==> self.state_root() == Some(r->Ok_0@),
    ;
}

/// A fake actor fixture that can be twiddled for testing
#[derive(Debug)]
pub struct FakeActor {
    /// The root of its state
    pub root: Cid,
}

impl Default for FakeActor {
    fn default() -> (r: Self)
        ensures
            r.root@ == seq![1u8, 0u8, 0u8, 0u8],
    {
        FakeActor { root: Cid::default() }
    }
}

impl Actor for FakeActor {
    open spec fn state_root(&self) -> Option<Seq<u8>> {
        Some(self.root@)
    }

    fn root_cid(&self) -> (r: Result<Cid, ActorError>) {
        Ok(self.root.clone())
    }
}

} // verus!
