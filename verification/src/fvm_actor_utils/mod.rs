//! What an actor uses to talk to the system and to other actors.
pub mod actor;
pub mod blockstore;
pub mod fake_syscalls;
pub mod messaging;
pub mod promises;
pub mod receiver;
pub mod syscalls;
pub mod util;
