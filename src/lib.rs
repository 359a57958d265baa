//! Protocol engine of a userspace filesystem framework speaking the FUSE kernel protocol.
use vstd::prelude::*;

pub mod decode;
pub mod fs;
pub mod init;
pub mod notify;
pub mod reply;
pub mod session;
pub mod wire;

verus! {

} // verus!
