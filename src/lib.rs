//! A single-owner authorization gateway.
//!
//! The contract records one controlling identity, once, and afterwards lets
//! that identity alone have calls forwarded to other addressable programs.
//! The host that runs it (durable storage, verification of authorization
//! proofs, invocation of other programs) is reached by the caller of this
//! library: the functions here decide, from the stored owner and the host's
//! verdict, whether a call may go out and exactly which call it is.

pub mod gateway;
pub mod laws;
pub mod registry;

pub use gateway::{CallView, Fault, Invocation, Value};
pub use registry::{Error, SimpleSmartWalletContract};
