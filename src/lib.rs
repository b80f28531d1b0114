//! A session adapter for a peer-to-peer audio/video SDK. The adapter makes
//! no SDK call itself: each operation names the next call, with its
//! arguments, and takes the call's return code back. A driver makes the
//! calls; the adapter decides their order, checks each result, owns the
//! session id and AV index, and classifies what the receive loop gets.
use vstd::prelude::*;

pub mod calls;
pub mod codes;
pub mod drain;
pub mod marshal;
pub mod session;

pub use calls::Call;
pub use codes::RecvCode;
pub use drain::{Drain, DrainAction, DrainEnd};
pub use session::{IotcError, Next, Stage, IOTC};

verus! {

} // verus!
