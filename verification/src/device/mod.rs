//! The Bluetooth side: socket addresses and options, sessions of the
//! control and interrupt channels, the transport's flow control, the local
//! adapter and the connection sequence. Sockets, BlueZ and the system's
//! commands are driven from outside; what is decided about them is here.
pub mod adapter;
pub mod connection;
pub mod session;
pub mod sock;
pub mod system;
pub mod transport;
pub mod uuid_ext;

pub use crate::addr::{Address, InvalidAddressError};

use vstd::prelude::*;

verus! {

/// `std::io::Error`, carried opaquely by the errors of sessions.
#[verifier::external_type_specification]
#[verifier::external_body]
pub struct ExIoError(std::io::Error);

} // verus!
