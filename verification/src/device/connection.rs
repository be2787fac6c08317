//! The connection's decisions: its errors and which host to reconnect to.
use vstd::prelude::*;
use crate::addr::Address;
use crate::protocol::ProtocolError;
use super::adapter::DeviceError;
use super::session::SessionError;
use super::system::{SysCheckError, SystemCommandError};
use super::transport::TransportError;

verus! {

/// Failures of establishing or running a connection.
#[derive(Debug)]
pub enum ConnectionError {
    /// No paired Switch was found to reconnect to.
    FailedToResolvePairedSwitches,
    DeviceError(DeviceError),
    TransportError(TransportError),
    SessionError(SessionError),
    SysCheckError(SysCheckError),
    SystemCommandError(SystemCommandError),
    ProtocolError(ProtocolError),
}

impl From<DeviceError> for ConnectionError {
    fn from(err: DeviceError) -> (r: Self) {
        ConnectionError::DeviceError(err)
    }
}

impl vstd::std_specs::convert::FromSpecImpl<DeviceError> for ConnectionError {
    open spec fn obeys_from_spec() -> bool {
        true
    }

    open spec fn from_spec(err: DeviceError) -> Self {
        ConnectionError::DeviceError(err)
    }
}

impl From<TransportError> for ConnectionError {
    fn from(err: TransportError) -> (r: Self) {
        ConnectionError::TransportError(err)
    }
}

impl vstd::std_specs::convert::FromSpecImpl<TransportError> for ConnectionError {
    open spec fn obeys_from_spec() -> bool {
        true
    }

    open spec fn from_spec(err: TransportError) -> Self {
        ConnectionError::TransportError(err)
    }
}

impl From<SessionError> for ConnectionError {
    fn from(err: SessionError) -> (r: Self) {
        ConnectionError::SessionError(err)
    }
}

impl vstd::std_specs::convert::FromSpecImpl<SessionError> for ConnectionError {
    open spec fn obeys_from_spec() -> bool {
        true
    }

    open spec fn from_spec(err: SessionError) -> Self {
        ConnectionError::SessionError(err)
    }
}

impl From<SysCheckError> for ConnectionError {
    fn from(err: SysCheckError) -> (r: Self) {
        ConnectionError::SysCheckError(err)
    }
}

impl vstd::std_specs::convert::FromSpecImpl<SysCheckError> for ConnectionError {
    open spec fn obeys_from_spec() -> bool {
        true
    }

    open spec fn from_spec(err: SysCheckError) -> Self {
        ConnectionError::SysCheckError(err)
    }
}

impl From<SystemCommandError> for ConnectionError {
    fn from(err: SystemCommandError) -> (r: Self) {
        ConnectionError::SystemCommandError(err)
    }
}

impl vstd::std_specs::convert::FromSpecImpl<SystemCommandError> for ConnectionError {
    open spec fn obeys_from_spec() -> bool {
        true
    }

    open spec fn from_spec(err: SystemCommandError) -> Self {
        ConnectionError::SystemCommandError(err)
    }
}

impl From<ProtocolError> for ConnectionError {
    fn from(err: ProtocolError) -> (r: Self) {
        ConnectionError::ProtocolError(err)
    }
}

impl vstd::std_specs::convert::FromSpecImpl<ProtocolError> for ConnectionError {
    open spec fn obeys_from_spec() -> bool {
        true
    }

    open spec fn from_spec(err: ProtocolError) -> Self {
        ConnectionError::ProtocolError(err)
    }
}

/// How the host to reconnect to is found.
#[derive(Clone, Copy, Debug, PartialEq, Eq, PartialOrd, Ord, Hash)]
pub enum ReconnectType {
    /// The first Switch paired with the adapter.
    Auto,
    /// The host of this address.
    Manual(Address),
}

/// The host to reconnect to, given the addresses of the Switches paired
/// with the adapter: the given address, or the first paired Switch; with
/// none paired, automatic reconnection fails.
pub fn reconnect_target(reconnect_type: ReconnectType, paired: &Vec<Address>) -> (r: Result<Address, ConnectionError>)
    ensures
        match reconnect_type {
            ReconnectType::Manual(a) => r matches Ok(t) && t == a,
            ReconnectType::Auto => if paired@.len() == 0 {
                r matches Err(ConnectionError::FailedToResolvePairedSwitches)
            } else {
                r matches Ok(t) && t == paired@[0]
            },
        },
{
    match reconnect_type {
        ReconnectType::Manual(addr) => Ok(addr),
        ReconnectType::Auto => {
            if paired.len() == 0 {
                Err(ConnectionError::FailedToResolvePairedSwitches)
            } else {
                Ok(paired[0])
            }
        },
    }
}

} // verus!
