//! Sessions: the pair of L2CAP channels (control and interrupt) that a
//! Switch connects to.
use vstd::prelude::*;
use crate::addr::Address;
use super::sock::AddressType;
use super::sock::l2cap::{SocketAddr, spec_is_any};

verus! {

/// PSM of the control channel, when none is configured.
pub const DEFAULT_CTL_PSM: u16 = 17;

/// PSM of the interrupt channel, when none is configured.
pub const DEFAULT_ITR_PSM: u16 = 19;

/// Failures of a session.
#[derive(Debug)]
pub enum SessionError {
    /// The control and interrupt channels were accepted from different hosts.
    CtlItrSocketAddrMismatch,
    /// Binding the address failed (BlueZ's `input` plugin may hold it).
    BindFailed(std::io::Error),
    Internal(SessionInternalError),
}

/// Failures below a session.
#[derive(Debug)]
pub enum SessionInternalError {
    Io(std::io::Error),
}

impl From<std::io::Error> for SessionError {
    fn from(err: std::io::Error) -> (r: Self) {
        SessionError::Internal(SessionInternalError::Io(err))
    }
}

impl vstd::std_specs::convert::FromSpecImpl<std::io::Error> for SessionError {
    open spec fn obeys_from_spec() -> bool {
        true
    }

    open spec fn from_spec(err: std::io::Error) -> Self {
        SessionError::Internal(SessionInternalError::Io(err))
    }
}

/// Settings of a listening session; unset parts take their defaults.
#[derive(Clone, Copy, Debug)]
pub struct SessionConfig {
    /// Local address to listen on; the wildcard address when unset.
    pub address: Option<Address>,
    pub control_psm: Option<u16>,
    pub interrupt_psm: Option<u16>,
}

impl Default for SessionConfig {
    fn default() -> (r: Self)
        ensures
            r.address is None,
            r.control_psm is None,
            r.interrupt_psm is None,
    {
        SessionConfig { address: None, control_psm: None, interrupt_psm: None }
    }
}

/// Where a session listens: an address and the PSMs of both channels.
#[derive(Clone, Copy, Debug)]
pub struct SessionAddress {
    pub addr: Address,
    pub ctl_psm: u16,
    pub itr_psm: u16,
}

/// The channel address of a session's PSM: classic Bluetooth, no CID.
pub open spec fn spec_channel(addr: Address, psm: u16) -> SocketAddr {
    SocketAddr { addr, addr_type: AddressType::BrEdr, psm, cid: 0 }
}

impl SessionAddress {
    /// Resolves a configuration: the configured parts, else the wildcard
    /// address and the default PSMs.
    pub fn from_config(config: &SessionConfig) -> (r: Self)
        ensures
            match config.address {
                Some(a) => r.addr == a,
                None => spec_is_any(r.addr),
            },
            r.ctl_psm == (match config.control_psm {
                Some(p) => p,
                None => DEFAULT_CTL_PSM,
            }),
            r.itr_psm == (match config.interrupt_psm {
                Some(p) => p,
                None => DEFAULT_ITR_PSM,
            }),
    {
        let addr = match config.address {
            Some(a) => a,
            None => Address::default(),
        };
        let ctl_psm = match config.control_psm {
            Some(p) => p,
            None => DEFAULT_CTL_PSM,
        };
        let itr_psm = match config.interrupt_psm {
            Some(p) => p,
            None => DEFAULT_ITR_PSM,
        };
        SessionAddress { addr, ctl_psm, itr_psm }
    }

    /// Address that the control channel binds.
    pub fn ctl_socket_addr(&self) -> (r: SocketAddr)
        ensures
            r == spec_channel(self.addr, self.ctl_psm),
    {
        SocketAddr { addr: self.addr, addr_type: AddressType::BrEdr, psm: self.ctl_psm, cid: 0 }
    }

    /// Address that the interrupt channel binds.
    pub fn itr_socket_addr(&self) -> (r: SocketAddr)
        ensures
            r == spec_channel(self.addr, self.itr_psm),
    {
        SocketAddr { addr: self.addr, addr_type: AddressType::BrEdr, psm: self.itr_psm, cid: 0 }
    }
}

/// Checks the peers of the accepted channels: both must come from the
/// same host.
pub fn check_accepted_pair(ctl_sa: &SocketAddr, itr_sa: &SocketAddr) -> (r: Result<(), SessionError>)
    ensures
        r is Ok <==> ctl_sa.addr.0@ == itr_sa.addr.0@,
        r is Err ==> r matches Err(SessionError::CtlItrSocketAddrMismatch),
{
    if ctl_sa.addr != itr_sa.addr {
        Err(SessionError::CtlItrSocketAddrMismatch)
    } else {
        Ok(())
    }
}

/// Settings of a session that reconnects to a known host.
#[derive(Clone, Copy, Debug)]
pub struct PairedSessionConfig {
    pub reconnect_address: Address,
    pub control_psm: Option<u16>,
    pub interrupt_psm: Option<u16>,
}

impl Default for PairedSessionConfig {
    fn default() -> (r: Self)
        ensures
            spec_is_any(r.reconnect_address),
            r.control_psm is None,
            r.interrupt_psm is None,
    {
        PairedSessionConfig { reconnect_address: Address::default(), control_psm: None, interrupt_psm: None }
    }
}

impl PairedSessionConfig {
    /// Addresses to connect the control and interrupt channels to: the
    /// host's address, with the configured or default PSMs.
    pub fn socket_addrs(&self) -> (r: (SocketAddr, SocketAddr))
        ensures
            r.0 == spec_channel(
                self.reconnect_address,
                match self.control_psm {
                    Some(p) => p,
                    None => DEFAULT_CTL_PSM,
                },
            ),
            r.1 == spec_channel(
                self.reconnect_address,
                match self.interrupt_psm {
                    Some(p) => p,
                    None => DEFAULT_ITR_PSM,
                },
            ),
    {
        let control_psm = match self.control_psm {
            Some(p) => p,
            None => DEFAULT_CTL_PSM,
        };
        let interrupt_psm = match self.interrupt_psm {
            Some(p) => p,
            None => DEFAULT_ITR_PSM,
        };
        (
            SocketAddr { addr: self.reconnect_address, addr_type: AddressType::BrEdr, psm: control_psm, cid: 0 },
            SocketAddr { addr: self.reconnect_address, addr_type: AddressType::BrEdr, psm: interrupt_psm, cid: 0 },
        )
    }
}

/// A connected session: the client sockets of both channels and their
/// peers' addresses.
#[derive(Debug)]
pub struct PairedSession<S> {
    ctl_client: S,
    ctl_sa: SocketAddr,
    itr_client: S,
    itr_sa: SocketAddr,
}

impl<S> PairedSession<S> {
    pub closed spec fn spec_ctl_socket_addr(&self) -> SocketAddr {
        self.ctl_sa
    }

    pub closed spec fn spec_itr_socket_addr(&self) -> SocketAddr {
        self.itr_sa
    }

    pub closed spec fn spec_ctl_client(&self) -> S {
        self.ctl_client
    }

    pub closed spec fn spec_itr_client(&self) -> S {
        self.itr_client
    }

    /// A session of the channels accepted or connected.
    pub fn from_socket(ctl_pair: (S, SocketAddr), itr_pair: (S, SocketAddr)) -> (r: Self)
        ensures
            r.spec_ctl_client() == ctl_pair.0,
            r.spec_ctl_socket_addr() == ctl_pair.1,
            r.spec_itr_client() == itr_pair.0,
            r.spec_itr_socket_addr() == itr_pair.1,
    {
        let (ctl_client, ctl_sa) = ctl_pair;
        let (itr_client, itr_sa) = itr_pair;
        PairedSession { ctl_client, ctl_sa, itr_client, itr_sa }
    }

    pub fn ctl_client(&self) -> (r: &S)
        ensures
            *r == self.spec_ctl_client(),
    {
        &self.ctl_client
    }

    pub fn ctl_socket_addr(&self) -> (r: SocketAddr)
        ensures
            r == self.spec_ctl_socket_addr(),
    {
        self.ctl_sa
    }

    pub fn itr_client(&self) -> (r: &S)
        ensures
            *r == self.spec_itr_client(),
    {
        &self.itr_client
    }

    pub fn itr_socket_addr(&self) -> (r: SocketAddr)
        ensures
            r == self.spec_itr_socket_addr(),
    {
        self.itr_sa
    }
}

} // verus!
