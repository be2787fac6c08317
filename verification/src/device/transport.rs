//! The transport's decisions: flow control read from HCI events, and the
//! outcome of each socket operation.
use vstd::prelude::*;
use std::io::ErrorKind;
use super::sock::hci::Filter;

verus! {

/// Writes allowed in flight before the controller reports completions.
pub const DEFAULT_FLOW_CONTROL_PERMITS: usize = 4;

/// Bytes read from the interrupt channel at a time.
pub const DEFAULT_READ_BUF_SIZE: usize = 50;

/// Failures below a transport.
#[derive(Clone, Debug)]
pub enum TransportInternalError {
    /// A socket operation failed, with its kind and message.
    Io { kind: ErrorKind, message: String },
    /// Waiting for a write permit failed.
    SemaphoreFailed,
}

/// Failures of a transport.
#[derive(Clone, Debug)]
pub enum TransportError {
    /// An operation was asked of a closed transport.
    OperationWhileClosed,
    /// The HCI socket watching for link changes was closed.
    MonitorLockClosed,
    /// The HCI socket watching for completed packets was closed.
    MonitorWindowClosed,
    /// The host closed the channel that is read.
    ReaderClosed,
    /// The host closed the channel that is written.
    WriterClosed,
    Internal(TransportInternalError),
}

impl TransportError {
    /// The error of a failed socket operation, from its kind and message.
    pub fn from_io(kind: ErrorKind, message: String) -> (r: Self)
        ensures
            r matches TransportError::Internal(TransportInternalError::Io { kind: k, message: m })
                && k == kind && m@ == message@,
    {
        TransportError::Internal(TransportInternalError::Io { kind, message })
    }
}

/// Settings of a transport; unset parts take their defaults.
#[derive(Clone, Copy, Debug)]
pub struct TransportConfig {
    num_flow_control: Option<usize>,
    read_buf_size: Option<usize>,
}

impl Default for TransportConfig {
    fn default() -> (r: Self)
        ensures
            r.spec_num_flow_control() is None,
            r.spec_read_buf_size() is None,
    {
        TransportConfig { num_flow_control: None, read_buf_size: None }
    }
}

impl TransportConfig {
    pub closed spec fn spec_num_flow_control(self) -> Option<usize> {
        self.num_flow_control
    }

    pub closed spec fn spec_read_buf_size(self) -> Option<usize> {
        self.read_buf_size
    }

    /// Write permits to start with, and most permits held.
    pub fn flow_control_permits(&self) -> (r: usize)
        ensures
            r == (match self.spec_num_flow_control() {
                Some(n) => n,
                None => DEFAULT_FLOW_CONTROL_PERMITS,
            }),
    {
        match self.num_flow_control {
            Some(n) => n,
            None => DEFAULT_FLOW_CONTROL_PERMITS,
        }
    }

    /// Size of the buffer that reads fill.
    pub fn read_buffer_size(&self) -> (r: usize)
        ensures
            r == (match self.spec_read_buf_size() {
                Some(n) => n,
                None => DEFAULT_READ_BUF_SIZE,
            }),
    {
        match self.read_buf_size {
            Some(n) => n,
            None => DEFAULT_READ_BUF_SIZE,
        }
    }
}

/// HCI packet type of events.
pub const HCI_EVENT_PACKET: u32 = 0x04;

/// HCI event: number of completed packets.
pub const HCI_EVENT_COMPLETED_PACKETS: u32 = 0x13;

/// HCI event: change of the most slots a link may use.
pub const HCI_EVENT_MAX_SLOTS_CHANGE: u32 = 0x1b;

/// Filter of the socket that watches the write window: events reporting
/// completed packets.
pub fn window_filter() -> (r: Filter)
    ensures
        r.type_mask == 1u32 << HCI_EVENT_PACKET,
        r.event_mask[0] == 1u32 << HCI_EVENT_COMPLETED_PACKETS,
        r.event_mask[1] == 0,
        r.opcode == 0,
{
    Filter {
        type_mask: 1u32 << HCI_EVENT_PACKET,
        event_mask: [1u32 << HCI_EVENT_COMPLETED_PACKETS, 0],
        opcode: 0,
    }
}

/// Filter of the socket that watches the write lock: events changing the
/// most slots of a link.
pub fn lock_filter() -> (r: Filter)
    ensures
        r.type_mask == 1u32 << HCI_EVENT_PACKET,
        r.event_mask[0] == 1u32 << HCI_EVENT_MAX_SLOTS_CHANGE,
        r.event_mask[1] == 0,
        r.opcode == 0,
{
    Filter {
        type_mask: 1u32 << HCI_EVENT_PACKET,
        event_mask: [1u32 << HCI_EVENT_MAX_SLOTS_CHANGE, 0],
        opcode: 0,
    }
}

/// Write permits granted by a completed-packets event of `received` bytes
/// in `buf`: the little-endian count at bytes 6 and 7. Nothing received
/// means the socket was closed.
pub fn window_permits(received: usize, buf: &[u8]) -> (r: Result<u16, TransportError>)
    requires
        buf@.len() >= 8,
    ensures
        received == 0 ==> r matches Err(TransportError::MonitorWindowClosed),
        received != 0 ==> r == Ok::<u16, TransportError>((buf@[6] + buf@[7] * 0x100) as u16),
{
    if received == 0 {
        return Err(TransportError::MonitorWindowClosed);
    }
    Ok((buf[6] as u16) + (buf[7] as u16) * 0x100)
}

/// Whether a max-slots-change event of `received` bytes in `buf` pauses
/// writing for a while: when the link may use fewer than five slots
/// (byte 5). Nothing received means the socket was closed.
pub fn lock_pauses_writes(received: usize, buf: &[u8]) -> (r: Result<bool, TransportError>)
    requires
        buf@.len() >= 6,
    ensures
        received == 0 ==> r matches Err(TransportError::MonitorLockClosed),
        received != 0 ==> r == Ok::<bool, TransportError>(buf@[5] < 5),
{
    if received == 0 {
        return Err(TransportError::MonitorLockClosed);
    }
    Ok(buf[5] < 5)
}

/// Outcome of a read of `received` bytes: none means the host closed the
/// channel.
pub fn read_outcome(received: usize) -> (r: Result<(), TransportError>)
    ensures
        received == 0 ==> r matches Err(TransportError::ReaderClosed),
        received != 0 ==> r is Ok,
{
    if received == 0 {
        Err(TransportError::ReaderClosed)
    } else {
        Ok(())
    }
}

/// Outcome of a write of `sent` bytes: none means the host closed the
/// channel.
pub fn write_outcome(sent: usize) -> (r: Result<(), TransportError>)
    ensures
        sent == 0 ==> r matches Err(TransportError::WriterClosed),
        sent != 0 ==> r is Ok,
{
    if sent == 0 {
        Err(TransportError::WriterClosed)
    } else {
        Ok(())
    }
}

/// Whether an operation may start: not on a closed transport.
pub fn check_open(closed: bool) -> (r: Result<(), TransportError>)
    ensures
        closed ==> r matches Err(TransportError::OperationWhileClosed),
        !closed ==> r is Ok,
{
    if closed {
        Err(TransportError::OperationWhileClosed)
    } else {
        Ok(())
    }
}

/// Permits to add when the controller grants `granted` more while
/// `available` are held, so that no more than `limit` are ever held.
pub fn capped_permits(available: usize, limit: usize, granted: usize) -> (r: usize)
    ensures
        available >= limit ==> r == 0,
        available < limit ==> r == (if granted <= limit - available { granted } else { (limit - available) as usize }),
        available + r <= limit || (available >= limit && r == 0),
{
    if available >= limit {
        0
    } else if granted <= limit - available {
        granted
    } else {
        limit - available
    }
}

} // verus!
