//! Decisions about the local Bluetooth adapter: which one to use, the
//! address and class it must have to pass for a Switch controller, and
//! which paired devices are Switches.
use vstd::prelude::*;
use std::io::ErrorKind;
use crate::addr::Address;
use crate::text::str_equal;
use super::system::SystemCommandError;

verus! {

/// Device class of a gamepad: peripheral, joystick/gamepad.
pub const DEVICE_CLASS: u32 = 0x002508;

/// How many SDP records an adapter may advertise before a Switch may refuse
/// the connection.
pub const MAX_SDP_RECORDS: usize = 3;

/// Failures below the adapter.
#[derive(Clone, Debug)]
pub enum DeviceInternalError {
    /// A socket operation failed, with its kind and message.
    Io { kind: ErrorKind, message: String },
    /// BlueZ reported a failure; its message.
    Bluer(String),
    /// A UUID could not be parsed; the failure's message.
    Uuid(String),
    SystemCommand(SystemCommandError),
}

/// Failures of the adapter.
#[derive(Clone, Debug)]
pub enum DeviceError {
    /// No BlueZ session could be opened (Bluetooth may be off); the
    /// failure's message.
    SessionCreationFailed(String),
    /// The adapter kept another address than the one set.
    MacAddrChangeFailed,
    /// The adapter kept another device class than the one set.
    DeviceClassSettingFailed,
    /// No adapter has the configured name.
    NoSuchAdapterExists(String),
    Internal(DeviceInternalError),
}

impl From<SystemCommandError> for DeviceError {
    fn from(err: SystemCommandError) -> (r: Self) {
        DeviceError::Internal(DeviceInternalError::SystemCommand(err))
    }
}

impl vstd::std_specs::convert::FromSpecImpl<SystemCommandError> for DeviceError {
    open spec fn obeys_from_spec() -> bool {
        true
    }

    open spec fn from_spec(err: SystemCommandError) -> Self {
        DeviceError::Internal(DeviceInternalError::SystemCommand(err))
    }
}

/// Settings of the adapter: its name, or the default adapter when unset.
#[derive(Clone, Debug)]
pub struct DeviceConfig {
    pub id: Option<String>,
}

impl Default for DeviceConfig {
    fn default() -> (r: Self)
        ensures
            r.id is None,
    {
        DeviceConfig { id: None }
    }
}

/// The adapter to open.
#[derive(Clone, Debug)]
pub enum AdapterChoice {
    /// The system's default adapter.
    Default,
    /// The adapter of this name.
    Named(String),
}

/// Whether `name` is among `names`.
pub open spec fn spec_has_name(names: Seq<String>, name: Seq<char>) -> bool {
    exists|i: int| 0 <= i < names.len() && #[trigger] names[i]@ == name
}

/// Chooses the adapter to open: the default one when no name is
/// configured, else the one of that name among the adapters present.
pub fn choose_adapter(config: &DeviceConfig, names: &Vec<String>) -> (r: Result<AdapterChoice, DeviceError>)
    ensures
        match config.id {
            None => r matches Ok(AdapterChoice::Default),
            Some(id) => if spec_has_name(names@, id@) {
                r matches Ok(AdapterChoice::Named(n)) && n@ == id@
            } else {
                r matches Err(DeviceError::NoSuchAdapterExists(n)) && n@ == id@
            },
        },
{
    let id = match &config.id {
        None => return Ok(AdapterChoice::Default),
        Some(id) => id,
    };
    let mut i: usize = 0;
    while i < names.len()
        invariant
            0 <= i <= names.len(),
            config.id == Some(*id),
            forall|j: int| 0 <= j < i ==> names@[j]@ != id@,
        decreases names.len() - i,
    {
        if str_equal(names[i].as_str(), id.as_str()) {
            return Ok(AdapterChoice::Named(id.clone()));
        }
        i = i + 1;
    }
    Err(DeviceError::NoSuchAdapterExists(id.clone()))
}

/// Whether the first three bytes of `a` are those of Nintendo's
/// addresses, `94:59:CB`.
pub open spec fn spec_has_switch_prefix(a: Address) -> bool {
    a.0[0] == 0x94 && a.0[1] == 0x59 && a.0[2] == 0xCB
}

/// Nintendo's prefix followed by the last three bytes of `a`.
pub open spec fn spec_switch_address(a: Address) -> Seq<u8> {
    seq![0x94u8, 0x59u8, 0xCBu8, a.0[3], a.0[4], a.0[5]]
}

/// The address the adapter must take to pass for a Switch controller:
/// none when it already starts with Nintendo's prefix, else the prefix
/// followed by the last three bytes of `addr`.
pub fn switch_compatible_address(addr: &Address) -> (r: Option<Address>)
    ensures
        spec_has_switch_prefix(*addr) ==> r is None,
        !spec_has_switch_prefix(*addr) ==> (r matches Some(a) && a.0@ == spec_switch_address(*addr)),
{
    let a = addr.0;
    if a[0] == 0x94 && a[1] == 0x59 && a[2] == 0xCB {
        None
    } else {
        let r = Address([0x94, 0x59, 0xCB, a[3], a[4], a[5]]);
        assert(r.0@ =~= spec_switch_address(*addr));
        Some(r)
    }
}

/// Checks that the adapter took the address that was set.
pub fn check_address_changed(current: &Address, desired: &Address) -> (r: Result<(), DeviceError>)
    ensures
        r is Ok <==> current.0@ == desired.0@,
        r is Err ==> r matches Err(DeviceError::MacAddrChangeFailed),
{
    if current != desired {
        Err(DeviceError::MacAddrChangeFailed)
    } else {
        Ok(())
    }
}

/// Whether a paired device of this name is a Switch.
pub fn is_switch_name(name: &str) -> (r: bool)
    ensures
        r == (name@ == "Nintendo Switch"@),
{
    str_equal(name, "Nintendo Switch")
}

/// Whether the adapter advertises so many SDP records that a Switch may
/// refuse the connection.
pub fn too_many_sdp_records(count: usize) -> (r: bool)
    ensures
        r == (count > MAX_SDP_RECORDS),
{
    count > MAX_SDP_RECORDS
}

/// Whether the adapter's class must be set.
pub fn class_needs_update(current: u32) -> (r: bool)
    ensures
        r == (current != DEVICE_CLASS),
{
    current != DEVICE_CLASS
}

/// Checks that the adapter took the class that was set.
pub fn check_device_class(current: u32, set: u32) -> (r: Result<(), DeviceError>)
    ensures
        r is Ok <==> current == set,
        r is Err ==> r matches Err(DeviceError::DeviceClassSettingFailed),
{
    if current != set {
        Err(DeviceError::DeviceClassSettingFailed)
    } else {
        Ok(())
    }
}

/// An address made compatible has Nintendo's prefix, so it needs no
/// further change.
pub proof fn law_compatible_address_is_stable(a: Address, b: Address)
    requires
        b.0@ == spec_switch_address(a),
    ensures
        spec_has_switch_prefix(b),
{
    assert(b.0@[0] == 0x94 && b.0@[1] == 0x59 && b.0@[2] == 0xCB);
}

} // verus!
