//! Checks of the host system and the outcome of system commands.
use vstd::prelude::*;
use std::io::ErrorKind;
use std::str::Utf8Error;

verus! {

/// `std::str::Utf8Error`, carried opaquely.
#[verifier::external_type_specification]
#[verifier::external_body]
pub struct ExUtf8Error(Utf8Error);

/// `Utf8Error::clone`: `Utf8Error` is `Copy`, so a clone equals the value cloned.
pub assume_specification[ <std::str::Utf8Error as Clone>::clone ](e: &std::str::Utf8Error) -> (r: std::str::Utf8Error)
    ensures
        r == *e,
;

/// The text that bytes decode to as UTF-8, when they are valid UTF-8.
pub uninterp spec fn utf8_decoded(bytes: Seq<u8>) -> Option<Seq<char>>;

/// `std::str::from_utf8`, the text owned: the decoded text of valid UTF-8,
/// else the decoding error.
#[verifier::external_body]
fn decode_utf8(bytes: &[u8]) -> (r: Result<String, Utf8Error>)
    ensures
        match r {
            Ok(s) => utf8_decoded(bytes@) == Some(s@),
            Err(_) => utf8_decoded(bytes@) is None,
        },
{
    match std::str::from_utf8(bytes) {
        Ok(text) => Ok(text.to_owned()),
        Err(err) => Err(err),
    }
}

/// Failures of the system checks.
#[derive(Clone, Debug)]
pub enum SysCheckError {
    /// The program does not run as root.
    RootPrivilegeRequired,
    /// Asking systemd about a service failed.
    SysctlFailed,
    BluetoothFailed(String),
    DBusFailed(String),
    /// A command-line tool is missing; its name.
    CliToolFailed(String),
}

/// What the system must provide, checked in this order.
#[derive(Clone, Copy, Debug, PartialEq, Eq, Structural)]
pub enum Requirement {
    /// Running as root.
    Root,
    BluetoothServiceExists,
    BluetoothServiceActive,
    DBusServiceExists,
    DBusServiceActive,
    /// The `hciconfig` tool runs.
    Hciconfig,
}

/// The requirements, in the order they are checked.
pub fn requirements() -> (r: Vec<Requirement>)
    ensures
        r@ == seq![
            Requirement::Root,
            Requirement::BluetoothServiceExists,
            Requirement::BluetoothServiceActive,
            Requirement::DBusServiceExists,
            Requirement::DBusServiceActive,
            Requirement::Hciconfig,
        ],
{
    let r = vec![
        Requirement::Root,
        Requirement::BluetoothServiceExists,
        Requirement::BluetoothServiceActive,
        Requirement::DBusServiceExists,
        Requirement::DBusServiceActive,
        Requirement::Hciconfig,
    ];
    assert(r@ =~= seq![
        Requirement::Root,
        Requirement::BluetoothServiceExists,
        Requirement::BluetoothServiceActive,
        Requirement::DBusServiceExists,
        Requirement::DBusServiceActive,
        Requirement::Hciconfig,
    ]);
    r
}

/// The outcome of checking `req`, given whether it holds (`None` when
/// asking the system failed): a service query that fails is a systemd
/// failure; anything else that does not hold gets its own error.
pub fn requirement_outcome(req: Requirement, holds: Option<bool>) -> (r: Result<(), SysCheckError>)
    ensures
        holds == Some(true) ==> r is Ok,
        holds != Some(true) ==> match req {
            Requirement::Root => r matches Err(SysCheckError::RootPrivilegeRequired),
            Requirement::Hciconfig => r matches Err(SysCheckError::CliToolFailed(m)) && m@ == "hciconfig"@,
            _ => holds is None ==> r matches Err(SysCheckError::SysctlFailed),
        },
        holds == Some(false) ==> match req {
            Requirement::BluetoothServiceExists => r matches Err(SysCheckError::BluetoothFailed(m))
                && m@ == "Bluetooth service does not exist"@,
            Requirement::BluetoothServiceActive => r matches Err(SysCheckError::BluetoothFailed(m))
                && m@ == "Bluetooth service is not active"@,
            Requirement::DBusServiceExists => r matches Err(SysCheckError::DBusFailed(m))
                && m@ == "dbus service does not exist"@,
            Requirement::DBusServiceActive => r matches Err(SysCheckError::DBusFailed(m))
                && m@ == "dbus service is not active"@,
            _ => true,
        },
{
    if holds == Some(true) {
        return Ok(());
    }
    match req {
        Requirement::Root => Err(SysCheckError::RootPrivilegeRequired),
        Requirement::Hciconfig => Err(SysCheckError::CliToolFailed("hciconfig".to_owned())),
        _ => {
            if holds.is_none() {
                return Err(SysCheckError::SysctlFailed);
            }
            match req {
                Requirement::BluetoothServiceExists => Err(
                    SysCheckError::BluetoothFailed("Bluetooth service does not exist".to_owned()),
                ),
                Requirement::BluetoothServiceActive => Err(
                    SysCheckError::BluetoothFailed("Bluetooth service is not active".to_owned()),
                ),
                Requirement::DBusServiceExists => Err(
                    SysCheckError::DBusFailed("dbus service does not exist".to_owned()),
                ),
                _ => Err(SysCheckError::DBusFailed("dbus service is not active".to_owned())),
            }
        },
    }
}

/// Failures below a system command.
#[derive(Clone, Debug)]
pub enum SystemCommandInternalError {
    /// Its error output is no UTF-8 text.
    Utf8Error(Utf8Error),
    /// Running it failed, with the failure's kind and message.
    Io { kind: ErrorKind, message: String },
}

/// Failures of a system command.
#[derive(Clone, Debug)]
pub enum SystemCommandError {
    /// The command failed; its error output.
    CommandFailed(String),
    Internal(SystemCommandInternalError),
}

/// Errors of the helper commands, which fail as system commands do.
pub type HelperError = SystemCommandError;

/// Failures below a helper command.
pub type HelperInternalError = SystemCommandInternalError;

impl SystemCommandError {
    /// The error of a command that could not be run, from its kind and
    /// message.
    pub fn from_io(kind: ErrorKind, message: String) -> (r: Self)
        ensures
            r matches SystemCommandError::Internal(SystemCommandInternalError::Io { kind: k, message: m })
                && k == kind && m@ == message@,
    {
        SystemCommandError::Internal(SystemCommandInternalError::Io { kind, message })
    }
}

/// The outcome of a command that exited, given its decoded error output:
/// success, or the failure with that output.
pub fn command_result(success: bool, stderr: Result<String, Utf8Error>) -> (r: Result<(), SystemCommandError>)
    ensures
        success ==> r is Ok,
        !success ==> match stderr {
            Ok(text) => r matches Err(SystemCommandError::CommandFailed(m)) && m@ == text@,
            Err(_) => r matches Err(SystemCommandError::Internal(SystemCommandInternalError::Utf8Error(_))),
        },
{
    if success {
        return Ok(());
    }
    match stderr {
        Ok(text) => Err(SystemCommandError::CommandFailed(text)),
        Err(e) => Err(SystemCommandError::Internal(SystemCommandInternalError::Utf8Error(e))),
    }
}

/// The outcome of a command that exited with status `success` and wrote
/// `stderr` as its error output.
pub fn command_outcome(success: bool, stderr: &[u8]) -> (r: Result<(), SystemCommandError>)
    ensures
        success ==> r is Ok,
        !success ==> match utf8_decoded(stderr@) {
            Some(text) => r matches Err(SystemCommandError::CommandFailed(m)) && m@ == text,
            None => r matches Err(SystemCommandError::Internal(SystemCommandInternalError::Utf8Error(_))),
        },
{
    if success {
        return Ok(());
    }
    command_result(false, decode_utf8(stderr))
}

} // verus!
