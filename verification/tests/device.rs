use std::str::FromStr;

use nxzr::addr::Address;
use nxzr::device::adapter::{
    check_address_changed, check_device_class, choose_adapter, class_needs_update, is_switch_name,
    switch_compatible_address, too_many_sdp_records, AdapterChoice, DeviceConfig, DeviceError,
};
use nxzr::device::connection::{reconnect_target, ConnectionError, ReconnectType};
use nxzr::device::session::{
    check_accepted_pair, PairedSession, PairedSessionConfig, SessionAddress, SessionConfig,
    SessionError,
};
use nxzr::device::sock::hci::Filter;
use nxzr::device::sock::l2cap::{any_bind_addr, Security, SecurityLevel, SocketAddr};
use nxzr::device::sock::sys::{bdaddr_t, bt_power, bt_security, hci_filter, l2cap_options};
use nxzr::device::sock::AddressType;
use nxzr::device::system::{
    command_outcome, requirement_outcome, requirements, Requirement, SysCheckError,
    SystemCommandError,
};
use nxzr::device::transport::{
    capped_permits, check_open, lock_filter, lock_pauses_writes, read_outcome, window_filter, window_permits, write_outcome,
    TransportConfig, TransportError,
};
use nxzr::device::uuid_ext::UuidExt;
use uuid::Uuid;

#[test]
fn short_uuids() {
    let hid = Uuid::from_str("00001124-0000-1000-8000-00805f9b34fb").unwrap();
    assert_eq!(<Uuid as UuidExt>::from_u16(0x1124), hid);
    assert_eq!(hid.as_u16(), Some(0x1124));
    assert_eq!(hid.as_u32(), Some(0x1124));
    let long = <Uuid as UuidExt>::from_u32(0x1234_5678);
    assert_eq!(long.to_string(), "12345678-0000-1000-8000-00805f9b34fb");
    assert_eq!(long.as_u32(), Some(0x1234_5678));
    assert_eq!(long.as_u16(), None);
    let other = Uuid::from_str("00001124-0000-1000-8000-00805f9b34fc").unwrap();
    assert_eq!(other.as_u32(), None);
    assert_eq!(other.as_u16(), None);
}

#[test]
fn l2cap_addresses() {
    let addr = Address::new([1, 2, 3, 4, 5, 6]);
    let sa = SocketAddr::new(addr, AddressType::LeRandom, 0x81);
    assert_eq!(sa.cid, 0);
    let bind = any_bind_addr(&sa);
    assert_eq!(bind.addr_type, AddressType::LePublic);
    assert_eq!(bind.addr, Address::any());
    assert_eq!(bind.psm, 0);
    let classic = any_bind_addr(&SocketAddr::new(addr, AddressType::BrEdr, 17));
    assert_eq!(classic, SocketAddr::any_br_edr());
    assert_eq!(SocketAddr::default().addr_type, AddressType::LePublic);
    assert_eq!(AddressType::from_u8(2), Some(AddressType::LeRandom));
    assert_eq!(AddressType::from_u8(3), None);
    assert_eq!(AddressType::BrEdr.to_u8(), 0);
}

#[test]
fn kernel_address_order_is_reversed() {
    let addr = Address::new([0x94, 0x59, 0xCB, 1, 2, 3]);
    let k: bdaddr_t = addr.into();
    assert_eq!(k.b, [3, 2, 1, 0xCB, 0x59, 0x94]);
    let back: Address = k.into();
    assert_eq!(back, addr);
    assert_eq!(bdaddr_t::default().b, [0; 6]);
}

#[test]
fn socket_options() {
    let sec = Security { level: SecurityLevel::High, key_size: 16 };
    let raw: bt_security = sec.into();
    assert_eq!(raw, bt_security { level: 3, key_size: 16 });
    assert_eq!(Security::from_sys(raw), Some(sec));
    assert_eq!(Security::from_sys(bt_security { level: 9, key_size: 16 }), None);
    assert_eq!(SecurityLevel::from_u8(0), Some(SecurityLevel::Sdp));
    assert!(bt_power::forced_active(true).is_forced_active());
    assert_eq!(bt_power::forced_active(false).force_active, 0);
    let opts = l2cap_options::default();
    assert_eq!((opts.imtu, opts.flush_to, opts.max_tx, opts.txwin_size), (672, 65535, 3, 63));
    let f = Filter { type_mask: 1, event_mask: [2, 3], opcode: 4 };
    let raw: hci_filter = f.into();
    assert_eq!(raw, hci_filter { type_mask: 1, event_mask: [2, 3], opcode: 4 });
}

#[test]
fn session_addresses() {
    let resolved = SessionAddress::from_config(&SessionConfig::default());
    assert_eq!(resolved.addr, Address::any());
    assert_eq!((resolved.ctl_psm, resolved.itr_psm), (17, 19));
    let addr = Address::new([1, 2, 3, 4, 5, 6]);
    let custom = SessionAddress::from_config(&SessionConfig {
        address: Some(addr),
        control_psm: Some(0x1001),
        interrupt_psm: None,
    });
    let ctl = custom.ctl_socket_addr();
    assert_eq!((ctl.addr, ctl.addr_type, ctl.psm, ctl.cid), (addr, AddressType::BrEdr, 0x1001, 0));
    assert_eq!(custom.itr_socket_addr().psm, 19);
    let (c, i) = PairedSessionConfig { reconnect_address: addr, ..Default::default() }.socket_addrs();
    assert_eq!((c.addr, c.psm, i.addr, i.psm), (addr, 17, addr, 19));
    let session = PairedSession::from_socket(("ctl", c), ("itr", i));
    assert_eq!(*session.ctl_client(), "ctl");
    assert_eq!(session.itr_socket_addr(), i);
}

#[test]
fn accepted_channels_must_share_a_host() {
    let a = SocketAddr::new(Address::new([1, 1, 1, 1, 1, 1]), AddressType::BrEdr, 17);
    let b = SocketAddr::new(Address::new([1, 1, 1, 1, 1, 1]), AddressType::BrEdr, 19);
    let c = SocketAddr::new(Address::new([2, 1, 1, 1, 1, 1]), AddressType::BrEdr, 19);
    assert!(check_accepted_pair(&a, &b).is_ok());
    assert!(matches!(check_accepted_pair(&a, &c), Err(SessionError::CtlItrSocketAddrMismatch)));
}

#[test]
fn transport_flow_control() {
    let config = TransportConfig::default();
    assert_eq!(config.flow_control_permits(), 4);
    assert_eq!(config.read_buffer_size(), 50);
    let mut buf = [0u8; 10];
    buf[6] = 0x02;
    buf[7] = 0x01;
    assert_eq!(window_permits(7, &buf).unwrap(), 0x0102);
    assert!(matches!(window_permits(0, &buf), Err(TransportError::MonitorWindowClosed)));
    buf[5] = 4;
    assert!(lock_pauses_writes(6, &buf).unwrap());
    buf[5] = 5;
    assert!(!lock_pauses_writes(6, &buf).unwrap());
    assert!(matches!(lock_pauses_writes(0, &buf), Err(TransportError::MonitorLockClosed)));
    assert!(matches!(read_outcome(0), Err(TransportError::ReaderClosed)));
    assert!(read_outcome(12).is_ok());
    assert!(matches!(write_outcome(0), Err(TransportError::WriterClosed)));
    assert_eq!(capped_permits(1, 4, 2), 2);
    assert_eq!(capped_permits(3, 4, 5), 1);
    assert_eq!(capped_permits(4, 4, 5), 0);
    assert_eq!(capped_permits(6, 4, 1), 0);
    assert!(matches!(check_open(true), Err(TransportError::OperationWhileClosed)));
    assert!(check_open(false).is_ok());
    assert_eq!(window_filter(), Filter { type_mask: 0x10, event_mask: [0x80000, 0], opcode: 0 });
    assert_eq!(lock_filter(), Filter { type_mask: 0x10, event_mask: [0x0800_0000, 0], opcode: 0 });
}

#[test]
fn adapter_decisions() {
    let names = vec!["hci0".to_owned(), "hci1".to_owned()];
    assert!(matches!(choose_adapter(&DeviceConfig::default(), &names), Ok(AdapterChoice::Default)));
    match choose_adapter(&DeviceConfig { id: Some("hci1".to_owned()) }, &names) {
        Ok(AdapterChoice::Named(n)) => assert_eq!(n, "hci1"),
        other => panic!("unexpected: {:?}", other),
    }
    match choose_adapter(&DeviceConfig { id: Some("hci7".to_owned()) }, &names) {
        Err(DeviceError::NoSuchAdapterExists(n)) => assert_eq!(n, "hci7"),
        other => panic!("unexpected: {:?}", other),
    }
    let own = Address::new([0x00, 0x1A, 0x7D, 0xDA, 0x71, 0x13]);
    let target = switch_compatible_address(&own).unwrap();
    assert_eq!(target, Address::new([0x94, 0x59, 0xCB, 0xDA, 0x71, 0x13]));
    assert_eq!(switch_compatible_address(&target), None);
    assert!(check_address_changed(&target, &target).is_ok());
    assert!(matches!(check_address_changed(&own, &target), Err(DeviceError::MacAddrChangeFailed)));
    assert!(is_switch_name("Nintendo Switch"));
    assert!(!is_switch_name("Nintendo switch"));
    assert!(too_many_sdp_records(4));
    assert!(!too_many_sdp_records(3));
    assert!(!class_needs_update(0x002508));
    assert!(class_needs_update(0x000100));
    assert!(matches!(check_device_class(1, 2), Err(DeviceError::DeviceClassSettingFailed)));
}

#[test]
fn system_checks() {
    let reqs = requirements();
    assert_eq!(reqs.len(), 6);
    assert_eq!(reqs[0], Requirement::Root);
    assert!(requirement_outcome(Requirement::Root, Some(true)).is_ok());
    assert!(matches!(
        requirement_outcome(Requirement::Root, Some(false)),
        Err(SysCheckError::RootPrivilegeRequired)
    ));
    assert!(matches!(
        requirement_outcome(Requirement::DBusServiceActive, None),
        Err(SysCheckError::SysctlFailed)
    ));
    match requirement_outcome(Requirement::BluetoothServiceActive, Some(false)) {
        Err(SysCheckError::BluetoothFailed(m)) => assert_eq!(m, "Bluetooth service is not active"),
        other => panic!("unexpected: {:?}", other),
    }
    match requirement_outcome(Requirement::Hciconfig, Some(false)) {
        Err(SysCheckError::CliToolFailed(m)) => assert_eq!(m, "hciconfig"),
        other => panic!("unexpected: {:?}", other),
    }
    assert!(command_outcome(true, &[0xFF]).is_ok());
    match command_outcome(false, b"no such device") {
        Err(SystemCommandError::CommandFailed(m)) => assert_eq!(m, "no such device"),
        other => panic!("unexpected: {:?}", other),
    }
    assert!(matches!(command_outcome(false, &[0xFF, 0xFE]), Err(SystemCommandError::Internal(_))));
}

#[test]
fn reconnect_targets() {
    let a = Address::new([1, 2, 3, 4, 5, 6]);
    let b = Address::new([6, 5, 4, 3, 2, 1]);
    assert_eq!(reconnect_target(ReconnectType::Manual(a), &vec![]).unwrap(), a);
    assert_eq!(reconnect_target(ReconnectType::Auto, &vec![b, a]).unwrap(), b);
    assert!(matches!(
        reconnect_target(ReconnectType::Auto, &vec![]),
        Err(ConnectionError::FailedToResolvePairedSwitches)
    ));
}
