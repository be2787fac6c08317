use macaddr::MacAddr6;
use nxzr::addr::{Address, InvalidAddressError};

#[test]
fn address_text_is_upper_case_hex() {
    let a = Address::new([0x94, 0x59, 0xCB, 0x0A, 0x01, 0xFF]);
    assert_eq!(a.to_string(), "94:59:CB:0A:01:FF");
    assert_eq!(Address::any().to_string(), "00:00:00:00:00:00");
    assert_eq!(Address::default(), Address::any());
}

#[test]
fn address_text_parses_back() {
    let a = Address::new([0x94, 0x59, 0xCB, 0x0A, 0x01, 0xFF]);
    assert_eq!(Address::from_str(a.to_string().as_str()).unwrap(), a);
    assert_eq!(Address::from_str("94:59:cb:a:1:ff").unwrap(), a);
    let parsed: Address = "00:11:22:33:44:55".parse().unwrap();
    assert_eq!(parsed.octets(), [0x00, 0x11, 0x22, 0x33, 0x44, 0x55]);
}

#[test]
fn invalid_address_text_names_the_culprit() {
    let InvalidAddressError(field) = Address::from_str("00:11:2G:33:44:55").unwrap_err();
    assert_eq!(field, "2G");
    let InvalidAddressError(whole) = Address::from_str("00:11:22:33:44").unwrap_err();
    assert_eq!(whole, "00:11:22:33:44");
    let InvalidAddressError(field) = Address::from_str("00:11:22:33:44:55:66:").unwrap_err();
    assert_eq!(field, "");
    let InvalidAddressError(field) = Address::from_str("100:11:22:33:44:55").unwrap_err();
    assert_eq!(field, "100");
}

#[test]
fn conversions_keep_the_bytes() {
    let bytes = [1, 2, 3, 4, 5, 6];
    let a: Address = bytes.into();
    let back: [u8; 6] = a.into();
    assert_eq!(back, bytes);
    let mac: MacAddr6 = a.into();
    assert_eq!(mac, MacAddr6::new(1, 2, 3, 4, 5, 6));
    let from_mac: Address = MacAddr6::new(6, 5, 4, 3, 2, 1).into();
    assert_eq!(from_mac, Address::new([6, 5, 4, 3, 2, 1]));
}

#[test]
fn address_derefs_to_its_bytes() {
    let a = Address::new([0x94, 0x59, 0xCB, 1, 2, 3]);
    assert_eq!(a[0], 0x94);
    assert_eq!(&a[3..], &[1, 2, 3]);
    assert_eq!(*a, [0x94, 0x59, 0xCB, 1, 2, 3]);
}
