use bt_hci::param::{
    AuthenticationRequirements, BdAddr, ClockOffset, ConnectionLinkType, CoreSpecificationVersion,
    LmpFeatureMask, Opcode, PacketType, RemainingBytes,
};
use bt_hci::{AsHciBytes, FromHciBytes, FromHciBytesError};

#[test]
fn multi_byte_fields_are_little_endian() {
    assert_eq!(u16::from_hci_bytes(&[0x34, 0x12]).unwrap().0, 0x1234);
    assert_eq!(u32::from_hci_bytes(&[0x78, 0x56, 0x34, 0x12, 0x00]).unwrap(), (0x1234_5678, &[0x00][..]));
    assert_eq!(Opcode::from_hci_bytes(&[0x03, 0x0c]).unwrap().0.to_raw(), 0x0c03);
    assert_eq!(u16::from_hci_bytes(&[0x34]).unwrap_err(), FromHciBytesError::InvalidSize);
}

#[test]
fn signed_byte_wraps() {
    assert_eq!(i8::from_hci_bytes(&[0x80]).unwrap().0, -128);
    assert_eq!(i8::from_hci_bytes(&[0x7f]).unwrap().0, 127);
}

#[test]
fn bool_is_zero_or_one() {
    assert_eq!(bool::from_hci_bytes(&[0]).unwrap().0, false);
    assert_eq!(bool::from_hci_bytes(&[1]).unwrap().0, true);
    assert_eq!(bool::from_hci_bytes(&[2]).unwrap_err(), FromHciBytesError::InvalidValue);
    assert_eq!(bool::from_hci_bytes(&[]).unwrap_err(), FromHciBytesError::InvalidSize);
}

#[test]
fn enum_bytes() {
    assert_eq!(ConnectionLinkType::from_u8(0x02), Some(ConnectionLinkType::Esco));
    assert_eq!(ConnectionLinkType::from_u8(0x03), None);
    assert_eq!(
        AuthenticationRequirements::from_hci_bytes(&[0x05]).unwrap().0,
        AuthenticationRequirements::MitmRequiredGeneralBonding
    );
    assert_eq!(
        AuthenticationRequirements::from_hci_bytes(&[0x06]).unwrap_err(),
        FromHciBytesError::InvalidValue
    );
    assert_eq!(CoreSpecificationVersion::from_hci_bytes(&[0x42]).unwrap().0, CoreSpecificationVersion(0x42));
}

#[test]
fn wire_bytes_read_back() {
    let addr = BdAddr::new([9, 8, 7, 6, 5, 4]);
    let mut bytes = addr.as_hci_bytes().to_vec();
    bytes.push(0xee);
    assert_eq!(BdAddr::from_hci_bytes(&bytes).unwrap(), (addr, &[0xee][..]));
    let offset = ClockOffset([0x34, 0x12]);
    assert_eq!(ClockOffset::from_hci_bytes(offset.as_hci_bytes()).unwrap().0, offset);
    let packet_type = PacketType([0x18, 0xcc]);
    assert_eq!(PacketType::from_hci_bytes(packet_type.as_hci_bytes()).unwrap().0, packet_type);
    let mask = LmpFeatureMask([1, 2, 3, 4, 5, 6, 7, 8]);
    assert_eq!(LmpFeatureMask::from_hci_bytes(mask.as_hci_bytes()).unwrap().0, mask);
    let remaining = RemainingBytes(&[1, 2, 3]);
    let (read, rest) = RemainingBytes::from_hci_bytes(remaining.as_hci_bytes()).unwrap();
    assert_eq!(read, remaining);
    assert!(rest.is_empty());
}
