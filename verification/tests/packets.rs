use bt_hci::event::{
    ConnectionComplete, Event, EventPacketHeader, EventParams, HardwareError,
    NumberOfCompletedPackets, ReturnLinkKeys, DisconnectionComplete, LeEvent,
};
use bt_hci::param::{ConnHandle, Status};
use bt_hci::{AsHciBytes, FromHciBytes, FromHciBytesError};

#[test]
fn event_packet_reads_header_then_params() {
    // Hardware Error: code 0x10, one parameter byte, then a trailing byte.
    let data = [0x10, 0x01, 0x42, 0x99];
    let (evt, rest) = Event::from_hci_bytes(&data).unwrap();
    match evt {
        Event::HardwareError(e) => assert_eq!(e.hardware_code, 0x42),
        _ => panic!("wrong event"),
    }
    assert_eq!(rest, &[0x99]);
}

#[test]
fn event_packet_too_short_is_invalid_size() {
    let data = [0x10, 0x02, 0x42];
    assert_eq!(Event::from_hci_bytes(&data).unwrap_err(), FromHciBytesError::InvalidSize);
    assert_eq!(Event::from_hci_bytes(&[0x10]).unwrap_err(), FromHciBytesError::InvalidSize);
    assert_eq!(Event::from_hci_bytes(&[]).unwrap_err(), FromHciBytesError::InvalidSize);
}

#[test]
fn event_params_with_leftover_bytes_are_invalid_size() {
    // Hardware Error takes one byte; a parameter length of two leaves one over.
    let data = [0x10, 0x02, 0x42, 0x43];
    assert_eq!(Event::from_hci_bytes(&data).unwrap_err(), FromHciBytesError::InvalidSize);
}

#[test]
fn unknown_event_code_keeps_params() {
    let data = [0x77, 0x03, 0x01, 0x02, 0x03];
    let (evt, rest) = Event::from_hci_bytes(&data).unwrap();
    match evt {
        Event::Unknown { code, params } => {
            assert_eq!(code, 0x77);
            assert_eq!(params, &[0x01, 0x02, 0x03]);
        }
        _ => panic!("wrong event"),
    }
    assert!(rest.is_empty());
}

#[test]
fn le_meta_event_keeps_subevent() {
    let data = [0x3e, 0x03, 0x02, 0xaa, 0xbb];
    let (evt, _) = Event::from_hci_bytes(&data).unwrap();
    match evt {
        Event::Le(le) => {
            assert_eq!(le.subevent_code, 0x02);
            assert_eq!(le.params.as_hci_bytes(), &[0xaa, 0xbb]);
        }
        _ => panic!("wrong event"),
    }
    assert_eq!(Event::from_hci_bytes(&[0x3e, 0x00]).unwrap_err(), FromHciBytesError::InvalidSize);
    assert_eq!(LeEvent::EVENT_CODE, 0x3e);
}

#[test]
fn event_codes_select_params() {
    assert_eq!(DisconnectionComplete::EVENT_CODE, 0x05);
    assert_eq!(HardwareError::EVENT_CODE, 0x10);
    let data = [DisconnectionComplete::EVENT_CODE, 0x04, 0x00, 0x01, 0x00, 0x13];
    match Event::from_hci_bytes(&data).unwrap().0 {
        Event::DisconnectionComplete(d) => {
            assert_eq!(d.handle.raw(), 1);
            assert_eq!(d.reason, Status::remote_user_terminated_conn());
        }
        _ => panic!("wrong event"),
    }
}

#[test]
fn invalid_enum_byte_is_invalid_value() {
    // Link type 0x07 is not a connection link type.
    let data = [0x00, 0x01, 0x00, 0x01, 0x02, 0x03, 0x04, 0x05, 0x06, 0x07, 0x01];
    assert_eq!(
        ConnectionComplete::from_hci_bytes(&data).unwrap_err(),
        FromHciBytesError::InvalidValue
    );
    // Encryption flag 0x02 is not a bool.
    let data = [0x00, 0x01, 0x00, 0x01, 0x02, 0x03, 0x04, 0x05, 0x06, 0x01, 0x02];
    assert_eq!(
        ConnectionComplete::from_hci_bytes(&data).unwrap_err(),
        FromHciBytesError::InvalidValue
    );
    // A missing last byte is a size error.
    let data = [0x00, 0x01, 0x00, 0x01, 0x02, 0x03, 0x04, 0x05, 0x06, 0x01];
    assert_eq!(
        ConnectionComplete::from_hci_bytes(&data).unwrap_err(),
        FromHciBytesError::InvalidSize
    );
}

#[test]
fn complete_read_rejects_leftover_bytes() {
    assert_eq!(HardwareError::from_hci_bytes_complete(&[0x01]).unwrap().hardware_code, 1);
    assert_eq!(
        HardwareError::from_hci_bytes_complete(&[0x01, 0x02]).unwrap_err(),
        FromHciBytesError::InvalidSize
    );
    assert_eq!(HardwareError::from_hci_bytes_complete(&[]).unwrap_err(), FromHciBytesError::InvalidSize);
}

#[test]
fn number_of_completed_packets_reads_entries() {
    let data = [0x02, 0x01, 0x00, 0x05, 0x00, 0x02, 0x00, 0x34, 0x12, 0xee];
    let (evt, rest) = NumberOfCompletedPackets::from_hci_bytes(&data).unwrap();
    assert_eq!(evt.completed_packets.len(), 2);
    assert_eq!(evt.completed_packets[0].handle, ConnHandle(1));
    assert_eq!(evt.completed_packets[0].num_completed_packets, 5);
    assert_eq!(evt.completed_packets[1].handle, ConnHandle(2));
    assert_eq!(evt.completed_packets[1].num_completed_packets, 0x1234);
    assert_eq!(rest, &[0xee]);
    assert_eq!(
        NumberOfCompletedPackets::from_hci_bytes(&[0x02, 0x01, 0x00, 0x05, 0x00]).unwrap_err(),
        FromHciBytesError::InvalidSize
    );
}

#[test]
fn return_link_keys_addresses_take_all_bytes() {
    let data = [0x01, 0x01, 0x02, 0x03, 0x04, 0x05, 0x06, 0xaa];
    let (evt, rest) = ReturnLinkKeys::from_hci_bytes(&data).unwrap();
    assert_eq!(evt.num_keys, 1);
    assert_eq!(evt.bd_addr.as_hci_bytes(), &[0x01, 0x02, 0x03, 0x04, 0x05, 0x06, 0xaa]);
    assert!(evt.link_key.as_hci_bytes().is_empty());
    assert!(rest.is_empty());
}

#[test]
fn header_params_room() {
    let (header, _) = EventPacketHeader::from_hci_bytes(&[0x0e, 0x04]).unwrap();
    assert_eq!(header.code, 0x0e);
    assert_eq!(header.params_len, 4);
    assert_eq!(header.params_room(4), Some(4));
    assert_eq!(header.params_room(255), Some(4));
    assert_eq!(header.params_room(3), None);
}

#[test]
fn event_from_header_leaves_rest() {
    let header = EventPacketHeader { code: 0x10, params_len: 1 };
    let (evt, rest) = Event::from_header_hci_bytes(header, &[0x05, 0x06]).unwrap();
    assert!(matches!(evt, Event::HardwareError(HardwareError { hardware_code: 5 })));
    assert_eq!(rest, &[0x06]);
    assert_eq!(
        Event::from_header_hci_bytes(EventPacketHeader { code: 0x10, params_len: 3 }, &[0x05]).unwrap_err(),
        FromHciBytesError::InvalidSize
    );
}
