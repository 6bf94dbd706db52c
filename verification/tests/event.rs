use bt_hci::event::{
    AuthenticatedPayloadTimeoutExpired, AuthenticationComplete, ChangeConnectionLinkKeyComplete,
    CommandComplete, CommandStatus, ConnectionComplete, ConnectionPacketTypeChanged,
    ConnectionRequest, DataBufferOverflow, DisconnectionComplete, EncryptionChangeV1,
    EncryptionChangeV2, EncryptionKeyRefreshComplete, EnhancedFlushComplete,
    ExtendedInquiryResult, FlowSpecificationComplete, HardwareError, InquiryComplete,
    IoCapabilityRequest, IoCapabilityResponse, KeypressNotification, LinkKeyNotification,
    LinkKeyRequest, LinkKeyTypeChanged, LinkSupervisionTimeoutChanged, MaxSlotsChange,
    PageScanRepetitionModeChange, PinCodeRequest, QosViolation, ReadClockOffsetComplete,
    ReadRemoteExtendedFeaturesComplete, ReadRemoteSupportedFeaturesComplete,
    ReadRemoteVersionInformationComplete, RemoteHostSupportedFeaturesNotification,
    RemoteNameRequestComplete, RemoteOobDataRequest, SimplePairingComplete, SniffSubrating,
    SynchronousConnectionChanged, SynchronousConnectionComplete, TruncatedPageComplete,
    UserConfirmationRequest, UserPasskeyNotification, UserPasskeyRequest, Vendor,
};
use bt_hci::param::{
    AuthenticationRequirements, BdAddr, ConnectionLinkType, CoreSpecificationVersion,
    FlowDirection, IoCapability, KeyFlag, LinkKeyType, LinkType, LmpMaxSlots, NotificationType,
    OobDataPresent, PageScanRepetitionMode, ServiceType, Status,
};
use bt_hci::{AsHciBytes, FromHciBytes};

#[test]
fn test_inquiry_complete_from_bytes() {
    let data = [0x00];
    let (evt, rest) = InquiryComplete::from_hci_bytes(&data).unwrap();
    assert!(evt.status.to_result().is_ok());
    assert!(rest.is_empty());
}

#[test]
fn test_connection_complete_from_bytes() {
    let data = [0x00, 0x01, 0x00, 0x01, 0x02, 0x03, 0x04, 0x05, 0x06, 0x01, 0x01];
    let (evt, rest) = ConnectionComplete::from_hci_bytes(&data).unwrap();
    assert!(evt.status.to_result().is_ok());
    assert_eq!(evt.handle.raw(), 0x0001);
    assert_eq!(evt.bd_addr.raw(), [1, 2, 3, 4, 5, 6]);
    assert_eq!(evt.link_type, ConnectionLinkType::Acl);
    assert!(evt.encryption_enabled);
    assert!(rest.is_empty());
}

#[test]
fn test_disconnection_complete_from_bytes() {
    let data = [0x00, 0x01, 0x00, 0x13];
    let (evt, rest) = DisconnectionComplete::from_hci_bytes(&data).unwrap();
    assert!(evt.status.to_result().is_ok());
    assert_eq!(evt.handle.raw(), 0x0001);
    assert_eq!(evt.reason, Status::remote_user_terminated_conn());
    assert!(rest.is_empty());
}

#[test]
fn test_authentication_complete_from_bytes() {
    let data = [0x00, 0x01, 0x00];
    let (evt, rest) = AuthenticationComplete::from_hci_bytes(&data).unwrap();
    assert!(evt.status.to_result().is_ok());
    assert_eq!(evt.handle.raw(), 0x0001);
    assert!(rest.is_empty());
}

#[test]
fn test_encryption_change_v1_from_bytes() {
    let data = [0x00, 0x01, 0x00, 0x01];
    let (evt, rest) = EncryptionChangeV1::from_hci_bytes(&data).unwrap();
    assert!(evt.status.to_result().is_ok());
    assert_eq!(evt.handle.raw(), 0x0001);
    assert!(evt.enabled);
    assert!(rest.is_empty());
}

#[test]
fn test_read_remote_supported_features_complete_from_bytes() {
    let data = [0x00, 0x01, 0x00, 0xff, 0xff, 0xff, 0xff, 0xff, 0xff, 0xff, 0xff];
    let (evt, rest) = ReadRemoteSupportedFeaturesComplete::from_hci_bytes(&data).unwrap();
    assert!(evt.status.to_result().is_ok());
    assert_eq!(evt.handle.raw(), 0x0001);
    assert!(rest.is_empty());
}

#[test]
fn test_read_remote_version_information_complete_from_bytes() {
    // Bluetooth HCI multi-byte fields are little-endian.
    // Data: [status, handle (LE), version, company_id (LE), subversion (LE)]
    let data = [0x00, 0x01, 0x00, 0x09, 0x34, 0x12, 0x78, 0x56];
    let (evt, rest) = ReadRemoteVersionInformationComplete::from_hci_bytes(&data).unwrap();
    assert!(evt.status.to_result().is_ok());
    assert_eq!(evt.handle.raw(), 0x0001);
    assert_eq!(evt.version, CoreSpecificationVersion::version_5_0());
    assert_eq!(evt.company_id, 0x1234); // 0x34, 0x12 (LE)
    assert_eq!(evt.subversion, 0x5678); // 0x78, 0x56 (LE)
    assert!(rest.is_empty());

    // Negative test: swapped company_id/subversion bytes should not match
    let data_be = [0x00, 0x01, 0x00, 0x09, 0x12, 0x34, 0x56, 0x78];
    let (evt_be, _) = ReadRemoteVersionInformationComplete::from_hci_bytes(&data_be).unwrap();
    assert_ne!(evt_be.company_id, 0x1234);
    assert_ne!(evt_be.subversion, 0x5678);
}

#[test]
fn test_command_status_from_bytes() {
    let data = [0x00, 0x01, 0x34, 0x12];
    let (evt, rest) = CommandStatus::from_hci_bytes(&data).unwrap();
    assert!(evt.status.to_result().is_ok());
    assert_eq!(evt.num_hci_cmd_pkts, 1);
    assert_eq!(evt.cmd_opcode.to_raw(), 0x1234);
    assert!(rest.is_empty());
}

#[test]
fn test_command_complete_from_bytes() {
    let data = [0x01, 0x34, 0x12, 0x00, 0x02, 0x03];
    let (evt, rest) = CommandComplete::from_hci_bytes(&data).unwrap();
    assert_eq!(evt.num_hci_cmd_pkts, 1);
    assert_eq!(evt.cmd_opcode.to_raw(), 0x1234);
    assert!(evt.status.to_result().is_ok());
    assert_eq!(evt.return_param_bytes.as_hci_bytes(), &[0x02, 0x03]);
    assert!(rest.is_empty());
}

#[test]
fn test_connection_request_from_bytes() {
    let data = [0x01, 0x02, 0x03, 0x04, 0x05, 0x06, 0x10, 0x20, 0x30, 0x01];
    let (evt, rest) = ConnectionRequest::from_hci_bytes(&data).unwrap();
    assert_eq!(evt.bd_addr.raw(), [1, 2, 3, 4, 5, 6]);
    assert_eq!(evt.class_of_device, [0x10, 0x20, 0x30]);
    assert_eq!(evt.link_type, ConnectionLinkType::Acl);
    assert!(rest.is_empty());
}

#[test]
fn test_remote_name_request_complete_from_bytes() {
    let data = [0x00, 0x01, 0x02, 0x03, 0x04, 0x05, 0x06, 0x54, 0x65, 0x73, 0x74, 0x00];
    let (evt, rest) = RemoteNameRequestComplete::from_hci_bytes(&data).unwrap();
    assert!(evt.status.to_result().is_ok());
    assert_eq!(evt.bd_addr.raw(), [1, 2, 3, 4, 5, 6]);
    assert_eq!(evt.remote_name.as_hci_bytes(), &[0x54, 0x65, 0x73, 0x74, 0x00]);
    assert!(rest.is_empty());
}

#[test]
fn test_change_connection_link_key_complete_from_bytes() {
    let data = [0x00, 0x01, 0x00];
    let (evt, rest) = ChangeConnectionLinkKeyComplete::from_hci_bytes(&data).unwrap();
    assert!(evt.status.to_result().is_ok());
    assert_eq!(evt.handle.raw(), 0x0001);
    assert!(rest.is_empty());
}

#[test]
fn test_link_key_type_changed_from_bytes() {
    let data = [0x00, 0x01, 0x00, 0x01];
    let (evt, rest) = LinkKeyTypeChanged::from_hci_bytes(&data).unwrap();
    assert!(evt.status.to_result().is_ok());
    assert_eq!(evt.handle.raw(), 0x0001);
    assert_eq!(evt.key_flag, KeyFlag::Temporary);
    assert!(rest.is_empty());
}

#[test]
fn test_hardware_error_from_bytes() {
    let data = [0x42];
    let (evt, rest) = HardwareError::from_hci_bytes(&data).unwrap();
    assert_eq!(evt.hardware_code, 0x42);
    assert!(rest.is_empty());
}

#[test]
fn test_pin_code_request_from_bytes() {
    let data = [0x01, 0x02, 0x03, 0x04, 0x05, 0x06];
    let (evt, rest) = PinCodeRequest::from_hci_bytes(&data).unwrap();
    assert_eq!(evt.bd_addr.raw(), [1, 2, 3, 4, 5, 6]);
    assert!(rest.is_empty());
}

#[test]
fn test_link_key_request_from_bytes() {
    let data = [0x01, 0x02, 0x03, 0x04, 0x05, 0x06];
    let (evt, rest) = LinkKeyRequest::from_hci_bytes(&data).unwrap();
    assert_eq!(evt.bd_addr.raw(), [1, 2, 3, 4, 5, 6]);
    assert!(rest.is_empty());
}

#[test]
fn test_link_key_notification_from_bytes() {
    let data = [
        0x01, 0x02, 0x03, 0x04, 0x05, 0x06, // BD_ADDR
        0x10, 0x11, 0x12, 0x13, 0x14, 0x15, 0x16, 0x17, // Link Key (16 bytes)
        0x18, 0x19, 0x1a, 0x1b, 0x1c, 0x1d, 0x1e, 0x1f, 0x05, // Key Type (AuthenticatedCombinationKeyP192)
    ];
    let (evt, rest) = LinkKeyNotification::from_hci_bytes(&data).unwrap();
    assert_eq!(evt.bd_addr.raw(), [1, 2, 3, 4, 5, 6]);
    assert_eq!(
        evt.link_key,
        [0x10, 0x11, 0x12, 0x13, 0x14, 0x15, 0x16, 0x17, 0x18, 0x19, 0x1a, 0x1b, 0x1c, 0x1d, 0x1e, 0x1f]
    );
    assert_eq!(evt.key_type, LinkKeyType::AuthenticatedCombinationKeyP192);
    assert!(rest.is_empty());
}

#[test]
fn test_data_buffer_overflow_from_bytes() {
    let data = [0x01]; // ACL data link type
    let (evt, rest) = DataBufferOverflow::from_hci_bytes(&data).unwrap();
    assert_eq!(evt.link_type, LinkType::AclData);
    assert!(rest.is_empty());
}

#[test]
fn test_max_slots_change_from_bytes() {
    let data = [0x01, 0x00, 0x05];
    let (evt, rest) = MaxSlotsChange::from_hci_bytes(&data).unwrap();
    assert_eq!(evt.handle.raw(), 0x0001);
    assert_eq!(evt.lmp_max_slots, LmpMaxSlots::FiveSlots);
    assert!(rest.is_empty());
}

#[test]
fn test_read_clock_offset_complete_from_bytes() {
    let data = [0x00, 0x01, 0x00, 0x34, 0x12];
    let (evt, rest) = ReadClockOffsetComplete::from_hci_bytes(&data).unwrap();
    assert!(evt.status.to_result().is_ok());
    assert_eq!(evt.handle.raw(), 0x0001);
    // The test data [0x34, 0x12] represents the clock offset bytes
    assert_eq!(evt.clock_offset.as_hci_bytes(), &[0x34, 0x12]);
    assert!(rest.is_empty());
}

#[test]
fn test_connection_packet_type_changed_from_bytes() {
    let data = [0x00, 0x01, 0x00, 0x34, 0x12];
    let (evt, rest) = ConnectionPacketTypeChanged::from_hci_bytes(&data).unwrap();
    assert!(evt.status.to_result().is_ok());
    assert_eq!(evt.handle.raw(), 0x0001);
    // The test data [0x34, 0x12] represents the packet type bytes
    assert_eq!(evt.packet_type.as_hci_bytes(), &[0x34, 0x12]);
    assert!(rest.is_empty());
}

#[test]
fn test_qos_violation_from_bytes() {
    let data = [0x01, 0x00];
    let (evt, rest) = QosViolation::from_hci_bytes(&data).unwrap();
    assert_eq!(evt.handle.raw(), 0x0001);
    assert!(rest.is_empty());
}

#[test]
fn test_page_scan_repetition_mode_change_from_bytes() {
    let data = [0x01, 0x02, 0x03, 0x04, 0x05, 0x06, 0x01];
    let (evt, rest) = PageScanRepetitionModeChange::from_hci_bytes(&data).unwrap();
    assert_eq!(evt.bd_addr.raw(), [1, 2, 3, 4, 5, 6]);
    assert_eq!(evt.page_scan_repetition_mode, PageScanRepetitionMode::R1);
    assert!(rest.is_empty());
}

#[test]
fn test_flow_specification_complete_from_bytes() {
    let data = [
        0x00, // status
        0x01, 0x00, // handle
        0x00, // unused
        0x01, // flow_direction
        0x02, // service_type
        0x34, 0x12, 0x00, 0x00, // token_rate (LE)
        0x78, 0x56, 0x00, 0x00, // token_bucket_size (LE)
        0xBC, 0x9A, 0x00, 0x00, // peak_bandwidth (LE)
        0xF0, 0xDE, 0x00, 0x00, // access_latency (LE)
    ];
    let (evt, rest) = FlowSpecificationComplete::from_hci_bytes(&data).unwrap();
    assert!(evt.status.to_result().is_ok());
    assert_eq!(evt.handle.raw(), 0x0001);
    assert_eq!(evt.unused, 0);
    assert_eq!(evt.flow_direction, FlowDirection::Incoming);
    assert_eq!(evt.service_type, ServiceType::Guaranteed);
    assert_eq!(evt.token_rate, 0x1234);
    assert_eq!(evt.token_bucket_size, 0x5678);
    assert_eq!(evt.peak_bandwidth, 0x9ABC);
    assert_eq!(evt.access_latency, 0xDEF0);
    assert!(rest.is_empty());
}

#[test]
fn test_read_remote_extended_features_complete_from_bytes() {
    let data = [
        0x00, 0x01, 0x00, 0x01, 0x02, 0xff, 0xff, 0xff, 0xff, 0xff, 0xff, 0xff, 0xff,
    ];
    let (evt, rest) = ReadRemoteExtendedFeaturesComplete::from_hci_bytes(&data).unwrap();
    assert!(evt.status.to_result().is_ok());
    assert_eq!(evt.handle.raw(), 0x0001);
    assert_eq!(evt.page_number, 1);
    assert_eq!(evt.max_page_number, 2);
    assert!(rest.is_empty());
}

#[test]
fn test_synchronous_connection_complete_from_bytes() {
    let data = [
        0x00, // status
        0x01, 0x00, // handle
        0x01, 0x02, 0x03, 0x04, 0x05, 0x06, // bd_addr
        0x01, // link_type
        0x08, // transmission_interval
        0x04, // retransmission_window
        0x3C, 0x00, // rx_packet_length (LE)
        0x3C, 0x00, // tx_packet_length (LE)
        0x02, // air_mode
    ];
    let (evt, rest) = SynchronousConnectionComplete::from_hci_bytes(&data).unwrap();
    assert!(evt.status.to_result().is_ok());
    assert_eq!(evt.handle.raw(), 0x0001);
    assert_eq!(evt.bd_addr.raw(), [1, 2, 3, 4, 5, 6]);
    assert_eq!(evt.link_type, ConnectionLinkType::Acl);
    assert_eq!(evt.transmission_interval, 8);
    assert_eq!(evt.retransmission_window, 4);
    assert_eq!(evt.rx_packet_length, 60);
    assert_eq!(evt.tx_packet_length, 60);
    assert_eq!(evt.air_mode, 2);
    assert!(rest.is_empty());
}

#[test]
fn test_synchronous_connection_changed_from_bytes() {
    let data = [
        0x00, // status
        0x01, 0x00, // handle
        0x08, // transmission_interval
        0x04, // retransmission_window
        0x3C, 0x00, // rx_packet_length (LE)
        0x3C, 0x00, // tx_packet_length (LE)
    ];
    let (evt, rest) = SynchronousConnectionChanged::from_hci_bytes(&data).unwrap();
    assert!(evt.status.to_result().is_ok());
    assert_eq!(evt.handle.raw(), 0x0001);
    assert_eq!(evt.transmission_interval, 8);
    assert_eq!(evt.retransmission_window, 4);
    assert_eq!(evt.rx_packet_length, 60);
    assert_eq!(evt.tx_packet_length, 60);
    assert!(rest.is_empty());
}

#[test]
fn test_sniff_subrating_from_bytes() {
    let data = [
        0x01, 0x00, // handle
        0x20, 0x03, // max_tx_latency (LE)
        0x20, 0x03, // max_rx_latency (LE)
        0x40, 0x06, // min_remote_timeout (LE)
        0x40, 0x06, // min_local_timeout (LE)
    ];
    let (evt, rest) = SniffSubrating::from_hci_bytes(&data).unwrap();
    assert_eq!(evt.handle.raw(), 0x0001);
    assert_eq!(evt.max_tx_latency, 800);
    assert_eq!(evt.max_rx_latency, 800);
    assert_eq!(evt.min_remote_timeout, 1600);
    assert_eq!(evt.min_local_timeout, 1600);
    assert!(rest.is_empty());
}

#[test]
fn test_extended_inquiry_result_from_bytes() {
    let data = [
        0x01, // num_responses
        0x01, 0x02, 0x03, 0x04, 0x05, 0x06, // bd_addr
        0x01, // page_scan_repetition_mode
        0x00, // reserved
        0x10, 0x20, 0x30, // class_of_device
        0x34, 0x12, // clock_offset (LE)
        0x80, // rssi (-128)
        0x05, 0x09, 0x54, 0x65, 0x73, 0x74, // EIR data (example)
    ];
    let (evt, rest) = ExtendedInquiryResult::from_hci_bytes(&data).unwrap();
    assert_eq!(evt.num_responses, 1);
    assert_eq!(evt.bd_addr, BdAddr::new([1, 2, 3, 4, 5, 6]));
    assert_eq!(evt.page_scan_repetition_mode, PageScanRepetitionMode::R1);
    assert_eq!(evt.reserved, 0);
    assert_eq!(evt.class_of_device, [0x10, 0x20, 0x30]);
    // The test data [0x34, 0x12] represents the clock offset bytes
    assert_eq!(evt.clock_offset.as_hci_bytes(), &[0x34, 0x12]);
    assert_eq!(evt.rssi, -128);
    assert_eq!(evt.eir_data.as_hci_bytes(), &[0x05, 0x09, 0x54, 0x65, 0x73, 0x74]);
    assert!(rest.is_empty());
}

#[test]
fn test_encryption_key_refresh_complete_from_bytes() {
    let data = [0x00, 0x01, 0x00];
    let (evt, rest) = EncryptionKeyRefreshComplete::from_hci_bytes(&data).unwrap();
    assert!(evt.status.to_result().is_ok());
    assert_eq!(evt.handle.raw(), 0x0001);
    assert!(rest.is_empty());
}

#[test]
fn test_io_capability_request_from_bytes() {
    let data = [0x01, 0x02, 0x03, 0x04, 0x05, 0x06];
    let (evt, rest) = IoCapabilityRequest::from_hci_bytes(&data).unwrap();
    assert_eq!(evt.bd_addr.raw(), [1, 2, 3, 4, 5, 6]);
    assert!(rest.is_empty());
}

#[test]
fn test_io_capability_response_from_bytes() {
    let data = [0x01, 0x02, 0x03, 0x04, 0x05, 0x06, 0x01, 0x00, 0x02];
    let (evt, rest) = IoCapabilityResponse::from_hci_bytes(&data).unwrap();
    assert_eq!(evt.bd_addr.raw(), [1, 2, 3, 4, 5, 6]);
    assert_eq!(evt.io_capability, IoCapability::DisplayYesNo);
    assert_eq!(evt.oob_data_present, OobDataPresent::NotPresent);
    assert_eq!(
        evt.authentication_requirements,
        AuthenticationRequirements::MitmNotRequiredDedicatedBonding
    );
    assert!(rest.is_empty());
}

#[test]
fn test_user_confirmation_request_from_bytes() {
    let data = [0x01, 0x02, 0x03, 0x04, 0x05, 0x06, 0x78, 0x56, 0x34, 0x12];
    let (evt, rest) = UserConfirmationRequest::from_hci_bytes(&data).unwrap();
    assert_eq!(evt.bd_addr.raw(), [1, 2, 3, 4, 5, 6]);
    assert_eq!(evt.numeric_value, 0x1234_5678);
    assert!(rest.is_empty());
}

#[test]
fn test_user_passkey_request_from_bytes() {
    let data = [0x01, 0x02, 0x03, 0x04, 0x05, 0x06];
    let (evt, rest) = UserPasskeyRequest::from_hci_bytes(&data).unwrap();
    assert_eq!(evt.bd_addr.raw(), [1, 2, 3, 4, 5, 6]);
    assert!(rest.is_empty());
}

#[test]
fn test_remote_oob_data_request_from_bytes() {
    let data = [0x01, 0x02, 0x03, 0x04, 0x05, 0x06];
    let (evt, rest) = RemoteOobDataRequest::from_hci_bytes(&data).unwrap();
    assert_eq!(evt.bd_addr.raw(), [1, 2, 3, 4, 5, 6]);
    assert!(rest.is_empty());
}

#[test]
fn test_simple_pairing_complete_from_bytes() {
    let data = [0x00, 0x01, 0x02, 0x03, 0x04, 0x05, 0x06];
    let (evt, rest) = SimplePairingComplete::from_hci_bytes(&data).unwrap();
    assert!(evt.status.to_result().is_ok());
    assert_eq!(evt.bd_addr.raw(), [1, 2, 3, 4, 5, 6]);
    assert!(rest.is_empty());
}

#[test]
fn test_user_passkey_notification_from_bytes() {
    let data = [0x01, 0x02, 0x03, 0x04, 0x05, 0x06, 0x87, 0x65, 0x43, 0x21];
    let (evt, rest) = UserPasskeyNotification::from_hci_bytes(&data).unwrap();
    assert_eq!(evt.bd_addr.raw(), [1, 2, 3, 4, 5, 6]);
    assert_eq!(evt.passkey, 0x2143_6587);
    assert!(rest.is_empty());
}

#[test]
fn test_keypress_notification_from_bytes() {
    let data = [0x01, 0x02, 0x03, 0x04, 0x05, 0x06, 0x01];
    let (evt, rest) = KeypressNotification::from_hci_bytes(&data).unwrap();
    assert_eq!(evt.bd_addr.raw(), [1, 2, 3, 4, 5, 6]);
    assert_eq!(
        evt.notification_type,
        NotificationType::PasskeyDigitEntered
    );
    assert!(rest.is_empty());
}

#[test]
fn test_remote_host_supported_features_notification_from_bytes() {
    let data = [
        0x01, 0x02, 0x03, 0x04, 0x05, 0x06, 0x10, 0x11, 0x12, 0x13, 0x14, 0x15, 0x16, 0x17,
    ];
    let (evt, rest) = RemoteHostSupportedFeaturesNotification::from_hci_bytes(&data).unwrap();
    assert_eq!(evt.bd_addr.raw(), [1, 2, 3, 4, 5, 6]);

    // Verify the LmpFeatureMask by checking its raw bytes representation
    assert_eq!(
        evt.features.as_hci_bytes(),
        &[0x10, 0x11, 0x12, 0x13, 0x14, 0x15, 0x16, 0x17]
    );
    assert!(rest.is_empty());
}

#[test]
fn test_link_supervision_timeout_changed_from_bytes() {
    let data = [0x01, 0x00, 0x34, 0x12];
    let (evt, rest) = LinkSupervisionTimeoutChanged::from_hci_bytes(&data).unwrap();
    assert_eq!(evt.handle.raw(), 0x0001);
    assert_eq!(evt.link_supervision_timeout, 0x1234);
    assert!(rest.is_empty());
}

#[test]
fn test_enhanced_flush_complete_from_bytes() {
    let data = [0x01, 0x00];
    let (evt, rest) = EnhancedFlushComplete::from_hci_bytes(&data).unwrap();
    assert_eq!(evt.handle.raw(), 0x0001);
    assert!(rest.is_empty());
}

#[test]
fn test_truncated_page_complete_from_bytes() {
    let data = [0x00, 0x01, 0x02, 0x03, 0x04, 0x05, 0x06];
    let (evt, rest) = TruncatedPageComplete::from_hci_bytes(&data).unwrap();
    assert!(evt.status.to_result().is_ok());
    assert_eq!(evt.bd_addr.raw(), [1, 2, 3, 4, 5, 6]);
    assert!(rest.is_empty());
}

#[test]
fn test_authenticated_payload_timeout_expired_from_bytes() {
    let data = [0x01, 0x00];
    let (evt, rest) = AuthenticatedPayloadTimeoutExpired::from_hci_bytes(&data).unwrap();
    assert_eq!(evt.handle.raw(), 0x0001);
    assert!(rest.is_empty());
}

#[test]
fn test_encryption_change_v2_from_bytes() {
    let data = [0x00, 0x01, 0x00, 0x01, 0x10];
    let (evt, rest) = EncryptionChangeV2::from_hci_bytes(&data).unwrap();
    assert!(evt.status.to_result().is_ok());
    assert_eq!(evt.handle.raw(), 0x0001);
    assert!(evt.encryption_enabled);
    assert_eq!(evt.encryption_key_size, 16);
    assert!(rest.is_empty());
}

#[test]
fn test_vendor_from_bytes() {
    let data = [0x01, 0x02, 0x03, 0x04];
    let (evt, rest) = Vendor::from_hci_bytes(&data).unwrap();
    assert_eq!(evt.params.as_hci_bytes(), &[0x01, 0x02, 0x03, 0x04]);
    assert!(rest.is_empty());
}
