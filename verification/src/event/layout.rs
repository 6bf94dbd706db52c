//! Where each event's parameters stand in its bytes.
//!
//! For every event with fixed fields, a law states the byte offsets of its fields, how
//! each field's bytes are read, exactly which parameter bytes read successfully, and what
//! is handed back.
use vstd::prelude::*;

use crate::event::{
    AuthenticatedPayloadTimeoutExpired, AuthenticationComplete, ChangeConnectionLinkKeyComplete,
    CommandComplete, CommandStatus, ConnectionComplete, ConnectionPacketTypeChanged,
    ConnectionRequest, DataBufferOverflow, DisconnectionComplete, EncryptionChangeV1,
    EncryptionChangeV2, EncryptionKeyRefreshComplete, EnhancedFlushComplete, EventPacketHeader,
    ExtendedInquiryResult, FlowSpecificationComplete, HardwareError, InquiryComplete, InquiryResult,
    InquiryResultWithRssi, IoCapabilityRequest, IoCapabilityResponse, KeypressNotification, LeEvent,
    LinkKeyNotification, LinkKeyRequest, LinkKeyTypeChanged, LinkSupervisionTimeoutChanged,
    MaxSlotsChange, NumberOfCompletedPackets, PageScanRepetitionModeChange, PinCodeRequest,
    QosViolation, ReadClockOffsetComplete, ReadRemoteExtendedFeaturesComplete,
    ReadRemoteSupportedFeaturesComplete, ReadRemoteVersionInformationComplete,
    RemoteHostSupportedFeaturesNotification, RemoteNameRequestComplete, RemoteOobDataRequest,
    ReturnLinkKeys, SimplePairingComplete, SniffSubrating, SynchronousConnectionChanged,
    SynchronousConnectionComplete, TruncatedPageComplete, UserConfirmationRequest,
    UserPasskeyNotification, UserPasskeyRequest, Vendor,
};
use crate::param::{
    AuthenticationRequirements, ConnHandleCompletedPackets, ConnectionLinkType, FlowDirection,
    IoCapability, KeyFlag, LinkKeyType, LinkType, LmpMaxSlots, NotificationType, OobDataPresent,
    PageScanRepetitionMode, ServiceType,
};
use crate::FromHciBytes;

verus! {

/// The parameters of the Disconnection Complete event are, in order, `status` (byte 0),
/// `handle` (bytes 1..3, little-endian), `reason` (byte 3). They read successfully exactly
/// when there are at least 4 bytes; the bytes after the first 4 are handed back.
pub proof fn law_disconnection_complete_layout(data: Seq<u8>)
    ensures
        DisconnectionComplete::spec_from_hci_bytes(data) is Ok <==> (data.len() >= 4),
        DisconnectionComplete::spec_from_hci_bytes(data) matches Ok((v, rest)) ==> {
            &&& v.status.0 == data[0]
            &&& v.handle.0 == data[1] + 256 * data[2]
            &&& v.reason.0 == data[3]
            &&& rest == data.skip(4)
        },
{
    if data.len() >= 3 {
        assert(data.skip(1).skip(2) =~= data.skip(3));
    }
    if data.len() >= 4 {
        assert(data.skip(3).skip(1) =~= data.skip(4));
    }
    if let Ok((v, rest)) = DisconnectionComplete::spec_from_hci_bytes(data) {
    }
}

/// The parameters of the Inquiry Result event are, in order, `num_responses` (byte 0),
/// `bytes` (all bytes from 1 on). They read successfully exactly when there are at least 1
/// bytes; nothing is left over.
pub proof fn law_inquiry_result_layout(data: Seq<u8>)
    ensures
        InquiryResult::spec_from_hci_bytes(data) is Ok <==> (data.len() >= 1),
        InquiryResult::spec_from_hci_bytes(data) matches Ok((v, rest)) ==> {
            &&& v.num_responses == data[0]
            &&& v.bytes == data.skip(1)
            &&& rest.len() == 0
        },
{
    if let Ok((v, rest)) = InquiryResult::spec_from_hci_bytes(data) {
    }
}

/// The parameters of the Extended Inquiry Result event are, in order, `num_responses` (byte
/// 0), `bd_addr` (bytes 1..7), `page_scan_repetition_mode` (byte 7, a known value),
/// `reserved` (byte 8), `class_of_device` (bytes 9..12), `clock_offset` (bytes 12..14),
/// `rssi` (byte 14), `eir_data` (all bytes from 15 on). They read successfully exactly when
/// there are at least 15 bytes and every field that names a value holds a known one;
/// nothing is left over.
pub proof fn law_extended_inquiry_result_layout(data: Seq<u8>)
    ensures
        ExtendedInquiryResult::spec_from_hci_bytes(data) is Ok <==> {
            &&& data.len() >= 15
            &&& PageScanRepetitionMode::spec_from_u8(data[7]) is Some
        },
        ExtendedInquiryResult::spec_from_hci_bytes(data) matches Ok((v, rest)) ==> {
            &&& v.num_responses == data[0]
            &&& v.bd_addr.0@ == data.subrange(1, 7)
            &&& PageScanRepetitionMode::spec_from_u8(data[7]) == Some(v.page_scan_repetition_mode)
            &&& v.reserved == data[8]
            &&& v.class_of_device@ == data.subrange(9, 12)
            &&& v.clock_offset.0@ == data.subrange(12, 14)
            &&& v.rssi == data[14] as i8
            &&& v.eir_data == data.skip(15)
            &&& rest.len() == 0
        },
{
    if data.len() >= 7 {
        assert(data.skip(1).skip(6) =~= data.skip(7));
    }
    if data.len() >= 8 {
        assert(data.skip(7).skip(1) =~= data.skip(8));
    }
    if data.len() >= 9 {
        assert(data.skip(8).skip(1) =~= data.skip(9));
    }
    if data.len() >= 12 {
        assert(data.skip(9).skip(3) =~= data.skip(12));
    }
    if data.len() >= 14 {
        assert(data.skip(12).skip(2) =~= data.skip(14));
    }
    if data.len() >= 15 {
        assert(data.skip(14).skip(1) =~= data.skip(15));
    }
    if let Ok((v, rest)) = ExtendedInquiryResult::spec_from_hci_bytes(data) {
        assert(v.bd_addr.0@ =~= data.subrange(1, 7));
        assert(v.class_of_device@ =~= data.subrange(9, 12));
        assert(v.clock_offset.0@ =~= data.subrange(12, 14));
    }
}

/// The parameters of the Inquiry Result with RSSI event are, in order, `num_responses`
/// (byte 0), `bytes` (all bytes from 1 on). They read successfully exactly when there are
/// at least 1 bytes; nothing is left over.
pub proof fn law_inquiry_result_with_rssi_layout(data: Seq<u8>)
    ensures
        InquiryResultWithRssi::spec_from_hci_bytes(data) is Ok <==> (data.len() >= 1),
        InquiryResultWithRssi::spec_from_hci_bytes(data) matches Ok((v, rest)) ==> {
            &&& v.num_responses == data[0]
            &&& v.bytes == data.skip(1)
            &&& rest.len() == 0
        },
{
    if let Ok((v, rest)) = InquiryResultWithRssi::spec_from_hci_bytes(data) {
    }
}

/// The parameters of the Encryption Change (v1) event are, in order, `status` (byte 0),
/// `handle` (bytes 1..3, little-endian), `enabled` (byte 3, 0 or 1). They read successfully
/// exactly when there are at least 4 bytes and every field that names a value holds a known
/// one; the bytes after the first 4 are handed back.
pub proof fn law_encryption_change_v1_layout(data: Seq<u8>)
    ensures
        EncryptionChangeV1::spec_from_hci_bytes(data) is Ok <==> (data.len() >= 4 && data[3] <= 1),
        EncryptionChangeV1::spec_from_hci_bytes(data) matches Ok((v, rest)) ==> {
            &&& v.status.0 == data[0]
            &&& v.handle.0 == data[1] + 256 * data[2]
            &&& v.enabled == (data[3] == 1)
            &&& rest == data.skip(4)
        },
{
    if data.len() >= 3 {
        assert(data.skip(1).skip(2) =~= data.skip(3));
    }
    if data.len() >= 4 {
        assert(data.skip(3).skip(1) =~= data.skip(4));
    }
    if let Ok((v, rest)) = EncryptionChangeV1::spec_from_hci_bytes(data) {
    }
}

/// The parameters of the Encryption Change (v2) event are, in order, `status` (byte 0),
/// `handle` (bytes 1..3, little-endian), `encryption_enabled` (byte 3, 0 or 1),
/// `encryption_key_size` (byte 4). They read successfully exactly when there are at least 5
/// bytes and every field that names a value holds a known one; the bytes after the first 5
/// are handed back.
pub proof fn law_encryption_change_v2_layout(data: Seq<u8>)
    ensures
        EncryptionChangeV2::spec_from_hci_bytes(data) is Ok <==> (data.len() >= 5 && data[3] <= 1),
        EncryptionChangeV2::spec_from_hci_bytes(data) matches Ok((v, rest)) ==> {
            &&& v.status.0 == data[0]
            &&& v.handle.0 == data[1] + 256 * data[2]
            &&& v.encryption_enabled == (data[3] == 1)
            &&& v.encryption_key_size == data[4]
            &&& rest == data.skip(5)
        },
{
    if data.len() >= 3 {
        assert(data.skip(1).skip(2) =~= data.skip(3));
    }
    if data.len() >= 4 {
        assert(data.skip(3).skip(1) =~= data.skip(4));
    }
    if data.len() >= 5 {
        assert(data.skip(4).skip(1) =~= data.skip(5));
    }
    if let Ok((v, rest)) = EncryptionChangeV2::spec_from_hci_bytes(data) {
    }
}

/// The parameters of the Read Remote Version Information Complete event are, in order,
/// `status` (byte 0), `handle` (bytes 1..3, little-endian), `version` (byte 3),
/// `company_id` (bytes 4..6, little-endian), `subversion` (bytes 6..8, little-endian). They
/// read successfully exactly when there are at least 8 bytes; the bytes after the first 8
/// are handed back.
pub proof fn law_read_remote_version_information_complete_layout(data: Seq<u8>)
    ensures
        ReadRemoteVersionInformationComplete::spec_from_hci_bytes(data) is Ok <==> {
            &&& data.len() >= 8
        },
        ReadRemoteVersionInformationComplete::spec_from_hci_bytes(data) matches Ok((v, rest)) ==> {
            &&& v.status.0 == data[0]
            &&& v.handle.0 == data[1] + 256 * data[2]
            &&& v.version.0 == data[3]
            &&& v.company_id == data[4] + 256 * data[5]
            &&& v.subversion == data[6] + 256 * data[7]
            &&& rest == data.skip(8)
        },
{
    if data.len() >= 3 {
        assert(data.skip(1).skip(2) =~= data.skip(3));
    }
    if data.len() >= 4 {
        assert(data.skip(3).skip(1) =~= data.skip(4));
    }
    if data.len() >= 6 {
        assert(data.skip(4).skip(2) =~= data.skip(6));
    }
    if data.len() >= 8 {
        assert(data.skip(6).skip(2) =~= data.skip(8));
    }
    if let Ok((v, rest)) = ReadRemoteVersionInformationComplete::spec_from_hci_bytes(data) {
    }
}

/// The parameters of the Command Complete event are, in order, `num_hci_cmd_pkts` (byte 0),
/// `cmd_opcode` (bytes 1..3, little-endian), `status` (byte 3), `return_param_bytes` (all
/// bytes from 4 on). They read successfully exactly when there are at least 4 bytes;
/// nothing is left over.
pub proof fn law_command_complete_layout(data: Seq<u8>)
    ensures
        CommandComplete::spec_from_hci_bytes(data) is Ok <==> (data.len() >= 4),
        CommandComplete::spec_from_hci_bytes(data) matches Ok((v, rest)) ==> {
            &&& v.num_hci_cmd_pkts == data[0]
            &&& v.cmd_opcode.0 == data[1] + 256 * data[2]
            &&& v.status.0 == data[3]
            &&& v.return_param_bytes == data.skip(4)
            &&& rest.len() == 0
        },
{
    if data.len() >= 3 {
        assert(data.skip(1).skip(2) =~= data.skip(3));
    }
    if data.len() >= 4 {
        assert(data.skip(3).skip(1) =~= data.skip(4));
    }
    if let Ok((v, rest)) = CommandComplete::spec_from_hci_bytes(data) {
    }
}

/// The parameters of the Command Status event are, in order, `status` (byte 0),
/// `num_hci_cmd_pkts` (byte 1), `cmd_opcode` (bytes 2..4, little-endian). They read
/// successfully exactly when there are at least 4 bytes; the bytes after the first 4 are
/// handed back.
pub proof fn law_command_status_layout(data: Seq<u8>)
    ensures
        CommandStatus::spec_from_hci_bytes(data) is Ok <==> (data.len() >= 4),
        CommandStatus::spec_from_hci_bytes(data) matches Ok((v, rest)) ==> {
            &&& v.status.0 == data[0]
            &&& v.num_hci_cmd_pkts == data[1]
            &&& v.cmd_opcode.0 == data[2] + 256 * data[3]
            &&& rest == data.skip(4)
        },
{
    if data.len() >= 2 {
        assert(data.skip(1).skip(1) =~= data.skip(2));
    }
    if data.len() >= 4 {
        assert(data.skip(2).skip(2) =~= data.skip(4));
    }
    if let Ok((v, rest)) = CommandStatus::spec_from_hci_bytes(data) {
    }
}

/// The parameters of the Hardware Error event are, in order, `hardware_code` (byte 0). They
/// read successfully exactly when there are at least 1 bytes; the bytes after the first 1
/// are handed back.
pub proof fn law_hardware_error_layout(data: Seq<u8>)
    ensures
        HardwareError::spec_from_hci_bytes(data) is Ok <==> (data.len() >= 1),
        HardwareError::spec_from_hci_bytes(data) matches Ok((v, rest)) ==> {
            &&& v.hardware_code == data[0]
            &&& rest == data.skip(1)
        },
{
    if let Ok((v, rest)) = HardwareError::spec_from_hci_bytes(data) {
    }
}

/// The parameters of the Data Buffer Overflow event are, in order, `link_type` (byte 0, a
/// known value). They read successfully exactly when there are at least 1 bytes and every
/// field that names a value holds a known one; the bytes after the first 1 are handed back.
pub proof fn law_data_buffer_overflow_layout(data: Seq<u8>)
    ensures
        DataBufferOverflow::spec_from_hci_bytes(data) is Ok <==> {
            &&& data.len() >= 1
            &&& LinkType::spec_from_u8(data[0]) is Some
        },
        DataBufferOverflow::spec_from_hci_bytes(data) matches Ok((v, rest)) ==> {
            &&& LinkType::spec_from_u8(data[0]) == Some(v.link_type)
            &&& rest == data.skip(1)
        },
{
    if let Ok((v, rest)) = DataBufferOverflow::spec_from_hci_bytes(data) {
    }
}

/// The parameters of the Encryption Key Refresh Complete event are, in order, `status`
/// (byte 0), `handle` (bytes 1..3, little-endian). They read successfully exactly when
/// there are at least 3 bytes; the bytes after the first 3 are handed back.
pub proof fn law_encryption_key_refresh_complete_layout(data: Seq<u8>)
    ensures
        EncryptionKeyRefreshComplete::spec_from_hci_bytes(data) is Ok <==> (data.len() >= 3),
        EncryptionKeyRefreshComplete::spec_from_hci_bytes(data) matches Ok((v, rest)) ==> {
            &&& v.status.0 == data[0]
            &&& v.handle.0 == data[1] + 256 * data[2]
            &&& rest == data.skip(3)
        },
{
    if data.len() >= 3 {
        assert(data.skip(1).skip(2) =~= data.skip(3));
    }
    if let Ok((v, rest)) = EncryptionKeyRefreshComplete::spec_from_hci_bytes(data) {
    }
}

/// The parameters of the Authenticated Payload Timeout Expired event are, in order,
/// `handle` (bytes 0..2, little-endian). They read successfully exactly when there are at
/// least 2 bytes; the bytes after the first 2 are handed back.
pub proof fn law_authenticated_payload_timeout_expired_layout(data: Seq<u8>)
    ensures
        AuthenticatedPayloadTimeoutExpired::spec_from_hci_bytes(data) is Ok <==> (data.len() >= 2),
        AuthenticatedPayloadTimeoutExpired::spec_from_hci_bytes(data) matches Ok((v, rest)) ==> {
            &&& v.handle.0 == data[0] + 256 * data[1]
            &&& rest == data.skip(2)
        },
{
    if let Ok((v, rest)) = AuthenticatedPayloadTimeoutExpired::spec_from_hci_bytes(data) {
    }
}

/// The parameters of the Return Link Keys event are, in order, `num_keys` (byte 0),
/// `bd_addr` (all bytes from 1 on), `link_key` (nothing: the bytes before it took all).
/// They read successfully exactly when there are at least 1 bytes; nothing is left over.
pub proof fn law_return_link_keys_layout(data: Seq<u8>)
    ensures
        ReturnLinkKeys::spec_from_hci_bytes(data) is Ok <==> (data.len() >= 1),
        ReturnLinkKeys::spec_from_hci_bytes(data) matches Ok((v, rest)) ==> {
            &&& v.num_keys == data[0]
            &&& v.bd_addr == data.skip(1)
            &&& v.link_key.len() == 0
            &&& rest.len() == 0
        },
{
    if let Ok((v, rest)) = ReturnLinkKeys::spec_from_hci_bytes(data) {
    }
}

/// The parameters of the Vendor event are, in order, `params` (all bytes from 0 on). They
/// read successfully exactly when there are at least 0 bytes; nothing is left over.
pub proof fn law_vendor_layout(data: Seq<u8>)
    ensures
        Vendor::spec_from_hci_bytes(data) is Ok <==> (data.len() >= 0),
        Vendor::spec_from_hci_bytes(data) matches Ok((v, rest)) ==> {
            &&& v.params == data.skip(0)
            &&& rest.len() == 0
        },
{
    if let Ok((v, rest)) = Vendor::spec_from_hci_bytes(data) {
    }
}

/// The parameters of the Remote Name Request Complete event are, in order, `status` (byte
/// 0), `bd_addr` (bytes 1..7), `remote_name` (all bytes from 7 on). They read successfully
/// exactly when there are at least 7 bytes; nothing is left over.
pub proof fn law_remote_name_request_complete_layout(data: Seq<u8>)
    ensures
        RemoteNameRequestComplete::spec_from_hci_bytes(data) is Ok <==> (data.len() >= 7),
        RemoteNameRequestComplete::spec_from_hci_bytes(data) matches Ok((v, rest)) ==> {
            &&& v.status.0 == data[0]
            &&& v.bd_addr.0@ == data.subrange(1, 7)
            &&& v.remote_name == data.skip(7)
            &&& rest.len() == 0
        },
{
    if data.len() >= 7 {
        assert(data.skip(1).skip(6) =~= data.skip(7));
    }
    if let Ok((v, rest)) = RemoteNameRequestComplete::spec_from_hci_bytes(data) {
        assert(v.bd_addr.0@ =~= data.subrange(1, 7));
    }
}

/// The parameters of the Remote Host Supported Features Notification event are, in order,
/// `bd_addr` (bytes 0..6), `features` (bytes 6..14). They read successfully exactly when
/// there are at least 14 bytes; the bytes after the first 14 are handed back.
pub proof fn law_remote_host_supported_features_notification_layout(data: Seq<u8>)
    ensures
        RemoteHostSupportedFeaturesNotification::spec_from_hci_bytes(data) is Ok <==> {
            &&& data.len() >= 14
        },
        RemoteHostSupportedFeaturesNotification::spec_from_hci_bytes(data) matches Ok((v, rest))
            ==> {
            &&& v.bd_addr.0@ == data.subrange(0, 6)
            &&& v.features.0@ == data.subrange(6, 14)
            &&& rest == data.skip(14)
        },
{
    if data.len() >= 14 {
        assert(data.skip(6).skip(8) =~= data.skip(14));
    }
    if let Ok((v, rest)) = RemoteHostSupportedFeaturesNotification::spec_from_hci_bytes(data) {
        assert(v.bd_addr.0@ =~= data.subrange(0, 6));
        assert(v.features.0@ =~= data.subrange(6, 14));
    }
}

/// The parameters of the Connection Complete event are, in order, `status` (byte 0),
/// `handle` (bytes 1..3, little-endian), `bd_addr` (bytes 3..9), `link_type` (byte 9, a
/// known value), `encryption_enabled` (byte 10, 0 or 1). They read successfully exactly
/// when there are at least 11 bytes and every field that names a value holds a known one;
/// the bytes after the first 11 are handed back.
pub proof fn law_connection_complete_layout(data: Seq<u8>)
    ensures
        ConnectionComplete::spec_from_hci_bytes(data) is Ok <==> {
            &&& data.len() >= 11
            &&& ConnectionLinkType::spec_from_u8(data[9]) is Some
            &&& data[10] <= 1
        },
        ConnectionComplete::spec_from_hci_bytes(data) matches Ok((v, rest)) ==> {
            &&& v.status.0 == data[0]
            &&& v.handle.0 == data[1] + 256 * data[2]
            &&& v.bd_addr.0@ == data.subrange(3, 9)
            &&& ConnectionLinkType::spec_from_u8(data[9]) == Some(v.link_type)
            &&& v.encryption_enabled == (data[10] == 1)
            &&& rest == data.skip(11)
        },
{
    if data.len() >= 3 {
        assert(data.skip(1).skip(2) =~= data.skip(3));
    }
    if data.len() >= 9 {
        assert(data.skip(3).skip(6) =~= data.skip(9));
    }
    if data.len() >= 10 {
        assert(data.skip(9).skip(1) =~= data.skip(10));
    }
    if data.len() >= 11 {
        assert(data.skip(10).skip(1) =~= data.skip(11));
    }
    if let Ok((v, rest)) = ConnectionComplete::spec_from_hci_bytes(data) {
        assert(v.bd_addr.0@ =~= data.subrange(3, 9));
    }
}

/// The parameters of the Link Key Request event are, in order, `bd_addr` (bytes 0..6). They
/// read successfully exactly when there are at least 6 bytes; the bytes after the first 6
/// are handed back.
pub proof fn law_link_key_request_layout(data: Seq<u8>)
    ensures
        LinkKeyRequest::spec_from_hci_bytes(data) is Ok <==> (data.len() >= 6),
        LinkKeyRequest::spec_from_hci_bytes(data) matches Ok((v, rest)) ==> {
            &&& v.bd_addr.0@ == data.subrange(0, 6)
            &&& rest == data.skip(6)
        },
{
    if let Ok((v, rest)) = LinkKeyRequest::spec_from_hci_bytes(data) {
        assert(v.bd_addr.0@ =~= data.subrange(0, 6));
    }
}

/// The parameters of the PIN Code Request event are, in order, `bd_addr` (bytes 0..6). They
/// read successfully exactly when there are at least 6 bytes; the bytes after the first 6
/// are handed back.
pub proof fn law_pin_code_request_layout(data: Seq<u8>)
    ensures
        PinCodeRequest::spec_from_hci_bytes(data) is Ok <==> (data.len() >= 6),
        PinCodeRequest::spec_from_hci_bytes(data) matches Ok((v, rest)) ==> {
            &&& v.bd_addr.0@ == data.subrange(0, 6)
            &&& rest == data.skip(6)
        },
{
    if let Ok((v, rest)) = PinCodeRequest::spec_from_hci_bytes(data) {
        assert(v.bd_addr.0@ =~= data.subrange(0, 6));
    }
}

/// The parameters of the Link Key Notification event are, in order, `bd_addr` (bytes 0..6),
/// `link_key` (bytes 6..22), `key_type` (byte 22, a known value). They read successfully
/// exactly when there are at least 23 bytes and every field that names a value holds a
/// known one; the bytes after the first 23 are handed back.
pub proof fn law_link_key_notification_layout(data: Seq<u8>)
    ensures
        LinkKeyNotification::spec_from_hci_bytes(data) is Ok <==> {
            &&& data.len() >= 23
            &&& LinkKeyType::spec_from_u8(data[22]) is Some
        },
        LinkKeyNotification::spec_from_hci_bytes(data) matches Ok((v, rest)) ==> {
            &&& v.bd_addr.0@ == data.subrange(0, 6)
            &&& v.link_key@ == data.subrange(6, 22)
            &&& LinkKeyType::spec_from_u8(data[22]) == Some(v.key_type)
            &&& rest == data.skip(23)
        },
{
    if data.len() >= 22 {
        assert(data.skip(6).skip(16) =~= data.skip(22));
    }
    if data.len() >= 23 {
        assert(data.skip(22).skip(1) =~= data.skip(23));
    }
    if let Ok((v, rest)) = LinkKeyNotification::spec_from_hci_bytes(data) {
        assert(v.bd_addr.0@ =~= data.subrange(0, 6));
        assert(v.link_key@ =~= data.subrange(6, 22));
    }
}

/// The parameters of the Authentication Complete event are, in order, `status` (byte 0),
/// `handle` (bytes 1..3, little-endian). They read successfully exactly when there are at
/// least 3 bytes; the bytes after the first 3 are handed back.
pub proof fn law_authentication_complete_layout(data: Seq<u8>)
    ensures
        AuthenticationComplete::spec_from_hci_bytes(data) is Ok <==> (data.len() >= 3),
        AuthenticationComplete::spec_from_hci_bytes(data) matches Ok((v, rest)) ==> {
            &&& v.status.0 == data[0]
            &&& v.handle.0 == data[1] + 256 * data[2]
            &&& rest == data.skip(3)
        },
{
    if data.len() >= 3 {
        assert(data.skip(1).skip(2) =~= data.skip(3));
    }
    if let Ok((v, rest)) = AuthenticationComplete::spec_from_hci_bytes(data) {
    }
}

/// The parameters of the Inquiry Complete event are, in order, `status` (byte 0). They read
/// successfully exactly when there are at least 1 bytes; the bytes after the first 1 are
/// handed back.
pub proof fn law_inquiry_complete_layout(data: Seq<u8>)
    ensures
        InquiryComplete::spec_from_hci_bytes(data) is Ok <==> (data.len() >= 1),
        InquiryComplete::spec_from_hci_bytes(data) matches Ok((v, rest)) ==> {
            &&& v.status.0 == data[0]
            &&& rest == data.skip(1)
        },
{
    if let Ok((v, rest)) = InquiryComplete::spec_from_hci_bytes(data) {
    }
}

/// The parameters of the Connection Request event are, in order, `bd_addr` (bytes 0..6),
/// `class_of_device` (bytes 6..9), `link_type` (byte 9, a known value). They read
/// successfully exactly when there are at least 10 bytes and every field that names a value
/// holds a known one; the bytes after the first 10 are handed back.
pub proof fn law_connection_request_layout(data: Seq<u8>)
    ensures
        ConnectionRequest::spec_from_hci_bytes(data) is Ok <==> {
            &&& data.len() >= 10
            &&& ConnectionLinkType::spec_from_u8(data[9]) is Some
        },
        ConnectionRequest::spec_from_hci_bytes(data) matches Ok((v, rest)) ==> {
            &&& v.bd_addr.0@ == data.subrange(0, 6)
            &&& v.class_of_device@ == data.subrange(6, 9)
            &&& ConnectionLinkType::spec_from_u8(data[9]) == Some(v.link_type)
            &&& rest == data.skip(10)
        },
{
    if data.len() >= 9 {
        assert(data.skip(6).skip(3) =~= data.skip(9));
    }
    if data.len() >= 10 {
        assert(data.skip(9).skip(1) =~= data.skip(10));
    }
    if let Ok((v, rest)) = ConnectionRequest::spec_from_hci_bytes(data) {
        assert(v.bd_addr.0@ =~= data.subrange(0, 6));
        assert(v.class_of_device@ =~= data.subrange(6, 9));
    }
}

/// The parameters of the Change Connection Link Key Complete event are, in order, `status`
/// (byte 0), `handle` (bytes 1..3, little-endian). They read successfully exactly when
/// there are at least 3 bytes; the bytes after the first 3 are handed back.
pub proof fn law_change_connection_link_key_complete_layout(data: Seq<u8>)
    ensures
        ChangeConnectionLinkKeyComplete::spec_from_hci_bytes(data) is Ok <==> (data.len() >= 3),
        ChangeConnectionLinkKeyComplete::spec_from_hci_bytes(data) matches Ok((v, rest)) ==> {
            &&& v.status.0 == data[0]
            &&& v.handle.0 == data[1] + 256 * data[2]
            &&& rest == data.skip(3)
        },
{
    if data.len() >= 3 {
        assert(data.skip(1).skip(2) =~= data.skip(3));
    }
    if let Ok((v, rest)) = ChangeConnectionLinkKeyComplete::spec_from_hci_bytes(data) {
    }
}

/// The parameters of the Link Key Type Changed event are, in order, `status` (byte 0),
/// `handle` (bytes 1..3, little-endian), `key_flag` (byte 3, a known value). They read
/// successfully exactly when there are at least 4 bytes and every field that names a value
/// holds a known one; the bytes after the first 4 are handed back.
pub proof fn law_link_key_type_changed_layout(data: Seq<u8>)
    ensures
        LinkKeyTypeChanged::spec_from_hci_bytes(data) is Ok <==> {
            &&& data.len() >= 4
            &&& KeyFlag::spec_from_u8(data[3]) is Some
        },
        LinkKeyTypeChanged::spec_from_hci_bytes(data) matches Ok((v, rest)) ==> {
            &&& v.status.0 == data[0]
            &&& v.handle.0 == data[1] + 256 * data[2]
            &&& KeyFlag::spec_from_u8(data[3]) == Some(v.key_flag)
            &&& rest == data.skip(4)
        },
{
    if data.len() >= 3 {
        assert(data.skip(1).skip(2) =~= data.skip(3));
    }
    if data.len() >= 4 {
        assert(data.skip(3).skip(1) =~= data.skip(4));
    }
    if let Ok((v, rest)) = LinkKeyTypeChanged::spec_from_hci_bytes(data) {
    }
}

/// The parameters of the Read Remote Supported Features Complete event are, in order,
/// `status` (byte 0), `handle` (bytes 1..3, little-endian), `lmp_features` (bytes 3..11).
/// They read successfully exactly when there are at least 11 bytes; the bytes after the
/// first 11 are handed back.
pub proof fn law_read_remote_supported_features_complete_layout(data: Seq<u8>)
    ensures
        ReadRemoteSupportedFeaturesComplete::spec_from_hci_bytes(data) is Ok <==> {
            &&& data.len() >= 11
        },
        ReadRemoteSupportedFeaturesComplete::spec_from_hci_bytes(data) matches Ok((v, rest)) ==> {
            &&& v.status.0 == data[0]
            &&& v.handle.0 == data[1] + 256 * data[2]
            &&& v.lmp_features.0@ == data.subrange(3, 11)
            &&& rest == data.skip(11)
        },
{
    if data.len() >= 3 {
        assert(data.skip(1).skip(2) =~= data.skip(3));
    }
    if data.len() >= 11 {
        assert(data.skip(3).skip(8) =~= data.skip(11));
    }
    if let Ok((v, rest)) = ReadRemoteSupportedFeaturesComplete::spec_from_hci_bytes(data) {
        assert(v.lmp_features.0@ =~= data.subrange(3, 11));
    }
}

/// The parameters of the Max Slots Change event are, in order, `handle` (bytes 0..2,
/// little-endian), `lmp_max_slots` (byte 2, a known value). They read successfully exactly
/// when there are at least 3 bytes and every field that names a value holds a known one;
/// the bytes after the first 3 are handed back.
pub proof fn law_max_slots_change_layout(data: Seq<u8>)
    ensures
        MaxSlotsChange::spec_from_hci_bytes(data) is Ok <==> {
            &&& data.len() >= 3
            &&& LmpMaxSlots::spec_from_u8(data[2]) is Some
        },
        MaxSlotsChange::spec_from_hci_bytes(data) matches Ok((v, rest)) ==> {
            &&& v.handle.0 == data[0] + 256 * data[1]
            &&& LmpMaxSlots::spec_from_u8(data[2]) == Some(v.lmp_max_slots)
            &&& rest == data.skip(3)
        },
{
    if data.len() >= 3 {
        assert(data.skip(2).skip(1) =~= data.skip(3));
    }
    if let Ok((v, rest)) = MaxSlotsChange::spec_from_hci_bytes(data) {
    }
}

/// The parameters of the Read Clock Offset Complete event are, in order, `status` (byte 0),
/// `handle` (bytes 1..3, little-endian), `clock_offset` (bytes 3..5). They read
/// successfully exactly when there are at least 5 bytes; the bytes after the first 5 are
/// handed back.
pub proof fn law_read_clock_offset_complete_layout(data: Seq<u8>)
    ensures
        ReadClockOffsetComplete::spec_from_hci_bytes(data) is Ok <==> (data.len() >= 5),
        ReadClockOffsetComplete::spec_from_hci_bytes(data) matches Ok((v, rest)) ==> {
            &&& v.status.0 == data[0]
            &&& v.handle.0 == data[1] + 256 * data[2]
            &&& v.clock_offset.0@ == data.subrange(3, 5)
            &&& rest == data.skip(5)
        },
{
    if data.len() >= 3 {
        assert(data.skip(1).skip(2) =~= data.skip(3));
    }
    if data.len() >= 5 {
        assert(data.skip(3).skip(2) =~= data.skip(5));
    }
    if let Ok((v, rest)) = ReadClockOffsetComplete::spec_from_hci_bytes(data) {
        assert(v.clock_offset.0@ =~= data.subrange(3, 5));
    }
}

/// The parameters of the Connection Packet Type Changed event are, in order, `status` (byte
/// 0), `handle` (bytes 1..3, little-endian), `packet_type` (bytes 3..5). They read
/// successfully exactly when there are at least 5 bytes; the bytes after the first 5 are
/// handed back.
pub proof fn law_connection_packet_type_changed_layout(data: Seq<u8>)
    ensures
        ConnectionPacketTypeChanged::spec_from_hci_bytes(data) is Ok <==> (data.len() >= 5),
        ConnectionPacketTypeChanged::spec_from_hci_bytes(data) matches Ok((v, rest)) ==> {
            &&& v.status.0 == data[0]
            &&& v.handle.0 == data[1] + 256 * data[2]
            &&& v.packet_type.0@ == data.subrange(3, 5)
            &&& rest == data.skip(5)
        },
{
    if data.len() >= 3 {
        assert(data.skip(1).skip(2) =~= data.skip(3));
    }
    if data.len() >= 5 {
        assert(data.skip(3).skip(2) =~= data.skip(5));
    }
    if let Ok((v, rest)) = ConnectionPacketTypeChanged::spec_from_hci_bytes(data) {
        assert(v.packet_type.0@ =~= data.subrange(3, 5));
    }
}

/// The parameters of the QoS Violation event are, in order, `handle` (bytes 0..2, little-
/// endian). They read successfully exactly when there are at least 2 bytes; the bytes after
/// the first 2 are handed back.
pub proof fn law_qos_violation_layout(data: Seq<u8>)
    ensures
        QosViolation::spec_from_hci_bytes(data) is Ok <==> (data.len() >= 2),
        QosViolation::spec_from_hci_bytes(data) matches Ok((v, rest)) ==> {
            &&& v.handle.0 == data[0] + 256 * data[1]
            &&& rest == data.skip(2)
        },
{
    if let Ok((v, rest)) = QosViolation::spec_from_hci_bytes(data) {
    }
}

/// The parameters of the Page Scan Repetition Mode Change event are, in order, `bd_addr`
/// (bytes 0..6), `page_scan_repetition_mode` (byte 6, a known value). They read
/// successfully exactly when there are at least 7 bytes and every field that names a value
/// holds a known one; the bytes after the first 7 are handed back.
pub proof fn law_page_scan_repetition_mode_change_layout(data: Seq<u8>)
    ensures
        PageScanRepetitionModeChange::spec_from_hci_bytes(data) is Ok <==> {
            &&& data.len() >= 7
            &&& PageScanRepetitionMode::spec_from_u8(data[6]) is Some
        },
        PageScanRepetitionModeChange::spec_from_hci_bytes(data) matches Ok((v, rest)) ==> {
            &&& v.bd_addr.0@ == data.subrange(0, 6)
            &&& PageScanRepetitionMode::spec_from_u8(data[6]) == Some(v.page_scan_repetition_mode)
            &&& rest == data.skip(7)
        },
{
    if data.len() >= 7 {
        assert(data.skip(6).skip(1) =~= data.skip(7));
    }
    if let Ok((v, rest)) = PageScanRepetitionModeChange::spec_from_hci_bytes(data) {
        assert(v.bd_addr.0@ =~= data.subrange(0, 6));
    }
}

/// The parameters of the Flow Specification Complete event are, in order, `status` (byte
/// 0), `handle` (bytes 1..3, little-endian), `unused` (byte 3), `flow_direction` (byte 4, a
/// known value), `service_type` (byte 5, a known value), `token_rate` (bytes 6..10, little-
/// endian), `token_bucket_size` (bytes 10..14, little-endian), `peak_bandwidth` (bytes
/// 14..18, little-endian), `access_latency` (bytes 18..22, little-endian). They read
/// successfully exactly when there are at least 22 bytes and every field that names a value
/// holds a known one; the bytes after the first 22 are handed back.
pub proof fn law_flow_specification_complete_layout(data: Seq<u8>)
    ensures
        FlowSpecificationComplete::spec_from_hci_bytes(data) is Ok <==> {
            &&& data.len() >= 22
            &&& FlowDirection::spec_from_u8(data[4]) is Some
            &&& ServiceType::spec_from_u8(data[5]) is Some
        },
        FlowSpecificationComplete::spec_from_hci_bytes(data) matches Ok((v, rest)) ==> {
            &&& v.status.0 == data[0]
            &&& v.handle.0 == data[1] + 256 * data[2]
            &&& v.unused == data[3]
            &&& FlowDirection::spec_from_u8(data[4]) == Some(v.flow_direction)
            &&& ServiceType::spec_from_u8(data[5]) == Some(v.service_type)
            &&& v.token_rate == data[6] + 256 * data[7] + 65536 * data[8] + 16777216 * data[9]
            &&& v.token_bucket_size == data[10] + 256 * data[11] + 65536 * data[12]
                + 16777216 * data[13]
            &&& v.peak_bandwidth == data[14] + 256 * data[15] + 65536 * data[16]
                + 16777216 * data[17]
            &&& v.access_latency == data[18] + 256 * data[19] + 65536 * data[20]
                + 16777216 * data[21]
            &&& rest == data.skip(22)
        },
{
    if data.len() >= 3 {
        assert(data.skip(1).skip(2) =~= data.skip(3));
    }
    if data.len() >= 4 {
        assert(data.skip(3).skip(1) =~= data.skip(4));
    }
    if data.len() >= 5 {
        assert(data.skip(4).skip(1) =~= data.skip(5));
    }
    if data.len() >= 6 {
        assert(data.skip(5).skip(1) =~= data.skip(6));
    }
    if data.len() >= 10 {
        assert(data.skip(6).skip(4) =~= data.skip(10));
    }
    if data.len() >= 14 {
        assert(data.skip(10).skip(4) =~= data.skip(14));
    }
    if data.len() >= 18 {
        assert(data.skip(14).skip(4) =~= data.skip(18));
    }
    if data.len() >= 22 {
        assert(data.skip(18).skip(4) =~= data.skip(22));
    }
    if let Ok((v, rest)) = FlowSpecificationComplete::spec_from_hci_bytes(data) {
    }
}

/// The parameters of the Read Remote Extended Features Complete event are, in order,
/// `status` (byte 0), `handle` (bytes 1..3, little-endian), `page_number` (byte 3),
/// `max_page_number` (byte 4), `lmp_features` (bytes 5..13). They read successfully exactly
/// when there are at least 13 bytes; the bytes after the first 13 are handed back.
pub proof fn law_read_remote_extended_features_complete_layout(data: Seq<u8>)
    ensures
        ReadRemoteExtendedFeaturesComplete::spec_from_hci_bytes(data) is Ok <==> (data.len() >= 13),
        ReadRemoteExtendedFeaturesComplete::spec_from_hci_bytes(data) matches Ok((v, rest)) ==> {
            &&& v.status.0 == data[0]
            &&& v.handle.0 == data[1] + 256 * data[2]
            &&& v.page_number == data[3]
            &&& v.max_page_number == data[4]
            &&& v.lmp_features.0@ == data.subrange(5, 13)
            &&& rest == data.skip(13)
        },
{
    if data.len() >= 3 {
        assert(data.skip(1).skip(2) =~= data.skip(3));
    }
    if data.len() >= 4 {
        assert(data.skip(3).skip(1) =~= data.skip(4));
    }
    if data.len() >= 5 {
        assert(data.skip(4).skip(1) =~= data.skip(5));
    }
    if data.len() >= 13 {
        assert(data.skip(5).skip(8) =~= data.skip(13));
    }
    if let Ok((v, rest)) = ReadRemoteExtendedFeaturesComplete::spec_from_hci_bytes(data) {
        assert(v.lmp_features.0@ =~= data.subrange(5, 13));
    }
}

/// The parameters of the Synchronous Connection Complete event are, in order, `status`
/// (byte 0), `handle` (bytes 1..3, little-endian), `bd_addr` (bytes 3..9), `link_type`
/// (byte 9, a known value), `transmission_interval` (byte 10), `retransmission_window`
/// (byte 11), `rx_packet_length` (bytes 12..14, little-endian), `tx_packet_length` (bytes
/// 14..16, little-endian), `air_mode` (byte 16). They read successfully exactly when there
/// are at least 17 bytes and every field that names a value holds a known one; the bytes
/// after the first 17 are handed back.
pub proof fn law_synchronous_connection_complete_layout(data: Seq<u8>)
    ensures
        SynchronousConnectionComplete::spec_from_hci_bytes(data) is Ok <==> {
            &&& data.len() >= 17
            &&& ConnectionLinkType::spec_from_u8(data[9]) is Some
        },
        SynchronousConnectionComplete::spec_from_hci_bytes(data) matches Ok((v, rest)) ==> {
            &&& v.status.0 == data[0]
            &&& v.handle.0 == data[1] + 256 * data[2]
            &&& v.bd_addr.0@ == data.subrange(3, 9)
            &&& ConnectionLinkType::spec_from_u8(data[9]) == Some(v.link_type)
            &&& v.transmission_interval == data[10]
            &&& v.retransmission_window == data[11]
            &&& v.rx_packet_length == data[12] + 256 * data[13]
            &&& v.tx_packet_length == data[14] + 256 * data[15]
            &&& v.air_mode == data[16]
            &&& rest == data.skip(17)
        },
{
    if data.len() >= 3 {
        assert(data.skip(1).skip(2) =~= data.skip(3));
    }
    if data.len() >= 9 {
        assert(data.skip(3).skip(6) =~= data.skip(9));
    }
    if data.len() >= 10 {
        assert(data.skip(9).skip(1) =~= data.skip(10));
    }
    if data.len() >= 11 {
        assert(data.skip(10).skip(1) =~= data.skip(11));
    }
    if data.len() >= 12 {
        assert(data.skip(11).skip(1) =~= data.skip(12));
    }
    if data.len() >= 14 {
        assert(data.skip(12).skip(2) =~= data.skip(14));
    }
    if data.len() >= 16 {
        assert(data.skip(14).skip(2) =~= data.skip(16));
    }
    if data.len() >= 17 {
        assert(data.skip(16).skip(1) =~= data.skip(17));
    }
    if let Ok((v, rest)) = SynchronousConnectionComplete::spec_from_hci_bytes(data) {
        assert(v.bd_addr.0@ =~= data.subrange(3, 9));
    }
}

/// The parameters of the Synchronous Connection Changed event are, in order, `status` (byte
/// 0), `handle` (bytes 1..3, little-endian), `transmission_interval` (byte 3),
/// `retransmission_window` (byte 4), `rx_packet_length` (bytes 5..7, little-endian),
/// `tx_packet_length` (bytes 7..9, little-endian). They read successfully exactly when
/// there are at least 9 bytes; the bytes after the first 9 are handed back.
pub proof fn law_synchronous_connection_changed_layout(data: Seq<u8>)
    ensures
        SynchronousConnectionChanged::spec_from_hci_bytes(data) is Ok <==> (data.len() >= 9),
        SynchronousConnectionChanged::spec_from_hci_bytes(data) matches Ok((v, rest)) ==> {
            &&& v.status.0 == data[0]
            &&& v.handle.0 == data[1] + 256 * data[2]
            &&& v.transmission_interval == data[3]
            &&& v.retransmission_window == data[4]
            &&& v.rx_packet_length == data[5] + 256 * data[6]
            &&& v.tx_packet_length == data[7] + 256 * data[8]
            &&& rest == data.skip(9)
        },
{
    if data.len() >= 3 {
        assert(data.skip(1).skip(2) =~= data.skip(3));
    }
    if data.len() >= 4 {
        assert(data.skip(3).skip(1) =~= data.skip(4));
    }
    if data.len() >= 5 {
        assert(data.skip(4).skip(1) =~= data.skip(5));
    }
    if data.len() >= 7 {
        assert(data.skip(5).skip(2) =~= data.skip(7));
    }
    if data.len() >= 9 {
        assert(data.skip(7).skip(2) =~= data.skip(9));
    }
    if let Ok((v, rest)) = SynchronousConnectionChanged::spec_from_hci_bytes(data) {
    }
}

/// The parameters of the Sniff Subrating event are, in order, `handle` (bytes 0..2, little-
/// endian), `max_tx_latency` (bytes 2..4, little-endian), `max_rx_latency` (bytes 4..6,
/// little-endian), `min_remote_timeout` (bytes 6..8, little-endian), `min_local_timeout`
/// (bytes 8..10, little-endian). They read successfully exactly when there are at least 10
/// bytes; the bytes after the first 10 are handed back.
pub proof fn law_sniff_subrating_layout(data: Seq<u8>)
    ensures
        SniffSubrating::spec_from_hci_bytes(data) is Ok <==> (data.len() >= 10),
        SniffSubrating::spec_from_hci_bytes(data) matches Ok((v, rest)) ==> {
            &&& v.handle.0 == data[0] + 256 * data[1]
            &&& v.max_tx_latency == data[2] + 256 * data[3]
            &&& v.max_rx_latency == data[4] + 256 * data[5]
            &&& v.min_remote_timeout == data[6] + 256 * data[7]
            &&& v.min_local_timeout == data[8] + 256 * data[9]
            &&& rest == data.skip(10)
        },
{
    if data.len() >= 4 {
        assert(data.skip(2).skip(2) =~= data.skip(4));
    }
    if data.len() >= 6 {
        assert(data.skip(4).skip(2) =~= data.skip(6));
    }
    if data.len() >= 8 {
        assert(data.skip(6).skip(2) =~= data.skip(8));
    }
    if data.len() >= 10 {
        assert(data.skip(8).skip(2) =~= data.skip(10));
    }
    if let Ok((v, rest)) = SniffSubrating::spec_from_hci_bytes(data) {
    }
}

/// The parameters of the IO Capability Request event are, in order, `bd_addr` (bytes 0..6).
/// They read successfully exactly when there are at least 6 bytes; the bytes after the
/// first 6 are handed back.
pub proof fn law_io_capability_request_layout(data: Seq<u8>)
    ensures
        IoCapabilityRequest::spec_from_hci_bytes(data) is Ok <==> (data.len() >= 6),
        IoCapabilityRequest::spec_from_hci_bytes(data) matches Ok((v, rest)) ==> {
            &&& v.bd_addr.0@ == data.subrange(0, 6)
            &&& rest == data.skip(6)
        },
{
    if let Ok((v, rest)) = IoCapabilityRequest::spec_from_hci_bytes(data) {
        assert(v.bd_addr.0@ =~= data.subrange(0, 6));
    }
}

/// The parameters of the IO Capability Response event are, in order, `bd_addr` (bytes
/// 0..6), `io_capability` (byte 6, a known value), `oob_data_present` (byte 7, a known
/// value), `authentication_requirements` (byte 8, a known value). They read successfully
/// exactly when there are at least 9 bytes and every field that names a value holds a known
/// one; the bytes after the first 9 are handed back.
pub proof fn law_io_capability_response_layout(data: Seq<u8>)
    ensures
        IoCapabilityResponse::spec_from_hci_bytes(data) is Ok <==> {
            &&& data.len() >= 9
            &&& IoCapability::spec_from_u8(data[6]) is Some
            &&& OobDataPresent::spec_from_u8(data[7]) is Some
            &&& AuthenticationRequirements::spec_from_u8(data[8]) is Some
        },
        IoCapabilityResponse::spec_from_hci_bytes(data) matches Ok((v, rest)) ==> {
            &&& v.bd_addr.0@ == data.subrange(0, 6)
            &&& IoCapability::spec_from_u8(data[6]) == Some(v.io_capability)
            &&& OobDataPresent::spec_from_u8(data[7]) == Some(v.oob_data_present)
            &&& AuthenticationRequirements::spec_from_u8(data[8]) == Some(
                v.authentication_requirements
            )
            &&& rest == data.skip(9)
        },
{
    if data.len() >= 7 {
        assert(data.skip(6).skip(1) =~= data.skip(7));
    }
    if data.len() >= 8 {
        assert(data.skip(7).skip(1) =~= data.skip(8));
    }
    if data.len() >= 9 {
        assert(data.skip(8).skip(1) =~= data.skip(9));
    }
    if let Ok((v, rest)) = IoCapabilityResponse::spec_from_hci_bytes(data) {
        assert(v.bd_addr.0@ =~= data.subrange(0, 6));
    }
}

/// The parameters of the User Confirmation Request event are, in order, `bd_addr` (bytes
/// 0..6), `numeric_value` (bytes 6..10, little-endian). They read successfully exactly when
/// there are at least 10 bytes; the bytes after the first 10 are handed back.
pub proof fn law_user_confirmation_request_layout(data: Seq<u8>)
    ensures
        UserConfirmationRequest::spec_from_hci_bytes(data) is Ok <==> (data.len() >= 10),
        UserConfirmationRequest::spec_from_hci_bytes(data) matches Ok((v, rest)) ==> {
            &&& v.bd_addr.0@ == data.subrange(0, 6)
            &&& v.numeric_value == data[6] + 256 * data[7] + 65536 * data[8] + 16777216 * data[9]
            &&& rest == data.skip(10)
        },
{
    if data.len() >= 10 {
        assert(data.skip(6).skip(4) =~= data.skip(10));
    }
    if let Ok((v, rest)) = UserConfirmationRequest::spec_from_hci_bytes(data) {
        assert(v.bd_addr.0@ =~= data.subrange(0, 6));
    }
}

/// The parameters of the User Passkey Request event are, in order, `bd_addr` (bytes 0..6).
/// They read successfully exactly when there are at least 6 bytes; the bytes after the
/// first 6 are handed back.
pub proof fn law_user_passkey_request_layout(data: Seq<u8>)
    ensures
        UserPasskeyRequest::spec_from_hci_bytes(data) is Ok <==> (data.len() >= 6),
        UserPasskeyRequest::spec_from_hci_bytes(data) matches Ok((v, rest)) ==> {
            &&& v.bd_addr.0@ == data.subrange(0, 6)
            &&& rest == data.skip(6)
        },
{
    if let Ok((v, rest)) = UserPasskeyRequest::spec_from_hci_bytes(data) {
        assert(v.bd_addr.0@ =~= data.subrange(0, 6));
    }
}

/// The parameters of the Remote OOB Data Request event are, in order, `bd_addr` (bytes
/// 0..6). They read successfully exactly when there are at least 6 bytes; the bytes after
/// the first 6 are handed back.
pub proof fn law_remote_oob_data_request_layout(data: Seq<u8>)
    ensures
        RemoteOobDataRequest::spec_from_hci_bytes(data) is Ok <==> (data.len() >= 6),
        RemoteOobDataRequest::spec_from_hci_bytes(data) matches Ok((v, rest)) ==> {
            &&& v.bd_addr.0@ == data.subrange(0, 6)
            &&& rest == data.skip(6)
        },
{
    if let Ok((v, rest)) = RemoteOobDataRequest::spec_from_hci_bytes(data) {
        assert(v.bd_addr.0@ =~= data.subrange(0, 6));
    }
}

/// The parameters of the Simple Pairing Complete event are, in order, `status` (byte 0),
/// `bd_addr` (bytes 1..7). They read successfully exactly when there are at least 7 bytes;
/// the bytes after the first 7 are handed back.
pub proof fn law_simple_pairing_complete_layout(data: Seq<u8>)
    ensures
        SimplePairingComplete::spec_from_hci_bytes(data) is Ok <==> (data.len() >= 7),
        SimplePairingComplete::spec_from_hci_bytes(data) matches Ok((v, rest)) ==> {
            &&& v.status.0 == data[0]
            &&& v.bd_addr.0@ == data.subrange(1, 7)
            &&& rest == data.skip(7)
        },
{
    if data.len() >= 7 {
        assert(data.skip(1).skip(6) =~= data.skip(7));
    }
    if let Ok((v, rest)) = SimplePairingComplete::spec_from_hci_bytes(data) {
        assert(v.bd_addr.0@ =~= data.subrange(1, 7));
    }
}

/// The parameters of the User Passkey Notification event are, in order, `bd_addr` (bytes
/// 0..6), `passkey` (bytes 6..10, little-endian). They read successfully exactly when there
/// are at least 10 bytes; the bytes after the first 10 are handed back.
pub proof fn law_user_passkey_notification_layout(data: Seq<u8>)
    ensures
        UserPasskeyNotification::spec_from_hci_bytes(data) is Ok <==> (data.len() >= 10),
        UserPasskeyNotification::spec_from_hci_bytes(data) matches Ok((v, rest)) ==> {
            &&& v.bd_addr.0@ == data.subrange(0, 6)
            &&& v.passkey == data[6] + 256 * data[7] + 65536 * data[8] + 16777216 * data[9]
            &&& rest == data.skip(10)
        },
{
    if data.len() >= 10 {
        assert(data.skip(6).skip(4) =~= data.skip(10));
    }
    if let Ok((v, rest)) = UserPasskeyNotification::spec_from_hci_bytes(data) {
        assert(v.bd_addr.0@ =~= data.subrange(0, 6));
    }
}

/// The parameters of the Keypress Notification event are, in order, `bd_addr` (bytes 0..6),
/// `notification_type` (byte 6, a known value). They read successfully exactly when there
/// are at least 7 bytes and every field that names a value holds a known one; the bytes
/// after the first 7 are handed back.
pub proof fn law_keypress_notification_layout(data: Seq<u8>)
    ensures
        KeypressNotification::spec_from_hci_bytes(data) is Ok <==> {
            &&& data.len() >= 7
            &&& NotificationType::spec_from_u8(data[6]) is Some
        },
        KeypressNotification::spec_from_hci_bytes(data) matches Ok((v, rest)) ==> {
            &&& v.bd_addr.0@ == data.subrange(0, 6)
            &&& NotificationType::spec_from_u8(data[6]) == Some(v.notification_type)
            &&& rest == data.skip(7)
        },
{
    if data.len() >= 7 {
        assert(data.skip(6).skip(1) =~= data.skip(7));
    }
    if let Ok((v, rest)) = KeypressNotification::spec_from_hci_bytes(data) {
        assert(v.bd_addr.0@ =~= data.subrange(0, 6));
    }
}

/// The parameters of the Link Supervision Timeout Changed event are, in order, `handle`
/// (bytes 0..2, little-endian), `link_supervision_timeout` (bytes 2..4, little-endian).
/// They read successfully exactly when there are at least 4 bytes; the bytes after the
/// first 4 are handed back.
pub proof fn law_link_supervision_timeout_changed_layout(data: Seq<u8>)
    ensures
        LinkSupervisionTimeoutChanged::spec_from_hci_bytes(data) is Ok <==> (data.len() >= 4),
        LinkSupervisionTimeoutChanged::spec_from_hci_bytes(data) matches Ok((v, rest)) ==> {
            &&& v.handle.0 == data[0] + 256 * data[1]
            &&& v.link_supervision_timeout == data[2] + 256 * data[3]
            &&& rest == data.skip(4)
        },
{
    if data.len() >= 4 {
        assert(data.skip(2).skip(2) =~= data.skip(4));
    }
    if let Ok((v, rest)) = LinkSupervisionTimeoutChanged::spec_from_hci_bytes(data) {
    }
}

/// The parameters of the Enhanced Flush Complete event are, in order, `handle` (bytes 0..2,
/// little-endian). They read successfully exactly when there are at least 2 bytes; the
/// bytes after the first 2 are handed back.
pub proof fn law_enhanced_flush_complete_layout(data: Seq<u8>)
    ensures
        EnhancedFlushComplete::spec_from_hci_bytes(data) is Ok <==> (data.len() >= 2),
        EnhancedFlushComplete::spec_from_hci_bytes(data) matches Ok((v, rest)) ==> {
            &&& v.handle.0 == data[0] + 256 * data[1]
            &&& rest == data.skip(2)
        },
{
    if let Ok((v, rest)) = EnhancedFlushComplete::spec_from_hci_bytes(data) {
    }
}

/// The parameters of the Truncated Page Complete event are, in order, `status` (byte 0),
/// `bd_addr` (bytes 1..7). They read successfully exactly when there are at least 7 bytes;
/// the bytes after the first 7 are handed back.
pub proof fn law_truncated_page_complete_layout(data: Seq<u8>)
    ensures
        TruncatedPageComplete::spec_from_hci_bytes(data) is Ok <==> (data.len() >= 7),
        TruncatedPageComplete::spec_from_hci_bytes(data) matches Ok((v, rest)) ==> {
            &&& v.status.0 == data[0]
            &&& v.bd_addr.0@ == data.subrange(1, 7)
            &&& rest == data.skip(7)
        },
{
    if data.len() >= 7 {
        assert(data.skip(1).skip(6) =~= data.skip(7));
    }
    if let Ok((v, rest)) = TruncatedPageComplete::spec_from_hci_bytes(data) {
        assert(v.bd_addr.0@ =~= data.subrange(1, 7));
    }
}

/// The parameters of the Number Of Completed Packets event are a count byte `n` and then
/// `n` four-byte entries; entry `i` is the connection handle in bytes `1+4i..3+4i` and the
/// number of completed packets in bytes `3+4i..5+4i`, both little-endian, just as a
/// connection's count of completed packets reads from those four bytes. They read
/// successfully exactly when all `n` entries are there; the bytes after them are handed
/// back.
pub proof fn law_number_of_completed_packets_layout(data: Seq<u8>)
    ensures
        NumberOfCompletedPackets::spec_from_hci_bytes(data) is Ok <==> (data.len() >= 1
            && data.len() >= 1 + 4 * data[0]),
        NumberOfCompletedPackets::spec_from_hci_bytes(data) matches Ok((v, rest)) ==> {
            &&& v.completed_packets.len() == data[0]
            &&& forall|i: int|
                0 <= i < data[0] ==> {
                    &&& (#[trigger] v.completed_packets[i]).handle.0 == data[1 + 4 * i] + 256
                        * data[2 + 4 * i]
                    &&& v.completed_packets[i].num_completed_packets == data[3 + 4 * i] + 256
                        * data[4 + 4 * i]
                    &&& ConnHandleCompletedPackets::spec_from_hci_bytes(data.skip(1 + 4 * i))
                        matches Ok((e, _)) && e == v.completed_packets[i]
                }
            &&& rest == data.skip(1 + 4 * data[0])
        },
{
    if let Ok((v, rest)) = NumberOfCompletedPackets::spec_from_hci_bytes(data) {
        assert forall|i: int| 0 <= i < data[0] implies {
            &&& (#[trigger] v.completed_packets[i]).handle.0 == data[1 + 4 * i] + 256 * data[2
                + 4 * i]
            &&& v.completed_packets[i].num_completed_packets == data[3 + 4 * i] + 256 * data[4
                + 4 * i]
            &&& ConnHandleCompletedPackets::spec_from_hci_bytes(data.skip(1 + 4 * i)) matches Ok(
                (e, _),
            ) && e == v.completed_packets[i]
        } by {
            let s = data.skip(1);
            assert(s.skip(4 * i)[0] == data[1 + 4 * i]);
            assert(s.skip(4 * i)[1] == data[2 + 4 * i]);
            assert(s.skip(4 * i + 2)[0] == data[3 + 4 * i]);
            assert(s.skip(4 * i + 2)[1] == data[4 + 4 * i]);
            assert(data.skip(1 + 4 * i).skip(2) =~= s.skip(4 * i + 2));
        }
    }
}

/// The parameters of an LE Meta event are the subevent code (byte 0) and then all the
/// bytes from 1 on, left unread. They read successfully exactly when there is at least one
/// byte; nothing is left over.
pub proof fn law_le_event_layout(data: Seq<u8>)
    ensures
        LeEvent::spec_from_hci_bytes(data) is Ok <==> data.len() >= 1,
        LeEvent::spec_from_hci_bytes(data) matches Ok((v, rest)) ==> {
            &&& v.subevent_code == data[0]
            &&& v.params == data.skip(1)
            &&& rest.len() == 0
        },
{
}

/// An event packet header is the event code (byte 0) and the parameter length (byte 1).
/// It reads successfully exactly when there are at least two bytes; the bytes after them
/// are handed back.
pub proof fn law_event_packet_header_layout(data: Seq<u8>)
    ensures
        EventPacketHeader::spec_from_hci_bytes(data) is Ok <==> data.len() >= 2,
        EventPacketHeader::spec_from_hci_bytes(data) matches Ok((h, rest)) ==> {
            &&& h.code == data[0]
            &&& h.params_len == data[1]
            &&& rest == data.skip(2)
        },
{
    if data.len() >= 2 {
        assert(data.skip(1).skip(1) =~= data.skip(2));
    }
}

} // verus!
