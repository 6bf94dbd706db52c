//! HCI events: the packets a controller sends to its host.
//!
//! An event packet is a two-byte header (event code, parameter length) followed by that
//! many parameter bytes. Each event's parameters are read field after field from the
//! front of the parameter bytes.
use vstd::prelude::*;

use crate::cmd::SyncCmd;
use crate::param::{
    AuthenticationRequirements, BdAddr, ClockOffset, ConnHandle, ConnHandleCompletedPackets,
    ConnectionLinkType, CoreSpecificationVersion, Error, FlowDirection, IoCapability, KeyFlag,
    LinkKeyType, LinkType, LmpFeatureMask, LmpMaxSlots, NotificationType, OobDataPresent, Opcode,
    PacketType, PageScanRepetitionMode, RemainingBytes, ServiceType, Status,
};
use crate::primitives::{array16, array3, lemma_array16_of_view, lemma_array3_of_view, take_bytes};
use crate::{completed_as, parsed_as, spec_complete, FromHciBytes, FromHciBytesError};

/// Classic Bluetooth events
pub mod classic;

pub mod layout;

pub use classic::{InquiryResultItem, InquiryResultIter, InquiryResultKind};

verus! {

/// A type holding the parameters of one HCI event.
pub trait EventParams<'a>: FromHciBytes<'a> {
    /// The event code these parameters are for.
    const EVENT_CODE: u8;
}

/// The header of an HCI event packet.
#[derive(Debug, Clone, Copy, PartialEq, Eq, Hash, Structural)]
pub struct EventPacketHeader {
    /// The event code.
    pub code: u8,
    /// The number of parameter bytes that follow the header.
    pub params_len: u8,
}

impl View for EventPacketHeader {
    type V = EventPacketHeader;

    open spec fn view(&self) -> EventPacketHeader {
        *self
    }
}

impl<'de> FromHciBytes<'de> for EventPacketHeader {
    open spec fn spec_from_hci_bytes(data: Seq<u8>) -> Result<(EventPacketHeader, Seq<u8>), FromHciBytesError> {
        match u8::spec_from_hci_bytes(data) {
            Err(e) => Err(e),
            Ok((code, data)) => match u8::spec_from_hci_bytes(data) {
                Err(e) => Err(e),
                Ok((params_len, data)) => Ok((EventPacketHeader { code, params_len }, data)),
            },
        }
    }

    fn from_hci_bytes(data: &'de [u8]) -> (r: Result<(Self, &'de [u8]), FromHciBytesError>) {
        let (code, data) = match u8::from_hci_bytes(data) {
            Ok(v) => v,
            Err(e) => return Err(e),
        };
        let (params_len, data) = match u8::from_hci_bytes(data) {
            Ok(v) => v,
            Err(e) => return Err(e),
        };
        Ok((EventPacketHeader { code, params_len }, data))
    }
}

impl EventPacketHeader {
    /// The number of parameter bytes to read after this header, when a buffer of
    /// `buf_len` bytes can hold them; `None` when the buffer is too small.
    pub fn params_room(&self, buf_len: usize) -> (r: Option<usize>)
        ensures
            buf_len >= self.params_len ==> r == Some(self.params_len as usize),
            buf_len < self.params_len ==> r is None,
    {
        let params_len = self.params_len as usize;
        if buf_len < params_len {
            None
        } else {
            Some(params_len)
        }
    }
}

/// The parameters of the Number Of Completed Packets event (code 0x13).
#[derive(Debug, Clone, Hash)]
pub struct NumberOfCompletedPackets {
    /// The count of completed packets for each connection.
    pub completed_packets: Vec<ConnHandleCompletedPackets>,
}

/// The model of [`NumberOfCompletedPackets`].
pub struct NumberOfCompletedPacketsView {
    /// The model of `completed_packets`.
    pub completed_packets: Seq<ConnHandleCompletedPackets>,
}

impl View for NumberOfCompletedPackets {
    type V = NumberOfCompletedPacketsView;

    open spec fn view(&self) -> NumberOfCompletedPacketsView {
        NumberOfCompletedPacketsView { completed_packets: self.completed_packets@ }
    }
}

/// The `i`th four-byte entry of `s` as a connection's count of completed packets.
pub open spec fn completed_packets_at(s: Seq<u8>, i: int) -> ConnHandleCompletedPackets {
    ConnHandleCompletedPackets {
        handle: ConnHandle(crate::primitives::le_u16(s.skip(4 * i))),
        num_completed_packets: crate::primitives::le_u16(s.skip(4 * i + 2)),
    }
}

impl<'de> FromHciBytes<'de> for NumberOfCompletedPackets {
    /// A count byte `n`, then `n` four-byte entries (handle, then number of packets).
    open spec fn spec_from_hci_bytes(data: Seq<u8>) -> Result<
        (NumberOfCompletedPacketsView, Seq<u8>),
        FromHciBytesError,
    > {
        if data.len() < 1 {
            Err(FromHciBytesError::InvalidSize)
        } else if data.len() - 1 < 4 * data[0] {
            Err(FromHciBytesError::InvalidSize)
        } else {
            Ok(
                (
                    NumberOfCompletedPacketsView {
                        completed_packets: Seq::new(
                            data[0] as nat,
                            |i: int| completed_packets_at(data.skip(1), i),
                        ),
                    },
                    data.skip(1 + 4 * data[0]),
                ),
            )
        }
    }

    fn from_hci_bytes(data: &'de [u8]) -> (r: Result<(Self, &'de [u8]), FromHciBytesError>) {
        let (n, entries) = match u8::from_hci_bytes(data) {
            Ok(v) => v,
            Err(e) => return Err(e),
        };
        let count = n as usize;
        let (items, rest) = match take_bytes(entries, 4 * count) {
            Ok(v) => v,
            Err(e) => return Err(e),
        };
        let mut completed_packets: Vec<ConnHandleCompletedPackets> = Vec::new();
        let mut i: usize = 0;
        while i < count
            invariant
                count == n,
                items@ == entries@.take(4 * count),
                entries@.len() >= 4 * count,
                entries@ == data@.skip(1),
                rest@ == entries@.skip(4 * count),
                i <= count,
                completed_packets@ == Seq::new(
                    i as nat,
                    |k: int| completed_packets_at(entries@, k),
                ),
            decreases count - i,
        {
            let at = 4 * i;
            assert(at + 3 < items@.len());
            let handle = items[at] as u16 + 256 * items[at + 1] as u16;
            let num_completed_packets = items[at + 2] as u16 + 256 * items[at + 3] as u16;
            completed_packets.push(
                ConnHandleCompletedPackets { handle: ConnHandle(handle), num_completed_packets },
            );
            i = i + 1;
            assert(completed_packets@ =~= Seq::new(
                i as nat,
                |k: int| completed_packets_at(entries@, k),
            ));
        }
        assert(rest@ =~= data@.skip(1 + 4 * data@[0]));
        Ok((NumberOfCompletedPackets { completed_packets }, rest))
    }
}

impl<'a> EventParams<'a> for NumberOfCompletedPackets {
    const EVENT_CODE: u8 = 0x13;
}

/// The parameters of an LE Meta event (code 0x3e): the subevent code and the subevent's
/// parameters, left unread.
#[derive(Debug, Clone, Copy, Hash)]
pub struct LeEvent<'a> {
    /// The code of the LE subevent.
    pub subevent_code: u8,
    /// The parameters of the subevent.
    pub params: RemainingBytes<'a>,
}

/// The model of [`LeEvent`].
pub struct LeEventView {
    /// The model of `subevent_code`.
    pub subevent_code: u8,
    /// The model of `params`.
    pub params: Seq<u8>,
}

impl<'a> View for LeEvent<'a> {
    type V = LeEventView;

    open spec fn view(&self) -> LeEventView {
        LeEventView { subevent_code: self.subevent_code, params: self.params@ }
    }
}

impl<'de> FromHciBytes<'de> for LeEvent<'de> {
    open spec fn spec_from_hci_bytes(data: Seq<u8>) -> Result<(LeEventView, Seq<u8>), FromHciBytesError> {
        match u8::spec_from_hci_bytes(data) {
            Err(e) => Err(e),
            Ok((subevent_code, data)) => match RemainingBytes::spec_from_hci_bytes(data) {
                Err(e) => Err(e),
                Ok((params, data)) => Ok((LeEventView { subevent_code, params }, data)),
            },
        }
    }

    fn from_hci_bytes(data: &'de [u8]) -> (r: Result<(Self, &'de [u8]), FromHciBytesError>) {
        let (subevent_code, data) = match u8::from_hci_bytes(data) {
            Ok(v) => v,
            Err(e) => return Err(e),
        };
        let (params, data) = match RemainingBytes::from_hci_bytes(data) {
            Ok(v) => v,
            Err(e) => return Err(e),
        };
        Ok((LeEvent { subevent_code, params }, data))
    }
}

impl<'a> EventParams<'a> for LeEvent<'a> {
    const EVENT_CODE: u8 = 0x3e;
}

/// The parameters of the Disconnection Complete event (code 0x05).
#[derive(Debug, Clone, Copy, Hash)]
pub struct DisconnectionComplete {
    /// The status of the operation that the event reports.
    pub status: Status,
    /// The connection the event concerns.
    pub handle: ConnHandle,
    /// Why the connection ended.
    pub reason: Status,
}

impl View for DisconnectionComplete {
    type V = DisconnectionComplete;

    open spec fn view(&self) -> DisconnectionComplete {
        *self
    }
}

impl<'de> FromHciBytes<'de> for DisconnectionComplete {
    open spec fn spec_from_hci_bytes(data: Seq<u8>) -> Result<
        (DisconnectionComplete, Seq<u8>),
        FromHciBytesError,
    > {
        match Status::spec_from_hci_bytes(data) {
            Err(e) => Err(e),
            Ok((status, data)) => match ConnHandle::spec_from_hci_bytes(data) {
                Err(e) => Err(e),
                Ok((handle, data)) => match Status::spec_from_hci_bytes(data) {
                    Err(e) => Err(e),
                    Ok((reason, data)) =>
                        Ok((DisconnectionComplete { status, handle, reason }, data)),
                },
            },
        }
    }

    fn from_hci_bytes(data: &'de [u8]) -> (r: Result<(Self, &'de [u8]), FromHciBytesError>) {
        let (status, data) = match Status::from_hci_bytes(data) {
            Ok(v) => v,
            Err(e) => return Err(e),
        };
        let (handle, data) = match ConnHandle::from_hci_bytes(data) {
            Ok(v) => v,
            Err(e) => return Err(e),
        };
        let (reason, data) = match Status::from_hci_bytes(data) {
            Ok(v) => v,
            Err(e) => return Err(e),
        };
        Ok((DisconnectionComplete { status, handle, reason }, data))
    }
}

impl<'a> EventParams<'a> for DisconnectionComplete {
    const EVENT_CODE: u8 = 0x05;
}

/// The parameters of the Inquiry Result event (code 0x02).
#[derive(Debug, Clone, Copy, Hash)]
pub struct InquiryResult<'a> {
    /// The number of responses the event carries.
    pub num_responses: u8,
    /// All remaining bytes of the event, holding every field of every response.
    pub bytes: RemainingBytes<'a>,
}

/// The model of [`InquiryResult`]: its fields, with byte runs as sequences.
pub struct InquiryResultView {
    /// The model of `num_responses`.
    pub num_responses: u8,
    /// The model of `bytes`.
    pub bytes: Seq<u8>,
}

impl<'a> View for InquiryResult<'a> {
    type V = InquiryResultView;

    open spec fn view(&self) -> InquiryResultView {
        InquiryResultView {
            num_responses: self.num_responses,
            bytes: self.bytes@,
        }
    }
}

impl<'de> FromHciBytes<'de> for InquiryResult<'de> {
    open spec fn spec_from_hci_bytes(data: Seq<u8>) -> Result<
        (InquiryResultView, Seq<u8>),
        FromHciBytesError,
    > {
        match u8::spec_from_hci_bytes(data) {
            Err(e) => Err(e),
            Ok((num_responses, data)) => match RemainingBytes::spec_from_hci_bytes(data) {
                Err(e) => Err(e),
                Ok((bytes, data)) => Ok((InquiryResultView { num_responses, bytes }, data)),
            },
        }
    }

    fn from_hci_bytes(data: &'de [u8]) -> (r: Result<(Self, &'de [u8]), FromHciBytesError>) {
        let (num_responses, data) = match u8::from_hci_bytes(data) {
            Ok(v) => v,
            Err(e) => return Err(e),
        };
        let (bytes, data) = match RemainingBytes::from_hci_bytes(data) {
            Ok(v) => v,
            Err(e) => return Err(e),
        };
        Ok((InquiryResult { num_responses, bytes }, data))
    }
}

impl<'a> EventParams<'a> for InquiryResult<'a> {
    const EVENT_CODE: u8 = 0x02;
}

/// The parameters of the Extended Inquiry Result event (code 0x2f).
#[derive(Debug, Clone, Copy, Hash)]
pub struct ExtendedInquiryResult<'a> {
    /// The number of responses the event carries.
    pub num_responses: u8,
    /// The address of the remote device.
    pub bd_addr: BdAddr,
    /// The page scan repetition mode of the remote device.
    pub page_scan_repetition_mode: PageScanRepetitionMode,
    /// A reserved byte.
    pub reserved: u8,
    /// The class of the remote device.
    pub class_of_device: [u8; 3],
    /// The clock offset of the remote device.
    pub clock_offset: ClockOffset,
    /// The received signal strength, in dBm.
    pub rssi: i8,
    /// The extended inquiry response data.
    pub eir_data: RemainingBytes<'a>,
}

/// The model of [`ExtendedInquiryResult`]: its fields, with byte runs as sequences.
pub struct ExtendedInquiryResultView {
    /// The model of `num_responses`.
    pub num_responses: u8,
    /// The model of `bd_addr`.
    pub bd_addr: BdAddr,
    /// The model of `page_scan_repetition_mode`.
    pub page_scan_repetition_mode: PageScanRepetitionMode,
    /// The model of `reserved`.
    pub reserved: u8,
    /// The model of `class_of_device`.
    pub class_of_device: [u8; 3],
    /// The model of `clock_offset`.
    pub clock_offset: ClockOffset,
    /// The model of `rssi`.
    pub rssi: i8,
    /// The model of `eir_data`.
    pub eir_data: Seq<u8>,
}

impl<'a> View for ExtendedInquiryResult<'a> {
    type V = ExtendedInquiryResultView;

    open spec fn view(&self) -> ExtendedInquiryResultView {
        ExtendedInquiryResultView {
            num_responses: self.num_responses,
            bd_addr: self.bd_addr,
            page_scan_repetition_mode: self.page_scan_repetition_mode,
            reserved: self.reserved,
            class_of_device: self.class_of_device,
            clock_offset: self.clock_offset,
            rssi: self.rssi,
            eir_data: self.eir_data@,
        }
    }
}

impl<'de> FromHciBytes<'de> for ExtendedInquiryResult<'de> {
    open spec fn spec_from_hci_bytes(data: Seq<u8>) -> Result<
        (ExtendedInquiryResultView, Seq<u8>),
        FromHciBytesError,
    > {
        match u8::spec_from_hci_bytes(data) {
            Err(e) => Err(e),
            Ok((num_responses, data)) => match BdAddr::spec_from_hci_bytes(data) {
                Err(e) => Err(e),
                Ok((bd_addr, data)) => match PageScanRepetitionMode::spec_from_hci_bytes(data) {
                    Err(e) => Err(e),
                    Ok((page_scan_repetition_mode, data)) => match u8::spec_from_hci_bytes(data) {
                        Err(e) => Err(e),
                        Ok((reserved, data)) => match <[u8; 3]>::spec_from_hci_bytes(data) {
                            Err(e) => Err(e),
                            Ok((class_of_device, data)) => match ClockOffset::spec_from_hci_bytes(data) {
                                Err(e) => Err(e),
                                Ok((clock_offset, data)) => match i8::spec_from_hci_bytes(data) {
                                    Err(e) => Err(e),
                                    Ok((rssi, data)) => match RemainingBytes::spec_from_hci_bytes(data) {
                                        Err(e) => Err(e),
                                        Ok((eir_data, data)) =>
                                            Ok(
                                                (
                                                    ExtendedInquiryResultView {
                                                        num_responses,
                                                        bd_addr,
                                                        page_scan_repetition_mode,
                                                        reserved,
                                                        class_of_device: array3(class_of_device),
                                                        clock_offset,
                                                        rssi,
                                                        eir_data,
                                                    },
                                                    data,
                                                ),
                                            ),
                                    },
                                },
                            },
                        },
                    },
                },
            },
        }
    }

    fn from_hci_bytes(data: &'de [u8]) -> (r: Result<(Self, &'de [u8]), FromHciBytesError>) {
        let (num_responses, data) = match u8::from_hci_bytes(data) {
            Ok(v) => v,
            Err(e) => return Err(e),
        };
        let (bd_addr, data) = match BdAddr::from_hci_bytes(data) {
            Ok(v) => v,
            Err(e) => return Err(e),
        };
        let (page_scan_repetition_mode, data) = match PageScanRepetitionMode::from_hci_bytes(data) {
            Ok(v) => v,
            Err(e) => return Err(e),
        };
        let (reserved, data) = match u8::from_hci_bytes(data) {
            Ok(v) => v,
            Err(e) => return Err(e),
        };
        let (class_of_device, data) = match <[u8; 3]>::from_hci_bytes(data) {
            Ok(v) => v,
            Err(e) => return Err(e),
        };
        let (clock_offset, data) = match ClockOffset::from_hci_bytes(data) {
            Ok(v) => v,
            Err(e) => return Err(e),
        };
        let (rssi, data) = match i8::from_hci_bytes(data) {
            Ok(v) => v,
            Err(e) => return Err(e),
        };
        let (eir_data, data) = match RemainingBytes::from_hci_bytes(data) {
            Ok(v) => v,
            Err(e) => return Err(e),
        };
        proof {
            lemma_array3_of_view(class_of_device);
        }
        Ok(
            (
                ExtendedInquiryResult {
                    num_responses,
                    bd_addr,
                    page_scan_repetition_mode,
                    reserved,
                    class_of_device,
                    clock_offset,
                    rssi,
                    eir_data,
                },
                data,
            ),
        )
    }
}

impl<'a> EventParams<'a> for ExtendedInquiryResult<'a> {
    const EVENT_CODE: u8 = 0x2f;
}

/// The parameters of the Inquiry Result with RSSI event (code 0x22).
#[derive(Debug, Clone, Copy, Hash)]
pub struct InquiryResultWithRssi<'a> {
    /// The number of responses the event carries.
    pub num_responses: u8,
    /// All remaining bytes of the event, holding every field of every response.
    pub bytes: RemainingBytes<'a>,
}

/// The model of [`InquiryResultWithRssi`]: its fields, with byte runs as sequences.
pub struct InquiryResultWithRssiView {
    /// The model of `num_responses`.
    pub num_responses: u8,
    /// The model of `bytes`.
    pub bytes: Seq<u8>,
}

impl<'a> View for InquiryResultWithRssi<'a> {
    type V = InquiryResultWithRssiView;

    open spec fn view(&self) -> InquiryResultWithRssiView {
        InquiryResultWithRssiView {
            num_responses: self.num_responses,
            bytes: self.bytes@,
        }
    }
}

impl<'de> FromHciBytes<'de> for InquiryResultWithRssi<'de> {
    open spec fn spec_from_hci_bytes(data: Seq<u8>) -> Result<
        (InquiryResultWithRssiView, Seq<u8>),
        FromHciBytesError,
    > {
        match u8::spec_from_hci_bytes(data) {
            Err(e) => Err(e),
            Ok((num_responses, data)) => match RemainingBytes::spec_from_hci_bytes(data) {
                Err(e) => Err(e),
                Ok((bytes, data)) => Ok((InquiryResultWithRssiView { num_responses, bytes }, data)),
            },
        }
    }

    fn from_hci_bytes(data: &'de [u8]) -> (r: Result<(Self, &'de [u8]), FromHciBytesError>) {
        let (num_responses, data) = match u8::from_hci_bytes(data) {
            Ok(v) => v,
            Err(e) => return Err(e),
        };
        let (bytes, data) = match RemainingBytes::from_hci_bytes(data) {
            Ok(v) => v,
            Err(e) => return Err(e),
        };
        Ok((InquiryResultWithRssi { num_responses, bytes }, data))
    }
}

impl<'a> EventParams<'a> for InquiryResultWithRssi<'a> {
    const EVENT_CODE: u8 = 0x22;
}

/// The parameters of the Encryption Change (v1) event (code 0x08).
#[derive(Debug, Clone, Copy, Hash)]
pub struct EncryptionChangeV1 {
    /// The status of the operation that the event reports.
    pub status: Status,
    /// The connection the event concerns.
    pub handle: ConnHandle,
    /// Whether encryption is on.
    pub enabled: bool,
}

impl View for EncryptionChangeV1 {
    type V = EncryptionChangeV1;

    open spec fn view(&self) -> EncryptionChangeV1 {
        *self
    }
}

impl<'de> FromHciBytes<'de> for EncryptionChangeV1 {
    open spec fn spec_from_hci_bytes(data: Seq<u8>) -> Result<
        (EncryptionChangeV1, Seq<u8>),
        FromHciBytesError,
    > {
        match Status::spec_from_hci_bytes(data) {
            Err(e) => Err(e),
            Ok((status, data)) => match ConnHandle::spec_from_hci_bytes(data) {
                Err(e) => Err(e),
                Ok((handle, data)) => match bool::spec_from_hci_bytes(data) {
                    Err(e) => Err(e),
                    Ok((enabled, data)) =>
                        Ok((EncryptionChangeV1 { status, handle, enabled }, data)),
                },
            },
        }
    }

    fn from_hci_bytes(data: &'de [u8]) -> (r: Result<(Self, &'de [u8]), FromHciBytesError>) {
        let (status, data) = match Status::from_hci_bytes(data) {
            Ok(v) => v,
            Err(e) => return Err(e),
        };
        let (handle, data) = match ConnHandle::from_hci_bytes(data) {
            Ok(v) => v,
            Err(e) => return Err(e),
        };
        let (enabled, data) = match bool::from_hci_bytes(data) {
            Ok(v) => v,
            Err(e) => return Err(e),
        };
        Ok((EncryptionChangeV1 { status, handle, enabled }, data))
    }
}

impl<'a> EventParams<'a> for EncryptionChangeV1 {
    const EVENT_CODE: u8 = 0x08;
}

/// The parameters of the Encryption Change (v2) event (code 0x59).
#[derive(Debug, Clone, Copy, Hash)]
pub struct EncryptionChangeV2 {
    /// The status of the operation that the event reports.
    pub status: Status,
    /// The connection the event concerns.
    pub handle: ConnHandle,
    /// Whether encryption is on.
    pub encryption_enabled: bool,
    /// The size of the encryption key, in bytes.
    pub encryption_key_size: u8,
}

impl View for EncryptionChangeV2 {
    type V = EncryptionChangeV2;

    open spec fn view(&self) -> EncryptionChangeV2 {
        *self
    }
}

impl<'de> FromHciBytes<'de> for EncryptionChangeV2 {
    open spec fn spec_from_hci_bytes(data: Seq<u8>) -> Result<
        (EncryptionChangeV2, Seq<u8>),
        FromHciBytesError,
    > {
        match Status::spec_from_hci_bytes(data) {
            Err(e) => Err(e),
            Ok((status, data)) => match ConnHandle::spec_from_hci_bytes(data) {
                Err(e) => Err(e),
                Ok((handle, data)) => match bool::spec_from_hci_bytes(data) {
                    Err(e) => Err(e),
                    Ok((encryption_enabled, data)) => match u8::spec_from_hci_bytes(data) {
                        Err(e) => Err(e),
                        Ok((encryption_key_size, data)) =>
                            Ok(
                                (
                                    EncryptionChangeV2 {
                                        status,
                                        handle,
                                        encryption_enabled,
                                        encryption_key_size,
                                    },
                                    data,
                                ),
                            ),
                    },
                },
            },
        }
    }

    fn from_hci_bytes(data: &'de [u8]) -> (r: Result<(Self, &'de [u8]), FromHciBytesError>) {
        let (status, data) = match Status::from_hci_bytes(data) {
            Ok(v) => v,
            Err(e) => return Err(e),
        };
        let (handle, data) = match ConnHandle::from_hci_bytes(data) {
            Ok(v) => v,
            Err(e) => return Err(e),
        };
        let (encryption_enabled, data) = match bool::from_hci_bytes(data) {
            Ok(v) => v,
            Err(e) => return Err(e),
        };
        let (encryption_key_size, data) = match u8::from_hci_bytes(data) {
            Ok(v) => v,
            Err(e) => return Err(e),
        };
        Ok((EncryptionChangeV2 { status, handle, encryption_enabled, encryption_key_size }, data))
    }
}

impl<'a> EventParams<'a> for EncryptionChangeV2 {
    const EVENT_CODE: u8 = 0x59;
}

/// The parameters of the Read Remote Version Information Complete event (code 0x0c).
#[derive(Debug, Clone, Copy, Hash)]
pub struct ReadRemoteVersionInformationComplete {
    /// The status of the operation that the event reports.
    pub status: Status,
    /// The connection the event concerns.
    pub handle: ConnHandle,
    /// The Bluetooth version of the remote controller.
    pub version: CoreSpecificationVersion,
    /// The manufacturer of the remote controller.
    pub company_id: u16,
    /// The manufacturer-specific subversion of the remote controller.
    pub subversion: u16,
}

impl View for ReadRemoteVersionInformationComplete {
    type V = ReadRemoteVersionInformationComplete;

    open spec fn view(&self) -> ReadRemoteVersionInformationComplete {
        *self
    }
}

impl<'de> FromHciBytes<'de> for ReadRemoteVersionInformationComplete {
    open spec fn spec_from_hci_bytes(data: Seq<u8>) -> Result<
        (ReadRemoteVersionInformationComplete, Seq<u8>),
        FromHciBytesError,
    > {
        match Status::spec_from_hci_bytes(data) {
            Err(e) => Err(e),
            Ok((status, data)) => match ConnHandle::spec_from_hci_bytes(data) {
                Err(e) => Err(e),
                Ok((handle, data)) => match CoreSpecificationVersion::spec_from_hci_bytes(data) {
                    Err(e) => Err(e),
                    Ok((version, data)) => match u16::spec_from_hci_bytes(data) {
                        Err(e) => Err(e),
                        Ok((company_id, data)) => match u16::spec_from_hci_bytes(data) {
                            Err(e) => Err(e),
                            Ok((subversion, data)) =>
                                Ok(
                                    (
                                        ReadRemoteVersionInformationComplete {
                                            status,
                                            handle,
                                            version,
                                            company_id,
                                            subversion,
                                        },
                                        data,
                                    ),
                                ),
                        },
                    },
                },
            },
        }
    }

    fn from_hci_bytes(data: &'de [u8]) -> (r: Result<(Self, &'de [u8]), FromHciBytesError>) {
        let (status, data) = match Status::from_hci_bytes(data) {
            Ok(v) => v,
            Err(e) => return Err(e),
        };
        let (handle, data) = match ConnHandle::from_hci_bytes(data) {
            Ok(v) => v,
            Err(e) => return Err(e),
        };
        let (version, data) = match CoreSpecificationVersion::from_hci_bytes(data) {
            Ok(v) => v,
            Err(e) => return Err(e),
        };
        let (company_id, data) = match u16::from_hci_bytes(data) {
            Ok(v) => v,
            Err(e) => return Err(e),
        };
        let (subversion, data) = match u16::from_hci_bytes(data) {
            Ok(v) => v,
            Err(e) => return Err(e),
        };
        Ok(
            (
                ReadRemoteVersionInformationComplete {
                    status,
                    handle,
                    version,
                    company_id,
                    subversion,
                },
                data,
            ),
        )
    }
}

impl<'a> EventParams<'a> for ReadRemoteVersionInformationComplete {
    const EVENT_CODE: u8 = 0x0c;
}

/// The parameters of the Command Complete event (code 0x0e).
#[derive(Debug, Clone, Copy, Hash)]
pub struct CommandComplete<'a> {
    /// How many more commands the host may send.
    pub num_hci_cmd_pkts: u8,
    /// The opcode of the command the event answers.
    pub cmd_opcode: Opcode,
    /// The status of the operation that the event reports.
    pub status: Status,
    /// The return parameters of the command after the status.
    pub return_param_bytes: RemainingBytes<'a>,
}

/// The model of [`CommandComplete`]: its fields, with byte runs as sequences.
pub struct CommandCompleteView {
    /// The model of `num_hci_cmd_pkts`.
    pub num_hci_cmd_pkts: u8,
    /// The model of `cmd_opcode`.
    pub cmd_opcode: Opcode,
    /// The model of `status`.
    pub status: Status,
    /// The model of `return_param_bytes`.
    pub return_param_bytes: Seq<u8>,
}

impl<'a> View for CommandComplete<'a> {
    type V = CommandCompleteView;

    open spec fn view(&self) -> CommandCompleteView {
        CommandCompleteView {
            num_hci_cmd_pkts: self.num_hci_cmd_pkts,
            cmd_opcode: self.cmd_opcode,
            status: self.status,
            return_param_bytes: self.return_param_bytes@,
        }
    }
}

impl<'de> FromHciBytes<'de> for CommandComplete<'de> {
    open spec fn spec_from_hci_bytes(data: Seq<u8>) -> Result<
        (CommandCompleteView, Seq<u8>),
        FromHciBytesError,
    > {
        match u8::spec_from_hci_bytes(data) {
            Err(e) => Err(e),
            Ok((num_hci_cmd_pkts, data)) => match Opcode::spec_from_hci_bytes(data) {
                Err(e) => Err(e),
                Ok((cmd_opcode, data)) => match Status::spec_from_hci_bytes(data) {
                    Err(e) => Err(e),
                    Ok((status, data)) => match RemainingBytes::spec_from_hci_bytes(data) {
                        Err(e) => Err(e),
                        Ok((return_param_bytes, data)) =>
                            Ok(
                                (
                                    CommandCompleteView {
                                        num_hci_cmd_pkts,
                                        cmd_opcode,
                                        status,
                                        return_param_bytes,
                                    },
                                    data,
                                ),
                            ),
                    },
                },
            },
        }
    }

    fn from_hci_bytes(data: &'de [u8]) -> (r: Result<(Self, &'de [u8]), FromHciBytesError>) {
        let (num_hci_cmd_pkts, data) = match u8::from_hci_bytes(data) {
            Ok(v) => v,
            Err(e) => return Err(e),
        };
        let (cmd_opcode, data) = match Opcode::from_hci_bytes(data) {
            Ok(v) => v,
            Err(e) => return Err(e),
        };
        let (status, data) = match Status::from_hci_bytes(data) {
            Ok(v) => v,
            Err(e) => return Err(e),
        };
        let (return_param_bytes, data) = match RemainingBytes::from_hci_bytes(data) {
            Ok(v) => v,
            Err(e) => return Err(e),
        };
        Ok((CommandComplete { num_hci_cmd_pkts, cmd_opcode, status, return_param_bytes }, data))
    }
}

impl<'a> EventParams<'a> for CommandComplete<'a> {
    const EVENT_CODE: u8 = 0x0e;
}

/// The parameters of the Command Status event (code 0x0f).
#[derive(Debug, Clone, Copy, Hash)]
pub struct CommandStatus {
    /// The status of the operation that the event reports.
    pub status: Status,
    /// How many more commands the host may send.
    pub num_hci_cmd_pkts: u8,
    /// The opcode of the command the event answers.
    pub cmd_opcode: Opcode,
}

impl View for CommandStatus {
    type V = CommandStatus;

    open spec fn view(&self) -> CommandStatus {
        *self
    }
}

impl<'de> FromHciBytes<'de> for CommandStatus {
    open spec fn spec_from_hci_bytes(data: Seq<u8>) -> Result<
        (CommandStatus, Seq<u8>),
        FromHciBytesError,
    > {
        match Status::spec_from_hci_bytes(data) {
            Err(e) => Err(e),
            Ok((status, data)) => match u8::spec_from_hci_bytes(data) {
                Err(e) => Err(e),
                Ok((num_hci_cmd_pkts, data)) => match Opcode::spec_from_hci_bytes(data) {
                    Err(e) => Err(e),
                    Ok((cmd_opcode, data)) =>
                        Ok((CommandStatus { status, num_hci_cmd_pkts, cmd_opcode }, data)),
                },
            },
        }
    }

    fn from_hci_bytes(data: &'de [u8]) -> (r: Result<(Self, &'de [u8]), FromHciBytesError>) {
        let (status, data) = match Status::from_hci_bytes(data) {
            Ok(v) => v,
            Err(e) => return Err(e),
        };
        let (num_hci_cmd_pkts, data) = match u8::from_hci_bytes(data) {
            Ok(v) => v,
            Err(e) => return Err(e),
        };
        let (cmd_opcode, data) = match Opcode::from_hci_bytes(data) {
            Ok(v) => v,
            Err(e) => return Err(e),
        };
        Ok((CommandStatus { status, num_hci_cmd_pkts, cmd_opcode }, data))
    }
}

impl<'a> EventParams<'a> for CommandStatus {
    const EVENT_CODE: u8 = 0x0f;
}

/// The parameters of the Hardware Error event (code 0x10).
#[derive(Debug, Clone, Copy, Hash)]
pub struct HardwareError {
    /// The code of the hardware failure.
    pub hardware_code: u8,
}

impl View for HardwareError {
    type V = HardwareError;

    open spec fn view(&self) -> HardwareError {
        *self
    }
}

impl<'de> FromHciBytes<'de> for HardwareError {
    open spec fn spec_from_hci_bytes(data: Seq<u8>) -> Result<
        (HardwareError, Seq<u8>),
        FromHciBytesError,
    > {
        match u8::spec_from_hci_bytes(data) {
            Err(e) => Err(e),
            Ok((hardware_code, data)) => Ok((HardwareError { hardware_code }, data)),
        }
    }

    fn from_hci_bytes(data: &'de [u8]) -> (r: Result<(Self, &'de [u8]), FromHciBytesError>) {
        let (hardware_code, data) = match u8::from_hci_bytes(data) {
            Ok(v) => v,
            Err(e) => return Err(e),
        };
        Ok((HardwareError { hardware_code }, data))
    }
}

impl<'a> EventParams<'a> for HardwareError {
    const EVENT_CODE: u8 = 0x10;
}

/// The parameters of the Data Buffer Overflow event (code 0x1a).
#[derive(Debug, Clone, Copy, Hash)]
pub struct DataBufferOverflow {
    /// The kind of buffer that overflowed.
    pub link_type: LinkType,
}

impl View for DataBufferOverflow {
    type V = DataBufferOverflow;

    open spec fn view(&self) -> DataBufferOverflow {
        *self
    }
}

impl<'de> FromHciBytes<'de> for DataBufferOverflow {
    open spec fn spec_from_hci_bytes(data: Seq<u8>) -> Result<
        (DataBufferOverflow, Seq<u8>),
        FromHciBytesError,
    > {
        match LinkType::spec_from_hci_bytes(data) {
            Err(e) => Err(e),
            Ok((link_type, data)) => Ok((DataBufferOverflow { link_type }, data)),
        }
    }

    fn from_hci_bytes(data: &'de [u8]) -> (r: Result<(Self, &'de [u8]), FromHciBytesError>) {
        let (link_type, data) = match LinkType::from_hci_bytes(data) {
            Ok(v) => v,
            Err(e) => return Err(e),
        };
        Ok((DataBufferOverflow { link_type }, data))
    }
}

impl<'a> EventParams<'a> for DataBufferOverflow {
    const EVENT_CODE: u8 = 0x1a;
}

/// The parameters of the Encryption Key Refresh Complete event (code 0x30).
#[derive(Debug, Clone, Copy, Hash)]
pub struct EncryptionKeyRefreshComplete {
    /// The status of the operation that the event reports.
    pub status: Status,
    /// The connection the event concerns.
    pub handle: ConnHandle,
}

impl View for EncryptionKeyRefreshComplete {
    type V = EncryptionKeyRefreshComplete;

    open spec fn view(&self) -> EncryptionKeyRefreshComplete {
        *self
    }
}

impl<'de> FromHciBytes<'de> for EncryptionKeyRefreshComplete {
    open spec fn spec_from_hci_bytes(data: Seq<u8>) -> Result<
        (EncryptionKeyRefreshComplete, Seq<u8>),
        FromHciBytesError,
    > {
        match Status::spec_from_hci_bytes(data) {
            Err(e) => Err(e),
            Ok((status, data)) => match ConnHandle::spec_from_hci_bytes(data) {
                Err(e) => Err(e),
                Ok((handle, data)) => Ok((EncryptionKeyRefreshComplete { status, handle }, data)),
            },
        }
    }

    fn from_hci_bytes(data: &'de [u8]) -> (r: Result<(Self, &'de [u8]), FromHciBytesError>) {
        let (status, data) = match Status::from_hci_bytes(data) {
            Ok(v) => v,
            Err(e) => return Err(e),
        };
        let (handle, data) = match ConnHandle::from_hci_bytes(data) {
            Ok(v) => v,
            Err(e) => return Err(e),
        };
        Ok((EncryptionKeyRefreshComplete { status, handle }, data))
    }
}

impl<'a> EventParams<'a> for EncryptionKeyRefreshComplete {
    const EVENT_CODE: u8 = 0x30;
}

/// The parameters of the Authenticated Payload Timeout Expired event (code 0x57).
#[derive(Debug, Clone, Copy, Hash)]
pub struct AuthenticatedPayloadTimeoutExpired {
    /// The connection the event concerns.
    pub handle: ConnHandle,
}

impl View for AuthenticatedPayloadTimeoutExpired {
    type V = AuthenticatedPayloadTimeoutExpired;

    open spec fn view(&self) -> AuthenticatedPayloadTimeoutExpired {
        *self
    }
}

impl<'de> FromHciBytes<'de> for AuthenticatedPayloadTimeoutExpired {
    open spec fn spec_from_hci_bytes(data: Seq<u8>) -> Result<
        (AuthenticatedPayloadTimeoutExpired, Seq<u8>),
        FromHciBytesError,
    > {
        match ConnHandle::spec_from_hci_bytes(data) {
            Err(e) => Err(e),
            Ok((handle, data)) => Ok((AuthenticatedPayloadTimeoutExpired { handle }, data)),
        }
    }

    fn from_hci_bytes(data: &'de [u8]) -> (r: Result<(Self, &'de [u8]), FromHciBytesError>) {
        let (handle, data) = match ConnHandle::from_hci_bytes(data) {
            Ok(v) => v,
            Err(e) => return Err(e),
        };
        Ok((AuthenticatedPayloadTimeoutExpired { handle }, data))
    }
}

impl<'a> EventParams<'a> for AuthenticatedPayloadTimeoutExpired {
    const EVENT_CODE: u8 = 0x57;
}

/// The parameters of the Return Link Keys event (code 0x15).
#[derive(Debug, Clone, Copy, Hash)]
pub struct ReturnLinkKeys<'a> {
    /// The number of link keys the event carries.
    pub num_keys: u8,
    /// The addresses of the devices, six bytes each, followed by their keys.
    pub bd_addr: RemainingBytes<'a>,
    /// The link keys, sixteen bytes each; what `bd_addr` left over.
    pub link_key: RemainingBytes<'a>,
}

/// The model of [`ReturnLinkKeys`]: its fields, with byte runs as sequences.
pub struct ReturnLinkKeysView {
    /// The model of `num_keys`.
    pub num_keys: u8,
    /// The model of `bd_addr`.
    pub bd_addr: Seq<u8>,
    /// The model of `link_key`.
    pub link_key: Seq<u8>,
}

impl<'a> View for ReturnLinkKeys<'a> {
    type V = ReturnLinkKeysView;

    open spec fn view(&self) -> ReturnLinkKeysView {
        ReturnLinkKeysView {
            num_keys: self.num_keys,
            bd_addr: self.bd_addr@,
            link_key: self.link_key@,
        }
    }
}

impl<'de> FromHciBytes<'de> for ReturnLinkKeys<'de> {
    open spec fn spec_from_hci_bytes(data: Seq<u8>) -> Result<
        (ReturnLinkKeysView, Seq<u8>),
        FromHciBytesError,
    > {
        match u8::spec_from_hci_bytes(data) {
            Err(e) => Err(e),
            Ok((num_keys, data)) => match RemainingBytes::spec_from_hci_bytes(data) {
                Err(e) => Err(e),
                Ok((bd_addr, data)) => match RemainingBytes::spec_from_hci_bytes(data) {
                    Err(e) => Err(e),
                    Ok((link_key, data)) =>
                        Ok((ReturnLinkKeysView { num_keys, bd_addr, link_key }, data)),
                },
            },
        }
    }

    fn from_hci_bytes(data: &'de [u8]) -> (r: Result<(Self, &'de [u8]), FromHciBytesError>) {
        let (num_keys, data) = match u8::from_hci_bytes(data) {
            Ok(v) => v,
            Err(e) => return Err(e),
        };
        let (bd_addr, data) = match RemainingBytes::from_hci_bytes(data) {
            Ok(v) => v,
            Err(e) => return Err(e),
        };
        let (link_key, data) = match RemainingBytes::from_hci_bytes(data) {
            Ok(v) => v,
            Err(e) => return Err(e),
        };
        Ok((ReturnLinkKeys { num_keys, bd_addr, link_key }, data))
    }
}

impl<'a> EventParams<'a> for ReturnLinkKeys<'a> {
    const EVENT_CODE: u8 = 0x15;
}

/// The parameters of the Vendor event (code 0xff).
#[derive(Debug, Clone, Copy, Hash)]
pub struct Vendor<'a> {
    /// The parameters of the event.
    pub params: RemainingBytes<'a>,
}

/// The model of [`Vendor`]: its fields, with byte runs as sequences.
pub struct VendorView {
    /// The model of `params`.
    pub params: Seq<u8>,
}

impl<'a> View for Vendor<'a> {
    type V = VendorView;

    open spec fn view(&self) -> VendorView {
        VendorView {
            params: self.params@,
        }
    }
}

impl<'de> FromHciBytes<'de> for Vendor<'de> {
    open spec fn spec_from_hci_bytes(data: Seq<u8>) -> Result<
        (VendorView, Seq<u8>),
        FromHciBytesError,
    > {
        match RemainingBytes::spec_from_hci_bytes(data) {
            Err(e) => Err(e),
            Ok((params, data)) => Ok((VendorView { params }, data)),
        }
    }

    fn from_hci_bytes(data: &'de [u8]) -> (r: Result<(Self, &'de [u8]), FromHciBytesError>) {
        let (params, data) = match RemainingBytes::from_hci_bytes(data) {
            Ok(v) => v,
            Err(e) => return Err(e),
        };
        Ok((Vendor { params }, data))
    }
}

impl<'a> EventParams<'a> for Vendor<'a> {
    const EVENT_CODE: u8 = 0xff;
}

/// The parameters of the Remote Name Request Complete event (code 0x07).
#[derive(Debug, Clone, Copy, Hash)]
pub struct RemoteNameRequestComplete<'a> {
    /// The status of the operation that the event reports.
    pub status: Status,
    /// The address of the remote device.
    pub bd_addr: BdAddr,
    /// The name of the remote device, null-terminated (at most 248 bytes).
    pub remote_name: RemainingBytes<'a>,
}

/// The model of [`RemoteNameRequestComplete`]: its fields, with byte runs as sequences.
pub struct RemoteNameRequestCompleteView {
    /// The model of `status`.
    pub status: Status,
    /// The model of `bd_addr`.
    pub bd_addr: BdAddr,
    /// The model of `remote_name`.
    pub remote_name: Seq<u8>,
}

impl<'a> View for RemoteNameRequestComplete<'a> {
    type V = RemoteNameRequestCompleteView;

    open spec fn view(&self) -> RemoteNameRequestCompleteView {
        RemoteNameRequestCompleteView {
            status: self.status,
            bd_addr: self.bd_addr,
            remote_name: self.remote_name@,
        }
    }
}

impl<'de> FromHciBytes<'de> for RemoteNameRequestComplete<'de> {
    open spec fn spec_from_hci_bytes(data: Seq<u8>) -> Result<
        (RemoteNameRequestCompleteView, Seq<u8>),
        FromHciBytesError,
    > {
        match Status::spec_from_hci_bytes(data) {
            Err(e) => Err(e),
            Ok((status, data)) => match BdAddr::spec_from_hci_bytes(data) {
                Err(e) => Err(e),
                Ok((bd_addr, data)) => match RemainingBytes::spec_from_hci_bytes(data) {
                    Err(e) => Err(e),
                    Ok((remote_name, data)) =>
                        Ok((RemoteNameRequestCompleteView { status, bd_addr, remote_name }, data)),
                },
            },
        }
    }

    fn from_hci_bytes(data: &'de [u8]) -> (r: Result<(Self, &'de [u8]), FromHciBytesError>) {
        let (status, data) = match Status::from_hci_bytes(data) {
            Ok(v) => v,
            Err(e) => return Err(e),
        };
        let (bd_addr, data) = match BdAddr::from_hci_bytes(data) {
            Ok(v) => v,
            Err(e) => return Err(e),
        };
        let (remote_name, data) = match RemainingBytes::from_hci_bytes(data) {
            Ok(v) => v,
            Err(e) => return Err(e),
        };
        Ok((RemoteNameRequestComplete { status, bd_addr, remote_name }, data))
    }
}

impl<'a> EventParams<'a> for RemoteNameRequestComplete<'a> {
    const EVENT_CODE: u8 = 0x07;
}

/// The parameters of the Remote Host Supported Features Notification event (code 0x3d).
#[derive(Debug, Clone, Copy, Hash)]
pub struct RemoteHostSupportedFeaturesNotification {
    /// The address of the remote device.
    pub bd_addr: BdAddr,
    /// The features the remote host supports.
    pub features: LmpFeatureMask,
}

impl View for RemoteHostSupportedFeaturesNotification {
    type V = RemoteHostSupportedFeaturesNotification;

    open spec fn view(&self) -> RemoteHostSupportedFeaturesNotification {
        *self
    }
}

impl<'de> FromHciBytes<'de> for RemoteHostSupportedFeaturesNotification {
    open spec fn spec_from_hci_bytes(data: Seq<u8>) -> Result<
        (RemoteHostSupportedFeaturesNotification, Seq<u8>),
        FromHciBytesError,
    > {
        match BdAddr::spec_from_hci_bytes(data) {
            Err(e) => Err(e),
            Ok((bd_addr, data)) => match LmpFeatureMask::spec_from_hci_bytes(data) {
                Err(e) => Err(e),
                Ok((features, data)) =>
                    Ok((RemoteHostSupportedFeaturesNotification { bd_addr, features }, data)),
            },
        }
    }

    fn from_hci_bytes(data: &'de [u8]) -> (r: Result<(Self, &'de [u8]), FromHciBytesError>) {
        let (bd_addr, data) = match BdAddr::from_hci_bytes(data) {
            Ok(v) => v,
            Err(e) => return Err(e),
        };
        let (features, data) = match LmpFeatureMask::from_hci_bytes(data) {
            Ok(v) => v,
            Err(e) => return Err(e),
        };
        Ok((RemoteHostSupportedFeaturesNotification { bd_addr, features }, data))
    }
}

impl<'a> EventParams<'a> for RemoteHostSupportedFeaturesNotification {
    const EVENT_CODE: u8 = 0x3d;
}

/// The parameters of the Connection Complete event (code 0x03).
#[derive(Debug, Clone, Copy, Hash)]
pub struct ConnectionComplete {
    /// The status of the operation that the event reports.
    pub status: Status,
    /// The connection the event concerns.
    pub handle: ConnHandle,
    /// The address of the remote device.
    pub bd_addr: BdAddr,
    /// The kind of link.
    pub link_type: ConnectionLinkType,
    /// Whether encryption is on.
    pub encryption_enabled: bool,
}

impl View for ConnectionComplete {
    type V = ConnectionComplete;

    open spec fn view(&self) -> ConnectionComplete {
        *self
    }
}

impl<'de> FromHciBytes<'de> for ConnectionComplete {
    open spec fn spec_from_hci_bytes(data: Seq<u8>) -> Result<
        (ConnectionComplete, Seq<u8>),
        FromHciBytesError,
    > {
        match Status::spec_from_hci_bytes(data) {
            Err(e) => Err(e),
            Ok((status, data)) => match ConnHandle::spec_from_hci_bytes(data) {
                Err(e) => Err(e),
                Ok((handle, data)) => match BdAddr::spec_from_hci_bytes(data) {
                    Err(e) => Err(e),
                    Ok((bd_addr, data)) => match ConnectionLinkType::spec_from_hci_bytes(data) {
                        Err(e) => Err(e),
                        Ok((link_type, data)) => match bool::spec_from_hci_bytes(data) {
                            Err(e) => Err(e),
                            Ok((encryption_enabled, data)) =>
                                Ok(
                                    (
                                        ConnectionComplete {
                                            status,
                                            handle,
                                            bd_addr,
                                            link_type,
                                            encryption_enabled,
                                        },
                                        data,
                                    ),
                                ),
                        },
                    },
                },
            },
        }
    }

    fn from_hci_bytes(data: &'de [u8]) -> (r: Result<(Self, &'de [u8]), FromHciBytesError>) {
        let (status, data) = match Status::from_hci_bytes(data) {
            Ok(v) => v,
            Err(e) => return Err(e),
        };
        let (handle, data) = match ConnHandle::from_hci_bytes(data) {
            Ok(v) => v,
            Err(e) => return Err(e),
        };
        let (bd_addr, data) = match BdAddr::from_hci_bytes(data) {
            Ok(v) => v,
            Err(e) => return Err(e),
        };
        let (link_type, data) = match ConnectionLinkType::from_hci_bytes(data) {
            Ok(v) => v,
            Err(e) => return Err(e),
        };
        let (encryption_enabled, data) = match bool::from_hci_bytes(data) {
            Ok(v) => v,
            Err(e) => return Err(e),
        };
        Ok((ConnectionComplete { status, handle, bd_addr, link_type, encryption_enabled }, data))
    }
}

impl<'a> EventParams<'a> for ConnectionComplete {
    const EVENT_CODE: u8 = 0x03;
}

/// The parameters of the Link Key Request event (code 0x17).
#[derive(Debug, Clone, Copy, Hash)]
pub struct LinkKeyRequest {
    /// The address of the remote device.
    pub bd_addr: BdAddr,
}

impl View for LinkKeyRequest {
    type V = LinkKeyRequest;

    open spec fn view(&self) -> LinkKeyRequest {
        *self
    }
}

impl<'de> FromHciBytes<'de> for LinkKeyRequest {
    open spec fn spec_from_hci_bytes(data: Seq<u8>) -> Result<
        (LinkKeyRequest, Seq<u8>),
        FromHciBytesError,
    > {
        match BdAddr::spec_from_hci_bytes(data) {
            Err(e) => Err(e),
            Ok((bd_addr, data)) => Ok((LinkKeyRequest { bd_addr }, data)),
        }
    }

    fn from_hci_bytes(data: &'de [u8]) -> (r: Result<(Self, &'de [u8]), FromHciBytesError>) {
        let (bd_addr, data) = match BdAddr::from_hci_bytes(data) {
            Ok(v) => v,
            Err(e) => return Err(e),
        };
        Ok((LinkKeyRequest { bd_addr }, data))
    }
}

impl<'a> EventParams<'a> for LinkKeyRequest {
    const EVENT_CODE: u8 = 0x17;
}

/// The parameters of the PIN Code Request event (code 0x16).
#[derive(Debug, Clone, Copy, Hash)]
pub struct PinCodeRequest {
    /// The address of the remote device.
    pub bd_addr: BdAddr,
}

impl View for PinCodeRequest {
    type V = PinCodeRequest;

    open spec fn view(&self) -> PinCodeRequest {
        *self
    }
}

impl<'de> FromHciBytes<'de> for PinCodeRequest {
    open spec fn spec_from_hci_bytes(data: Seq<u8>) -> Result<
        (PinCodeRequest, Seq<u8>),
        FromHciBytesError,
    > {
        match BdAddr::spec_from_hci_bytes(data) {
            Err(e) => Err(e),
            Ok((bd_addr, data)) => Ok((PinCodeRequest { bd_addr }, data)),
        }
    }

    fn from_hci_bytes(data: &'de [u8]) -> (r: Result<(Self, &'de [u8]), FromHciBytesError>) {
        let (bd_addr, data) = match BdAddr::from_hci_bytes(data) {
            Ok(v) => v,
            Err(e) => return Err(e),
        };
        Ok((PinCodeRequest { bd_addr }, data))
    }
}

impl<'a> EventParams<'a> for PinCodeRequest {
    const EVENT_CODE: u8 = 0x16;
}

/// The parameters of the Link Key Notification event (code 0x18).
#[derive(Debug, Clone, Copy, Hash)]
pub struct LinkKeyNotification {
    /// The address of the remote device.
    pub bd_addr: BdAddr,
    /// The link key.
    pub link_key: [u8; 16],
    /// The kind of the link key.
    pub key_type: LinkKeyType,
}

impl View for LinkKeyNotification {
    type V = LinkKeyNotification;

    open spec fn view(&self) -> LinkKeyNotification {
        *self
    }
}

impl<'de> FromHciBytes<'de> for LinkKeyNotification {
    open spec fn spec_from_hci_bytes(data: Seq<u8>) -> Result<
        (LinkKeyNotification, Seq<u8>),
        FromHciBytesError,
    > {
        match BdAddr::spec_from_hci_bytes(data) {
            Err(e) => Err(e),
            Ok((bd_addr, data)) => match <[u8; 16]>::spec_from_hci_bytes(data) {
                Err(e) => Err(e),
                Ok((link_key, data)) => match LinkKeyType::spec_from_hci_bytes(data) {
                    Err(e) => Err(e),
                    Ok((key_type, data)) =>
                        Ok(
                            (
                                LinkKeyNotification {
                                    bd_addr,
                                    link_key: array16(link_key),
                                    key_type,
                                },
                                data,
                            ),
                        ),
                },
            },
        }
    }

    fn from_hci_bytes(data: &'de [u8]) -> (r: Result<(Self, &'de [u8]), FromHciBytesError>) {
        let (bd_addr, data) = match BdAddr::from_hci_bytes(data) {
            Ok(v) => v,
            Err(e) => return Err(e),
        };
        let (link_key, data) = match <[u8; 16]>::from_hci_bytes(data) {
            Ok(v) => v,
            Err(e) => return Err(e),
        };
        let (key_type, data) = match LinkKeyType::from_hci_bytes(data) {
            Ok(v) => v,
            Err(e) => return Err(e),
        };
        proof {
            lemma_array16_of_view(link_key);
        }
        Ok((LinkKeyNotification { bd_addr, link_key, key_type }, data))
    }
}

impl<'a> EventParams<'a> for LinkKeyNotification {
    const EVENT_CODE: u8 = 0x18;
}

/// The parameters of the Authentication Complete event (code 0x06).
#[derive(Debug, Clone, Copy, Hash)]
pub struct AuthenticationComplete {
    /// The status of the operation that the event reports.
    pub status: Status,
    /// The connection the event concerns.
    pub handle: ConnHandle,
}

impl View for AuthenticationComplete {
    type V = AuthenticationComplete;

    open spec fn view(&self) -> AuthenticationComplete {
        *self
    }
}

impl<'de> FromHciBytes<'de> for AuthenticationComplete {
    open spec fn spec_from_hci_bytes(data: Seq<u8>) -> Result<
        (AuthenticationComplete, Seq<u8>),
        FromHciBytesError,
    > {
        match Status::spec_from_hci_bytes(data) {
            Err(e) => Err(e),
            Ok((status, data)) => match ConnHandle::spec_from_hci_bytes(data) {
                Err(e) => Err(e),
                Ok((handle, data)) => Ok((AuthenticationComplete { status, handle }, data)),
            },
        }
    }

    fn from_hci_bytes(data: &'de [u8]) -> (r: Result<(Self, &'de [u8]), FromHciBytesError>) {
        let (status, data) = match Status::from_hci_bytes(data) {
            Ok(v) => v,
            Err(e) => return Err(e),
        };
        let (handle, data) = match ConnHandle::from_hci_bytes(data) {
            Ok(v) => v,
            Err(e) => return Err(e),
        };
        Ok((AuthenticationComplete { status, handle }, data))
    }
}

impl<'a> EventParams<'a> for AuthenticationComplete {
    const EVENT_CODE: u8 = 0x06;
}

/// The parameters of the Inquiry Complete event (code 0x01).
#[derive(Debug, Clone, Copy, Hash)]
pub struct InquiryComplete {
    /// The status of the operation that the event reports.
    pub status: Status,
}

impl View for InquiryComplete {
    type V = InquiryComplete;

    open spec fn view(&self) -> InquiryComplete {
        *self
    }
}

impl<'de> FromHciBytes<'de> for InquiryComplete {
    open spec fn spec_from_hci_bytes(data: Seq<u8>) -> Result<
        (InquiryComplete, Seq<u8>),
        FromHciBytesError,
    > {
        match Status::spec_from_hci_bytes(data) {
            Err(e) => Err(e),
            Ok((status, data)) => Ok((InquiryComplete { status }, data)),
        }
    }

    fn from_hci_bytes(data: &'de [u8]) -> (r: Result<(Self, &'de [u8]), FromHciBytesError>) {
        let (status, data) = match Status::from_hci_bytes(data) {
            Ok(v) => v,
            Err(e) => return Err(e),
        };
        Ok((InquiryComplete { status }, data))
    }
}

impl<'a> EventParams<'a> for InquiryComplete {
    const EVENT_CODE: u8 = 0x01;
}

/// The parameters of the Connection Request event (code 0x04).
#[derive(Debug, Clone, Copy, Hash)]
pub struct ConnectionRequest {
    /// The address of the remote device.
    pub bd_addr: BdAddr,
    /// The class of the remote device.
    pub class_of_device: [u8; 3],
    /// The kind of link asked for.
    pub link_type: ConnectionLinkType,
}

impl View for ConnectionRequest {
    type V = ConnectionRequest;

    open spec fn view(&self) -> ConnectionRequest {
        *self
    }
}

impl<'de> FromHciBytes<'de> for ConnectionRequest {
    open spec fn spec_from_hci_bytes(data: Seq<u8>) -> Result<
        (ConnectionRequest, Seq<u8>),
        FromHciBytesError,
    > {
        match BdAddr::spec_from_hci_bytes(data) {
            Err(e) => Err(e),
            Ok((bd_addr, data)) => match <[u8; 3]>::spec_from_hci_bytes(data) {
                Err(e) => Err(e),
                Ok((class_of_device, data)) => match ConnectionLinkType::spec_from_hci_bytes(data) {
                    Err(e) => Err(e),
                    Ok((link_type, data)) =>
                        Ok(
                            (
                                ConnectionRequest {
                                    bd_addr,
                                    class_of_device: array3(class_of_device),
                                    link_type,
                                },
                                data,
                            ),
                        ),
                },
            },
        }
    }

    fn from_hci_bytes(data: &'de [u8]) -> (r: Result<(Self, &'de [u8]), FromHciBytesError>) {
        let (bd_addr, data) = match BdAddr::from_hci_bytes(data) {
            Ok(v) => v,
            Err(e) => return Err(e),
        };
        let (class_of_device, data) = match <[u8; 3]>::from_hci_bytes(data) {
            Ok(v) => v,
            Err(e) => return Err(e),
        };
        let (link_type, data) = match ConnectionLinkType::from_hci_bytes(data) {
            Ok(v) => v,
            Err(e) => return Err(e),
        };
        proof {
            lemma_array3_of_view(class_of_device);
        }
        Ok((ConnectionRequest { bd_addr, class_of_device, link_type }, data))
    }
}

impl<'a> EventParams<'a> for ConnectionRequest {
    const EVENT_CODE: u8 = 0x04;
}

/// The parameters of the Change Connection Link Key Complete event (code 0x09).
#[derive(Debug, Clone, Copy, Hash)]
pub struct ChangeConnectionLinkKeyComplete {
    /// The status of the operation that the event reports.
    pub status: Status,
    /// The connection the event concerns.
    pub handle: ConnHandle,
}

impl View for ChangeConnectionLinkKeyComplete {
    type V = ChangeConnectionLinkKeyComplete;

    open spec fn view(&self) -> ChangeConnectionLinkKeyComplete {
        *self
    }
}

impl<'de> FromHciBytes<'de> for ChangeConnectionLinkKeyComplete {
    open spec fn spec_from_hci_bytes(data: Seq<u8>) -> Result<
        (ChangeConnectionLinkKeyComplete, Seq<u8>),
        FromHciBytesError,
    > {
        match Status::spec_from_hci_bytes(data) {
            Err(e) => Err(e),
            Ok((status, data)) => match ConnHandle::spec_from_hci_bytes(data) {
                Err(e) => Err(e),
                Ok((handle, data)) =>
                    Ok((ChangeConnectionLinkKeyComplete { status, handle }, data)),
            },
        }
    }

    fn from_hci_bytes(data: &'de [u8]) -> (r: Result<(Self, &'de [u8]), FromHciBytesError>) {
        let (status, data) = match Status::from_hci_bytes(data) {
            Ok(v) => v,
            Err(e) => return Err(e),
        };
        let (handle, data) = match ConnHandle::from_hci_bytes(data) {
            Ok(v) => v,
            Err(e) => return Err(e),
        };
        Ok((ChangeConnectionLinkKeyComplete { status, handle }, data))
    }
}

impl<'a> EventParams<'a> for ChangeConnectionLinkKeyComplete {
    const EVENT_CODE: u8 = 0x09;
}

/// The parameters of the Link Key Type Changed event (code 0x0a).
#[derive(Debug, Clone, Copy, Hash)]
pub struct LinkKeyTypeChanged {
    /// The status of the operation that the event reports.
    pub status: Status,
    /// The connection the event concerns.
    pub handle: ConnHandle,
    /// Which link key the connection now uses.
    pub key_flag: KeyFlag,
}

impl View for LinkKeyTypeChanged {
    type V = LinkKeyTypeChanged;

    open spec fn view(&self) -> LinkKeyTypeChanged {
        *self
    }
}

impl<'de> FromHciBytes<'de> for LinkKeyTypeChanged {
    open spec fn spec_from_hci_bytes(data: Seq<u8>) -> Result<
        (LinkKeyTypeChanged, Seq<u8>),
        FromHciBytesError,
    > {
        match Status::spec_from_hci_bytes(data) {
            Err(e) => Err(e),
            Ok((status, data)) => match ConnHandle::spec_from_hci_bytes(data) {
                Err(e) => Err(e),
                Ok((handle, data)) => match KeyFlag::spec_from_hci_bytes(data) {
                    Err(e) => Err(e),
                    Ok((key_flag, data)) =>
                        Ok((LinkKeyTypeChanged { status, handle, key_flag }, data)),
                },
            },
        }
    }

    fn from_hci_bytes(data: &'de [u8]) -> (r: Result<(Self, &'de [u8]), FromHciBytesError>) {
        let (status, data) = match Status::from_hci_bytes(data) {
            Ok(v) => v,
            Err(e) => return Err(e),
        };
        let (handle, data) = match ConnHandle::from_hci_bytes(data) {
            Ok(v) => v,
            Err(e) => return Err(e),
        };
        let (key_flag, data) = match KeyFlag::from_hci_bytes(data) {
            Ok(v) => v,
            Err(e) => return Err(e),
        };
        Ok((LinkKeyTypeChanged { status, handle, key_flag }, data))
    }
}

impl<'a> EventParams<'a> for LinkKeyTypeChanged {
    const EVENT_CODE: u8 = 0x0a;
}

/// The parameters of the Read Remote Supported Features Complete event (code 0x0b).
#[derive(Debug, Clone, Copy, Hash)]
pub struct ReadRemoteSupportedFeaturesComplete {
    /// The status of the operation that the event reports.
    pub status: Status,
    /// The connection the event concerns.
    pub handle: ConnHandle,
    /// The LMP features of the remote device.
    pub lmp_features: LmpFeatureMask,
}

impl View for ReadRemoteSupportedFeaturesComplete {
    type V = ReadRemoteSupportedFeaturesComplete;

    open spec fn view(&self) -> ReadRemoteSupportedFeaturesComplete {
        *self
    }
}

impl<'de> FromHciBytes<'de> for ReadRemoteSupportedFeaturesComplete {
    open spec fn spec_from_hci_bytes(data: Seq<u8>) -> Result<
        (ReadRemoteSupportedFeaturesComplete, Seq<u8>),
        FromHciBytesError,
    > {
        match Status::spec_from_hci_bytes(data) {
            Err(e) => Err(e),
            Ok((status, data)) => match ConnHandle::spec_from_hci_bytes(data) {
                Err(e) => Err(e),
                Ok((handle, data)) => match LmpFeatureMask::spec_from_hci_bytes(data) {
                    Err(e) => Err(e),
                    Ok((lmp_features, data)) =>
                        Ok(
                            (
                                ReadRemoteSupportedFeaturesComplete {
                                    status,
                                    handle,
                                    lmp_features,
                                },
                                data,
                            ),
                        ),
                },
            },
        }
    }

    fn from_hci_bytes(data: &'de [u8]) -> (r: Result<(Self, &'de [u8]), FromHciBytesError>) {
        let (status, data) = match Status::from_hci_bytes(data) {
            Ok(v) => v,
            Err(e) => return Err(e),
        };
        let (handle, data) = match ConnHandle::from_hci_bytes(data) {
            Ok(v) => v,
            Err(e) => return Err(e),
        };
        let (lmp_features, data) = match LmpFeatureMask::from_hci_bytes(data) {
            Ok(v) => v,
            Err(e) => return Err(e),
        };
        Ok((ReadRemoteSupportedFeaturesComplete { status, handle, lmp_features }, data))
    }
}

impl<'a> EventParams<'a> for ReadRemoteSupportedFeaturesComplete {
    const EVENT_CODE: u8 = 0x0b;
}

/// The parameters of the Max Slots Change event (code 0x1b).
#[derive(Debug, Clone, Copy, Hash)]
pub struct MaxSlotsChange {
    /// The connection the event concerns.
    pub handle: ConnHandle,
    /// The largest number of slots a packet may take.
    pub lmp_max_slots: LmpMaxSlots,
}

impl View for MaxSlotsChange {
    type V = MaxSlotsChange;

    open spec fn view(&self) -> MaxSlotsChange {
        *self
    }
}

impl<'de> FromHciBytes<'de> for MaxSlotsChange {
    open spec fn spec_from_hci_bytes(data: Seq<u8>) -> Result<
        (MaxSlotsChange, Seq<u8>),
        FromHciBytesError,
    > {
        match ConnHandle::spec_from_hci_bytes(data) {
            Err(e) => Err(e),
            Ok((handle, data)) => match LmpMaxSlots::spec_from_hci_bytes(data) {
                Err(e) => Err(e),
                Ok((lmp_max_slots, data)) => Ok((MaxSlotsChange { handle, lmp_max_slots }, data)),
            },
        }
    }

    fn from_hci_bytes(data: &'de [u8]) -> (r: Result<(Self, &'de [u8]), FromHciBytesError>) {
        let (handle, data) = match ConnHandle::from_hci_bytes(data) {
            Ok(v) => v,
            Err(e) => return Err(e),
        };
        let (lmp_max_slots, data) = match LmpMaxSlots::from_hci_bytes(data) {
            Ok(v) => v,
            Err(e) => return Err(e),
        };
        Ok((MaxSlotsChange { handle, lmp_max_slots }, data))
    }
}

impl<'a> EventParams<'a> for MaxSlotsChange {
    const EVENT_CODE: u8 = 0x1b;
}

/// The parameters of the Read Clock Offset Complete event (code 0x1c).
#[derive(Debug, Clone, Copy, Hash)]
pub struct ReadClockOffsetComplete {
    /// The status of the operation that the event reports.
    pub status: Status,
    /// The connection the event concerns.
    pub handle: ConnHandle,
    /// The clock offset of the remote device.
    pub clock_offset: ClockOffset,
}

impl View for ReadClockOffsetComplete {
    type V = ReadClockOffsetComplete;

    open spec fn view(&self) -> ReadClockOffsetComplete {
        *self
    }
}

impl<'de> FromHciBytes<'de> for ReadClockOffsetComplete {
    open spec fn spec_from_hci_bytes(data: Seq<u8>) -> Result<
        (ReadClockOffsetComplete, Seq<u8>),
        FromHciBytesError,
    > {
        match Status::spec_from_hci_bytes(data) {
            Err(e) => Err(e),
            Ok((status, data)) => match ConnHandle::spec_from_hci_bytes(data) {
                Err(e) => Err(e),
                Ok((handle, data)) => match ClockOffset::spec_from_hci_bytes(data) {
                    Err(e) => Err(e),
                    Ok((clock_offset, data)) =>
                        Ok((ReadClockOffsetComplete { status, handle, clock_offset }, data)),
                },
            },
        }
    }

    fn from_hci_bytes(data: &'de [u8]) -> (r: Result<(Self, &'de [u8]), FromHciBytesError>) {
        let (status, data) = match Status::from_hci_bytes(data) {
            Ok(v) => v,
            Err(e) => return Err(e),
        };
        let (handle, data) = match ConnHandle::from_hci_bytes(data) {
            Ok(v) => v,
            Err(e) => return Err(e),
        };
        let (clock_offset, data) = match ClockOffset::from_hci_bytes(data) {
            Ok(v) => v,
            Err(e) => return Err(e),
        };
        Ok((ReadClockOffsetComplete { status, handle, clock_offset }, data))
    }
}

impl<'a> EventParams<'a> for ReadClockOffsetComplete {
    const EVENT_CODE: u8 = 0x1c;
}

/// The parameters of the Connection Packet Type Changed event (code 0x1d).
#[derive(Debug, Clone, Copy, Hash)]
pub struct ConnectionPacketTypeChanged {
    /// The status of the operation that the event reports.
    pub status: Status,
    /// The connection the event concerns.
    pub handle: ConnHandle,
    /// The packet types the connection may use.
    pub packet_type: PacketType,
}

impl View for ConnectionPacketTypeChanged {
    type V = ConnectionPacketTypeChanged;

    open spec fn view(&self) -> ConnectionPacketTypeChanged {
        *self
    }
}

impl<'de> FromHciBytes<'de> for ConnectionPacketTypeChanged {
    open spec fn spec_from_hci_bytes(data: Seq<u8>) -> Result<
        (ConnectionPacketTypeChanged, Seq<u8>),
        FromHciBytesError,
    > {
        match Status::spec_from_hci_bytes(data) {
            Err(e) => Err(e),
            Ok((status, data)) => match ConnHandle::spec_from_hci_bytes(data) {
                Err(e) => Err(e),
                Ok((handle, data)) => match PacketType::spec_from_hci_bytes(data) {
                    Err(e) => Err(e),
                    Ok((packet_type, data)) =>
                        Ok((ConnectionPacketTypeChanged { status, handle, packet_type }, data)),
                },
            },
        }
    }

    fn from_hci_bytes(data: &'de [u8]) -> (r: Result<(Self, &'de [u8]), FromHciBytesError>) {
        let (status, data) = match Status::from_hci_bytes(data) {
            Ok(v) => v,
            Err(e) => return Err(e),
        };
        let (handle, data) = match ConnHandle::from_hci_bytes(data) {
            Ok(v) => v,
            Err(e) => return Err(e),
        };
        let (packet_type, data) = match PacketType::from_hci_bytes(data) {
            Ok(v) => v,
            Err(e) => return Err(e),
        };
        Ok((ConnectionPacketTypeChanged { status, handle, packet_type }, data))
    }
}

impl<'a> EventParams<'a> for ConnectionPacketTypeChanged {
    const EVENT_CODE: u8 = 0x1d;
}

/// The parameters of the QoS Violation event (code 0x1e).
#[derive(Debug, Clone, Copy, Hash)]
pub struct QosViolation {
    /// The connection the event concerns.
    pub handle: ConnHandle,
}

impl View for QosViolation {
    type V = QosViolation;

    open spec fn view(&self) -> QosViolation {
        *self
    }
}

impl<'de> FromHciBytes<'de> for QosViolation {
    open spec fn spec_from_hci_bytes(data: Seq<u8>) -> Result<
        (QosViolation, Seq<u8>),
        FromHciBytesError,
    > {
        match ConnHandle::spec_from_hci_bytes(data) {
            Err(e) => Err(e),
            Ok((handle, data)) => Ok((QosViolation { handle }, data)),
        }
    }

    fn from_hci_bytes(data: &'de [u8]) -> (r: Result<(Self, &'de [u8]), FromHciBytesError>) {
        let (handle, data) = match ConnHandle::from_hci_bytes(data) {
            Ok(v) => v,
            Err(e) => return Err(e),
        };
        Ok((QosViolation { handle }, data))
    }
}

impl<'a> EventParams<'a> for QosViolation {
    const EVENT_CODE: u8 = 0x1e;
}

/// The parameters of the Page Scan Repetition Mode Change event (code 0x20).
#[derive(Debug, Clone, Copy, Hash)]
pub struct PageScanRepetitionModeChange {
    /// The address of the remote device.
    pub bd_addr: BdAddr,
    /// The page scan repetition mode of the remote device.
    pub page_scan_repetition_mode: PageScanRepetitionMode,
}

impl View for PageScanRepetitionModeChange {
    type V = PageScanRepetitionModeChange;

    open spec fn view(&self) -> PageScanRepetitionModeChange {
        *self
    }
}

impl<'de> FromHciBytes<'de> for PageScanRepetitionModeChange {
    open spec fn spec_from_hci_bytes(data: Seq<u8>) -> Result<
        (PageScanRepetitionModeChange, Seq<u8>),
        FromHciBytesError,
    > {
        match BdAddr::spec_from_hci_bytes(data) {
            Err(e) => Err(e),
            Ok((bd_addr, data)) => match PageScanRepetitionMode::spec_from_hci_bytes(data) {
                Err(e) => Err(e),
                Ok((page_scan_repetition_mode, data)) =>
                    Ok((PageScanRepetitionModeChange { bd_addr, page_scan_repetition_mode }, data)),
            },
        }
    }

    fn from_hci_bytes(data: &'de [u8]) -> (r: Result<(Self, &'de [u8]), FromHciBytesError>) {
        let (bd_addr, data) = match BdAddr::from_hci_bytes(data) {
            Ok(v) => v,
            Err(e) => return Err(e),
        };
        let (page_scan_repetition_mode, data) = match PageScanRepetitionMode::from_hci_bytes(data) {
            Ok(v) => v,
            Err(e) => return Err(e),
        };
        Ok((PageScanRepetitionModeChange { bd_addr, page_scan_repetition_mode }, data))
    }
}

impl<'a> EventParams<'a> for PageScanRepetitionModeChange {
    const EVENT_CODE: u8 = 0x20;
}

/// The parameters of the Flow Specification Complete event (code 0x21).
#[derive(Debug, Clone, Copy, Hash)]
pub struct FlowSpecificationComplete {
    /// The status of the operation that the event reports.
    pub status: Status,
    /// The connection the event concerns.
    pub handle: ConnHandle,
    /// An unused byte.
    pub unused: u8,
    /// The direction of the flow.
    pub flow_direction: FlowDirection,
    /// The service type of the flow.
    pub service_type: ServiceType,
    /// The token rate, in bytes per second.
    pub token_rate: u32,
    /// The token bucket size, in bytes.
    pub token_bucket_size: u32,
    /// The peak bandwidth, in bytes per second.
    pub peak_bandwidth: u32,
    /// The access latency, in microseconds.
    pub access_latency: u32,
}

impl View for FlowSpecificationComplete {
    type V = FlowSpecificationComplete;

    open spec fn view(&self) -> FlowSpecificationComplete {
        *self
    }
}

impl<'de> FromHciBytes<'de> for FlowSpecificationComplete {
    open spec fn spec_from_hci_bytes(data: Seq<u8>) -> Result<
        (FlowSpecificationComplete, Seq<u8>),
        FromHciBytesError,
    > {
        match Status::spec_from_hci_bytes(data) {
            Err(e) => Err(e),
            Ok((status, data)) => match ConnHandle::spec_from_hci_bytes(data) {
                Err(e) => Err(e),
                Ok((handle, data)) => match u8::spec_from_hci_bytes(data) {
                    Err(e) => Err(e),
                    Ok((unused, data)) => match FlowDirection::spec_from_hci_bytes(data) {
                        Err(e) => Err(e),
                        Ok((flow_direction, data)) => match ServiceType::spec_from_hci_bytes(data) {
                            Err(e) => Err(e),
                            Ok((service_type, data)) => match u32::spec_from_hci_bytes(data) {
                                Err(e) => Err(e),
                                Ok((token_rate, data)) => match u32::spec_from_hci_bytes(data) {
                                    Err(e) => Err(e),
                                    Ok((token_bucket_size, data)) => match u32::spec_from_hci_bytes(data) {
                                        Err(e) => Err(e),
                                        Ok((peak_bandwidth, data)) => match u32::spec_from_hci_bytes(data) {
                                            Err(e) => Err(e),
                                            Ok((access_latency, data)) =>
                                                Ok(
                                                    (
                                                        FlowSpecificationComplete {
                                                            status,
                                                            handle,
                                                            unused,
                                                            flow_direction,
                                                            service_type,
                                                            token_rate,
                                                            token_bucket_size,
                                                            peak_bandwidth,
                                                            access_latency,
                                                        },
                                                        data,
                                                    ),
                                                ),
                                        },
                                    },
                                },
                            },
                        },
                    },
                },
            },
        }
    }

    fn from_hci_bytes(data: &'de [u8]) -> (r: Result<(Self, &'de [u8]), FromHciBytesError>) {
        let (status, data) = match Status::from_hci_bytes(data) {
            Ok(v) => v,
            Err(e) => return Err(e),
        };
        let (handle, data) = match ConnHandle::from_hci_bytes(data) {
            Ok(v) => v,
            Err(e) => return Err(e),
        };
        let (unused, data) = match u8::from_hci_bytes(data) {
            Ok(v) => v,
            Err(e) => return Err(e),
        };
        let (flow_direction, data) = match FlowDirection::from_hci_bytes(data) {
            Ok(v) => v,
            Err(e) => return Err(e),
        };
        let (service_type, data) = match ServiceType::from_hci_bytes(data) {
            Ok(v) => v,
            Err(e) => return Err(e),
        };
        let (token_rate, data) = match u32::from_hci_bytes(data) {
            Ok(v) => v,
            Err(e) => return Err(e),
        };
        let (token_bucket_size, data) = match u32::from_hci_bytes(data) {
            Ok(v) => v,
            Err(e) => return Err(e),
        };
        let (peak_bandwidth, data) = match u32::from_hci_bytes(data) {
            Ok(v) => v,
            Err(e) => return Err(e),
        };
        let (access_latency, data) = match u32::from_hci_bytes(data) {
            Ok(v) => v,
            Err(e) => return Err(e),
        };
        Ok(
            (
                FlowSpecificationComplete {
                    status,
                    handle,
                    unused,
                    flow_direction,
                    service_type,
                    token_rate,
                    token_bucket_size,
                    peak_bandwidth,
                    access_latency,
                },
                data,
            ),
        )
    }
}

impl<'a> EventParams<'a> for FlowSpecificationComplete {
    const EVENT_CODE: u8 = 0x21;
}

/// The parameters of the Read Remote Extended Features Complete event (code 0x23).
#[derive(Debug, Clone, Copy, Hash)]
pub struct ReadRemoteExtendedFeaturesComplete {
    /// The status of the operation that the event reports.
    pub status: Status,
    /// The connection the event concerns.
    pub handle: ConnHandle,
    /// The page of features that the event carries.
    pub page_number: u8,
    /// The highest page of features the remote device has.
    pub max_page_number: u8,
    /// The LMP features of the remote device.
    pub lmp_features: LmpFeatureMask,
}

impl View for ReadRemoteExtendedFeaturesComplete {
    type V = ReadRemoteExtendedFeaturesComplete;

    open spec fn view(&self) -> ReadRemoteExtendedFeaturesComplete {
        *self
    }
}

impl<'de> FromHciBytes<'de> for ReadRemoteExtendedFeaturesComplete {
    open spec fn spec_from_hci_bytes(data: Seq<u8>) -> Result<
        (ReadRemoteExtendedFeaturesComplete, Seq<u8>),
        FromHciBytesError,
    > {
        match Status::spec_from_hci_bytes(data) {
            Err(e) => Err(e),
            Ok((status, data)) => match ConnHandle::spec_from_hci_bytes(data) {
                Err(e) => Err(e),
                Ok((handle, data)) => match u8::spec_from_hci_bytes(data) {
                    Err(e) => Err(e),
                    Ok((page_number, data)) => match u8::spec_from_hci_bytes(data) {
                        Err(e) => Err(e),
                        Ok((max_page_number, data)) => match LmpFeatureMask::spec_from_hci_bytes(data) {
                            Err(e) => Err(e),
                            Ok((lmp_features, data)) =>
                                Ok(
                                    (
                                        ReadRemoteExtendedFeaturesComplete {
                                            status,
                                            handle,
                                            page_number,
                                            max_page_number,
                                            lmp_features,
                                        },
                                        data,
                                    ),
                                ),
                        },
                    },
                },
            },
        }
    }

    fn from_hci_bytes(data: &'de [u8]) -> (r: Result<(Self, &'de [u8]), FromHciBytesError>) {
        let (status, data) = match Status::from_hci_bytes(data) {
            Ok(v) => v,
            Err(e) => return Err(e),
        };
        let (handle, data) = match ConnHandle::from_hci_bytes(data) {
            Ok(v) => v,
            Err(e) => return Err(e),
        };
        let (page_number, data) = match u8::from_hci_bytes(data) {
            Ok(v) => v,
            Err(e) => return Err(e),
        };
        let (max_page_number, data) = match u8::from_hci_bytes(data) {
            Ok(v) => v,
            Err(e) => return Err(e),
        };
        let (lmp_features, data) = match LmpFeatureMask::from_hci_bytes(data) {
            Ok(v) => v,
            Err(e) => return Err(e),
        };
        Ok(
            (
                ReadRemoteExtendedFeaturesComplete {
                    status,
                    handle,
                    page_number,
                    max_page_number,
                    lmp_features,
                },
                data,
            ),
        )
    }
}

impl<'a> EventParams<'a> for ReadRemoteExtendedFeaturesComplete {
    const EVENT_CODE: u8 = 0x23;
}

/// The parameters of the Synchronous Connection Complete event (code 0x2c).
#[derive(Debug, Clone, Copy, Hash)]
pub struct SynchronousConnectionComplete {
    /// The status of the operation that the event reports.
    pub status: Status,
    /// The connection the event concerns.
    pub handle: ConnHandle,
    /// The address of the remote device.
    pub bd_addr: BdAddr,
    /// The kind of link.
    pub link_type: ConnectionLinkType,
    /// The time between two transmissions, in slots.
    pub transmission_interval: u8,
    /// The size of the retransmission window, in slots.
    pub retransmission_window: u8,
    /// The length of received packets, in bytes.
    pub rx_packet_length: u16,
    /// The length of transmitted packets, in bytes.
    pub tx_packet_length: u16,
    /// The air coding format.
    pub air_mode: u8,
}

impl View for SynchronousConnectionComplete {
    type V = SynchronousConnectionComplete;

    open spec fn view(&self) -> SynchronousConnectionComplete {
        *self
    }
}

impl<'de> FromHciBytes<'de> for SynchronousConnectionComplete {
    open spec fn spec_from_hci_bytes(data: Seq<u8>) -> Result<
        (SynchronousConnectionComplete, Seq<u8>),
        FromHciBytesError,
    > {
        match Status::spec_from_hci_bytes(data) {
            Err(e) => Err(e),
            Ok((status, data)) => match ConnHandle::spec_from_hci_bytes(data) {
                Err(e) => Err(e),
                Ok((handle, data)) => match BdAddr::spec_from_hci_bytes(data) {
                    Err(e) => Err(e),
                    Ok((bd_addr, data)) => match ConnectionLinkType::spec_from_hci_bytes(data) {
                        Err(e) => Err(e),
                        Ok((link_type, data)) => match u8::spec_from_hci_bytes(data) {
                            Err(e) => Err(e),
                            Ok((transmission_interval, data)) => match u8::spec_from_hci_bytes(data) {
                                Err(e) => Err(e),
                                Ok((retransmission_window, data)) => match u16::spec_from_hci_bytes(data) {
                                    Err(e) => Err(e),
                                    Ok((rx_packet_length, data)) => match u16::spec_from_hci_bytes(data) {
                                        Err(e) => Err(e),
                                        Ok((tx_packet_length, data)) => match u8::spec_from_hci_bytes(data) {
                                            Err(e) => Err(e),
                                            Ok((air_mode, data)) =>
                                                Ok(
                                                    (
                                                        SynchronousConnectionComplete {
                                                            status,
                                                            handle,
                                                            bd_addr,
                                                            link_type,
                                                            transmission_interval,
                                                            retransmission_window,
                                                            rx_packet_length,
                                                            tx_packet_length,
                                                            air_mode,
                                                        },
                                                        data,
                                                    ),
                                                ),
                                        },
                                    },
                                },
                            },
                        },
                    },
                },
            },
        }
    }

    fn from_hci_bytes(data: &'de [u8]) -> (r: Result<(Self, &'de [u8]), FromHciBytesError>) {
        let (status, data) = match Status::from_hci_bytes(data) {
            Ok(v) => v,
            Err(e) => return Err(e),
        };
        let (handle, data) = match ConnHandle::from_hci_bytes(data) {
            Ok(v) => v,
            Err(e) => return Err(e),
        };
        let (bd_addr, data) = match BdAddr::from_hci_bytes(data) {
            Ok(v) => v,
            Err(e) => return Err(e),
        };
        let (link_type, data) = match ConnectionLinkType::from_hci_bytes(data) {
            Ok(v) => v,
            Err(e) => return Err(e),
        };
        let (transmission_interval, data) = match u8::from_hci_bytes(data) {
            Ok(v) => v,
            Err(e) => return Err(e),
        };
        let (retransmission_window, data) = match u8::from_hci_bytes(data) {
            Ok(v) => v,
            Err(e) => return Err(e),
        };
        let (rx_packet_length, data) = match u16::from_hci_bytes(data) {
            Ok(v) => v,
            Err(e) => return Err(e),
        };
        let (tx_packet_length, data) = match u16::from_hci_bytes(data) {
            Ok(v) => v,
            Err(e) => return Err(e),
        };
        let (air_mode, data) = match u8::from_hci_bytes(data) {
            Ok(v) => v,
            Err(e) => return Err(e),
        };
        Ok(
            (
                SynchronousConnectionComplete {
                    status,
                    handle,
                    bd_addr,
                    link_type,
                    transmission_interval,
                    retransmission_window,
                    rx_packet_length,
                    tx_packet_length,
                    air_mode,
                },
                data,
            ),
        )
    }
}

impl<'a> EventParams<'a> for SynchronousConnectionComplete {
    const EVENT_CODE: u8 = 0x2c;
}

/// The parameters of the Synchronous Connection Changed event (code 0x2d).
#[derive(Debug, Clone, Copy, Hash)]
pub struct SynchronousConnectionChanged {
    /// The status of the operation that the event reports.
    pub status: Status,
    /// The connection the event concerns.
    pub handle: ConnHandle,
    /// The time between two transmissions, in slots.
    pub transmission_interval: u8,
    /// The size of the retransmission window, in slots.
    pub retransmission_window: u8,
    /// The length of received packets, in bytes.
    pub rx_packet_length: u16,
    /// The length of transmitted packets, in bytes.
    pub tx_packet_length: u16,
}

impl View for SynchronousConnectionChanged {
    type V = SynchronousConnectionChanged;

    open spec fn view(&self) -> SynchronousConnectionChanged {
        *self
    }
}

impl<'de> FromHciBytes<'de> for SynchronousConnectionChanged {
    open spec fn spec_from_hci_bytes(data: Seq<u8>) -> Result<
        (SynchronousConnectionChanged, Seq<u8>),
        FromHciBytesError,
    > {
        match Status::spec_from_hci_bytes(data) {
            Err(e) => Err(e),
            Ok((status, data)) => match ConnHandle::spec_from_hci_bytes(data) {
                Err(e) => Err(e),
                Ok((handle, data)) => match u8::spec_from_hci_bytes(data) {
                    Err(e) => Err(e),
                    Ok((transmission_interval, data)) => match u8::spec_from_hci_bytes(data) {
                        Err(e) => Err(e),
                        Ok((retransmission_window, data)) => match u16::spec_from_hci_bytes(data) {
                            Err(e) => Err(e),
                            Ok((rx_packet_length, data)) => match u16::spec_from_hci_bytes(data) {
                                Err(e) => Err(e),
                                Ok((tx_packet_length, data)) =>
                                    Ok(
                                        (
                                            SynchronousConnectionChanged {
                                                status,
                                                handle,
                                                transmission_interval,
                                                retransmission_window,
                                                rx_packet_length,
                                                tx_packet_length,
                                            },
                                            data,
                                        ),
                                    ),
                            },
                        },
                    },
                },
            },
        }
    }

    fn from_hci_bytes(data: &'de [u8]) -> (r: Result<(Self, &'de [u8]), FromHciBytesError>) {
        let (status, data) = match Status::from_hci_bytes(data) {
            Ok(v) => v,
            Err(e) => return Err(e),
        };
        let (handle, data) = match ConnHandle::from_hci_bytes(data) {
            Ok(v) => v,
            Err(e) => return Err(e),
        };
        let (transmission_interval, data) = match u8::from_hci_bytes(data) {
            Ok(v) => v,
            Err(e) => return Err(e),
        };
        let (retransmission_window, data) = match u8::from_hci_bytes(data) {
            Ok(v) => v,
            Err(e) => return Err(e),
        };
        let (rx_packet_length, data) = match u16::from_hci_bytes(data) {
            Ok(v) => v,
            Err(e) => return Err(e),
        };
        let (tx_packet_length, data) = match u16::from_hci_bytes(data) {
            Ok(v) => v,
            Err(e) => return Err(e),
        };
        Ok(
            (
                SynchronousConnectionChanged {
                    status,
                    handle,
                    transmission_interval,
                    retransmission_window,
                    rx_packet_length,
                    tx_packet_length,
                },
                data,
            ),
        )
    }
}

impl<'a> EventParams<'a> for SynchronousConnectionChanged {
    const EVENT_CODE: u8 = 0x2d;
}

/// The parameters of the Sniff Subrating event (code 0x2e).
#[derive(Debug, Clone, Copy, Hash)]
pub struct SniffSubrating {
    /// The connection the event concerns.
    pub handle: ConnHandle,
    /// The largest transmit latency, in slots.
    pub max_tx_latency: u16,
    /// The largest receive latency, in slots.
    pub max_rx_latency: u16,
    /// The smallest sniff subrate timeout of the remote device, in slots.
    pub min_remote_timeout: u16,
    /// The smallest local sniff subrate timeout, in slots.
    pub min_local_timeout: u16,
}

impl View for SniffSubrating {
    type V = SniffSubrating;

    open spec fn view(&self) -> SniffSubrating {
        *self
    }
}

impl<'de> FromHciBytes<'de> for SniffSubrating {
    open spec fn spec_from_hci_bytes(data: Seq<u8>) -> Result<
        (SniffSubrating, Seq<u8>),
        FromHciBytesError,
    > {
        match ConnHandle::spec_from_hci_bytes(data) {
            Err(e) => Err(e),
            Ok((handle, data)) => match u16::spec_from_hci_bytes(data) {
                Err(e) => Err(e),
                Ok((max_tx_latency, data)) => match u16::spec_from_hci_bytes(data) {
                    Err(e) => Err(e),
                    Ok((max_rx_latency, data)) => match u16::spec_from_hci_bytes(data) {
                        Err(e) => Err(e),
                        Ok((min_remote_timeout, data)) => match u16::spec_from_hci_bytes(data) {
                            Err(e) => Err(e),
                            Ok((min_local_timeout, data)) =>
                                Ok(
                                    (
                                        SniffSubrating {
                                            handle,
                                            max_tx_latency,
                                            max_rx_latency,
                                            min_remote_timeout,
                                            min_local_timeout,
                                        },
                                        data,
                                    ),
                                ),
                        },
                    },
                },
            },
        }
    }

    fn from_hci_bytes(data: &'de [u8]) -> (r: Result<(Self, &'de [u8]), FromHciBytesError>) {
        let (handle, data) = match ConnHandle::from_hci_bytes(data) {
            Ok(v) => v,
            Err(e) => return Err(e),
        };
        let (max_tx_latency, data) = match u16::from_hci_bytes(data) {
            Ok(v) => v,
            Err(e) => return Err(e),
        };
        let (max_rx_latency, data) = match u16::from_hci_bytes(data) {
            Ok(v) => v,
            Err(e) => return Err(e),
        };
        let (min_remote_timeout, data) = match u16::from_hci_bytes(data) {
            Ok(v) => v,
            Err(e) => return Err(e),
        };
        let (min_local_timeout, data) = match u16::from_hci_bytes(data) {
            Ok(v) => v,
            Err(e) => return Err(e),
        };
        Ok(
            (
                SniffSubrating {
                    handle,
                    max_tx_latency,
                    max_rx_latency,
                    min_remote_timeout,
                    min_local_timeout,
                },
                data,
            ),
        )
    }
}

impl<'a> EventParams<'a> for SniffSubrating {
    const EVENT_CODE: u8 = 0x2e;
}

/// The parameters of the IO Capability Request event (code 0x31).
#[derive(Debug, Clone, Copy, Hash)]
pub struct IoCapabilityRequest {
    /// The address of the remote device.
    pub bd_addr: BdAddr,
}

impl View for IoCapabilityRequest {
    type V = IoCapabilityRequest;

    open spec fn view(&self) -> IoCapabilityRequest {
        *self
    }
}

impl<'de> FromHciBytes<'de> for IoCapabilityRequest {
    open spec fn spec_from_hci_bytes(data: Seq<u8>) -> Result<
        (IoCapabilityRequest, Seq<u8>),
        FromHciBytesError,
    > {
        match BdAddr::spec_from_hci_bytes(data) {
            Err(e) => Err(e),
            Ok((bd_addr, data)) => Ok((IoCapabilityRequest { bd_addr }, data)),
        }
    }

    fn from_hci_bytes(data: &'de [u8]) -> (r: Result<(Self, &'de [u8]), FromHciBytesError>) {
        let (bd_addr, data) = match BdAddr::from_hci_bytes(data) {
            Ok(v) => v,
            Err(e) => return Err(e),
        };
        Ok((IoCapabilityRequest { bd_addr }, data))
    }
}

impl<'a> EventParams<'a> for IoCapabilityRequest {
    const EVENT_CODE: u8 = 0x31;
}

/// The parameters of the IO Capability Response event (code 0x32).
#[derive(Debug, Clone, Copy, Hash)]
pub struct IoCapabilityResponse {
    /// The address of the remote device.
    pub bd_addr: BdAddr,
    /// The input and output capability of the remote device.
    pub io_capability: IoCapability,
    /// Which out-of-band data the remote device holds.
    pub oob_data_present: OobDataPresent,
    /// The authentication the remote device asks for.
    pub authentication_requirements: AuthenticationRequirements,
}

impl View for IoCapabilityResponse {
    type V = IoCapabilityResponse;

    open spec fn view(&self) -> IoCapabilityResponse {
        *self
    }
}

impl<'de> FromHciBytes<'de> for IoCapabilityResponse {
    open spec fn spec_from_hci_bytes(data: Seq<u8>) -> Result<
        (IoCapabilityResponse, Seq<u8>),
        FromHciBytesError,
    > {
        match BdAddr::spec_from_hci_bytes(data) {
            Err(e) => Err(e),
            Ok((bd_addr, data)) => match IoCapability::spec_from_hci_bytes(data) {
                Err(e) => Err(e),
                Ok((io_capability, data)) => match OobDataPresent::spec_from_hci_bytes(data) {
                    Err(e) => Err(e),
                    Ok((oob_data_present, data)) => match AuthenticationRequirements::spec_from_hci_bytes(data) {
                        Err(e) => Err(e),
                        Ok((authentication_requirements, data)) =>
                            Ok(
                                (
                                    IoCapabilityResponse {
                                        bd_addr,
                                        io_capability,
                                        oob_data_present,
                                        authentication_requirements,
                                    },
                                    data,
                                ),
                            ),
                    },
                },
            },
        }
    }

    fn from_hci_bytes(data: &'de [u8]) -> (r: Result<(Self, &'de [u8]), FromHciBytesError>) {
        let (bd_addr, data) = match BdAddr::from_hci_bytes(data) {
            Ok(v) => v,
            Err(e) => return Err(e),
        };
        let (io_capability, data) = match IoCapability::from_hci_bytes(data) {
            Ok(v) => v,
            Err(e) => return Err(e),
        };
        let (oob_data_present, data) = match OobDataPresent::from_hci_bytes(data) {
            Ok(v) => v,
            Err(e) => return Err(e),
        };
        let (authentication_requirements, data) = match AuthenticationRequirements::from_hci_bytes(data) {
            Ok(v) => v,
            Err(e) => return Err(e),
        };
        Ok(
            (
                IoCapabilityResponse {
                    bd_addr,
                    io_capability,
                    oob_data_present,
                    authentication_requirements,
                },
                data,
            ),
        )
    }
}

impl<'a> EventParams<'a> for IoCapabilityResponse {
    const EVENT_CODE: u8 = 0x32;
}

/// The parameters of the User Confirmation Request event (code 0x33).
#[derive(Debug, Clone, Copy, Hash)]
pub struct UserConfirmationRequest {
    /// The address of the remote device.
    pub bd_addr: BdAddr,
    /// The value to confirm.
    pub numeric_value: u32,
}

impl View for UserConfirmationRequest {
    type V = UserConfirmationRequest;

    open spec fn view(&self) -> UserConfirmationRequest {
        *self
    }
}

impl<'de> FromHciBytes<'de> for UserConfirmationRequest {
    open spec fn spec_from_hci_bytes(data: Seq<u8>) -> Result<
        (UserConfirmationRequest, Seq<u8>),
        FromHciBytesError,
    > {
        match BdAddr::spec_from_hci_bytes(data) {
            Err(e) => Err(e),
            Ok((bd_addr, data)) => match u32::spec_from_hci_bytes(data) {
                Err(e) => Err(e),
                Ok((numeric_value, data)) =>
                    Ok((UserConfirmationRequest { bd_addr, numeric_value }, data)),
            },
        }
    }

    fn from_hci_bytes(data: &'de [u8]) -> (r: Result<(Self, &'de [u8]), FromHciBytesError>) {
        let (bd_addr, data) = match BdAddr::from_hci_bytes(data) {
            Ok(v) => v,
            Err(e) => return Err(e),
        };
        let (numeric_value, data) = match u32::from_hci_bytes(data) {
            Ok(v) => v,
            Err(e) => return Err(e),
        };
        Ok((UserConfirmationRequest { bd_addr, numeric_value }, data))
    }
}

impl<'a> EventParams<'a> for UserConfirmationRequest {
    const EVENT_CODE: u8 = 0x33;
}

/// The parameters of the User Passkey Request event (code 0x34).
#[derive(Debug, Clone, Copy, Hash)]
pub struct UserPasskeyRequest {
    /// The address of the remote device.
    pub bd_addr: BdAddr,
}

impl View for UserPasskeyRequest {
    type V = UserPasskeyRequest;

    open spec fn view(&self) -> UserPasskeyRequest {
        *self
    }
}

impl<'de> FromHciBytes<'de> for UserPasskeyRequest {
    open spec fn spec_from_hci_bytes(data: Seq<u8>) -> Result<
        (UserPasskeyRequest, Seq<u8>),
        FromHciBytesError,
    > {
        match BdAddr::spec_from_hci_bytes(data) {
            Err(e) => Err(e),
            Ok((bd_addr, data)) => Ok((UserPasskeyRequest { bd_addr }, data)),
        }
    }

    fn from_hci_bytes(data: &'de [u8]) -> (r: Result<(Self, &'de [u8]), FromHciBytesError>) {
        let (bd_addr, data) = match BdAddr::from_hci_bytes(data) {
            Ok(v) => v,
            Err(e) => return Err(e),
        };
        Ok((UserPasskeyRequest { bd_addr }, data))
    }
}

impl<'a> EventParams<'a> for UserPasskeyRequest {
    const EVENT_CODE: u8 = 0x34;
}

/// The parameters of the Remote OOB Data Request event (code 0x35).
#[derive(Debug, Clone, Copy, Hash)]
pub struct RemoteOobDataRequest {
    /// The address of the remote device.
    pub bd_addr: BdAddr,
}

impl View for RemoteOobDataRequest {
    type V = RemoteOobDataRequest;

    open spec fn view(&self) -> RemoteOobDataRequest {
        *self
    }
}

impl<'de> FromHciBytes<'de> for RemoteOobDataRequest {
    open spec fn spec_from_hci_bytes(data: Seq<u8>) -> Result<
        (RemoteOobDataRequest, Seq<u8>),
        FromHciBytesError,
    > {
        match BdAddr::spec_from_hci_bytes(data) {
            Err(e) => Err(e),
            Ok((bd_addr, data)) => Ok((RemoteOobDataRequest { bd_addr }, data)),
        }
    }

    fn from_hci_bytes(data: &'de [u8]) -> (r: Result<(Self, &'de [u8]), FromHciBytesError>) {
        let (bd_addr, data) = match BdAddr::from_hci_bytes(data) {
            Ok(v) => v,
            Err(e) => return Err(e),
        };
        Ok((RemoteOobDataRequest { bd_addr }, data))
    }
}

impl<'a> EventParams<'a> for RemoteOobDataRequest {
    const EVENT_CODE: u8 = 0x35;
}

/// The parameters of the Simple Pairing Complete event (code 0x36).
#[derive(Debug, Clone, Copy, Hash)]
pub struct SimplePairingComplete {
    /// The status of the operation that the event reports.
    pub status: Status,
    /// The address of the remote device.
    pub bd_addr: BdAddr,
}

impl View for SimplePairingComplete {
    type V = SimplePairingComplete;

    open spec fn view(&self) -> SimplePairingComplete {
        *self
    }
}

impl<'de> FromHciBytes<'de> for SimplePairingComplete {
    open spec fn spec_from_hci_bytes(data: Seq<u8>) -> Result<
        (SimplePairingComplete, Seq<u8>),
        FromHciBytesError,
    > {
        match Status::spec_from_hci_bytes(data) {
            Err(e) => Err(e),
            Ok((status, data)) => match BdAddr::spec_from_hci_bytes(data) {
                Err(e) => Err(e),
                Ok((bd_addr, data)) => Ok((SimplePairingComplete { status, bd_addr }, data)),
            },
        }
    }

    fn from_hci_bytes(data: &'de [u8]) -> (r: Result<(Self, &'de [u8]), FromHciBytesError>) {
        let (status, data) = match Status::from_hci_bytes(data) {
            Ok(v) => v,
            Err(e) => return Err(e),
        };
        let (bd_addr, data) = match BdAddr::from_hci_bytes(data) {
            Ok(v) => v,
            Err(e) => return Err(e),
        };
        Ok((SimplePairingComplete { status, bd_addr }, data))
    }
}

impl<'a> EventParams<'a> for SimplePairingComplete {
    const EVENT_CODE: u8 = 0x36;
}

/// The parameters of the User Passkey Notification event (code 0x3b).
#[derive(Debug, Clone, Copy, Hash)]
pub struct UserPasskeyNotification {
    /// The address of the remote device.
    pub bd_addr: BdAddr,
    /// The passkey to show.
    pub passkey: u32,
}

impl View for UserPasskeyNotification {
    type V = UserPasskeyNotification;

    open spec fn view(&self) -> UserPasskeyNotification {
        *self
    }
}

impl<'de> FromHciBytes<'de> for UserPasskeyNotification {
    open spec fn spec_from_hci_bytes(data: Seq<u8>) -> Result<
        (UserPasskeyNotification, Seq<u8>),
        FromHciBytesError,
    > {
        match BdAddr::spec_from_hci_bytes(data) {
            Err(e) => Err(e),
            Ok((bd_addr, data)) => match u32::spec_from_hci_bytes(data) {
                Err(e) => Err(e),
                Ok((passkey, data)) => Ok((UserPasskeyNotification { bd_addr, passkey }, data)),
            },
        }
    }

    fn from_hci_bytes(data: &'de [u8]) -> (r: Result<(Self, &'de [u8]), FromHciBytesError>) {
        let (bd_addr, data) = match BdAddr::from_hci_bytes(data) {
            Ok(v) => v,
            Err(e) => return Err(e),
        };
        let (passkey, data) = match u32::from_hci_bytes(data) {
            Ok(v) => v,
            Err(e) => return Err(e),
        };
        Ok((UserPasskeyNotification { bd_addr, passkey }, data))
    }
}

impl<'a> EventParams<'a> for UserPasskeyNotification {
    const EVENT_CODE: u8 = 0x3b;
}

/// The parameters of the Keypress Notification event (code 0x3c).
#[derive(Debug, Clone, Copy, Hash)]
pub struct KeypressNotification {
    /// The address of the remote device.
    pub bd_addr: BdAddr,
    /// What the keypress did.
    pub notification_type: NotificationType,
}

impl View for KeypressNotification {
    type V = KeypressNotification;

    open spec fn view(&self) -> KeypressNotification {
        *self
    }
}

impl<'de> FromHciBytes<'de> for KeypressNotification {
    open spec fn spec_from_hci_bytes(data: Seq<u8>) -> Result<
        (KeypressNotification, Seq<u8>),
        FromHciBytesError,
    > {
        match BdAddr::spec_from_hci_bytes(data) {
            Err(e) => Err(e),
            Ok((bd_addr, data)) => match NotificationType::spec_from_hci_bytes(data) {
                Err(e) => Err(e),
                Ok((notification_type, data)) =>
                    Ok((KeypressNotification { bd_addr, notification_type }, data)),
            },
        }
    }

    fn from_hci_bytes(data: &'de [u8]) -> (r: Result<(Self, &'de [u8]), FromHciBytesError>) {
        let (bd_addr, data) = match BdAddr::from_hci_bytes(data) {
            Ok(v) => v,
            Err(e) => return Err(e),
        };
        let (notification_type, data) = match NotificationType::from_hci_bytes(data) {
            Ok(v) => v,
            Err(e) => return Err(e),
        };
        Ok((KeypressNotification { bd_addr, notification_type }, data))
    }
}

impl<'a> EventParams<'a> for KeypressNotification {
    const EVENT_CODE: u8 = 0x3c;
}

/// The parameters of the Link Supervision Timeout Changed event (code 0x38).
#[derive(Debug, Clone, Copy, Hash)]
pub struct LinkSupervisionTimeoutChanged {
    /// The connection the event concerns.
    pub handle: ConnHandle,
    /// The link supervision timeout, in slots.
    pub link_supervision_timeout: u16,
}

impl View for LinkSupervisionTimeoutChanged {
    type V = LinkSupervisionTimeoutChanged;

    open spec fn view(&self) -> LinkSupervisionTimeoutChanged {
        *self
    }
}

impl<'de> FromHciBytes<'de> for LinkSupervisionTimeoutChanged {
    open spec fn spec_from_hci_bytes(data: Seq<u8>) -> Result<
        (LinkSupervisionTimeoutChanged, Seq<u8>),
        FromHciBytesError,
    > {
        match ConnHandle::spec_from_hci_bytes(data) {
            Err(e) => Err(e),
            Ok((handle, data)) => match u16::spec_from_hci_bytes(data) {
                Err(e) => Err(e),
                Ok((link_supervision_timeout, data)) =>
                    Ok((LinkSupervisionTimeoutChanged { handle, link_supervision_timeout }, data)),
            },
        }
    }

    fn from_hci_bytes(data: &'de [u8]) -> (r: Result<(Self, &'de [u8]), FromHciBytesError>) {
        let (handle, data) = match ConnHandle::from_hci_bytes(data) {
            Ok(v) => v,
            Err(e) => return Err(e),
        };
        let (link_supervision_timeout, data) = match u16::from_hci_bytes(data) {
            Ok(v) => v,
            Err(e) => return Err(e),
        };
        Ok((LinkSupervisionTimeoutChanged { handle, link_supervision_timeout }, data))
    }
}

impl<'a> EventParams<'a> for LinkSupervisionTimeoutChanged {
    const EVENT_CODE: u8 = 0x38;
}

/// The parameters of the Enhanced Flush Complete event (code 0x39).
#[derive(Debug, Clone, Copy, Hash)]
pub struct EnhancedFlushComplete {
    /// The connection the event concerns.
    pub handle: ConnHandle,
}

impl View for EnhancedFlushComplete {
    type V = EnhancedFlushComplete;

    open spec fn view(&self) -> EnhancedFlushComplete {
        *self
    }
}

impl<'de> FromHciBytes<'de> for EnhancedFlushComplete {
    open spec fn spec_from_hci_bytes(data: Seq<u8>) -> Result<
        (EnhancedFlushComplete, Seq<u8>),
        FromHciBytesError,
    > {
        match ConnHandle::spec_from_hci_bytes(data) {
            Err(e) => Err(e),
            Ok((handle, data)) => Ok((EnhancedFlushComplete { handle }, data)),
        }
    }

    fn from_hci_bytes(data: &'de [u8]) -> (r: Result<(Self, &'de [u8]), FromHciBytesError>) {
        let (handle, data) = match ConnHandle::from_hci_bytes(data) {
            Ok(v) => v,
            Err(e) => return Err(e),
        };
        Ok((EnhancedFlushComplete { handle }, data))
    }
}

impl<'a> EventParams<'a> for EnhancedFlushComplete {
    const EVENT_CODE: u8 = 0x39;
}

/// The parameters of the Truncated Page Complete event (code 0x50).
#[derive(Debug, Clone, Copy, Hash)]
pub struct TruncatedPageComplete {
    /// The status of the operation that the event reports.
    pub status: Status,
    /// The address of the remote device.
    pub bd_addr: BdAddr,
}

impl View for TruncatedPageComplete {
    type V = TruncatedPageComplete;

    open spec fn view(&self) -> TruncatedPageComplete {
        *self
    }
}

impl<'de> FromHciBytes<'de> for TruncatedPageComplete {
    open spec fn spec_from_hci_bytes(data: Seq<u8>) -> Result<
        (TruncatedPageComplete, Seq<u8>),
        FromHciBytesError,
    > {
        match Status::spec_from_hci_bytes(data) {
            Err(e) => Err(e),
            Ok((status, data)) => match BdAddr::spec_from_hci_bytes(data) {
                Err(e) => Err(e),
                Ok((bd_addr, data)) => Ok((TruncatedPageComplete { status, bd_addr }, data)),
            },
        }
    }

    fn from_hci_bytes(data: &'de [u8]) -> (r: Result<(Self, &'de [u8]), FromHciBytesError>) {
        let (status, data) = match Status::from_hci_bytes(data) {
            Ok(v) => v,
            Err(e) => return Err(e),
        };
        let (bd_addr, data) = match BdAddr::from_hci_bytes(data) {
            Ok(v) => v,
            Err(e) => return Err(e),
        };
        Ok((TruncatedPageComplete { status, bd_addr }, data))
    }
}

impl<'a> EventParams<'a> for TruncatedPageComplete {
    const EVENT_CODE: u8 = 0x50;
}

/// An HCI event packet, read into the parameters of its kind.
#[non_exhaustive]
#[derive(Debug, Clone, Hash)]
pub enum Event<'a> {
    /// Disconnection Complete event.
    DisconnectionComplete(DisconnectionComplete),
    /// Inquiry Result event.
    InquiryResult(InquiryResult<'a>),
    /// Extended Inquiry Result event.
    ExtendedInquiryResult(ExtendedInquiryResult<'a>),
    /// Inquiry Result with RSSI event.
    InquiryResultWithRssi(InquiryResultWithRssi<'a>),
    /// Encryption Change (v1) event.
    EncryptionChangeV1(EncryptionChangeV1),
    /// Encryption Change (v2) event.
    EncryptionChangeV2(EncryptionChangeV2),
    /// Read Remote Version Information Complete event.
    ReadRemoteVersionInformationComplete(ReadRemoteVersionInformationComplete),
    /// Command Complete event.
    CommandComplete(CommandComplete<'a>),
    /// Command Status event.
    CommandStatus(CommandStatus),
    /// Hardware Error event.
    HardwareError(HardwareError),
    /// Number Of Completed Packets event.
    NumberOfCompletedPackets(NumberOfCompletedPackets),
    /// Data Buffer Overflow event.
    DataBufferOverflow(DataBufferOverflow),
    /// Encryption Key Refresh Complete event.
    EncryptionKeyRefreshComplete(EncryptionKeyRefreshComplete),
    /// Authenticated Payload Timeout Expired event.
    AuthenticatedPayloadTimeoutExpired(AuthenticatedPayloadTimeoutExpired),
    /// Return Link Keys event.
    ReturnLinkKeys(ReturnLinkKeys<'a>),
    /// Vendor event.
    Vendor(Vendor<'a>),
    /// Remote Name Request Complete event.
    RemoteNameRequestComplete(RemoteNameRequestComplete<'a>),
    /// Remote Host Supported Features Notification event.
    RemoteHostSupportedFeaturesNotification(RemoteHostSupportedFeaturesNotification),
    /// Connection Complete event.
    ConnectionComplete(ConnectionComplete),
    /// Link Key Request event.
    LinkKeyRequest(LinkKeyRequest),
    /// PIN Code Request event.
    PinCodeRequest(PinCodeRequest),
    /// Link Key Notification event.
    LinkKeyNotification(LinkKeyNotification),
    /// Authentication Complete event.
    AuthenticationComplete(AuthenticationComplete),
    /// Inquiry Complete event.
    InquiryComplete(InquiryComplete),
    /// Connection Request event.
    ConnectionRequest(ConnectionRequest),
    /// Change Connection Link Key Complete event.
    ChangeConnectionLinkKeyComplete(ChangeConnectionLinkKeyComplete),
    /// Link Key Type Changed event.
    LinkKeyTypeChanged(LinkKeyTypeChanged),
    /// Read Remote Supported Features Complete event.
    ReadRemoteSupportedFeaturesComplete(ReadRemoteSupportedFeaturesComplete),
    /// Max Slots Change event.
    MaxSlotsChange(MaxSlotsChange),
    /// Read Clock Offset Complete event.
    ReadClockOffsetComplete(ReadClockOffsetComplete),
    /// Connection Packet Type Changed event.
    ConnectionPacketTypeChanged(ConnectionPacketTypeChanged),
    /// QoS Violation event.
    QosViolation(QosViolation),
    /// Page Scan Repetition Mode Change event.
    PageScanRepetitionModeChange(PageScanRepetitionModeChange),
    /// Flow Specification Complete event.
    FlowSpecificationComplete(FlowSpecificationComplete),
    /// Read Remote Extended Features Complete event.
    ReadRemoteExtendedFeaturesComplete(ReadRemoteExtendedFeaturesComplete),
    /// Synchronous Connection Complete event.
    SynchronousConnectionComplete(SynchronousConnectionComplete),
    /// Synchronous Connection Changed event.
    SynchronousConnectionChanged(SynchronousConnectionChanged),
    /// Sniff Subrating event.
    SniffSubrating(SniffSubrating),
    /// IO Capability Request event.
    IoCapabilityRequest(IoCapabilityRequest),
    /// IO Capability Response event.
    IoCapabilityResponse(IoCapabilityResponse),
    /// User Confirmation Request event.
    UserConfirmationRequest(UserConfirmationRequest),
    /// User Passkey Request event.
    UserPasskeyRequest(UserPasskeyRequest),
    /// Remote OOB Data Request event.
    RemoteOobDataRequest(RemoteOobDataRequest),
    /// Simple Pairing Complete event.
    SimplePairingComplete(SimplePairingComplete),
    /// User Passkey Notification event.
    UserPasskeyNotification(UserPasskeyNotification),
    /// Keypress Notification event.
    KeypressNotification(KeypressNotification),
    /// Link Supervision Timeout Changed event.
    LinkSupervisionTimeoutChanged(LinkSupervisionTimeoutChanged),
    /// Enhanced Flush Complete event.
    EnhancedFlushComplete(EnhancedFlushComplete),
    /// Truncated Page Complete event.
    TruncatedPageComplete(TruncatedPageComplete),
    /// An LE Meta event.
    Le(LeEvent<'a>),
    /// An event with an unknown code value.
    Unknown {
        /// The event code.
        code: u8,
        /// The bytes of the event parameters.
        params: &'a [u8],
    },
}

/// The model of an [`Event`]: the model of its parameters.
pub enum EventView {
    /// Disconnection Complete event.
    DisconnectionComplete(DisconnectionComplete),
    /// Inquiry Result event.
    InquiryResult(InquiryResultView),
    /// Extended Inquiry Result event.
    ExtendedInquiryResult(ExtendedInquiryResultView),
    /// Inquiry Result with RSSI event.
    InquiryResultWithRssi(InquiryResultWithRssiView),
    /// Encryption Change (v1) event.
    EncryptionChangeV1(EncryptionChangeV1),
    /// Encryption Change (v2) event.
    EncryptionChangeV2(EncryptionChangeV2),
    /// Read Remote Version Information Complete event.
    ReadRemoteVersionInformationComplete(ReadRemoteVersionInformationComplete),
    /// Command Complete event.
    CommandComplete(CommandCompleteView),
    /// Command Status event.
    CommandStatus(CommandStatus),
    /// Hardware Error event.
    HardwareError(HardwareError),
    /// Number Of Completed Packets event.
    NumberOfCompletedPackets(NumberOfCompletedPacketsView),
    /// Data Buffer Overflow event.
    DataBufferOverflow(DataBufferOverflow),
    /// Encryption Key Refresh Complete event.
    EncryptionKeyRefreshComplete(EncryptionKeyRefreshComplete),
    /// Authenticated Payload Timeout Expired event.
    AuthenticatedPayloadTimeoutExpired(AuthenticatedPayloadTimeoutExpired),
    /// Return Link Keys event.
    ReturnLinkKeys(ReturnLinkKeysView),
    /// Vendor event.
    Vendor(VendorView),
    /// Remote Name Request Complete event.
    RemoteNameRequestComplete(RemoteNameRequestCompleteView),
    /// Remote Host Supported Features Notification event.
    RemoteHostSupportedFeaturesNotification(RemoteHostSupportedFeaturesNotification),
    /// Connection Complete event.
    ConnectionComplete(ConnectionComplete),
    /// Link Key Request event.
    LinkKeyRequest(LinkKeyRequest),
    /// PIN Code Request event.
    PinCodeRequest(PinCodeRequest),
    /// Link Key Notification event.
    LinkKeyNotification(LinkKeyNotification),
    /// Authentication Complete event.
    AuthenticationComplete(AuthenticationComplete),
    /// Inquiry Complete event.
    InquiryComplete(InquiryComplete),
    /// Connection Request event.
    ConnectionRequest(ConnectionRequest),
    /// Change Connection Link Key Complete event.
    ChangeConnectionLinkKeyComplete(ChangeConnectionLinkKeyComplete),
    /// Link Key Type Changed event.
    LinkKeyTypeChanged(LinkKeyTypeChanged),
    /// Read Remote Supported Features Complete event.
    ReadRemoteSupportedFeaturesComplete(ReadRemoteSupportedFeaturesComplete),
    /// Max Slots Change event.
    MaxSlotsChange(MaxSlotsChange),
    /// Read Clock Offset Complete event.
    ReadClockOffsetComplete(ReadClockOffsetComplete),
    /// Connection Packet Type Changed event.
    ConnectionPacketTypeChanged(ConnectionPacketTypeChanged),
    /// QoS Violation event.
    QosViolation(QosViolation),
    /// Page Scan Repetition Mode Change event.
    PageScanRepetitionModeChange(PageScanRepetitionModeChange),
    /// Flow Specification Complete event.
    FlowSpecificationComplete(FlowSpecificationComplete),
    /// Read Remote Extended Features Complete event.
    ReadRemoteExtendedFeaturesComplete(ReadRemoteExtendedFeaturesComplete),
    /// Synchronous Connection Complete event.
    SynchronousConnectionComplete(SynchronousConnectionComplete),
    /// Synchronous Connection Changed event.
    SynchronousConnectionChanged(SynchronousConnectionChanged),
    /// Sniff Subrating event.
    SniffSubrating(SniffSubrating),
    /// IO Capability Request event.
    IoCapabilityRequest(IoCapabilityRequest),
    /// IO Capability Response event.
    IoCapabilityResponse(IoCapabilityResponse),
    /// User Confirmation Request event.
    UserConfirmationRequest(UserConfirmationRequest),
    /// User Passkey Request event.
    UserPasskeyRequest(UserPasskeyRequest),
    /// Remote OOB Data Request event.
    RemoteOobDataRequest(RemoteOobDataRequest),
    /// Simple Pairing Complete event.
    SimplePairingComplete(SimplePairingComplete),
    /// User Passkey Notification event.
    UserPasskeyNotification(UserPasskeyNotification),
    /// Keypress Notification event.
    KeypressNotification(KeypressNotification),
    /// Link Supervision Timeout Changed event.
    LinkSupervisionTimeoutChanged(LinkSupervisionTimeoutChanged),
    /// Enhanced Flush Complete event.
    EnhancedFlushComplete(EnhancedFlushComplete),
    /// Truncated Page Complete event.
    TruncatedPageComplete(TruncatedPageComplete),
    /// An LE Meta event.
    Le(LeEventView),
    /// An event with an unknown code value.
    Unknown {
        /// The event code.
        code: u8,
        /// The bytes of the event parameters.
        params: Seq<u8>,
    },
}

impl<'a> View for Event<'a> {
    type V = EventView;

    open spec fn view(&self) -> EventView {
        match self {
            Event::DisconnectionComplete(x) => EventView::DisconnectionComplete(x@),
            Event::InquiryResult(x) => EventView::InquiryResult(x@),
            Event::ExtendedInquiryResult(x) => EventView::ExtendedInquiryResult(x@),
            Event::InquiryResultWithRssi(x) => EventView::InquiryResultWithRssi(x@),
            Event::EncryptionChangeV1(x) => EventView::EncryptionChangeV1(x@),
            Event::EncryptionChangeV2(x) => EventView::EncryptionChangeV2(x@),
            Event::ReadRemoteVersionInformationComplete(x) => EventView::ReadRemoteVersionInformationComplete(x@),
            Event::CommandComplete(x) => EventView::CommandComplete(x@),
            Event::CommandStatus(x) => EventView::CommandStatus(x@),
            Event::HardwareError(x) => EventView::HardwareError(x@),
            Event::NumberOfCompletedPackets(x) => EventView::NumberOfCompletedPackets(x@),
            Event::DataBufferOverflow(x) => EventView::DataBufferOverflow(x@),
            Event::EncryptionKeyRefreshComplete(x) => EventView::EncryptionKeyRefreshComplete(x@),
            Event::AuthenticatedPayloadTimeoutExpired(x) => EventView::AuthenticatedPayloadTimeoutExpired(x@),
            Event::ReturnLinkKeys(x) => EventView::ReturnLinkKeys(x@),
            Event::Vendor(x) => EventView::Vendor(x@),
            Event::RemoteNameRequestComplete(x) => EventView::RemoteNameRequestComplete(x@),
            Event::RemoteHostSupportedFeaturesNotification(x) => EventView::RemoteHostSupportedFeaturesNotification(x@),
            Event::ConnectionComplete(x) => EventView::ConnectionComplete(x@),
            Event::LinkKeyRequest(x) => EventView::LinkKeyRequest(x@),
            Event::PinCodeRequest(x) => EventView::PinCodeRequest(x@),
            Event::LinkKeyNotification(x) => EventView::LinkKeyNotification(x@),
            Event::AuthenticationComplete(x) => EventView::AuthenticationComplete(x@),
            Event::InquiryComplete(x) => EventView::InquiryComplete(x@),
            Event::ConnectionRequest(x) => EventView::ConnectionRequest(x@),
            Event::ChangeConnectionLinkKeyComplete(x) => EventView::ChangeConnectionLinkKeyComplete(x@),
            Event::LinkKeyTypeChanged(x) => EventView::LinkKeyTypeChanged(x@),
            Event::ReadRemoteSupportedFeaturesComplete(x) => EventView::ReadRemoteSupportedFeaturesComplete(x@),
            Event::MaxSlotsChange(x) => EventView::MaxSlotsChange(x@),
            Event::ReadClockOffsetComplete(x) => EventView::ReadClockOffsetComplete(x@),
            Event::ConnectionPacketTypeChanged(x) => EventView::ConnectionPacketTypeChanged(x@),
            Event::QosViolation(x) => EventView::QosViolation(x@),
            Event::PageScanRepetitionModeChange(x) => EventView::PageScanRepetitionModeChange(x@),
            Event::FlowSpecificationComplete(x) => EventView::FlowSpecificationComplete(x@),
            Event::ReadRemoteExtendedFeaturesComplete(x) => EventView::ReadRemoteExtendedFeaturesComplete(x@),
            Event::SynchronousConnectionComplete(x) => EventView::SynchronousConnectionComplete(x@),
            Event::SynchronousConnectionChanged(x) => EventView::SynchronousConnectionChanged(x@),
            Event::SniffSubrating(x) => EventView::SniffSubrating(x@),
            Event::IoCapabilityRequest(x) => EventView::IoCapabilityRequest(x@),
            Event::IoCapabilityResponse(x) => EventView::IoCapabilityResponse(x@),
            Event::UserConfirmationRequest(x) => EventView::UserConfirmationRequest(x@),
            Event::UserPasskeyRequest(x) => EventView::UserPasskeyRequest(x@),
            Event::RemoteOobDataRequest(x) => EventView::RemoteOobDataRequest(x@),
            Event::SimplePairingComplete(x) => EventView::SimplePairingComplete(x@),
            Event::UserPasskeyNotification(x) => EventView::UserPasskeyNotification(x@),
            Event::KeypressNotification(x) => EventView::KeypressNotification(x@),
            Event::LinkSupervisionTimeoutChanged(x) => EventView::LinkSupervisionTimeoutChanged(x@),
            Event::EnhancedFlushComplete(x) => EventView::EnhancedFlushComplete(x@),
            Event::TruncatedPageComplete(x) => EventView::TruncatedPageComplete(x@),
            Event::Le(x) => EventView::Le(x@),
            Event::Unknown { code, params } => EventView::Unknown { code: *code, params: params@ },
        }
    }
}

/// A type holding the parameters of one kind of event, carried by a variant of [`Event`].
pub trait IntoEvent<'a>: FromHciBytes<'a> {
    /// The model of the event whose parameters have the model `v`.
    spec fn spec_into_event(v: Self::V) -> EventView;

    /// The event carrying these parameters.
    fn into_event(self) -> (e: Event<'a>)
        ensures
            e@ == Self::spec_into_event(self@),
    ;

}

/// The model of reading `params` as the complete parameters of an event of kind `T`.
#[verifier::opaque]
pub open spec fn spec_event_params<'a, T: IntoEvent<'a>>(params: Seq<u8>) -> Result<
    EventView,
    FromHciBytesError,
> {
    match spec_complete(T::spec_from_hci_bytes(params)) {
        Ok(v) => Ok(T::spec_into_event(v)),
        Err(e) => Err(e),
    }
}

/// Reads `params` as the complete parameters of an event of kind `T`.
fn event_from_params<'a, T: IntoEvent<'a>>(params: &'a [u8]) -> (r: Result<Event<'a>, FromHciBytesError>)
    ensures
        completed_as(r, spec_event_params::<T>(params@)),
{
    reveal(spec_event_params);
    match T::from_hci_bytes_complete(params) {
        Ok(x) => Ok(x.into_event()),
        Err(e) => Err(e),
    }
}


/// The model of reading the parameters `params` of an event with code `code`: the
/// parameters of the kind that the code names, which must take up all of `params`; an
/// unknown code keeps the bytes as they are.
pub open spec fn spec_event_from_params(code: u8, params: Seq<u8>) -> Result<EventView, FromHciBytesError> {
    match code {
        0x05 => spec_event_params::<DisconnectionComplete>(params),
        0x02 => spec_event_params::<InquiryResult>(params),
        0x2f => spec_event_params::<ExtendedInquiryResult>(params),
        0x22 => spec_event_params::<InquiryResultWithRssi>(params),
        0x08 => spec_event_params::<EncryptionChangeV1>(params),
        0x59 => spec_event_params::<EncryptionChangeV2>(params),
        0x0c => spec_event_params::<ReadRemoteVersionInformationComplete>(params),
        0x0e => spec_event_params::<CommandComplete>(params),
        0x0f => spec_event_params::<CommandStatus>(params),
        0x10 => spec_event_params::<HardwareError>(params),
        0x13 => spec_event_params::<NumberOfCompletedPackets>(params),
        0x1a => spec_event_params::<DataBufferOverflow>(params),
        0x30 => spec_event_params::<EncryptionKeyRefreshComplete>(params),
        0x57 => spec_event_params::<AuthenticatedPayloadTimeoutExpired>(params),
        0x15 => spec_event_params::<ReturnLinkKeys>(params),
        0xff => spec_event_params::<Vendor>(params),
        0x07 => spec_event_params::<RemoteNameRequestComplete>(params),
        0x3d => spec_event_params::<RemoteHostSupportedFeaturesNotification>(params),
        0x03 => spec_event_params::<ConnectionComplete>(params),
        0x17 => spec_event_params::<LinkKeyRequest>(params),
        0x16 => spec_event_params::<PinCodeRequest>(params),
        0x18 => spec_event_params::<LinkKeyNotification>(params),
        0x06 => spec_event_params::<AuthenticationComplete>(params),
        0x01 => spec_event_params::<InquiryComplete>(params),
        0x04 => spec_event_params::<ConnectionRequest>(params),
        0x09 => spec_event_params::<ChangeConnectionLinkKeyComplete>(params),
        0x0a => spec_event_params::<LinkKeyTypeChanged>(params),
        0x0b => spec_event_params::<ReadRemoteSupportedFeaturesComplete>(params),
        0x1b => spec_event_params::<MaxSlotsChange>(params),
        0x1c => spec_event_params::<ReadClockOffsetComplete>(params),
        0x1d => spec_event_params::<ConnectionPacketTypeChanged>(params),
        0x1e => spec_event_params::<QosViolation>(params),
        0x20 => spec_event_params::<PageScanRepetitionModeChange>(params),
        0x21 => spec_event_params::<FlowSpecificationComplete>(params),
        0x23 => spec_event_params::<ReadRemoteExtendedFeaturesComplete>(params),
        0x2c => spec_event_params::<SynchronousConnectionComplete>(params),
        0x2d => spec_event_params::<SynchronousConnectionChanged>(params),
        0x2e => spec_event_params::<SniffSubrating>(params),
        0x31 => spec_event_params::<IoCapabilityRequest>(params),
        0x32 => spec_event_params::<IoCapabilityResponse>(params),
        0x33 => spec_event_params::<UserConfirmationRequest>(params),
        0x34 => spec_event_params::<UserPasskeyRequest>(params),
        0x35 => spec_event_params::<RemoteOobDataRequest>(params),
        0x36 => spec_event_params::<SimplePairingComplete>(params),
        0x3b => spec_event_params::<UserPasskeyNotification>(params),
        0x3c => spec_event_params::<KeypressNotification>(params),
        0x38 => spec_event_params::<LinkSupervisionTimeoutChanged>(params),
        0x39 => spec_event_params::<EnhancedFlushComplete>(params),
        0x50 => spec_event_params::<TruncatedPageComplete>(params),
        0x3e => spec_event_params::<LeEvent>(params),
        _ => Ok(EventView::Unknown { code, params }),
    }
}

/// The model of reading an event after its header: `header.params_len` parameter bytes,
/// read as `spec_event_from_params` says, and the bytes after them.
pub open spec fn spec_event_after_header(header: EventPacketHeader, data: Seq<u8>) -> Result<
    (EventView, Seq<u8>),
    FromHciBytesError,
> {
    if data.len() < header.params_len {
        Err(FromHciBytesError::InvalidSize)
    } else {
        match spec_event_from_params(header.code, data.take(header.params_len as int)) {
            Ok(v) => Ok((v, data.skip(header.params_len as int))),
            Err(e) => Err(e),
        }
    }
}

impl<'a> Event<'a> {
    /// Reads the parameters `params` of an event with code `code`.
    pub fn from_params(code: u8, params: &'a [u8]) -> (r: Result<Event<'a>, FromHciBytesError>)
        ensures
            completed_as(r, spec_event_from_params(code, params@)),
    {
        match code {

            0x05 => event_from_params::<DisconnectionComplete>(params),
            0x02 => event_from_params::<InquiryResult>(params),
            0x2f => event_from_params::<ExtendedInquiryResult>(params),
            0x22 => event_from_params::<InquiryResultWithRssi>(params),
            0x08 => event_from_params::<EncryptionChangeV1>(params),
            0x59 => event_from_params::<EncryptionChangeV2>(params),
            0x0c => event_from_params::<ReadRemoteVersionInformationComplete>(params),
            0x0e => event_from_params::<CommandComplete>(params),
            0x0f => event_from_params::<CommandStatus>(params),
            0x10 => event_from_params::<HardwareError>(params),
            0x13 => event_from_params::<NumberOfCompletedPackets>(params),
            0x1a => event_from_params::<DataBufferOverflow>(params),
            0x30 => event_from_params::<EncryptionKeyRefreshComplete>(params),
            0x57 => event_from_params::<AuthenticatedPayloadTimeoutExpired>(params),
            0x15 => event_from_params::<ReturnLinkKeys>(params),
            0xff => event_from_params::<Vendor>(params),
            0x07 => event_from_params::<RemoteNameRequestComplete>(params),
            0x3d => event_from_params::<RemoteHostSupportedFeaturesNotification>(params),
            0x03 => event_from_params::<ConnectionComplete>(params),
            0x17 => event_from_params::<LinkKeyRequest>(params),
            0x16 => event_from_params::<PinCodeRequest>(params),
            0x18 => event_from_params::<LinkKeyNotification>(params),
            0x06 => event_from_params::<AuthenticationComplete>(params),
            0x01 => event_from_params::<InquiryComplete>(params),
            0x04 => event_from_params::<ConnectionRequest>(params),
            0x09 => event_from_params::<ChangeConnectionLinkKeyComplete>(params),
            0x0a => event_from_params::<LinkKeyTypeChanged>(params),
            0x0b => event_from_params::<ReadRemoteSupportedFeaturesComplete>(params),
            0x1b => event_from_params::<MaxSlotsChange>(params),
            0x1c => event_from_params::<ReadClockOffsetComplete>(params),
            0x1d => event_from_params::<ConnectionPacketTypeChanged>(params),
            0x1e => event_from_params::<QosViolation>(params),
            0x20 => event_from_params::<PageScanRepetitionModeChange>(params),
            0x21 => event_from_params::<FlowSpecificationComplete>(params),
            0x23 => event_from_params::<ReadRemoteExtendedFeaturesComplete>(params),
            0x2c => event_from_params::<SynchronousConnectionComplete>(params),
            0x2d => event_from_params::<SynchronousConnectionChanged>(params),
            0x2e => event_from_params::<SniffSubrating>(params),
            0x31 => event_from_params::<IoCapabilityRequest>(params),
            0x32 => event_from_params::<IoCapabilityResponse>(params),
            0x33 => event_from_params::<UserConfirmationRequest>(params),
            0x34 => event_from_params::<UserPasskeyRequest>(params),
            0x35 => event_from_params::<RemoteOobDataRequest>(params),
            0x36 => event_from_params::<SimplePairingComplete>(params),
            0x3b => event_from_params::<UserPasskeyNotification>(params),
            0x3c => event_from_params::<KeypressNotification>(params),
            0x38 => event_from_params::<LinkSupervisionTimeoutChanged>(params),
            0x39 => event_from_params::<EnhancedFlushComplete>(params),
            0x50 => event_from_params::<TruncatedPageComplete>(params),
            0x3e => event_from_params::<LeEvent>(params),
            _ => Ok(Event::Unknown { code, params }),
        }
    }


    /// Reads an event whose header is `header` from the bytes after the header.
    pub fn from_header_hci_bytes(header: EventPacketHeader, data: &'a [u8]) -> (r: Result<
        (Event<'a>, &'a [u8]),
        FromHciBytesError,
    >)
        ensures
            parsed_as(r, spec_event_after_header(header, data@)),
    {
        let (params, rest) = match take_bytes(data, header.params_len as usize) {
            Ok(v) => v,
            Err(e) => return Err(e),
        };
        let event = match Self::from_params(header.code, params) {
            Ok(v) => v,
            Err(e) => return Err(e),
        };
        Ok((event, rest))
    }
}

impl<'de> FromHciBytes<'de> for Event<'de> {
    open spec fn spec_from_hci_bytes(data: Seq<u8>) -> Result<(EventView, Seq<u8>), FromHciBytesError> {
        match EventPacketHeader::spec_from_hci_bytes(data) {
            Err(e) => Err(e),
            Ok((header, data)) => spec_event_after_header(header, data),
        }
    }

    fn from_hci_bytes(data: &'de [u8]) -> (r: Result<(Self, &'de [u8]), FromHciBytesError>) {
        let (header, data) = match EventPacketHeader::from_hci_bytes(data) {
            Ok(v) => v,
            Err(e) => return Err(e),
        };
        Self::from_header_hci_bytes(header, data)
    }
}


impl<'a> IntoEvent<'a> for DisconnectionComplete {
    open spec fn spec_into_event(v: DisconnectionComplete) -> EventView {
        EventView::DisconnectionComplete(v)
    }

    fn into_event(self) -> (e: Event<'a>) {
        Event::DisconnectionComplete(self)
    }
}

impl<'a> IntoEvent<'a> for InquiryResult<'a> {
    open spec fn spec_into_event(v: InquiryResultView) -> EventView {
        EventView::InquiryResult(v)
    }

    fn into_event(self) -> (e: Event<'a>) {
        Event::InquiryResult(self)
    }
}

impl<'a> IntoEvent<'a> for ExtendedInquiryResult<'a> {
    open spec fn spec_into_event(v: ExtendedInquiryResultView) -> EventView {
        EventView::ExtendedInquiryResult(v)
    }

    fn into_event(self) -> (e: Event<'a>) {
        Event::ExtendedInquiryResult(self)
    }
}

impl<'a> IntoEvent<'a> for InquiryResultWithRssi<'a> {
    open spec fn spec_into_event(v: InquiryResultWithRssiView) -> EventView {
        EventView::InquiryResultWithRssi(v)
    }

    fn into_event(self) -> (e: Event<'a>) {
        Event::InquiryResultWithRssi(self)
    }
}

impl<'a> IntoEvent<'a> for EncryptionChangeV1 {
    open spec fn spec_into_event(v: EncryptionChangeV1) -> EventView {
        EventView::EncryptionChangeV1(v)
    }

    fn into_event(self) -> (e: Event<'a>) {
        Event::EncryptionChangeV1(self)
    }
}

impl<'a> IntoEvent<'a> for EncryptionChangeV2 {
    open spec fn spec_into_event(v: EncryptionChangeV2) -> EventView {
        EventView::EncryptionChangeV2(v)
    }

    fn into_event(self) -> (e: Event<'a>) {
        Event::EncryptionChangeV2(self)
    }
}

impl<'a> IntoEvent<'a> for ReadRemoteVersionInformationComplete {
    open spec fn spec_into_event(v: ReadRemoteVersionInformationComplete) -> EventView {
        EventView::ReadRemoteVersionInformationComplete(v)
    }

    fn into_event(self) -> (e: Event<'a>) {
        Event::ReadRemoteVersionInformationComplete(self)
    }
}

impl<'a> IntoEvent<'a> for CommandComplete<'a> {
    open spec fn spec_into_event(v: CommandCompleteView) -> EventView {
        EventView::CommandComplete(v)
    }

    fn into_event(self) -> (e: Event<'a>) {
        Event::CommandComplete(self)
    }
}

impl<'a> IntoEvent<'a> for CommandStatus {
    open spec fn spec_into_event(v: CommandStatus) -> EventView {
        EventView::CommandStatus(v)
    }

    fn into_event(self) -> (e: Event<'a>) {
        Event::CommandStatus(self)
    }
}

impl<'a> IntoEvent<'a> for HardwareError {
    open spec fn spec_into_event(v: HardwareError) -> EventView {
        EventView::HardwareError(v)
    }

    fn into_event(self) -> (e: Event<'a>) {
        Event::HardwareError(self)
    }
}

impl<'a> IntoEvent<'a> for NumberOfCompletedPackets {
    open spec fn spec_into_event(v: NumberOfCompletedPacketsView) -> EventView {
        EventView::NumberOfCompletedPackets(v)
    }

    fn into_event(self) -> (e: Event<'a>) {
        Event::NumberOfCompletedPackets(self)
    }
}

impl<'a> IntoEvent<'a> for DataBufferOverflow {
    open spec fn spec_into_event(v: DataBufferOverflow) -> EventView {
        EventView::DataBufferOverflow(v)
    }

    fn into_event(self) -> (e: Event<'a>) {
        Event::DataBufferOverflow(self)
    }
}

impl<'a> IntoEvent<'a> for EncryptionKeyRefreshComplete {
    open spec fn spec_into_event(v: EncryptionKeyRefreshComplete) -> EventView {
        EventView::EncryptionKeyRefreshComplete(v)
    }

    fn into_event(self) -> (e: Event<'a>) {
        Event::EncryptionKeyRefreshComplete(self)
    }
}

impl<'a> IntoEvent<'a> for AuthenticatedPayloadTimeoutExpired {
    open spec fn spec_into_event(v: AuthenticatedPayloadTimeoutExpired) -> EventView {
        EventView::AuthenticatedPayloadTimeoutExpired(v)
    }

    fn into_event(self) -> (e: Event<'a>) {
        Event::AuthenticatedPayloadTimeoutExpired(self)
    }
}

impl<'a> IntoEvent<'a> for ReturnLinkKeys<'a> {
    open spec fn spec_into_event(v: ReturnLinkKeysView) -> EventView {
        EventView::ReturnLinkKeys(v)
    }

    fn into_event(self) -> (e: Event<'a>) {
        Event::ReturnLinkKeys(self)
    }
}

impl<'a> IntoEvent<'a> for Vendor<'a> {
    open spec fn spec_into_event(v: VendorView) -> EventView {
        EventView::Vendor(v)
    }

    fn into_event(self) -> (e: Event<'a>) {
        Event::Vendor(self)
    }
}

impl<'a> IntoEvent<'a> for RemoteNameRequestComplete<'a> {
    open spec fn spec_into_event(v: RemoteNameRequestCompleteView) -> EventView {
        EventView::RemoteNameRequestComplete(v)
    }

    fn into_event(self) -> (e: Event<'a>) {
        Event::RemoteNameRequestComplete(self)
    }
}

impl<'a> IntoEvent<'a> for RemoteHostSupportedFeaturesNotification {
    open spec fn spec_into_event(v: RemoteHostSupportedFeaturesNotification) -> EventView {
        EventView::RemoteHostSupportedFeaturesNotification(v)
    }

    fn into_event(self) -> (e: Event<'a>) {
        Event::RemoteHostSupportedFeaturesNotification(self)
    }
}

impl<'a> IntoEvent<'a> for ConnectionComplete {
    open spec fn spec_into_event(v: ConnectionComplete) -> EventView {
        EventView::ConnectionComplete(v)
    }

    fn into_event(self) -> (e: Event<'a>) {
        Event::ConnectionComplete(self)
    }
}

impl<'a> IntoEvent<'a> for LinkKeyRequest {
    open spec fn spec_into_event(v: LinkKeyRequest) -> EventView {
        EventView::LinkKeyRequest(v)
    }

    fn into_event(self) -> (e: Event<'a>) {
        Event::LinkKeyRequest(self)
    }
}

impl<'a> IntoEvent<'a> for PinCodeRequest {
    open spec fn spec_into_event(v: PinCodeRequest) -> EventView {
        EventView::PinCodeRequest(v)
    }

    fn into_event(self) -> (e: Event<'a>) {
        Event::PinCodeRequest(self)
    }
}

impl<'a> IntoEvent<'a> for LinkKeyNotification {
    open spec fn spec_into_event(v: LinkKeyNotification) -> EventView {
        EventView::LinkKeyNotification(v)
    }

    fn into_event(self) -> (e: Event<'a>) {
        Event::LinkKeyNotification(self)
    }
}

impl<'a> IntoEvent<'a> for AuthenticationComplete {
    open spec fn spec_into_event(v: AuthenticationComplete) -> EventView {
        EventView::AuthenticationComplete(v)
    }

    fn into_event(self) -> (e: Event<'a>) {
        Event::AuthenticationComplete(self)
    }
}

impl<'a> IntoEvent<'a> for InquiryComplete {
    open spec fn spec_into_event(v: InquiryComplete) -> EventView {
        EventView::InquiryComplete(v)
    }

    fn into_event(self) -> (e: Event<'a>) {
        Event::InquiryComplete(self)
    }
}

impl<'a> IntoEvent<'a> for ConnectionRequest {
    open spec fn spec_into_event(v: ConnectionRequest) -> EventView {
        EventView::ConnectionRequest(v)
    }

    fn into_event(self) -> (e: Event<'a>) {
        Event::ConnectionRequest(self)
    }
}

impl<'a> IntoEvent<'a> for ChangeConnectionLinkKeyComplete {
    open spec fn spec_into_event(v: ChangeConnectionLinkKeyComplete) -> EventView {
        EventView::ChangeConnectionLinkKeyComplete(v)
    }

    fn into_event(self) -> (e: Event<'a>) {
        Event::ChangeConnectionLinkKeyComplete(self)
    }
}

impl<'a> IntoEvent<'a> for LinkKeyTypeChanged {
    open spec fn spec_into_event(v: LinkKeyTypeChanged) -> EventView {
        EventView::LinkKeyTypeChanged(v)
    }

    fn into_event(self) -> (e: Event<'a>) {
        Event::LinkKeyTypeChanged(self)
    }
}

impl<'a> IntoEvent<'a> for ReadRemoteSupportedFeaturesComplete {
    open spec fn spec_into_event(v: ReadRemoteSupportedFeaturesComplete) -> EventView {
        EventView::ReadRemoteSupportedFeaturesComplete(v)
    }

    fn into_event(self) -> (e: Event<'a>) {
        Event::ReadRemoteSupportedFeaturesComplete(self)
    }
}

impl<'a> IntoEvent<'a> for MaxSlotsChange {
    open spec fn spec_into_event(v: MaxSlotsChange) -> EventView {
        EventView::MaxSlotsChange(v)
    }

    fn into_event(self) -> (e: Event<'a>) {
        Event::MaxSlotsChange(self)
    }
}

impl<'a> IntoEvent<'a> for ReadClockOffsetComplete {
    open spec fn spec_into_event(v: ReadClockOffsetComplete) -> EventView {
        EventView::ReadClockOffsetComplete(v)
    }

    fn into_event(self) -> (e: Event<'a>) {
        Event::ReadClockOffsetComplete(self)
    }
}

impl<'a> IntoEvent<'a> for ConnectionPacketTypeChanged {
    open spec fn spec_into_event(v: ConnectionPacketTypeChanged) -> EventView {
        EventView::ConnectionPacketTypeChanged(v)
    }

    fn into_event(self) -> (e: Event<'a>) {
        Event::ConnectionPacketTypeChanged(self)
    }
}

impl<'a> IntoEvent<'a> for QosViolation {
    open spec fn spec_into_event(v: QosViolation) -> EventView {
        EventView::QosViolation(v)
    }

    fn into_event(self) -> (e: Event<'a>) {
        Event::QosViolation(self)
    }
}

impl<'a> IntoEvent<'a> for PageScanRepetitionModeChange {
    open spec fn spec_into_event(v: PageScanRepetitionModeChange) -> EventView {
        EventView::PageScanRepetitionModeChange(v)
    }

    fn into_event(self) -> (e: Event<'a>) {
        Event::PageScanRepetitionModeChange(self)
    }
}

impl<'a> IntoEvent<'a> for FlowSpecificationComplete {
    open spec fn spec_into_event(v: FlowSpecificationComplete) -> EventView {
        EventView::FlowSpecificationComplete(v)
    }

    fn into_event(self) -> (e: Event<'a>) {
        Event::FlowSpecificationComplete(self)
    }
}

impl<'a> IntoEvent<'a> for ReadRemoteExtendedFeaturesComplete {
    open spec fn spec_into_event(v: ReadRemoteExtendedFeaturesComplete) -> EventView {
        EventView::ReadRemoteExtendedFeaturesComplete(v)
    }

    fn into_event(self) -> (e: Event<'a>) {
        Event::ReadRemoteExtendedFeaturesComplete(self)
    }
}

impl<'a> IntoEvent<'a> for SynchronousConnectionComplete {
    open spec fn spec_into_event(v: SynchronousConnectionComplete) -> EventView {
        EventView::SynchronousConnectionComplete(v)
    }

    fn into_event(self) -> (e: Event<'a>) {
        Event::SynchronousConnectionComplete(self)
    }
}

impl<'a> IntoEvent<'a> for SynchronousConnectionChanged {
    open spec fn spec_into_event(v: SynchronousConnectionChanged) -> EventView {
        EventView::SynchronousConnectionChanged(v)
    }

    fn into_event(self) -> (e: Event<'a>) {
        Event::SynchronousConnectionChanged(self)
    }
}

impl<'a> IntoEvent<'a> for SniffSubrating {
    open spec fn spec_into_event(v: SniffSubrating) -> EventView {
        EventView::SniffSubrating(v)
    }

    fn into_event(self) -> (e: Event<'a>) {
        Event::SniffSubrating(self)
    }
}

impl<'a> IntoEvent<'a> for IoCapabilityRequest {
    open spec fn spec_into_event(v: IoCapabilityRequest) -> EventView {
        EventView::IoCapabilityRequest(v)
    }

    fn into_event(self) -> (e: Event<'a>) {
        Event::IoCapabilityRequest(self)
    }
}

impl<'a> IntoEvent<'a> for IoCapabilityResponse {
    open spec fn spec_into_event(v: IoCapabilityResponse) -> EventView {
        EventView::IoCapabilityResponse(v)
    }

    fn into_event(self) -> (e: Event<'a>) {
        Event::IoCapabilityResponse(self)
    }
}

impl<'a> IntoEvent<'a> for UserConfirmationRequest {
    open spec fn spec_into_event(v: UserConfirmationRequest) -> EventView {
        EventView::UserConfirmationRequest(v)
    }

    fn into_event(self) -> (e: Event<'a>) {
        Event::UserConfirmationRequest(self)
    }
}

impl<'a> IntoEvent<'a> for UserPasskeyRequest {
    open spec fn spec_into_event(v: UserPasskeyRequest) -> EventView {
        EventView::UserPasskeyRequest(v)
    }

    fn into_event(self) -> (e: Event<'a>) {
        Event::UserPasskeyRequest(self)
    }
}

impl<'a> IntoEvent<'a> for RemoteOobDataRequest {
    open spec fn spec_into_event(v: RemoteOobDataRequest) -> EventView {
        EventView::RemoteOobDataRequest(v)
    }

    fn into_event(self) -> (e: Event<'a>) {
        Event::RemoteOobDataRequest(self)
    }
}

impl<'a> IntoEvent<'a> for SimplePairingComplete {
    open spec fn spec_into_event(v: SimplePairingComplete) -> EventView {
        EventView::SimplePairingComplete(v)
    }

    fn into_event(self) -> (e: Event<'a>) {
        Event::SimplePairingComplete(self)
    }
}

impl<'a> IntoEvent<'a> for UserPasskeyNotification {
    open spec fn spec_into_event(v: UserPasskeyNotification) -> EventView {
        EventView::UserPasskeyNotification(v)
    }

    fn into_event(self) -> (e: Event<'a>) {
        Event::UserPasskeyNotification(self)
    }
}

impl<'a> IntoEvent<'a> for KeypressNotification {
    open spec fn spec_into_event(v: KeypressNotification) -> EventView {
        EventView::KeypressNotification(v)
    }

    fn into_event(self) -> (e: Event<'a>) {
        Event::KeypressNotification(self)
    }
}

impl<'a> IntoEvent<'a> for LinkSupervisionTimeoutChanged {
    open spec fn spec_into_event(v: LinkSupervisionTimeoutChanged) -> EventView {
        EventView::LinkSupervisionTimeoutChanged(v)
    }

    fn into_event(self) -> (e: Event<'a>) {
        Event::LinkSupervisionTimeoutChanged(self)
    }
}

impl<'a> IntoEvent<'a> for EnhancedFlushComplete {
    open spec fn spec_into_event(v: EnhancedFlushComplete) -> EventView {
        EventView::EnhancedFlushComplete(v)
    }

    fn into_event(self) -> (e: Event<'a>) {
        Event::EnhancedFlushComplete(self)
    }
}

impl<'a> IntoEvent<'a> for TruncatedPageComplete {
    open spec fn spec_into_event(v: TruncatedPageComplete) -> EventView {
        EventView::TruncatedPageComplete(v)
    }

    fn into_event(self) -> (e: Event<'a>) {
        Event::TruncatedPageComplete(self)
    }
}

impl<'a> IntoEvent<'a> for LeEvent<'a> {
    open spec fn spec_into_event(v: LeEventView) -> EventView {
        EventView::Le(v)
    }

    fn into_event(self) -> (e: Event<'a>) {
        Event::Le(self)
    }
}

/// Reading an event whose code is the `EVENT_CODE` of an event parameters type reads
/// its parameters as that type (the LE Meta event's as [`LeEvent`]).
pub proof fn law_event_code_selects_params(params: Seq<u8>)
    ensures
        spec_event_from_params(DisconnectionComplete::EVENT_CODE, params) == spec_event_params::<DisconnectionComplete>(params),
        spec_event_from_params(InquiryResult::EVENT_CODE, params) == spec_event_params::<InquiryResult>(params),
        spec_event_from_params(ExtendedInquiryResult::EVENT_CODE, params) == spec_event_params::<ExtendedInquiryResult>(params),
        spec_event_from_params(InquiryResultWithRssi::EVENT_CODE, params) == spec_event_params::<InquiryResultWithRssi>(params),
        spec_event_from_params(EncryptionChangeV1::EVENT_CODE, params) == spec_event_params::<EncryptionChangeV1>(params),
        spec_event_from_params(EncryptionChangeV2::EVENT_CODE, params) == spec_event_params::<EncryptionChangeV2>(params),
        spec_event_from_params(ReadRemoteVersionInformationComplete::EVENT_CODE, params) == spec_event_params::<ReadRemoteVersionInformationComplete>(params),
        spec_event_from_params(CommandComplete::EVENT_CODE, params) == spec_event_params::<CommandComplete>(params),
        spec_event_from_params(CommandStatus::EVENT_CODE, params) == spec_event_params::<CommandStatus>(params),
        spec_event_from_params(HardwareError::EVENT_CODE, params) == spec_event_params::<HardwareError>(params),
        spec_event_from_params(NumberOfCompletedPackets::EVENT_CODE, params) == spec_event_params::<NumberOfCompletedPackets>(params),
        spec_event_from_params(DataBufferOverflow::EVENT_CODE, params) == spec_event_params::<DataBufferOverflow>(params),
        spec_event_from_params(EncryptionKeyRefreshComplete::EVENT_CODE, params) == spec_event_params::<EncryptionKeyRefreshComplete>(params),
        spec_event_from_params(AuthenticatedPayloadTimeoutExpired::EVENT_CODE, params) == spec_event_params::<AuthenticatedPayloadTimeoutExpired>(params),
        spec_event_from_params(ReturnLinkKeys::EVENT_CODE, params) == spec_event_params::<ReturnLinkKeys>(params),
        spec_event_from_params(Vendor::EVENT_CODE, params) == spec_event_params::<Vendor>(params),
        spec_event_from_params(RemoteNameRequestComplete::EVENT_CODE, params) == spec_event_params::<RemoteNameRequestComplete>(params),
        spec_event_from_params(RemoteHostSupportedFeaturesNotification::EVENT_CODE, params) == spec_event_params::<RemoteHostSupportedFeaturesNotification>(params),
        spec_event_from_params(ConnectionComplete::EVENT_CODE, params) == spec_event_params::<ConnectionComplete>(params),
        spec_event_from_params(LinkKeyRequest::EVENT_CODE, params) == spec_event_params::<LinkKeyRequest>(params),
        spec_event_from_params(PinCodeRequest::EVENT_CODE, params) == spec_event_params::<PinCodeRequest>(params),
        spec_event_from_params(LinkKeyNotification::EVENT_CODE, params) == spec_event_params::<LinkKeyNotification>(params),
        spec_event_from_params(AuthenticationComplete::EVENT_CODE, params) == spec_event_params::<AuthenticationComplete>(params),
        spec_event_from_params(InquiryComplete::EVENT_CODE, params) == spec_event_params::<InquiryComplete>(params),
        spec_event_from_params(ConnectionRequest::EVENT_CODE, params) == spec_event_params::<ConnectionRequest>(params),
        spec_event_from_params(ChangeConnectionLinkKeyComplete::EVENT_CODE, params) == spec_event_params::<ChangeConnectionLinkKeyComplete>(params),
        spec_event_from_params(LinkKeyTypeChanged::EVENT_CODE, params) == spec_event_params::<LinkKeyTypeChanged>(params),
        spec_event_from_params(ReadRemoteSupportedFeaturesComplete::EVENT_CODE, params) == spec_event_params::<ReadRemoteSupportedFeaturesComplete>(params),
        spec_event_from_params(MaxSlotsChange::EVENT_CODE, params) == spec_event_params::<MaxSlotsChange>(params),
        spec_event_from_params(ReadClockOffsetComplete::EVENT_CODE, params) == spec_event_params::<ReadClockOffsetComplete>(params),
        spec_event_from_params(ConnectionPacketTypeChanged::EVENT_CODE, params) == spec_event_params::<ConnectionPacketTypeChanged>(params),
        spec_event_from_params(QosViolation::EVENT_CODE, params) == spec_event_params::<QosViolation>(params),
        spec_event_from_params(PageScanRepetitionModeChange::EVENT_CODE, params) == spec_event_params::<PageScanRepetitionModeChange>(params),
        spec_event_from_params(FlowSpecificationComplete::EVENT_CODE, params) == spec_event_params::<FlowSpecificationComplete>(params),
        spec_event_from_params(ReadRemoteExtendedFeaturesComplete::EVENT_CODE, params) == spec_event_params::<ReadRemoteExtendedFeaturesComplete>(params),
        spec_event_from_params(SynchronousConnectionComplete::EVENT_CODE, params) == spec_event_params::<SynchronousConnectionComplete>(params),
        spec_event_from_params(SynchronousConnectionChanged::EVENT_CODE, params) == spec_event_params::<SynchronousConnectionChanged>(params),
        spec_event_from_params(SniffSubrating::EVENT_CODE, params) == spec_event_params::<SniffSubrating>(params),
        spec_event_from_params(IoCapabilityRequest::EVENT_CODE, params) == spec_event_params::<IoCapabilityRequest>(params),
        spec_event_from_params(IoCapabilityResponse::EVENT_CODE, params) == spec_event_params::<IoCapabilityResponse>(params),
        spec_event_from_params(UserConfirmationRequest::EVENT_CODE, params) == spec_event_params::<UserConfirmationRequest>(params),
        spec_event_from_params(UserPasskeyRequest::EVENT_CODE, params) == spec_event_params::<UserPasskeyRequest>(params),
        spec_event_from_params(RemoteOobDataRequest::EVENT_CODE, params) == spec_event_params::<RemoteOobDataRequest>(params),
        spec_event_from_params(SimplePairingComplete::EVENT_CODE, params) == spec_event_params::<SimplePairingComplete>(params),
        spec_event_from_params(UserPasskeyNotification::EVENT_CODE, params) == spec_event_params::<UserPasskeyNotification>(params),
        spec_event_from_params(KeypressNotification::EVENT_CODE, params) == spec_event_params::<KeypressNotification>(params),
        spec_event_from_params(LinkSupervisionTimeoutChanged::EVENT_CODE, params) == spec_event_params::<LinkSupervisionTimeoutChanged>(params),
        spec_event_from_params(EnhancedFlushComplete::EVENT_CODE, params) == spec_event_params::<EnhancedFlushComplete>(params),
        spec_event_from_params(TruncatedPageComplete::EVENT_CODE, params) == spec_event_params::<TruncatedPageComplete>(params),
        spec_event_from_params(LeEvent::EVENT_CODE, params) == spec_event_params::<LeEvent>(params),
{
}

/// An event packet takes exactly its two header bytes and the `params_len` bytes that the
/// header announces; what follows is handed back untouched.
pub proof fn law_event_takes_header_and_params(data: Seq<u8>)
    ensures
        Event::spec_from_hci_bytes(data) matches Ok((_, rest)) ==> data.len() >= 2 + data[1]
            && rest == data.skip(2 + data[1]),
{
    if data.len() >= 2 {
        assert(data.skip(1).skip(1) =~= data.skip(2));
        let len = data[1] as int;
        if data.len() >= 2 + len {
            assert(data.skip(2).skip(len) =~= data.skip(2 + len));
        }
    }
}

/// Bytes after a complete event packet do not change how the packet reads: they are
/// only added to what is handed back.
pub proof fn law_event_trailing_bytes(data: Seq<u8>, extra: Seq<u8>)
    ensures
        Event::spec_from_hci_bytes(data) matches Ok((v, rest)) ==> Event::spec_from_hci_bytes(
            data + extra,
        ) == Ok::<(EventView, Seq<u8>), FromHciBytesError>((v, rest + extra)),
{
    if data.len() >= 2 {
        let all = data + extra;
        assert(all[0] == data[0]);
        assert(all[1] == data[1]);
        let len = data[1] as int;
        let after = data.skip(1).skip(1);
        let all_after = all.skip(1).skip(1);
        assert(all_after =~= after + extra);
        if after.len() >= len {
            assert(all_after.take(len) =~= after.take(len));
            assert(all_after.skip(len) =~= after.skip(len) + extra);
        }
    }
}


/// The first value that a parse model reads, dropping the unconsumed bytes.
pub open spec fn spec_first<V>(s: Result<(V, Seq<u8>), FromHciBytesError>) -> Result<
    V,
    FromHciBytesError,
> {
    match s {
        Ok((v, _)) => Ok(v),
        Err(e) => Err(e),
    }
}

/// Reading only the first value of a parse succeeds whenever the parse does, with the
/// value it read, whatever bytes the parse left over.
pub proof fn law_first_ignores_leftover<V>(s: Result<(V, Seq<u8>), FromHciBytesError>)
    ensures
        s matches Ok((v, _)) ==> spec_first(s) == Ok::<V, FromHciBytesError>(v),
        s matches Err(e) ==> spec_first(s) == Err::<V, FromHciBytesError>(e),
{
}

/// A connection handle is read from the front of the bytes: the two little-endian bytes
/// `lo`, `hi` followed by any bytes give the handle `lo + 256 * hi`, and the following
/// bytes are left over untouched. So when a command's return parameters begin with a
/// connection handle, [`CommandComplete::handle`] gives that handle however many return
/// parameters follow it.
pub proof fn law_conn_handle_read_from_front(lo: u8, hi: u8, rest: Seq<u8>)
    ensures
        ConnHandle::spec_from_hci_bytes(seq![lo, hi] + rest) == Ok::<(ConnHandle, Seq<u8>), FromHciBytesError>(
            (ConnHandle((lo + 256 * hi) as u16), rest),
        ),
        spec_first(ConnHandle::spec_from_hci_bytes(seq![lo, hi] + rest)) == Ok::<ConnHandle, FromHciBytesError>(
            ConnHandle((lo + 256 * hi) as u16),
        ),
        ConnHandle::spec_from_hci_bytes(seq![lo, hi] + rest) matches Ok((h, _)) && h.0 == lo + 256
            * hi,
{
    let b = seq![lo, hi] + rest;
    assert(b[0] == lo);
    assert(b[1] == hi);
    assert(b.skip(2) =~= rest);
}

/// A Command Complete event whose parameters are the command count, the opcode, the status
/// and then a connection handle `lo`, `hi` followed by any further return parameters
/// keeps all the bytes after the status as its return parameters, and the connection
/// handle read from them is `lo + 256 * hi`.
pub proof fn law_command_complete_handle_after_status(
    num: u8,
    op_lo: u8,
    op_hi: u8,
    status: u8,
    lo: u8,
    hi: u8,
    rest: Seq<u8>,
)
    ensures
        CommandComplete::spec_from_hci_bytes(seq![num, op_lo, op_hi, status, lo, hi] + rest) matches Ok(
            (v, left),
        ) && v.return_param_bytes == seq![lo, hi] + rest && left.len() == 0 && spec_first(
            ConnHandle::spec_from_hci_bytes(v.return_param_bytes),
        ) == Ok::<ConnHandle, FromHciBytesError>(ConnHandle((lo + 256 * hi) as u16)),
{
    let b = seq![num, op_lo, op_hi, status, lo, hi] + rest;
    assert(b.skip(1).skip(2).skip(1) =~= seq![lo, hi] + rest);
    assert(b.skip(1)[0] == op_lo);
    assert(b.skip(1)[1] == op_hi);
    assert(b.skip(1).skip(2)[0] == status);
    law_conn_handle_read_from_front(lo, hi, rest);
}

impl<'a> CommandComplete<'a> {
    /// Gets the connection handle associated with the command that has completed.
    ///
    /// For commands that return the connection handle provided as a parameter as
    /// their first return parameter, this will be valid even if `status` is an error.
    pub fn handle<C: SyncCmd>(&self) -> (r: Result<C::Handle, FromHciBytesError>)
        ensures
            completed_as(r, spec_first(C::Handle::spec_from_hci_bytes(self.return_param_bytes@))),
            match C::Handle::spec_from_hci_bytes(self.return_param_bytes@) {
                Ok((h, _)) => r matches Ok(x) && x@ == h,
                Err(e) => r == Err::<C::Handle, FromHciBytesError>(e),
            },
    {
        match C::Handle::from_hci_bytes(self.return_param_bytes.0) {
            Ok((h, _)) => Ok(h),
            Err(e) => Err(e),
        }
    }

    /// The model of `to_result`: the error that `status` names, else the return parameters
    /// of `C`, or `Error::invalid_hci_parameters()` when they cannot be read.
    pub open spec fn spec_to_result<C: SyncCmd>(&self) -> Result<<C::Return as View>::V, Error> {
        match self.status.spec_to_result() {
            Err(e) => Err(e),
            Ok(_) => match spec_complete(C::Return::spec_from_hci_bytes(self.return_param_bytes@)) {
                Ok(v) => Ok(v),
                Err(_) => Err(Error(0x12)),
            },
        }
    }

    /// Gets a result with the return parameters for `C` or an `Error` if `status` is
    /// an error.
    ///
    /// The opcode of `C` must be `cmd_opcode` when `status` is success.
    pub fn to_result<C: SyncCmd>(&self) -> (r: Result<C::Return, Error>)
        requires
            self.status.0 == 0 ==> self.cmd_opcode.0 == C::OPCODE,
        ensures
            match r {
                Ok(v) => self.spec_to_result::<C>() == Ok::<<C::Return as View>::V, Error>(v@),
                Err(e) => self.spec_to_result::<C>() == Err::<<C::Return as View>::V, Error>(e),
            },
            self.status.0 != 0 ==> r == Err::<C::Return, Error>(Error(self.status.0)),
            self.status.0 == 0 ==> match C::Return::spec_from_hci_bytes(self.return_param_bytes@) {
                Ok((v, rest)) => if rest.len() == 0 {
                    r matches Ok(x) && x@ == v
                } else {
                    r == Err::<C::Return, Error>(Error(0x12))
                },
                Err(_) => r == Err::<C::Return, Error>(Error(0x12)),
            },
    {
        match self.status.to_result() {
            Err(e) => Err(e),
            Ok(()) => match self.return_params::<C>() {
                Ok(v) => Ok(v),
                Err(_) => Err(Error::invalid_hci_parameters()),
            },
        }
    }

    /// Parses the return parameters for `C` from this event. This may fail if `status`
    /// is an error.
    ///
    /// The opcode of `C` must be `cmd_opcode`.
    pub fn return_params<C: SyncCmd>(&self) -> (r: Result<C::Return, FromHciBytesError>)
        requires
            self.cmd_opcode.0 == C::OPCODE,
        ensures
            completed_as(r, spec_complete(C::Return::spec_from_hci_bytes(self.return_param_bytes@))),
            match C::Return::spec_from_hci_bytes(self.return_param_bytes@) {
                Ok((v, rest)) => if rest.len() == 0 {
                    r matches Ok(x) && x@ == v
                } else {
                    r == Err::<C::Return, FromHciBytesError>(FromHciBytesError::InvalidSize)
                },
                Err(e) => r == Err::<C::Return, FromHciBytesError>(e),
            },
    {
        C::Return::from_hci_bytes_complete(self.return_param_bytes.0)
    }
}


} // verus!
