//! The parameter types that HCI events carry.
use vstd::prelude::*;

use crate::primitives::{le_u16, take_bytes};
use crate::{AsHciBytes, FromHciBytes, FromHciBytesError};

verus! {

/// Reading a one-byte value through `decode`: `InvalidSize` on no bytes, `InvalidValue`
/// when the byte stands for no value.
pub open spec fn byte_enum<T>(decode: spec_fn(u8) -> Option<T>, data: Seq<u8>) -> Result<
    (T, Seq<u8>),
    FromHciBytesError,
> {
    if data.len() < 1 {
        Err(FromHciBytesError::InvalidSize)
    } else {
        match decode(data[0]) {
            Some(v) => Ok((v, data.skip(1))),
            None => Err(FromHciBytesError::InvalidValue),
        }
    }
}

/// The status code that a controller reports for a command or an event; zero is success.
#[derive(Debug, Clone, Copy, PartialEq, Eq, Hash, Structural)]
pub struct Status(pub u8);

/// A nonzero status code, standing for the error that it reports.
#[derive(Debug, Clone, Copy, PartialEq, Eq, Hash, Structural)]
pub struct Error(pub u8);

impl View for Status {
    type V = Status;

    open spec fn view(&self) -> Status {
        *self
    }
}

impl Status {
    /// The status "Remote User Terminated Connection" (0x13).
    pub fn remote_user_terminated_conn() -> (s: Status)
        ensures
            s.0 == 0x13,
    {
        Status(0x13)
    }

    /// The outcome this status reports: `Ok` for success, else the error it names.
    pub open spec fn spec_to_result(self) -> Result<(), Error> {
        if self.0 == 0 {
            Ok(())
        } else {
            Err(Error(self.0))
        }
    }

    /// `Ok` when the status is success (zero), otherwise the error with the same code.
    pub fn to_result(self) -> (r: Result<(), Error>)
        ensures
            r == self.spec_to_result(),
            self.0 == 0 ==> r == Ok::<(), Error>(()),
            self.0 != 0 ==> r == Err::<(), Error>(Error(self.0)),
    {
        if self.0 == 0 {
            Ok(())
        } else {
            Err(Error(self.0))
        }
    }
}

impl Error {
    /// The error "Invalid HCI Command Parameters" (0x12).
    pub fn invalid_hci_parameters() -> (e: Error)
        ensures
            e.0 == 0x12,
    {
        Error(0x12)
    }
}

impl<'de> FromHciBytes<'de> for Status {
    open spec fn spec_from_hci_bytes(data: Seq<u8>) -> Result<(Status, Seq<u8>), FromHciBytesError> {
        match u8::spec_from_hci_bytes(data) {
            Ok((b, rest)) => Ok((Status(b), rest)),
            Err(e) => Err(e),
        }
    }

    fn from_hci_bytes(data: &'de [u8]) -> (r: Result<(Self, &'de [u8]), FromHciBytesError>) {
        let (b, rest) = match u8::from_hci_bytes(data) {
            Ok(v) => v,
            Err(e) => return Err(e),
        };
        Ok((Status(b), rest))
    }
}

/// The handle of a connection.
#[derive(Debug, Clone, Copy, PartialEq, Eq, Hash, Structural)]
pub struct ConnHandle(pub u16);

impl View for ConnHandle {
    type V = ConnHandle;

    open spec fn view(&self) -> ConnHandle {
        *self
    }
}

impl ConnHandle {
    /// The handle's value.
    pub fn raw(self) -> (v: u16)
        ensures
            v == self.0,
    {
        self.0
    }
}

impl<'de> FromHciBytes<'de> for ConnHandle {
    open spec fn spec_from_hci_bytes(data: Seq<u8>) -> Result<(ConnHandle, Seq<u8>), FromHciBytesError> {
        match u16::spec_from_hci_bytes(data) {
            Ok((v, rest)) => Ok((ConnHandle(v), rest)),
            Err(e) => Err(e),
        }
    }

    fn from_hci_bytes(data: &'de [u8]) -> (r: Result<(Self, &'de [u8]), FromHciBytesError>) {
        let (v, rest) = match u16::from_hci_bytes(data) {
            Ok(v) => v,
            Err(e) => return Err(e),
        };
        Ok((ConnHandle(v), rest))
    }
}

/// The opcode of an HCI command.
#[derive(Debug, Clone, Copy, PartialEq, Eq, Hash, Structural)]
pub struct Opcode(pub u16);

impl View for Opcode {
    type V = Opcode;

    open spec fn view(&self) -> Opcode {
        *self
    }
}

impl Opcode {
    /// The opcode's 16-bit value.
    pub fn to_raw(self) -> (v: u16)
        ensures
            v == self.0,
    {
        self.0
    }
}

impl<'de> FromHciBytes<'de> for Opcode {
    open spec fn spec_from_hci_bytes(data: Seq<u8>) -> Result<(Opcode, Seq<u8>), FromHciBytesError> {
        match u16::spec_from_hci_bytes(data) {
            Ok((v, rest)) => Ok((Opcode(v), rest)),
            Err(e) => Err(e),
        }
    }

    fn from_hci_bytes(data: &'de [u8]) -> (r: Result<(Self, &'de [u8]), FromHciBytesError>) {
        let (v, rest) = match u16::from_hci_bytes(data) {
            Ok(v) => v,
            Err(e) => return Err(e),
        };
        Ok((Opcode(v), rest))
    }
}

/// The Bluetooth version that a device implements.
#[derive(Debug, Clone, Copy, PartialEq, Eq, Hash, Structural)]
pub struct CoreSpecificationVersion(pub u8);

impl View for CoreSpecificationVersion {
    type V = CoreSpecificationVersion;

    open spec fn view(&self) -> CoreSpecificationVersion {
        *self
    }
}

impl CoreSpecificationVersion {
    /// Bluetooth 5.0 (0x09).
    pub fn version_5_0() -> (v: CoreSpecificationVersion)
        ensures
            v.0 == 0x09,
    {
        CoreSpecificationVersion(0x09)
    }
}

impl<'de> FromHciBytes<'de> for CoreSpecificationVersion {
    open spec fn spec_from_hci_bytes(data: Seq<u8>) -> Result<
        (CoreSpecificationVersion, Seq<u8>),
        FromHciBytesError,
    > {
        match u8::spec_from_hci_bytes(data) {
            Ok((b, rest)) => Ok((CoreSpecificationVersion(b), rest)),
            Err(e) => Err(e),
        }
    }

    fn from_hci_bytes(data: &'de [u8]) -> (r: Result<(Self, &'de [u8]), FromHciBytesError>) {
        let (b, rest) = match u8::from_hci_bytes(data) {
            Ok(v) => v,
            Err(e) => return Err(e),
        };
        Ok((CoreSpecificationVersion(b), rest))
    }
}

/// A Bluetooth device address, in its wire order.
#[derive(Debug, Clone, Copy, PartialEq, Eq, Hash)]
pub struct BdAddr(pub [u8; 6]);

impl View for BdAddr {
    type V = BdAddr;

    open spec fn view(&self) -> BdAddr {
        *self
    }
}

impl BdAddr {
    /// The address with the given bytes.
    pub fn new(val: [u8; 6]) -> (a: BdAddr)
        ensures
            a.0 == val,
    {
        BdAddr(val)
    }

    /// The address's bytes.
    pub fn raw(&self) -> (v: [u8; 6])
        ensures
            v == self.0,
    {
        self.0
    }
}

impl AsHciBytes for BdAddr {
    open spec fn spec_hci_bytes(&self) -> Seq<u8> {
        self.0@
    }

    fn as_hci_bytes(&self) -> (r: &[u8]) {
        self.0.as_slice()
    }
}

impl<'de> FromHciBytes<'de> for BdAddr {
    open spec fn spec_from_hci_bytes(data: Seq<u8>) -> Result<(BdAddr, Seq<u8>), FromHciBytesError> {
        if data.len() < 6 {
            Err(FromHciBytesError::InvalidSize)
        } else {
            Ok((BdAddr([data[0], data[1], data[2], data[3], data[4], data[5]]), data.skip(6)))
        }
    }

    fn from_hci_bytes(data: &'de [u8]) -> (r: Result<(Self, &'de [u8]), FromHciBytesError>) {
        let (h, rest) = match take_bytes(data, 6) {
            Ok(v) => v,
            Err(e) => return Err(e),
        };
        Ok((BdAddr([h[0], h[1], h[2], h[3], h[4], h[5]]), rest))
    }
}

/// The offset between a device's clock and the local clock, as its two wire bytes.
#[derive(Debug, Clone, Copy, PartialEq, Eq, Hash)]
pub struct ClockOffset(pub [u8; 2]);

impl View for ClockOffset {
    type V = ClockOffset;

    open spec fn view(&self) -> ClockOffset {
        *self
    }
}

impl AsHciBytes for ClockOffset {
    open spec fn spec_hci_bytes(&self) -> Seq<u8> {
        self.0@
    }

    fn as_hci_bytes(&self) -> (r: &[u8]) {
        self.0.as_slice()
    }
}

impl<'de> FromHciBytes<'de> for ClockOffset {
    open spec fn spec_from_hci_bytes(data: Seq<u8>) -> Result<(ClockOffset, Seq<u8>), FromHciBytesError> {
        if data.len() < 2 {
            Err(FromHciBytesError::InvalidSize)
        } else {
            Ok((ClockOffset([data[0], data[1]]), data.skip(2)))
        }
    }

    fn from_hci_bytes(data: &'de [u8]) -> (r: Result<(Self, &'de [u8]), FromHciBytesError>) {
        let (h, rest) = match take_bytes(data, 2) {
            Ok(v) => v,
            Err(e) => return Err(e),
        };
        Ok((ClockOffset([h[0], h[1]]), rest))
    }
}

/// The packet types a connection may use, as their two wire bytes.
#[derive(Debug, Clone, Copy, PartialEq, Eq, Hash)]
pub struct PacketType(pub [u8; 2]);

impl View for PacketType {
    type V = PacketType;

    open spec fn view(&self) -> PacketType {
        *self
    }
}

impl AsHciBytes for PacketType {
    open spec fn spec_hci_bytes(&self) -> Seq<u8> {
        self.0@
    }

    fn as_hci_bytes(&self) -> (r: &[u8]) {
        self.0.as_slice()
    }
}

impl<'de> FromHciBytes<'de> for PacketType {
    open spec fn spec_from_hci_bytes(data: Seq<u8>) -> Result<(PacketType, Seq<u8>), FromHciBytesError> {
        if data.len() < 2 {
            Err(FromHciBytesError::InvalidSize)
        } else {
            Ok((PacketType([data[0], data[1]]), data.skip(2)))
        }
    }

    fn from_hci_bytes(data: &'de [u8]) -> (r: Result<(Self, &'de [u8]), FromHciBytesError>) {
        let (h, rest) = match take_bytes(data, 2) {
            Ok(v) => v,
            Err(e) => return Err(e),
        };
        Ok((PacketType([h[0], h[1]]), rest))
    }
}

/// The LMP features of a device, as their eight wire bytes.
#[derive(Debug, Clone, Copy, PartialEq, Eq, Hash)]
pub struct LmpFeatureMask(pub [u8; 8]);

impl View for LmpFeatureMask {
    type V = LmpFeatureMask;

    open spec fn view(&self) -> LmpFeatureMask {
        *self
    }
}

impl AsHciBytes for LmpFeatureMask {
    open spec fn spec_hci_bytes(&self) -> Seq<u8> {
        self.0@
    }

    fn as_hci_bytes(&self) -> (r: &[u8]) {
        self.0.as_slice()
    }
}

impl<'de> FromHciBytes<'de> for LmpFeatureMask {
    open spec fn spec_from_hci_bytes(data: Seq<u8>) -> Result<(LmpFeatureMask, Seq<u8>), FromHciBytesError> {
        if data.len() < 8 {
            Err(FromHciBytesError::InvalidSize)
        } else {
            Ok(
                (
                    LmpFeatureMask(
                        [data[0], data[1], data[2], data[3], data[4], data[5], data[6], data[7]],
                    ),
                    data.skip(8),
                ),
            )
        }
    }

    fn from_hci_bytes(data: &'de [u8]) -> (r: Result<(Self, &'de [u8]), FromHciBytesError>) {
        let (h, rest) = match take_bytes(data, 8) {
            Ok(v) => v,
            Err(e) => return Err(e),
        };
        Ok((LmpFeatureMask([h[0], h[1], h[2], h[3], h[4], h[5], h[6], h[7]]), rest))
    }
}

/// All the bytes that remain of an event's parameters.
#[derive(Debug, Clone, Copy, PartialEq, Eq, Hash)]
pub struct RemainingBytes<'a>(pub &'a [u8]);

impl<'a> View for RemainingBytes<'a> {
    type V = Seq<u8>;

    open spec fn view(&self) -> Seq<u8> {
        self.0@
    }
}

impl<'a> AsHciBytes for RemainingBytes<'a> {
    open spec fn spec_hci_bytes(&self) -> Seq<u8> {
        self.0@
    }

    fn as_hci_bytes(&self) -> (r: &[u8]) {
        self.0
    }
}

impl<'de> FromHciBytes<'de> for RemainingBytes<'de> {
    open spec fn spec_from_hci_bytes(data: Seq<u8>) -> Result<(Seq<u8>, Seq<u8>), FromHciBytesError> {
        Ok((data, Seq::empty()))
    }

    fn from_hci_bytes(data: &'de [u8]) -> (r: Result<(Self, &'de [u8]), FromHciBytesError>) {
        let (all, rest) = data.split_at(data.len());
        assert(all@ =~= data@);
        assert(rest@ =~= Seq::<u8>::empty());
        Ok((RemainingBytes(all), rest))
    }
}

/// Reading back the wire bytes of an address, followed by any bytes `rest`, gives the same
/// value and leaves `rest`.
pub proof fn law_bd_addr_bytes_roundtrip(v: BdAddr, rest: Seq<u8>)
    ensures
        BdAddr::spec_from_hci_bytes(v.spec_hci_bytes() + rest) == Ok::<(BdAddr, Seq<u8>), FromHciBytesError>(
            (v, rest),
        ),
{
    let d = v.spec_hci_bytes() + rest;
    assert(d.skip(6) =~= rest);
    assert(v.0 =~= [d[0], d[1], d[2], d[3], d[4], d[5]]);
}

/// Reading back the wire bytes of a clock offset, followed by any bytes `rest`, gives the same
/// value and leaves `rest`.
pub proof fn law_clock_offset_bytes_roundtrip(v: ClockOffset, rest: Seq<u8>)
    ensures
        ClockOffset::spec_from_hci_bytes(v.spec_hci_bytes() + rest) == Ok::<(ClockOffset, Seq<u8>), FromHciBytesError>(
            (v, rest),
        ),
{
    let d = v.spec_hci_bytes() + rest;
    assert(d.skip(2) =~= rest);
    assert(v.0 =~= [d[0], d[1]]);
}

/// Reading back the wire bytes of a set of packet types, followed by any bytes `rest`, gives the same
/// value and leaves `rest`.
pub proof fn law_packet_type_bytes_roundtrip(v: PacketType, rest: Seq<u8>)
    ensures
        PacketType::spec_from_hci_bytes(v.spec_hci_bytes() + rest) == Ok::<(PacketType, Seq<u8>), FromHciBytesError>(
            (v, rest),
        ),
{
    let d = v.spec_hci_bytes() + rest;
    assert(d.skip(2) =~= rest);
    assert(v.0 =~= [d[0], d[1]]);
}

/// Reading back the wire bytes of a feature mask, followed by any bytes `rest`, gives the same
/// value and leaves `rest`.
pub proof fn law_lmp_feature_mask_bytes_roundtrip(v: LmpFeatureMask, rest: Seq<u8>)
    ensures
        LmpFeatureMask::spec_from_hci_bytes(v.spec_hci_bytes() + rest) == Ok::<(LmpFeatureMask, Seq<u8>), FromHciBytesError>(
            (v, rest),
        ),
{
    let d = v.spec_hci_bytes() + rest;
    assert(d.skip(8) =~= rest);
    assert(v.0 =~= [d[0], d[1], d[2], d[3], d[4], d[5], d[6], d[7]]);
}

/// Reading the wire bytes of a run of remaining bytes gives the same bytes and leaves
/// nothing.
pub proof fn law_remaining_bytes_roundtrip(v: RemainingBytes)
    ensures
        RemainingBytes::spec_from_hci_bytes(v.spec_hci_bytes()) == Ok::<(Seq<u8>, Seq<u8>), FromHciBytesError>(
            (v@, Seq::empty()),
        ),
{
}

/// The count of packets completed on one connection since the last report.
#[derive(Debug, Clone, Copy, PartialEq, Eq, Hash, Structural)]
pub struct ConnHandleCompletedPackets {
    /// The connection.
    pub handle: ConnHandle,
    /// The number of packets completed on it.
    pub num_completed_packets: u16,
}

impl View for ConnHandleCompletedPackets {
    type V = ConnHandleCompletedPackets;

    open spec fn view(&self) -> ConnHandleCompletedPackets {
        *self
    }
}

impl<'de> FromHciBytes<'de> for ConnHandleCompletedPackets {
    open spec fn spec_from_hci_bytes(data: Seq<u8>) -> Result<
        (ConnHandleCompletedPackets, Seq<u8>),
        FromHciBytesError,
    > {
        if data.len() < 4 {
            Err(FromHciBytesError::InvalidSize)
        } else {
            Ok(
                (
                    ConnHandleCompletedPackets {
                        handle: ConnHandle(le_u16(data)),
                        num_completed_packets: le_u16(data.skip(2)),
                    },
                    data.skip(4),
                ),
            )
        }
    }

    fn from_hci_bytes(data: &'de [u8]) -> (r: Result<(Self, &'de [u8]), FromHciBytesError>) {
        let (h, rest) = match take_bytes(data, 4) {
            Ok(v) => v,
            Err(e) => return Err(e),
        };
        let (handle, tail) = match ConnHandle::from_hci_bytes(h) {
            Ok(v) => v,
            Err(e) => return Err(e),
        };
        let (num_completed_packets, _) = match u16::from_hci_bytes(tail) {
            Ok(v) => v,
            Err(e) => return Err(e),
        };
        Ok((ConnHandleCompletedPackets { handle, num_completed_packets }, rest))
    }
}

/// The kind of link a connection uses.
#[derive(Debug, Clone, Copy, PartialEq, Eq, Hash, Structural)]
pub enum ConnectionLinkType {
    /// An SCO link. (0x00)
    Sco,
    /// An ACL link. (0x01)
    Acl,
    /// An eSCO link. (0x02)
    Esco,
}

impl View for ConnectionLinkType {
    type V = ConnectionLinkType;

    open spec fn view(&self) -> ConnectionLinkType {
        *self
    }
}

impl ConnectionLinkType {
    /// The value a byte stands for, if it stands for one.
    pub open spec fn spec_from_u8(b: u8) -> Option<ConnectionLinkType> {
        if b == 0x00 {
            Some(ConnectionLinkType::Sco)
        } else if b == 0x01 {
            Some(ConnectionLinkType::Acl)
        } else if b == 0x02 {
            Some(ConnectionLinkType::Esco)
        } else {
            None
        }
    }

    /// Decodes a byte.
    pub fn from_u8(b: u8) -> (r: Option<ConnectionLinkType>)
        ensures
            r == ConnectionLinkType::spec_from_u8(b),
    {
        match b {
            0x00 => Some(ConnectionLinkType::Sco),
            0x01 => Some(ConnectionLinkType::Acl),
            0x02 => Some(ConnectionLinkType::Esco),
            _ => None,
        }
    }
}

impl<'de> FromHciBytes<'de> for ConnectionLinkType {
    open spec fn spec_from_hci_bytes(data: Seq<u8>) -> Result<(ConnectionLinkType, Seq<u8>), FromHciBytesError> {
        byte_enum(|b: u8| ConnectionLinkType::spec_from_u8(b), data)
    }

    fn from_hci_bytes(data: &'de [u8]) -> (r: Result<(Self, &'de [u8]), FromHciBytesError>) {
        let (b, rest) = match u8::from_hci_bytes(data) {
            Ok(v) => v,
            Err(e) => return Err(e),
        };
        match ConnectionLinkType::from_u8(b) {
            Some(v) => Ok((v, rest)),
            None => Err(FromHciBytesError::InvalidValue),
        }
    }
}

/// The kind of a link key.
#[derive(Debug, Clone, Copy, PartialEq, Eq, Hash, Structural)]
pub enum LinkKeyType {
    /// Combination key. (0x00)
    CombinationKey,
    /// Debug combination key. (0x03)
    DebugCombinationKey,
    /// Unauthenticated combination key p192. (0x04)
    UnauthenticatedCombinationKeyP192,
    /// Authenticated combination key p192. (0x05)
    AuthenticatedCombinationKeyP192,
    /// Changed combination key. (0x06)
    ChangedCombinationKey,
    /// Unauthenticated combination key p256. (0x07)
    UnauthenticatedCombinationKeyP256,
    /// Authenticated combination key p256. (0x08)
    AuthenticatedCombinationKeyP256,
}

impl View for LinkKeyType {
    type V = LinkKeyType;

    open spec fn view(&self) -> LinkKeyType {
        *self
    }
}

impl LinkKeyType {
    /// The value a byte stands for, if it stands for one.
    pub open spec fn spec_from_u8(b: u8) -> Option<LinkKeyType> {
        if b == 0x00 {
            Some(LinkKeyType::CombinationKey)
        } else if b == 0x03 {
            Some(LinkKeyType::DebugCombinationKey)
        } else if b == 0x04 {
            Some(LinkKeyType::UnauthenticatedCombinationKeyP192)
        } else if b == 0x05 {
            Some(LinkKeyType::AuthenticatedCombinationKeyP192)
        } else if b == 0x06 {
            Some(LinkKeyType::ChangedCombinationKey)
        } else if b == 0x07 {
            Some(LinkKeyType::UnauthenticatedCombinationKeyP256)
        } else if b == 0x08 {
            Some(LinkKeyType::AuthenticatedCombinationKeyP256)
        } else {
            None
        }
    }

    /// Decodes a byte.
    pub fn from_u8(b: u8) -> (r: Option<LinkKeyType>)
        ensures
            r == LinkKeyType::spec_from_u8(b),
    {
        match b {
            0x00 => Some(LinkKeyType::CombinationKey),
            0x03 => Some(LinkKeyType::DebugCombinationKey),
            0x04 => Some(LinkKeyType::UnauthenticatedCombinationKeyP192),
            0x05 => Some(LinkKeyType::AuthenticatedCombinationKeyP192),
            0x06 => Some(LinkKeyType::ChangedCombinationKey),
            0x07 => Some(LinkKeyType::UnauthenticatedCombinationKeyP256),
            0x08 => Some(LinkKeyType::AuthenticatedCombinationKeyP256),
            _ => None,
        }
    }
}

impl<'de> FromHciBytes<'de> for LinkKeyType {
    open spec fn spec_from_hci_bytes(data: Seq<u8>) -> Result<(LinkKeyType, Seq<u8>), FromHciBytesError> {
        byte_enum(|b: u8| LinkKeyType::spec_from_u8(b), data)
    }

    fn from_hci_bytes(data: &'de [u8]) -> (r: Result<(Self, &'de [u8]), FromHciBytesError>) {
        let (b, rest) = match u8::from_hci_bytes(data) {
            Ok(v) => v,
            Err(e) => return Err(e),
        };
        match LinkKeyType::from_u8(b) {
            Some(v) => Ok((v, rest)),
            None => Err(FromHciBytesError::InvalidValue),
        }
    }
}

/// Which link key a connection now uses.
#[derive(Debug, Clone, Copy, PartialEq, Eq, Hash, Structural)]
pub enum KeyFlag {
    /// The semi-permanent link key. (0x00)
    SemiPermanent,
    /// The temporary link key. (0x01)
    Temporary,
}

impl View for KeyFlag {
    type V = KeyFlag;

    open spec fn view(&self) -> KeyFlag {
        *self
    }
}

impl KeyFlag {
    /// The value a byte stands for, if it stands for one.
    pub open spec fn spec_from_u8(b: u8) -> Option<KeyFlag> {
        if b == 0x00 {
            Some(KeyFlag::SemiPermanent)
        } else if b == 0x01 {
            Some(KeyFlag::Temporary)
        } else {
            None
        }
    }

    /// Decodes a byte.
    pub fn from_u8(b: u8) -> (r: Option<KeyFlag>)
        ensures
            r == KeyFlag::spec_from_u8(b),
    {
        match b {
            0x00 => Some(KeyFlag::SemiPermanent),
            0x01 => Some(KeyFlag::Temporary),
            _ => None,
        }
    }
}

impl<'de> FromHciBytes<'de> for KeyFlag {
    open spec fn spec_from_hci_bytes(data: Seq<u8>) -> Result<(KeyFlag, Seq<u8>), FromHciBytesError> {
        byte_enum(|b: u8| KeyFlag::spec_from_u8(b), data)
    }

    fn from_hci_bytes(data: &'de [u8]) -> (r: Result<(Self, &'de [u8]), FromHciBytesError>) {
        let (b, rest) = match u8::from_hci_bytes(data) {
            Ok(v) => v,
            Err(e) => return Err(e),
        };
        match KeyFlag::from_u8(b) {
            Some(v) => Ok((v, rest)),
            None => Err(FromHciBytesError::InvalidValue),
        }
    }
}

/// The kind of buffer that overflowed.
#[derive(Debug, Clone, Copy, PartialEq, Eq, Hash, Structural)]
pub enum LinkType {
    /// A synchronous (voice) buffer. (0x00)
    SyncData,
    /// An ACL data buffer. (0x01)
    AclData,
}

impl View for LinkType {
    type V = LinkType;

    open spec fn view(&self) -> LinkType {
        *self
    }
}

impl LinkType {
    /// The value a byte stands for, if it stands for one.
    pub open spec fn spec_from_u8(b: u8) -> Option<LinkType> {
        if b == 0x00 {
            Some(LinkType::SyncData)
        } else if b == 0x01 {
            Some(LinkType::AclData)
        } else {
            None
        }
    }

    /// Decodes a byte.
    pub fn from_u8(b: u8) -> (r: Option<LinkType>)
        ensures
            r == LinkType::spec_from_u8(b),
    {
        match b {
            0x00 => Some(LinkType::SyncData),
            0x01 => Some(LinkType::AclData),
            _ => None,
        }
    }
}

impl<'de> FromHciBytes<'de> for LinkType {
    open spec fn spec_from_hci_bytes(data: Seq<u8>) -> Result<(LinkType, Seq<u8>), FromHciBytesError> {
        byte_enum(|b: u8| LinkType::spec_from_u8(b), data)
    }

    fn from_hci_bytes(data: &'de [u8]) -> (r: Result<(Self, &'de [u8]), FromHciBytesError>) {
        let (b, rest) = match u8::from_hci_bytes(data) {
            Ok(v) => v,
            Err(e) => return Err(e),
        };
        match LinkType::from_u8(b) {
            Some(v) => Ok((v, rest)),
            None => Err(FromHciBytesError::InvalidValue),
        }
    }
}

/// The largest number of slots a baseband packet may take.
#[derive(Debug, Clone, Copy, PartialEq, Eq, Hash, Structural)]
pub enum LmpMaxSlots {
    /// One slot. (0x01)
    OneSlot,
    /// Three slots. (0x03)
    ThreeSlots,
    /// Five slots. (0x05)
    FiveSlots,
}

impl View for LmpMaxSlots {
    type V = LmpMaxSlots;

    open spec fn view(&self) -> LmpMaxSlots {
        *self
    }
}

impl LmpMaxSlots {
    /// The value a byte stands for, if it stands for one.
    pub open spec fn spec_from_u8(b: u8) -> Option<LmpMaxSlots> {
        if b == 0x01 {
            Some(LmpMaxSlots::OneSlot)
        } else if b == 0x03 {
            Some(LmpMaxSlots::ThreeSlots)
        } else if b == 0x05 {
            Some(LmpMaxSlots::FiveSlots)
        } else {
            None
        }
    }

    /// Decodes a byte.
    pub fn from_u8(b: u8) -> (r: Option<LmpMaxSlots>)
        ensures
            r == LmpMaxSlots::spec_from_u8(b),
    {
        match b {
            0x01 => Some(LmpMaxSlots::OneSlot),
            0x03 => Some(LmpMaxSlots::ThreeSlots),
            0x05 => Some(LmpMaxSlots::FiveSlots),
            _ => None,
        }
    }
}

impl<'de> FromHciBytes<'de> for LmpMaxSlots {
    open spec fn spec_from_hci_bytes(data: Seq<u8>) -> Result<(LmpMaxSlots, Seq<u8>), FromHciBytesError> {
        byte_enum(|b: u8| LmpMaxSlots::spec_from_u8(b), data)
    }

    fn from_hci_bytes(data: &'de [u8]) -> (r: Result<(Self, &'de [u8]), FromHciBytesError>) {
        let (b, rest) = match u8::from_hci_bytes(data) {
            Ok(v) => v,
            Err(e) => return Err(e),
        };
        match LmpMaxSlots::from_u8(b) {
            Some(v) => Ok((v, rest)),
            None => Err(FromHciBytesError::InvalidValue),
        }
    }
}

/// The direction of a flow specification.
#[derive(Debug, Clone, Copy, PartialEq, Eq, Hash, Structural)]
pub enum FlowDirection {
    /// Outgoing traffic. (0x00)
    Outgoing,
    /// Incoming traffic. (0x01)
    Incoming,
}

impl View for FlowDirection {
    type V = FlowDirection;

    open spec fn view(&self) -> FlowDirection {
        *self
    }
}

impl FlowDirection {
    /// The value a byte stands for, if it stands for one.
    pub open spec fn spec_from_u8(b: u8) -> Option<FlowDirection> {
        if b == 0x00 {
            Some(FlowDirection::Outgoing)
        } else if b == 0x01 {
            Some(FlowDirection::Incoming)
        } else {
            None
        }
    }

    /// Decodes a byte.
    pub fn from_u8(b: u8) -> (r: Option<FlowDirection>)
        ensures
            r == FlowDirection::spec_from_u8(b),
    {
        match b {
            0x00 => Some(FlowDirection::Outgoing),
            0x01 => Some(FlowDirection::Incoming),
            _ => None,
        }
    }
}

impl<'de> FromHciBytes<'de> for FlowDirection {
    open spec fn spec_from_hci_bytes(data: Seq<u8>) -> Result<(FlowDirection, Seq<u8>), FromHciBytesError> {
        byte_enum(|b: u8| FlowDirection::spec_from_u8(b), data)
    }

    fn from_hci_bytes(data: &'de [u8]) -> (r: Result<(Self, &'de [u8]), FromHciBytesError>) {
        let (b, rest) = match u8::from_hci_bytes(data) {
            Ok(v) => v,
            Err(e) => return Err(e),
        };
        match FlowDirection::from_u8(b) {
            Some(v) => Ok((v, rest)),
            None => Err(FromHciBytesError::InvalidValue),
        }
    }
}

/// The service type of a flow specification.
#[derive(Debug, Clone, Copy, PartialEq, Eq, Hash, Structural)]
pub enum ServiceType {
    /// No traffic. (0x00)
    NoTrafficAvailable,
    /// Best effort. (0x01)
    BestEffortAvailable,
    /// Guaranteed. (0x02)
    Guaranteed,
}

impl View for ServiceType {
    type V = ServiceType;

    open spec fn view(&self) -> ServiceType {
        *self
    }
}

impl ServiceType {
    /// The value a byte stands for, if it stands for one.
    pub open spec fn spec_from_u8(b: u8) -> Option<ServiceType> {
        if b == 0x00 {
            Some(ServiceType::NoTrafficAvailable)
        } else if b == 0x01 {
            Some(ServiceType::BestEffortAvailable)
        } else if b == 0x02 {
            Some(ServiceType::Guaranteed)
        } else {
            None
        }
    }

    /// Decodes a byte.
    pub fn from_u8(b: u8) -> (r: Option<ServiceType>)
        ensures
            r == ServiceType::spec_from_u8(b),
    {
        match b {
            0x00 => Some(ServiceType::NoTrafficAvailable),
            0x01 => Some(ServiceType::BestEffortAvailable),
            0x02 => Some(ServiceType::Guaranteed),
            _ => None,
        }
    }
}

impl<'de> FromHciBytes<'de> for ServiceType {
    open spec fn spec_from_hci_bytes(data: Seq<u8>) -> Result<(ServiceType, Seq<u8>), FromHciBytesError> {
        byte_enum(|b: u8| ServiceType::spec_from_u8(b), data)
    }

    fn from_hci_bytes(data: &'de [u8]) -> (r: Result<(Self, &'de [u8]), FromHciBytesError>) {
        let (b, rest) = match u8::from_hci_bytes(data) {
            Ok(v) => v,
            Err(e) => return Err(e),
        };
        match ServiceType::from_u8(b) {
            Some(v) => Ok((v, rest)),
            None => Err(FromHciBytesError::InvalidValue),
        }
    }
}

/// The page scan repetition mode of a device.
#[derive(Debug, Clone, Copy, PartialEq, Eq, Hash, Structural)]
pub enum PageScanRepetitionMode {
    /// Mode R0. (0x00)
    R0,
    /// Mode R1. (0x01)
    R1,
    /// Mode R2. (0x02)
    R2,
}

impl View for PageScanRepetitionMode {
    type V = PageScanRepetitionMode;

    open spec fn view(&self) -> PageScanRepetitionMode {
        *self
    }
}

impl PageScanRepetitionMode {
    /// The value a byte stands for, if it stands for one.
    pub open spec fn spec_from_u8(b: u8) -> Option<PageScanRepetitionMode> {
        if b == 0x00 {
            Some(PageScanRepetitionMode::R0)
        } else if b == 0x01 {
            Some(PageScanRepetitionMode::R1)
        } else if b == 0x02 {
            Some(PageScanRepetitionMode::R2)
        } else {
            None
        }
    }

    /// Decodes a byte.
    pub fn from_u8(b: u8) -> (r: Option<PageScanRepetitionMode>)
        ensures
            r == PageScanRepetitionMode::spec_from_u8(b),
    {
        match b {
            0x00 => Some(PageScanRepetitionMode::R0),
            0x01 => Some(PageScanRepetitionMode::R1),
            0x02 => Some(PageScanRepetitionMode::R2),
            _ => None,
        }
    }
}

impl<'de> FromHciBytes<'de> for PageScanRepetitionMode {
    open spec fn spec_from_hci_bytes(data: Seq<u8>) -> Result<(PageScanRepetitionMode, Seq<u8>), FromHciBytesError> {
        byte_enum(|b: u8| PageScanRepetitionMode::spec_from_u8(b), data)
    }

    fn from_hci_bytes(data: &'de [u8]) -> (r: Result<(Self, &'de [u8]), FromHciBytesError>) {
        let (b, rest) = match u8::from_hci_bytes(data) {
            Ok(v) => v,
            Err(e) => return Err(e),
        };
        match PageScanRepetitionMode::from_u8(b) {
            Some(v) => Ok((v, rest)),
            None => Err(FromHciBytesError::InvalidValue),
        }
    }
}

/// The input and output capability of a device.
#[derive(Debug, Clone, Copy, PartialEq, Eq, Hash, Structural)]
pub enum IoCapability {
    /// Display only. (0x00)
    DisplayOnly,
    /// Display with yes/no input. (0x01)
    DisplayYesNo,
    /// Keyboard only. (0x02)
    KeyboardOnly,
    /// Neither input nor output. (0x03)
    NoInputNoOutput,
}

impl View for IoCapability {
    type V = IoCapability;

    open spec fn view(&self) -> IoCapability {
        *self
    }
}

impl IoCapability {
    /// The value a byte stands for, if it stands for one.
    pub open spec fn spec_from_u8(b: u8) -> Option<IoCapability> {
        if b == 0x00 {
            Some(IoCapability::DisplayOnly)
        } else if b == 0x01 {
            Some(IoCapability::DisplayYesNo)
        } else if b == 0x02 {
            Some(IoCapability::KeyboardOnly)
        } else if b == 0x03 {
            Some(IoCapability::NoInputNoOutput)
        } else {
            None
        }
    }

    /// Decodes a byte.
    pub fn from_u8(b: u8) -> (r: Option<IoCapability>)
        ensures
            r == IoCapability::spec_from_u8(b),
    {
        match b {
            0x00 => Some(IoCapability::DisplayOnly),
            0x01 => Some(IoCapability::DisplayYesNo),
            0x02 => Some(IoCapability::KeyboardOnly),
            0x03 => Some(IoCapability::NoInputNoOutput),
            _ => None,
        }
    }
}

impl<'de> FromHciBytes<'de> for IoCapability {
    open spec fn spec_from_hci_bytes(data: Seq<u8>) -> Result<(IoCapability, Seq<u8>), FromHciBytesError> {
        byte_enum(|b: u8| IoCapability::spec_from_u8(b), data)
    }

    fn from_hci_bytes(data: &'de [u8]) -> (r: Result<(Self, &'de [u8]), FromHciBytesError>) {
        let (b, rest) = match u8::from_hci_bytes(data) {
            Ok(v) => v,
            Err(e) => return Err(e),
        };
        match IoCapability::from_u8(b) {
            Some(v) => Ok((v, rest)),
            None => Err(FromHciBytesError::InvalidValue),
        }
    }
}

/// Which out-of-band pairing data a device holds.
#[derive(Debug, Clone, Copy, PartialEq, Eq, Hash, Structural)]
pub enum OobDataPresent {
    /// None. (0x00)
    NotPresent,
    /// P-192 data. (0x01)
    P192Present,
    /// P-256 data. (0x02)
    P256Present,
    /// P-192 and P-256 data. (0x03)
    P192AndP256Present,
}

impl View for OobDataPresent {
    type V = OobDataPresent;

    open spec fn view(&self) -> OobDataPresent {
        *self
    }
}

impl OobDataPresent {
    /// The value a byte stands for, if it stands for one.
    pub open spec fn spec_from_u8(b: u8) -> Option<OobDataPresent> {
        if b == 0x00 {
            Some(OobDataPresent::NotPresent)
        } else if b == 0x01 {
            Some(OobDataPresent::P192Present)
        } else if b == 0x02 {
            Some(OobDataPresent::P256Present)
        } else if b == 0x03 {
            Some(OobDataPresent::P192AndP256Present)
        } else {
            None
        }
    }

    /// Decodes a byte.
    pub fn from_u8(b: u8) -> (r: Option<OobDataPresent>)
        ensures
            r == OobDataPresent::spec_from_u8(b),
    {
        match b {
            0x00 => Some(OobDataPresent::NotPresent),
            0x01 => Some(OobDataPresent::P192Present),
            0x02 => Some(OobDataPresent::P256Present),
            0x03 => Some(OobDataPresent::P192AndP256Present),
            _ => None,
        }
    }
}

impl<'de> FromHciBytes<'de> for OobDataPresent {
    open spec fn spec_from_hci_bytes(data: Seq<u8>) -> Result<(OobDataPresent, Seq<u8>), FromHciBytesError> {
        byte_enum(|b: u8| OobDataPresent::spec_from_u8(b), data)
    }

    fn from_hci_bytes(data: &'de [u8]) -> (r: Result<(Self, &'de [u8]), FromHciBytesError>) {
        let (b, rest) = match u8::from_hci_bytes(data) {
            Ok(v) => v,
            Err(e) => return Err(e),
        };
        match OobDataPresent::from_u8(b) {
            Some(v) => Ok((v, rest)),
            None => Err(FromHciBytesError::InvalidValue),
        }
    }
}

/// The authentication a device asks for while pairing.
#[derive(Debug, Clone, Copy, PartialEq, Eq, Hash, Structural)]
pub enum AuthenticationRequirements {
    /// Mitm not required no bonding. (0x00)
    MitmNotRequiredNoBonding,
    /// Mitm required no bonding. (0x01)
    MitmRequiredNoBonding,
    /// Mitm not required dedicated bonding. (0x02)
    MitmNotRequiredDedicatedBonding,
    /// Mitm required dedicated bonding. (0x03)
    MitmRequiredDedicatedBonding,
    /// Mitm not required general bonding. (0x04)
    MitmNotRequiredGeneralBonding,
    /// Mitm required general bonding. (0x05)
    MitmRequiredGeneralBonding,
}

impl View for AuthenticationRequirements {
    type V = AuthenticationRequirements;

    open spec fn view(&self) -> AuthenticationRequirements {
        *self
    }
}

impl AuthenticationRequirements {
    /// The value a byte stands for, if it stands for one.
    pub open spec fn spec_from_u8(b: u8) -> Option<AuthenticationRequirements> {
        if b == 0x00 {
            Some(AuthenticationRequirements::MitmNotRequiredNoBonding)
        } else if b == 0x01 {
            Some(AuthenticationRequirements::MitmRequiredNoBonding)
        } else if b == 0x02 {
            Some(AuthenticationRequirements::MitmNotRequiredDedicatedBonding)
        } else if b == 0x03 {
            Some(AuthenticationRequirements::MitmRequiredDedicatedBonding)
        } else if b == 0x04 {
            Some(AuthenticationRequirements::MitmNotRequiredGeneralBonding)
        } else if b == 0x05 {
            Some(AuthenticationRequirements::MitmRequiredGeneralBonding)
        } else {
            None
        }
    }

    /// Decodes a byte.
    pub fn from_u8(b: u8) -> (r: Option<AuthenticationRequirements>)
        ensures
            r == AuthenticationRequirements::spec_from_u8(b),
    {
        match b {
            0x00 => Some(AuthenticationRequirements::MitmNotRequiredNoBonding),
            0x01 => Some(AuthenticationRequirements::MitmRequiredNoBonding),
            0x02 => Some(AuthenticationRequirements::MitmNotRequiredDedicatedBonding),
            0x03 => Some(AuthenticationRequirements::MitmRequiredDedicatedBonding),
            0x04 => Some(AuthenticationRequirements::MitmNotRequiredGeneralBonding),
            0x05 => Some(AuthenticationRequirements::MitmRequiredGeneralBonding),
            _ => None,
        }
    }
}

impl<'de> FromHciBytes<'de> for AuthenticationRequirements {
    open spec fn spec_from_hci_bytes(data: Seq<u8>) -> Result<(AuthenticationRequirements, Seq<u8>), FromHciBytesError> {
        byte_enum(|b: u8| AuthenticationRequirements::spec_from_u8(b), data)
    }

    fn from_hci_bytes(data: &'de [u8]) -> (r: Result<(Self, &'de [u8]), FromHciBytesError>) {
        let (b, rest) = match u8::from_hci_bytes(data) {
            Ok(v) => v,
            Err(e) => return Err(e),
        };
        match AuthenticationRequirements::from_u8(b) {
            Some(v) => Ok((v, rest)),
            None => Err(FromHciBytesError::InvalidValue),
        }
    }
}

/// What a keypress notification reports.
#[derive(Debug, Clone, Copy, PartialEq, Eq, Hash, Structural)]
pub enum NotificationType {
    /// Passkey entry started. (0x00)
    PasskeyEntryStarted,
    /// Passkey digit entered. (0x01)
    PasskeyDigitEntered,
    /// Passkey digit erased. (0x02)
    PasskeyDigitErased,
    /// Passkey cleared. (0x03)
    PasskeyCleared,
    /// Passkey entry completed. (0x04)
    PasskeyEntryCompleted,
}

impl View for NotificationType {
    type V = NotificationType;

    open spec fn view(&self) -> NotificationType {
        *self
    }
}

impl NotificationType {
    /// The value a byte stands for, if it stands for one.
    pub open spec fn spec_from_u8(b: u8) -> Option<NotificationType> {
        if b == 0x00 {
            Some(NotificationType::PasskeyEntryStarted)
        } else if b == 0x01 {
            Some(NotificationType::PasskeyDigitEntered)
        } else if b == 0x02 {
            Some(NotificationType::PasskeyDigitErased)
        } else if b == 0x03 {
            Some(NotificationType::PasskeyCleared)
        } else if b == 0x04 {
            Some(NotificationType::PasskeyEntryCompleted)
        } else {
            None
        }
    }

    /// Decodes a byte.
    pub fn from_u8(b: u8) -> (r: Option<NotificationType>)
        ensures
            r == NotificationType::spec_from_u8(b),
    {
        match b {
            0x00 => Some(NotificationType::PasskeyEntryStarted),
            0x01 => Some(NotificationType::PasskeyDigitEntered),
            0x02 => Some(NotificationType::PasskeyDigitErased),
            0x03 => Some(NotificationType::PasskeyCleared),
            0x04 => Some(NotificationType::PasskeyEntryCompleted),
            _ => None,
        }
    }
}

impl<'de> FromHciBytes<'de> for NotificationType {
    open spec fn spec_from_hci_bytes(data: Seq<u8>) -> Result<(NotificationType, Seq<u8>), FromHciBytesError> {
        byte_enum(|b: u8| NotificationType::spec_from_u8(b), data)
    }

    fn from_hci_bytes(data: &'de [u8]) -> (r: Result<(Self, &'de [u8]), FromHciBytesError>) {
        let (b, rest) = match u8::from_hci_bytes(data) {
            Ok(v) => v,
            Err(e) => return Err(e),
        };
        match NotificationType::from_u8(b) {
            Some(v) => Ok((v, rest)),
            None => Err(FromHciBytesError::InvalidValue),
        }
    }
}
} // verus!
