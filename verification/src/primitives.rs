//! Reading the primitive values that HCI fields are built from.
use vstd::prelude::*;

use crate::{FromHciBytes, FromHciBytesError};

verus! {

/// The unsigned 16-bit value of the first two bytes of `s`, least significant first.
pub open spec fn le_u16(s: Seq<u8>) -> u16
    recommends
        s.len() >= 2,
{
    (s[0] + 256 * s[1]) as u16
}

/// The unsigned 32-bit value of the first four bytes of `s`, least significant first.
pub open spec fn le_u32(s: Seq<u8>) -> u32
    recommends
        s.len() >= 4,
{
    (s[0] + 256 * s[1] + 65536 * s[2] + 16777216 * s[3]) as u32
}

/// The first three bytes of `s` as an array.
pub open spec fn array3(s: Seq<u8>) -> [u8; 3] {
    [s[0], s[1], s[2]]
}

/// The first sixteen bytes of `s` as an array.
pub open spec fn array16(s: Seq<u8>) -> [u8; 16] {
    [
        s[0],
        s[1],
        s[2],
        s[3],
        s[4],
        s[5],
        s[6],
        s[7],
        s[8],
        s[9],
        s[10],
        s[11],
        s[12],
        s[13],
        s[14],
        s[15],
    ]
}

/// Splits `data` after its first `n` bytes, failing with `InvalidSize` when it is shorter.
pub fn take_bytes<'a>(data: &'a [u8], n: usize) -> (r: Result<(&'a [u8], &'a [u8]), FromHciBytesError>)
    ensures
        match r {
            Ok((head, rest)) => data@.len() >= n && head@ == data@.take(n as int) && rest@
                == data@.skip(n as int),
            Err(e) => data@.len() < n && e == FromHciBytesError::InvalidSize,
        },
{
    if data.len() < n {
        Err(FromHciBytesError::InvalidSize)
    } else {
        let (head, rest) = data.split_at(n);
        assert(head@ =~= data@.take(n as int));
        assert(rest@ =~= data@.skip(n as int));
        Ok((head, rest))
    }
}

impl<'de> FromHciBytes<'de> for () {
    open spec fn spec_from_hci_bytes(data: Seq<u8>) -> Result<((), Seq<u8>), FromHciBytesError> {
        Ok(((), data))
    }

    fn from_hci_bytes(data: &'de [u8]) -> (r: Result<(Self, &'de [u8]), FromHciBytesError>) {
        Ok(((), data))
    }
}

impl<'de> FromHciBytes<'de> for u8 {
    open spec fn spec_from_hci_bytes(data: Seq<u8>) -> Result<(u8, Seq<u8>), FromHciBytesError> {
        if data.len() < 1 {
            Err(FromHciBytesError::InvalidSize)
        } else {
            Ok((data[0], data.skip(1)))
        }
    }

    fn from_hci_bytes(data: &'de [u8]) -> (r: Result<(Self, &'de [u8]), FromHciBytesError>) {
        let (head, rest) = match take_bytes(data, 1) {
            Ok(v) => v,
            Err(e) => return Err(e),
        };
        Ok((head[0], rest))
    }
}

impl<'de> FromHciBytes<'de> for i8 {
    open spec fn spec_from_hci_bytes(data: Seq<u8>) -> Result<(i8, Seq<u8>), FromHciBytesError> {
        if data.len() < 1 {
            Err(FromHciBytesError::InvalidSize)
        } else {
            Ok((data[0] as i8, data.skip(1)))
        }
    }

    fn from_hci_bytes(data: &'de [u8]) -> (r: Result<(Self, &'de [u8]), FromHciBytesError>) {
        let (head, rest) = match take_bytes(data, 1) {
            Ok(v) => v,
            Err(e) => return Err(e),
        };
        Ok((head[0] as i8, rest))
    }
}

impl<'de> FromHciBytes<'de> for bool {
    open spec fn spec_from_hci_bytes(data: Seq<u8>) -> Result<(bool, Seq<u8>), FromHciBytesError> {
        if data.len() < 1 {
            Err(FromHciBytesError::InvalidSize)
        } else if data[0] == 0 {
            Ok((false, data.skip(1)))
        } else if data[0] == 1 {
            Ok((true, data.skip(1)))
        } else {
            Err(FromHciBytesError::InvalidValue)
        }
    }

    fn from_hci_bytes(data: &'de [u8]) -> (r: Result<(Self, &'de [u8]), FromHciBytesError>) {
        let (head, rest) = match take_bytes(data, 1) {
            Ok(v) => v,
            Err(e) => return Err(e),
        };
        match head[0] {
            0 => Ok((false, rest)),
            1 => Ok((true, rest)),
            _ => Err(FromHciBytesError::InvalidValue),
        }
    }
}

impl<'de> FromHciBytes<'de> for u16 {
    open spec fn spec_from_hci_bytes(data: Seq<u8>) -> Result<(u16, Seq<u8>), FromHciBytesError> {
        if data.len() < 2 {
            Err(FromHciBytesError::InvalidSize)
        } else {
            Ok((le_u16(data), data.skip(2)))
        }
    }

    fn from_hci_bytes(data: &'de [u8]) -> (r: Result<(Self, &'de [u8]), FromHciBytesError>) {
        let (head, rest) = match take_bytes(data, 2) {
            Ok(v) => v,
            Err(e) => return Err(e),
        };
        let v = head[0] as u16 + 256 * head[1] as u16;
        Ok((v, rest))
    }
}

impl<'de> FromHciBytes<'de> for u32 {
    open spec fn spec_from_hci_bytes(data: Seq<u8>) -> Result<(u32, Seq<u8>), FromHciBytesError> {
        if data.len() < 4 {
            Err(FromHciBytesError::InvalidSize)
        } else {
            Ok((le_u32(data), data.skip(4)))
        }
    }

    fn from_hci_bytes(data: &'de [u8]) -> (r: Result<(Self, &'de [u8]), FromHciBytesError>) {
        let (head, rest) = match take_bytes(data, 4) {
            Ok(v) => v,
            Err(e) => return Err(e),
        };
        let v = head[0] as u32 + 256 * head[1] as u32 + 65536 * head[2] as u32 + 16777216
            * head[3] as u32;
        Ok((v, rest))
    }
}

impl<'de> FromHciBytes<'de> for [u8; 3] {
    open spec fn spec_from_hci_bytes(data: Seq<u8>) -> Result<(Seq<u8>, Seq<u8>), FromHciBytesError> {
        if data.len() < 3 {
            Err(FromHciBytesError::InvalidSize)
        } else {
            Ok((data.take(3), data.skip(3)))
        }
    }

    fn from_hci_bytes(data: &'de [u8]) -> (r: Result<(Self, &'de [u8]), FromHciBytesError>) {
        let (h, rest) = match take_bytes(data, 3) {
            Ok(v) => v,
            Err(e) => return Err(e),
        };
        let a = [h[0], h[1], h[2]];
        assert(a@ =~= data@.take(3));
        Ok((a, rest))
    }
}

impl<'de> FromHciBytes<'de> for [u8; 16] {
    open spec fn spec_from_hci_bytes(data: Seq<u8>) -> Result<(Seq<u8>, Seq<u8>), FromHciBytesError> {
        if data.len() < 16 {
            Err(FromHciBytesError::InvalidSize)
        } else {
            Ok((data.take(16), data.skip(16)))
        }
    }

    fn from_hci_bytes(data: &'de [u8]) -> (r: Result<(Self, &'de [u8]), FromHciBytesError>) {
        let (h, rest) = match take_bytes(data, 16) {
            Ok(v) => v,
            Err(e) => return Err(e),
        };
        let a = [
            h[0],
            h[1],
            h[2],
            h[3],
            h[4],
            h[5],
            h[6],
            h[7],
            h[8],
            h[9],
            h[10],
            h[11],
            h[12],
            h[13],
            h[14],
            h[15],
        ];
        assert(a@ =~= data@.take(16));
        Ok((a, rest))
    }
}

/// An array holds exactly the bytes of its view.
pub proof fn lemma_array3_of_view(a: [u8; 3])
    ensures
        a == array3(a@),
{
    assert(a =~= array3(a@));
}

/// An array holds exactly the bytes of its view.
pub proof fn lemma_array16_of_view(a: [u8; 16])
    ensures
        a == array16(a@),
{
    assert(a =~= array16(a@));
}

} // verus!
