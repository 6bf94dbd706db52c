//! Host Controller Interface (HCI) event parsing for Bluetooth, with every
//! parser stated against a model of its bytes and proved.
//!
//! Multi-byte HCI fields are little-endian; an event parser reads its fields
//! one after another from the front of a byte slice and hands back what it
//! did not consume.
use vstd::prelude::*;

pub mod cmd;
pub mod event;
pub mod param;
pub mod primitives;

pub use event::EventParams;

verus! {

/// Why a value could not be read from HCI bytes.
#[derive(Debug, Clone, Copy, PartialEq, Eq, Hash, Structural)]
pub enum FromHciBytesError {
    /// There were not enough bytes (or, for a complete read, too many).
    InvalidSize,
    /// A byte held a value that the field does not allow.
    InvalidValue,
}

/// What a parser's outcome `r` (a value and the unconsumed bytes) looks like when the
/// specification of the parse is `s` (a model of the value and the unconsumed bytes).
pub open spec fn parsed_as<'a, T: View>(
    r: Result<(T, &'a [u8]), FromHciBytesError>,
    s: Result<(T::V, Seq<u8>), FromHciBytesError>,
) -> bool {
    match r {
        Ok((v, rest)) => s == Ok::<(T::V, Seq<u8>), FromHciBytesError>((v@, rest@)),
        Err(e) => s == Err::<(T::V, Seq<u8>), FromHciBytesError>(e),
    }
}

/// A parse that must consume every byte: leftover bytes are an `InvalidSize` error.
pub open spec fn spec_complete<V>(s: Result<(V, Seq<u8>), FromHciBytesError>) -> Result<
    V,
    FromHciBytesError,
> {
    match s {
        Ok((v, rest)) => if rest.len() == 0 {
            Ok(v)
        } else {
            Err(FromHciBytesError::InvalidSize)
        },
        Err(e) => Err(e),
    }
}

/// What a complete parse's outcome `r` looks like when its specification is `s`.
pub open spec fn completed_as<T: View>(
    r: Result<T, FromHciBytesError>,
    s: Result<T::V, FromHciBytesError>,
) -> bool {
    match r {
        Ok(v) => s == Ok::<T::V, FromHciBytesError>(v@),
        Err(e) => s == Err::<T::V, FromHciBytesError>(e),
    }
}

/// A value that can be read from the front of a slice of HCI bytes.
pub trait FromHciBytes<'de>: Sized + View {
    /// The model of reading a value from `data`: the value's view and the bytes left over.
    spec fn spec_from_hci_bytes(data: Seq<u8>) -> Result<(Self::V, Seq<u8>), FromHciBytesError>;

    /// Reads a value from the front of `data`, returning it with the unconsumed rest.
    fn from_hci_bytes(data: &'de [u8]) -> (r: Result<(Self, &'de [u8]), FromHciBytesError>)
        ensures
            parsed_as(r, Self::spec_from_hci_bytes(data@)),
    ;

    /// Reads a value that must take up all of `data`.
    fn from_hci_bytes_complete(data: &'de [u8]) -> (r: Result<Self, FromHciBytesError>)
        ensures
            completed_as(r, spec_complete(Self::spec_from_hci_bytes(data@))),
            match Self::spec_from_hci_bytes(data@) {
                Ok((v, rest)) => if rest.len() == 0 {
                    r matches Ok(x) && x@ == v
                } else {
                    r == Err::<Self, FromHciBytesError>(FromHciBytesError::InvalidSize)
                },
                Err(e) => r == Err::<Self, FromHciBytesError>(e),
            },
    {
        let (v, rest) = match Self::from_hci_bytes(data) {
            Ok(v) => v,
            Err(e) => return Err(e),
        };
        if rest.is_empty() {
            Ok(v)
        } else {
            Err(FromHciBytesError::InvalidSize)
        }
    }
}

/// A value whose HCI wire form is a run of bytes that it holds.
pub trait AsHciBytes {
    /// The bytes of the value's wire form.
    spec fn spec_hci_bytes(&self) -> Seq<u8>;

    /// Borrows the bytes of the value's wire form.
    fn as_hci_bytes(&self) -> (r: &[u8])
        ensures
            r@ == self.spec_hci_bytes(),
    ;
}

} // verus!
