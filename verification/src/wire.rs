//! The positional encoding of command payloads.
use crate::bytes::{read_u16, read_u64, u16_at, u64_at};
use crate::error::{DeviceError, Result};
use vstd::prelude::*;
use vstd::slice::slice_subrange;

verus! {

/// A request type decoded from the compact YubiHSM wire representation.
///
/// Implementations consume exactly the fields owned by the type. Call
/// [`decode`] at a command boundary to reject trailing input consistently.
pub trait Decode<'a>: Sized {
    /// What a decoded value says.
    type Model;

    /// What this value says.
    spec fn model(self) -> Self::Model;

    /// What the input says from a position on, and where it ends.
    spec fn layout(input: Seq<u8>, at: int) -> core::result::Result<
        (Self::Model, int),
        DeviceError,
    >;

    /// Reads one value.
    fn decode(reader: &mut Reader<'a>) -> (value: Result<Self>)
        requires
            old(reader).valid(),
        ensures
            final(reader).valid(),
            final(reader).encoded == old(reader).encoded,
            match value {
                Ok(value) => Self::layout(
                    old(reader).encoded@,
                    old(reader).position as int,
                ) == Ok::<
                    (Self::Model, int),
                    DeviceError,
                >((value.model(), final(reader).position as int)),
                Err(error) => Self::layout(old(reader).encoded@, old(reader).position as int)
                    == Err::<(Self::Model, int), DeviceError>(error),
            },
    ;
}

/// What a complete payload says: all of it belongs to the value.
pub open spec fn decoded<'a, T: Decode<'a>>(input: Seq<u8>) -> core::result::Result<
    T::Model,
    DeviceError,
> {
    match T::layout(input, 0) {
        Ok((value, end)) => if end == input.len() {
            Ok(value)
        } else {
            Err(DeviceError::WrongLength)
        },
        Err(error) => Err(error),
    }
}

/// Decodes one complete command payload.
pub fn decode<'a, T: Decode<'a>>(encoded: &'a [u8]) -> (value: Result<T>)
    ensures
        match value {
            Ok(value) => decoded::<T>(encoded@) == Ok::<T::Model, DeviceError>(value.model()),
            Err(error) => decoded::<T>(encoded@) == Err::<T::Model, DeviceError>(error),
        },
{
    let mut reader = Reader::new(encoded);
    match T::decode(&mut reader) {
        Ok(value) => match reader.finish() {
            Ok(()) => Ok(value),
            Err(error) => Err(error),
        },
        Err(error) => Err(error),
    }
}

/// Bounds-checked reader for the positional YubiHSM command encoding.
#[derive(Clone, Copy, Debug)]
pub struct Reader<'a> {
    pub encoded: &'a [u8],
    pub position: usize,
}

impl<'a> Reader<'a> {
    /// Whether the position lies in the input.
    pub open spec fn valid(self) -> bool {
        self.position <= self.encoded@.len()
    }

    /// Whether so many bytes are left.
    pub open spec fn holds(self, length: int) -> bool {
        self.position + length <= self.encoded@.len()
    }

    /// Whether only the position moved on, by so many bytes.
    pub open spec fn advanced(self, before: Reader<'a>, length: int) -> bool {
        self.encoded == before.encoded && self.position == before.position + length
    }

    /// Starts at the beginning of the input.
    pub fn new(encoded: &'a [u8]) -> (reader: Reader<'a>)
        ensures
            reader.valid(),
            reader.encoded == encoded,
            reader.position == 0,
    {
        Reader { encoded, position: 0 }
    }

    /// Returns how many bytes are left.
    pub fn remaining_len(&self) -> (length: usize)
        requires
            self.valid(),
        ensures
            length == self.encoded@.len() - self.position,
    {
        self.encoded.len() - self.position
    }

    /// Reads a byte.
    pub fn read_u8(&mut self) -> (value: Result<u8>)
        requires
            old(self).valid(),
        ensures
            final(self).valid(),
            match value {
                Ok(value) => old(self).holds(1)
                    && value == old(self).encoded@[old(self).position as int]
                    && final(self).advanced(*old(self), 1),
                Err(error) => !old(self).holds(1) && error == DeviceError::WrongLength
                    && *final(self) == *old(self),
            },
    {
        let bytes = self.read_array::<1>()?;
        Ok(bytes[0])
    }

    /// Reads a big-endian number of two bytes.
    pub fn read_u16(&mut self) -> (value: Result<u16>)
        requires
            old(self).valid(),
        ensures
            final(self).valid(),
            match value {
                Ok(value) => old(self).holds(2) && value == u16_at(
                    old(self).encoded@,
                    old(self).position as int,
                ) && final(self).advanced(*old(self), 2),
                Err(error) => !old(self).holds(2) && error == DeviceError::WrongLength
                    && *final(self) == *old(self),
            },
    {
        let bytes = self.read_array::<2>()?;
        Ok(read_u16(bytes, 0))
    }

    /// Reads a big-endian number of eight bytes.
    pub fn read_u64(&mut self) -> (value: Result<u64>)
        requires
            old(self).valid(),
        ensures
            final(self).valid(),
            match value {
                Ok(value) => old(self).holds(8) && value == u64_at(
                    old(self).encoded@,
                    old(self).position as int,
                ) && final(self).advanced(*old(self), 8),
                Err(error) => !old(self).holds(8) && error == DeviceError::WrongLength
                    && *final(self) == *old(self),
            },
    {
        let bytes = self.read_array::<8>()?;
        Ok(read_u64(bytes, 0))
    }

    /// Reads a byte and then as many bytes as it says.
    pub fn read_u8_sized_slice(&mut self) -> (value: Result<&'a [u8]>)
        requires
            old(self).valid(),
        ensures
            final(self).valid(),
            final(self).encoded == old(self).encoded,
            ({
                let input = old(self).encoded@;
                let start = old(self).position + 1;
                let end = start + input[start - 1];
                match value {
                    Ok(value) => end <= input.len() && start <= input.len() && value@
                        == input.subrange(start, end) && final(self).position == end,
                    Err(error) => (start > input.len() || end > input.len()) && error
                        == DeviceError::WrongLength,
                }
            }),
    {
        let length: usize = self.read_u8()? as usize;
        self.read_slice(length)
    }

    /// Reads a number of two bytes and then as many bytes as it says.
    pub fn read_u16_sized_slice(&mut self) -> (value: Result<&'a [u8]>)
        requires
            old(self).valid(),
        ensures
            final(self).valid(),
            final(self).encoded == old(self).encoded,
            ({
                let input = old(self).encoded@;
                let start = old(self).position + 2;
                let end = start + u16_at(input, start - 2);
                match value {
                    Ok(value) => end <= input.len() && start <= input.len() && value@
                        == input.subrange(start, end) && final(self).position == end,
                    Err(error) => (start > input.len() || end > input.len()) && error
                        == DeviceError::WrongLength,
                }
            }),
    {
        let length: usize = self.read_u16()? as usize;
        self.read_slice(length)
    }

    /// Reads a fixed number of bytes.
    pub fn read_array<const N: usize>(&mut self) -> (value: Result<&'a [u8]>)
        requires
            old(self).valid(),
        ensures
            final(self).valid(),
            match value {
                Ok(value) => old(self).holds(N as int) && value@ == old(self).encoded@.subrange(
                    old(self).position as int,
                    old(self).position + N,
                ) && final(self).advanced(*old(self), N as int),
                Err(error) => !old(self).holds(N as int) && error == DeviceError::WrongLength
                    && *final(self) == *old(self),
            },
    {
        self.read_slice(N)
    }

    /// Reads so many bytes.
    pub fn read_slice(&mut self, length: usize) -> (value: Result<&'a [u8]>)
        requires
            old(self).valid(),
        ensures
            final(self).valid(),
            match value {
                Ok(value) => old(self).holds(length as int)
                    && value@ == old(self).encoded@.subrange(
                        old(self).position as int,
                        old(self).position + length,
                    )
                    && final(self).advanced(*old(self), length as int),
                Err(error) => !old(self).holds(length as int) && error == DeviceError::WrongLength
                    && *final(self) == *old(self),
            },
    {
        if self.encoded.len() - self.position < length {
            return Err(DeviceError::WrongLength);
        }
        let start: usize = self.position;
        self.position = start + length;
        Ok(slice_subrange(self.encoded, start, start + length))
    }

    /// Reads all that is left.
    pub fn read_remainder(&mut self) -> (value: &'a [u8])
        requires
            old(self).valid(),
        ensures
            final(self).valid(),
            final(self).encoded == old(self).encoded,
            final(self).position == old(self).encoded@.len(),
            value@ == old(self).encoded@.subrange(
                old(self).position as int,
                old(self).encoded@.len() as int,
            ),
    {
        let start: usize = self.position;
        self.position = self.encoded.len();
        slice_subrange(self.encoded, start, self.encoded.len())
    }

    /// Checks that nothing is left.
    pub fn finish(self) -> (done: Result<()>)
        requires
            self.valid(),
        ensures
            done == (if self.position == self.encoded@.len() {
                Ok(())
            } else {
                Err(DeviceError::WrongLength)
            }),
    {
        if self.position == self.encoded.len() {
            Ok(())
        } else {
            Err(DeviceError::WrongLength)
        }
    }
}

} // verus!
