//! The wire format: how each value that may appear in a packet is laid out
//! in bytes, and how it is read back.
//!
//! Every value is written by `store`, which appends its bytes to a buffer,
//! and read by `load`, which takes it from the front of a run of bytes and
//! says how many bytes it used. What the bytes are is said by `wire`; what a
//! run of bytes holds is said by `parse`.

use crate::fixed::{
    byte_of, byte_to_signed, high_byte, low_byte, short_from_bytes, short_to_bytes, signed_of,
    signed_of_pair, signed_to_byte, unsigned_of_pair, X16, X8,
};
use crate::packets::{Location, Vector3, CHUNK_WIDTH};
use crate::sealed::Sealed;
use crate::text::{field_of, is_encodable, load_field, store_field, text_of, TEXT_WIDTH};
use vstd::prelude::*;
use vstd::slice::slice_subrange;

verus! {

/// Why a value could not be written or read.
#[derive(Clone, Copy, Debug, PartialEq, Eq, Structural)]
pub enum WireError {
    /// The bytes or the value are not what the format allows.
    InvalidData,
    /// The bytes end before the value does.
    UnexpectedEof,
}

/// Dictates that this type can be loaded from a packet. This trait is sealed.
pub trait IncomingPacketType: Sealed + View + Sized {
    /// What the front of `source` holds: the value and the number of bytes
    /// that carry it, or the reason why it holds none.
    spec fn parse(source: Seq<u8>) -> Result<(Self::V, nat), WireError>;

    /// Dictates how to load this type from a packet.
    fn load(source: &[u8]) -> (result: Result<(Self, usize), WireError>)
        ensures
            match Self::parse(source@) {
                Ok((value, used)) => result matches Ok((loaded, count)) && loaded@ == value && count
                    == used,
                Err(error) => result matches Err(found) && found == error,
            },
            result matches Ok((_, count)) ==> count <= source@.len(),
    ;
}

/// Dictates that this type can be sent in a packet.
pub trait OutgoingPacketType: Sealed {
    /// The bytes that carry this value, or nothing where it cannot be
    /// written.
    spec fn wire(&self) -> Option<Seq<u8>>;

    /// Dictates how to store this type in a packet. The bytes are appended
    /// to `destination`; where the value cannot be written, `destination`
    /// stays as it was.
    fn store(&self, destination: &mut Vec<u8>) -> (result: Result<(), WireError>)
        ensures
            result is Ok <==> self.wire() is Some,
            result matches Err(error) ==> error == WireError::InvalidData && final(destination)@
                == old(destination)@,
            result is Ok ==> final(destination)@ == old(destination)@ + self.wire().unwrap(),
    ;
}

/// One wire after another, where both exist.
pub open spec fn joined(first: Option<Seq<u8>>, second: Option<Seq<u8>>) -> Option<Seq<u8>> {
    match (first, second) {
        (Some(head), Some(tail)) => Some(head + tail),
        _ => None,
    }
}

impl IncomingPacketType for u8 {
    open spec fn parse(source: Seq<u8>) -> Result<(u8, nat), WireError> {
        if source.len() < 1 {
            Err(WireError::UnexpectedEof)
        } else {
            Ok((source[0], 1))
        }
    }

    fn load(source: &[u8]) -> (result: Result<(u8, usize), WireError>) {
        if source.len() < 1 {
            return Err(WireError::UnexpectedEof);
        }
        Ok((source[0], 1))
    }
}

impl OutgoingPacketType for u8 {
    open spec fn wire(&self) -> Option<Seq<u8>> {
        Some(seq![*self])
    }

    fn store(&self, destination: &mut Vec<u8>) -> (result: Result<(), WireError>) {
        destination.push(*self);
        assert(destination@ =~= old(destination)@ + seq![*self]);
        Ok(())
    }
}

impl IncomingPacketType for i8 {
    open spec fn parse(source: Seq<u8>) -> Result<(i8, nat), WireError> {
        if source.len() < 1 {
            Err(WireError::UnexpectedEof)
        } else {
            Ok((signed_of(source[0]) as i8, 1))
        }
    }

    fn load(source: &[u8]) -> (result: Result<(i8, usize), WireError>) {
        if source.len() < 1 {
            return Err(WireError::UnexpectedEof);
        }
        Ok((byte_to_signed(source[0]), 1))
    }
}

impl OutgoingPacketType for i8 {
    open spec fn wire(&self) -> Option<Seq<u8>> {
        Some(seq![byte_of(*self as int) as u8])
    }

    fn store(&self, destination: &mut Vec<u8>) -> (result: Result<(), WireError>) {
        destination.push(signed_to_byte(*self));
        assert(destination@ =~= old(destination)@ + seq![byte_of(*self as int) as u8]);
        Ok(())
    }
}

impl IncomingPacketType for u16 {
    open spec fn parse(source: Seq<u8>) -> Result<(u16, nat), WireError> {
        if source.len() < 2 {
            Err(WireError::UnexpectedEof)
        } else {
            Ok((unsigned_of_pair(source[0], source[1]) as u16, 2))
        }
    }

    fn load(source: &[u8]) -> (result: Result<(u16, usize), WireError>) {
        if source.len() < 2 {
            return Err(WireError::UnexpectedEof);
        }
        Ok((short_from_bytes(source[0], source[1]), 2))
    }
}

impl OutgoingPacketType for u16 {
    open spec fn wire(&self) -> Option<Seq<u8>> {
        Some(seq![(*self / 256) as u8, (*self % 256) as u8])
    }

    fn store(&self, destination: &mut Vec<u8>) -> (result: Result<(), WireError>) {
        let (high, low) = short_to_bytes(*self);
        destination.push(high);
        destination.push(low);
        assert(destination@ =~= old(destination)@ + seq![(*self / 256) as u8, (*self % 256) as u8]);
        Ok(())
    }
}

impl IncomingPacketType for X8 {
    open spec fn parse(source: Seq<u8>) -> Result<(X8, nat), WireError> {
        if source.len() < 1 {
            Err(WireError::UnexpectedEof)
        } else {
            Ok((X8::of_raw(signed_of(source[0]) as i8), 1))
        }
    }

    fn load(source: &[u8]) -> (result: Result<(X8, usize), WireError>) {
        if source.len() < 1 {
            return Err(WireError::UnexpectedEof);
        }
        Ok((X8::from_bits(byte_to_signed(source[0])), 1))
    }
}

impl OutgoingPacketType for X8 {
    open spec fn wire(&self) -> Option<Seq<u8>> {
        Some(seq![byte_of(self.raw()) as u8])
    }

    fn store(&self, destination: &mut Vec<u8>) -> (result: Result<(), WireError>) {
        destination.push(signed_to_byte(self.to_bits()));
        assert(destination@ =~= old(destination)@ + seq![byte_of(self.raw()) as u8]);
        Ok(())
    }
}

impl IncomingPacketType for X16 {
    open spec fn parse(source: Seq<u8>) -> Result<(X16, nat), WireError> {
        if source.len() < 2 {
            Err(WireError::UnexpectedEof)
        } else {
            Ok((X16::of_raw(signed_of_pair(source[0], source[1]) as i16), 2))
        }
    }

    fn load(source: &[u8]) -> (result: Result<(X16, usize), WireError>) {
        if source.len() < 2 {
            return Err(WireError::UnexpectedEof);
        }
        Ok((X16::from_be_bytes(source[0], source[1]), 2))
    }
}

impl OutgoingPacketType for X16 {
    open spec fn wire(&self) -> Option<Seq<u8>> {
        Some(seq![high_byte(self.raw()) as u8, low_byte(self.raw()) as u8])
    }

    fn store(&self, destination: &mut Vec<u8>) -> (result: Result<(), WireError>) {
        let (high, low) = self.to_be_bytes();
        destination.push(high);
        destination.push(low);
        assert(destination@ =~= old(destination)@ + seq![
            high_byte(self.raw()) as u8,
            low_byte(self.raw()) as u8,
        ]);
        Ok(())
    }
}

impl<T: IncomingPacketType> IncomingPacketType for Vector3<T> {
    open spec fn parse(source: Seq<u8>) -> Result<(Vector3<T::V>, nat), WireError> {
        match T::parse(source) {
            Err(error) => Err(error),
            Ok((x, first)) => match T::parse(source.skip(first as int)) {
                Err(error) => Err(error),
                Ok((y, second)) => match T::parse(source.skip((first + second) as int)) {
                    Err(error) => Err(error),
                    Ok((z, third)) => Ok((Vector3 { x, y, z }, first + second + third)),
                },
            },
        }
    }

    fn load(source: &[u8]) -> (result: Result<(Vector3<T>, usize), WireError>) {
        let (x, first) = match T::load(source) {
            Ok(found) => found,
            Err(error) => {
                return Err(error);
            },
        };
        let rest = slice_subrange(source, first, source.len());
        assert(rest@ =~= source@.skip(first as int));
        let (y, second) = match T::load(rest) {
            Ok(found) => found,
            Err(error) => {
                return Err(error);
            },
        };
        let rest = slice_subrange(source, first + second, source.len());
        assert(rest@ =~= source@.skip((first + second) as int));
        let (z, third) = match T::load(rest) {
            Ok(found) => found,
            Err(error) => {
                return Err(error);
            },
        };
        Ok((Vector3 { x, y, z }, first + second + third))
    }
}

impl<T: OutgoingPacketType> OutgoingPacketType for Vector3<T> {
    open spec fn wire(&self) -> Option<Seq<u8>> {
        joined(joined(self.x.wire(), self.y.wire()), self.z.wire())
    }

    fn store(&self, destination: &mut Vec<u8>) -> (result: Result<(), WireError>) {
        let mut buffer: Vec<u8> = Vec::new();
        match self.x.store(&mut buffer) {
            Ok(()) => {},
            Err(error) => {
                return Err(error);
            },
        }
        match self.y.store(&mut buffer) {
            Ok(()) => {},
            Err(error) => {
                return Err(error);
            },
        }
        match self.z.store(&mut buffer) {
            Ok(()) => {},
            Err(error) => {
                return Err(error);
            },
        }
        assert(buffer@ =~= self.wire().unwrap());
        destination.append(&mut buffer);
        Ok(())
    }
}

impl IncomingPacketType for Location {
    open spec fn parse(source: Seq<u8>) -> Result<(Location, nat), WireError> {
        match Vector3::<X16>::parse(source) {
            Err(error) => Err(error),
            Ok((position, first)) => match u8::parse(source.skip(first as int)) {
                Err(error) => Err(error),
                Ok((yaw, second)) => match u8::parse(source.skip((first + second) as int)) {
                    Err(error) => Err(error),
                    Ok((pitch, third)) => Ok(
                        (Location { position, yaw, pitch }, first + second + third),
                    ),
                },
            },
        }
    }

    fn load(source: &[u8]) -> (result: Result<(Location, usize), WireError>) {
        let (position, first) = match Vector3::<X16>::load(source) {
            Ok(found) => found,
            Err(error) => {
                return Err(error);
            },
        };
        let rest = slice_subrange(source, first, source.len());
        assert(rest@ =~= source@.skip(first as int));
        let (yaw, second) = match u8::load(rest) {
            Ok(found) => found,
            Err(error) => {
                return Err(error);
            },
        };
        let rest = slice_subrange(source, first + second, source.len());
        assert(rest@ =~= source@.skip((first + second) as int));
        let (pitch, third) = match u8::load(rest) {
            Ok(found) => found,
            Err(error) => {
                return Err(error);
            },
        };
        Ok((Location { position, yaw, pitch }, first + second + third))
    }
}

impl OutgoingPacketType for Location {
    open spec fn wire(&self) -> Option<Seq<u8>> {
        joined(joined(self.position.wire(), self.yaw.wire()), self.pitch.wire())
    }

    fn store(&self, destination: &mut Vec<u8>) -> (result: Result<(), WireError>) {
        let mut buffer: Vec<u8> = Vec::new();
        match self.position.store(&mut buffer) {
            Ok(()) => {},
            Err(error) => {
                return Err(error);
            },
        }
        match self.yaw.store(&mut buffer) {
            Ok(()) => {},
            Err(error) => {
                return Err(error);
            },
        }
        match self.pitch.store(&mut buffer) {
            Ok(()) => {},
            Err(error) => {
                return Err(error);
            },
        }
        assert(buffer@ =~= self.wire().unwrap());
        destination.append(&mut buffer);
        Ok(())
    }
}

impl IncomingPacketType for String {
    open spec fn parse(source: Seq<u8>) -> Result<(Seq<char>, nat), WireError> {
        if source.len() < TEXT_WIDTH {
            Err(WireError::UnexpectedEof)
        } else {
            Ok((text_of(source.take(TEXT_WIDTH as int)), TEXT_WIDTH as nat))
        }
    }

    fn load(source: &[u8]) -> (result: Result<(String, usize), WireError>) {
        if source.len() < TEXT_WIDTH {
            return Err(WireError::UnexpectedEof);
        }
        let field = slice_subrange(source, 0, TEXT_WIDTH);
        assert(field@ =~= source@.take(TEXT_WIDTH as int));
        Ok((load_field(field), TEXT_WIDTH))
    }
}

impl OutgoingPacketType for String {
    open spec fn wire(&self) -> Option<Seq<u8>> {
        if is_encodable(self@) {
            Some(field_of(self@))
        } else {
            None
        }
    }

    fn store(&self, destination: &mut Vec<u8>) -> (result: Result<(), WireError>) {
        if store_field(self.as_str(), destination) {
            Ok(())
        } else {
            Err(WireError::InvalidData)
        }
    }
}

impl IncomingPacketType for [u8; 1024] {
    open spec fn parse(source: Seq<u8>) -> Result<(Seq<u8>, nat), WireError> {
        if source.len() < CHUNK_WIDTH {
            Err(WireError::UnexpectedEof)
        } else {
            Ok((source.take(CHUNK_WIDTH as int), CHUNK_WIDTH as nat))
        }
    }

    fn load(source: &[u8]) -> (result: Result<([u8; 1024], usize), WireError>) {
        if source.len() < CHUNK_WIDTH {
            return Err(WireError::UnexpectedEof);
        }
        let mut chunk: [u8; 1024] = [0u8; 1024];
        let mut at: usize = 0;
        while at < CHUNK_WIDTH
            invariant
                at <= CHUNK_WIDTH,
                source@.len() >= CHUNK_WIDTH,
                forall|i: int| 0 <= i < at ==> chunk@[i] == source@[i],
            decreases CHUNK_WIDTH - at,
        {
            chunk[at] = source[at];
            at = at + 1;
        }
        assert(chunk@ =~= source@.take(CHUNK_WIDTH as int));
        Ok((chunk, CHUNK_WIDTH))
    }
}

impl OutgoingPacketType for [u8; 1024] {
    open spec fn wire(&self) -> Option<Seq<u8>> {
        Some(self@)
    }

    fn store(&self, destination: &mut Vec<u8>) -> (result: Result<(), WireError>) {
        let mut at: usize = 0;
        while at < CHUNK_WIDTH
            invariant
                at <= CHUNK_WIDTH,
                destination@ == old(destination)@ + self@.take(at as int),
            decreases CHUNK_WIDTH - at,
        {
            destination.push(self[at]);
            at = at + 1;
            assert(destination@ =~= old(destination)@ + self@.take(at as int));
        }
        assert(self@.take(CHUNK_WIDTH as int) =~= self@);
        Ok(())
    }
}

} // verus!
