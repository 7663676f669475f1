//! Closes the set of types that may appear in a packet.

use crate::fixed::{X16, X8};
use crate::packets::{Incoming, Location, Outgoing, Vector3};
use vstd::prelude::*;

verus! {

/// Marks the types that the wire format knows. Nothing outside this crate
/// can add to them.
pub trait Sealed {

}

impl Sealed for u8 {

}

impl Sealed for i8 {

}

impl Sealed for X8 {

}

impl Sealed for u16 {

}

impl Sealed for X16 {

}

impl Sealed for [u8; 1024] {

}

impl<T: Sealed> Sealed for Vector3<T> {

}

impl Sealed for String {

}

impl Sealed for Incoming {

}

impl Sealed for Outgoing {

}

impl Sealed for Location {

}

} // verus!
