//! The values that travel in packets, and the packets themselves.

use crate::fixed::{X16, X8};
use vstd::prelude::*;

verus! {

/// Size of the raw block that carries level data.
pub const CHUNK_WIDTH: usize = 1024;

/// The byte that says "operator" in a permission field.
pub const OPERATOR_FLAG: u8 = 0x64;

/// Three components, in axis order.
#[derive(Clone, Copy, Debug, PartialEq, Eq)]
pub struct Vector3<T> {
    pub x: T,
    pub y: T,
    pub z: T,
}

impl<T: View> View for Vector3<T> {
    type V = Vector3<T::V>;

    open spec fn view(&self) -> Vector3<T::V> {
        Vector3 { x: self.x@, y: self.y@, z: self.z@ }
    }
}

/// Where a player stands and where the player looks.
#[derive(Clone, Copy, Debug, PartialEq, Eq)]
pub struct Location {
    pub position: Vector3<X16>,
    pub yaw: u8,
    pub pitch: u8,
}

impl View for Location {
    type V = Location;

    open spec fn view(&self) -> Location {
        *self
    }
}

/// A packet that a client sends to the server.
#[derive(Clone, Debug, PartialEq, Eq)]
pub enum Incoming {
    PlayerIdentification { version: u8, username: String, key: String },
    SetBlock { position: Vector3<u16>, state: u8 },
    SetLocation { location: Location },
    Message { message: String },
}

/// What an incoming packet says, with its texts as sequences of characters.
pub enum IncomingView {
    PlayerIdentification { version: u8, username: Seq<char>, key: Seq<char> },
    SetBlock { position: Vector3<u16>, state: u8 },
    SetLocation { location: Location },
    Message { message: Seq<char> },
}

impl View for Incoming {
    type V = IncomingView;

    open spec fn view(&self) -> IncomingView {
        match *self {
            Incoming::PlayerIdentification { version, username, key } => {
                IncomingView::PlayerIdentification { version, username: username@, key: key@ }
            },
            Incoming::SetBlock { position, state } => IncomingView::SetBlock { position, state },
            Incoming::SetLocation { location } => IncomingView::SetLocation { location },
            Incoming::Message { message } => IncomingView::Message { message: message@ },
        }
    }
}

/// A packet that the server sends to a client.
#[derive(Clone, Debug, PartialEq, Eq)]
pub enum Outgoing {
    ServerIdentification { version: u8, name: String, motd: String, operator: bool },
    Ping,
    LevelInit,
    LevelDataChunk { data_length: u16, data_chunk: [u8; 1024], percent_complete: u8 },
    LevelFinalize { size: Vector3<u16> },
    SetBlock { position: Vector3<u16>, block: u8 },
    SpawnPlayer { id: i8, name: String, location: Location },
    TeleportPlayer { id: i8, location: Location },
    UpdatePlayerLocation { id: i8, position_change: Vector3<X8>, yaw: u8, pitch: u8 },
    UpdatePlayerPosition { id: i8, position_change: Vector3<X8> },
    UpdatePlayerRotation { id: i8, yaw: u8, pitch: u8 },
    DespawnPlayer { id: i8 },
    Message { id: i8, message: String },
    Disconnect { reason: String },
    UpdateUser { operator: bool },
}

/// What an outgoing packet says, with its texts as sequences of characters
/// and its chunk as a sequence of bytes.
pub enum OutgoingView {
    ServerIdentification { version: u8, name: Seq<char>, motd: Seq<char>, operator: bool },
    Ping,
    LevelInit,
    LevelDataChunk { data_length: u16, data_chunk: Seq<u8>, percent_complete: u8 },
    LevelFinalize { size: Vector3<u16> },
    SetBlock { position: Vector3<u16>, block: u8 },
    SpawnPlayer { id: i8, name: Seq<char>, location: Location },
    TeleportPlayer { id: i8, location: Location },
    UpdatePlayerLocation { id: i8, position_change: Vector3<X8>, yaw: u8, pitch: u8 },
    UpdatePlayerPosition { id: i8, position_change: Vector3<X8> },
    UpdatePlayerRotation { id: i8, yaw: u8, pitch: u8 },
    DespawnPlayer { id: i8 },
    Message { id: i8, message: Seq<char> },
    Disconnect { reason: Seq<char> },
    UpdateUser { operator: bool },
}

impl View for Outgoing {
    type V = OutgoingView;

    open spec fn view(&self) -> OutgoingView {
        match *self {
            Outgoing::ServerIdentification { version, name, motd, operator } => {
                OutgoingView::ServerIdentification { version, name: name@, motd: motd@, operator }
            },
            Outgoing::Ping => OutgoingView::Ping,
            Outgoing::LevelInit => OutgoingView::LevelInit,
            Outgoing::LevelDataChunk { data_length, data_chunk, percent_complete } => {
                OutgoingView::LevelDataChunk {
                    data_length,
                    data_chunk: data_chunk@,
                    percent_complete,
                }
            },
            Outgoing::LevelFinalize { size } => OutgoingView::LevelFinalize { size },
            Outgoing::SetBlock { position, block } => OutgoingView::SetBlock { position, block },
            Outgoing::SpawnPlayer { id, name, location } => {
                OutgoingView::SpawnPlayer { id, name: name@, location }
            },
            Outgoing::TeleportPlayer { id, location } => {
                OutgoingView::TeleportPlayer { id, location }
            },
            Outgoing::UpdatePlayerLocation { id, position_change, yaw, pitch } => {
                OutgoingView::UpdatePlayerLocation { id, position_change, yaw, pitch }
            },
            Outgoing::UpdatePlayerPosition { id, position_change } => {
                OutgoingView::UpdatePlayerPosition { id, position_change }
            },
            Outgoing::UpdatePlayerRotation { id, yaw, pitch } => {
                OutgoingView::UpdatePlayerRotation { id, yaw, pitch }
            },
            Outgoing::DespawnPlayer { id } => OutgoingView::DespawnPlayer { id },
            Outgoing::Message { id, message } => OutgoingView::Message { id, message: message@ },
            Outgoing::Disconnect { reason } => OutgoingView::Disconnect { reason: reason@ },
            Outgoing::UpdateUser { operator } => OutgoingView::UpdateUser { operator },
        }
    }
}

} // verus!
