//! The packet codec: one discriminant byte, then the fields of the variant
//! in a fixed order, with no length and no checksum.

use crate::fixed::{byte_of, byte_to_signed, short_from_bytes, signed_of, unsigned_of_pair, X8};
use crate::networking::{IncomingPacketType, OutgoingPacketType, WireError};
use crate::packets::{
    Incoming, IncomingView, Location, Outgoing, OutgoingView, Vector3, OPERATOR_FLAG,
};
use crate::text::{field_of, is_encodable, load_field, text_of};
use vstd::prelude::*;
use vstd::slice::slice_subrange;

verus! {

/// Discriminant of a player's identification.
pub const ID_IDENTIFICATION: u8 = 0x00;

/// Discriminant of a block edit that a client asks for.
pub const ID_SET_BLOCK_REQUEST: u8 = 0x05;

/// Discriminant of a player's own location.
pub const ID_SET_LOCATION: u8 = 0x08;

/// Discriminant of a chat message, in both directions.
pub const ID_MESSAGE: u8 = 0x0d;

/// The byte behind an identification, which carries nothing.
pub const FILLER: u8 = 0x00;

/// The byte in the slot of a player id where a client speaks of itself.
pub const OWN_ID: u8 = 0xff;

/// The value that the whole of `bytes` carries, where it carries one.
pub open spec fn value_of<T: IncomingPacketType>(bytes: Seq<u8>) -> T::V {
    T::parse(bytes).unwrap().0
}

/// How many bytes a packet from a client takes, discriminant included, or
/// nothing where the discriminant is not one that a client may send.
pub open spec fn spec_incoming_width(discriminant: u8) -> Option<nat> {
    if discriminant == ID_IDENTIFICATION {
        Some(131)
    } else if discriminant == ID_SET_BLOCK_REQUEST {
        Some(9)
    } else if discriminant == ID_SET_LOCATION {
        Some(10)
    } else if discriminant == ID_MESSAGE {
        Some(66)
    } else {
        None
    }
}

/// What a packet from a client says, given bytes that begin with a known
/// discriminant and are as many as its variant takes.
pub open spec fn incoming_at(source: Seq<u8>) -> IncomingView {
    if source[0] == ID_IDENTIFICATION {
        IncomingView::PlayerIdentification {
            version: source[1],
            username: text_of(source.subrange(2, 66)),
            key: text_of(source.subrange(66, 130)),
        }
    } else if source[0] == ID_SET_BLOCK_REQUEST {
        IncomingView::SetBlock {
            position: value_of::<Vector3<u16>>(source.subrange(1, 7)),
            state: if source[7] != 0 {
                source[8]
            } else {
                0
            },
        }
    } else if source[0] == ID_SET_LOCATION {
        IncomingView::SetLocation { location: value_of::<Location>(source.subrange(2, 10)) }
    } else {
        IncomingView::Message { message: text_of(source.subrange(2, 66)) }
    }
}

/// How many bytes a packet from a client takes, discriminant included.
pub fn incoming_width(discriminant: u8) -> (width: Option<usize>)
    ensures
        width is Some <==> spec_incoming_width(discriminant) is Some,
        width matches Some(count) ==> count == spec_incoming_width(discriminant).unwrap(),
{
    if discriminant == ID_IDENTIFICATION {
        Some(131)
    } else if discriminant == ID_SET_BLOCK_REQUEST {
        Some(9)
    } else if discriminant == ID_SET_LOCATION {
        Some(10)
    } else if discriminant == ID_MESSAGE {
        Some(66)
    } else {
        None
    }
}

impl IncomingPacketType for Incoming {
    open spec fn parse(source: Seq<u8>) -> Result<(IncomingView, nat), WireError> {
        if source.len() < 1 {
            Err(WireError::UnexpectedEof)
        } else {
            match spec_incoming_width(source[0]) {
                None => Err(WireError::InvalidData),
                Some(width) => if source.len() < width {
                    Err(WireError::UnexpectedEof)
                } else {
                    Ok((incoming_at(source), width))
                },
            }
        }
    }

    fn load(source: &[u8]) -> (result: Result<(Incoming, usize), WireError>) {
        if source.len() < 1 {
            return Err(WireError::UnexpectedEof);
        }
        let discriminant = source[0];
        let width = match incoming_width(discriminant) {
            Some(width) => width,
            None => {
                return Err(WireError::InvalidData);
            },
        };
        if source.len() < width {
            return Err(WireError::UnexpectedEof);
        }
        if discriminant == ID_IDENTIFICATION {
            let version = source[1];
            let username = load_field(slice_subrange(source, 2, 66));
            let key = load_field(slice_subrange(source, 66, 130));
            Ok((Incoming::PlayerIdentification { version, username, key }, width))
        } else if discriminant == ID_SET_BLOCK_REQUEST {
            let position = match Vector3::<u16>::load(slice_subrange(source, 1, 7)) {
                Ok((position, _)) => position,
                Err(error) => {
                    return Err(error);
                },
            };
            let state = if source[7] != 0 {
                source[8]
            } else {
                0
            };
            Ok((Incoming::SetBlock { position, state }, width))
        } else if discriminant == ID_SET_LOCATION {
            let location = match Location::load(slice_subrange(source, 2, 10)) {
                Ok((location, _)) => location,
                Err(error) => {
                    return Err(error);
                },
            };
            Ok((Incoming::SetLocation { location }, width))
        } else {
            let message = load_field(slice_subrange(source, 2, 66));
            Ok((Incoming::Message { message }, width))
        }
    }
}

impl OutgoingPacketType for Incoming {
    open spec fn wire(&self) -> Option<Seq<u8>> {
        match *self {
            Incoming::PlayerIdentification { version, username, key } => {
                if is_encodable(username@) && is_encodable(key@) {
                    Some(
                        seq![ID_IDENTIFICATION, version] + field_of(username@) + field_of(key@)
                            + seq![FILLER],
                    )
                } else {
                    None
                }
            },
            Incoming::SetBlock { position, state } => {
                Some(
                    seq![ID_SET_BLOCK_REQUEST] + position.wire().unwrap() + seq![
                        if state != 0 {
                            1u8
                        } else {
                            0u8
                        },
                        state,
                    ],
                )
            },
            Incoming::SetLocation { location } => {
                Some(seq![ID_SET_LOCATION, OWN_ID] + location.wire().unwrap())
            },
            Incoming::Message { message } => {
                if is_encodable(message@) {
                    Some(seq![ID_MESSAGE, OWN_ID] + field_of(message@))
                } else {
                    None
                }
            },
        }
    }

    fn store(&self, destination: &mut Vec<u8>) -> (result: Result<(), WireError>) {
        let mut buffer: Vec<u8> = Vec::new();
        let stored: Result<(), WireError> = match self {
            Incoming::PlayerIdentification { version, username, key } => {
                let _ = ID_IDENTIFICATION.store(&mut buffer);
                let _ = version.store(&mut buffer);
                match username.store(&mut buffer) {
                    Err(error) => Err(error),
                    Ok(()) => match key.store(&mut buffer) {
                        Err(error) => Err(error),
                        Ok(()) => FILLER.store(&mut buffer),
                    },
                }
            },
            Incoming::SetBlock { position, state } => {
                let mode: u8 = if *state != 0 {
                    1
                } else {
                    0
                };
                let _ = ID_SET_BLOCK_REQUEST.store(&mut buffer);
                let _ = position.store(&mut buffer);
                let _ = mode.store(&mut buffer);
                state.store(&mut buffer)
            },
            Incoming::SetLocation { location } => {
                let _ = ID_SET_LOCATION.store(&mut buffer);
                let _ = OWN_ID.store(&mut buffer);
                location.store(&mut buffer)
            },
            Incoming::Message { message } => {
                let _ = ID_MESSAGE.store(&mut buffer);
                let _ = OWN_ID.store(&mut buffer);
                message.store(&mut buffer)
            },
        };
        match stored {
            Ok(()) => {
                assert(buffer@ =~= self.wire().unwrap());
                destination.append(&mut buffer);
                Ok(())
            },
            Err(error) => Err(error),
        }
    }
}

/// Discriminant of the server's identification.
pub const ID_SERVER_IDENTIFICATION: u8 = 0x00;

/// Discriminant of a keepalive.
pub const ID_PING: u8 = 0x01;

/// Discriminant of the start of a level transfer.
pub const ID_LEVEL_INIT: u8 = 0x02;

/// Discriminant of one block of level data.
pub const ID_LEVEL_DATA_CHUNK: u8 = 0x03;

/// Discriminant of the end of a level transfer.
pub const ID_LEVEL_FINALIZE: u8 = 0x04;

/// Discriminant of a block update.
pub const ID_SET_BLOCK: u8 = 0x06;

/// Discriminant of a player's appearance.
pub const ID_SPAWN_PLAYER: u8 = 0x07;

/// Discriminant of a player's new location, given in full.
pub const ID_TELEPORT_PLAYER: u8 = 0x08;

/// Discriminant of a player's move and turn.
pub const ID_UPDATE_PLAYER_LOCATION: u8 = 0x09;

/// Discriminant of a player's move.
pub const ID_UPDATE_PLAYER_POSITION: u8 = 0x0a;

/// Discriminant of a player's turn.
pub const ID_UPDATE_PLAYER_ROTATION: u8 = 0x0b;

/// Discriminant of a player's leaving.
pub const ID_DESPAWN_PLAYER: u8 = 0x0c;

/// Discriminant of the server's farewell.
pub const ID_DISCONNECT: u8 = 0x0e;

/// Discriminant of a change of a user's permissions.
pub const ID_UPDATE_USER: u8 = 0x0f;

/// The byte that says whether a user is an operator.
pub open spec fn spec_flag_of(operator: bool) -> u8 {
    if operator {
        OPERATOR_FLAG
    } else {
        0
    }
}

/// The byte that says whether a user is an operator.
pub fn flag_of(operator: bool) -> (flag: u8)
    ensures
        flag == spec_flag_of(operator),
{
    if operator {
        OPERATOR_FLAG
    } else {
        0
    }
}

/// How many bytes a packet from the server takes, discriminant included, or
/// nothing where the discriminant is not one that the server may send.
pub open spec fn spec_outgoing_width(discriminant: u8) -> Option<nat> {
    if discriminant == ID_SERVER_IDENTIFICATION {
        Some(131)
    } else if discriminant == ID_PING || discriminant == ID_LEVEL_INIT {
        Some(1)
    } else if discriminant == ID_LEVEL_DATA_CHUNK {
        Some(1028)
    } else if discriminant == ID_LEVEL_FINALIZE {
        Some(7)
    } else if discriminant == ID_SET_BLOCK {
        Some(8)
    } else if discriminant == ID_SPAWN_PLAYER {
        Some(74)
    } else if discriminant == ID_TELEPORT_PLAYER {
        Some(10)
    } else if discriminant == ID_UPDATE_PLAYER_LOCATION {
        Some(7)
    } else if discriminant == ID_UPDATE_PLAYER_POSITION {
        Some(5)
    } else if discriminant == ID_UPDATE_PLAYER_ROTATION {
        Some(4)
    } else if discriminant == ID_DESPAWN_PLAYER || discriminant == ID_UPDATE_USER {
        Some(2)
    } else if discriminant == ID_MESSAGE {
        Some(66)
    } else if discriminant == ID_DISCONNECT {
        Some(65)
    } else {
        None
    }
}

/// How many bytes a packet from the server takes, discriminant included.
pub fn outgoing_width(discriminant: u8) -> (width: Option<usize>)
    ensures
        width is Some <==> spec_outgoing_width(discriminant) is Some,
        width matches Some(count) ==> count == spec_outgoing_width(discriminant).unwrap(),
{
    if discriminant == ID_SERVER_IDENTIFICATION {
        Some(131)
    } else if discriminant == ID_PING || discriminant == ID_LEVEL_INIT {
        Some(1)
    } else if discriminant == ID_LEVEL_DATA_CHUNK {
        Some(1028)
    } else if discriminant == ID_LEVEL_FINALIZE {
        Some(7)
    } else if discriminant == ID_SET_BLOCK {
        Some(8)
    } else if discriminant == ID_SPAWN_PLAYER {
        Some(74)
    } else if discriminant == ID_TELEPORT_PLAYER {
        Some(10)
    } else if discriminant == ID_UPDATE_PLAYER_LOCATION {
        Some(7)
    } else if discriminant == ID_UPDATE_PLAYER_POSITION {
        Some(5)
    } else if discriminant == ID_UPDATE_PLAYER_ROTATION {
        Some(4)
    } else if discriminant == ID_DESPAWN_PLAYER || discriminant == ID_UPDATE_USER {
        Some(2)
    } else if discriminant == ID_MESSAGE {
        Some(66)
    } else if discriminant == ID_DISCONNECT {
        Some(65)
    } else {
        None
    }
}

/// What a packet from the server says, given bytes that begin with a known
/// discriminant and are as many as its variant takes.
pub open spec fn outgoing_at(source: Seq<u8>) -> OutgoingView {
    let id = signed_of(source[1]) as i8;
    if source[0] == ID_SERVER_IDENTIFICATION {
        OutgoingView::ServerIdentification {
            version: source[1],
            name: text_of(source.subrange(2, 66)),
            motd: text_of(source.subrange(66, 130)),
            operator: source[130] == OPERATOR_FLAG,
        }
    } else if source[0] == ID_PING {
        OutgoingView::Ping
    } else if source[0] == ID_LEVEL_INIT {
        OutgoingView::LevelInit
    } else if source[0] == ID_LEVEL_DATA_CHUNK {
        OutgoingView::LevelDataChunk {
            data_length: unsigned_of_pair(source[1], source[2]) as u16,
            data_chunk: source.subrange(3, 1027),
            percent_complete: source[1027],
        }
    } else if source[0] == ID_LEVEL_FINALIZE {
        OutgoingView::LevelFinalize { size: value_of::<Vector3<u16>>(source.subrange(1, 7)) }
    } else if source[0] == ID_SET_BLOCK {
        OutgoingView::SetBlock {
            position: value_of::<Vector3<u16>>(source.subrange(1, 7)),
            block: source[7],
        }
    } else if source[0] == ID_SPAWN_PLAYER {
        OutgoingView::SpawnPlayer {
            id,
            name: text_of(source.subrange(2, 66)),
            location: value_of::<Location>(source.subrange(66, 74)),
        }
    } else if source[0] == ID_TELEPORT_PLAYER {
        OutgoingView::TeleportPlayer { id, location: value_of::<Location>(source.subrange(2, 10)) }
    } else if source[0] == ID_UPDATE_PLAYER_LOCATION {
        OutgoingView::UpdatePlayerLocation {
            id,
            position_change: value_of::<Vector3<X8>>(source.subrange(2, 5)),
            yaw: source[5],
            pitch: source[6],
        }
    } else if source[0] == ID_UPDATE_PLAYER_POSITION {
        OutgoingView::UpdatePlayerPosition {
            id,
            position_change: value_of::<Vector3<X8>>(source.subrange(2, 5)),
        }
    } else if source[0] == ID_UPDATE_PLAYER_ROTATION {
        OutgoingView::UpdatePlayerRotation { id, yaw: source[2], pitch: source[3] }
    } else if source[0] == ID_DESPAWN_PLAYER {
        OutgoingView::DespawnPlayer { id }
    } else if source[0] == ID_MESSAGE {
        OutgoingView::Message { id, message: text_of(source.subrange(2, 66)) }
    } else if source[0] == ID_DISCONNECT {
        OutgoingView::Disconnect { reason: text_of(source.subrange(1, 65)) }
    } else {
        OutgoingView::UpdateUser { operator: source[1] == OPERATOR_FLAG }
    }
}

impl IncomingPacketType for Outgoing {
    open spec fn parse(source: Seq<u8>) -> Result<(OutgoingView, nat), WireError> {
        if source.len() < 1 {
            Err(WireError::UnexpectedEof)
        } else {
            match spec_outgoing_width(source[0]) {
                None => Err(WireError::InvalidData),
                Some(width) => if source.len() < width {
                    Err(WireError::UnexpectedEof)
                } else {
                    Ok((outgoing_at(source), width))
                },
            }
        }
    }

    fn load(source: &[u8]) -> (result: Result<(Outgoing, usize), WireError>) {
        if source.len() < 1 {
            return Err(WireError::UnexpectedEof);
        }
        let discriminant = source[0];
        let width = match outgoing_width(discriminant) {
            Some(width) => width,
            None => {
                return Err(WireError::InvalidData);
            },
        };
        if source.len() < width {
            return Err(WireError::UnexpectedEof);
        }
        if discriminant == ID_PING {
            return Ok((Outgoing::Ping, width));
        }
        if discriminant == ID_LEVEL_INIT {
            return Ok((Outgoing::LevelInit, width));
        }
        let id = byte_to_signed(source[1]);
        if discriminant == ID_SERVER_IDENTIFICATION {
            let name = load_field(slice_subrange(source, 2, 66));
            let motd = load_field(slice_subrange(source, 66, 130));
            let operator = source[130] == OPERATOR_FLAG;
            Ok((Outgoing::ServerIdentification { version: source[1], name, motd, operator }, width))
        } else if discriminant == ID_LEVEL_DATA_CHUNK {
            let data_length = short_from_bytes(source[1], source[2]);
            let data_chunk = match <[u8; 1024]>::load(slice_subrange(source, 3, 1027)) {
                Ok((data_chunk, _)) => data_chunk,
                Err(error) => {
                    return Err(error);
                },
            };
            assert(source@.subrange(3, 1027).take(1024) =~= source@.subrange(3, 1027));
            Ok(
                (
                    Outgoing::LevelDataChunk {
                        data_length,
                        data_chunk,
                        percent_complete: source[1027],
                    },
                    width,
                ),
            )
        } else if discriminant == ID_LEVEL_FINALIZE {
            let size = match Vector3::<u16>::load(slice_subrange(source, 1, 7)) {
                Ok((size, _)) => size,
                Err(error) => {
                    return Err(error);
                },
            };
            Ok((Outgoing::LevelFinalize { size }, width))
        } else if discriminant == ID_SET_BLOCK {
            let position = match Vector3::<u16>::load(slice_subrange(source, 1, 7)) {
                Ok((position, _)) => position,
                Err(error) => {
                    return Err(error);
                },
            };
            Ok((Outgoing::SetBlock { position, block: source[7] }, width))
        } else if discriminant == ID_SPAWN_PLAYER {
            let name = load_field(slice_subrange(source, 2, 66));
            let location = match Location::load(slice_subrange(source, 66, 74)) {
                Ok((location, _)) => location,
                Err(error) => {
                    return Err(error);
                },
            };
            Ok((Outgoing::SpawnPlayer { id, name, location }, width))
        } else if discriminant == ID_TELEPORT_PLAYER {
            let location = match Location::load(slice_subrange(source, 2, 10)) {
                Ok((location, _)) => location,
                Err(error) => {
                    return Err(error);
                },
            };
            Ok((Outgoing::TeleportPlayer { id, location }, width))
        } else if discriminant == ID_UPDATE_PLAYER_LOCATION {
            let position_change = match Vector3::<X8>::load(slice_subrange(source, 2, 5)) {
                Ok((position_change, _)) => position_change,
                Err(error) => {
                    return Err(error);
                },
            };
            Ok(
                (
                    Outgoing::UpdatePlayerLocation {
                        id,
                        position_change,
                        yaw: source[5],
                        pitch: source[6],
                    },
                    width,
                ),
            )
        } else if discriminant == ID_UPDATE_PLAYER_POSITION {
            let position_change = match Vector3::<X8>::load(slice_subrange(source, 2, 5)) {
                Ok((position_change, _)) => position_change,
                Err(error) => {
                    return Err(error);
                },
            };
            Ok((Outgoing::UpdatePlayerPosition { id, position_change }, width))
        } else if discriminant == ID_UPDATE_PLAYER_ROTATION {
            Ok((Outgoing::UpdatePlayerRotation { id, yaw: source[2], pitch: source[3] }, width))
        } else if discriminant == ID_DESPAWN_PLAYER {
            Ok((Outgoing::DespawnPlayer { id }, width))
        } else if discriminant == ID_MESSAGE {
            let message = load_field(slice_subrange(source, 2, 66));
            Ok((Outgoing::Message { id, message }, width))
        } else if discriminant == ID_DISCONNECT {
            let reason = load_field(slice_subrange(source, 1, 65));
            Ok((Outgoing::Disconnect { reason }, width))
        } else {
            Ok((Outgoing::UpdateUser { operator: source[1] == OPERATOR_FLAG }, width))
        }
    }
}

/// The byte that carries a player id.
pub open spec fn id_byte(id: i8) -> u8 {
    byte_of(id as int) as u8
}

impl OutgoingPacketType for Outgoing {
    open spec fn wire(&self) -> Option<Seq<u8>> {
        match *self {
            Outgoing::ServerIdentification { version, name, motd, operator } => {
                if is_encodable(name@) && is_encodable(motd@) {
                    Some(
                        seq![ID_SERVER_IDENTIFICATION, version] + field_of(name@) + field_of(motd@)
                            + seq![spec_flag_of(operator)],
                    )
                } else {
                    None
                }
            },
            Outgoing::Ping => Some(seq![ID_PING]),
            Outgoing::LevelInit => Some(seq![ID_LEVEL_INIT]),
            Outgoing::LevelDataChunk { data_length, data_chunk, percent_complete } => {
                Some(
                    seq![ID_LEVEL_DATA_CHUNK] + data_length.wire().unwrap() + data_chunk@
                        + seq![percent_complete],
                )
            },
            Outgoing::LevelFinalize { size } => {
                Some(seq![ID_LEVEL_FINALIZE] + size.wire().unwrap())
            },
            Outgoing::SetBlock { position, block } => {
                Some(seq![ID_SET_BLOCK] + position.wire().unwrap() + seq![block])
            },
            Outgoing::SpawnPlayer { id, name, location } => {
                if is_encodable(name@) {
                    Some(
                        seq![ID_SPAWN_PLAYER, id_byte(id)] + field_of(name@)
                            + location.wire().unwrap(),
                    )
                } else {
                    None
                }
            },
            Outgoing::TeleportPlayer { id, location } => {
                Some(seq![ID_TELEPORT_PLAYER, id_byte(id)] + location.wire().unwrap())
            },
            Outgoing::UpdatePlayerLocation { id, position_change, yaw, pitch } => {
                Some(
                    seq![ID_UPDATE_PLAYER_LOCATION, id_byte(id)] + position_change.wire().unwrap()
                        + seq![yaw, pitch],
                )
            },
            Outgoing::UpdatePlayerPosition { id, position_change } => {
                Some(seq![ID_UPDATE_PLAYER_POSITION, id_byte(id)] + position_change.wire().unwrap())
            },
            Outgoing::UpdatePlayerRotation { id, yaw, pitch } => {
                Some(seq![ID_UPDATE_PLAYER_ROTATION, id_byte(id), yaw, pitch])
            },
            Outgoing::DespawnPlayer { id } => Some(seq![ID_DESPAWN_PLAYER, id_byte(id)]),
            Outgoing::Message { id, message } => {
                if is_encodable(message@) {
                    Some(seq![ID_MESSAGE, id_byte(id)] + field_of(message@))
                } else {
                    None
                }
            },
            Outgoing::Disconnect { reason } => {
                if is_encodable(reason@) {
                    Some(seq![ID_DISCONNECT] + field_of(reason@))
                } else {
                    None
                }
            },
            Outgoing::UpdateUser { operator } => Some(seq![ID_UPDATE_USER, spec_flag_of(operator)]),
        }
    }

    fn store(&self, destination: &mut Vec<u8>) -> (result: Result<(), WireError>) {
        let mut buffer: Vec<u8> = Vec::new();
        let stored: Result<(), WireError> = match self {
            Outgoing::ServerIdentification { version, name, motd, operator } => {
                let _ = ID_SERVER_IDENTIFICATION.store(&mut buffer);
                let _ = version.store(&mut buffer);
                match name.store(&mut buffer) {
                    Err(error) => Err(error),
                    Ok(()) => match motd.store(&mut buffer) {
                        Err(error) => Err(error),
                        Ok(()) => flag_of(*operator).store(&mut buffer),
                    },
                }
            },
            Outgoing::Ping => ID_PING.store(&mut buffer),
            Outgoing::LevelInit => ID_LEVEL_INIT.store(&mut buffer),
            Outgoing::LevelDataChunk { data_length, data_chunk, percent_complete } => {
                let _ = ID_LEVEL_DATA_CHUNK.store(&mut buffer);
                let _ = data_length.store(&mut buffer);
                let _ = data_chunk.store(&mut buffer);
                percent_complete.store(&mut buffer)
            },
            Outgoing::LevelFinalize { size } => {
                let _ = ID_LEVEL_FINALIZE.store(&mut buffer);
                size.store(&mut buffer)
            },
            Outgoing::SetBlock { position, block } => {
                let _ = ID_SET_BLOCK.store(&mut buffer);
                let _ = position.store(&mut buffer);
                block.store(&mut buffer)
            },
            Outgoing::SpawnPlayer { id, name, location } => {
                let _ = ID_SPAWN_PLAYER.store(&mut buffer);
                let _ = id.store(&mut buffer);
                match name.store(&mut buffer) {
                    Err(error) => Err(error),
                    Ok(()) => location.store(&mut buffer),
                }
            },
            Outgoing::TeleportPlayer { id, location } => {
                let _ = ID_TELEPORT_PLAYER.store(&mut buffer);
                let _ = id.store(&mut buffer);
                location.store(&mut buffer)
            },
            Outgoing::UpdatePlayerLocation { id, position_change, yaw, pitch } => {
                let _ = ID_UPDATE_PLAYER_LOCATION.store(&mut buffer);
                let _ = id.store(&mut buffer);
                let _ = position_change.store(&mut buffer);
                let _ = yaw.store(&mut buffer);
                pitch.store(&mut buffer)
            },
            Outgoing::UpdatePlayerPosition { id, position_change } => {
                let _ = ID_UPDATE_PLAYER_POSITION.store(&mut buffer);
                let _ = id.store(&mut buffer);
                position_change.store(&mut buffer)
            },
            Outgoing::UpdatePlayerRotation { id, yaw, pitch } => {
                let _ = ID_UPDATE_PLAYER_ROTATION.store(&mut buffer);
                let _ = id.store(&mut buffer);
                let _ = yaw.store(&mut buffer);
                pitch.store(&mut buffer)
            },
            Outgoing::DespawnPlayer { id } => {
                let _ = ID_DESPAWN_PLAYER.store(&mut buffer);
                id.store(&mut buffer)
            },
            Outgoing::Message { id, message } => {
                let _ = ID_MESSAGE.store(&mut buffer);
                let _ = id.store(&mut buffer);
                message.store(&mut buffer)
            },
            Outgoing::Disconnect { reason } => {
                let _ = ID_DISCONNECT.store(&mut buffer);
                reason.store(&mut buffer)
            },
            Outgoing::UpdateUser { operator } => {
                let _ = ID_UPDATE_USER.store(&mut buffer);
                flag_of(*operator).store(&mut buffer)
            },
        };
        match stored {
            Ok(()) => {
                assert(buffer@ =~= self.wire().unwrap());
                destination.append(&mut buffer);
                Ok(())
            },
            Err(error) => Err(error),
        }
    }
}

} // verus!
