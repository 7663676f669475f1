//! What comes back when a value is written and then read.

use crate::codec::spec_incoming_width;
use crate::fixed::{X16, X8};
use crate::networking::{IncomingPacketType, OutgoingPacketType, WireError};
use crate::packets::{Incoming, Location, Outgoing, Vector3};
use crate::text::{
    field_of, is_encodable, is_faithful_text, lemma_field_round_trip, text_of, unspaced_len,
    without_trailing_spaces, TEXT_WIDTH,
};
use vstd::prelude::*;

verus! {

/// A text that a field carries whole: at most sixty-four characters, each of
/// which the code page gives back as itself, and no space at the end.
pub open spec fn is_exact_text(text: Seq<char>) -> bool {
    &&& text.len() <= TEXT_WIDTH
    &&& is_faithful_text(text)
    &&& unspaced_len(text) == text.len()
}

/// An exact text is read back from its field as it was written.
pub proof fn lemma_exact_text_round_trip(text: Seq<char>)
    requires
        is_exact_text(text),
    ensures
        is_encodable(text),
        text_of(field_of(text)) == text,
{
    lemma_field_round_trip(text);
    assert(without_trailing_spaces(text) =~= text);
}

/// An unsigned byte is read back as it was written.
pub proof fn lemma_byte_round_trip(value: u8)
    ensures
        u8::parse(value.wire().unwrap()) == Ok::<(u8, nat), WireError>(
            (value, 1),
        ),
{
}

/// A signed byte is read back as it was written.
pub proof fn lemma_signed_byte_round_trip(value: i8)
    ensures
        i8::parse(value.wire().unwrap()) == Ok::<(i8, nat), WireError>(
            (value, 1),
        ),
{
}

/// An unsigned 16-bit number is read back as it was written.
pub proof fn lemma_short_round_trip(value: u16)
    ensures
        u16::parse(value.wire().unwrap()) == Ok::<(u16, nat), WireError>(
            (value, 2),
        ),
{
}

/// An 8-bit scaled integer is read back as it was written.
pub proof fn lemma_x8_round_trip(value: X8)
    ensures
        X8::parse(value.wire().unwrap()) == Ok::<(X8, nat), WireError>(
            (value, 1),
        ),
{
    X8::lemma_bits_round_trip(value, 0);
}

/// A 16-bit scaled integer is read back as it was written.
pub proof fn lemma_x16_round_trip(value: X16)
    ensures
        X16::parse(value.wire().unwrap()) == Ok::<(X16, nat), WireError>(
            (value, 2),
        ),
{
    X16::lemma_bits_round_trip(value, 0);
}

/// Three unsigned 16-bit numbers are read back as they were written.
pub proof fn lemma_short_vector_round_trip(value: Vector3<u16>)
    ensures
        value.wire() is Some,
        value.wire().unwrap().len() == 6,
        Vector3::<u16>::parse(value.wire().unwrap()) == Ok::<(Vector3<u16>, nat), WireError>(
            (value, 6),
        ),
{
    let bytes = value.wire().unwrap();
    lemma_short_round_trip(value.x);
    lemma_short_round_trip(value.y);
    lemma_short_round_trip(value.z);
    assert(bytes.skip(2).len() == 4);
    assert(bytes.skip(4).len() == 2);
}

/// Three 8-bit scaled integers are read back as they were written.
pub proof fn lemma_x8_vector_round_trip(value: Vector3<X8>)
    ensures
        value.wire() is Some,
        value.wire().unwrap().len() == 3,
        Vector3::<X8>::parse(value.wire().unwrap()) == Ok::<(Vector3<X8>, nat), WireError>(
            (value, 3),
        ),
{
    let bytes = value.wire().unwrap();
    lemma_x8_round_trip(value.x);
    lemma_x8_round_trip(value.y);
    lemma_x8_round_trip(value.z);
    assert(bytes.skip(1).len() == 2);
    assert(bytes.skip(2).len() == 1);
}

/// Three 16-bit scaled integers are read back as they were written.
pub proof fn lemma_x16_vector_round_trip(value: Vector3<X16>)
    ensures
        value.wire() is Some,
        value.wire().unwrap().len() == 6,
        Vector3::<X16>::parse(value.wire().unwrap()) == Ok::<(Vector3<X16>, nat), WireError>(
            (value, 6),
        ),
{
    let bytes = value.wire().unwrap();
    lemma_x16_round_trip(value.x);
    lemma_x16_round_trip(value.y);
    lemma_x16_round_trip(value.z);
    assert(bytes.skip(2).len() == 4);
    assert(bytes.skip(4).len() == 2);
}

/// A location is read back as it was written.
pub proof fn lemma_location_round_trip(value: Location)
    ensures
        value.wire() is Some,
        value.wire().unwrap().len() == 8,
        Location::parse(value.wire().unwrap()) == Ok::<(Location, nat), WireError>((value, 8)),
{
    let bytes = value.wire().unwrap();
    lemma_x16_round_trip(value.position.x);
    lemma_x16_round_trip(value.position.y);
    lemma_x16_round_trip(value.position.z);
    assert(bytes.len() == 8);
    assert(bytes.skip(2).len() == 6);
    assert(bytes.skip(4).len() == 4);
    assert(bytes.skip(6).len() == 2);
    assert(bytes.skip(7).len() == 1);
}

/// Whether every text of a packet from a client is exact.
pub open spec fn is_exact_incoming(packet: Incoming) -> bool {
    match packet {
        Incoming::PlayerIdentification { username, key, .. } => {
            is_exact_text(username@) && is_exact_text(key@)
        },
        Incoming::Message { message } => is_exact_text(message@),
        _ => true,
    }
}

/// Whether every text of a packet from the server is exact.
pub open spec fn is_exact_outgoing(packet: Outgoing) -> bool {
    match packet {
        Outgoing::ServerIdentification { name, motd, .. } => {
            is_exact_text(name@) && is_exact_text(motd@)
        },
        Outgoing::SpawnPlayer { name, .. } => is_exact_text(name@),
        Outgoing::Message { message, .. } => is_exact_text(message@),
        Outgoing::Disconnect { reason } => is_exact_text(reason@),
        _ => true,
    }
}

/// A packet from a client whose texts are exact can be written, and reading
/// its bytes gives the packet back and uses those bytes only, whatever
/// follows them.
pub proof fn lemma_incoming_round_trip(packet: Incoming, rest: Seq<u8>)
    requires
        is_exact_incoming(packet),
    ensures
        packet.wire() is Some,
        Incoming::parse(packet.wire().unwrap() + rest) == Ok::<
            (crate::packets::IncomingView, nat),
            WireError,
        >((packet@, packet.wire().unwrap().len())),
{
    match packet {
        Incoming::PlayerIdentification { version, username, key } => {
            lemma_exact_text_round_trip(username@);
            lemma_exact_text_round_trip(key@);
            let bytes = packet.wire().unwrap();
            let source = bytes + rest;
            assert(bytes.len() == 131);
            assert(source.subrange(2, 66) =~= field_of(username@));
            assert(source.subrange(66, 130) =~= field_of(key@));
        },
        Incoming::SetBlock { position, state } => {
            lemma_short_vector_round_trip(position);
            let bytes = packet.wire().unwrap();
            let source = bytes + rest;
            assert(bytes.len() == 9);
            assert(source.subrange(1, 7) =~= position.wire().unwrap());
        },
        Incoming::SetLocation { location } => {
            lemma_location_round_trip(location);
            let bytes = packet.wire().unwrap();
            let source = bytes + rest;
            assert(bytes.len() == 10);
            assert(source.subrange(2, 10) =~= location.wire().unwrap());
        },
        Incoming::Message { message } => {
            lemma_exact_text_round_trip(message@);
            let bytes = packet.wire().unwrap();
            let source = bytes + rest;
            assert(bytes.len() == 66);
            assert(source.subrange(2, 66) =~= field_of(message@));
        },
    }
}

proof fn lemma_round_trip_of_texts(packet: Outgoing, rest: Seq<u8>)
    requires
        is_exact_outgoing(packet),
        packet is ServerIdentification,
    ensures
        packet.wire() is Some,
        Outgoing::parse(packet.wire().unwrap() + rest) == Ok::<
            (crate::packets::OutgoingView, nat),
            WireError,
        >((packet@, packet.wire().unwrap().len())),
{
    let bytes = packet.wire().unwrap();
    let source = bytes + rest;
    if let Outgoing::ServerIdentification { version, name, motd, operator } = packet {
        lemma_exact_text_round_trip(name@);
        lemma_exact_text_round_trip(motd@);
        assert(bytes.len() == 131);
        assert(source.subrange(2, 66) =~= field_of(name@));
        assert(source.subrange(66, 130) =~= field_of(motd@));
    }
}

proof fn lemma_round_trip_of_chunk(packet: Outgoing, rest: Seq<u8>)
    requires
        is_exact_outgoing(packet),
        packet is LevelDataChunk,
    ensures
        packet.wire() is Some,
        Outgoing::parse(packet.wire().unwrap() + rest) == Ok::<
            (crate::packets::OutgoingView, nat),
            WireError,
        >((packet@, packet.wire().unwrap().len())),
{
    let bytes = packet.wire().unwrap();
    let source = bytes + rest;
    if let Outgoing::LevelDataChunk { data_length, data_chunk, percent_complete } = packet {
        lemma_short_round_trip(data_length);
        assert(data_chunk@.len() == 1024);
        assert(bytes.len() == 1028);
        assert(source.subrange(3, 1027) =~= data_chunk@);
    }
}

proof fn lemma_round_trip_of_size(packet: Outgoing, rest: Seq<u8>)
    requires
        is_exact_outgoing(packet),
        packet is LevelFinalize,
    ensures
        packet.wire() is Some,
        Outgoing::parse(packet.wire().unwrap() + rest) == Ok::<
            (crate::packets::OutgoingView, nat),
            WireError,
        >((packet@, packet.wire().unwrap().len())),
{
    let bytes = packet.wire().unwrap();
    let source = bytes + rest;
    if let Outgoing::LevelFinalize { size } = packet {
        lemma_short_vector_round_trip(size);
        assert(source.subrange(1, 7) =~= size.wire().unwrap());
    }
}

proof fn lemma_round_trip_of_block(packet: Outgoing, rest: Seq<u8>)
    requires
        is_exact_outgoing(packet),
        packet is SetBlock,
    ensures
        packet.wire() is Some,
        Outgoing::parse(packet.wire().unwrap() + rest) == Ok::<
            (crate::packets::OutgoingView, nat),
            WireError,
        >((packet@, packet.wire().unwrap().len())),
{
    let bytes = packet.wire().unwrap();
    let source = bytes + rest;
    if let Outgoing::SetBlock { position, block } = packet {
        lemma_short_vector_round_trip(position);
        assert(source.subrange(1, 7) =~= position.wire().unwrap());
    }
}

proof fn lemma_round_trip_of_spawn(packet: Outgoing, rest: Seq<u8>)
    requires
        is_exact_outgoing(packet),
        packet is SpawnPlayer,
    ensures
        packet.wire() is Some,
        Outgoing::parse(packet.wire().unwrap() + rest) == Ok::<
            (crate::packets::OutgoingView, nat),
            WireError,
        >((packet@, packet.wire().unwrap().len())),
{
    let bytes = packet.wire().unwrap();
    let source = bytes + rest;
    if let Outgoing::SpawnPlayer { id, name, location } = packet {
        lemma_exact_text_round_trip(name@);
        lemma_location_round_trip(location);
        assert(bytes.len() == 74);
        assert(source.subrange(2, 66) =~= field_of(name@));
        assert(source.subrange(66, 74) =~= location.wire().unwrap());
    }
}

proof fn lemma_round_trip_of_teleport(packet: Outgoing, rest: Seq<u8>)
    requires
        is_exact_outgoing(packet),
        packet is TeleportPlayer,
    ensures
        packet.wire() is Some,
        Outgoing::parse(packet.wire().unwrap() + rest) == Ok::<
            (crate::packets::OutgoingView, nat),
            WireError,
        >((packet@, packet.wire().unwrap().len())),
{
    let bytes = packet.wire().unwrap();
    let source = bytes + rest;
    if let Outgoing::TeleportPlayer { id, location } = packet {
        lemma_location_round_trip(location);
        assert(source.subrange(2, 10) =~= location.wire().unwrap());
    }
}

proof fn lemma_round_trip_of_move_and_turn(packet: Outgoing, rest: Seq<u8>)
    requires
        is_exact_outgoing(packet),
        packet is UpdatePlayerLocation,
    ensures
        packet.wire() is Some,
        Outgoing::parse(packet.wire().unwrap() + rest) == Ok::<
            (crate::packets::OutgoingView, nat),
            WireError,
        >((packet@, packet.wire().unwrap().len())),
{
    let bytes = packet.wire().unwrap();
    let source = bytes + rest;
    if let Outgoing::UpdatePlayerLocation { id, position_change, yaw, pitch } = packet {
        lemma_x8_vector_round_trip(position_change);
        assert(source.subrange(2, 5) =~= position_change.wire().unwrap());
    }
}

proof fn lemma_round_trip_of_move(packet: Outgoing, rest: Seq<u8>)
    requires
        is_exact_outgoing(packet),
        packet is UpdatePlayerPosition,
    ensures
        packet.wire() is Some,
        Outgoing::parse(packet.wire().unwrap() + rest) == Ok::<
            (crate::packets::OutgoingView, nat),
            WireError,
        >((packet@, packet.wire().unwrap().len())),
{
    let bytes = packet.wire().unwrap();
    let source = bytes + rest;
    if let Outgoing::UpdatePlayerPosition { id, position_change } = packet {
        lemma_x8_vector_round_trip(position_change);
        assert(source.subrange(2, 5) =~= position_change.wire().unwrap());
    }
}

proof fn lemma_round_trip_of_message(packet: Outgoing, rest: Seq<u8>)
    requires
        is_exact_outgoing(packet),
        packet is Message,
    ensures
        packet.wire() is Some,
        Outgoing::parse(packet.wire().unwrap() + rest) == Ok::<
            (crate::packets::OutgoingView, nat),
            WireError,
        >((packet@, packet.wire().unwrap().len())),
{
    let bytes = packet.wire().unwrap();
    let source = bytes + rest;
    if let Outgoing::Message { id, message } = packet {
        lemma_exact_text_round_trip(message@);
        assert(bytes.len() == 66);
        assert(source.subrange(2, 66) =~= field_of(message@));
    }
}

proof fn lemma_round_trip_of_farewell(packet: Outgoing, rest: Seq<u8>)
    requires
        is_exact_outgoing(packet),
        packet is Disconnect,
    ensures
        packet.wire() is Some,
        Outgoing::parse(packet.wire().unwrap() + rest) == Ok::<
            (crate::packets::OutgoingView, nat),
            WireError,
        >((packet@, packet.wire().unwrap().len())),
{
    let bytes = packet.wire().unwrap();
    let source = bytes + rest;
    if let Outgoing::Disconnect { reason } = packet {
        lemma_exact_text_round_trip(reason@);
        assert(bytes.len() == 65);
        assert(source.subrange(1, 65) =~= field_of(reason@));
    }
}

proof fn lemma_round_trip_of_short_packets(packet: Outgoing, rest: Seq<u8>)
    requires
        packet is Ping || packet is LevelInit || packet is UpdatePlayerRotation
            || packet is DespawnPlayer || packet is UpdateUser,
    ensures
        packet.wire() is Some,
        Outgoing::parse(packet.wire().unwrap() + rest) == Ok::<
            (crate::packets::OutgoingView, nat),
            WireError,
        >((packet@, packet.wire().unwrap().len())),
{
}

/// A packet from the server whose texts are exact can be written, and
/// reading its bytes gives the packet back and uses those bytes only,
/// whatever follows them.
pub proof fn lemma_outgoing_round_trip(packet: Outgoing, rest: Seq<u8>)
    requires
        is_exact_outgoing(packet),
    ensures
        packet.wire() is Some,
        Outgoing::parse(packet.wire().unwrap() + rest) == Ok::<
            (crate::packets::OutgoingView, nat),
            WireError,
        >((packet@, packet.wire().unwrap().len())),
{
    match packet {
        Outgoing::ServerIdentification { .. } => lemma_round_trip_of_texts(packet, rest),
        Outgoing::LevelDataChunk { .. } => lemma_round_trip_of_chunk(packet, rest),
        Outgoing::LevelFinalize { .. } => lemma_round_trip_of_size(packet, rest),
        Outgoing::SetBlock { .. } => lemma_round_trip_of_block(packet, rest),
        Outgoing::SpawnPlayer { .. } => lemma_round_trip_of_spawn(packet, rest),
        Outgoing::TeleportPlayer { .. } => lemma_round_trip_of_teleport(packet, rest),
        Outgoing::UpdatePlayerLocation { .. } => lemma_round_trip_of_move_and_turn(packet, rest),
        Outgoing::UpdatePlayerPosition { .. } => lemma_round_trip_of_move(packet, rest),
        Outgoing::Message { .. } => lemma_round_trip_of_message(packet, rest),
        Outgoing::Disconnect { .. } => lemma_round_trip_of_farewell(packet, rest),
        _ => lemma_round_trip_of_short_packets(packet, rest),
    }
}

/// A packet from a client that begins with a discriminant other than the
/// four that a client may send is invalid data, whatever follows the
/// discriminant and however much of it there is.
pub proof fn lemma_unknown_discriminant(source: Seq<u8>)
    requires
        source.len() > 0,
        source[0] != 0x00 && source[0] != 0x05 && source[0] != 0x08 && source[0] != 0x0d,
    ensures
        spec_incoming_width(source[0]) is None,
        Incoming::parse(source) == Err::<(crate::packets::IncomingView, nat), WireError>(
            WireError::InvalidData,
        ),
{
}

/// What a packet from a client says depends on no byte behind the width of
/// its variant: reading a longer run of bytes gives the same packet and the
/// same count.
pub proof fn lemma_incoming_reads_its_width(source: Seq<u8>)
    requires
        source.len() > 0,
        spec_incoming_width(source[0]) matches Some(width) && width <= source.len(),
    ensures
        Incoming::parse(source) == Incoming::parse(
            source.take(spec_incoming_width(source[0]).unwrap() as int),
        ),
{
    let width = spec_incoming_width(source[0]).unwrap() as int;
    let front = source.take(width);
    assert(front[0] == source[0]);
    if source[0] == 0x00 {
        assert(front.subrange(2, 66) =~= source.subrange(2, 66));
        assert(front.subrange(66, 130) =~= source.subrange(66, 130));
    } else if source[0] == 0x05 {
        assert(front.subrange(1, 7) =~= source.subrange(1, 7));
    } else if source[0] == 0x08 {
        assert(front.subrange(2, 10) =~= source.subrange(2, 10));
    } else {
        assert(front.subrange(2, 66) =~= source.subrange(2, 66));
    }
}

} // verus!
