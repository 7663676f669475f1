//! The life of one connection: what the server does with each packet that
//! arrives, with the passing of time, and with a broken socket.
//!
//! Nothing here touches a socket. Each function takes what happened and
//! says what is to be done, as a list of actions that the caller carries
//! out in order.

use crate::packets::{Incoming, IncomingView, Location, Outgoing, OutgoingView, Vector3};
use crate::search::any_where;
use crate::server::{Connected, IpAddress, Server};
use vstd::prelude::*;

verus! {

/// The protocol version that the server speaks.
pub const PROTOCOL_VERSION: u8 = 7;

/// The id under which a client is told of its own player.
pub const SELF_ID: i8 = -1;

/// Where a connection is in its life.
#[derive(Clone, Copy, Debug, PartialEq, Eq, Structural)]
pub enum Stage {
    AwaitingIdentification,
    Identified,
    Disconnected,
}

/// What the caller is to do.
#[derive(Clone, Debug, PartialEq, Eq)]
pub enum Action {
    /// Send the packet on this connection.
    Send(Outgoing),
    /// Send the packet on every other connection whose player is in the
    /// named world.
    Broadcast { world: String, packet: Outgoing },
    /// Send the level of the named world on this connection.
    TransferLevel { world: String },
    /// Put the block into the named world.
    PlaceBlock { world: String, position: Vector3<u16>, state: u8 },
    /// Close the socket and stop the timers of this connection.
    Close,
}

/// What an action says, with its texts as sequences of characters.
pub enum ActionView {
    Send(OutgoingView),
    Broadcast { world: Seq<char>, packet: OutgoingView },
    TransferLevel { world: Seq<char> },
    PlaceBlock { world: Seq<char>, position: Vector3<u16>, state: u8 },
    Close,
}

impl View for Action {
    type V = ActionView;

    open spec fn view(&self) -> ActionView {
        match *self {
            Action::Send(packet) => ActionView::Send(packet@),
            Action::Broadcast { world, packet } => {
                ActionView::Broadcast { world: world@, packet: packet@ }
            },
            Action::TransferLevel { world } => ActionView::TransferLevel { world: world@ },
            Action::PlaceBlock { world, position, state } => {
                ActionView::PlaceBlock { world: world@, position, state }
            },
            Action::Close => ActionView::Close,
        }
    }
}

/// What a list of actions says.
pub open spec fn views_of(actions: Seq<Action>) -> Seq<ActionView> {
    actions.map_values(|action: Action| action@)
}

/// The time from `since` to `now`, or nothing where the clock went back.
pub open spec fn spec_elapsed(now: u64, since: u64) -> int {
    if now >= since {
        now - since
    } else {
        0
    }
}

/// The time from `since` to `now`, or nothing where the clock went back.
pub fn elapsed(now: u64, since: u64) -> (time: u64)
    ensures
        time == spec_elapsed(now, since),
{
    if now >= since {
        now - since
    } else {
        0
    }
}

/// Why the server turns a client away, where no ban says so.
#[derive(Clone, Copy, Debug, PartialEq, Eq, Structural)]
pub enum Refusal {
    /// As many players are connected as the configuration allows.
    Full,
    /// A player of that name is connected already.
    AlreadyConnected,
    /// The login key fits none of the salts.
    BadKey,
    /// The default world does not exist.
    NoWorld,
    /// Every player id of the default world is taken.
    WorldFull,
    /// The client sent a packet that it may not send now.
    Violation,
}

impl Refusal {
    /// The reason that the client is given.
    pub open spec fn text(self) -> Seq<char> {
        match self {
            Refusal::Full => "The server is full."@,
            Refusal::AlreadyConnected => "You are already connected."@,
            Refusal::BadKey => "Your login could not be verified."@,
            Refusal::NoWorld => "There is no world to join."@,
            Refusal::WorldFull => "The world is full."@,
            Refusal::Violation => "Unexpected packet."@,
        }
    }

    /// The reason that the client is given.
    pub fn to_text(self) -> (reason: String)
        ensures
            reason@ == self.text(),
    {
        match self {
            Refusal::Full => "The server is full.".to_owned(),
            Refusal::AlreadyConnected => "You are already connected.".to_owned(),
            Refusal::BadKey => "Your login could not be verified.".to_owned(),
            Refusal::NoWorld => "There is no world to join.".to_owned(),
            Refusal::WorldFull => "The world is full.".to_owned(),
            Refusal::Violation => "Unexpected packet.".to_owned(),
        }
    }
}

/// The reason for which an identification is turned away, or nothing where
/// it is accepted. The checks are made in this order: the ban of the
/// address, the ban of the username, the room on the server, a player of
/// the same name, the login key, the default world, the room in it.
pub open spec fn refusal_of(
    server: Server,
    peer: IpAddress,
    username: Seq<char>,
    key: Seq<char>,
    expected: Seq<String>,
) -> Option<Seq<char>> {
    let config = server.config;
    let at = server.world_index(config.default_world@);
    if config.ip_ban(peer) < config.banned_ips@.len() {
        Some(config.banned_ips@[config.ip_ban(peer)].reason@)
    } else if config.user_ban(username) < config.banned_users@.len() {
        Some(config.banned_users@[config.user_ban(username)].reason@)
    } else if !server.has_room() {
        Some(Refusal::Full.text())
    } else if server.is_connected(username) {
        Some(Refusal::AlreadyConnected.text())
    } else if config.verifies() && !any_where(expected, |wanted: String| wanted@ == key) {
        Some(Refusal::BadKey.text())
    } else if at >= server.worlds@.len() {
        Some(Refusal::NoWorld.text())
    } else if server.worlds@[at].world.next_id() is None {
        Some(Refusal::WorldFull.text())
    } else {
        None
    }
}

/// The packets that tell a newcomer of the players that are in a world
/// already: one for each connected player of that world whose slot is
/// taken, in the order of the registry.
pub open spec fn neighbours(
    players: Seq<Connected>,
    slots: Seq<Option<Location>>,
    world: Seq<char>,
) -> Seq<ActionView>
    decreases players.len(),
{
    if players.len() == 0 {
        Seq::empty()
    } else {
        let before = neighbours(players.drop_last(), slots, world);
        let player = players.last();
        if player.world@ == world && 0 <= player.id < slots.len() && slots[player.id as int]
            is Some {
            before.push(
                ActionView::Send(
                    OutgoingView::SpawnPlayer {
                        id: player.id,
                        name: player.username@,
                        location: slots[player.id as int].unwrap(),
                    },
                ),
            )
        } else {
            before
        }
    }
}

/// What a newcomer is sent, and what the others are told: the server's
/// identification, the level, the newcomer's own player, the players that
/// are there already, and to the others the newcomer.
pub open spec fn welcome(before: Server, username: Seq<char>) -> Seq<ActionView> {
    let config = before.config;
    let world = before.worlds@[before.world_index(config.default_world@)].world;
    seq![
        ActionView::Send(
            OutgoingView::ServerIdentification {
                version: PROTOCOL_VERSION,
                name: config.name@,
                motd: config.motd@,
                operator: config.has_operator(username),
            },
        ),
        ActionView::TransferLevel { world: config.default_world@ },
        ActionView::Send(
            OutgoingView::SpawnPlayer { id: SELF_ID, name: username, location: world.spawn },
        ),
    ] + neighbours(before.players_connected@, world.slots@, config.default_world@) + seq![
        ActionView::Broadcast {
            world: config.default_world@,
            packet: OutgoingView::SpawnPlayer {
                id: world.next_id().unwrap(),
                name: username,
                location: world.spawn,
            },
        },
    ]
}

/// Whether `after` is the server that `before` becomes when a player of
/// the given name joins the default world: the player has the next free id
/// of that world and stands at its spawn, and is the last entry of the
/// registry.
pub open spec fn is_after_join(after: Server, before: Server, username: Seq<char>) -> bool {
    let at = before.world_index(before.config.default_world@);
    let world = before.worlds@[at].world;
    let id = world.next_id().unwrap();
    &&& after.config == before.config
    &&& after.last_salts == before.last_salts
    &&& after.players_connected@.len() == before.players_connected@.len() + 1
    &&& after.players_connected@.drop_last() == before.players_connected@
    &&& after.players_connected@.last().username@ == username
    &&& after.players_connected@.last().world@ == before.config.default_world@
    &&& after.players_connected@.last().id == id
    &&& after.worlds@.len() == before.worlds@.len()
    &&& forall|i: int|
        0 <= i < before.worlds@.len() ==> {
            &&& (#[trigger] after.worlds@[i]).name == before.worlds@[i].name
            &&& after.worlds@[i].world.spawn == before.worlds@[i].world.spawn
            &&& after.worlds@[i].world.slots@ == if i == at {
                world.slots_with(id, world.spawn)
            } else {
                before.worlds@[i].world.slots@
            }
        }
}

/// A message as it is passed on: cut after `limit` characters where it has
/// more.
pub open spec fn clipped(message: Seq<char>, limit: usize) -> Seq<char> {
    if message.len() > limit {
        message.take(limit as int)
    } else {
        message
    }
}

/// A message as it is passed on: cut after `limit` characters where it has
/// more.
pub fn clip(message: String, limit: usize) -> (kept: String)
    ensures
        kept@ == clipped(message@, limit),
{
    if message.as_str().unicode_len() > limit {
        message.as_str().substring_char(0, limit).to_owned()
    } else {
        message
    }
}

/// What the others in a player's world are told, and what is done to the
/// world, when the player sends a packet other than an identification: a
/// block is placed and shown, a move is shown, a message of at most `limit`
/// characters is passed on.
pub open spec fn relayed(player: Connected, packet: IncomingView, limit: usize) -> Seq<
    ActionView,
> {
    match packet {
        IncomingView::SetBlock { position, state } => seq![
            ActionView::PlaceBlock { world: player.world@, position, state },
            ActionView::Broadcast {
                world: player.world@,
                packet: OutgoingView::SetBlock { position, block: state },
            },
        ],
        IncomingView::SetLocation { location } => seq![
            ActionView::Broadcast {
                world: player.world@,
                packet: OutgoingView::TeleportPlayer { id: player.id, location },
            },
        ],
        IncomingView::Message { message } => seq![
            ActionView::Broadcast {
                world: player.world@,
                packet: OutgoingView::Message { id: player.id, message: clipped(message, limit) },
            },
        ],
        IncomingView::PlayerIdentification { .. } => Seq::empty(),
    }
}

/// Whether `after` is the server that `before` becomes when the player
/// moves: the player's slot in the player's world holds the new location,
/// if there is such a world and the slot is taken; nothing else changes.
pub open spec fn is_after_move(
    after: Server,
    before: Server,
    player: Connected,
    location: Location,
) -> bool {
    &&& after.config == before.config
    &&& after.last_salts == before.last_salts
    &&& after.players_connected == before.players_connected
    &&& after.worlds@.len() == before.worlds@.len()
    &&& forall|i: int|
        0 <= i < before.worlds@.len() ==> {
            &&& (#[trigger] after.worlds@[i]).name == before.worlds@[i].name
            &&& after.worlds@[i].world.spawn == before.worlds@[i].world.spawn
            &&& after.worlds@[i].world.slots@ == if i == before.world_index(player.world@)
                && before.worlds@[i].world.holds(player.id) {
                before.worlds@[i].world.slots@.update(player.id as int, Some(location))
            } else {
                before.worlds@[i].world.slots@
            }
        }
}

/// Tells a newcomer of the players that are in a world already.
fn neighbour_spawns(server: &Server, at: usize, world: &String) -> (actions: Vec<Action>)
    requires
        at < server.worlds@.len(),
    ensures
        views_of(actions@) == neighbours(
            server.players_connected@,
            server.worlds@[at as int].world.slots@,
            world@,
        ),
{
    let mut actions: Vec<Action> = Vec::new();
    let mut index: usize = 0;
    assert(server.players_connected@.take(0) =~= Seq::empty());
    assert(views_of(actions@) =~= Seq::empty());
    while index < server.players_connected.len()
        invariant
            index <= server.players_connected@.len(),
            at < server.worlds@.len(),
            views_of(actions@) == neighbours(
                server.players_connected@.take(index as int),
                server.worlds@[at as int].world.slots@,
                world@,
            ),
        decreases server.players_connected@.len() - index,
    {
        let player = &server.players_connected[index];
        let ghost before = views_of(actions@);
        let ghost upto = server.players_connected@.take(index + 1);
        assert(upto.drop_last() =~= server.players_connected@.take(index as int));
        assert(upto.last() == *player);
        if player.world == *world {
            match server.worlds[at].world.location_of(player.id) {
                Some(location) => {
                    actions.push(
                        Action::Send(
                            Outgoing::SpawnPlayer {
                                id: player.id,
                                name: player.username.clone(),
                                location,
                            },
                        ),
                    );
                    assert(views_of(actions@) =~= before.push(
                        ActionView::Send(
                            OutgoingView::SpawnPlayer {
                                id: player.id,
                                name: player.username@,
                                location,
                            },
                        ),
                    ));
                },
                None => {},
            }
        }
        index = index + 1;
    }
    assert(server.players_connected@.take(index as int) =~= server.players_connected@);
    actions
}

/// One connection, as its supervisor knows it.
#[derive(Clone, Debug, PartialEq, Eq)]
pub struct Connection {
    /// Where the connection is in its life.
    pub stage: Stage,
    /// The player of this connection, once identified.
    pub player: Option<Connected>,
    /// Since when the server waits for a packet: since the connection was
    /// accepted, or since the first ping after the last packet. Nothing
    /// while no answer is due.
    pub waiting_since: Option<u64>,
    /// When the last ping was sent, or when the connection was accepted.
    pub last_ping: u64,
}

impl Connection {
    /// A connection has a player exactly while it is identified.
    pub open spec fn wf(&self) -> bool {
        self.stage == Stage::Identified <==> self.player is Some
    }

    /// Whether the client has been silent for too long.
    pub open spec fn timed_out(&self, timeout: u64, now: u64) -> bool {
        self.stage != Stage::Disconnected && self.waiting_since is Some && spec_elapsed(
            now,
            self.waiting_since.unwrap(),
        ) > timeout
    }

    /// Whether it is time for the next ping.
    pub open spec fn ping_due(&self, spacing: u64, now: u64) -> bool {
        self.stage == Stage::Identified && spec_elapsed(now, self.last_ping) >= spacing
    }

    /// A connection that was accepted just now.
    pub fn accept(now: u64) -> (connection: Connection)
        ensures
            connection.stage == Stage::AwaitingIdentification,
            connection.player is None,
            connection.waiting_since == Some(now),
            connection.last_ping == now,
            connection.wf(),
    {
        Connection {
            stage: Stage::AwaitingIdentification,
            player: None,
            waiting_since: Some(now),
            last_ping: now,
        }
    }

    /// Takes the connection down: the player, if there is one, leaves the
    /// registry and its world, the other connections of that world are told
    /// so, and the socket is closed. A connection that is down already
    /// stays as it is.
    pub fn leave(&mut self, server: &mut Server) -> (actions: Vec<Action>)
        requires
            old(self).wf(),
        ensures
            final(self).wf(),
            final(self).stage == Stage::Disconnected,
            final(self).player is None,
            final(self).last_ping == old(self).last_ping,
            old(self).stage == Stage::Disconnected ==> *final(self) == *old(self) && *final(server)
                == *old(server) && actions@.len() == 0,
            old(self).stage == Stage::AwaitingIdentification ==> *final(server) == *old(server)
                && views_of(actions@) == seq![ActionView::Close],
            old(self).stage == Stage::Identified ==> final(server).is_after_disconnect(
                *old(server),
                old(self).player.unwrap().username@,
            ) && views_of(actions@) == seq![
                ActionView::Broadcast {
                    world: old(self).player.unwrap().world@,
                    packet: OutgoingView::DespawnPlayer { id: old(self).player.unwrap().id },
                },
                ActionView::Close,
            ],
            old(self).stage != Stage::Disconnected ==> final(self).waiting_since is None,
            old(server).wf() ==> final(server).wf(),
    {
        let mut actions: Vec<Action> = Vec::new();
        if let Stage::Disconnected = self.stage {
            return actions;
        }
        self.stage = Stage::Disconnected;
        self.waiting_since = None;
        match self.player.take() {
            Some(player) => {
                let _ = server.disconnect(&player.username);
                actions.push(
                    Action::Broadcast {
                        world: player.world,
                        packet: Outgoing::DespawnPlayer { id: player.id },
                    },
                );
                actions.push(Action::Close);
                assert(views_of(actions@) =~= seq![
                    ActionView::Broadcast {
                        world: old(self).player.unwrap().world@,
                        packet: OutgoingView::DespawnPlayer { id: old(self).player.unwrap().id },
                    },
                    ActionView::Close,
                ]);
            },
            None => {
                actions.push(Action::Close);
                assert(views_of(actions@) =~= seq![ActionView::Close]);
            },
        }
        actions
    }

    /// What follows from the passing of time. A client that has been silent
    /// for longer than the packet timeout is taken down as by `leave`. Else
    /// an identified client gets a ping where the last one is at least the
    /// ping spacing old, and the server starts to wait for an answer if it
    /// did not wait already. Else nothing happens.
    pub fn tick(&mut self, server: &mut Server, now: u64) -> (actions: Vec<Action>)
        requires
            old(self).wf(),
        ensures
            final(self).wf(),
            old(server).wf() ==> final(server).wf(),
            old(self).timed_out(old(server).config.packet_timeout, now) ==> {
                &&& final(self).stage == Stage::Disconnected
                &&& final(self).player is None
                &&& final(self).waiting_since is None
                &&& old(self).stage == Stage::AwaitingIdentification ==> *final(server) == *old(
                    server,
                ) && views_of(actions@) == seq![ActionView::Close]
                &&& old(self).stage == Stage::Identified ==> final(server).is_after_disconnect(
                    *old(server),
                    old(self).player.unwrap().username@,
                ) && views_of(actions@) == seq![
                    ActionView::Broadcast {
                        world: old(self).player.unwrap().world@,
                        packet: OutgoingView::DespawnPlayer { id: old(self).player.unwrap().id },
                    },
                    ActionView::Close,
                ]
            },
            !old(self).timed_out(old(server).config.packet_timeout, now) ==> *final(server) == *old(
                server,
            ) && final(self).stage == old(self).stage && final(self).player == old(self).player,
            !old(self).timed_out(old(server).config.packet_timeout, now) && old(self).ping_due(
                old(server).config.ping_spacing,
                now,
            ) ==> {
                &&& views_of(actions@) == seq![ActionView::Send(OutgoingView::Ping)]
                &&& final(self).last_ping == now
                &&& final(self).waiting_since == if old(self).waiting_since is Some {
                    old(self).waiting_since
                } else {
                    Some(now)
                }
            },
            !old(self).timed_out(old(server).config.packet_timeout, now) && !old(self).ping_due(
                old(server).config.ping_spacing,
                now,
            ) ==> *final(self) == *old(self) && actions@.len() == 0,
    {
        if let Stage::Disconnected = self.stage {
            return Vec::new();
        }
        if let Some(since) = self.waiting_since {
            if elapsed(now, since) > server.config.packet_timeout {
                return self.leave(server);
            }
        }
        let mut actions: Vec<Action> = Vec::new();
        if let Stage::Identified = self.stage {
            if elapsed(now, self.last_ping) >= server.config.ping_spacing {
                self.last_ping = now;
                if self.waiting_since.is_none() {
                    self.waiting_since = Some(now);
                }
                actions.push(Action::Send(Outgoing::Ping));
                assert(views_of(actions@) =~= seq![ActionView::Send(OutgoingView::Ping)]);
            }
        }
        actions
    }

    /// Turns a client away before it has identified itself: it is told
    /// why, and the socket is closed.
    pub fn turn_away(&mut self, reason: String) -> (actions: Vec<Action>)
        ensures
            final(self).stage == Stage::Disconnected,
            final(self).player is None,
            final(self).waiting_since is None,
            final(self).last_ping == old(self).last_ping,
            views_of(actions@) == seq![
                ActionView::Send(OutgoingView::Disconnect { reason: reason@ }),
                ActionView::Close,
            ],
    {
        self.stage = Stage::Disconnected;
        self.player = None;
        self.waiting_since = None;
        let mut actions: Vec<Action> = Vec::new();
        actions.push(Action::Send(Outgoing::Disconnect { reason }));
        actions.push(Action::Close);
        assert(views_of(actions@) =~= seq![
            ActionView::Send(OutgoingView::Disconnect { reason: reason@ }),
            ActionView::Close,
        ]);
        actions
    }

    /// Handles the identification of a client that has not identified
    /// itself yet. `expected` holds, for each salt of the history, the key
    /// that the salt asks of this username.
    ///
    /// Where a check fails, the client is turned away with the reason and
    /// the server stays as it was. Else the player gets the next free id of
    /// the default world, is entered into the registry, and the client is
    /// welcomed.
    pub fn identify(
        &mut self,
        server: &mut Server,
        peer: IpAddress,
        username: String,
        key: String,
        expected: &Vec<String>,
    ) -> (actions: Vec<Action>)
        requires
            old(self).stage == Stage::AwaitingIdentification,
            old(self).wf(),
            old(server).wf(),
        ensures
            final(self).wf(),
            final(server).wf(),
            final(self).waiting_since is None,
            final(self).last_ping == old(self).last_ping,
            match refusal_of(*old(server), peer, username@, key@, expected@) {
                Some(reason) => {
                    &&& final(self).stage == Stage::Disconnected
                    &&& *final(server) == *old(server)
                    &&& views_of(actions@) == seq![
                        ActionView::Send(OutgoingView::Disconnect { reason }),
                        ActionView::Close,
                    ]
                },
                None => {
                    &&& final(self).stage == Stage::Identified
                    &&& final(self).player == Some(final(server).players_connected@.last())
                    &&& is_after_join(*final(server), *old(server), username@)
                    &&& views_of(actions@) == welcome(*old(server), username@)
                },
            },
    {
        if let Some(reason) = server.config.banned_ip_reason(peer) {
            return self.turn_away(reason);
        }
        if let Some(reason) = server.config.banned_user_reason(&username) {
            return self.turn_away(reason);
        }
        if !server.can_accept() {
            return self.turn_away(Refusal::Full.to_text());
        }
        if server.find_player(&username).is_some() {
            return self.turn_away(Refusal::AlreadyConnected.to_text());
        }
        if !server.verify(&key, expected) {
            return self.turn_away(Refusal::BadKey.to_text());
        }
        let world_name = server.config.default_world.clone();
        let at = match server.find_world(&world_name) {
            Some(at) => at,
            None => {
                return self.turn_away(Refusal::NoWorld.to_text());
            },
        };
        if server.worlds[at].world.next_free().is_none() {
            return self.turn_away(Refusal::WorldFull.to_text());
        }
        let spawn = server.worlds[at].world.spawn;
        let operator = server.config.is_operator(&username);
        let mut actions: Vec<Action> = Vec::new();
        actions.push(
            Action::Send(
                Outgoing::ServerIdentification {
                    version: PROTOCOL_VERSION,
                    name: server.config.name.clone(),
                    motd: server.config.motd.clone(),
                    operator,
                },
            ),
        );
        actions.push(Action::TransferLevel { world: world_name.clone() });
        actions.push(
            Action::Send(
                Outgoing::SpawnPlayer { id: SELF_ID, name: username.clone(), location: spawn },
            ),
        );
        let ghost head = views_of(actions@);
        let mut others = neighbour_spawns(server, at, &world_name);
        let ghost middle = views_of(others@);
        let id = match server.worlds[at].world.add_player(spawn) {
            Some(id) => id,
            None => vstd::pervasive::unreached(),
        };
        actions.append(&mut others);
        assert(views_of(actions@) =~= head + middle);
        actions.push(
            Action::Broadcast {
                world: world_name.clone(),
                packet: Outgoing::SpawnPlayer { id, name: username.clone(), location: spawn },
            },
        );
        assert(views_of(actions@) =~= welcome(*old(server), username@));
        let player = Connected { username: username.clone(), world: world_name.clone(), id };
        server.register(username, world_name, id);
        self.stage = Stage::Identified;
        self.player = Some(player);
        self.waiting_since = None;
        assert(server.players_connected@.drop_last() =~= old(server).players_connected@);
        assert forall|i: int| 0 <= i < old(server).worlds@.len() implies {
            &&& (#[trigger] server.worlds@[i]).name == old(server).worlds@[i].name
            &&& server.worlds@[i].world.spawn == old(server).worlds@[i].world.spawn
            &&& server.worlds@[i].world.slots@ == if i == at {
                old(server).worlds@[at as int].world.slots_with(id, spawn)
            } else {
                old(server).worlds@[i].world.slots@
            }
        } by {}
        actions
    }

    /// Takes down a connection whose client broke the protocol: the client
    /// is told so, then the connection is taken down as by `leave`.
    pub fn violate(&mut self, server: &mut Server) -> (actions: Vec<Action>)
        requires
            old(self).wf(),
            old(self).stage != Stage::Disconnected,
        ensures
            final(self).wf(),
            final(self).stage == Stage::Disconnected,
            final(self).player is None,
            final(self).waiting_since is None,
            final(self).last_ping == old(self).last_ping,
            old(server).wf() ==> final(server).wf(),
            old(self).stage == Stage::AwaitingIdentification ==> *final(server) == *old(server)
                && views_of(actions@) == seq![
                ActionView::Send(OutgoingView::Disconnect { reason: Refusal::Violation.text() }),
                ActionView::Close,
            ],
            old(self).stage == Stage::Identified ==> final(server).is_after_disconnect(
                *old(server),
                old(self).player.unwrap().username@,
            ) && views_of(actions@) == seq![
                ActionView::Send(OutgoingView::Disconnect { reason: Refusal::Violation.text() }),
                ActionView::Broadcast {
                    world: old(self).player.unwrap().world@,
                    packet: OutgoingView::DespawnPlayer { id: old(self).player.unwrap().id },
                },
                ActionView::Close,
            ],
    {
        let mut actions: Vec<Action> = Vec::new();
        actions.push(Action::Send(Outgoing::Disconnect { reason: Refusal::Violation.to_text() }));
        let ghost head = views_of(actions@);
        let mut rest = self.leave(server);
        let ghost tail = views_of(rest@);
        actions.append(&mut rest);
        assert(views_of(actions@) =~= head + tail);
        actions
    }

    /// Handles a packet of an identified client that is no identification.
    /// The packet is passed on as `relayed` says, a message cut to the
    /// length that the configuration allows, and a move is entered into the
    /// player's world.
    pub fn relay(&mut self, server: &mut Server, packet: Incoming) -> (actions: Vec<Action>)
        requires
            old(self).wf(),
            old(self).stage == Stage::Identified,
            !(packet is PlayerIdentification),
        ensures
            final(self).stage == Stage::Identified,
            final(self).player == old(self).player,
            final(self).waiting_since is None,
            final(self).last_ping == old(self).last_ping,
            views_of(actions@) == relayed(
                old(self).player.unwrap(),
                packet@,
                old(server).config.max_message_length,
            ),
            match packet {
                Incoming::SetLocation { location } => is_after_move(
                    *final(server),
                    *old(server),
                    old(self).player.unwrap(),
                    location,
                ),
                _ => *final(server) == *old(server),
            },
            old(server).wf() ==> final(server).wf(),
    {
        self.waiting_since = None;
        let mut actions: Vec<Action> = Vec::new();
        let (world, id) = match &self.player {
            Some(player) => (player.world.clone(), player.id),
            None => {
                return actions;
            },
        };
        match packet {
            Incoming::SetBlock { position, state } => {
                actions.push(Action::PlaceBlock { world: world.clone(), position, state });
                actions.push(
                    Action::Broadcast {
                        world,
                        packet: Outgoing::SetBlock { position, block: state },
                    },
                );
            },
            Incoming::SetLocation { location } => {
                match server.find_world(&world) {
                    Some(at) => {
                        let _ = server.worlds[at].world.move_player(id, location);
                    },
                    None => {},
                }
                actions.push(
                    Action::Broadcast {
                        world,
                        packet: Outgoing::TeleportPlayer { id, location },
                    },
                );
            },
            Incoming::Message { message } => {
                let message = clip(message, server.config.max_message_length);
                actions.push(
                    Action::Broadcast { world, packet: Outgoing::Message { id, message } },
                );
            },
            Incoming::PlayerIdentification { .. } => {},
        }
        assert(views_of(actions@) =~= relayed(
            old(self).player.unwrap(),
            packet@,
            old(server).config.max_message_length,
        ));
        actions
    }

    /// What follows from a packet that has arrived from `peer`. `expected`
    /// holds, for each salt of the history, the key that the salt asks of
    /// the username in the packet, and is read only for an identification.
    ///
    /// A connection that is down ignores the packet. Before the client has
    /// identified itself, an identification is handled as by `identify`
    /// and any other packet as by `violate`. After that, an identification
    /// is handled as by `violate` and any other packet as by `relay`.
    pub fn receive(
        &mut self,
        server: &mut Server,
        peer: IpAddress,
        packet: Incoming,
        expected: &Vec<String>,
    ) -> (actions: Vec<Action>)
        requires
            old(self).wf(),
            old(server).wf(),
        ensures
            final(self).wf(),
            final(server).wf(),
            final(self).last_ping == old(self).last_ping,
            old(self).stage == Stage::Disconnected ==> *final(self) == *old(self) && *final(server)
                == *old(server) && actions@.len() == 0,
            old(self).stage != Stage::Disconnected ==> final(self).waiting_since is None,
            old(self).stage == Stage::AwaitingIdentification ==> match packet {
                Incoming::PlayerIdentification { username, key, .. } => match refusal_of(
                    *old(server),
                    peer,
                    username@,
                    key@,
                    expected@,
                ) {
                    Some(reason) => {
                        &&& final(self).stage == Stage::Disconnected
                        &&& *final(server) == *old(server)
                        &&& views_of(actions@) == seq![
                            ActionView::Send(OutgoingView::Disconnect { reason }),
                            ActionView::Close,
                        ]
                    },
                    None => {
                        &&& final(self).stage == Stage::Identified
                        &&& final(self).player == Some(final(server).players_connected@.last())
                        &&& is_after_join(*final(server), *old(server), username@)
                        &&& views_of(actions@) == welcome(*old(server), username@)
                    },
                },
                _ => {
                    &&& final(self).stage == Stage::Disconnected
                    &&& *final(server) == *old(server)
                    &&& views_of(actions@) == seq![
                        ActionView::Send(
                            OutgoingView::Disconnect { reason: Refusal::Violation.text() },
                        ),
                        ActionView::Close,
                    ]
                },
            },
            old(self).stage == Stage::Identified ==> match packet {
                Incoming::PlayerIdentification { .. } => {
                    &&& final(self).stage == Stage::Disconnected
                    &&& final(server).is_after_disconnect(
                        *old(server),
                        old(self).player.unwrap().username@,
                    )
                    &&& views_of(actions@) == seq![
                        ActionView::Send(
                            OutgoingView::Disconnect { reason: Refusal::Violation.text() },
                        ),
                        ActionView::Broadcast {
                            world: old(self).player.unwrap().world@,
                            packet: OutgoingView::DespawnPlayer {
                                id: old(self).player.unwrap().id,
                            },
                        },
                        ActionView::Close,
                    ]
                },
                Incoming::SetLocation { location } => {
                    &&& final(self).stage == Stage::Identified
                    &&& final(self).player == old(self).player
                    &&& is_after_move(
                        *final(server),
                        *old(server),
                        old(self).player.unwrap(),
                        location,
                    )
                    &&& views_of(actions@) == relayed(
                        old(self).player.unwrap(),
                        packet@,
                        old(server).config.max_message_length,
                    )
                },
                _ => {
                    &&& final(self).stage == Stage::Identified
                    &&& final(self).player == old(self).player
                    &&& *final(server) == *old(server)
                    &&& views_of(actions@) == relayed(
                        old(self).player.unwrap(),
                        packet@,
                        old(server).config.max_message_length,
                    )
                },
            },
    {
        match self.stage {
            Stage::Disconnected => Vec::new(),
            Stage::AwaitingIdentification => match packet {
                Incoming::PlayerIdentification { username, key, .. } => {
                    self.identify(server, peer, username, key, expected)
                },
                _ => self.violate(server),
            },
            Stage::Identified => match packet {
                Incoming::PlayerIdentification { .. } => self.violate(server),
                _ => self.relay(server, packet),
            },
        }
    }
}

} // verus!
