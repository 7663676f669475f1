//! Handles the actual server: its configuration and the registry of the
//! players that are connected.

use crate::salt::{issued, push_salt, salts_of, SaltExt};
use crate::search::{any_where, first_where, lemma_first_where, lemma_first_where_is};
use crate::world::{World, WORLD_CAPACITY};
use rand::rngs::StdRng;
use std::collections::VecDeque;
use vstd::prelude::*;

verus! {

/// An address of the Internet Protocol, as its number.
#[derive(Clone, Copy, Debug, PartialEq, Eq, Structural)]
pub enum IpAddress {
    V4(u32),
    V6(u128),
}

/// An address that may not connect, and why.
#[derive(Clone, Debug, PartialEq, Eq)]
pub struct BannedIp {
    pub ip: IpAddress,
    pub reason: String,
}

/// A username that may not connect, and why.
#[derive(Clone, Debug, PartialEq, Eq)]
pub struct BannedUser {
    pub username: String,
    pub reason: String,
}

/// Configuration for a server. Times are in milliseconds.
#[derive(Clone, Debug, PartialEq, Eq)]
pub struct Config {
    /// How long the server will wait for a client to respond to a ping.
    pub packet_timeout: u64,
    /// How often the server will send pings to clients.
    pub ping_spacing: u64,
    /// The default world to connect to.
    pub default_world: String,
    /// The banned addresses with their ban reasons.
    pub banned_ips: Vec<BannedIp>,
    /// The banned usernames with their ban reasons.
    pub banned_users: Vec<BannedUser>,
    /// The usernames that are operators.
    pub operators: Vec<String>,
    /// The amount of salts to keep for verifying users.
    ///
    /// If this is zero, then users will not be verified.
    pub kept_salts: usize,
    /// The server name to display in the server list.
    pub name: String,
    /// A URL linking to the heartbeat server the server will ping.
    ///
    /// If this is empty, then the heartbeat URL will not be pinged.
    pub heartbeat_url: String,
    /// The amount of times to retry connecting to the heartbeat server.
    pub heartbeat_retries: usize,
    /// How often the server will send pings to the heartbeat server.
    pub heartbeat_spacing: u64,
    /// How long the server will wait to hear back from the heartbeat server.
    pub heartbeat_timeout: u64,
    /// The port to host the server on.
    pub port: u16,
    /// The maximum amount of players allowed on the server.
    ///
    /// If this is set to 0, then the amount will be unlimited.
    pub max_players: usize,
    /// Whether the server should be public in the server list.
    pub public: bool,
    /// The server's MOTD.
    pub motd: String,
    /// The maximum message length.
    pub max_message_length: usize,
}

/// What is wrong with a configuration.
#[derive(Clone, Copy, Debug, PartialEq, Eq, Structural)]
pub enum ConfigError {
    /// Salts are to be kept, but there is no heartbeat server to hand them
    /// to the players: nobody could ever join.
    SaltsWithoutHeartbeat,
}

/// The reason that stands in for a real one in the bans of the default
/// configuration.
pub open spec fn placeholder_reason() -> Seq<char> {
    "<ban reason>"@
}

impl Default for Config {
    /// The configuration that a fresh installation gets: a private server
    /// on port 25565 for 64 players, without heartbeat and without
    /// verification, with three bans of each kind that show how a ban is
    /// written.
    fn default() -> (config: Config)
        ensures
            config.packet_timeout == 10_000,
            config.ping_spacing == 500,
            config.default_world@ == "default"@,
            config.banned_ips@.len() == 3,
            forall|i: int|
                0 <= i < 3 ==> (#[trigger] config.banned_ips@[i]).ip == IpAddress::V4(i as u32)
                    && config.banned_ips@[i].reason@ == placeholder_reason(),
            config.banned_users@.len() == 3,
            config.banned_users@[0].username@ == "Alice"@,
            config.banned_users@[1].username@ == "Bob"@,
            config.banned_users@[2].username@ == "Charlie"@,
            forall|i: int|
                0 <= i < 3 ==> (#[trigger] config.banned_users@[i]).reason@ == placeholder_reason(),
            config.operators@.len() == 0,
            config.kept_salts == 0,
            config.name@ == "<Unnamed Server>"@,
            config.heartbeat_url@.len() == 0,
            config.heartbeat_retries == 5,
            config.heartbeat_spacing == 5_000,
            config.heartbeat_timeout == 5_000,
            config.port == 25565,
            config.max_players == 64,
            !config.public,
            config.motd@ == "Running on Honeybit"@,
            config.max_message_length == 256,
            config.validate_spec() is Ok,
    {
        let mut banned_ips: Vec<BannedIp> = Vec::new();
        banned_ips.push(BannedIp { ip: IpAddress::V4(0), reason: "<ban reason>".to_owned() });
        banned_ips.push(BannedIp { ip: IpAddress::V4(1), reason: "<ban reason>".to_owned() });
        banned_ips.push(BannedIp { ip: IpAddress::V4(2), reason: "<ban reason>".to_owned() });
        let mut banned_users: Vec<BannedUser> = Vec::new();
        banned_users.push(
            BannedUser { username: "Alice".to_owned(), reason: "<ban reason>".to_owned() },
        );
        banned_users.push(
            BannedUser { username: "Bob".to_owned(), reason: "<ban reason>".to_owned() },
        );
        banned_users.push(
            BannedUser { username: "Charlie".to_owned(), reason: "<ban reason>".to_owned() },
        );
        Config {
            packet_timeout: 10_000,
            ping_spacing: 500,
            default_world: "default".to_owned(),
            banned_ips,
            banned_users,
            operators: Vec::new(),
            kept_salts: 0,
            name: "<Unnamed Server>".to_owned(),
            heartbeat_url: String::new(),
            heartbeat_retries: 5,
            heartbeat_spacing: 5_000,
            heartbeat_timeout: 5_000,
            port: 25565,
            max_players: 64,
            public: false,
            motd: "Running on Honeybit".to_owned(),
            max_message_length: 256,
        }
    }
}

impl Config {
    /// The place of the ban of an address among the banned addresses, or
    /// their number where the address is not banned.
    pub open spec fn ip_ban(&self, ip: IpAddress) -> int {
        first_where(self.banned_ips@, |ban: BannedIp| ban.ip == ip)
    }

    /// The place of the ban of a username among the banned usernames, or
    /// their number where the username is not banned.
    pub open spec fn user_ban(&self, username: Seq<char>) -> int {
        first_where(self.banned_users@, |ban: BannedUser| ban.username@ == username)
    }

    /// Whether the username is among the operators.
    pub open spec fn has_operator(&self, username: Seq<char>) -> bool {
        any_where(self.operators@, |name: String| name@ == username)
    }

    /// Whether players are verified against the salts.
    pub open spec fn verifies(&self) -> bool {
        self.kept_salts > 0
    }

    /// Whether the server announces itself to a heartbeat server.
    pub open spec fn announces(&self) -> bool {
        self.heartbeat_url@.len() > 0
    }

    /// The reason for which the address is banned, if it is.
    pub fn banned_ip_reason(&self, ip: IpAddress) -> (reason: Option<String>)
        ensures
            reason is Some <==> self.ip_ban(ip) < self.banned_ips@.len(),
            reason matches Some(text) ==> text@ == self.banned_ips@[self.ip_ban(ip)].reason@,
    {
        let mut index: usize = 0;
        while index < self.banned_ips.len()
            invariant
                index <= self.banned_ips@.len(),
                forall|i: int| 0 <= i < index ==> self.banned_ips@[i].ip != ip,
            decreases self.banned_ips@.len() - index,
        {
            if self.banned_ips[index].ip == ip {
                proof {
                    lemma_first_where_is(
                        self.banned_ips@,
                        |ban: BannedIp| ban.ip == ip,
                        index as int,
                    );
                }
                return Some(self.banned_ips[index].reason.clone());
            }
            index = index + 1;
        }
        proof {
            lemma_first_where_is(self.banned_ips@, |ban: BannedIp| ban.ip == ip, index as int);
        }
        None
    }

    /// The reason for which the username is banned, if it is.
    pub fn banned_user_reason(&self, username: &String) -> (reason: Option<String>)
        ensures
            reason is Some <==> self.user_ban(username@) < self.banned_users@.len(),
            reason matches Some(text) ==> text@ == self.banned_users@[self.user_ban(
                username@,
            )].reason@,
    {
        let mut index: usize = 0;
        while index < self.banned_users.len()
            invariant
                index <= self.banned_users@.len(),
                forall|i: int| 0 <= i < index ==> self.banned_users@[i].username@ != username@,
            decreases self.banned_users@.len() - index,
        {
            if self.banned_users[index].username == *username {
                proof {
                    lemma_first_where_is(
                        self.banned_users@,
                        |ban: BannedUser| ban.username@ == username@,
                        index as int,
                    );
                }
                return Some(self.banned_users[index].reason.clone());
            }
            index = index + 1;
        }
        proof {
            lemma_first_where_is(
                self.banned_users@,
                |ban: BannedUser| ban.username@ == username@,
                index as int,
            );
        }
        None
    }

    /// Whether the username is among the operators.
    pub fn is_operator(&self, username: &String) -> (operator: bool)
        ensures
            operator == self.has_operator(username@),
    {
        let mut index: usize = 0;
        while index < self.operators.len()
            invariant
                index <= self.operators@.len(),
                forall|i: int| 0 <= i < index ==> self.operators@[i]@ != username@,
            decreases self.operators@.len() - index,
        {
            if self.operators[index] == *username {
                proof {
                    lemma_first_where_is(
                        self.operators@,
                        |name: String| name@ == username@,
                        index as int,
                    );
                }
                return true;
            }
            index = index + 1;
        }
        proof {
            lemma_first_where_is(self.operators@, |name: String| name@ == username@, index as int);
        }
        false
    }

    /// What `validate` finds: salts may only be kept where a heartbeat
    /// server hands them on.
    pub open spec fn validate_spec(&self) -> Result<(), ConfigError> {
        if !self.announces() && self.verifies() {
            Err(ConfigError::SaltsWithoutHeartbeat)
        } else {
            Ok(())
        }
    }

    /// Checks that the configuration can work: salts are only kept where a
    /// heartbeat server hands them on.
    pub fn validate(&self) -> (result: Result<(), ConfigError>)
        ensures
            result == self.validate_spec(),
    {
        if self.heartbeat_url.as_str().unicode_len() == 0 && self.kept_salts > 0 {
            Err(ConfigError::SaltsWithoutHeartbeat)
        } else {
            Ok(())
        }
    }
}

/// A world under its name.
#[derive(Clone, Debug, PartialEq, Eq)]
pub struct NamedWorld {
    pub name: String,
    pub world: World,
}

/// A connected player: the username, the world the player is in, and the
/// player's id in that world.
#[derive(Clone, Debug, PartialEq, Eq)]
pub struct Connected {
    pub username: String,
    pub world: String,
    pub id: i8,
}

/// An instance of a server.
#[derive(Clone, Debug, PartialEq, Eq)]
pub struct Server {
    /// The worlds in the server, each under its own name.
    pub worlds: Vec<NamedWorld>,
    /// The configuration for the server.
    pub config: Config,
    /// The last few salts generated by the server, oldest first. The length
    /// is dictated by the server configuration.
    pub last_salts: VecDeque<String>,
    /// The players that are connected, each username once.
    pub players_connected: Vec<Connected>,
}

impl Server {
    /// The place of a world among the worlds, or their number where no
    /// world has the name.
    pub open spec fn world_index(&self, name: Seq<char>) -> int {
        first_where(self.worlds@, |named: NamedWorld| named.name@ == name)
    }

    /// The place of a player among the connected players, or their number
    /// where the username is not connected.
    pub open spec fn player_index(&self, username: Seq<char>) -> int {
        first_where(self.players_connected@, |player: Connected| player.username@ == username)
    }

    /// Whether a player of that name is connected.
    pub open spec fn is_connected(&self, username: Seq<char>) -> bool {
        self.player_index(username) < self.players_connected@.len()
    }

    /// The salts of the history, oldest first.
    pub open spec fn salts(&self) -> Seq<Seq<char>> {
        salts_of(self.last_salts@)
    }

    /// Whether one more player fits: a maximum of zero means no maximum.
    pub open spec fn has_room(&self) -> bool {
        self.config.max_players == 0 || self.players_connected@.len() < self.config.max_players
    }

    /// No name is used twice, among the worlds and among the players, and
    /// every world is well formed.
    pub open spec fn wf(&self) -> bool {
        &&& forall|i: int, j: int|
            0 <= i < j < self.worlds@.len() ==> self.worlds@[i].name@ != self.worlds@[j].name@
        &&& forall|i: int, j: int|
            0 <= i < j < self.players_connected@.len() ==> self.players_connected@[i].username@
                != self.players_connected@[j].username@
        &&& forall|i: int| 0 <= i < self.worlds@.len() ==> (#[trigger] self.worlds@[i]).world.wf()
    }

    /// Whether this is the server that `before` becomes when the player of
    /// the given name is disconnected: the same server where no such player
    /// is connected; else the server without the player's entry, and with
    /// the player's slot freed in the world that the entry names, if there
    /// is such a world.
    pub open spec fn is_after_disconnect(&self, before: Server, username: Seq<char>) -> bool {
        if !before.is_connected(username) {
            *self == before
        } else {
            let player = before.players_connected@[before.player_index(username)];
            &&& self.players_connected@ == before.players_connected@.remove(
                before.player_index(username),
            )
            &&& self.config == before.config
            &&& self.last_salts == before.last_salts
            &&& self.worlds@.len() == before.worlds@.len()
            &&& forall|i: int|
                0 <= i < before.worlds@.len() ==> {
                    &&& (#[trigger] self.worlds@[i]).name == before.worlds@[i].name
                    &&& self.worlds@[i].world.spawn == before.worlds@[i].world.spawn
                    &&& self.worlds@[i].world.slots@ == if i == before.world_index(player.world@) {
                        before.worlds@[i].world.slots_without(player.id)
                    } else {
                        before.worlds@[i].world.slots@
                    }
                }
        }
    }

    /// Whether no name is used twice and every world is well formed.
    pub fn is_well_formed(&self) -> (sound: bool)
        ensures
            sound == self.wf(),
    {
        let mut i: usize = 0;
        while i < self.worlds.len()
            invariant
                i <= self.worlds@.len(),
                forall|a: int, b: int|
                    0 <= a < b < self.worlds@.len() && a < i ==> self.worlds@[a].name@
                        != self.worlds@[b].name@,
                forall|a: int| 0 <= a < i ==> (#[trigger] self.worlds@[a]).world.wf(),
            decreases self.worlds@.len() - i,
        {
            if self.worlds[i].world.slots.len() > WORLD_CAPACITY {
                assert(!self.worlds@[i as int].world.wf());
                return false;
            }
            let mut j: usize = i + 1;
            while j < self.worlds.len()
                invariant
                    i < j <= self.worlds@.len(),
                    forall|b: int| i < b < j ==> self.worlds@[i as int].name@ != self.worlds@[b].name@,
                decreases self.worlds@.len() - j,
            {
                if self.worlds[i].name == self.worlds[j].name {
                    return false;
                }
                j = j + 1;
            }
            i = i + 1;
        }
        let mut i: usize = 0;
        while i < self.players_connected.len()
            invariant
                i <= self.players_connected@.len(),
                forall|a: int, b: int|
                    0 <= a < b < self.players_connected@.len() && a < i
                        ==> self.players_connected@[a].username@
                        != self.players_connected@[b].username@,
            decreases self.players_connected@.len() - i,
        {
            let mut j: usize = i + 1;
            while j < self.players_connected.len()
                invariant
                    i < j <= self.players_connected@.len(),
                    forall|b: int|
                        i < b < j ==> self.players_connected@[i as int].username@
                            != self.players_connected@[b].username@,
                decreases self.players_connected@.len() - j,
            {
                if self.players_connected[i].username == self.players_connected[j].username {
                    return false;
                }
                j = j + 1;
            }
            i = i + 1;
        }
        true
    }

    /// A server with the given worlds and configuration, no salts and no
    /// players.
    pub fn new(worlds: Vec<NamedWorld>, config: Config) -> (server: Server)
        ensures
            server.worlds == worlds,
            server.config == config,
            server.last_salts@.len() == 0,
            server.players_connected@.len() == 0,
    {
        Server { worlds, config, last_salts: VecDeque::new(), players_connected: Vec::new() }
    }

    /// Where the world of that name is among the worlds, if there is one.
    pub fn find_world(&self, name: &String) -> (found: Option<usize>)
        ensures
            found is Some <==> self.world_index(name@) < self.worlds@.len(),
            found matches Some(index) ==> index == self.world_index(name@),
    {
        let mut index: usize = 0;
        while index < self.worlds.len()
            invariant
                index <= self.worlds@.len(),
                forall|i: int| 0 <= i < index ==> self.worlds@[i].name@ != name@,
            decreases self.worlds@.len() - index,
        {
            if self.worlds[index].name == *name {
                proof {
                    lemma_first_where_is(
                        self.worlds@,
                        |named: NamedWorld| named.name@ == name@,
                        index as int,
                    );
                }
                return Some(index);
            }
            index = index + 1;
        }
        proof {
            lemma_first_where_is(
                self.worlds@,
                |named: NamedWorld| named.name@ == name@,
                index as int,
            );
        }
        None
    }

    /// Where the player of that name is among the connected players, if the
    /// player is connected.
    pub fn find_player(&self, username: &String) -> (found: Option<usize>)
        ensures
            found is Some <==> self.is_connected(username@),
            found matches Some(index) ==> index == self.player_index(username@),
    {
        let mut index: usize = 0;
        while index < self.players_connected.len()
            invariant
                index <= self.players_connected@.len(),
                forall|i: int| 0 <= i < index ==> self.players_connected@[i].username@ != username@,
            decreases self.players_connected@.len() - index,
        {
            if self.players_connected[index].username == *username {
                proof {
                    lemma_first_where_is(
                        self.players_connected@,
                        |player: Connected| player.username@ == username@,
                        index as int,
                    );
                }
                return Some(index);
            }
            index = index + 1;
        }
        proof {
            lemma_first_where_is(
                self.players_connected@,
                |player: Connected| player.username@ == username@,
                index as int,
            );
        }
        None
    }

    /// How many players are connected.
    pub fn player_count(&self) -> (count: usize)
        ensures
            count == self.players_connected@.len(),
    {
        self.players_connected.len()
    }

    /// Whether one more player fits.
    pub fn can_accept(&self) -> (room: bool)
        ensures
            room == self.has_room(),
    {
        self.config.max_players == 0 || self.players_connected.len() < self.config.max_players
    }

    /// Enters a player into the registry. The caller has made sure that the
    /// username is not connected yet.
    pub fn register(&mut self, username: String, world: String, id: i8)
        requires
            !old(self).is_connected(username@),
        ensures
            final(self).players_connected@ == old(self).players_connected@.push(
                Connected { username, world, id },
            ),
            final(self).worlds == old(self).worlds,
            final(self).config == old(self).config,
            final(self).last_salts == old(self).last_salts,
            final(self).is_connected(username@),
            final(self).player_index(username@) == old(self).players_connected@.len(),
            old(self).wf() ==> final(self).wf(),
    {
        proof {
            lemma_first_where(
                self.players_connected@,
                |player: Connected| player.username@ == username@,
            );
        }
        let ghost wanted = |player: Connected| player.username@ == username@;
        let ghost at = self.players_connected@.len() as int;
        self.players_connected.push(Connected { username, world, id });
        proof {
            lemma_first_where_is(self.players_connected@, wanted, at);
        }
    }

    /// Disconnect a player from the server by username.
    ///
    /// The player leaves the registry, and the world that the player was in
    /// frees the player's slot. A username that is not connected changes
    /// nothing. This does not close the player's networking loops!
    pub fn disconnect(&mut self, username: &String) -> (left: Option<Connected>)
        ensures
            left is Some <==> old(self).is_connected(username@),
            left matches Some(player) ==> player == old(self).players_connected@[old(
                self,
            ).player_index(username@)],
            final(self).is_after_disconnect(*old(self), username@),
            old(self).wf() ==> final(self).wf() && !final(self).is_connected(username@),
    {
        let index = match self.find_player(username) {
            Some(index) => index,
            None => {
                return None;
            },
        };
        let player = self.players_connected.remove(index);
        proof {
            if old(self).wf() {
                let wanted = |entry: Connected| entry.username@ == username@;
                lemma_first_where(old(self).players_connected@, wanted);
                assert(wanted(old(self).players_connected@[index as int]));
                assert forall|i: int| 0 <= i < self.players_connected@.len() implies !wanted(
                    #[trigger] self.players_connected@[i],
                ) by {
                    if i < index {
                        assert(self.players_connected@[i] == old(self).players_connected@[i]);
                    } else {
                        assert(self.players_connected@[i] == old(self).players_connected@[i + 1]);
                    }
                }
                lemma_first_where_is(
                    self.players_connected@,
                    wanted,
                    self.players_connected@.len() as int,
                );
            }
        }
        match self.find_world(&player.world) {
            Some(at) => {
                self.worlds[at].world.remove_player(player.id);
            },
            None => {},
        }
        Some(player)
    }

    /// Adds a salt to the history and drops the oldest salts until no more
    /// are left than the configuration keeps.
    pub fn keep_salt(&mut self, salt: String)
        ensures
            final(self).salts() == issued(old(self).salts(), salt@, old(self).config.kept_salts as nat),
            final(self).worlds == old(self).worlds,
            final(self).config == old(self).config,
            final(self).players_connected == old(self).players_connected,
    {
        push_salt(&mut self.last_salts, salt, self.config.kept_salts);
    }

    /// Generates a new salt and keeps it in the history. Returns the salt.
    pub fn issue_salt(&mut self, rng: &mut StdRng) -> (salt: String)
        ensures
            crate::salt::is_salt(salt@),
            final(self).salts() == issued(old(self).salts(), salt@, old(self).config.kept_salts as nat),
            final(self).worlds == old(self).worlds,
            final(self).config == old(self).config,
            final(self).players_connected == old(self).players_connected,
    {
        let salt = rng.salt();
        self.keep_salt(salt.clone());
        salt
    }

    /// Whether a login key is accepted. `expected` holds, for each salt of
    /// the history, the key that the salt asks of the player. A key is
    /// accepted where it is one of them, whichever; where no salts are
    /// kept, every key is accepted.
    pub fn verify(&self, key: &String, expected: &Vec<String>) -> (accepted: bool)
        ensures
            accepted == (!self.config.verifies() || any_where(
                expected@,
                |wanted: String| wanted@ == key@,
            )),
    {
        if self.config.kept_salts == 0 {
            return true;
        }
        let mut index: usize = 0;
        while index < expected.len()
            invariant
                index <= expected@.len(),
                forall|i: int| 0 <= i < index ==> expected@[i]@ != key@,
            decreases expected@.len() - index,
        {
            if expected[index] == *key {
                proof {
                    lemma_first_where_is(
                        expected@,
                        |wanted: String| wanted@ == key@,
                        index as int,
                    );
                }
                return true;
            }
            index = index + 1;
        }
        proof {
            lemma_first_where_is(expected@, |wanted: String| wanted@ == key@, index as int);
        }
        false
    }
}

} // verus!
