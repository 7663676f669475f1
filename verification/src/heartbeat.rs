//! The heartbeat: the decisions of the task that announces the server to a
//! directory, at intervals and with a bounded number of retries.
//!
//! The task itself waits and sends. It tells this module what happened and
//! does what it is told.

use crate::server::{Config, Server};
use vstd::prelude::*;

verus! {

/// What the directory is told of the server.
#[derive(Clone, Debug, PartialEq, Eq)]
pub struct Announcement {
    pub name: String,
    pub port: u16,
    pub players: usize,
    pub max_players: usize,
    pub public: bool,
}

/// What the directory is told of a server, as it stands now.
pub fn announcement(server: &Server) -> (told: Announcement)
    ensures
        told.name@ == server.config.name@,
        told.port == server.config.port,
        told.players == server.players_connected@.len(),
        told.max_players == server.config.max_players,
        told.public == server.config.public,
{
    Announcement {
        name: server.config.name.clone(),
        port: server.config.port,
        players: server.player_count(),
        max_players: server.config.max_players,
        public: server.config.public,
    }
}

/// What happened to the heartbeat task.
#[derive(Clone, Copy, Debug, PartialEq, Eq, Structural)]
pub enum Beat {
    /// Time has passed: it is now the given time.
    Tick(u64),
    /// The announcement that was under way has arrived.
    Succeeded,
    /// The announcement that was under way has failed or timed out.
    Failed,
}

/// What the heartbeat task is to do.
#[derive(Clone, Copy, Debug, PartialEq, Eq, Structural)]
pub enum Order {
    /// Nothing.
    Rest,
    /// Announce the server, and give the attempt the given time.
    Announce { timeout: u64 },
    /// Record that the directory could not be reached in this interval.
    GiveUp,
}

/// The state of the heartbeat task.
#[derive(Clone, Copy, Debug, PartialEq, Eq, Structural)]
pub struct Heartbeat {
    /// Whether an announcement is under way.
    pub trying: bool,
    /// How many attempts have failed in this interval.
    pub failures: usize,
    /// When the next interval starts.
    pub next_at: u64,
}

/// The sum of a time and a span, or the last time there is where the sum
/// would lie beyond it.
pub open spec fn spec_later(time: u64, span: u64) -> u64 {
    if time + span > u64::MAX {
        u64::MAX
    } else {
        (time + span) as u64
    }
}

/// The sum of a time and a span, or the last time there is where the sum
/// would lie beyond it.
pub fn later(time: u64, span: u64) -> (sum: u64)
    ensures
        sum == spec_later(time, span),
{
    if time > u64::MAX - span {
        u64::MAX
    } else {
        time + span
    }
}

impl Heartbeat {
    /// No more attempts have failed than may be retried.
    pub open spec fn wf(&self, config: &Config) -> bool {
        self.trying ==> self.failures <= config.heartbeat_retries
    }

    /// The state after something happened.
    pub open spec fn next(self, config: &Config, beat: Beat) -> Heartbeat {
        if !config.announces() {
            self
        } else {
            match beat {
                Beat::Tick(now) => if !self.trying && now >= self.next_at {
                    Heartbeat {
                        trying: true,
                        failures: 0,
                        next_at: spec_later(now, config.heartbeat_spacing),
                    }
                } else {
                    self
                },
                Beat::Succeeded => Heartbeat { trying: false, ..self },
                Beat::Failed => if self.trying && self.failures < config.heartbeat_retries {
                    Heartbeat { failures: (self.failures + 1) as usize, ..self }
                } else {
                    Heartbeat { trying: false, ..self }
                },
            }
        }
    }

    /// What is to be done after something happened.
    pub open spec fn order(self, config: &Config, beat: Beat) -> Order {
        if !config.announces() {
            Order::Rest
        } else {
            match beat {
                Beat::Tick(now) => if !self.trying && now >= self.next_at {
                    Order::Announce { timeout: config.heartbeat_timeout }
                } else {
                    Order::Rest
                },
                Beat::Succeeded => Order::Rest,
                Beat::Failed => if !self.trying {
                    Order::Rest
                } else if self.failures < config.heartbeat_retries {
                    Order::Announce { timeout: config.heartbeat_timeout }
                } else {
                    Order::GiveUp
                },
            }
        }
    }

    /// The state in which the task starts: the first interval starts at
    /// once.
    pub fn start(now: u64) -> (state: Heartbeat)
        ensures
            state == (Heartbeat { trying: false, failures: 0, next_at: now }),
    {
        Heartbeat { trying: false, failures: 0, next_at: now }
    }

    /// Takes in what happened and says what is to be done.
    ///
    /// Without a heartbeat URL nothing is ever done. Else an interval
    /// starts with an announcement; an attempt that fails is repeated
    /// until as many have failed as the configuration retries, and one
    /// more failure gives the interval up.
    pub fn step(&mut self, config: &Config, beat: Beat) -> (order: Order)
        requires
            old(self).wf(config),
        ensures
            *final(self) == old(self).next(config, beat),
            order == old(self).order(config, beat),
            final(self).wf(config),
    {
        if config.heartbeat_url.as_str().unicode_len() == 0 {
            return Order::Rest;
        }
        match beat {
            Beat::Tick(now) => {
                if !self.trying && now >= self.next_at {
                    self.trying = true;
                    self.failures = 0;
                    self.next_at = later(now, config.heartbeat_spacing);
                    Order::Announce { timeout: config.heartbeat_timeout }
                } else {
                    Order::Rest
                }
            },
            Beat::Succeeded => {
                self.trying = false;
                Order::Rest
            },
            Beat::Failed => {
                if !self.trying {
                    Order::Rest
                } else if self.failures < config.heartbeat_retries {
                    self.failures = self.failures + 1;
                    Order::Announce { timeout: config.heartbeat_timeout }
                } else {
                    self.trying = false;
                    Order::GiveUp
                }
            },
        }
    }
}

/// The state after a run of failures, one after another.
pub open spec fn after_failures(state: Heartbeat, config: &Config, count: nat) -> Heartbeat
    decreases count,
{
    if count == 0 {
        state
    } else {
        after_failures(state, config, (count - 1) as nat).next(config, Beat::Failed)
    }
}

/// An interval holds one announcement and at most as many more as the
/// configuration retries: while an announcement is under way, each failure
/// up to that number asks for another attempt, the next one gives the
/// interval up, and after that failures ask for nothing.
pub proof fn lemma_retries_are_bounded(state: Heartbeat, config: &Config, count: nat)
    requires
        config.announces(),
        state.trying,
        state.failures == 0,
    ensures
        count <= config.heartbeat_retries ==> after_failures(state, config, count).trying
            && after_failures(state, config, count).failures == count,
        count < config.heartbeat_retries ==> after_failures(state, config, count).order(
            config,
            Beat::Failed,
        ) == (Order::Announce { timeout: config.heartbeat_timeout }),
        count == config.heartbeat_retries ==> after_failures(state, config, count).order(
            config,
            Beat::Failed,
        ) == Order::GiveUp,
        count > config.heartbeat_retries ==> !after_failures(state, config, count).trying
            && after_failures(state, config, count).order(config, Beat::Failed) == Order::Rest,
        after_failures(state, config, count).next_at == state.next_at,
    decreases count,
{
    if count > 0 {
        lemma_retries_are_bounded(state, config, (count - 1) as nat);
    }
}

} // verus!
