//! What the server core needs to know of a world: which player slots are
//! taken, and where the players in them stand.

use crate::packets::Location;
use crate::search::{first_where, lemma_first_where_is};
use vstd::prelude::*;

verus! {

/// How many players one world can hold: the ids that fit a signed byte and
/// are not negative.
pub const WORLD_CAPACITY: usize = 128;

/// The player slots of one world. A slot's index is the player's id.
#[derive(Clone, Debug, PartialEq, Eq)]
pub struct World {
    /// Where new players appear.
    pub spawn: Location,
    /// The slots: `None` where free, the player's location where taken.
    pub slots: Vec<Option<Location>>,
}

/// The least index of a free slot, or the number of slots where none is
/// free.
pub open spec fn first_free(slots: Seq<Option<Location>>) -> int {
    first_where(slots, |slot: Option<Location>| slot is None)
}

impl World {
    /// A world has at most as many slots as there are player ids.
    pub open spec fn wf(&self) -> bool {
        self.slots@.len() <= WORLD_CAPACITY
    }

    /// Whether the id names a slot that is taken.
    pub open spec fn holds(&self, id: i8) -> bool {
        0 <= id < self.slots@.len() && self.slots@[id as int] is Some
    }

    /// The slots after the player with the given id has left.
    pub open spec fn slots_without(&self, id: i8) -> Seq<Option<Location>> {
        if self.holds(id) {
            self.slots@.update(id as int, None)
        } else {
            self.slots@
        }
    }

    /// The id that the next player gets, if the world has room.
    pub open spec fn next_id(&self) -> Option<i8> {
        if first_free(self.slots@) < WORLD_CAPACITY {
            Some(first_free(self.slots@) as i8)
        } else {
            None
        }
    }

    /// The slots after a player has taken the slot `id` at `location`.
    pub open spec fn slots_with(&self, id: i8, location: Location) -> Seq<Option<Location>> {
        if id < self.slots@.len() {
            self.slots@.update(id as int, Some(location))
        } else {
            self.slots@.push(Some(location))
        }
    }

    /// A world without players, in which new players appear at `spawn`.
    pub fn new(spawn: Location) -> (world: World)
        ensures
            world.wf(),
            world.spawn == spawn,
            world.slots@.len() == 0,
    {
        World { spawn, slots: Vec::new() }
    }

    /// Frees the slot of the player with the given id. An id that names no
    /// taken slot changes nothing.
    pub fn remove_player(&mut self, id: i8)
        ensures
            final(self).slots@ == old(self).slots_without(id),
            final(self).spawn == old(self).spawn,
            old(self).wf() ==> final(self).wf(),
    {
        if id >= 0 && (id as usize) < self.slots.len() {
            let index: usize = id as usize;
            self.slots[index] = None;
            assert(self.slots@ =~= old(self).slots_without(id));
        }
    }

    /// The id that the next player gets, if the world has room.
    pub fn next_free(&self) -> (id: Option<i8>)
        requires
            self.wf(),
        ensures
            id == self.next_id(),
            id matches Some(given) ==> 0 <= given <= self.slots@.len() && !self.holds(given),
    {
        let mut index: usize = 0;
        while index < self.slots.len() && self.slots[index].is_some()
            invariant
                index <= self.slots@.len(),
                self.slots@.len() <= WORLD_CAPACITY,
                forall|i: int| 0 <= i < index ==> self.slots@[i] is Some,
            decreases self.slots@.len() - index,
        {
            index = index + 1;
        }
        proof {
            lemma_first_where_is(
                self.slots@,
                |slot: Option<Location>| slot is None,
                index as int,
            );
        }
        if index >= WORLD_CAPACITY {
            None
        } else {
            Some(index as i8)
        }
    }

    /// Gives a new player the least free id and puts the player at
    /// `location`. Returns nothing, and changes nothing, where every id is
    /// taken.
    pub fn add_player(&mut self, location: Location) -> (id: Option<i8>)
        requires
            old(self).wf(),
        ensures
            id == old(self).next_id(),
            id matches Some(given) ==> final(self).slots@ == old(self).slots_with(given, location)
                && !old(self).holds(given) && final(self).holds(given) && given >= 0,
            id is None ==> *final(self) == *old(self),
            final(self).spawn == old(self).spawn,
            final(self).wf(),
    {
        let given = match self.next_free() {
            Some(given) => given,
            None => {
                return None;
            },
        };
        let index: usize = given as usize;
        if index < self.slots.len() {
            self.slots[index] = Some(location);
        } else {
            self.slots.push(Some(location));
        }
        Some(index as i8)
    }

    /// Moves the player with the given id to `location`. An id that names
    /// no taken slot changes nothing.
    pub fn move_player(&mut self, id: i8, location: Location) -> (moved: bool)
        ensures
            moved == old(self).holds(id),
            moved ==> final(self).slots@ == old(self).slots@.update(id as int, Some(location)),
            !moved ==> final(self).slots@ == old(self).slots@,
            final(self).spawn == old(self).spawn,
            old(self).wf() ==> final(self).wf(),
    {
        if id >= 0 && (id as usize) < self.slots.len() {
            let index: usize = id as usize;
            if self.slots[index].is_some() {
                self.slots[index] = Some(location);
                return true;
            }
        }
        false
    }

    /// Where the player with the given id stands, if the id names a taken
    /// slot.
    pub fn location_of(&self, id: i8) -> (location: Option<Location>)
        ensures
            self.holds(id) ==> location == self.slots@[id as int],
            !self.holds(id) ==> location is None,
    {
        if id >= 0 && (id as usize) < self.slots.len() {
            self.slots[id as usize]
        } else {
            None
        }
    }
}

} // verus!
