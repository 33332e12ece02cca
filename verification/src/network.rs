//! What a player knows of the games on the network: the rooms that are open
//! and the players that were seen.

use vstd::prelude::*;
use std::collections::HashMap;

verus! {

/// A player seen on the network.
pub struct Player {
    pub id: u128,
    pub name: String,
}

/// A game room. Its state is `play` while two players are playing, `wait`
/// while it waits for players, and `talk` while a finished game is looked
/// over; a room made with any other word has no state.
pub struct Room {
    name: String,
    state: Option<&'static str>,
    players: [Option<u128>; 2],
    viewers: Vec<u128>,
}

/// Whether `text` is one of the three words for the state of a room.
pub open spec fn is_room_state(text: Seq<char>) -> bool {
    text == "play"@ || text == "wait"@ || text == "talk"@
}

/// Whether two strings hold the same text.
fn same_text(a: &str, b: &str) -> (same: bool)
    ensures
        same == (a@ == b@),
{
    a.to_owned() == b.to_owned()
}

/// Whether `list` holds `id`.
fn holds(list: &Vec<u128>, id: u128) -> (found: bool)
    ensures
        found == list@.contains(id),
{
    let mut i: usize = 0;
    while i < list.len()
        invariant
            i <= list.len(),
            forall|j: int| 0 <= j < i ==> list@[j] != id,
        decreases list.len() - i,
    {
        if list[i] == id {
            return true;
        }
        i = i + 1;
    }
    false
}

impl Room {
    /// The name of the room.
    pub closed spec fn label(self) -> Seq<char> {
        self.name@
    }

    /// The state of the room, if it has one.
    pub closed spec fn mode(self) -> Option<Seq<char>> {
        match self.state {
            Some(word) => Some(word@),
            None => None,
        }
    }

    /// The two seats of the room.
    pub closed spec fn seats(self) -> Seq<Option<u128>> {
        self.players@
    }

    /// Those who watch the game.
    pub closed spec fn watchers(self) -> Seq<u128> {
        self.viewers@
    }

    /// A room, unless one of its players is among its viewers. A `state` that
    /// is none of the three known words leaves the room without a state.
    pub fn new(name: String, state: &str, players: [Option<u128>; 2], viewers: Vec<u128>) -> (room:
        Option<Room>)
        ensures
            room is None <==> exists|i: int|
                0 <= i < 2 && (#[trigger] players@[i]) is Some && viewers@.contains(players@[i]->0),
            room matches Some(r) ==> {
                &&& r.label() == name@
                &&& r.mode() == (if is_room_state(state@) {
                    Some(state@)
                } else {
                    None
                })
                &&& r.seats() == players@
                &&& r.watchers() == viewers@
            },
    {
        let state = if same_text(state, "play") {
            Some("play")
        } else if same_text(state, "wait") {
            Some("wait")
        } else if same_text(state, "talk") {
            Some("talk")
        } else {
            None
        };
        match players[0] {
            Some(f) => {
                if holds(&viewers, f) {
                    return None;
                }
            },
            None => {},
        }
        match players[1] {
            Some(f) => {
                if holds(&viewers, f) {
                    return None;
                }
            },
            None => {},
        }
        Some(Room { name, state, players, viewers })
    }

    /// The name of the room.
    pub fn name(&self) -> (name: &str)
        ensures
            name@ == self.label(),
    {
        self.name.as_str()
    }

    /// The state of the room, if it has one.
    pub fn state(&self) -> (state: Option<&'static str>)
        ensures
            match state {
                Some(word) => self.mode() == Some(word@),
                None => self.mode() is None,
            },
    {
        self.state
    }
}

/// The rooms and players known so far. No two rooms that came in through
/// [`NetworkInfoCache::update_or_push`] share a name.
pub struct NetworkInfoCache {
    persons: HashMap<u128, Player>,
    rooms: Vec<Room>,
}

impl NetworkInfoCache {
    /// The rooms known, in the order they were first heard of.
    pub closed spec fn listing(self) -> Seq<Room> {
        self.rooms@
    }

    /// The players seen, by their number.
    pub closed spec fn people(self) -> Map<u128, Player> {
        self.persons@
    }

    /// Nothing known yet: no room and no player.
    pub fn new() -> (cache: NetworkInfoCache)
        ensures
            cache.listing() == Seq::<Room>::empty(),
            cache.people() == Map::<u128, Player>::empty(),
    {
        NetworkInfoCache { persons: HashMap::new(), rooms: Vec::new() }
    }

    /// How many rooms are known.
    pub fn len(&self) -> (n: usize)
        ensures
            n == self.listing().len(),
    {
        self.rooms.len()
    }

    /// Appends `room`.
    fn push(&mut self, room: Room)
        ensures
            final(self).listing() == old(self).listing().push(room),
            final(self).people() == old(self).people(),
    {
        self.rooms.push(room);
    }

    /// Takes in what was heard of `room`: it replaces the first room of the
    /// same name, or is appended when no room has that name.
    pub fn update_or_push(&mut self, room: Room)
        ensures
            match first_named(old(self).listing(), room.label(), 0) {
                Some(i) => final(self).listing() == old(self).listing().update(i, room),
                None => final(self).listing() == old(self).listing().push(room),
            },
            final(self).people() == old(self).people(),
    {
        let mut i: usize = 0;
        while i < self.rooms.len()
            invariant
                i <= self.rooms.len(),
                self.rooms@ == old(self).rooms@,
                self.persons == old(self).persons,
                first_named(old(self).listing(), room.label(), 0) == first_named(
                    old(self).listing(),
                    room.label(),
                    i as int,
                ),
            decreases self.rooms.len() - i,
        {
            if same_text(self.rooms[i].name.as_str(), room.name.as_str()) {
                self.rooms[i] = room;
                return ;
            }
            i = i + 1;
        }
        self.push(room);
    }
}

/// The index of the first room from index `from` on whose name is `name`.
pub open spec fn first_named(rooms: Seq<Room>, name: Seq<char>, from: int) -> Option<int>
    decreases rooms.len() - from,
{
    if from < 0 || from >= rooms.len() {
        None
    } else if rooms[from].label() == name {
        Some(from)
    } else {
        first_named(rooms, name, from + 1)
    }
}

} // verus!
