//! The location state machine: a registry of locations by identifier, the
//! shared state, and the turn that takes the game from one location to the
//! next or ends it.

use vstd::prelude::*;
use vstd::hash_map::StringHashMap;
use crate::flags::Flags;
use crate::input::{Intent, ParsedInput};
use crate::inventory::{distinct_names, Entry, Inventory};
use crate::rooms::{
    dead_room, lemma_rooms_keep_names_distinct, room_a, room_a_flags, room_a_intro,
    room_a_intro_lines, room_a_items, room_a_next, room_a_output, test_room, test_room_flags,
    test_room_intro, test_room_intro_lines, test_room_items, test_room_next, test_room_output,
    Next, Turn, TurnResult, NO_SUCH_ROOM, ROOM_A, TEST_ROOM,
};

verus! {

/// A location of the game.
#[derive(Debug, Clone, Copy, PartialEq, Eq)]
pub enum Room {
    /// Where the golden key lies.
    TestRoom,
    /// Where the chest stands.
    RoomA,
}

impl Room {
    /// What the player is told on standing in the location.
    pub open spec fn intro_lines(self, flags: Set<Seq<char>>) -> Seq<Seq<char>> {
        match self {
            Room::TestRoom => test_room_intro_lines(flags),
            Room::RoomA => room_a_intro_lines(flags),
        }
    }

    /// How a turn in the location ends.
    pub open spec fn next(self, input: Intent) -> Next {
        match self {
            Room::TestRoom => test_room_next(input),
            Room::RoomA => room_a_next(input),
        }
    }

    /// What the player carries after a turn in the location.
    pub open spec fn items(
        self,
        items: Seq<Entry>,
        flags: Set<Seq<char>>,
        input: Intent,
    ) -> Seq<Entry> {
        match self {
            Room::TestRoom => test_room_items(items, input),
            Room::RoomA => room_a_items(items, flags, input),
        }
    }

    /// The flags that are set after a turn in the location.
    pub open spec fn flags(
        self,
        items: Seq<Entry>,
        flags: Set<Seq<char>>,
        input: Intent,
    ) -> Set<Seq<char>> {
        match self {
            Room::TestRoom => test_room_flags(flags, input),
            Room::RoomA => room_a_flags(items, flags, input),
        }
    }

    /// What the player is told in answer to the intent.
    pub open spec fn output(
        self,
        items: Seq<Entry>,
        flags: Set<Seq<char>>,
        input: Intent,
    ) -> Seq<Seq<char>> {
        match self {
            Room::TestRoom => test_room_output(items, input),
            Room::RoomA => room_a_output(items, flags, input),
        }
    }

    /// The lines that introduce the location.
    pub fn intro(self, flags: &Flags) -> (lines: Vec<String>)
        ensures
            lines.deep_view() == self.intro_lines(flags@),
    {
        match self {
            Room::TestRoom => test_room_intro(flags),
            Room::RoomA => room_a_intro(flags),
        }
    }

    /// One turn in the location.
    pub fn advance(self, inv: &mut Inventory, flags: &mut Flags, input: ParsedInput) -> (turn: Turn)
        ensures
            turn.result@ == self.next(input@),
            turn.output.deep_view() == self.output(old(inv)@, old(flags)@, input@),
            final(inv)@ == self.items(old(inv)@, old(flags)@, input@),
            final(flags)@ == self.flags(old(inv)@, old(flags)@, input@),
            distinct_names(old(inv)@) ==> distinct_names(final(inv)@),
    {
        match self {
            Room::TestRoom => test_room(inv, flags, input),
            Room::RoomA => room_a(inv, flags, input),
        }
    }
}

/// The locations of the game, by identifier.
pub struct Registry {
    rooms: StringHashMap<Room>,
}

impl View for Registry {
    type V = Map<Seq<char>, Room>;

    closed spec fn view(&self) -> Map<Seq<char>, Room> {
        self.rooms@
    }
}

/// The two locations of the game under their identifiers.
pub open spec fn standard_rooms() -> Map<Seq<char>, Room> {
    Map::<Seq<char>, Room>::empty().insert(TEST_ROOM@, Room::TestRoom).insert(ROOM_A@, Room::RoomA)
}

impl Registry {
    /// A registry without locations.
    pub fn new() -> (rooms: Registry)
        ensures
            rooms@ == Map::<Seq<char>, Room>::empty(),
    {
        Registry { rooms: StringHashMap::new() }
    }

    /// Puts a location under an identifier, in place of what was there.
    pub fn register(&mut self, id: &str, room: Room)
        ensures
            final(self)@ == old(self)@.insert(id@, room),
    {
        self.rooms.insert(id.to_owned(), room);
    }

    /// The location under an identifier, if there is one.
    pub fn lookup(&self, id: &str) -> (room: Option<Room>)
        ensures
            room == if self@.contains_key(id@) {
                Some(self@[id@])
            } else {
                None
            },
    {
        match self.rooms.get(id) {
            Some(room) => Some(*room),
            None => None,
        }
    }

    /// The registry of the game: the test room and Room A.
    pub fn standard() -> (rooms: Registry)
        ensures
            rooms@ == standard_rooms(),
    {
        let mut rooms = Registry::new();
        rooms.register(TEST_ROOM, Room::TestRoom);
        rooms.register(ROOM_A, Room::RoomA);
        rooms
    }
}

/// A game as the contracts see it.
pub struct World {
    /// The locations by identifier.
    pub rooms: Map<Seq<char>, Room>,
    /// What the player carries, in order.
    pub items: Seq<Entry>,
    /// The names of the flags that are set.
    pub flags: Set<Seq<char>>,
    /// The identifier of the current location; it need not be registered.
    pub room: Seq<char>,
}

impl World {
    /// The current location, if its identifier is registered.
    pub open spec fn here(self) -> Option<Room> {
        if self.rooms.contains_key(self.room) {
            Some(self.rooms[self.room])
        } else {
            None
        }
    }

    /// What is shown before the player is asked for a line: the introduction
    /// of the current location, or the complaint that there is none.
    pub open spec fn shown(self) -> Seq<Seq<char>> {
        match self.here() {
            Some(room) => room.intro_lines(self.flags),
            None => seq![NO_SUCH_ROOM@],
        }
    }

    /// Whether the game can go on where it stands: it ends with status 1
    /// where the current identifier is not registered.
    pub open spec fn entered(self) -> Next {
        match self.here() {
            Some(_) => Next::Continue(self.room),
            None => Next::Terminate(1),
        }
    }

    /// How the turn ends that answers `input`.
    pub open spec fn next(self, input: Intent) -> Next {
        match self.here() {
            Some(room) => room.next(input),
            None => Next::Terminate(1),
        }
    }

    /// What is shown in answer to `input`.
    pub open spec fn said(self, input: Intent) -> Seq<Seq<char>> {
        match self.here() {
            Some(room) => room.output(self.items, self.flags, input),
            None => seq![NO_SUCH_ROOM@],
        }
    }

    /// The game after the turn that answers `input`. The registry never
    /// changes, and a turn that ends the game leaves the location as it is.
    pub open spec fn after(self, input: Intent) -> World {
        match self.here() {
            Some(room) => World {
                rooms: self.rooms,
                items: room.items(self.items, self.flags, input),
                flags: room.flags(self.items, self.flags, input),
                room: match room.next(input) {
                    Next::Continue(id) => id,
                    Next::Terminate(_) => self.room,
                },
            },
            None => self,
        }
    }
}

/// The game as it starts: in the test room, with nothing carried and no flag set.
pub open spec fn initial_world() -> World {
    World {
        rooms: standard_rooms(),
        items: Seq::empty(),
        flags: Set::empty(),
        room: TEST_ROOM@,
    }
}

/// The whole state of a game: what the dispatch loop owns and lends to the
/// location of each turn.
pub struct Game {
    rooms: Registry,
    inv: Inventory,
    flags: Flags,
    room: String,
}

impl View for Game {
    type V = World;

    closed spec fn view(&self) -> World {
        World { rooms: self.rooms@, items: self.inv@, flags: self.flags@, room: self.room@ }
    }
}

impl Game {
    /// A new game.
    pub fn new() -> (game: Game)
        ensures
            game@ == initial_world(),
    {
        Game::with(Registry::standard(), Inventory::new(), Flags::new(), TEST_ROOM)
    }

    /// A game over the given locations and state that stands at `room`,
    /// registered or not.
    pub fn with(rooms: Registry, inv: Inventory, flags: Flags, room: &str) -> (game: Game)
        ensures
            game@ == (World { rooms: rooms@, items: inv@, flags: flags@, room: room@ }),
    {
        Game { rooms, inv, flags, room: room.to_owned() }
    }

    /// What the player carries.
    pub fn inventory(&self) -> (inv: &Inventory)
        ensures
            inv@ == self@.items,
    {
        &self.inv
    }

    /// The flags of the game.
    pub fn flags(&self) -> (flags: &Flags)
        ensures
            flags@ == self@.flags,
    {
        &self.flags
    }

    /// The identifier of the current location.
    pub fn room(&self) -> (id: &str)
        ensures
            id@ == self@.room,
    {
        self.room.as_str()
    }

    /// The start of a turn: what to show before the player is asked for a
    /// line. Where the current identifier is not registered the game ends
    /// here, with status 1, and no line is asked for.
    pub fn enter(&self) -> (turn: Turn)
        ensures
            turn.result@ == self@.entered(),
            turn.output.deep_view() == self@.shown(),
    {
        match self.rooms.lookup(self.room.as_str()) {
            Some(room) => Turn {
                output: room.intro(&self.flags),
                result: TurnResult::Continue(self.room.clone()),
            },
            None => dead_room(),
        }
    }

    /// The rest of a turn: the current location answers the player's intent,
    /// and the game moves to the location it names.
    pub fn act(&mut self, input: ParsedInput) -> (turn: Turn)
        ensures
            turn.result@ == old(self)@.next(input@),
            turn.output.deep_view() == old(self)@.said(input@),
            final(self)@ == old(self)@.after(input@),
    {
        match self.rooms.lookup(self.room.as_str()) {
            Some(room) => {
                let turn = room.advance(&mut self.inv, &mut self.flags, input);
                match &turn.result {
                    TurnResult::Continue(id) => {
                        self.room = id.clone();
                    },
                    TurnResult::Terminate(_) => {},
                }
                turn
            },
            None => dead_room(),
        }
    }
}

/// Quit ends the game at once: in whatever registered location the game
/// stands, the turn ends with status 0, says nothing and changes nothing.
/// The game starts in such a location.
pub proof fn lemma_quit_ends_the_game(world: World)
    requires
        world.here() is Some,
    ensures
        world.next(Intent::Quit) == Next::Terminate(0),
        world.said(Intent::Quit) == Seq::<Seq<char>>::empty(),
        world.after(Intent::Quit) == world,
        initial_world().here() is Some,
{
}

/// An identifier that is not registered ends the game with status 1: at the
/// start of the turn, before any line is asked for, and whatever the intent.
pub proof fn lemma_unknown_room_is_fatal(world: World, input: Intent)
    requires
        !world.rooms.contains_key(world.room),
    ensures
        world.entered() == Next::Terminate(1),
        world.shown() == seq![NO_SUCH_ROOM@],
        world.next(input) == Next::Terminate(1),
        world.after(input) == world,
{
}

/// No two carried items share a name: that holds when the game starts, and
/// no turn undoes it.
pub proof fn lemma_names_stay_distinct(world: World, input: Intent)
    requires
        distinct_names(world.items),
    ensures
        distinct_names(world.after(input).items),
        distinct_names(initial_world().items),
{
    lemma_rooms_keep_names_distinct(world.items, world.flags, input);
}

} // verus!
