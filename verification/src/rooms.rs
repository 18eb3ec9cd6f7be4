//! The locations of the game. Each has an introduction, shown before the
//! player is asked for a line, and a handler that takes the player's intent,
//! changes the shared state and says where the game goes next.

use vstd::prelude::*;
use crate::flags::Flags;
use crate::input::{Intent, ParsedInput};
use crate::inventory::{distinct_names, holds, lemma_without, table, without, Entry, Inventory};
use crate::text::{contains, contains_text};

verus! {

/// The identifier of the test room, where the game starts.
pub const TEST_ROOM: &'static str = "test_room";

/// The identifier of Room A.
pub const ROOM_A: &'static str = "room_a";

/// Set once the golden key was picked up in the test room.
pub const GOT_GOLDEN_KEY: &'static str = "test_room_got_golden_key";

/// Set once the chest in Room A was opened.
pub const OPENED_CHEST: &'static str = "room_a_opened_chest";

/// The name of the key that opens the chest.
pub const GOLDEN_KEY: &'static str = "Golden Key";

/// The description of the golden key.
pub const GOLDEN_KEY_TEXT: &'static str = "A quaint key with an irresistable luster.";

/// The name of what the chest holds.
pub const SWORD: &'static str = "Sword";

/// The description of the sword.
pub const SWORD_TEXT: &'static str = "You could do some damage with this.";

/// Said on standing in the test room.
pub const TEST_ROOM_ARRIVAL: &'static str =
    "You find yourself standing inside of a developer's test room.";

/// Said in the test room while the key lies there.
pub const TEST_ROOM_KEY: &'static str =
    "The room is bare, except for a small golden key gleaming gently in the middle of the room.";

/// Where the test room leads.
pub const TEST_ROOM_EXITS: &'static str = "To the north is Room A.";

/// Said when the key is picked up.
pub const KEY_TAKEN: &'static str = "You pick up the gold key.";

/// Said on standing in Room A.
pub const ROOM_A_ARRIVAL: &'static str =
    "You find yourself standing inside of Room A. Very clearly distinct from the last room. This one has a name!";

/// Said in Room A while the chest is shut.
pub const ROOM_A_CHEST: &'static str = "A chest sits alone in a dark corner of the room.";

/// Where Room A leads.
pub const ROOM_A_EXITS: &'static str = "To the south is the test room.";

/// Said when the chest opens.
pub const CHEST_OPENED: &'static str = "You opened the chest, and found a sword inside!";

/// Said when the chest is tried without the key.
pub const CHEST_LOCKED: &'static str = "The chest is locked. Maybe there's a key somewhere?";

/// Said when the chest is tried again.
pub const CHEST_ALREADY_OPEN: &'static str =
    "The chest is already open. Don't you remember the cool sword you got?";

/// Said when the game stands at an identifier that names no location.
pub const NO_SUCH_ROOM: &'static str = "Attempting to access a room that doesn't exist.";

/// How a turn ends, as the contracts see it.
pub enum Next {
    /// The game goes on in the location with this identifier.
    Continue(Seq<char>),
    /// The game ends, and the process with this status.
    Terminate(int),
}

/// How a turn ends.
#[derive(Debug, Clone, PartialEq, Eq)]
pub enum TurnResult {
    /// The game goes on in the location with this identifier, known or not.
    Continue(String),
    /// The game ends, and the process with this status.
    Terminate(i32),
}

impl View for TurnResult {
    type V = Next;

    open spec fn view(&self) -> Next {
        match self {
            TurnResult::Continue(id) => Next::Continue(id@),
            TurnResult::Terminate(status) => Next::Terminate(*status as int),
        }
    }
}

/// What a handler hands back: the lines to show, in order, and how the turn ends.
#[derive(Debug, Clone, PartialEq, Eq)]
pub struct Turn {
    /// The lines to show, each on a line of its own.
    pub output: Vec<String>,
    /// Whether the game goes on, and where.
    pub result: TurnResult,
}

/// True when the intent picks up the key of the test room.
pub open spec fn takes_key(input: Intent) -> bool {
    input matches Intent::Get(item) && contains(item, "key"@)
}

/// True when the intent is an attempt at the chest of Room A.
pub open spec fn tries_chest(input: Intent) -> bool {
    match input {
        Intent::Use(item) => contains(item, "key"@),
        Intent::UseOn(item, object) => contains(item, "key"@) && contains(object, "chest"@),
        Intent::Other(text) => contains(text, "open"@) && contains(text, "chest"@),
        _ => false,
    }
}

/// True when the intent opens the chest: it is tried, still shut, and the key is at hand.
pub open spec fn opens_chest(items: Seq<Entry>, flags: Set<Seq<char>>, input: Intent) -> bool {
    tries_chest(input) && !flags.contains(OPENED_CHEST@) && holds(items, GOLDEN_KEY@)
}

/// `items` with the entry added, unless an entry of that name is there already.
pub open spec fn with_once(items: Seq<Entry>, entry: Entry) -> Seq<Entry> {
    if holds(items, entry.0) {
        items
    } else {
        items.push(entry)
    }
}

/// What the test room says of itself: the key is spoken of until it was picked up.
pub open spec fn test_room_intro_lines(flags: Set<Seq<char>>) -> Seq<Seq<char>> {
    if flags.contains(GOT_GOLDEN_KEY@) {
        seq![TEST_ROOM_ARRIVAL@, TEST_ROOM_EXITS@]
    } else {
        seq![TEST_ROOM_ARRIVAL@, TEST_ROOM_KEY@, TEST_ROOM_EXITS@]
    }
}

/// Where a turn in the test room leads: out of the game on quit, north to
/// Room A, nowhere else.
pub open spec fn test_room_next(input: Intent) -> Next {
    match input {
        Intent::Quit => Next::Terminate(0),
        Intent::North => Next::Continue(ROOM_A@),
        _ => Next::Continue(TEST_ROOM@),
    }
}

/// What is carried after a turn in the test room: the golden key too, if
/// it was picked up and is not carried already.
pub open spec fn test_room_items(items: Seq<Entry>, input: Intent) -> Seq<Entry> {
    if takes_key(input) {
        with_once(items, (GOLDEN_KEY@, GOLDEN_KEY_TEXT@))
    } else {
        items
    }
}

/// The flags after a turn in the test room.
pub open spec fn test_room_flags(flags: Set<Seq<char>>, input: Intent) -> Set<Seq<char>> {
    if takes_key(input) {
        flags.insert(GOT_GOLDEN_KEY@)
    } else {
        flags
    }
}

/// What the test room answers: the inventory listing, or that the key was picked up.
pub open spec fn test_room_output(items: Seq<Entry>, input: Intent) -> Seq<Seq<char>> {
    if input is Inv {
        seq![table(items)]
    } else if takes_key(input) {
        seq![KEY_TAKEN@]
    } else {
        Seq::empty()
    }
}

/// What Room A says of itself: the chest is spoken of until it was opened.
pub open spec fn room_a_intro_lines(flags: Set<Seq<char>>) -> Seq<Seq<char>> {
    if flags.contains(OPENED_CHEST@) {
        seq![ROOM_A_ARRIVAL@, ROOM_A_EXITS@]
    } else {
        seq![ROOM_A_ARRIVAL@, ROOM_A_CHEST@, ROOM_A_EXITS@]
    }
}

/// Where a turn in Room A leads: out of the game on quit, south to the test
/// room, nowhere else.
pub open spec fn room_a_next(input: Intent) -> Next {
    match input {
        Intent::Quit => Next::Terminate(0),
        Intent::South => Next::Continue(TEST_ROOM@),
        _ => Next::Continue(ROOM_A@),
    }
}

/// What is carried after a turn in Room A: where the chest opens, the
/// golden key is gone and the sword is there.
pub open spec fn room_a_items(
    items: Seq<Entry>,
    flags: Set<Seq<char>>,
    input: Intent,
) -> Seq<Entry> {
    if opens_chest(items, flags, input) {
        with_once(without(items, GOLDEN_KEY@), (SWORD@, SWORD_TEXT@))
    } else {
        items
    }
}

/// The flags after a turn in Room A.
pub open spec fn room_a_flags(
    items: Seq<Entry>,
    flags: Set<Seq<char>>,
    input: Intent,
) -> Set<Seq<char>> {
    if opens_chest(items, flags, input) {
        flags.insert(OPENED_CHEST@)
    } else {
        flags
    }
}

/// What Room A answers: the inventory listing, or what became of an attempt at the chest.
pub open spec fn room_a_output(
    items: Seq<Entry>,
    flags: Set<Seq<char>>,
    input: Intent,
) -> Seq<Seq<char>> {
    if input is Inv {
        seq![table(items)]
    } else if !tries_chest(input) {
        Seq::empty()
    } else if flags.contains(OPENED_CHEST@) {
        seq![CHEST_ALREADY_OPEN@]
    } else if holds(items, GOLDEN_KEY@) {
        seq![CHEST_OPENED@]
    } else {
        seq![CHEST_LOCKED@]
    }
}

/// Adding once keeps names distinct.
pub proof fn lemma_with_once(items: Seq<Entry>, entry: Entry)
    requires
        distinct_names(items),
    ensures
        distinct_names(with_once(items, entry)),
{
    if !holds(items, entry.0) {
        let out = items.push(entry);
        assert forall|i: int, j: int| 0 <= i < j < out.len() implies (#[trigger] out[i]).0
            != (#[trigger] out[j]).0 by {
            if j < items.len() {
                assert(items[i].0 != items[j].0);
            } else {
                assert(items[i].0 != entry.0);
            }
        }
    }
}

/// Neither location makes two carried items share a name.
pub proof fn lemma_rooms_keep_names_distinct(
    items: Seq<Entry>,
    flags: Set<Seq<char>>,
    input: Intent,
)
    requires
        distinct_names(items),
    ensures
        distinct_names(test_room_items(items, input)),
        distinct_names(room_a_items(items, flags, input)),
{
    lemma_with_once(items, (GOLDEN_KEY@, GOLDEN_KEY_TEXT@));
    lemma_without(items, GOLDEN_KEY@);
    lemma_with_once(without(items, GOLDEN_KEY@), (SWORD@, SWORD_TEXT@));
}

/// Adds the item unless one of that name is carried already.
pub fn add_once(inv: &mut Inventory, item: &str, desc: &str)
    ensures
        final(inv)@ == with_once(old(inv)@, (item@, desc@)),
        distinct_names(old(inv)@) ==> distinct_names(final(inv)@),
{
    if !inv.has(item) {
        inv.add(item, desc);
    }
}

/// The lines of a turn in which nothing is said.
fn silence() -> (lines: Vec<String>)
    ensures
        lines.deep_view() == Seq::<Seq<char>>::empty(),
{
    Vec::new()
}

/// The lines of a turn in which one thing is said.
fn line(text: String) -> (lines: Vec<String>)
    ensures
        lines.deep_view() == seq![text@],
{
    let mut lines: Vec<String> = Vec::new();
    lines.push(text);
    lines
}

/// The lines that introduce a location: where the player is, what is still
/// to be found there if `pending` is not set yet, and where the exits are.
fn intro(
    flags: &Flags,
    arrival: &str,
    pending: &str,
    hint: &str,
    exits: &str,
) -> (lines: Vec<String>)
    ensures
        lines.deep_view() == if flags@.contains(pending@) {
            seq![arrival@, exits@]
        } else {
            seq![arrival@, hint@, exits@]
        },
{
    let mut lines: Vec<String> = Vec::new();
    lines.push(arrival.to_owned());
    if let Some(text) = flags.message_if(pending, false, hint) {
        lines.push(text);
    }
    lines.push(exits.to_owned());
    assert(lines.deep_view() =~= if flags@.contains(pending@) {
        seq![arrival@, exits@]
    } else {
        seq![arrival@, hint@, exits@]
    });
    lines
}

/// What the player is told on standing in the test room.
pub fn test_room_intro(flags: &Flags) -> (lines: Vec<String>)
    ensures
        lines.deep_view() == test_room_intro_lines(flags@),
{
    intro(flags, TEST_ROOM_ARRIVAL, GOT_GOLDEN_KEY, TEST_ROOM_KEY, TEST_ROOM_EXITS)
}

/// A turn in the test room. The key on the floor is picked up by any `get`
/// that names a key; north lies Room A.
pub fn test_room(inv: &mut Inventory, flags: &mut Flags, input: ParsedInput) -> (turn: Turn)
    ensures
        turn.result@ == test_room_next(input@),
        turn.output.deep_view() == test_room_output(old(inv)@, input@),
        final(inv)@ == test_room_items(old(inv)@, input@),
        final(flags)@ == test_room_flags(old(flags)@, input@),
        distinct_names(old(inv)@) ==> distinct_names(final(inv)@),
{
    match input {
        ParsedInput::North => Turn { output: silence(), result: TurnResult::Continue(ROOM_A.to_owned()) },
        ParsedInput::Inv => Turn {
            output: line(inv.render()),
            result: TurnResult::Continue(TEST_ROOM.to_owned()),
        },
        ParsedInput::Quit => Turn { output: silence(), result: TurnResult::Terminate(0) },
        ParsedInput::Get(item) => {
            let output = if contains_text(item.as_str(), "key") {
                flags.set(GOT_GOLDEN_KEY);
                add_once(inv, GOLDEN_KEY, GOLDEN_KEY_TEXT);
                line(KEY_TAKEN.to_owned())
            } else {
                silence()
            };
            Turn { output, result: TurnResult::Continue(TEST_ROOM.to_owned()) }
        },
        _ => Turn { output: silence(), result: TurnResult::Continue(TEST_ROOM.to_owned()) },
    }
}

/// What the player is told on standing in Room A.
pub fn room_a_intro(flags: &Flags) -> (lines: Vec<String>)
    ensures
        lines.deep_view() == room_a_intro_lines(flags@),
{
    intro(flags, ROOM_A_ARRIVAL, OPENED_CHEST, ROOM_A_CHEST, ROOM_A_EXITS)
}

/// An attempt at the chest: it opens once, for the golden key, and gives a sword.
fn open_chest(inv: &mut Inventory, flags: &mut Flags) -> (said: String)
    ensures
        said@ == if old(flags)@.contains(OPENED_CHEST@) {
            CHEST_ALREADY_OPEN@
        } else if holds(old(inv)@, GOLDEN_KEY@) {
            CHEST_OPENED@
        } else {
            CHEST_LOCKED@
        },
        !old(flags)@.contains(OPENED_CHEST@) && holds(old(inv)@, GOLDEN_KEY@) ==> {
            &&& final(inv)@ == with_once(without(old(inv)@, GOLDEN_KEY@), (SWORD@, SWORD_TEXT@))
            &&& final(flags)@ == old(flags)@.insert(OPENED_CHEST@)
        },
        old(flags)@.contains(OPENED_CHEST@) || !holds(old(inv)@, GOLDEN_KEY@) ==> {
            &&& final(inv)@ == old(inv)@
            &&& final(flags)@ == old(flags)@
        },
        distinct_names(old(inv)@) ==> distinct_names(final(inv)@),
{
    if !flags.is_set(OPENED_CHEST) {
        if inv.has(GOLDEN_KEY) {
            inv.remove(GOLDEN_KEY);
            flags.set(OPENED_CHEST);
            add_once(inv, SWORD, SWORD_TEXT);
            CHEST_OPENED.to_owned()
        } else {
            CHEST_LOCKED.to_owned()
        }
    } else {
        CHEST_ALREADY_OPEN.to_owned()
    }
}

/// A turn in Room A. The chest is tried by using a key, by using a key on a
/// chest, or by any other line that speaks of opening a chest; south lies the
/// test room.
pub fn room_a(inv: &mut Inventory, flags: &mut Flags, input: ParsedInput) -> (turn: Turn)
    ensures
        turn.result@ == room_a_next(input@),
        turn.output.deep_view() == room_a_output(old(inv)@, old(flags)@, input@),
        final(inv)@ == room_a_items(old(inv)@, old(flags)@, input@),
        final(flags)@ == room_a_flags(old(inv)@, old(flags)@, input@),
        distinct_names(old(inv)@) ==> distinct_names(final(inv)@),
{
    let stay = TurnResult::Continue(ROOM_A.to_owned());
    match input {
        ParsedInput::South => Turn {
            output: silence(),
            result: TurnResult::Continue(TEST_ROOM.to_owned()),
        },
        ParsedInput::Inv => Turn { output: line(inv.render()), result: stay },
        ParsedInput::Quit => Turn { output: silence(), result: TurnResult::Terminate(0) },
        ParsedInput::Use(item) => {
            let output = if contains_text(item.as_str(), "key") {
                line(open_chest(inv, flags))
            } else {
                silence()
            };
            Turn { output, result: stay }
        },
        ParsedInput::UseOn(item, object) => {
            let output = if contains_text(item.as_str(), "key") && contains_text(
                object.as_str(),
                "chest",
            ) {
                line(open_chest(inv, flags))
            } else {
                silence()
            };
            Turn { output, result: stay }
        },
        ParsedInput::Other(text) => {
            let output = if contains_text(text.as_str(), "open") && contains_text(
                text.as_str(),
                "chest",
            ) {
                line(open_chest(inv, flags))
            } else {
                silence()
            };
            Turn { output, result: stay }
        },
        _ => Turn { output: silence(), result: stay },
    }
}

/// The turn of a location that does not exist: the game ends with status 1.
pub fn dead_room() -> (turn: Turn)
    ensures
        turn.result@ == Next::Terminate(1),
        turn.output.deep_view() == seq![NO_SUCH_ROOM@],
{
    Turn { output: line(NO_SUCH_ROOM.to_owned()), result: TurnResult::Terminate(1) }
}

} // verus!
