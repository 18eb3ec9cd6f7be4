//! The grammar of player input: what each line means, and what follows from it.

use vstd::prelude::*;
use crate::input::{is_direction, Intent};
use crate::pattern::{
    is_last_on, lemma_on_word_position, lemma_position_on_word, lemma_use_prefix_by_words, on_at,
    parting_on, use_on_targets, use_prefixed, use_target, use_word,
};
use crate::text::{
    is_space, is_word, join, lemma_join_grows, lemma_tokens_are_words, lemma_tokens_ignore_head,
    lemma_tokens_ignore_tail, lemma_tokens_of_blank, lemma_tokens_of_join, lemma_tokens_of_word,
    tokens,
};

verus! {

/// The spellings of north.
pub open spec fn north_word(w: Seq<char>) -> bool {
    w == "n"@ || w == "N"@ || w == "north"@ || w == "North"@
}

/// The spellings of south.
pub open spec fn south_word(w: Seq<char>) -> bool {
    w == "s"@ || w == "S"@ || w == "south"@ || w == "South"@
}

/// The spellings of east.
pub open spec fn east_word(w: Seq<char>) -> bool {
    w == "e"@ || w == "E"@ || w == "east"@ || w == "East"@
}

/// The spellings of west.
pub open spec fn west_word(w: Seq<char>) -> bool {
    w == "w"@ || w == "W"@ || w == "west"@ || w == "West"@
}

/// The spellings of up.
pub open spec fn up_word(w: Seq<char>) -> bool {
    w == "u"@ || w == "U"@ || w == "up"@ || w == "Up"@
}

/// The spellings of down.
pub open spec fn down_word(w: Seq<char>) -> bool {
    w == "d"@ || w == "D"@ || w == "down"@ || w == "Down"@
}

/// The words that ask for the inventory.
pub open spec fn inventory_word(w: Seq<char>) -> bool {
    w == "i"@ || w == "I"@ || w == "inv"@
}

/// The words that end the game.
pub open spec fn quit_word(w: Seq<char>) -> bool {
    w == "q"@ || w == "Q"@ || w == "quit"@ || w == "Quit"@
}

/// The verbs that pick something up.
pub open spec fn get_word(w: Seq<char>) -> bool {
    w == "get"@ || w == "take"@ || w == "grab"@
}

/// What a line of exactly one word means, if that word is a direction or a meta-command.
pub open spec fn lone_word(w: Seq<char>) -> Option<Intent> {
    if north_word(w) {
        Some(Intent::North)
    } else if south_word(w) {
        Some(Intent::South)
    } else if east_word(w) {
        Some(Intent::East)
    } else if west_word(w) {
        Some(Intent::West)
    } else if up_word(w) {
        Some(Intent::Up)
    } else if down_word(w) {
        Some(Intent::Down)
    } else if inventory_word(w) {
        Some(Intent::Inv)
    } else if quit_word(w) {
        Some(Intent::Quit)
    } else {
        None
    }
}

/// What a line means that opens with one of the verbs `get`, `take`, `grab`,
/// `look` and `talk`: the words after the verb (and after `at` or `to`), joined.
pub open spec fn verb_phrase(words: Seq<Seq<char>>) -> Option<Intent> {
    if words.len() == 0 {
        None
    } else if get_word(words[0]) {
        Some(Intent::Get(join(words.skip(1))))
    } else if words[0] == "look"@ {
        if words.len() >= 2 && words[1] == "at"@ {
            Some(Intent::Look(join(words.skip(2))))
        } else {
            Some(Intent::Look(join(words.skip(1))))
        }
    } else if words[0] == "talk"@ {
        if words.len() >= 2 && words[1] == "to"@ {
            Some(Intent::Talk(join(words.skip(2))))
        } else {
            Some(Intent::Talk(join(words.skip(1))))
        }
    } else {
        None
    }
}

/// What a line means that no word pattern fits, from its words joined by
/// single spaces: `use A on B` is tried before `use A`, and what is neither
/// is kept as it stands.
pub open spec fn free_text(text: Seq<char>) -> Intent {
    match use_on_targets(text) {
        Some((target, object)) => Intent::UseOn(target, object),
        None => match use_target(text) {
            Some(target) => Intent::Use(target),
            None => Intent::Other(text),
        },
    }
}

/// The intent of a line. The first of these that fits decides: a lone
/// direction or meta-command, a verb phrase, the free-text patterns.
pub open spec fn parse(line: Seq<char>) -> Intent {
    let words = tokens(line);
    if words.len() == 1 && lone_word(words[0]) is Some {
        lone_word(words[0])->Some_0
    } else if verb_phrase(words) is Some {
        verb_phrase(words)->Some_0
    } else {
        free_text(join(words))
    }
}

/// True when `w` is one of the twenty-four words that name a direction.
pub open spec fn direction_word(w: Seq<char>) -> bool {
    north_word(w) || south_word(w) || east_word(w) || west_word(w) || up_word(w) || down_word(w)
}

/// A text of letters is a word.
proof fn lemma_letters_are_a_word(w: Seq<char>)
    requires
        w.len() > 0,
        forall|i: int| 0 <= i < w.len() ==> 'A' <= #[trigger] w[i] <= 'z',
    ensures
        is_word(w),
{
}

/// The spellings of north are words, and open with `n` or `N`.
proof fn lemma_north_words(w: Seq<char>)
    requires
        north_word(w),
    ensures
        is_word(w),
        w[0] == 'n' || w[0] == 'N',
{
    reveal_strlit("n");
    reveal_strlit("N");
    reveal_strlit("north");
    reveal_strlit("North");
    lemma_letters_are_a_word(w);
}

/// The spellings of south are words, and open with `s` or `S`.
proof fn lemma_south_words(w: Seq<char>)
    requires
        south_word(w),
    ensures
        is_word(w),
        w[0] == 's' || w[0] == 'S',
{
    reveal_strlit("s");
    reveal_strlit("S");
    reveal_strlit("south");
    reveal_strlit("South");
    lemma_letters_are_a_word(w);
}

/// The spellings of east are words, and open with `e` or `E`.
proof fn lemma_east_words(w: Seq<char>)
    requires
        east_word(w),
    ensures
        is_word(w),
        w[0] == 'e' || w[0] == 'E',
{
    reveal_strlit("e");
    reveal_strlit("E");
    reveal_strlit("east");
    reveal_strlit("East");
    lemma_letters_are_a_word(w);
}

/// The spellings of west are words, and open with `w` or `W`.
proof fn lemma_west_words(w: Seq<char>)
    requires
        west_word(w),
    ensures
        is_word(w),
        w[0] == 'w' || w[0] == 'W',
{
    reveal_strlit("w");
    reveal_strlit("W");
    reveal_strlit("west");
    reveal_strlit("West");
    lemma_letters_are_a_word(w);
}

/// The spellings of up are words, and open with `u` or `U`.
proof fn lemma_up_words(w: Seq<char>)
    requires
        up_word(w),
    ensures
        is_word(w),
        w[0] == 'u' || w[0] == 'U',
{
    reveal_strlit("u");
    reveal_strlit("U");
    reveal_strlit("up");
    reveal_strlit("Up");
    lemma_letters_are_a_word(w);
}

/// The spellings of down are words, and open with `d` or `D`.
proof fn lemma_down_words(w: Seq<char>)
    requires
        down_word(w),
    ensures
        is_word(w),
        w[0] == 'd' || w[0] == 'D',
{
    reveal_strlit("d");
    reveal_strlit("D");
    reveal_strlit("down");
    reveal_strlit("Down");
    lemma_letters_are_a_word(w);
}

/// The spellings of the six directions are words, and no word spells two directions.
proof fn lemma_direction_spellings(w: Seq<char>)
    ensures
        direction_word(w) ==> is_word(w),
        north_word(w) ==> !south_word(w) && !east_word(w) && !west_word(w) && !up_word(w)
            && !down_word(w),
        south_word(w) ==> !east_word(w) && !west_word(w) && !up_word(w) && !down_word(w),
        east_word(w) ==> !west_word(w) && !up_word(w) && !down_word(w),
        west_word(w) ==> !up_word(w) && !down_word(w),
        up_word(w) ==> !down_word(w),
{
    if north_word(w) {
        lemma_north_words(w);
    }
    if south_word(w) {
        lemma_south_words(w);
    }
    if east_word(w) {
        lemma_east_words(w);
    }
    if west_word(w) {
        lemma_west_words(w);
    }
    if up_word(w) {
        lemma_up_words(w);
    }
    if down_word(w) {
        lemma_down_words(w);
    }
}

/// A line of white space alone, the empty line among them, is `Other` with
/// empty text.
pub proof fn lemma_blank_line(line: Seq<char>)
    requires
        forall|i: int| 0 <= i < line.len() ==> is_space(#[trigger] line[i]),
    ensures
        parse(line) == Intent::Other(Seq::empty()),
{
    lemma_tokens_of_blank(line);
}

/// A line means a direction exactly when it holds one word and that word is
/// one of the four spellings of the direction: `n`, `N`, `north`, `North` for
/// north, and so on. No other line means a direction.
pub proof fn lemma_directions(line: Seq<char>)
    ensures
        parse(line) == Intent::North <==> tokens(line).len() == 1 && north_word(tokens(line)[0]),
        parse(line) == Intent::South <==> tokens(line).len() == 1 && south_word(tokens(line)[0]),
        parse(line) == Intent::East <==> tokens(line).len() == 1 && east_word(tokens(line)[0]),
        parse(line) == Intent::West <==> tokens(line).len() == 1 && west_word(tokens(line)[0]),
        parse(line) == Intent::Up <==> tokens(line).len() == 1 && up_word(tokens(line)[0]),
        parse(line) == Intent::Down <==> tokens(line).len() == 1 && down_word(tokens(line)[0]),
        is_direction(parse(line)) <==> tokens(line).len() == 1 && direction_word(tokens(line)[0]),
{
    if tokens(line).len() == 1 {
        lemma_direction_spellings(tokens(line)[0]);
    }
}

/// Each spelling of a direction, alone on the line or with white space around
/// it, means that direction.
pub proof fn lemma_direction_words(head: Seq<char>, w: Seq<char>, tail: Seq<char>)
    requires
        forall|i: int| 0 <= i < head.len() ==> is_space(#[trigger] head[i]),
        forall|i: int| 0 <= i < tail.len() ==> is_space(#[trigger] tail[i]),
    ensures
        tokens(head + w + tail) == tokens(w),
        north_word(w) ==> parse(w) == Intent::North && parse(head + w + tail) == Intent::North,
        south_word(w) ==> parse(w) == Intent::South && parse(head + w + tail) == Intent::South,
        east_word(w) ==> parse(w) == Intent::East && parse(head + w + tail) == Intent::East,
        west_word(w) ==> parse(w) == Intent::West && parse(head + w + tail) == Intent::West,
        up_word(w) ==> parse(w) == Intent::Up && parse(head + w + tail) == Intent::Up,
        down_word(w) ==> parse(w) == Intent::Down && parse(head + w + tail) == Intent::Down,
{
    lemma_direction_spellings(w);
    lemma_tokens_ignore_tail(head + w, tail);
    lemma_tokens_ignore_head(head, w);
    if direction_word(w) {
        lemma_tokens_of_word(w);
    }
}

/// `use A on B` is tried before `use A`: a text that opens with `use ` and
/// holds ` on ` further on is split at the last ` on `; one that opens with
/// `use ` and holds no ` on ` has one target; any other text is kept as it is.
pub proof fn lemma_use_on_before_use(text: Seq<char>, p: int)
    ensures
        use_prefixed(text) && is_last_on(text, p) ==> free_text(text) == Intent::UseOn(
            text.subrange(4, p),
            text.skip(p + 4),
        ),
        use_prefixed(text) && (forall|q: int| !on_at(text, q)) ==> free_text(text) == Intent::Use(
            text.skip(4),
        ),
        !use_prefixed(text) ==> free_text(text) == Intent::Other(text),
{
    if use_prefixed(text) && is_last_on(text, p) {
        // Of two last positions each is at most the other.
        let q = choose|q: int| is_last_on(text, q);
        assert(q == p);
    }
}

/// Only the words of a line count: the line and its words joined by single
/// spaces mean the same.
pub proof fn lemma_only_words_count(line: Seq<char>)
    ensures
        parse(join(tokens(line))) == parse(line),
{
    lemma_tokens_are_words(line);
    lemma_tokens_of_join(tokens(line));
}

/// The free-text patterns, told from the words of a line. With `use` or `Use`
/// as the first of at least two words, the last `on` that has words on both
/// sides parts the target from the object; without such an `on`, all words
/// after the first are the target. Any other words are kept as they are.
pub proof fn lemma_free_text_by_words(words: Seq<Seq<char>>, j: int)
    requires
        forall|k: int| 0 <= k < words.len() ==> is_word(#[trigger] words[k]),
    ensures
        words.len() >= 2 && use_word(words[0]) && parting_on(words, j) && (forall|k: int|
            parting_on(words, k) ==> k <= j) ==> free_text(join(words)) == Intent::UseOn(
            join(words.subrange(1, j)),
            join(words.skip(j + 1)),
        ),
        words.len() >= 2 && use_word(words[0]) && (forall|k: int| !parting_on(words, k))
            ==> free_text(join(words)) == Intent::Use(join(words.skip(1))),
        !(words.len() >= 2 && use_word(words[0])) ==> free_text(join(words)) == Intent::Other(
            join(words),
        ),
{
    let text = join(words);
    lemma_use_prefix_by_words(words);
    if words.len() >= 2 && use_word(words[0]) {
        // Every ` on ` after `use ` is an `on` with words on both sides.
        assert forall|q: int| on_at(text, q) implies exists|k: int|
            parting_on(words, k) && join(words.take(k)).len() == q by {
            let k = lemma_position_on_word(words, q);
            // It is not the word after the verb: the space before that one
            // stands at position 3.
            reveal_strlit("use");
            reveal_strlit("Use");
            assert(parting_on(words, k));
        }
        if parting_on(words, j) && (forall|k: int| parting_on(words, k) ==> k <= j) {
            let p = join(words.take(j)).len() as int;
            lemma_on_word_position(words, j);
            let opening = words.take(j);
            lemma_use_prefix_by_words(opening);
            assert(opening.skip(1) =~= words.subrange(1, j));
            assert(text.subrange(4, p) =~= text.take(p).skip(4));
            assert forall|q: int| on_at(text, q) implies q <= p by {
                let k = choose|k: int| parting_on(words, k) && join(words.take(k)).len() == q;
                lemma_join_grows(words, k, j);
            }
            lemma_use_on_before_use(text, p);
        }
        if forall|k: int| !parting_on(words, k) {
            lemma_use_on_before_use(text, 0);
        }
    } else {
        lemma_use_on_before_use(text, 0);
    }
}

/// How the verbs open, and how long `use` is.
proof fn lemma_verb_letters(w: Seq<char>)
    ensures
        get_word(w) ==> w[0] == 'g' || w[0] == 't',
        w == "look"@ ==> w[0] == 'l',
        w == "talk"@ ==> w[0] == 't',
        use_word(w) ==> w.len() == 3 && (w[0] == 'u' || w[0] == 'U'),
{
    reveal_strlit("get");
    reveal_strlit("take");
    reveal_strlit("grab");
    reveal_strlit("look");
    reveal_strlit("talk");
    reveal_strlit("use");
    reveal_strlit("Use");
}

/// How the meta-commands open, and how long the spellings of up are.
proof fn lemma_meta_letters(w: Seq<char>)
    ensures
        inventory_word(w) ==> w[0] == 'i' || w[0] == 'I',
        quit_word(w) ==> w[0] == 'q' || w[0] == 'Q',
        up_word(w) ==> w.len() <= 2,
{
    reveal_strlit("i");
    reveal_strlit("I");
    reveal_strlit("inv");
    reveal_strlit("q");
    reveal_strlit("Q");
    reveal_strlit("quit");
    reveal_strlit("Quit");
    reveal_strlit("u");
    reveal_strlit("U");
    reveal_strlit("up");
    reveal_strlit("Up");
}

/// The verbs are no directions and no meta-commands, and `use` is none of the
/// other verbs.
proof fn lemma_verbs_apart(w: Seq<char>)
    ensures
        get_word(w) || w == "look"@ || w == "talk"@ || use_word(w) ==> lone_word(w) is None,
        use_word(w) ==> !get_word(w) && w != "look"@ && w != "talk"@,
{
    lemma_verb_letters(w);
    lemma_meta_letters(w);
    if north_word(w) {
        lemma_north_words(w);
    }
    if south_word(w) {
        lemma_south_words(w);
    }
    if east_word(w) {
        lemma_east_words(w);
    }
    if west_word(w) {
        lemma_west_words(w);
    }
    if up_word(w) {
        lemma_up_words(w);
    }
    if down_word(w) {
        lemma_down_words(w);
    }
}

/// What a line with a verb means, told from its words. `get`, `take` and
/// `grab` all pick up what the other words name. After `use` or `Use`, the
/// last `on` with words on both sides parts the target from the object;
/// without such an `on` the other words are the target, and without other
/// words the line is kept as it is.
pub proof fn lemma_verbs_by_words(line: Seq<char>, j: int)
    ensures
        ({
            let words = tokens(line);
            &&& words.len() >= 1 && get_word(words[0]) ==> parse(line) == Intent::Get(
                join(words.skip(1)),
            )
            &&& words.len() >= 2 && use_word(words[0]) && parting_on(words, j) && (forall|k: int|
                parting_on(words, k) ==> k <= j) ==> parse(line) == Intent::UseOn(
                join(words.subrange(1, j)),
                join(words.skip(j + 1)),
            )
            &&& words.len() >= 2 && use_word(words[0]) && (forall|k: int| !parting_on(words, k))
                ==> parse(line) == Intent::Use(join(words.skip(1)))
            &&& words.len() == 1 && use_word(words[0]) ==> parse(line) == Intent::Other(words[0])
        }),
{
    let words = tokens(line);
    lemma_tokens_are_words(line);
    lemma_free_text_by_words(words, j);
    if words.len() >= 1 {
        lemma_verbs_apart(words[0]);
    }
}

} // verus!
