//! The intent parser: from a line of player input to one intent.

use vstd::prelude::*;
use crate::grammar::{free_text, lone_word, parse, verb_phrase};
use crate::input::ParsedInput;
use crate::pattern::{match_use, match_use_on};
use crate::text::{
    join_from, lemma_join_single_spaced, lemma_tokens_are_words, same_text, single_spaced,
    split_whitespace, tokens, views,
};

verus! {

/// Whether `w` is one of four spellings.
fn spells(w: &str, a: &str, b: &str, c: &str, d: &str) -> (yes: bool)
    ensures
        yes == (w@ == a@ || w@ == b@ || w@ == c@ || w@ == d@),
{
    same_text(w, a) || same_text(w, b) || same_text(w, c) || same_text(w, d)
}

/// Reads a lone word as a direction or a meta-command.
fn parse_lone_word(w: &str) -> (intent: Option<ParsedInput>)
    ensures
        intent.is_some() == lone_word(w@).is_some(),
        intent matches Some(i) ==> lone_word(w@) == Some(i@),
{
    if spells(w, "n", "N", "north", "North") {
        Some(ParsedInput::North)
    } else if spells(w, "s", "S", "south", "South") {
        Some(ParsedInput::South)
    } else if spells(w, "e", "E", "east", "East") {
        Some(ParsedInput::East)
    } else if spells(w, "w", "W", "west", "West") {
        Some(ParsedInput::West)
    } else if spells(w, "u", "U", "up", "Up") {
        Some(ParsedInput::Up)
    } else if spells(w, "d", "D", "down", "Down") {
        Some(ParsedInput::Down)
    } else if same_text(w, "i") || same_text(w, "I") || same_text(w, "inv") {
        Some(ParsedInput::Inv)
    } else if spells(w, "q", "Q", "quit", "Quit") {
        Some(ParsedInput::Quit)
    } else {
        None
    }
}

/// Reads a line that opens with a verb.
fn parse_verb_phrase(words: &Vec<&str>) -> (intent: Option<ParsedInput>)
    ensures
        intent.is_some() == verb_phrase(views(words@)).is_some(),
        intent matches Some(i) ==> verb_phrase(views(words@)) == Some(i@),
{
    if words.len() == 0 {
        return None;
    }
    let verb = words[0];
    if same_text(verb, "get") || same_text(verb, "take") || same_text(verb, "grab") {
        Some(ParsedInput::Get(join_from(words, 1)))
    } else if same_text(verb, "look") {
        if words.len() >= 2 && same_text(words[1], "at") {
            Some(ParsedInput::Look(join_from(words, 2)))
        } else {
            Some(ParsedInput::Look(join_from(words, 1)))
        }
    } else if same_text(verb, "talk") {
        if words.len() >= 2 && same_text(words[1], "to") {
            Some(ParsedInput::Talk(join_from(words, 2)))
        } else {
            Some(ParsedInput::Talk(join_from(words, 1)))
        }
    } else {
        None
    }
}

/// Reads the words of a line, joined by single spaces, against the free-text patterns.
fn parse_free_text(text: String) -> (intent: ParsedInput)
    requires
        single_spaced(text@),
    ensures
        intent@ == free_text(text@),
{
    match match_use_on(text.as_str()) {
        Some((target, object)) => ParsedInput::UseOn(target, object),
        None => match match_use(text.as_str()) {
            Some(target) => ParsedInput::Use(target),
            None => ParsedInput::Other(text),
        },
    }
}

/// Turns a line of player input into an intent. Every line has one: what no
/// pattern fits comes back as [`ParsedInput::Other`].
pub fn parse_input(s: String) -> (intent: ParsedInput)
    ensures
        intent@ == parse(s@),
{
    let words = split_whitespace(s.as_str());
    if words.len() == 1 {
        if let Some(intent) = parse_lone_word(words[0]) {
            return intent;
        }
    }
    if let Some(intent) = parse_verb_phrase(&words) {
        return intent;
    }
    let text = join_from(&words, 0);
    proof {
        lemma_tokens_are_words(s@);
        lemma_join_single_spaced(tokens(s@));
        assert(tokens(s@).skip(0) =~= tokens(s@));
    }
    parse_free_text(text)
}

} // verus!
