//! What the player can ask for: the intents that a line of input is turned into.

use vstd::prelude::*;
use vstd::string::*;

verus! {

/// An intent as the contracts see it, its texts as character sequences.
pub enum Intent {
    Quit,
    Inv,
    Look(Seq<char>),
    Get(Seq<char>),
    Use(Seq<char>),
    UseOn(Seq<char>, Seq<char>),
    Talk(Seq<char>),
    North,
    South,
    East,
    West,
    Down,
    Up,
    Other(Seq<char>),
}

/// One line of player input, understood.
#[derive(Debug, Clone, PartialEq, Eq)]
pub enum ParsedInput {
    /// Leave the game.
    Quit,
    /// Show what the player carries.
    Inv,
    /// Look around, or at the thing named; the name may be empty.
    Look(String),
    /// Pick up the thing named.
    Get(String),
    /// Use the thing named.
    Use(String),
    /// Use the first thing on the second.
    UseOn(String, String),
    /// Talk to the one named.
    Talk(String),
    /// Go north.
    North,
    /// Go south.
    South,
    /// Go east.
    East,
    /// Go west.
    West,
    /// Go down.
    Down,
    /// Go up.
    Up,
    /// Anything else, as the words of the line joined by single spaces.
    Other(String),
}

impl View for ParsedInput {
    type V = Intent;

    open spec fn view(&self) -> Intent {
        match self {
            ParsedInput::Quit => Intent::Quit,
            ParsedInput::Inv => Intent::Inv,
            ParsedInput::Look(s) => Intent::Look(s@),
            ParsedInput::Get(s) => Intent::Get(s@),
            ParsedInput::Use(s) => Intent::Use(s@),
            ParsedInput::UseOn(s, t) => Intent::UseOn(s@, t@),
            ParsedInput::Talk(s) => Intent::Talk(s@),
            ParsedInput::North => Intent::North,
            ParsedInput::South => Intent::South,
            ParsedInput::East => Intent::East,
            ParsedInput::West => Intent::West,
            ParsedInput::Down => Intent::Down,
            ParsedInput::Up => Intent::Up,
            ParsedInput::Other(s) => Intent::Other(s@),
        }
    }
}

/// True for the six intents that move the player.
pub open spec fn is_direction(intent: Intent) -> bool {
    intent is North || intent is South || intent is East || intent is West || intent is Up
        || intent is Down
}

/// An intent written out: its name, with its texts in parentheses.
pub open spec fn rendered(intent: Intent) -> Seq<char> {
    match intent {
        Intent::Quit => "Quit"@,
        Intent::Inv => "Inv"@,
        Intent::Look(s) => "Look("@ + s + ")"@,
        Intent::Get(s) => "Get("@ + s + ")"@,
        Intent::Use(s) => "Use("@ + s + ")"@,
        Intent::UseOn(s, t) => "UseOn("@ + s + ", "@ + t + ")"@,
        Intent::Talk(s) => "Talk("@ + s + ")"@,
        Intent::North => "North"@,
        Intent::South => "South"@,
        Intent::East => "East"@,
        Intent::West => "West"@,
        Intent::Down => "Down"@,
        Intent::Up => "Up"@,
        Intent::Other(s) => "Other("@ + s + ")"@,
    }
}

/// `text` between `open` and a closing parenthesis.
fn wrapped(open: &str, text: &str) -> (out: String)
    ensures
        out@ == open@ + text@ + ")"@,
{
    let mut out = open.to_owned();
    out.append(text);
    out.append(")");
    out
}

impl ParsedInput {
    /// The intent written out, for display.
    pub fn render(&self) -> (out: String)
        ensures
            out@ == rendered(self@),
    {
        match self {
            ParsedInput::Quit => "Quit".to_owned(),
            ParsedInput::Inv => "Inv".to_owned(),
            ParsedInput::Look(s) => wrapped("Look(", s.as_str()),
            ParsedInput::Get(s) => wrapped("Get(", s.as_str()),
            ParsedInput::Use(s) => wrapped("Use(", s.as_str()),
            ParsedInput::UseOn(s, t) => {
                let mut out = "UseOn(".to_owned();
                out.append(s.as_str());
                out.append(", ");
                out.append(t.as_str());
                out.append(")");
                out
            },
            ParsedInput::Talk(s) => wrapped("Talk(", s.as_str()),
            ParsedInput::North => "North".to_owned(),
            ParsedInput::South => "South".to_owned(),
            ParsedInput::East => "East".to_owned(),
            ParsedInput::West => "West".to_owned(),
            ParsedInput::Down => "Down".to_owned(),
            ParsedInput::Up => "Up".to_owned(),
            ParsedInput::Other(s) => wrapped("Other(", s.as_str()),
        }
    }
}

} // verus!
