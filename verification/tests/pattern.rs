use regex::Regex;
use text_adventure::input::ParsedInput;
use text_adventure::parser::parse_input;
use text_adventure::pattern::{USE_ON_PATTERN, USE_PATTERN};

/// What the free-text patterns make of a line, told from its words.
fn expected(words: &[&str]) -> ParsedInput {
    let text = words.join(" ");
    if words.len() < 2 || (words[0] != "use" && words[0] != "Use") {
        return ParsedInput::Other(text);
    }
    let rest = &words[1..];
    let mut split = None;
    for j in 1..rest.len().saturating_sub(1) {
        if rest[j] == "on" {
            split = Some(j);
        }
    }
    match split {
        Some(j) => ParsedInput::UseOn(rest[..j].join(" "), rest[j + 1..].join(" ")),
        None => ParsedInput::Use(rest.join(" ")),
    }
}

fn lines_of(vocabulary: &[&'static str], longest: usize) -> Vec<Vec<&'static str>> {
    let mut all: Vec<Vec<&'static str>> = vec![Vec::new()];
    let mut last: Vec<Vec<&'static str>> = vec![Vec::new()];
    for _ in 0..longest {
        let mut next = Vec::new();
        for line in &last {
            for word in vocabulary {
                let mut longer = line.clone();
                longer.push(*word);
                next.push(longer);
            }
        }
        all.extend(next.iter().cloned());
        last = next;
    }
    all
}

#[test]
fn free_text_patterns_on_every_short_line() {
    let vocabulary = ["use", "Use", "on", "key", "onto", "son"];
    for words in lines_of(&vocabulary, 4) {
        let line = words.join(" ");
        assert_eq!(parse_input(line.clone()), expected(&words), "{:?}", line);
    }
}

#[test]
fn free_text_patterns_on_longer_lines_with_many_ons() {
    let vocabulary = ["on", "x"];
    for rest in lines_of(&vocabulary, 7) {
        let mut words = vec!["use"];
        words.extend(rest);
        let line = words.join("  \t ");
        assert_eq!(parse_input(line.clone()), expected(&words), "{:?}", line);
    }
}

#[test]
fn the_patterns_are_the_ones_of_the_grammar() {
    assert_eq!(USE_PATTERN, "^[uU]se\\s+(.*)$");
    assert_eq!(USE_ON_PATTERN, "^[uU]se\\s+(.*) on (.*)$");
    assert!(Regex::new(USE_PATTERN).is_ok());
    assert!(Regex::new(USE_ON_PATTERN).is_ok());
}

#[test]
fn the_parser_gives_what_the_patterns_capture() {
    let use_on = Regex::new(USE_ON_PATTERN).unwrap();
    let use_one = Regex::new(USE_PATTERN).unwrap();
    for line in ["use golden key on chest", "use lamp", "Use a on b on c", "use on on", "dance", "use"] {
        let by_hand = if let Some(c) = use_on.captures(line) {
            assert_eq!(&c[0], line);
            ParsedInput::UseOn(c[1].to_string(), c[2].to_string())
        } else if let Some(c) = use_one.captures(line) {
            assert_eq!(&c[0], line);
            ParsedInput::Use(c[1].to_string())
        } else {
            ParsedInput::Other(line.to_string())
        };
        assert_eq!(parse_input(line.to_string()), by_hand, "{:?}", line);
    }
}

#[test]
fn free_text_patterns_with_unusual_characters() {
    let lines = [
        "use \u{1c}x on y",
        "use \u{0}",
        "use \u{feff}key on \u{200b}",
        "use cl\u{e9} on coffre",
        "use \u{1f511} on \u{1f4e6}",
        "Use k\u{301}ey",
        "use\u{a0}key\u{2003}on\u{3000}chest",
        "use key\u{85}on\u{2028}chest\u{2029}",
        "use on\u{200b} on x",
        "\u{feff}use key on chest",
    ];
    for line in lines {
        let words: Vec<&str> = line.split_whitespace().collect();
        assert_eq!(parse_input(line.to_string()), expected(&words), "{:?}", line);
    }
}

/// What the free-text patterns make of a single-spaced text, told from the text.
fn expected_of_text(text: &str) -> ParsedInput {
    let opens_with_use = text.len() > 3
        && (text.starts_with("use") || text.starts_with("Use"))
        && text.as_bytes()[3] == b' ';
    if !opens_with_use {
        return ParsedInput::Other(text.to_string());
    }
    let rest = &text[4..];
    match rest.rfind(" on ") {
        Some(p) => ParsedInput::UseOn(rest[..p].to_string(), rest[p + 4..].to_string()),
        None => ParsedInput::Use(rest.to_string()),
    }
}

#[test]
fn free_text_patterns_on_every_short_text() {
    let letters = [' ', 'o', 'n'];
    let mut bodies: Vec<String> = vec![String::new()];
    let mut last: Vec<String> = vec![String::new()];
    for _ in 0..7 {
        let mut next = Vec::new();
        for body in &last {
            for letter in letters {
                if letter == ' ' && (body.is_empty() || body.ends_with(' ')) {
                    continue;
                }
                let mut longer = body.clone();
                longer.push(letter);
                next.push(longer);
            }
        }
        bodies.extend(next.iter().filter(|body| !body.ends_with(' ')).cloned());
        last = next;
    }
    assert_eq!(bodies.len(), 1035);
    for body in bodies {
        let text = format!("use {}", body).trim_end().to_string();
        let words: Vec<&str> = text.split(' ').collect();
        assert_eq!(parse_input(text.clone()), expected_of_text(&text), "{:?}", text);
        assert_eq!(expected_of_text(&text), expected(&words), "{:?}", text);
    }
}
