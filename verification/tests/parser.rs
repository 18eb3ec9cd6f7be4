use text_adventure::input::ParsedInput;
use text_adventure::parser::parse_input;

fn parse(line: &str) -> ParsedInput {
    parse_input(line.to_string())
}

fn other(text: &str) -> ParsedInput {
    ParsedInput::Other(text.to_string())
}

fn use_on(target: &str, object: &str) -> ParsedInput {
    ParsedInput::UseOn(target.to_string(), object.to_string())
}

#[test]
fn empty_line_is_other_with_empty_text() {
    assert_eq!(parse(""), other(""));
}

#[test]
fn blank_lines_are_other_with_empty_text() {
    assert_eq!(parse("   "), other(""));
    assert_eq!(parse("\n"), other(""));
    assert_eq!(parse(" \t\r\n"), other(""));
    assert_eq!(parse("\u{3000}\u{2003}\u{a0}"), other(""));
}

#[test]
fn get_take_grab_all_pick_up() {
    let expected = ParsedInput::Get("golden key".to_string());
    assert_eq!(parse("get golden key"), expected);
    assert_eq!(parse("take golden key"), expected);
    assert_eq!(parse("grab golden key"), expected);
}

#[test]
fn use_on_comes_before_use() {
    assert_eq!(parse("use golden key on chest"), use_on("golden key", "chest"));
    assert_ne!(
        parse("use golden key on chest"),
        ParsedInput::Use("golden key on chest".to_string())
    );
}

#[test]
fn use_with_one_object() {
    assert_eq!(parse("use golden key"), ParsedInput::Use("golden key".to_string()));
    assert_eq!(parse("Use golden key\n"), ParsedInput::Use("golden key".to_string()));
}

#[test]
fn use_on_splits_at_the_last_on() {
    assert_eq!(parse("use key on chest on table"), use_on("key on chest", "table"));
    assert_eq!(parse("use on on on"), use_on("on", "on"));
    assert_eq!(parse("use a on on"), use_on("a", "on"));
}

#[test]
fn use_on_needs_text_on_both_sides() {
    assert_eq!(parse("use on chest"), ParsedInput::Use("on chest".to_string()));
    assert_eq!(parse("use key on"), ParsedInput::Use("key on".to_string()));
    assert_eq!(parse("use on"), ParsedInput::Use("on".to_string()));
    assert_eq!(parse("use button"), ParsedInput::Use("button".to_string()));
    assert_eq!(parse("use salmon onion"), ParsedInput::Use("salmon onion".to_string()));
}

#[test]
fn use_alone_is_other() {
    assert_eq!(parse("use"), other("use"));
    assert_eq!(parse("Use"), other("Use"));
    assert_eq!(parse("  use  "), other("use"));
}

#[test]
fn use_must_be_a_word_of_its_own() {
    assert_eq!(parse("user manual"), other("user manual"));
    assert_eq!(parse("USE key"), other("USE key"));
    assert_eq!(parse("uSe key"), other("uSe key"));
    assert_eq!(parse("reuse key"), other("reuse key"));
    assert_eq!(parse("please use key"), other("please use key"));
}

#[test]
fn white_space_between_words_is_not_kept() {
    assert_eq!(parse("  use   golden\tkey   on \n chest  "), use_on("golden key", "chest"));
    assert_eq!(parse("open\t\tthe   chest"), other("open the chest"));
    assert_eq!(parse("get   the  golden   key"), ParsedInput::Get("the golden key".to_string()));
}

#[test]
fn each_direction_has_four_spellings() {
    for w in ["n", "N", "north", "North"] {
        assert_eq!(parse(w), ParsedInput::North);
    }
    for w in ["s", "S", "south", "South"] {
        assert_eq!(parse(w), ParsedInput::South);
    }
    for w in ["e", "E", "east", "East"] {
        assert_eq!(parse(w), ParsedInput::East);
    }
    for w in ["w", "W", "west", "West"] {
        assert_eq!(parse(w), ParsedInput::West);
    }
    for w in ["u", "U", "up", "Up"] {
        assert_eq!(parse(w), ParsedInput::Up);
    }
    for w in ["d", "D", "down", "Down"] {
        assert_eq!(parse(w), ParsedInput::Down);
    }
}

#[test]
fn directions_are_not_case_folded() {
    assert_eq!(parse("NORTH"), other("NORTH"));
    assert_eq!(parse("nOrth"), other("nOrth"));
    assert_eq!(parse("UP"), other("UP"));
    assert_eq!(parse("north north"), other("north north"));
    assert_eq!(parse("go north"), other("go north"));
}

#[test]
fn directions_may_stand_in_white_space() {
    assert_eq!(parse("  north \n"), ParsedInput::North);
    assert_eq!(parse("\td\r\n"), ParsedInput::Down);
}

#[test]
fn meta_commands() {
    for w in ["i", "I", "inv"] {
        assert_eq!(parse(w), ParsedInput::Inv);
    }
    for w in ["q", "Q", "quit", "Quit"] {
        assert_eq!(parse(w), ParsedInput::Quit);
    }
    assert_eq!(parse("Inv"), other("Inv"));
    assert_eq!(parse("inventory"), other("inventory"));
    assert_eq!(parse("QUIT"), other("QUIT"));
    assert_eq!(parse("quit now"), other("quit now"));
}

#[test]
fn look_with_and_without_at() {
    assert_eq!(parse("look"), ParsedInput::Look(String::new()));
    assert_eq!(parse("look at"), ParsedInput::Look(String::new()));
    assert_eq!(parse("look at old chest"), ParsedInput::Look("old chest".to_string()));
    assert_eq!(parse("look old chest"), ParsedInput::Look("old chest".to_string()));
    assert_eq!(parse("look at at"), ParsedInput::Look("at".to_string()));
    assert_eq!(parse("Look"), other("Look"));
}

#[test]
fn talk_with_and_without_to() {
    assert_eq!(parse("talk"), ParsedInput::Talk(String::new()));
    assert_eq!(parse("talk to"), ParsedInput::Talk(String::new()));
    assert_eq!(parse("talk to the guard"), ParsedInput::Talk("the guard".to_string()));
    assert_eq!(parse("talk guard"), ParsedInput::Talk("guard".to_string()));
}

#[test]
fn verbs_without_an_object_have_empty_text() {
    assert_eq!(parse("get"), ParsedInput::Get(String::new()));
    assert_eq!(parse("take"), ParsedInput::Get(String::new()));
    assert_eq!(parse("grab"), ParsedInput::Get(String::new()));
}

#[test]
fn verbs_come_before_the_use_patterns() {
    assert_eq!(parse("get use key on chest"), ParsedInput::Get("use key on chest".to_string()));
}

#[test]
fn rendering_names_the_intent_and_its_texts() {
    assert_eq!(parse("quit").render(), "Quit");
    assert_eq!(parse("i").render(), "Inv");
    assert_eq!(parse("look at chest").render(), "Look(chest)");
    assert_eq!(parse("get key").render(), "Get(key)");
    assert_eq!(parse("use key").render(), "Use(key)");
    assert_eq!(parse("use key on chest").render(), "UseOn(key, chest)");
    assert_eq!(parse("talk to guard").render(), "Talk(guard)");
    assert_eq!(parse("n").render(), "North");
    assert_eq!(parse("s").render(), "South");
    assert_eq!(parse("e").render(), "East");
    assert_eq!(parse("w").render(), "West");
    assert_eq!(parse("d").render(), "Down");
    assert_eq!(parse("u").render(), "Up");
    assert_eq!(parse("dance").render(), "Other(dance)");
    assert_eq!(parse("").render(), "Other()");
}
