use text_adventure::flags::Flags;

#[test]
fn a_flag_that_was_never_set_is_not_set() {
    let flags = Flags::new();
    assert!(!flags.is_set("room_a_opened_chest"));
    assert!(!flags.is_set(""));
}

#[test]
fn a_flag_that_was_set_is_set() {
    let mut flags = Flags::new();
    flags.set("room_a_opened_chest");
    assert!(flags.is_set("room_a_opened_chest"));
    assert!(!flags.is_set("test_room_got_golden_key"));
    assert!(!flags.is_set("room_a_opened_ches"));
}

#[test]
fn setting_a_flag_twice_is_the_same_as_once() {
    let mut once = Flags::new();
    once.set("a");
    let mut twice = Flags::new();
    twice.set("a");
    twice.set("a");
    for name in ["a", "b", ""] {
        assert_eq!(once.is_set(name), twice.is_set(name));
    }
    assert!(twice.is_set("a"));
}

#[test]
fn set_as_sets_and_clears() {
    let mut flags = Flags::new();
    flags.set_as("a", true);
    flags.set_as("b", false);
    assert!(flags.is_set("a"));
    assert!(!flags.is_set("b"));
    flags.set_as("a", false);
    assert!(!flags.is_set("a"));
    flags.set_as("b", true);
    assert!(flags.is_set("b"));
}

#[test]
fn other_flags_are_left_alone() {
    let mut flags = Flags::new();
    flags.set("a");
    flags.set("b");
    flags.set_as("b", false);
    assert!(flags.is_set("a"));
    flags.set_as("c", false);
    assert!(flags.is_set("a"));
    assert!(!flags.is_set("c"));
}

#[test]
fn message_if_shows_the_message_when_the_flag_stands_as_asked() {
    let mut flags = Flags::new();
    assert_eq!(flags.message_if("seen", false, "A chest."), Some("A chest.".to_string()));
    assert_eq!(flags.message_if("seen", true, "A chest."), None);
    flags.set("seen");
    assert_eq!(flags.message_if("seen", false, "A chest."), None);
    assert_eq!(flags.message_if("seen", true, "A chest."), Some("A chest.".to_string()));
}
