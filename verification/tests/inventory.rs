use text_adventure::inventory::Inventory;

#[test]
fn new_inventory_holds_nothing() {
    let inv = Inventory::new();
    assert!(!inv.has("Golden Key"));
    assert_eq!(inv.find("Golden Key"), None);
    assert_eq!(inv.render(), "--- INVENTORY ---\n------------------\n");
}

#[test]
fn has_is_true_exactly_for_names_that_are_present() {
    let mut inv = Inventory::new();
    inv.add("Golden Key", "shiny");
    inv.add("Sword", "sharp");
    assert!(inv.has("Golden Key"));
    assert!(inv.has("Sword"));
    assert!(!inv.has("golden key"));
    assert!(!inv.has("Golden"));
    assert!(!inv.has("shiny"));
    assert!(!inv.has(""));
}

#[test]
fn find_gives_the_first_position() {
    let mut inv = Inventory::new();
    inv.add("Lamp", "dim");
    inv.add("Rope", "long");
    inv.add("Lamp", "bright");
    assert_eq!(inv.find("Lamp"), Some(0));
    assert_eq!(inv.find("Rope"), Some(1));
    assert_eq!(inv.find("Sword"), None);
}

#[test]
fn add_then_remove_gives_back_the_prior_state() {
    let mut inv = Inventory::new();
    inv.add("Lamp", "dim");
    inv.add("Rope", "long");
    let before = inv.clone();
    inv.add("Golden Key", "shiny");
    assert_ne!(inv, before);
    inv.remove("Golden Key");
    assert_eq!(inv, before);
}

#[test]
fn add_then_remove_on_an_empty_inventory() {
    let mut inv = Inventory::new();
    inv.add("Golden Key", "shiny");
    inv.remove("Golden Key");
    assert_eq!(inv, Inventory::new());
}

#[test]
fn removing_a_name_that_is_not_there_changes_nothing() {
    let mut inv = Inventory::new();
    inv.remove("Lamp");
    assert_eq!(inv, Inventory::new());
    inv.add("Lamp", "dim");
    inv.add("Rope", "long");
    let before = inv.clone();
    inv.remove("Sword");
    inv.remove("lamp");
    inv.remove("");
    assert_eq!(inv, before);
}

#[test]
fn remove_takes_out_every_entry_of_that_name() {
    let mut inv = Inventory::new();
    inv.add("Lamp", "dim");
    inv.add("Rope", "long");
    inv.add("Lamp", "bright");
    inv.add("Key", "small");
    inv.remove("Lamp");
    let mut expected = Inventory::new();
    expected.add("Rope", "long");
    expected.add("Key", "small");
    assert_eq!(inv, expected);
    assert!(!inv.has("Lamp"));
}

#[test]
fn the_container_does_not_reject_a_second_entry_of_a_name() {
    let mut inv = Inventory::new();
    inv.add("Lamp", "dim");
    inv.add("Lamp", "dim");
    assert_eq!(
        inv.render(),
        "--- INVENTORY ---\nLamp       | dim       \nLamp       | dim       \n------------------\n"
    );
}

#[test]
fn rows_are_padded_to_ten_characters() {
    let mut inv = Inventory::new();
    inv.add("Golden Key", "A quaint key with an irresistable luster.");
    inv.add("Sword", "sharp");
    inv.add("", "");
    inv.add("123456789", "1234567890123");
    assert_eq!(
        inv.render(),
        "--- INVENTORY ---\n\
         Golden Key | A quaint key with an irresistable luster.\n\
         Sword      | sharp     \n\
         \x20          |           \n\
         123456789  | 1234567890123\n\
         ------------------\n"
    );
}

#[test]
fn padding_counts_characters_not_bytes() {
    let mut inv = Inventory::new();
    inv.add("Schl\u{fc}ssel", "\u{9375}");
    assert_eq!(
        inv.render(),
        format!("--- INVENTORY ---\n{: <10} | {: <10}\n------------------\n", "Schl\u{fc}ssel", "\u{9375}")
    );
    assert_eq!(
        inv.render(),
        "--- INVENTORY ---\nSchl\u{fc}ssel  | \u{9375}         \n------------------\n"
    );
}
