use idle_terminal::continuum::inventory::Inventory;
use idle_terminal::continuum::text::same_text;

#[test]
fn new_inventory_is_empty() {
    let inventory = Inventory::new();
    assert_eq!(inventory.get("Gold"), None);
    assert!(inventory.entries().is_empty());
}

#[test]
fn insert_then_get() {
    let mut inventory = Inventory::new();
    inventory.insert("Gold".to_string(), 3);
    inventory.insert("Wood".to_string(), 5);
    assert_eq!(inventory.get("Gold"), Some(3));
    assert_eq!(inventory.get("Wood"), Some(5));
    assert_eq!(inventory.get("Stone"), None);
    assert_eq!(inventory.get("gold"), None);
}

#[test]
fn insert_overwrites_and_keeps_one_line_per_product() {
    let mut inventory = Inventory::new();
    inventory.insert("Gold".to_string(), 3);
    inventory.insert("Wood".to_string(), 5);
    inventory.insert("Gold".to_string(), 9);
    assert_eq!(inventory.get("Gold"), Some(9));
    assert_eq!(inventory.get("Wood"), Some(5));
    let lines = inventory.entries();
    assert_eq!(lines.len(), 2);
    assert_eq!(lines[0], ("Gold".to_string(), 9));
    assert_eq!(lines[1], ("Wood".to_string(), 5));
}

#[test]
fn snapshot_is_a_copy() {
    let mut inventory = Inventory::new();
    inventory.insert("Gold".to_string(), 3);
    let copy = inventory.snapshot();
    inventory.insert("Gold".to_string(), 4);
    inventory.insert("Wood".to_string(), 1);
    assert_eq!(copy.get("Gold"), Some(3));
    assert_eq!(copy.get("Wood"), None);
    assert_eq!(copy.entries().len(), 1);
    assert_eq!(inventory.get("Gold"), Some(4));
}

#[test]
fn zero_quantity_is_still_stocked() {
    let mut inventory = Inventory::new();
    inventory.insert("Gold".to_string(), 0);
    assert_eq!(inventory.get("Gold"), Some(0));
}

#[test]
fn same_text_compares_characters() {
    assert!(same_text("", ""));
    assert!(same_text("gold", "gold"));
    assert!(!same_text("gold", "Gold"));
    assert!(!same_text("gold", "golds"));
    assert!(!same_text("gold", ""));
    assert!(same_text("g\u{f6}ld \u{1F600}", "g\u{f6}ld \u{1F600}"));
    assert!(!same_text("g\u{f6}ld", "gold"));
}
