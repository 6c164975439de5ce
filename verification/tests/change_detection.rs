use jaxon::lock::{get_product_hash, should_sync};
use jaxon::products::{init_product_json, ProductJson, ProductKind};
use jaxon::text::decimal_string;
use std::collections::HashMap;

fn sword() -> ProductJson {
    ProductJson {
        name: "Sword".to_string(),
        description: "A sharp blade".to_string(),
        product_type: "Product".to_string(),
        image: "assets/sword.png".to_string(),
        price: 499,
        regional_pricing: false,
        id: 0,
    }
}

#[test]
fn decimal_of_zero_and_small_numbers() {
    assert_eq!(decimal_string(0), "0");
    assert_eq!(decimal_string(7), "7");
    assert_eq!(decimal_string(10), "10");
    assert_eq!(decimal_string(499), "499");
    assert_eq!(decimal_string(1000000), "1000000");
}

#[test]
fn decimal_of_negative_numbers() {
    assert_eq!(decimal_string(-1), "-1");
    assert_eq!(decimal_string(-42), "-42");
    assert_eq!(decimal_string(-1000), "-1000");
}

#[test]
fn decimal_of_the_extremes() {
    assert_eq!(decimal_string(i64::MAX), "9223372036854775807");
    assert_eq!(decimal_string(i64::MIN), "-9223372036854775808");
}

#[test]
fn decimal_agrees_with_the_standard_rendering() {
    for n in [-987654321i64, -10, -9, 9, 11, 99, 100, 101, 1234567890123] {
        assert_eq!(decimal_string(n), n.to_string());
    }
}

#[test]
fn fingerprint_has_the_documented_layout() {
    assert_eq!(get_product_hash(&sword()), "0499:5:13:SwordA sharp bladeassets/sword.png");
}

#[test]
fn fingerprint_of_an_empty_entry() {
    let empty = ProductJson {
        name: String::new(),
        description: String::new(),
        product_type: String::new(),
        image: String::new(),
        price: 0,
        regional_pricing: true,
        id: 0,
    };
    assert_eq!(get_product_hash(&empty), "10:0:0:");
}

#[test]
fn fingerprint_counts_characters_not_bytes() {
    let mut entry = sword();
    entry.name = "Épée".to_string();
    entry.description = String::new();
    entry.image = String::new();
    assert_eq!(get_product_hash(&entry), "0499:4:0:Épée");
}

#[test]
fn fingerprint_renders_a_negative_price() {
    let mut entry = sword();
    entry.price = -5;
    assert_eq!(get_product_hash(&entry), "0-5:5:13:SwordA sharp bladeassets/sword.png");
}

#[test]
fn fingerprint_is_the_same_for_the_same_input() {
    assert_eq!(get_product_hash(&sword()), get_product_hash(&sword()));
}

#[test]
fn fingerprint_changes_with_the_name() {
    let mut changed = sword();
    changed.name = "Sabre".to_string();
    assert_ne!(get_product_hash(&sword()), get_product_hash(&changed));
}

#[test]
fn fingerprint_changes_with_the_description() {
    let mut changed = sword();
    changed.description = "A blunt blade".to_string();
    assert_ne!(get_product_hash(&sword()), get_product_hash(&changed));
}

#[test]
fn fingerprint_changes_with_the_image() {
    let mut changed = sword();
    changed.image = "assets/sabre.png".to_string();
    assert_ne!(get_product_hash(&sword()), get_product_hash(&changed));
}

#[test]
fn fingerprint_changes_with_the_price() {
    let mut changed = sword();
    changed.price = 500;
    assert_ne!(get_product_hash(&sword()), get_product_hash(&changed));
}

#[test]
fn fingerprint_changes_with_the_regional_pricing_flag() {
    let mut changed = sword();
    changed.regional_pricing = true;
    assert_ne!(get_product_hash(&sword()), get_product_hash(&changed));
}

#[test]
fn fingerprint_ignores_the_remote_identifier() {
    let mut changed = sword();
    changed.id = 555;
    assert_eq!(get_product_hash(&sword()), get_product_hash(&changed));
}

#[test]
fn fingerprint_ignores_the_kind() {
    let mut changed = sword();
    changed.product_type = "Gamepass".to_string();
    assert_eq!(get_product_hash(&sword()), get_product_hash(&changed));
}

#[test]
fn fingerprint_tells_text_that_moves_between_fields_apart() {
    let mut left = sword();
    left.name = "ab".to_string();
    left.description = "c".to_string();
    left.image = String::new();
    let mut right = sword();
    right.name = "a".to_string();
    right.description = "bc".to_string();
    right.image = String::new();
    assert_ne!(get_product_hash(&left), get_product_hash(&right));
    let mut third = sword();
    third.name = "a".to_string();
    third.description = "b".to_string();
    third.image = "c".to_string();
    assert_ne!(get_product_hash(&right), get_product_hash(&third));
}

#[test]
fn an_entry_without_identifier_is_always_sent() {
    let mut hashes = HashMap::new();
    hashes.insert(0, get_product_hash(&sword()));
    assert!(should_sync(&sword(), &hashes));
    assert!(should_sync(&sword(), &HashMap::new()));
}

#[test]
fn an_entry_with_a_negative_identifier_is_sent() {
    let mut entry = sword();
    entry.id = -7;
    let mut hashes = HashMap::new();
    hashes.insert(-7, get_product_hash(&entry));
    assert!(should_sync(&entry, &hashes));
}

#[test]
fn an_entry_that_is_not_on_record_is_sent() {
    let mut entry = sword();
    entry.id = 42;
    let mut hashes = HashMap::new();
    hashes.insert(43, get_product_hash(&entry));
    assert!(should_sync(&entry, &hashes));
}

#[test]
fn an_entry_on_record_with_another_fingerprint_is_sent() {
    let mut entry = sword();
    entry.id = 42;
    let mut hashes = HashMap::new();
    hashes.insert(42, "something else".to_string());
    assert!(should_sync(&entry, &hashes));
}

#[test]
fn an_entry_on_record_unchanged_is_not_sent() {
    let mut entry = sword();
    entry.id = 42;
    let mut hashes = HashMap::new();
    hashes.insert(42, get_product_hash(&entry));
    assert!(!should_sync(&entry, &hashes));
}

#[test]
fn a_changed_field_makes_an_entry_on_record_due() {
    let mut entry = sword();
    entry.id = 42;
    let mut hashes = HashMap::new();
    hashes.insert(42, get_product_hash(&entry));
    entry.price = 599;
    assert!(should_sync(&entry, &hashes));
}

#[test]
fn kinds_are_read_from_the_type_discriminator() {
    let mut entry = sword();
    assert_eq!(entry.kind(), Some(ProductKind::Product));
    entry.product_type = "Gamepass".to_string();
    assert_eq!(entry.kind(), Some(ProductKind::Gamepass));
    entry.product_type = "Bundle".to_string();
    assert_eq!(entry.kind(), None);
    entry.product_type = "product".to_string();
    assert_eq!(entry.kind(), None);
    entry.product_type = String::new();
    assert_eq!(entry.kind(), None);
}

#[test]
fn payload_carries_the_five_fields() {
    let data = sword().payload();
    assert_eq!(data.name, "Sword");
    assert_eq!(data.description, "A sharp blade");
    assert_eq!(data.image_file, "assets/sword.png");
    assert_eq!(data.price, 499);
    assert!(!data.regional_pricing);
}

#[test]
fn a_fresh_catalog_holds_one_example_of_each_kind() {
    let defaults = init_product_json();
    assert_eq!(defaults.len(), 2);
    assert_eq!(defaults[0].name, "Example Product");
    assert_eq!(defaults[0].description, "Example product's description");
    assert_eq!(defaults[0].product_type, "Product");
    assert_eq!(defaults[0].image, "assets/products/example.png");
    assert_eq!(defaults[0].price, 499);
    assert!(!defaults[0].regional_pricing);
    assert_eq!(defaults[0].id, 0);
    assert_eq!(defaults[1].name, "Example Gamepass");
    assert_eq!(defaults[1].description, "Example gamepass's description");
    assert_eq!(defaults[1].product_type, "Gamepass");
    assert_eq!(defaults[1].image, "assets/gamepasses/example.png");
    assert_eq!(defaults[1].price, 499);
    assert!(!defaults[1].regional_pricing);
    assert_eq!(defaults[1].id, 0);
}

#[test]
fn a_copy_of_an_entry_has_the_same_fields() {
    let mut entry = sword();
    entry.id = 9;
    let copy = entry.clone();
    assert_eq!(copy.name, entry.name);
    assert_eq!(copy.description, entry.description);
    assert_eq!(copy.product_type, entry.product_type);
    assert_eq!(copy.image, entry.image);
    assert_eq!(copy.price, entry.price);
    assert_eq!(copy.regional_pricing, entry.regional_pricing);
    assert_eq!(copy.id, 9);
}
