use demo_service::domain::product::{CreateProductRequest, Product, UpdateProductRequest};
use demo_service::domain::timestamp::Timestamp;
use demo_service::domain::value_objects::{Price, PriceRange, PriceValue, ProductId};

fn price(v: f64) -> PriceValue {
    let range = if v < 0.0 {
        PriceRange::Negative
    } else if v > 999999.99 {
        PriceRange::AboveMaximum
    } else {
        PriceRange::Allowed
    };
    PriceValue { bits: v.to_bits(), range }
}

fn create(name: &str, description: &str, p: f64, category: &str) -> CreateProductRequest {
    CreateProductRequest {
        name: name.to_string(),
        description: description.to_string(),
        price: price(p),
        category: category.to_string(),
    }
}

fn empty_update() -> UpdateProductRequest {
    UpdateProductRequest { name: None, description: None, price: None, category: None }
}

#[test]
fn create_request_valid() {
    assert!(create("Item", "Desc", 9.5, "Cat").validate().is_ok());
}

#[test]
fn create_request_boundaries_accepted() {
    let name = "n".repeat(100);
    let description = "d".repeat(500);
    let category = "c".repeat(50);
    assert!(create(&name, &description, 999999.99, &category).validate().is_ok());
    assert!(create("x", "y", 0.0, "z").validate().is_ok());
    assert!(create("x", "y", -0.0, "z").validate().is_ok());
}

#[test]
fn create_request_nan_price_passes() {
    assert!(create("x", "y", f64::NAN, "z").validate().is_ok());
}

#[test]
fn create_request_blank_fields() {
    let errors = create("   ", "\t\n", 1.0, "\u{3000}").validate().unwrap_err();
    assert_eq!(
        errors,
        vec![
            "Name cannot be empty".to_string(),
            "Description cannot be empty".to_string(),
            "Category cannot be empty".to_string(),
        ]
    );
}

#[test]
fn create_request_empty_strings() {
    let errors = create("", "", 1.0, "").validate().unwrap_err();
    assert_eq!(errors.len(), 3);
    assert_eq!(errors[0], "Name cannot be empty");
}

#[test]
fn create_request_too_long() {
    let errors = create(&"n".repeat(101), &"d".repeat(501), 1.0, &"c".repeat(51))
        .validate()
        .unwrap_err();
    assert_eq!(
        errors,
        vec![
            "Name cannot exceed 100 characters".to_string(),
            "Description cannot exceed 500 characters".to_string(),
            "Category cannot exceed 50 characters".to_string(),
        ]
    );
}

#[test]
fn create_request_length_counts_bytes() {
    // 51 characters of two bytes each: 102 bytes.
    let name = "é".repeat(51);
    let errors = create(&name, "d", 1.0, "c").validate().unwrap_err();
    assert_eq!(errors, vec!["Name cannot exceed 100 characters".to_string()]);
    // 26 characters of two bytes each: 52 bytes.
    let errors = create("n", "d", 1.0, &"é".repeat(26)).validate().unwrap_err();
    assert_eq!(errors, vec!["Category cannot exceed 50 characters".to_string()]);
}

#[test]
fn create_request_blank_and_long() {
    let errors = create(&" ".repeat(101), "d", 1.0, "c").validate().unwrap_err();
    assert_eq!(
        errors,
        vec![
            "Name cannot be empty".to_string(),
            "Name cannot exceed 100 characters".to_string(),
        ]
    );
}

#[test]
fn create_request_price_errors() {
    let errors = create("x", "y", -0.01, "z").validate().unwrap_err();
    assert_eq!(errors, vec!["Price cannot be negative".to_string()]);
    let errors = create("x", "y", 1_000_000.0, "z").validate().unwrap_err();
    assert_eq!(errors, vec!["Price cannot exceed 999,999.99".to_string()]);
}

#[test]
fn create_request_all_errors_in_order() {
    let errors = create("", &"d".repeat(501), -1.0, "").validate().unwrap_err();
    assert_eq!(
        errors,
        vec![
            "Name cannot be empty".to_string(),
            "Description cannot exceed 500 characters".to_string(),
            "Price cannot be negative".to_string(),
            "Category cannot be empty".to_string(),
        ]
    );
}

#[test]
fn update_request_needs_a_field() {
    let errors = empty_update().validate().unwrap_err();
    assert_eq!(errors, vec!["At least one field must be provided for update".to_string()]);
}

#[test]
fn update_request_single_field() {
    let mut r = empty_update();
    r.name = Some("New".to_string());
    assert!(r.validate().is_ok());
    let mut r = empty_update();
    r.price = Some(price(11.0));
    assert!(r.validate().is_ok());
}

#[test]
fn update_request_field_errors() {
    let r = UpdateProductRequest {
        name: Some(" ".to_string()),
        description: Some("d".repeat(501)),
        price: Some(price(2_000_000.0)),
        category: Some("c".repeat(51)),
    };
    assert_eq!(
        r.validate().unwrap_err(),
        vec![
            "Name cannot be empty".to_string(),
            "Description cannot exceed 500 characters".to_string(),
            "Price cannot exceed 999,999.99".to_string(),
            "Category cannot exceed 50 characters".to_string(),
        ]
    );
}

#[test]
fn update_request_negative_price() {
    let mut r = empty_update();
    r.price = Some(price(-5.0));
    assert_eq!(r.validate().unwrap_err(), vec!["Price cannot be negative".to_string()]);
}

#[test]
fn price_new_rejects_negative() {
    assert_eq!(Price::new(price(-1.0)).unwrap_err(), "Price cannot be negative");
}

#[test]
fn price_new_keeps_value() {
    let v = price(1299.99);
    let p = Price::new(v).unwrap();
    assert_eq!(p.value(), v);
    assert_eq!(f64::from_bits(p.value().bits), 1299.99);
    // a price above the validation maximum is still a price
    assert!(Price::new(price(5_000_000.0)).is_ok());
}

#[test]
fn product_id_text() {
    let id = ProductId::from_uuid(0xa1a2a3a4b1b2c1c2d1d2d3d4d5d6d7d8);
    assert_eq!(id.to_string(), "a1a2a3a4-b1b2-c1c2-d1d2-d3d4d5d6d7d8");
    assert_eq!(ProductId::from_uuid(0).to_string(), "00000000-0000-0000-0000-000000000000");
}

#[test]
fn product_id_parse() {
    let id = ProductId::parse("550e8400-e29b-41d4-a716-446655440000").unwrap();
    assert_eq!(id, ProductId(0x550e8400e29b41d4a716446655440000));
    assert!(ProductId::parse("not a uuid").is_err());
    let fresh = ProductId::new();
    assert_eq!(ProductId::parse(&fresh.to_string()).unwrap(), fresh);
}

#[test]
fn product_id_new_is_random_v4() {
    let a = ProductId::new();
    let b = ProductId::default();
    assert_ne!(a, b);
    assert_eq!((a.0 >> 76) & 0xf, 4);
    assert_eq!((a.0 >> 62) & 0x3, 2);
}

#[test]
fn product_new_sets_fields() {
    let now = Timestamp::from_unix(1704164645, 7).unwrap();
    let p = Product::new(
        "Item".to_string(),
        "Desc".to_string(),
        Price::new(price(9.5)).unwrap(),
        "Cat".to_string(),
        now,
    );
    assert_eq!((p.created_at.seconds(), p.created_at.nanos()), (1704164645, 7));
    assert_eq!(p.name, "Item");
    assert_eq!(p.description, "Desc");
    assert_eq!(p.category, "Cat");
    assert_eq!(p.created_at.seconds(), p.updated_at.seconds());
    assert_eq!(p.created_at.nanos(), p.updated_at.nanos());
}

#[test]
fn product_updates_keep_other_fields() {
    let mut p = Product::new(
        "Item".to_string(),
        "Desc".to_string(),
        Price::new(price(9.5)).unwrap(),
        "Cat".to_string(),
        Timestamp::now(),
    );
    let id = p.id;
    let created = p.created_at.seconds();
    let later = Timestamp::from_unix(created + 60, 5).unwrap();
    p.update_name("Item2".to_string(), later);
    p.update_description("Desc2".to_string(), later);
    p.update_price(Price::new(price(11.0)).unwrap(), later);
    p.update_category("Cat2".to_string(), later);
    assert_eq!(p.id, id);
    assert_eq!(p.name, "Item2");
    assert_eq!(p.description, "Desc2");
    assert_eq!(f64::from_bits(p.price.value().bits), 11.0);
    assert_eq!(p.category, "Cat2");
    assert_eq!(p.created_at.seconds(), created);
    assert_eq!((p.updated_at.seconds(), p.updated_at.nanos()), (created + 60, 5));
}

#[test]
fn timestamp_formats() {
    let t = Timestamp::parse_rfc3339("2024-01-02T03:04:05Z").unwrap();
    assert_eq!(t.seconds(), 1704164645);
    assert_eq!(t.nanos(), 0);
    let t = Timestamp::parse_rfc3339("2024-01-02T05:04:05.5+02:00").unwrap();
    assert_eq!(t.seconds(), 1704164645);
    assert_eq!(t.nanos(), 500_000_000);
    let s = Timestamp::parse_storage("2024-01-02 03:04:05").unwrap();
    assert_eq!(s.seconds(), 1704164645);
    assert_eq!(s.to_storage(), "2024-01-02 03:04:05");
    assert!(Timestamp::parse_storage("2024-01-02T03:04:05Z").is_none());
    assert!(Timestamp::parse_rfc3339("2024-01-02 03:04:05").is_none());
}

#[test]
fn timestamp_from_unix() {
    let t = Timestamp::from_unix(0, 0).unwrap();
    assert_eq!(t.to_storage(), "1970-01-01 00:00:00");
    assert!(Timestamp::from_unix(i64::MAX, 0).is_none());
    assert!(Timestamp::from_unix(0, 2_000_000_000).is_none());
    let now = Timestamp::now();
    assert!(now.seconds() > 1_600_000_000);
}

#[test]
fn storage_text_reads_back_to_the_second() {
    for seconds in [0i64, 1704164645, 253402300800, -62198755200, -1, 86399] {
        let t = Timestamp::from_unix(seconds, 123_456_789).unwrap();
        let text = t.to_storage();
        let back = Timestamp::parse_storage(&text).unwrap();
        assert_eq!((back.seconds(), back.nanos()), (seconds, 0), "{}", text);
        assert!(Timestamp::parse_rfc3339(&text).is_none());
    }
}

#[test]
fn prices_compare_as_f64() {
    let amounts = [0.0, -0.0, 1.5, -1.5, f64::NAN, f64::INFINITY, f64::NEG_INFINITY, 999999.99, f64::MIN_POSITIVE];
    for a in amounts {
        for b in amounts {
            assert_eq!(Price(price(a)) == Price(price(b)), a == b, "{} {}", a, b);
            assert_eq!(price(a) == price(b), a == b, "{} {}", a, b);
        }
    }
}

#[test]
fn clock_is_no_leap_second() {
    let t = Timestamp::now();
    assert!(t.nanos() < 1_000_000_000);
}
