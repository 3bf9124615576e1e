use demo_service::application::ports::RepositoryError;
use demo_service::application::use_cases::ProductService;
use demo_service::domain::product::{CreateProductRequest, Product, UpdateProductRequest};
use demo_service::domain::timestamp::Timestamp;
use demo_service::domain::value_objects::{PriceRange, PriceValue};
use demo_service::infrastructure::database::{deletion_found, product_to_row, row_to_product, rows_to_products};
use demo_service::infrastructure::web::{
    create_product_status, delete_product_status, get_all_products_status, get_product_status,
    update_product_status,
};

fn price(v: f64) -> PriceValue {
    let range = if v < 0.0 {
        PriceRange::Negative
    } else if v > 999999.99 {
        PriceRange::AboveMaximum
    } else {
        PriceRange::Allowed
    };
    PriceValue { bits: v.to_bits(), range }
}

fn request(p: f64) -> CreateProductRequest {
    CreateProductRequest {
        name: "Item".to_string(),
        description: "Desc".to_string(),
        price: price(p),
        category: "Cat".to_string(),
    }
}

#[test]
fn create_product_builds_product() {
    let service = ProductService::new();
    let now = Timestamp::from_unix(1704164645, 9).unwrap();
    let p = service.create_product(request(9.5), now).unwrap();
    assert_eq!((p.created_at.seconds(), p.created_at.nanos()), (1704164645, 9));
    assert_eq!((p.updated_at.seconds(), p.updated_at.nanos()), (1704164645, 9));
    assert_eq!(p.name, "Item");
    assert_eq!(p.description, "Desc");
    assert_eq!(f64::from_bits(p.price.value().bits), 9.5);
    assert_eq!(p.category, "Cat");
    assert_eq!(p.created_at.seconds(), p.updated_at.seconds());
}

#[test]
fn create_product_refuses_negative_price() {
    let service = ProductService::new();
    match service.create_product(request(-1.0), Timestamp::now()) {
        Err(RepositoryError::InvalidInput(m)) => assert_eq!(m, "Price cannot be negative"),
        other => panic!("unexpected {:?}", other),
    }
}

#[test]
fn create_product_skips_other_validation() {
    // the use case checks the price only, as `Price::new` does
    let service = ProductService::new();
    let mut r = request(2_000_000.0);
    r.name = String::new();
    assert!(service.create_product(r, Timestamp::now()).is_ok());
}

#[test]
fn update_product_missing() {
    let service = ProductService::new();
    let r = UpdateProductRequest { name: Some("x".to_string()), description: None, price: None, category: None };
    assert!(matches!(service.update_product(None, r, Timestamp::now()), Ok(None)));
}

#[test]
fn update_product_applies_fields() {
    let service = ProductService::new();
    let before = service.create_product(request(9.5), Timestamp::now()).unwrap();
    let r = UpdateProductRequest {
        name: Some("Item2".to_string()),
        description: None,
        price: Some(price(11.0)),
        category: Some("Cat2".to_string()),
    };
    let stamp = Timestamp::from_unix(2_000_000_000, 42).unwrap();
    let after = service.update_product(Some(before.clone()), r, stamp).unwrap().unwrap();
    assert_eq!((after.updated_at.seconds(), after.updated_at.nanos()), (2_000_000_000, 42));
    assert_eq!(after.id, before.id);
    assert_eq!(after.name, "Item2");
    assert_eq!(after.description, "Desc");
    assert_eq!(f64::from_bits(after.price.value().bits), 11.0);
    assert_eq!(after.category, "Cat2");
    assert_eq!(after.created_at.seconds(), before.created_at.seconds());
}

#[test]
fn update_product_refuses_negative_price() {
    let service = ProductService::new();
    let before = service.create_product(request(9.5), Timestamp::now()).unwrap();
    let r = UpdateProductRequest { name: Some("x".to_string()), description: None, price: Some(price(-3.0)), category: None };
    match service.update_product(Some(before), r, Timestamp::now()) {
        Err(RepositoryError::InvalidInput(m)) => assert_eq!(m, "Price cannot be negative"),
        other => panic!("unexpected {:?}", other),
    }
}

#[test]
fn update_product_empty_request_changes_nothing() {
    let service = ProductService::new();
    let before = service.create_product(request(9.5), Timestamp::now()).unwrap();
    let r = UpdateProductRequest { name: None, description: None, price: None, category: None };
    let after = service.update_product(Some(before.clone()), r, Timestamp::now()).unwrap().unwrap();
    assert_eq!(after.name, before.name);
    assert_eq!(after.updated_at.seconds(), before.updated_at.seconds());
    assert_eq!(after.updated_at.nanos(), before.updated_at.nanos());
}

#[test]
fn update_twice_same_fields() {
    let service = ProductService::new();
    let before = service.create_product(request(9.5), Timestamp::now()).unwrap();
    let r = || UpdateProductRequest { name: Some("N".to_string()), description: None, price: None, category: None };
    let once = service.update_product(Some(before), r(), Timestamp::now()).unwrap().unwrap();
    let twice = service.update_product(Some(once.clone()), r(), Timestamp::now()).unwrap().unwrap();
    assert_eq!(once.name, twice.name);
    assert_eq!(once.id, twice.id);
}

#[test]
fn list_empty() {
    // an empty table gives no rows
    let listed = rows_to_products(&Vec::new());
    assert_eq!(get_all_products_status(&listed), 200);
    assert!(listed.unwrap().is_empty());
}

#[test]
fn create_get_update_delete_flow() {
    let service = ProductService::new();
    // create
    let created = service.create_product(request(9.5), Timestamp::now());
    assert_eq!(create_product_status(&created), 201);
    let created = created.unwrap();
    let stored = product_to_row(&created);
    // get
    let found = row_to_product(&stored).unwrap();
    assert_eq!(get_product_status(&Ok(Some(found.clone()))), 200);
    assert_eq!(found.id, created.id);
    // update
    let r = UpdateProductRequest {
        name: Some("Item2".to_string()),
        description: None,
        price: Some(price(11.0)),
        category: Some("Cat2".to_string()),
    };
    let updated = service.update_product(Some(found), r, Timestamp::now());
    assert_eq!(update_product_status(&updated), 200);
    let updated = updated.unwrap().unwrap();
    assert_eq!(updated.name, "Item2");
    assert_eq!(f64::from_bits(updated.price.value().bits), 11.0);
    assert_eq!(updated.category, "Cat2");
    // delete
    assert_eq!(delete_product_status(&Ok(true)), 204);
    // get 404
    assert_eq!(get_product_status::<Product>(&Ok(None)), 404);
}

#[test]
fn statuses_of_failures() {
    let db = || RepositoryError::DatabaseError("down".to_string());
    assert_eq!(get_all_products_status::<Product>(&Err(db())), 500);
    assert_eq!(create_product_status::<Product>(&Err(RepositoryError::InvalidInput("x".to_string()))), 400);
    assert_eq!(create_product_status::<Product>(&Err(db())), 500);
    assert_eq!(create_product_status::<Product>(&Err(RepositoryError::NotFound)), 500);
    assert_eq!(get_product_status::<Product>(&Err(db())), 500);
    assert_eq!(update_product_status::<Product>(&Ok(None)), 404);
    assert_eq!(update_product_status::<Product>(&Err(RepositoryError::InvalidInput("x".to_string()))), 400);
    assert_eq!(update_product_status::<Product>(&Err(db())), 500);
    assert_eq!(delete_product_status(&Ok(false)), 404);
    assert_eq!(delete_product_status(&Err(db())), 500);
}
