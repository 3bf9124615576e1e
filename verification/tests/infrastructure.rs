use demo_service::application::ports::RepositoryError;
use demo_service::domain::product::{CreateProductRequest, UpdateProductRequest};
use demo_service::domain::value_objects::{Price, PriceRange, PriceValue, ProductId};
use demo_service::infrastructure::database::{
    deletion_found, parse_timestamp, product_to_row, row_to_product, rows_to_products, ProductRow,
};
use demo_service::infrastructure::web::{get_all_products_status, get_product_status};
use demo_service::domain::timestamp::Timestamp;
use demo_service::infrastructure::error::{join, AppError, ErrorResponse};
use demo_service::Product;

fn price(v: f64) -> PriceValue {
    let range = if v < 0.0 {
        PriceRange::Negative
    } else if v > 999999.99 {
        PriceRange::AboveMaximum
    } else {
        PriceRange::Allowed
    };
    PriceValue { bits: v.to_bits(), range }
}

fn row(id: &str, p: f64, created: &str, updated: &str) -> ProductRow {
    ProductRow {
        id: id.to_string(),
        name: "Item".to_string(),
        description: "Desc".to_string(),
        price: price(p),
        category: "Cat".to_string(),
        created_at: created.to_string(),
        updated_at: updated.to_string(),
    }
}

const ID: &str = "550e8400-e29b-41d4-a716-446655440000";

#[test]
fn parse_timestamp_both_forms() {
    assert_eq!(parse_timestamp("2024-01-02T03:04:05Z").unwrap().seconds(), 1704164645);
    assert_eq!(parse_timestamp("2024-01-02 03:04:05").unwrap().seconds(), 1704164645);
}

#[test]
fn parse_timestamp_error() {
    match parse_timestamp("yesterday") {
        Err(RepositoryError::DatabaseError(m)) => {
            assert_eq!(m, "Unable to parse timestamp: yesterday")
        }
        other => panic!("unexpected {:?}", other),
    }
}

#[test]
fn row_to_product_reads_row() {
    let p = row_to_product(&row(ID, 9.5, "2024-01-02 03:04:05", "2024-01-03T00:00:00Z")).unwrap();
    assert_eq!(p.id, ProductId(0x550e8400e29b41d4a716446655440000));
    assert_eq!(p.name, "Item");
    assert_eq!(f64::from_bits(p.price.value().bits), 9.5);
    assert_eq!(p.created_at.seconds(), 1704164645);
    assert_eq!(p.updated_at.seconds(), 1704240000);
}

#[test]
fn row_to_product_errors_in_order() {
    match row_to_product(&row("zzz", -1.0, "bad", "bad")) {
        Err(RepositoryError::DatabaseError(m)) => assert!(m.starts_with("Invalid UUID: ")),
        other => panic!("unexpected {:?}", other),
    }
    match row_to_product(&row(ID, -1.0, "bad", "bad")) {
        Err(RepositoryError::InvalidInput(m)) => assert_eq!(m, "Price cannot be negative"),
        other => panic!("unexpected {:?}", other),
    }
    match row_to_product(&row(ID, 1.0, "bad", "worse")) {
        Err(RepositoryError::DatabaseError(m)) => assert_eq!(m, "Unable to parse timestamp: bad"),
        other => panic!("unexpected {:?}", other),
    }
    match row_to_product(&row(ID, 1.0, "2024-01-02 03:04:05", "worse")) {
        Err(RepositoryError::DatabaseError(m)) => assert_eq!(m, "Unable to parse timestamp: worse"),
        other => panic!("unexpected {:?}", other),
    }
}

#[test]
fn product_to_row_writes_columns() {
    let p = row_to_product(&row(ID, 9.5, "2024-01-02 03:04:05", "2024-01-02T03:04:05.75Z")).unwrap();
    let r = product_to_row(&p);
    assert_eq!(r.id, ID);
    assert_eq!(r.name, "Item");
    assert_eq!(r.price, price(9.5));
    assert_eq!(r.created_at, "2024-01-02 03:04:05");
    // the storage pattern keeps whole seconds only
    assert_eq!(r.updated_at, "2024-01-02 03:04:05");
    let back = row_to_product(&r).unwrap();
    assert_eq!(back.id, p.id);
    assert_eq!(back.updated_at.nanos(), 0);
}

#[test]
fn deletion_found_counts_rows() {
    assert!(deletion_found(1));
    assert!(deletion_found(7));
    assert!(!deletion_found(0));
}

#[test]
fn app_error_from_repository_error() {
    assert!(matches!(AppError::from(RepositoryError::NotFound), AppError::NotFound(m) if m == "Resource not found"));
    assert!(matches!(AppError::from(RepositoryError::DatabaseError("x".to_string())), AppError::DatabaseError(m) if m == "x"));
    assert!(matches!(AppError::from(RepositoryError::InvalidInput("y".to_string())), AppError::BadRequest(m) if m == "y"));
}

#[test]
fn app_error_to_string() {
    assert_eq!(AppError::NotFound("p".to_string()).to_string(), "Not found: p");
    assert_eq!(AppError::BadRequest("b".to_string()).to_string(), "Bad request: b");
    assert_eq!(AppError::InternalError("i".to_string()).to_string(), "Internal error: i");
    assert_eq!(AppError::DatabaseError("d".to_string()).to_string(), "Database error: d");
    let v = AppError::ValidationError(vec!["a".to_string(), "b".to_string(), "c".to_string()]);
    assert_eq!(v.to_string(), "Validation error: a, b, c");
    assert_eq!(AppError::ValidationError(vec![]).to_string(), "Validation error: ");
}

#[test]
fn join_texts() {
    assert_eq!(join(&vec![], ", "), "");
    assert_eq!(join(&vec!["one".to_string()], ", "), "one");
    assert_eq!(join(&vec!["a".to_string(), "b".to_string()], "-"), "a-b");
}

#[test]
fn app_error_responses() {
    let r = AppError::NotFound("gone".to_string()).into_response();
    assert_eq!((r.status, r.error.as_str(), r.message.as_str()), (404, "NOT_FOUND", "gone"));
    assert!(r.details.is_none());
    let r = AppError::BadRequest("bad".to_string()).into_response();
    assert_eq!((r.status, r.error.as_str(), r.message.as_str()), (400, "BAD_REQUEST", "bad"));
    let r = AppError::ValidationError(vec!["x".to_string()]).into_response();
    assert_eq!((r.status, r.error.as_str(), r.message.as_str()), (400, "VALIDATION_ERROR", "Input validation failed"));
    assert_eq!(r.details, Some(vec!["x".to_string()]));
    let r = AppError::InternalError("oops".to_string()).into_response();
    assert_eq!((r.status, r.error.as_str(), r.message.as_str()), (500, "INTERNAL_ERROR", "oops"));
    let r = AppError::DatabaseError("locked".to_string()).into_response();
    assert_eq!(
        (r.status, r.error.as_str(), r.message.as_str()),
        (500, "DATABASE_ERROR", "Database operation failed: locked")
    );
    assert!(r.details.is_none());
}

#[test]
fn error_response_builders() {
    let r = ErrorResponse::new(404, "NOT_FOUND".to_string(), "m".to_string());
    assert_eq!(r.status, 404);
    assert!(r.details.is_none());
    let r = r.with_details(vec!["d".to_string()]);
    assert_eq!(r.status, 404);
    assert_eq!(r.error, "NOT_FOUND");
    assert_eq!(r.details, Some(vec!["d".to_string()]));
}

#[test]
fn single_table_product_rows() {
    let p = Product::from_row(&row(ID, 9.5, "2024-01-02 03:04:05", "2024-01-02 03:04:05")).unwrap();
    assert_eq!(p.id, ProductId(0x550e8400e29b41d4a716446655440000));
    assert_eq!(p.created_at, "2024-01-02 03:04:05");
    match Product::from_row(&row("nope", 9.5, "a", "b")) {
        Err(RepositoryError::DatabaseError(m)) => assert!(m.starts_with("Invalid UUID: ")),
        other => panic!("unexpected {:?}", other),
    }
    // the single-table service keeps a negative price as given
    let q = Product::from_row(&row(ID, -2.0, "a", "b")).unwrap();
    assert_eq!(q.price, price(-2.0));
}

#[test]
fn single_table_product_update() {
    let request = CreateProductRequest {
        name: "Item".to_string(),
        description: "Desc".to_string(),
        price: price(9.5),
        category: "Cat".to_string(),
    };
    let id = ProductId::new();
    let p = Product::from_request(id, request, "t0".to_string(), "t0".to_string());
    assert_eq!(p.id, id);
    let u = UpdateProductRequest {
        name: Some("Item2".to_string()),
        description: None,
        price: Some(price(11.0)),
        category: Some("Cat2".to_string()),
    };
    let q = p.apply_update(u);
    assert_eq!(q.name, "Item2");
    assert_eq!(q.description, "Desc");
    assert_eq!(q.price, price(11.0));
    assert_eq!(q.category, "Cat2");
    assert_eq!(q.updated_at, "t0");
    let _ = Price::new(price(1.0));
}

#[test]
fn rows_to_products_in_order() {
    let rows = vec![
        row(ID, 1.0, "2024-01-02 03:04:05", "2024-01-02 03:04:05"),
        row("00000000-0000-0000-0000-000000000001", 2.0, "2024-01-02T03:04:05Z", "2024-01-02 03:04:06"),
    ];
    let products = rows_to_products(&rows).unwrap();
    assert_eq!(products.len(), 2);
    assert_eq!(products[1].id, ProductId(1));
    assert_eq!(products[1].updated_at.seconds(), 1704164646);
    assert!(rows_to_products(&vec![]).unwrap().is_empty());
}

#[test]
fn rows_to_products_first_error() {
    let rows = vec![
        row(ID, 1.0, "2024-01-02 03:04:05", "2024-01-02 03:04:05"),
        row(ID, -1.0, "2024-01-02 03:04:05", "2024-01-02 03:04:05"),
        row("bad", 1.0, "x", "y"),
    ];
    match rows_to_products(&rows) {
        Err(RepositoryError::InvalidInput(m)) => assert_eq!(m, "Price cannot be negative"),
        other => panic!("unexpected {:?}", other),
    }
}

#[test]
fn single_table_listing() {
    let rows = vec![row(ID, 1.0, "a", "b"), row("nope", 2.0, "c", "d")];
    let listed = Product::from_rows(&rows);
    assert_eq!(get_all_products_status(&listed), 500);
    let listed = Product::from_rows(&rows[..1].to_vec());
    assert_eq!(get_all_products_status(&listed), 200);
    assert_eq!(listed.unwrap()[0].created_at, "a");
    let found: Result<Option<Product>, RepositoryError> = Product::from_row(&rows[1]).map(Some);
    assert_eq!(get_product_status(&found), 500);
}

#[test]
fn rfc3339_text_reads_back() {
    for (seconds, nanos) in [(0i64, 0u32), (1704164645, 500_000_000), (-1, 123_456_789), (-62167219200, 1), (253402300799, 999_999_999)] {
        let t = Timestamp::from_unix(seconds, nanos).unwrap();
        let text = t.to_rfc3339();
        let back = parse_timestamp(&text).unwrap();
        assert_eq!((back.seconds(), back.nanos()), (seconds, nanos), "{}", text);
    }
}
