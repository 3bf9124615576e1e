use vstd::prelude::*;
use vstd::string::*;

use crate::application::ports::RepositoryError;
use crate::domain::product::Product;
use crate::domain::timestamp::{
    formatted_instant,
    in_four_digit_years,
    instant_at,
    naive_instant,
    rfc3339_instant,
    rfc3339_written,
    storage_pattern,
    whole_second,
    Timestamp,
};
use crate::application::use_cases::create_outcome;
use crate::domain::product::CreateProductRequest;
use crate::domain::value_objects::{
    hyphenated,
    negative_price_message,
    parsed_uuid,
    uuid_parse,
    Price,
    PriceValue,
    ProductId,
};

verus! {

/// The columns of one stored product, as the store hands them over.
#[derive(Clone, Debug)]
pub struct ProductRow {
    pub id: String,
    pub name: String,
    pub description: String,
    pub price: PriceValue,
    pub category: String,
    pub created_at: String,
    pub updated_at: String,
}

/// The instant a stored timestamp text stands for: read as RFC 3339 when it
/// is one, otherwise in the storage pattern.
pub open spec fn timestamp_reading(s: Seq<char>) -> Option<(i64, u32)> {
    match rfc3339_instant(s) {
        Some(t) => Some(t),
        None => naive_instant(s, storage_pattern()),
    }
}

/// The message given for a timestamp text that cannot be read.
pub open spec fn timestamp_message(s: Seq<char>) -> Seq<char> {
    "Unable to parse timestamp: "@ + s
}

/// The message given for an identifier text that cannot be read.
pub open spec fn uuid_message(reason: Seq<char>) -> Seq<char> {
    "Invalid UUID: "@ + reason
}

/// Whether `r` is what reading the stored timestamp text `s` gives: the
/// instant it stands for, or a database error naming the text.
pub open spec fn timestamp_read(s: Seq<char>, r: Result<Timestamp, RepositoryError>) -> bool {
    match r {
        Ok(t) => timestamp_reading(s) == Some(t@),
        Err(e) => timestamp_reading(s) is None && (e matches RepositoryError::DatabaseError(m)
            && m@ == timestamp_message(s)),
    }
}

/// Reads a stored timestamp: first as RFC 3339, then in the storage pattern.
pub fn parse_timestamp(s: &str) -> (r: Result<Timestamp, RepositoryError>)
    ensures
        timestamp_read(s@, r),
{
    if let Some(t) = Timestamp::parse_rfc3339(s) {
        return Ok(t);
    }
    if let Some(t) = Timestamp::parse_storage(s) {
        return Ok(t);
    }
    let mut message = String::from_str("Unable to parse timestamp: ");
    message.append(s);
    Err(RepositoryError::DatabaseError(message))
}

/// Whether `r` is what `row_to_product` makes of `row`: the identifier, the
/// price and the two timestamps are read in that order, and the first that
/// cannot be read decides the error; otherwise the product carries the row's
/// values.
pub open spec fn read_as(row: ProductRow, r: Result<Product, RepositoryError>) -> bool {
    match uuid_parse(row.id@) {
        Err(reason) => r matches Err(RepositoryError::DatabaseError(m)) && m@ == uuid_message(
            reason,
        ),
        Ok(id) => if row.price.is_negative() {
            r matches Err(RepositoryError::InvalidInput(m)) && m@ == negative_price_message()
        } else if timestamp_reading(row.created_at@) is None {
            r matches Err(RepositoryError::DatabaseError(m)) && m@ == timestamp_message(
                row.created_at@,
            )
        } else if timestamp_reading(row.updated_at@) is None {
            r matches Err(RepositoryError::DatabaseError(m)) && m@ == timestamp_message(
                row.updated_at@,
            )
        } else {
            r matches Ok(p) && {
                &&& p.id.0 == id
                &&& p.name == row.name
                &&& p.description == row.description
                &&& p.price == Price(row.price)
                &&& p.category == row.category
                &&& Some(p.created_at@) == timestamp_reading(row.created_at@)
                &&& Some(p.updated_at@) == timestamp_reading(row.updated_at@)
            }
        },
    }
}

/// Makes a product of a stored row.
pub fn row_to_product(row: &ProductRow) -> (r: Result<Product, RepositoryError>)
    ensures
        read_as(*row, r),
{
    let id = match ProductId::parse(row.id.as_str()) {
        Ok(id) => id,
        Err(reason) => {
            let mut message = String::from_str("Invalid UUID: ");
            message.append(reason.as_str());
            return Err(RepositoryError::DatabaseError(message));
        },
    };
    let price = match Price::new(row.price) {
        Ok(price) => price,
        Err(e) => return Err(RepositoryError::InvalidInput(e)),
    };
    let created_at = match parse_timestamp(row.created_at.as_str()) {
        Ok(t) => t,
        Err(e) => return Err(e),
    };
    let updated_at = match parse_timestamp(row.updated_at.as_str()) {
        Ok(t) => t,
        Err(e) => return Err(e),
    };
    Ok(
        Product {
            id,
            name: row.name.clone(),
            description: row.description.clone(),
            price,
            category: row.category.clone(),
            created_at,
            updated_at,
        },
    )
}

/// Whether a row reads as a product, with no error.
pub open spec fn reads_whole(row: ProductRow) -> bool {
    &&& uuid_parse(row.id@) is Ok
    &&& !row.price.is_negative()
    &&& timestamp_reading(row.created_at@) is Some
    &&& timestamp_reading(row.updated_at@) is Some
}

/// Whether `r` is what `rows_to_products` makes of `rows`: each row read in
/// turn, the products in the rows' order when every row reads, otherwise the
/// error of the first row that does not.
pub open spec fn all_read_as(rows: Seq<ProductRow>, r: Result<Vec<Product>, RepositoryError>) -> bool {
    match r {
        Ok(products) => products@.len() == rows.len() && forall|i: int|
            0 <= i < rows.len() ==> #[trigger] read_as(rows[i], Ok(products@[i])),
        Err(e) => exists|k: int|
            0 <= k < rows.len() && (forall|i: int| 0 <= i < k ==> #[trigger] reads_whole(rows[i]))
                && #[trigger] read_as(rows[k], Err(e)),
    }
}

/// Makes products of stored rows, stopping at the first row that cannot be read.
pub fn rows_to_products(rows: &Vec<ProductRow>) -> (r: Result<Vec<Product>, RepositoryError>)
    ensures
        all_read_as(rows@, r),
{
    let mut products: Vec<Product> = Vec::new();
    let mut i: usize = 0;
    while i < rows.len()
        invariant
            0 <= i <= rows.len(),
            products@.len() == i,
            forall|j: int| 0 <= j < i ==> #[trigger] read_as(rows@[j], Ok(products@[j])),
        decreases rows.len() - i,
    {
        match row_to_product(&rows[i]) {
            Ok(p) => products.push(p),
            Err(e) => {
                assert forall|j: int| 0 <= j < i implies #[trigger] reads_whole(rows@[j]) by {
                    assert(read_as(rows@[j], Ok(products@[j])));
                }
                assert(read_as(rows@[i as int], Err(e)));
                return Err(e);
            },
        }
        i = i + 1;
    }
    Ok(products)
}

/// Whether `row` is what `product_to_row` writes of `p`: the identifier's
/// hyphenated text, the same texts and price, and both timestamps in the
/// storage pattern.
pub open spec fn stored_as(p: Product, row: ProductRow) -> bool {
    &&& row.id@ == hyphenated(p.id.0)
    &&& uuid_parse(row.id@) == parsed_uuid(p.id.0)
    &&& row.name == p.name
    &&& row.description == p.description
    &&& row.price == p.price.0
    &&& row.category == p.category
    &&& row.created_at@ == formatted_instant(
        p.created_at@.0,
        p.created_at@.1,
        storage_pattern(),
    )
    &&& row.updated_at@ == formatted_instant(
        p.updated_at@.0,
        p.updated_at@.1,
        storage_pattern(),
    )
    &&& p.created_at@.1 < 1_000_000_000 ==> timestamp_reading(row.created_at@) == whole_second(
        p.created_at@.0,
    )
    &&& p.updated_at@.1 < 1_000_000_000 ==> timestamp_reading(row.updated_at@) == whole_second(
        p.updated_at@.0,
    )
}

/// The columns that storing a product writes.
pub fn product_to_row(p: &Product) -> (row: ProductRow)
    ensures
        stored_as(*p, row),
{
    ProductRow {
        id: p.id.to_string(),
        name: p.name.clone(),
        description: p.description.clone(),
        price: p.price.value(),
        category: p.category.clone(),
        created_at: p.created_at.to_storage(),
        updated_at: p.updated_at.to_storage(),
    }
}

/// A deletion found its product when it removed at least one row.
pub fn deletion_found(rows_affected: u64) -> (found: bool)
    ensures
        found == (rows_affected > 0),
{
    rows_affected > 0
}

/// A stored product reads back as itself, its timestamps cut to the second:
/// storing and then reading a product whose price is not negative and whose
/// timestamps are no leap seconds always succeeds.
pub proof fn lemma_stored_product_reads_back(
    p: Product,
    row: ProductRow,
    r: Result<Product, RepositoryError>,
)
    requires
        stored_as(p, row),
        read_as(row, r),
        !p.price.0.is_negative(),
        p.created_at@.1 < 1_000_000_000,
        p.updated_at@.1 < 1_000_000_000,
    ensures
        r matches Ok(q) && {
            &&& q.id == p.id
            &&& q.name == p.name
            &&& q.description == p.description
            &&& q.price == p.price
            &&& q.category == p.category
            &&& q.created_at@ == (p.created_at@.0, 0u32)
            &&& q.updated_at@ == (p.updated_at@.0, 0u32)
        },
{
}

/// A timestamp written in the storage pattern reads back as the start of its
/// second, unless it is a leap second.
pub proof fn lemma_storage_text_reads_back(
    t: Timestamp,
    text: Seq<char>,
    r: Result<Timestamp, RepositoryError>,
)
    requires
        text == formatted_instant(t@.0, t@.1, storage_pattern()),
        t@.1 < 1_000_000_000 ==> naive_instant(text, storage_pattern()) == whole_second(t@.0),
        rfc3339_instant(text) is None,
        timestamp_read(text, r),
        t@.1 < 1_000_000_000,
    ensures
        r matches Ok(u) && u@ == (t@.0, 0u32),
{
}

/// A timestamp of the years 0 to 9999 written as RFC 3339 text reads back as
/// itself, unless it is a leap second.
pub proof fn lemma_rfc3339_text_reads_back(
    t: Timestamp,
    text: Seq<char>,
    r: Result<Timestamp, RepositoryError>,
)
    requires
        text == rfc3339_written(t@.0, t@.1),
        in_four_digit_years(t@.0) && t@.1 < 1_000_000_000 ==> rfc3339_instant(text) == instant_at(
            t@.0,
            t@.1,
        ),
        timestamp_read(text, r),
        in_four_digit_years(t@.0),
        t@.1 < 1_000_000_000,
    ensures
        r matches Ok(u) && u@ == t@,
{
}

/// A product just created at a clock reading (which is never a leap second),
/// stored and read back is the same product, its timestamps cut to the second.
pub proof fn lemma_created_product_reads_back(
    request: CreateProductRequest,
    now: Timestamp,
    created: Result<Product, RepositoryError>,
    row: ProductRow,
    r: Result<Product, RepositoryError>,
)
    requires
        create_outcome(request, now, created),
        now@.1 < 1_000_000_000,
        created is Ok,
        stored_as(created->Ok_0, row),
        read_as(row, r),
    ensures
        r matches Ok(q) && {
            let p = created->Ok_0;
            &&& q.id == p.id
            &&& q.name == p.name
            &&& q.description == p.description
            &&& q.price == p.price
            &&& q.category == p.category
            &&& q.created_at@ == (p.created_at@.0, 0u32)
            &&& q.updated_at@ == (p.created_at@.0, 0u32)
        },
{
    let p = created->Ok_0;
    lemma_stored_product_reads_back(p, row, r);
}

/// A row is read column by column: when it reads, the product's identifier is
/// the UUID in the id column, and its name, description, category and price
/// are those columns of the row, each in the field of the same name; its
/// timestamps are what the two timestamp columns stand for. The row fails on
/// its identifier first, then a negative price, then each timestamp.
pub proof fn lemma_row_columns_law(row: ProductRow, r: Result<Product, RepositoryError>)
    requires
        read_as(row, r),
    ensures
        r matches Ok(p) ==> {
            &&& uuid_parse(row.id@) == parsed_uuid(p.id.0)
            &&& p.name == row.name
            &&& p.description == row.description
            &&& p.category == row.category
            &&& p.price.0 == row.price
            &&& timestamp_reading(row.created_at@) == Some(p.created_at@)
            &&& timestamp_reading(row.updated_at@) == Some(p.updated_at@)
        },
        r is Ok <==> {
            &&& uuid_parse(row.id@) is Ok
            &&& !row.price.is_negative()
            &&& timestamp_reading(row.created_at@) is Some
            &&& timestamp_reading(row.updated_at@) is Some
        },
        uuid_parse(row.id@) is Err ==> (r matches Err(e) && e is DatabaseError),
        uuid_parse(row.id@) is Ok && row.price.is_negative() ==> (r matches Err(e)
            && e is InvalidInput),
{
}

/// Storing a product writes each field into the column of the same name: the
/// identifier's text in the id column, the name, description, price and
/// category as they are, and the two timestamps in the storage pattern.
pub proof fn lemma_stored_columns_law(p: Product, row: ProductRow)
    requires
        stored_as(p, row),
    ensures
        row.id@ == hyphenated(p.id.0),
        row.name == p.name,
        row.description == p.description,
        row.category == p.category,
        row.price == p.price.0,
        row.created_at@ == formatted_instant(p.created_at@.0, p.created_at@.1, storage_pattern()),
        row.updated_at@ == formatted_instant(p.updated_at@.0, p.updated_at@.1, storage_pattern()),
{
}

/// A stored timestamp text is read as RFC 3339 when it is one, and otherwise
/// in the storage pattern; a text that is neither is refused with a message
/// that names it.
pub proof fn lemma_timestamp_read_law(s: Seq<char>, r: Result<Timestamp, RepositoryError>)
    requires
        timestamp_read(s, r),
    ensures
        rfc3339_instant(s) matches Some(t) ==> (r matches Ok(u) && u@ == t),
        rfc3339_instant(s) is None ==> (naive_instant(s, storage_pattern()) matches Some(t) ==> (
        r matches Ok(u) && u@ == t)),
        rfc3339_instant(s) is None && naive_instant(s, storage_pattern()) is None ==> (
        r matches Err(e) && e matches RepositoryError::DatabaseError(m) && m@ == "Unable to parse timestamp: "@
            + s),
{
}

/// Reading a list of rows that all read gives one product per row, in the
/// rows' order, each carrying its own row's columns.
pub proof fn lemma_rows_law(rows: Seq<ProductRow>, r: Result<Vec<Product>, RepositoryError>)
    requires
        all_read_as(rows, r),
    ensures
        r matches Ok(products) ==> {
            &&& products@.len() == rows.len()
            &&& forall|i: int|
                0 <= i < rows.len() ==> {
                    &&& uuid_parse(rows[i].id@) == parsed_uuid(#[trigger] products@[i].id.0)
                    &&& products@[i].name == rows[i].name
                    &&& products@[i].description == rows[i].description
                    &&& products@[i].category == rows[i].category
                    &&& products@[i].price.0 == rows[i].price
                }
        },
{
    if let Ok(products) = r {
        assert forall|i: int| 0 <= i < rows.len() implies {
            &&& uuid_parse(rows[i].id@) == parsed_uuid(#[trigger] products@[i].id.0)
            &&& products@[i].name == rows[i].name
            &&& products@[i].description == rows[i].description
            &&& products@[i].category == rows[i].category
            &&& products@[i].price.0 == rows[i].price
        } by {
            assert(read_as(rows[i], Ok(products@[i])));
            lemma_row_columns_law(rows[i], Ok(products@[i]));
        }
    }
}

/// When reading a list of rows fails, the error is that of a row that does
/// not read, and every row before it has a UUID and a price that is not
/// negative.
pub proof fn lemma_rows_failure_law(
    rows: Seq<ProductRow>,
    e: RepositoryError,
) -> (k: int)
    requires
        all_read_as(rows, Err(e)),
    ensures
        0 <= k < rows.len(),
        read_as(rows[k], Err(e)),
        !(uuid_parse(rows[k].id@) is Ok && !rows[k].price.is_negative() && timestamp_reading(
            rows[k].created_at@,
        ) is Some && timestamp_reading(rows[k].updated_at@) is Some),
        forall|i: int|
            0 <= i < k ==> uuid_parse(#[trigger] rows[i].id@) is Ok && !rows[i].price.is_negative(),
{
    let k = choose|k: int|
        0 <= k < rows.len() && (forall|i: int| 0 <= i < k ==> #[trigger] reads_whole(rows[i]))
            && #[trigger] read_as(rows[k], Err(e));
    lemma_row_columns_law(rows[k], Err(e));
    assert forall|i: int| 0 <= i < k implies uuid_parse(#[trigger] rows[i].id@) is Ok
        && !rows[i].price.is_negative() by {
        assert(reads_whole(rows[i]));
    }
    k
}

} // verus!
