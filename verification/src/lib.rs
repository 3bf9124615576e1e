//! A product catalogue service: the rules that decide what is stored and
//! what is answered, with their contracts.

pub mod application;
pub mod domain;
pub mod infrastructure;

use vstd::prelude::*;
use vstd::string::*;

use crate::domain::product::{CreateProductRequest, UpdateProductRequest};
use crate::domain::value_objects::{parsed_uuid, uuid_parse, PriceValue, ProductId};
use crate::application::ports::RepositoryError;
use crate::infrastructure::database::{uuid_message, ProductRow};

verus! {

/// A product as the single-table service keeps it: the price as given and the
/// two timestamps as the store wrote them.
#[derive(Clone, Debug)]
pub struct Product {
    pub id: ProductId,
    pub name: String,
    pub description: String,
    pub price: PriceValue,
    pub category: String,
    pub created_at: String,
    pub updated_at: String,
}

/// Whether `after` is `before` with the fields that `request` names replaced
/// by the request's values; the other fields, the identifier and the
/// timestamps stay as they were.
pub open spec fn changes_applied(before: Product, request: UpdateProductRequest, after: Product) -> bool {
    &&& after.id == before.id
    &&& after.name == (match request.name {
        Some(name) => name,
        None => before.name,
    })
    &&& after.description == (match request.description {
        Some(description) => description,
        None => before.description,
    })
    &&& after.price == (match request.price {
        Some(price) => price,
        None => before.price,
    })
    &&& after.category == (match request.category {
        Some(category) => category,
        None => before.category,
    })
    &&& after.created_at == before.created_at
    &&& after.updated_at == before.updated_at
}

/// Applying a request that names no field changes nothing, and applying the
/// same request twice gives what applying it once gives.
pub proof fn lemma_changes_settle(
    before: Product,
    request: UpdateProductRequest,
    once: Product,
    twice: Product,
)
    requires
        changes_applied(before, request, once),
        changes_applied(once, request, twice),
    ensures
        request.is_empty() ==> once == before,
        twice == once,
{
}

/// Whether `p` is the product that a creation request describes, under the
/// identifier `id` and with the timestamps the store gave it.
pub open spec fn made_from_request(
    id: ProductId,
    request: CreateProductRequest,
    created_at: String,
    updated_at: String,
    p: Product,
) -> bool {
    &&& p.id == id
    &&& p.name == request.name
    &&& p.description == request.description
    &&& p.price == request.price
    &&& p.category == request.category
    &&& p.created_at == created_at
    &&& p.updated_at == updated_at
}

/// A product that the single-table service created reads back as itself when
/// the store gives back the row it wrote: the text of its identifier, the
/// request's values and the timestamps the store reported.
pub proof fn lemma_created_row_reads_back(
    id: ProductId,
    request: CreateProductRequest,
    created_at: String,
    updated_at: String,
    p: Product,
    row: ProductRow,
    r: Result<Product, RepositoryError>,
)
    requires
        made_from_request(id, request, created_at, updated_at, p),
        uuid_parse(row.id@) == parsed_uuid(id.0),
        row.name == request.name,
        row.description == request.description,
        row.price == request.price,
        row.category == request.category,
        row.created_at == created_at,
        row.updated_at == updated_at,
        holds_row(row, r),
    ensures
        r matches Ok(q) && q == p,
{
}

/// Whether `r` is what the single-table service makes of a stored row: the
/// row's values under the identifier its text names, or a failure of the
/// store when that text is no UUID.
pub open spec fn holds_row(row: ProductRow, r: Result<Product, RepositoryError>) -> bool {
    match uuid_parse(row.id@) {
        Err(reason) => r matches Err(RepositoryError::DatabaseError(m)) && m@ == uuid_message(
            reason,
        ),
        Ok(id) => r matches Ok(p) && {
            &&& p.id.0 == id
            &&& p.name == row.name
            &&& p.description == row.description
            &&& p.price == row.price
            &&& p.category == row.category
            &&& p.created_at == row.created_at
            &&& p.updated_at == row.updated_at
        },
    }
}

/// Updating applies the fields a request names and keeps the rest: a named
/// name, description, price or category becomes the request's value, a field
/// the request does not name keeps its value, and the identifier and both
/// timestamps never change.
pub proof fn lemma_apply_update_law(before: Product, request: UpdateProductRequest, after: Product)
    requires
        changes_applied(before, request, after),
    ensures
        request.name matches Some(name) ==> after.name == name,
        request.description matches Some(description) ==> after.description == description,
        request.price matches Some(price) ==> after.price == price,
        request.category matches Some(category) ==> after.category == category,
        request.name is None ==> after.name == before.name,
        request.description is None ==> after.description == before.description,
        request.price is None ==> after.price == before.price,
        request.category is None ==> after.category == before.category,
        after.id == before.id,
        after.created_at == before.created_at,
        after.updated_at == before.updated_at,
{
}

/// A product made from a creation request carries the request's name,
/// description, price and category in the same fields, the identifier it was
/// stored with, and the timestamps the store gave it.
pub proof fn lemma_from_request_law(
    id: ProductId,
    request: CreateProductRequest,
    created_at: String,
    updated_at: String,
    p: Product,
)
    requires
        made_from_request(id, request, created_at, updated_at, p),
    ensures
        p.id == id,
        p.name == request.name,
        p.description == request.description,
        p.price == request.price,
        p.category == request.category,
        p.created_at == created_at,
        p.updated_at == updated_at,
{
}

/// A stored row is read as a product exactly when its identifier column holds
/// a UUID; the product carries that UUID and each of the row's other columns in
/// the field of the same name; otherwise reading it is a failure of the store.
pub proof fn lemma_from_row_law(row: ProductRow, r: Result<Product, RepositoryError>)
    requires
        holds_row(row, r),
    ensures
        r is Ok <==> uuid_parse(row.id@) is Ok,
        r matches Ok(p) ==> {
            &&& uuid_parse(row.id@) == parsed_uuid(p.id.0)
            &&& p.name == row.name
            &&& p.description == row.description
            &&& p.price == row.price
            &&& p.category == row.category
            &&& p.created_at == row.created_at
            &&& p.updated_at == row.updated_at
        },
        r matches Err(e) ==> e is DatabaseError,
{
}

impl Product {
    /// The product that a creation request describes, under the identifier it
    /// was stored with and with the timestamps the store gave it.
    pub fn from_request(
        id: ProductId,
        request: CreateProductRequest,
        created_at: String,
        updated_at: String,
    ) -> (p: Product)
        ensures
            made_from_request(id, request, created_at, updated_at, p),
    {
        Product {
            id,
            name: request.name,
            description: request.description,
            price: request.price,
            category: request.category,
            created_at,
            updated_at,
        }
    }

    /// The product that a stored row holds. A row whose identifier column
    /// does not hold a UUID is a failure of the store.
    pub fn from_row(row: &ProductRow) -> (r: Result<Product, RepositoryError>)
        ensures
            holds_row(*row, r),
    {
        let id = match ProductId::parse(row.id.as_str()) {
            Ok(id) => id,
            Err(reason) => {
                let mut message = String::from_str("Invalid UUID: ");
                message.append(reason.as_str());
                return Err(RepositoryError::DatabaseError(message));
            },
        };
        Ok(
            Product {
                id,
                name: row.name.clone(),
                description: row.description.clone(),
                price: row.price,
                category: row.category.clone(),
                created_at: row.created_at.clone(),
                updated_at: row.updated_at.clone(),
            },
        )
    }

    /// The products that stored rows hold, in the rows' order; the first row
    /// whose identifier is no UUID makes it a failure of the store.
    pub fn from_rows(rows: &Vec<ProductRow>) -> (r: Result<Vec<Product>, RepositoryError>)
        ensures
            match r {
                Ok(products) => products@.len() == rows@.len() && forall|i: int|
                    0 <= i < rows@.len() ==> #[trigger] holds_row(rows@[i], Ok(products@[i])),
                Err(e) => exists|k: int|
                    0 <= k < rows@.len() && (forall|i: int|
                        0 <= i < k ==> #[trigger] uuid_parse(rows@[i].id@) is Ok) && #[trigger] holds_row(
                        rows@[k],
                        Err(e),
                    ),
            },
    {
        let mut products: Vec<Product> = Vec::new();
        let mut i: usize = 0;
        while i < rows.len()
            invariant
                0 <= i <= rows.len(),
                products@.len() == i,
                forall|j: int| 0 <= j < i ==> #[trigger] holds_row(rows@[j], Ok(products@[j])),
            decreases rows.len() - i,
        {
            match Product::from_row(&rows[i]) {
                Ok(p) => products.push(p),
                Err(e) => {
                    assert forall|j: int| 0 <= j < i implies #[trigger] uuid_parse(rows@[j].id@) is Ok by {
                        assert(holds_row(rows@[j], Ok(products@[j])));
                    }
                    assert(holds_row(rows@[i as int], Err(e)));
                    return Err(e);
                },
            }
            i = i + 1;
        }
        Ok(products)
    }

    /// The product with the fields that `request` names replaced by the
    /// request's values; the others, the identifier and the timestamps stay.
    pub fn apply_update(self, request: UpdateProductRequest) -> (p: Product)
        ensures
            changes_applied(self, request, p),
    {
        let mut product = self;
        if let Some(name) = request.name {
            product.name = name;
        }
        if let Some(description) = request.description {
            product.description = description;
        }
        if let Some(price) = request.price {
            product.price = price;
        }
        if let Some(category) = request.category {
            product.category = category;
        }
        product
    }
}

} // verus!
