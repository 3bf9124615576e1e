use vstd::prelude::*;
use vstd::string::*;

use super::ports::RepositoryError;
use crate::domain::product::{CreateProductRequest, Product, UpdateProductRequest};
use crate::domain::timestamp::Timestamp;
use crate::domain::value_objects::{is_random_uuid, negative_price_message, Price};

verus! {

/// Whether `after` is `before` with the changes that `request` names applied:
/// each named field takes the request's value, the others keep theirs, the
/// identity and creation time never change, a request that names nothing
/// leaves the update time alone too, and one that names a field stamps the
/// update time `now`.
pub open spec fn update_applied(
    before: Product,
    request: UpdateProductRequest,
    now: Timestamp,
    after: Product,
) -> bool {
    &&& after.id == before.id
    &&& after.created_at == before.created_at
    &&& after.name == (match request.name {
        Some(name) => name,
        None => before.name,
    })
    &&& after.description == (match request.description {
        Some(description) => description,
        None => before.description,
    })
    &&& after.price == (match request.price {
        Some(value) => Price(value),
        None => before.price,
    })
    &&& after.category == (match request.category {
        Some(category) => category,
        None => before.category,
    })
    &&& request.is_empty() ==> after.updated_at == before.updated_at
    &&& !request.is_empty() ==> after.updated_at == now
}

/// Whether a request asks for a negative price.
pub open spec fn asks_negative_price(request: UpdateProductRequest) -> bool {
    request.price matches Some(value) && value.is_negative()
}

/// Whether `r` is what creating a product from `request` gives: a negative
/// price is refused as invalid input; otherwise the product carries the
/// request's values, a fresh random identifier, and `now` as both its
/// creation and its update time.
pub open spec fn create_outcome(
    request: CreateProductRequest,
    now: Timestamp,
    r: Result<Product, RepositoryError>,
) -> bool {
    if request.price.is_negative() {
        r matches Err(RepositoryError::InvalidInput(m)) && m@ == negative_price_message()
    } else {
        r matches Ok(p) && {
            &&& is_random_uuid(p.id.0)
            &&& p.name == request.name
            &&& p.description == request.description
            &&& p.price == Price(request.price)
            &&& p.category == request.category
            &&& p.created_at == now
            &&& p.updated_at == now
        }
    }
}

/// Whether `r` is what updating the product that the store `found` with
/// `request` gives: nothing when nothing was found, a refusal of a negative
/// price as invalid input, otherwise the product with the request applied.
pub open spec fn update_outcome(
    found: Option<Product>,
    request: UpdateProductRequest,
    now: Timestamp,
    r: Result<Option<Product>, RepositoryError>,
) -> bool {
    match found {
        None => r matches Ok(None),
        Some(before) => if asks_negative_price(request) {
            r matches Err(RepositoryError::InvalidInput(m)) && m@ == negative_price_message()
        } else {
            r matches Ok(Some(after)) && update_applied(before, request, now, after)
        },
    }
}

/// The decisions of the product use cases. Reading and writing the products
/// is left to the caller, which hands over what the store gave back.
pub struct ProductService;

impl ProductService {
    pub fn new() -> Self {
        ProductService
    }

    /// Makes the product that a creation request describes, ready to be stored,
    /// created at `now`, the clock reading that the caller took.
    /// A negative price is refused as invalid input.
    pub fn create_product(&self, request: CreateProductRequest, now: Timestamp) -> (r: Result<
        Product,
        RepositoryError,
    >)
        ensures
            create_outcome(request, now, r),
    {
        let price = match Price::new(request.price) {
            Ok(price) => price,
            Err(e) => return Err(RepositoryError::InvalidInput(e)),
        };
        Ok(Product::new(request.name, request.description, price, request.category, now))
    }

    /// Applies an update request to the product that the store found under the
    /// requested identifier. Gives `None` when none was found, the product to
    /// be stored otherwise, stamped as updated at `now` when a field changes;
    /// a negative price is refused as invalid input.
    pub fn update_product(
        &self,
        found: Option<Product>,
        request: UpdateProductRequest,
        now: Timestamp,
    ) -> (r: Result<Option<Product>, RepositoryError>)
        ensures
            update_outcome(found, request, now, r),
    {
        let mut product = match found {
            Some(product) => product,
            None => return Ok(None),
        };
        if let Some(name) = request.name {
            product.update_name(name, now);
        }
        if let Some(description) = request.description {
            product.update_description(description, now);
        }
        if let Some(value) = request.price {
            let price = match Price::new(value) {
                Ok(price) => price,
                Err(e) => return Err(RepositoryError::InvalidInput(e)),
            };
            product.update_price(price, now);
        }
        if let Some(category) = request.category {
            product.update_category(category, now);
        }
        Ok(Some(product))
    }
}

/// A creation request that passes validation is never refused: its product is made.
pub proof fn lemma_valid_create_request_accepted(
    request: CreateProductRequest,
    now: Timestamp,
    r: Result<Product, RepositoryError>,
)
    requires
        request.errors().len() == 0,
        create_outcome(request, now, r),
    ensures
        r is Ok,
{
    if request.price.is_negative() {
        assert(crate::domain::product::price_errors(request.price).len() == 1);
    }
}

/// An update request that passes validation is never refused: an existing
/// product is updated.
pub proof fn lemma_valid_update_request_accepted(
    before: Product,
    request: UpdateProductRequest,
    now: Timestamp,
    r: Result<Option<Product>, RepositoryError>,
)
    requires
        request.errors().len() == 0,
        update_outcome(Some(before), request, now, r),
    ensures
        r matches Ok(Some(_)),
{
    if asks_negative_price(request) {
        assert(crate::domain::product::price_errors(request.price->0).len() == 1);
    }
}

/// A request that names no field is refused by validation, and applying it
/// would leave the product exactly as it was.
pub proof fn lemma_empty_update(
    before: Product,
    request: UpdateProductRequest,
    now: Timestamp,
    after: Product,
)
    requires
        request.is_empty(),
        update_applied(before, request, now, after),
    ensures
        request.errors().len() > 0,
        after == before,
{
}

/// Applying the same update twice gives the same fields as applying it once;
/// only the update time may move.
pub proof fn lemma_update_repeated(
    before: Product,
    request: UpdateProductRequest,
    first: Timestamp,
    once: Product,
    second: Timestamp,
    twice: Product,
)
    requires
        update_applied(before, request, first, once),
        update_applied(once, request, second, twice),
    ensures
        twice.id == once.id,
        twice.name == once.name,
        twice.description == once.description,
        twice.price == once.price,
        twice.category == once.category,
        twice.created_at == once.created_at,
{
}

/// Creating a product from a request with a price that is not negative gives
/// a product with the request's name, description, price and category, each in
/// the field of the same name, a random version-4 identifier, and the reading
/// `now` as both timestamps; a negative price is refused as invalid input with
/// the message "Price cannot be negative".
pub proof fn lemma_create_law(
    request: CreateProductRequest,
    now: Timestamp,
    r: Result<Product, RepositoryError>,
)
    requires
        create_outcome(request, now, r),
    ensures
        request.price.range == crate::domain::value_objects::PriceRange::Negative ==> (
        r matches Err(e) && e matches RepositoryError::InvalidInput(m) && m@
            == "Price cannot be negative"@),
        request.price.range != crate::domain::value_objects::PriceRange::Negative ==> (
        r matches Ok(p) && {
            &&& p.name == request.name
            &&& p.description == request.description
            &&& p.price.0 == request.price
            &&& p.category == request.category
            &&& p.created_at == now
            &&& p.updated_at == now
            &&& (p.id.0 >> 76u128) & 0xfu128 == 4
        }),
{
}

/// Updating a found product applies the fields the request names and keeps
/// the rest: a named name, description, price or category becomes the
/// request's value, an unnamed one keeps its value, the identifier and the
/// creation time never change, and the update time becomes `now` exactly when
/// the request names a field. Nothing found gives nothing; a negative price is
/// refused as invalid input.
pub proof fn lemma_update_law(
    found: Option<Product>,
    request: UpdateProductRequest,
    now: Timestamp,
    r: Result<Option<Product>, RepositoryError>,
)
    requires
        update_outcome(found, request, now, r),
    ensures
        found is None ==> (r matches Ok(none) && none is None),
        found is Some ==> ((request.price matches Some(v) && v.range
            == crate::domain::value_objects::PriceRange::Negative) ==> (r matches Err(e)
            && e is InvalidInput)),
        found matches Some(before) ==> (r matches Ok(Some(after)) ==> {
            &&& after.id == before.id
            &&& after.created_at == before.created_at
            &&& (request.name matches Some(name) ==> after.name == name)
            &&& (request.name is None ==> after.name == before.name)
            &&& (request.description matches Some(d) ==> after.description == d)
            &&& (request.description is None ==> after.description == before.description)
            &&& (request.price matches Some(v) ==> after.price.0 == v)
            &&& (request.price is None ==> after.price == before.price)
            &&& (request.category matches Some(c) ==> after.category == c)
            &&& (request.category is None ==> after.category == before.category)
            &&& ((request.name is Some || request.description is Some || request.price is Some
                || request.category is Some) ==> after.updated_at == now)
            &&& ((request.name is None && request.description is None && request.price is None
                && request.category is None) ==> after.updated_at == before.updated_at)
        }),
        found is Some ==> (!(request.price matches Some(v) && v.range
            == crate::domain::value_objects::PriceRange::Negative) ==> (r matches Ok(some)
            && some is Some)),
{
}

} // verus!
