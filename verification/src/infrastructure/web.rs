use vstd::prelude::*;

use crate::application::ports::RepositoryError;
use crate::application::use_cases::{create_outcome, update_outcome, asks_negative_price};
use crate::domain::product::{CreateProductRequest, Product, UpdateProductRequest};
use crate::domain::timestamp::Timestamp;

verus! {

/// The status that answers a listing: 200 with the products, 500 when the
/// store failed.
pub open spec fn list_status<T>(result: Result<Vec<T>, RepositoryError>) -> u16 {
    match result {
        Ok(_) => 200,
        Err(_) => 500,
    }
}

/// The status that answers a creation: 201 with the product, 400 for invalid
/// input, 500 for any other failure.
pub open spec fn create_status<T>(result: Result<T, RepositoryError>) -> u16 {
    match result {
        Ok(_) => 201,
        Err(RepositoryError::InvalidInput(_)) => 400,
        Err(_) => 500,
    }
}

/// The status that answers a lookup: 200 with the product, 404 when there is
/// none, 500 when the store failed.
pub open spec fn lookup_status<T>(result: Result<Option<T>, RepositoryError>) -> u16 {
    match result {
        Ok(Some(_)) => 200,
        Ok(None) => 404,
        Err(_) => 500,
    }
}

/// The status that answers an update: 200 with the product, 404 when there is
/// none, 400 for invalid input, 500 for any other failure.
pub open spec fn update_status<T>(result: Result<Option<T>, RepositoryError>) -> u16 {
    match result {
        Ok(Some(_)) => 200,
        Ok(None) => 404,
        Err(RepositoryError::InvalidInput(_)) => 400,
        Err(_) => 500,
    }
}

/// The status that answers a deletion: 204 when the product was removed, 404
/// when there was none, 500 when the store failed.
pub open spec fn delete_status(result: Result<bool, RepositoryError>) -> u16 {
    match result {
        Ok(true) => 204,
        Ok(false) => 404,
        Err(_) => 500,
    }
}

/// The status of the answer to `GET /products`.
pub fn get_all_products_status<T>(result: &Result<Vec<T>, RepositoryError>) -> (s: u16)
    ensures
        s == list_status(*result),
{
    match result {
        Ok(_) => 200,
        Err(_) => 500,
    }
}

/// The status of the answer to `POST /products`.
pub fn create_product_status<T>(result: &Result<T, RepositoryError>) -> (s: u16)
    ensures
        s == create_status(*result),
{
    match result {
        Ok(_) => 201,
        Err(RepositoryError::InvalidInput(_)) => 400,
        Err(_) => 500,
    }
}

/// The status of the answer to `GET /products/{id}`.
pub fn get_product_status<T>(result: &Result<Option<T>, RepositoryError>) -> (s: u16)
    ensures
        s == lookup_status(*result),
{
    match result {
        Ok(Some(_)) => 200,
        Ok(None) => 404,
        Err(_) => 500,
    }
}

/// The status of the answer to `PUT /products/{id}`.
pub fn update_product_status<T>(result: &Result<Option<T>, RepositoryError>) -> (s: u16)
    ensures
        s == update_status(*result),
{
    match result {
        Ok(Some(_)) => 200,
        Ok(None) => 404,
        Err(RepositoryError::InvalidInput(_)) => 400,
        Err(_) => 500,
    }
}

/// The status of the answer to `DELETE /products/{id}`.
pub fn delete_product_status(result: &Result<bool, RepositoryError>) -> (s: u16)
    ensures
        s == delete_status(*result),
{
    match result {
        Ok(true) => 204,
        Ok(false) => 404,
        Err(_) => 500,
    }
}

/// A creation request with a negative price is answered 400; any other is
/// answered 201 once the product is stored.
pub proof fn lemma_create_answer(
    request: CreateProductRequest,
    now: Timestamp,
    r: Result<Product, RepositoryError>,
)
    requires
        create_outcome(request, now, r),
    ensures
        request.price.is_negative() ==> create_status(r) == 400,
        !request.price.is_negative() ==> create_status(r) == 201,
{
}

/// An update of a product that does not exist is answered 404; one that asks
/// for a negative price of an existing product is answered 400; any other
/// update of an existing product is answered 200 once it is stored.
pub proof fn lemma_update_answer(
    found: Option<Product>,
    request: UpdateProductRequest,
    now: Timestamp,
    r: Result<Option<Product>, RepositoryError>,
)
    requires
        update_outcome(found, request, now, r),
    ensures
        found is None ==> update_status(r) == 404,
        found is Some && asks_negative_price(request) ==> update_status(r) == 400,
        found is Some && !asks_negative_price(request) ==> update_status(r) == 200,
{
}

/// A deletion that removed a row is answered 204; one that removed none, as
/// a second deletion of the same product does, is answered 404.
pub proof fn lemma_delete_answer(rows_affected: u64, found: bool)
    requires
        found == (rows_affected > 0),
    ensures
        rows_affected > 0 ==> delete_status(Ok::<bool, RepositoryError>(found)) == 204,
        rows_affected == 0 ==> delete_status(Ok::<bool, RepositoryError>(found)) == 404,
{
}

/// The statuses of every answer: a listing is 200, or 500 when the store
/// failed; a creation is 201, 400 for invalid input, 500 for any other
/// failure; a lookup is 200 when found, 404 when not, 500 when the store
/// failed; an update is 200, 404, 400 for invalid input, 500 for any other
/// failure; a deletion is 204 when it removed the product, 404 when there was
/// none, 500 when the store failed.
pub proof fn lemma_status_law<T>(items: Vec<T>, item: T, message: String)
    ensures
        list_status(Ok::<Vec<T>, RepositoryError>(items)) == 200,
        list_status(Err::<Vec<T>, RepositoryError>(RepositoryError::NotFound)) == 500,
        list_status(Err::<Vec<T>, RepositoryError>(RepositoryError::DatabaseError(message))) == 500,
        create_status(Ok::<T, RepositoryError>(item)) == 201,
        create_status(Err::<T, RepositoryError>(RepositoryError::InvalidInput(message))) == 400,
        create_status(Err::<T, RepositoryError>(RepositoryError::DatabaseError(message))) == 500,
        create_status(Err::<T, RepositoryError>(RepositoryError::NotFound)) == 500,
        lookup_status(Ok::<Option<T>, RepositoryError>(Some(item))) == 200,
        lookup_status(Ok::<Option<T>, RepositoryError>(None)) == 404,
        lookup_status(Err::<Option<T>, RepositoryError>(RepositoryError::DatabaseError(message)))
            == 500,
        lookup_status(Err::<Option<T>, RepositoryError>(RepositoryError::InvalidInput(message)))
            == 500,
        update_status(Ok::<Option<T>, RepositoryError>(Some(item))) == 200,
        update_status(Ok::<Option<T>, RepositoryError>(None)) == 404,
        update_status(Err::<Option<T>, RepositoryError>(RepositoryError::InvalidInput(message)))
            == 400,
        update_status(Err::<Option<T>, RepositoryError>(RepositoryError::DatabaseError(message)))
            == 500,
        update_status(Err::<Option<T>, RepositoryError>(RepositoryError::NotFound)) == 500,
        delete_status(Ok::<bool, RepositoryError>(true)) == 204,
        delete_status(Ok::<bool, RepositoryError>(false)) == 404,
        delete_status(Err::<bool, RepositoryError>(RepositoryError::DatabaseError(message))) == 500,
        delete_status(Err::<bool, RepositoryError>(RepositoryError::NotFound)) == 500,
{
}

} // verus!
