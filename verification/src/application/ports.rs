use vstd::prelude::*;

verus! {

/// What can go wrong when products are read or written.
#[derive(Clone, Debug)]
pub enum RepositoryError {
    NotFound,
    DatabaseError(String),
    InvalidInput(String),
}

} // verus!
