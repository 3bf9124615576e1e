use vstd::prelude::*;
use vstd::string::*;

use crate::application::ports::RepositoryError;

verus! {

/// The body of an error answer.
#[derive(Clone, Debug)]
pub struct ErrorResponse {
    pub status: u16,
    pub error: String,
    pub message: String,
    pub details: Option<Vec<String>>,
}

impl ErrorResponse {
    /// An answer with the given status, kind and message, and no details.
    pub fn new(status: u16, error: String, message: String) -> (r: Self)
        ensures
            r.status == status,
            r.error == error,
            r.message == message,
            r.details is None,
    {
        ErrorResponse { status, error, message, details: None }
    }

    /// The same answer, carrying the given details.
    pub fn with_details(self, details: Vec<String>) -> (r: Self)
        ensures
            r.status == self.status,
            r.error == self.error,
            r.message == self.message,
            r.details == Some(details),
    {
        let mut response = self;
        response.details = Some(details);
        response
    }
}

/// The errors that the service answers with.
#[derive(Clone, Debug)]
pub enum AppError {
    NotFound(String),
    BadRequest(String),
    ValidationError(Vec<String>),
    InternalError(String),
    DatabaseError(String),
}

/// The texts of `items` with `separator` between each two of them.
pub open spec fn joined(items: Seq<Seq<char>>, separator: Seq<char>) -> Seq<char>
    decreases items.len(),
{
    if items.len() == 0 {
        Seq::empty()
    } else if items.len() == 1 {
        items[0]
    } else {
        joined(items.drop_last(), separator) + separator + items.last()
    }
}

/// Joins the texts of `items`, with `separator` between each two of them.
pub fn join(items: &Vec<String>, separator: &str) -> (r: String)
    ensures
        r@ == joined(items.deep_view(), separator@),
{
    let mut result = String::new();
    let ghost all = items.deep_view();
    let mut i: usize = 0;
    while i < items.len()
        invariant
            0 <= i <= items.len(),
            all == items.deep_view(),
            result@ == joined(all.take(i as int), separator@),
        decreases items.len() - i,
    {
        assert(all.take(i + 1).drop_last() =~= all.take(i as int));
        if i > 0 {
            result.append(separator);
        }
        result.append(items[i].as_str());
        i = i + 1;
    }
    assert(all.take(items.len() as int) =~= all);
    result
}

/// What `AppError::to_string` writes of an error.
pub open spec fn describe(e: AppError) -> Seq<char> {
    match e {
        AppError::NotFound(m) => "Not found: "@ + m@,
        AppError::BadRequest(m) => "Bad request: "@ + m@,
        AppError::ValidationError(errors) => "Validation error: "@ + joined(
            errors.deep_view(),
            ", "@,
        ),
        AppError::InternalError(m) => "Internal error: "@ + m@,
        AppError::DatabaseError(m) => "Database error: "@ + m@,
    }
}

/// The HTTP status that answers an error.
pub open spec fn status_of(e: AppError) -> u16 {
    match e {
        AppError::NotFound(_) => 404,
        AppError::BadRequest(_) => 400,
        AppError::ValidationError(_) => 400,
        AppError::InternalError(_) => 500,
        AppError::DatabaseError(_) => 500,
    }
}

/// Whether `r` is the answer to the error `e`: its status, its kind, its
/// message, and for a validation error the list of what failed.
pub open spec fn answers(e: AppError, r: ErrorResponse) -> bool {
    &&& r.status == status_of(e)
    &&& match e {
        AppError::NotFound(m) => r.error@ == "NOT_FOUND"@ && r.message == m && r.details is None,
        AppError::BadRequest(m) => r.error@ == "BAD_REQUEST"@ && r.message == m
            && r.details is None,
        AppError::ValidationError(errors) => r.error@ == "VALIDATION_ERROR"@ && r.message@
            == "Input validation failed"@ && r.details == Some(errors),
        AppError::InternalError(m) => r.error@ == "INTERNAL_ERROR"@ && r.message == m
            && r.details is None,
        AppError::DatabaseError(m) => r.error@ == "DATABASE_ERROR"@ && r.message@
            == "Database operation failed: "@ + m@ && r.details is None,
    }
}

impl AppError {
    /// A readable line naming the kind of error and what it says.
    pub fn to_string(&self) -> (s: String)
        ensures
            s@ == describe(*self),
    {
        let (prefix, text) = match self {
            AppError::NotFound(m) => (String::from_str("Not found: "), m.clone()),
            AppError::BadRequest(m) => (String::from_str("Bad request: "), m.clone()),
            AppError::ValidationError(errors) => (
                String::from_str("Validation error: "),
                join(errors, ", "),
            ),
            AppError::InternalError(m) => (String::from_str("Internal error: "), m.clone()),
            AppError::DatabaseError(m) => (String::from_str("Database error: "), m.clone()),
        };
        let mut s = prefix;
        s.append(text.as_str());
        s
    }

    /// The answer to the error: status, kind, message and details.
    pub fn into_response(self) -> (r: ErrorResponse)
        ensures
            answers(self, r),
    {
        match self {
            AppError::NotFound(m) => ErrorResponse::new(404, String::from_str("NOT_FOUND"), m),
            AppError::BadRequest(m) => ErrorResponse::new(400, String::from_str("BAD_REQUEST"), m),
            AppError::ValidationError(errors) => ErrorResponse::new(
                400,
                String::from_str("VALIDATION_ERROR"),
                String::from_str("Input validation failed"),
            ).with_details(errors),
            AppError::InternalError(m) => ErrorResponse::new(
                500,
                String::from_str("INTERNAL_ERROR"),
                m,
            ),
            AppError::DatabaseError(m) => {
                let mut message = String::from_str("Database operation failed: ");
                message.append(m.as_str());
                ErrorResponse::new(500, String::from_str("DATABASE_ERROR"), message)
            },
        }
    }
}

/// Whether `app` is the error that answers the store's failure `error`: a
/// missing resource is not found, a store failure stays a database error,
/// and invalid input is a bad request.
pub open spec fn converts(error: RepositoryError, app: AppError) -> bool {
    match error {
        RepositoryError::NotFound => app matches AppError::NotFound(m) && m@ == "Resource not found"@,
        RepositoryError::DatabaseError(m) => app == AppError::DatabaseError(m),
        RepositoryError::InvalidInput(m) => app == AppError::BadRequest(m),
    }
}

impl AppError {
    /// The error that answers a failure of the store.
    pub fn from(error: RepositoryError) -> (app: AppError)
        ensures
            converts(error, app),
    {
        match error {
            RepositoryError::NotFound => AppError::NotFound(String::from_str("Resource not found")),
            RepositoryError::DatabaseError(m) => AppError::DatabaseError(m),
            RepositoryError::InvalidInput(m) => AppError::BadRequest(m),
        }
    }
}

/// A failure of the store is answered 404 when a resource is missing, 400 for
/// invalid input and 500 when the store itself failed.
pub proof fn lemma_repository_error_status(
    error: RepositoryError,
    app: AppError,
    response: ErrorResponse,
)
    requires
        converts(error, app),
        answers(app, response),
    ensures
        response.status == match error {
            RepositoryError::NotFound => 404u16,
            RepositoryError::InvalidInput(_) => 400u16,
            RepositoryError::DatabaseError(_) => 500u16,
        },
{
}

/// Every answer to an error is a client error (4xx) or a server error (5xx),
/// and it carries details exactly when it answers a validation error.
pub proof fn lemma_answer_shape(e: AppError, response: ErrorResponse)
    requires
        answers(e, response),
    ensures
        400 <= response.status < 600,
        response.details is Some <==> e is ValidationError,
{
}

/// The answer to each error, field by field: a missing resource is 404
/// "NOT_FOUND" with its message; a bad request is 400 "BAD_REQUEST" with its
/// message; a validation error is 400 "VALIDATION_ERROR", "Input validation
/// failed", with the list of what failed as details; an internal error is 500
/// "INTERNAL_ERROR" with its message; a database error is 500
/// "DATABASE_ERROR" whose message is "Database operation failed: " and the
/// error's. Only a validation error carries details.
pub proof fn lemma_answer_law(e: AppError, r: ErrorResponse)
    requires
        answers(e, r),
    ensures
        e matches AppError::NotFound(m) ==> (r.status == 404 && r.error@ == "NOT_FOUND"@
            && r.message == m && r.details is None),
        e matches AppError::BadRequest(m) ==> (r.status == 400 && r.error@ == "BAD_REQUEST"@
            && r.message == m && r.details is None),
        e matches AppError::ValidationError(errors) ==> (r.status == 400 && r.error@
            == "VALIDATION_ERROR"@ && r.message@ == "Input validation failed"@ && r.details
            == Some(errors)),
        e matches AppError::InternalError(m) ==> (r.status == 500 && r.error@ == "INTERNAL_ERROR"@
            && r.message == m && r.details is None),
        e matches AppError::DatabaseError(m) ==> (r.status == 500 && r.error@ == "DATABASE_ERROR"@
            && r.message@ == "Database operation failed: "@ + m@ && r.details is None),
{
}

/// A store failure becomes the error of the same meaning: a missing resource
/// is not found ("Resource not found"), a failure of the store a database
/// error with the same message, and invalid input a bad request with the same
/// message.
pub proof fn lemma_converts_law(error: RepositoryError, app: AppError)
    requires
        converts(error, app),
    ensures
        error is NotFound ==> (app matches AppError::NotFound(m) && m@ == "Resource not found"@),
        error matches RepositoryError::DatabaseError(m) ==> (app matches AppError::DatabaseError(
            n,
        ) && n == m),
        error matches RepositoryError::InvalidInput(m) ==> (app matches AppError::BadRequest(n)
            && n == m),
{
}

/// The readable line of each error names its kind and then says what it says;
/// a validation error lists what failed, separated by ", ".
pub proof fn lemma_describe_law(e: AppError, first: String, second: String)
    ensures
        e matches AppError::NotFound(m) ==> describe(e) == "Not found: "@ + m@,
        e matches AppError::BadRequest(m) ==> describe(e) == "Bad request: "@ + m@,
        e matches AppError::InternalError(m) ==> describe(e) == "Internal error: "@ + m@,
        e matches AppError::DatabaseError(m) ==> describe(e) == "Database error: "@ + m@,
        joined(Seq::<Seq<char>>::empty(), ", "@) == Seq::<char>::empty(),
        joined(seq![first@], ", "@) == first@,
        joined(seq![first@, second@], ", "@) == first@ + ", "@ + second@,
{
    let two = seq![first@, second@];
    assert(two.drop_last() =~= seq![first@]);
}

} // verus!
