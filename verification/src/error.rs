//! The failures that callers of the data layer see.

use vstd::prelude::*;
use vstd::string::*;
use vstd::std_specs::convert::FromSpecImpl;
use aws_sdk_dynamodb::error::SdkError;
use aws_sdk_dynamodb::operation::query::QueryError;

verus! {

/// Any error that the store's service reports, carried as it is.
#[verifier::external_type_specification]
#[verifier::external_body]
pub struct ExStoreError(aws_sdk_dynamodb::Error);

/// What the store answers to a query it does not run, carried as it is.
#[verifier::external_type_specification]
#[verifier::external_body]
pub struct ExQueryError(QueryError);

/// A request that failed, with the stage at which it did, carried as it is.
#[verifier::external_type_specification]
#[verifier::external_body]
#[verifier::reject_recursive_types(E)]
#[verifier::reject_recursive_types(R)]
pub struct ExSdkError<E, R>(SdkError<E, R>);

/// Failure classes of the data layer. A query only ever fails with
/// `InternalServerError`, which carries the description of what the store
/// or the transport reported.
#[derive(Debug, PartialEq, Eq)]
pub enum BackendError {
    NotFound,
    BadRequest,
    AlreadyExists,
    Unauthorized,
    BadGateway,
    InternalServerError(String),
}

/// The short description of a failure.
pub open spec fn description_of(error: BackendError) -> Seq<char> {
    match error {
        BackendError::NotFound => "Resource not found"@,
        BackendError::BadRequest => "Bad request"@,
        BackendError::AlreadyExists => "Resource already exists"@,
        BackendError::Unauthorized => "Unauthorized"@,
        BackendError::BadGateway => "BadGateway"@,
        BackendError::InternalServerError(message) => message@,
    }
}

/// The text a failure is shown as: the name of its class, or the message
/// of an internal server error.
pub open spec fn shown_as(error: BackendError) -> Seq<char> {
    match error {
        BackendError::NotFound => "NotFound"@,
        BackendError::BadRequest => "BadRequest"@,
        BackendError::AlreadyExists => "AlreadyExists"@,
        BackendError::Unauthorized => "Unauthorized"@,
        BackendError::BadGateway => "BadGateway"@,
        BackendError::InternalServerError(message) => message@,
    }
}

/// The texts that a failed request is described by: one for each way in
/// which a request can fail between its construction and the answer.
pub open spec fn describes_failed_request(text: Seq<char>) -> bool {
    ||| text == "failed to construct request"@
    ||| text == "request has timed out"@
    ||| text == "dispatch failure"@
    ||| text == "response error"@
    ||| text == "service error"@
}

/// The text that a store error is rendered as by the `Display` impl of
/// `aws_sdk_dynamodb::Error`. It depends on nothing but the error: the impl
/// hands on to the exception inside, or writes a fixed text with the
/// error's code.
pub uninterp spec fn rendered_store_error(error: aws_sdk_dynamodb::Error) -> Seq<char>;

/// Trusted: renders a service error with the `Display` impl of
/// `aws_sdk_dynamodb::Error`. The contract only gives the result its name,
/// [`rendered_store_error`].
#[verifier::external_body]
fn render_store_error(error: &aws_sdk_dynamodb::Error) -> (text: String)
    ensures
        text@ == rendered_store_error(*error),
{
    format!("{}", error)
}

/// Trusted: renders a failed query with the `Display` impl of `SdkError`.
/// That impl writes one of five fixed texts, chosen by the variant alone:
/// construction failure, timeout, dispatch failure, response error or
/// service error.
#[verifier::external_body]
fn render_query_failure<R>(error: &SdkError<QueryError, R>) -> (text: String)
    ensures
        describes_failed_request(text@),
{
    format!("{}", error)
}

impl BackendError {
    /// The failure that a store or transport error with the description
    /// `message` is reported as.
    pub fn internal(message: String) -> (error: BackendError)
        ensures
            error == BackendError::InternalServerError(message),
    {
        BackendError::InternalServerError(message)
    }

    /// A short description of the failure.
    pub fn description(&self) -> (text: &str)
        ensures
            text@ == description_of(*self),
    {
        match self {
            BackendError::NotFound => "Resource not found",
            BackendError::BadRequest => "Bad request",
            BackendError::AlreadyExists => "Resource already exists",
            BackendError::Unauthorized => "Unauthorized",
            BackendError::BadGateway => "BadGateway",
            BackendError::InternalServerError(message) => message.as_str(),
        }
    }

    /// The failure as text.
    pub fn to_string(&self) -> (text: String)
        ensures
            text@ == shown_as(*self),
    {
        match self {
            BackendError::NotFound => String::from_str("NotFound"),
            BackendError::BadRequest => String::from_str("BadRequest"),
            BackendError::AlreadyExists => String::from_str("AlreadyExists"),
            BackendError::Unauthorized => String::from_str("Unauthorized"),
            BackendError::BadGateway => String::from_str("BadGateway"),
            BackendError::InternalServerError(message) => message.clone(),
        }
    }
}

impl From<aws_sdk_dynamodb::Error> for BackendError {
    /// Any error of the store is an internal server error that carries the
    /// rendered error as its message.
    fn from(error: aws_sdk_dynamodb::Error) -> (failure: BackendError)
        ensures
            failure matches BackendError::InternalServerError(message) && message@
                == rendered_store_error(error),
    {
        BackendError::internal(render_store_error(&error))
    }
}

/// No spec function can make the text that holds the message, so the
/// result is stated on `from` itself, over [`rendered_store_error`].
impl FromSpecImpl<aws_sdk_dynamodb::Error> for BackendError {
    open spec fn obeys_from_spec() -> bool {
        false
    }

    open spec fn from_spec(error: aws_sdk_dynamodb::Error) -> BackendError {
        arbitrary()
    }
}

impl<R> From<SdkError<QueryError, R>> for BackendError {
    /// Any failure of a query is an internal server error whose message
    /// says at which stage the request failed.
    fn from(error: SdkError<QueryError, R>) -> (failure: BackendError)
        ensures
            failure matches BackendError::InternalServerError(message)
                && describes_failed_request(message@),
    {
        BackendError::internal(render_query_failure(&error))
    }
}

/// The message depends on the stage at which the request failed, which is
/// inside the error; `from` states what holds of every outcome.
impl<R> FromSpecImpl<SdkError<QueryError, R>> for BackendError {
    open spec fn obeys_from_spec() -> bool {
        false
    }

    open spec fn from_spec(error: SdkError<QueryError, R>) -> BackendError {
        arbitrary()
    }
}

} // verus!
