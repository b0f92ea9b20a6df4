use aws_sdk_dynamodb::error::SdkError;
use aws_sdk_dynamodb::operation::query::QueryError;
use aws_sdk_dynamodb::types::error::ResourceNotFoundException;
use model_derive::error::BackendError;

#[test]
fn internal_error_carries_its_message() {
    let error = BackendError::internal("connection reset".to_string());
    assert_eq!(error, BackendError::InternalServerError("connection reset".to_string()));
    assert_eq!(error.description(), "connection reset");
    assert_eq!(error.to_string(), "connection reset");
}

#[test]
fn descriptions_of_the_classes() {
    assert_eq!(BackendError::NotFound.description(), "Resource not found");
    assert_eq!(BackendError::BadRequest.description(), "Bad request");
    assert_eq!(BackendError::AlreadyExists.description(), "Resource already exists");
    assert_eq!(BackendError::Unauthorized.description(), "Unauthorized");
    assert_eq!(BackendError::BadGateway.description(), "BadGateway");
}

#[test]
fn classes_are_shown_by_their_names() {
    assert_eq!(BackendError::NotFound.to_string(), "NotFound");
    assert_eq!(BackendError::BadRequest.to_string(), "BadRequest");
    assert_eq!(BackendError::AlreadyExists.to_string(), "AlreadyExists");
    assert_eq!(BackendError::Unauthorized.to_string(), "Unauthorized");
    assert_eq!(BackendError::BadGateway.to_string(), "BadGateway");
}

#[test]
fn failed_query_becomes_an_internal_error() {
    let timeout: SdkError<QueryError, ()> = SdkError::timeout_error("too slow");
    assert_eq!(
        BackendError::from(timeout),
        BackendError::InternalServerError("request has timed out".to_string())
    );
    let construction: SdkError<QueryError, ()> = SdkError::construction_failure("no table name");
    assert_eq!(
        BackendError::from(construction),
        BackendError::InternalServerError("failed to construct request".to_string())
    );
    let response: SdkError<QueryError, ()> = SdkError::response_error("cut off", ());
    assert_eq!(
        BackendError::from(response),
        BackendError::InternalServerError("response error".to_string())
    );
    let service: SdkError<QueryError, ()> =
        SdkError::service_error(QueryError::unhandled("throttled"), ());
    assert_eq!(
        BackendError::from(service),
        BackendError::InternalServerError("service error".to_string())
    );
}

#[test]
fn store_error_becomes_an_internal_error_with_its_text() {
    let missing = ResourceNotFoundException::builder().message("no such table").build();
    let error = aws_sdk_dynamodb::Error::ResourceNotFoundException(missing);
    assert_eq!(
        BackendError::from(error),
        BackendError::InternalServerError("ResourceNotFoundException: no such table".to_string())
    );
}

#[test]
fn store_errors_with_different_texts_give_different_messages() {
    let table = ResourceNotFoundException::builder().message("no such table").build();
    let index = ResourceNotFoundException::builder().message("no such index").build();
    assert_ne!(
        BackendError::from(aws_sdk_dynamodb::Error::ResourceNotFoundException(table)),
        BackendError::from(aws_sdk_dynamodb::Error::ResourceNotFoundException(index))
    );
    let bare = ResourceNotFoundException::builder().build();
    assert_eq!(
        BackendError::from(aws_sdk_dynamodb::Error::ResourceNotFoundException(bare)),
        BackendError::InternalServerError("ResourceNotFoundException".to_string())
    );
}

#[test]
fn question_mark_converts_a_failed_query() {
    fn run(failure: SdkError<QueryError, ()>) -> Result<(), BackendError> {
        Err(failure)?
    }
    assert_eq!(
        run(SdkError::timeout_error("too slow")),
        Err(BackendError::InternalServerError("request has timed out".to_string()))
    );
}
