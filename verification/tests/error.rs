use content_core::error::{ApiError, CoreError};
use content_core::guards::GuardError;
use content_core::s3::S3Error;
use content_core::signed_url::service::SignedUrlError;
use content_core::signer::SignerError;

#[test]
fn api_errors_answer_with_their_status() {
    let words = || "w".to_string();
    assert_eq!(ApiError::InternalServerError(words()).status_code(), 500);
    assert_eq!(ApiError::UnProcessableEntity(words()).status_code(), 422);
    assert_eq!(ApiError::NotFound(words()).status_code(), 404);
    assert_eq!(ApiError::Unauthorized(words()).status_code(), 401);
    assert_eq!(ApiError::Forbidden(words()).status_code(), 403);
    assert_eq!(ApiError::BadRequest(words()).status_code(), 400);
    assert_eq!(ApiError::ServiceUnavailable(words()).status_code(), 503);
    assert_eq!(ApiError::NotFound("nothing here".to_string()).message(), "nothing here");
}

#[test]
fn capability_errors_are_400_401_or_500() {
    let e = SignedUrlError::MissingQueryParams("Missing query params".to_string());
    assert_eq!(e.into_api_error(), ApiError::BadRequest("Missing query params".to_string()));
    let e = SignedUrlError::InvalidEncoding;
    assert_eq!(e.into_api_error(), ApiError::BadRequest("Invalid encoding".to_string()));
    let e = SignedUrlError::InvalidBaseUrl("Path is invalid".to_string());
    assert_eq!(e.into_api_error(), ApiError::BadRequest("Path is invalid".to_string()));
    let e = SignedUrlError::InternalError("boom".to_string());
    assert_eq!(e.into_api_error(), ApiError::InternalServerError("boom".to_string()));
    let e = SignedUrlError::Expired;
    assert_eq!(e.into_api_error(), ApiError::Unauthorized("Expired".to_string()));
    let e = SignedUrlError::InvalidSignature;
    assert_eq!(e.into_api_error(), ApiError::Unauthorized("Invalid signature".to_string()));
    let e = SignedUrlError::Unauthorized;
    assert_eq!(e.into_api_error(), ApiError::Unauthorized("Unauthorized".to_string()));
    assert_eq!(SignedUrlError::Expired.into_api_error().status_code(), 401);
    assert_eq!(SignedUrlError::InvalidSignature.into_api_error().status_code(), 401);
    assert_eq!(SignedUrlError::InvalidEncoding.into_api_error().status_code(), 400);
}

#[test]
fn guard_errors_are_400_404_or_500() {
    let e = GuardError::UnknownPrefix;
    assert_eq!(e.into_api_error(), ApiError::NotFound("Unknown prefix".to_string()));
    let e = GuardError::NoGuardFound;
    assert_eq!(e.into_api_error(), ApiError::InternalServerError("No guard found".to_string()));
    let e = GuardError::FileTypeNotAllowed;
    assert_eq!(e.into_api_error(), ApiError::BadRequest("File type not allowed".to_string()));
    let e = GuardError::WrongContentType;
    assert_eq!(e.into_api_error(), ApiError::BadRequest("Wrong content type".to_string()));
    let e = GuardError::UnknownFileType;
    assert_eq!(e.into_api_error(), ApiError::BadRequest("Unknown file type".to_string()));
    let e = GuardError::MissingFileExtension;
    assert_eq!(e.into_api_error(), ApiError::BadRequest("Missing file extension".to_string()));
    let e = GuardError::WrongFileExtension;
    assert_eq!(e.into_api_error(), ApiError::BadRequest("Wrong file extension".to_string()));
    assert_eq!(GuardError::UnknownPrefix.into_api_error().status_code(), 404);
    assert_eq!(GuardError::NoGuardFound.into_api_error().status_code(), 500);
    assert_eq!(GuardError::WrongFileExtension.to_string(), "Wrong file extension");
}

#[test]
fn signer_and_store_errors_are_500() {
    let e = SignerError::InvalidKey("Key cannot be empty".to_string());
    assert_eq!(
        e.into_api_error(),
        ApiError::InternalServerError("Key cannot be empty".to_string())
    );
    let e = S3Error::UploadFailure("no route".to_string());
    assert_eq!(e.into_api_error(), ApiError::InternalServerError("no route".to_string()));
    let e = S3Error::NoBucketFound;
    assert_eq!(e.into_api_error(), ApiError::InternalServerError("No bucket found".to_string()));
    let e = S3Error::BucketNameError("No bucket name".to_string());
    assert_eq!(e.into_api_error(), ApiError::InternalServerError("No bucket name".to_string()));
}

#[test]
fn core_errors_say_what_failed() {
    assert_eq!(CoreError::HttpServer("a".to_string()).to_string(), "HttpServerError: a");
    assert_eq!(CoreError::S3EndpointError("b".to_string()).to_string(), "S3Error: b");
    assert_eq!(CoreError::SigningKeyError("c".to_string()).to_string(), "SigningKeyError: c");
    let e = CoreError::from_signed_url_error(SignedUrlError::Expired);
    assert_eq!(e.to_string(), "SigningKeyError: Expired");
    let e = CoreError::from_signer_error(SignerError::InvalidKey("Key cannot be empty".to_string()));
    assert_eq!(e.to_string(), "SigningKeyError: Key cannot be empty");
}

#[test]
fn validation_errors_name_their_field() {
    let e = content_core::error::ValidationError {
        message: "must not be empty".to_string(),
        field: "action".to_string(),
    };
    assert_eq!(e.clone(), e);
    assert_eq!(e.field, "action");
    assert_eq!(e.message, "must not be empty");
}
