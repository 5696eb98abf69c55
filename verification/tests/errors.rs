use rest_api_core::envelope::ErrorDetail;
use rest_api_core::errors::AppError;

#[test]
fn each_kind_maps_to_its_status_code() {
    assert_eq!(AppError::NotFound("x".to_string()).status_code(), 404);
    assert_eq!(AppError::BadRequest("x".to_string()).status_code(), 400);
    assert_eq!(AppError::ValidationError("x".to_string(), Vec::new()).status_code(), 422);
    assert_eq!(AppError::InternalError("x".to_string()).status_code(), 500);
}

#[test]
fn into_envelope_carries_code_and_message() {
    let (status, env) = AppError::NotFound("User with id 7 not found".to_string()).into_envelope();
    assert_eq!(status, 404);
    assert!(env.data.is_none());
    let err = env.error.expect("error side must be set");
    assert_eq!(err.code, 404);
    assert_eq!(err.message, "User with id 7 not found");
    assert!(err.details.is_none());
}

#[test]
fn into_envelope_attaches_details_for_validation_only() {
    let details = vec![ErrorDetail {
        field: Some("email".to_string()),
        message: "Invalid email format".to_string(),
    }];
    let (status, env) =
        AppError::ValidationError("Validation failed".to_string(), details).into_envelope();
    assert_eq!(status, 422);
    let err = env.error.expect("error side must be set");
    assert_eq!(err.code, 422);
    let attached = err.details.expect("validation details must be attached");
    assert_eq!(attached.len(), 1);
    assert_eq!(attached[0].field.as_deref(), Some("email"));

    let (status, env) = AppError::InternalError("boom".to_string()).into_envelope();
    assert_eq!(status, 500);
    assert!(env.error.expect("error side must be set").details.is_none());
}
