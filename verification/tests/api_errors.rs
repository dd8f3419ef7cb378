use docrab::errors::{not_found, ApiError, FieldError, Status, ValidationError, ValidationErrors};

#[test]
fn internal_server_error_answer() {
    let (status, error) = ApiError::internal_server_error("database unavailable");
    assert_eq!(status.code, 500);
    assert_eq!(error.status, "500 Internal Server Error");
    assert_eq!(error.reason, "database unavailable");
    assert!(error.validation_errors.is_none());
}

#[test]
fn not_found_answers() {
    let (status, error) = ApiError::not_found("no such tag");
    assert_eq!(status.code, 404);
    assert_eq!(error.status, "404 Not Found");
    assert_eq!(error.reason, "no such tag");
    let (status, error) = not_found();
    assert_eq!(status, Status::not_found());
    assert_eq!(error.reason, "no matching routes found");
}

#[test]
fn server_error_writes_any_status() {
    let (status, error) = ApiError::server_error(Status::new(418), "teapot");
    assert_eq!(status.code, 418);
    assert_eq!(error.status, "418 I'm a teapot");
    assert_eq!(error.reason, "teapot");
    let (_, error) = ApiError::server_error(Status::new(299), "");
    assert_eq!(error.status, "299 Success");
}

#[test]
fn validation_error_reports_fields_in_title_case() {
    let errors = ValidationErrors {
        fields: vec![
            (
                "document_type_id".to_string(),
                vec![ValidationError { code: "range".to_string(), message: None }],
            ),
            (
                "color".to_string(),
                vec![
                    ValidationError { code: "length".to_string(), message: None },
                    ValidationError::with_message("regex", "invalid color format"),
                ],
            ),
        ],
    };
    let (status, error) = ApiError::validation_error(errors);
    assert_eq!(status, Status::bad_request());
    assert_eq!(error.status, "400 Bad Request");
    assert_eq!(error.reason, "");
    let reports = error.validation_errors.unwrap();
    assert_eq!(reports.len(), 2);
    assert_eq!(reports[0].field, "Document Type Id");
    assert_eq!(reports[0].errors, vec![String::new()]);
    assert_eq!(reports[1].field, "Color");
    assert_eq!(reports[1].errors, vec![String::new(), "invalid color format".to_string()]);
}

#[test]
fn field_error_from_validation_error() {
    let report = FieldError::from_validation_error("file_name", &[ValidationError::new("required")]);
    assert_eq!(report.field, "File Name");
    assert_eq!(report.errors, vec![String::new()]);
    let report = FieldError::from_title("Label".to_string(), &[]);
    assert_eq!(report.field, "Label");
    assert!(report.errors.is_empty());
}

#[test]
fn named_answers_are_server_errors() {
    let (s1, e1) = ApiError::internal_server_error("disk full");
    let (s2, e2) = ApiError::server_error(Status::internal_server_error(), "disk full");
    assert_eq!(s1, s2);
    assert_eq!((e1.status, e1.reason), (e2.status, e2.reason));
    let (s1, e1) = ApiError::not_found("gone");
    let (s2, e2) = ApiError::server_error(Status::new(404), "gone");
    assert_eq!(s1, s2);
    assert_eq!((e1.status, e1.reason), (e2.status, e2.reason));
    let (_, e) = ApiError::server_error(Status::bad_request(), "");
    assert_eq!(e.status, "400 Bad Request");
}
