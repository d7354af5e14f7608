use fff_server::error::{task_failed, ApiError, EngineError};

#[test]
fn problem_carries_a_stable_code_and_urn() {
    let p = ApiError::InvalidPath("no such directory: Q:\\nope".into()).problem();
    assert_eq!(p.status, 400);
    assert_eq!(p.code, "invalid-path");
    assert_eq!(p.problem_type, "urn:fff-server:error:invalid-path");
    assert!(p.detail.unwrap().contains("Q:\\nope"));
}

#[test]
fn engine_filesystem_root_is_forbidden_not_a_bad_request() {
    let err: ApiError = fff_search::Error::FilesystemRoot("C:\\".into()).into();
    assert_eq!(err.problem().status, 403);
}

#[test]
fn engine_picker_missing_is_retryable() {
    let err: ApiError = fff_search::Error::FilePickerMissing.into();
    assert_eq!(err.problem().status, 503);
    assert_eq!(err.problem().code, "index-not-ready");
}

#[test]
fn engine_errors_map_by_variant_and_keep_their_text() {
    for (err, status) in [
        (fff_search::Error::InvalidPath("/nope".into()), 400),
        (
            fff_search::Error::InvalidGlobPattern {
                pattern: "[".to_string(),
                reason: "unclosed".to_string(),
            },
            400,
        ),
        (fff_search::Error::FilesystemRoot("/".into()), 403),
        (fff_search::Error::FilePickerMissing, 503),
        (fff_search::Error::WatcherNotReady, 503),
        (fff_search::Error::WatcherDisabled, 503),
        (
            fff_search::Error::DbInUse {
                db: "frecency",
                path: "/db".into(),
                holders: 1,
            },
            409,
        ),
        (
            fff_search::Error::EnvSpecMismatch {
                path: "/db".into(),
                open_as: "frecency",
                requested_as: "queries",
            },
            409,
        ),
        (fff_search::Error::ThreadPanic, 500),
        (fff_search::Error::WalkFailed("gone".to_string()), 500),
    ] {
        let text = err.to_string();
        let api = ApiError::from(err);
        assert_eq!(api.problem().status, status, "{text}");
        assert_eq!(api.to_string(), text);
    }
}

#[test]
fn every_class_has_its_own_code_status_and_title() {
    for (err, status, code, title, server) in [
        (
            ApiError::InvalidPath("x".into()),
            400,
            "invalid-path",
            "Invalid path",
            false,
        ),
        (
            ApiError::InvalidGlob("x".into()),
            400,
            "invalid-glob-pattern",
            "Invalid glob pattern",
            false,
        ),
        (
            ApiError::InvalidBody("x".into()),
            400,
            "invalid-request-body",
            "Invalid request body",
            false,
        ),
        (
            ApiError::Forbidden("x".into()),
            403,
            "forbidden-root",
            "Forbidden root",
            false,
        ),
        (
            ApiError::NotFound("x".into()),
            404,
            "not-found",
            "Not found",
            false,
        ),
        (
            ApiError::Conflict("x".into()),
            409,
            "database-in-use",
            "Database in use",
            false,
        ),
        (
            ApiError::NotReady("x".into()),
            503,
            "index-not-ready",
            "Index not ready",
            true,
        ),
        (
            ApiError::Internal("x".into()),
            500,
            "internal",
            "Internal error",
            true,
        ),
    ] {
        let p = err.problem();
        assert_eq!(err.parts(), (status, code, title));
        assert_eq!(p.status, status);
        assert_eq!(p.code, code);
        assert_eq!(p.title, title);
        assert_eq!(p.problem_type, format!("urn:fff-server:error:{code}"));
        assert_eq!(p.detail.as_deref(), Some("x"));
        assert_eq!(err.is_server_error(), server);
    }
}

#[test]
fn engine_error_classes_keep_their_text() {
    let api = ApiError::from(EngineError::DbInUse("held".to_string()));
    assert!(matches!(api, ApiError::Conflict(ref s) if s == "held"));
    let api = ApiError::from(EngineError::Other("odd".to_string()));
    assert!(matches!(api, ApiError::Internal(ref s) if s == "odd"));
}

#[test]
fn a_task_that_dies_is_an_internal_error() {
    let err = task_failed("search", "task 7 panicked");
    assert_eq!(err.problem().status, 500);
    assert_eq!(err.to_string(), "search task failed: task 7 panicked");
}
