use css_server::auth::AuthError;
use css_server::errors::{is_unrepresentable_text, validation_error, ApiError, ApiErrorKind, DatabaseError, LogLevel};
use diesel::result::DatabaseErrorKind as Kind;
use diesel::result::Error as DieselError;

fn db_error(kind: Kind, message: &str) -> DieselError {
    DieselError::DatabaseError(kind, Box::new(message.to_string()))
}

fn status_of(err: ApiError) -> u16 {
    err.status()
}

#[test]
fn the_two_messages_this_depends_on_are_recognised() {
    assert!(
        is_unrepresentable_text("invalid byte sequence for encoding \"UTF8\": 0x00"),
        "a NUL byte in text is refused by every Postgres encoding"
    );
    assert!(
        is_unrepresentable_text(
            "character with byte sequence 0xf0 0x9f 0x90 0xb4 in encoding \
             \"UTF8\" has no equivalent in encoding \"LATIN1\""
        ),
        "a character outside the cluster's encoding"
    );
}

#[test]
fn unrelated_database_messages_are_left_alone() {
    for msg in [
        "could not connect to server: Connection refused",
        "deadlock detected",
        "out of shared memory",
        "canceling statement due to statement timeout",
        "duplicate key value violates unique constraint \"users_email_key\"",
    ] {
        assert!(!is_unrepresentable_text(msg), "{msg:?} is not a text-representation problem");
    }
}

#[test]
fn the_two_conversion_paths_agree_on_every_kind() {
    let kinds = [
        Kind::UniqueViolation,
        Kind::ForeignKeyViolation,
        Kind::NotNullViolation,
        Kind::CheckViolation,
        Kind::SerializationFailure,
        Kind::ReadOnlyTransaction,
        Kind::ClosedConnection,
        Kind::UnableToSendCommand,
        Kind::Unknown,
    ];
    for kind in kinds {
        let direct = status_of(ApiError::from_diesel(&db_error(kind, "boom")));
        let wrapped = status_of(ApiError::from_database(DatabaseError::from_diesel_error(&db_error(kind, "boom"))));
        assert_eq!(direct, wrapped, "{kind:?}: the direct path answers {direct} and the wrapped one {wrapped}");
    }
    assert_eq!(
        status_of(ApiError::from_diesel(&DieselError::NotFound)),
        status_of(ApiError::from_database(DatabaseError::from_diesel_error(&DieselError::NotFound))),
    );
}

#[test]
fn a_constraint_the_caller_violated_is_a_4xx() {
    assert_eq!(status_of(ApiError::from_diesel(&db_error(Kind::UniqueViolation, "duplicate key"))), 409);
    assert_eq!(status_of(ApiError::from_diesel(&db_error(Kind::ForeignKeyViolation, "fk"))), 409);
    assert_eq!(status_of(ApiError::from_diesel(&db_error(Kind::SerializationFailure, "40001"))), 409);
    assert_eq!(status_of(ApiError::from_diesel(&db_error(Kind::NotNullViolation, "null value"))), 400);
    assert_eq!(status_of(ApiError::from_diesel(&db_error(Kind::CheckViolation, "check"))), 400);
}

#[test]
fn everything_else_is_ours_and_stays_a_500() {
    for kind in [Kind::ReadOnlyTransaction, Kind::ClosedConnection, Kind::Unknown] {
        assert_eq!(status_of(ApiError::from_diesel(&db_error(kind, "x"))), 500, "{kind:?}");
    }
    for message in [
        "character with byte sequence 0xf0 0x9f 0x9a 0xa7 in encoding \
         \"UTF8\" has no equivalent in encoding \"LATIN1\"",
        "invalid byte sequence for encoding \"UTF8\": 0x00",
    ] {
        assert_eq!(status_of(ApiError::from_diesel(&db_error(Kind::Unknown, message))), 400, "{message:?}");
    }
    for message in ["deadlock detected", "out of shared memory", "could not connect to server: Connection refused"] {
        assert_eq!(status_of(ApiError::from_diesel(&db_error(Kind::Unknown, message))), 500, "{message:?}");
    }
}

#[test]
fn a_database_error_never_leaks_the_database_message() {
    let err = ApiError::from_diesel(&db_error(Kind::Unknown, "relation \"user_mfa_recovery_codes\" does not exist"));
    let message = err.response_message();
    assert!(
        !message.contains("user_mfa_recovery_codes"),
        "the response repeated the database's own message: {message}"
    );
    assert_eq!(message, "Database operation failed");
}

#[test]
fn a_conflict_does_say_what_happened() {
    let err = ApiError::from_diesel(&db_error(Kind::UniqueViolation, "dup"));
    assert_eq!(err.status(), 409);
    assert_eq!(err.response_message(), "Resource already exists");
}

#[test]
fn the_status_table_is_exactly_this() {
    for (err, want) in [
        (ApiError::Unauthorized(String::new()), 401),
        (ApiError::Forbidden(String::new()), 403),
        (ApiError::ValidationError(String::new()), 400),
        (ApiError::BadRequest(String::new()), 400),
        (ApiError::NotFound(String::new()), 404),
        (ApiError::Conflict(String::new()), 409),
        (ApiError::TooManyRequests(String::new()), 429),
        (ApiError::InternalServerError(String::new()), 500),
        (ApiError::DatabaseError(String::new()), 500),
        (ApiError::NotImplemented(String::new()), 501),
    ] {
        let described = err.describe();
        assert_eq!(status_of(err), want, "{described}");
    }
}

#[test]
fn an_insufficient_role_is_403_and_a_bad_token_is_401() {
    assert_eq!(
        status_of(ApiError::from_auth(AuthError::Forbidden("administrator access"))),
        403,
        "an authenticated caller who is not allowed must not be told to authenticate"
    );
    assert_eq!(status_of(ApiError::from_auth(AuthError::InvalidToken)), 401);
    assert_eq!(status_of(ApiError::from_auth(AuthError::MissingCredentials)), 401);
}

#[test]
fn the_two_auth_conversion_paths_agree() {
    let build = || {
        vec![
            AuthError::WrongCredentials,
            AuthError::MissingCredentials,
            AuthError::InvalidToken,
            AuthError::Forbidden("administrator access"),
            AuthError::UserNotFound,
            AuthError::UserInactive,
            AuthError::TokenCreation,
            AuthError::InternalError,
            AuthError::InvalidPassword("too short".to_string()),
        ]
    };
    for (direct, converted) in build().into_iter().zip(build()) {
        let described = direct.describe();
        let a = direct.status();
        let b = status_of(ApiError::from_auth(converted));
        assert_eq!(a, b, "{described}: the extractor rejection answers {a} and the handler conversion answers {b}");
    }
}

#[test]
fn a_pool_failure_is_never_mistaken_for_a_missing_row() {
    assert_eq!(status_of(ApiError::from_database(DatabaseError::ConnectionTimeout)), 500);
    assert_eq!(status_of(ApiError::from_database(DatabaseError::Other("anything".into()))), 500);
}

#[test]
fn server_errors_are_exactly_the_5xx_and_log_at_error() {
    let bad = ApiError::BadRequest("x".to_string());
    assert!(!bad.is_server_error());
    assert_eq!(bad.log_level(), LogLevel::Warn);
    let ours = ApiError::DatabaseError("x".to_string());
    assert!(ours.is_server_error());
    assert_eq!(ours.log_level(), LogLevel::Error);
}

#[test]
fn messages_and_descriptions_are_built_as_stated() {
    let v = validation_error("name too long");
    assert_eq!(v.kind(), ApiErrorKind::ValidationError);
    assert_eq!(v.describe(), "Validation error: name too long");
    let (e, line) = ApiError::from_db("Failed to load tools", DatabaseError::Other("disk full".to_string()), "disk full");
    assert_eq!(e.response_message(), "Database error: disk full");
    assert_eq!(line.text, "Failed to load tools: disk full");
    assert_eq!(line.level, LogLevel::Error);
    let (missing, quiet) = ApiError::from_db(
        "Failed to find a tool",
        DatabaseError::Diesel(css_server::errors::DieselFailure::NotFound),
        "Record not found",
    );
    assert_eq!(missing.status(), 404);
    assert_eq!(quiet.text, "Failed to find a tool: Record not found");
    assert_eq!(quiet.level, LogLevel::Warn);
    assert_eq!(ApiError::from_pool_error("timed out").response_message(), "Database connection pool error: timed out");
    let d = ApiError::from_diesel(&DieselError::NotFound);
    assert_eq!(d.status(), 404);
    assert_eq!(d.response_message(), "Requested resource not found");
}
