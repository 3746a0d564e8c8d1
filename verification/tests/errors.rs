use lapp::error::{
    AppError, AuthError, ErrorCode, ErrorResponse, SupabaseError, TransportFailure,
};

fn failure(timeout: bool, connect: bool, request: bool, decode: bool, status: Option<u16>) -> TransportFailure {
    TransportFailure { timeout, connect, request, decode, status, detail: "boom".to_string() }
}

#[test]
fn error_codes_have_their_identifier_message_and_status() {
    let table = [
        (ErrorCode::InvalidCredentials, "AUTH_INVALID_CREDENTIALS", "Invalid email or password", 401u16),
        (ErrorCode::SupabaseHttpError, "SUPABASE_HTTP_ERROR", "Authentication service error", 502),
        (
            ErrorCode::SupabaseNetworkError,
            "SUPABASE_NETWORK_ERROR",
            "Unable to reach authentication service",
            502,
        ),
        (
            ErrorCode::SupabaseParseError,
            "SUPABASE_PARSE_ERROR",
            "Authentication service returned invalid data",
            502,
        ),
        (ErrorCode::SupabaseTimeout, "SUPABASE_TIMEOUT", "Authentication service timed out", 504),
        (ErrorCode::ValidationFailed, "VALIDATION_FAILED", "Invalid input data", 400),
    ];
    for (code, text, message, status) in table {
        assert_eq!(code.as_str(), text);
        assert_eq!(code.message(), message);
        assert_eq!(code.status(), status);
    }
}

#[test]
fn a_timeout_comes_before_every_other_kind() {
    let err = failure(true, true, true, true, Some(500));
    assert_eq!(SupabaseError::from_reqwest(err), SupabaseError::Timeout(failure(true, true, true, true, Some(500))));
}

#[test]
fn a_failure_to_connect_or_to_send_is_a_network_failure() {
    assert_eq!(
        SupabaseError::from_reqwest(failure(false, true, false, true, Some(500))),
        SupabaseError::Network(failure(false, true, false, true, Some(500)))
    );
    assert_eq!(
        SupabaseError::from_reqwest(failure(false, false, true, false, None)),
        SupabaseError::Network(failure(false, false, true, false, None))
    );
}

#[test]
fn a_body_that_does_not_decode_is_a_parse_failure_without_body() {
    assert_eq!(
        SupabaseError::from_reqwest(failure(false, false, false, true, Some(500))),
        SupabaseError::Parse { body: String::new() }
    );
}

#[test]
fn a_status_is_an_http_failure_without_body() {
    assert_eq!(
        SupabaseError::from_reqwest(failure(false, false, false, false, Some(503))),
        SupabaseError::Http { status: 503, body: String::new() }
    );
    assert_eq!(
        SupabaseError::from_reqwest(failure(false, false, false, false, Some(42))),
        SupabaseError::Http { status: 502, body: String::new() }
    );
}

#[test]
fn a_failure_of_which_nothing_is_known_is_a_network_failure() {
    assert_eq!(
        SupabaseError::from_reqwest(failure(false, false, false, false, None)),
        SupabaseError::Network(failure(false, false, false, false, None))
    );
}

#[test]
fn http_keeps_a_three_digit_status_and_replaces_any_other_by_502() {
    for (given, kept) in [(100u16, 100u16), (401, 401), (999, 999), (99, 502), (0, 502), (1000, 502), (65535, 502)] {
        assert_eq!(
            SupabaseError::http(given, "b".to_string()),
            SupabaseError::Http { status: kept, body: "b".to_string() }
        );
    }
}

#[test]
fn parse_keeps_the_body() {
    assert_eq!(SupabaseError::parse("{".to_string()), SupabaseError::Parse { body: "{".to_string() });
}

#[test]
fn provider_failures_have_their_code() {
    let http = |status: u16| SupabaseError::Http { status, body: String::new() };
    assert_eq!(http(401).code(), ErrorCode::InvalidCredentials);
    assert_eq!(http(400).code(), ErrorCode::InvalidCredentials);
    assert_eq!(http(403).code(), ErrorCode::SupabaseHttpError);
    assert_eq!(http(500).code(), ErrorCode::SupabaseHttpError);
    assert_eq!(http(200).code(), ErrorCode::SupabaseHttpError);
    assert_eq!(
        SupabaseError::Network(failure(false, true, false, false, None)).code(),
        ErrorCode::SupabaseNetworkError
    );
    assert_eq!(SupabaseError::Parse { body: "x".to_string() }.code(), ErrorCode::SupabaseParseError);
    assert_eq!(
        SupabaseError::Timeout(failure(true, false, false, false, None)).code(),
        ErrorCode::SupabaseTimeout
    );
}

#[test]
fn an_answer_without_success_is_an_http_failure_with_its_body() {
    assert_eq!(
        SupabaseError::parse_response(401, Ok("denied".to_string())),
        Err(SupabaseError::Http { status: 401, body: "denied".to_string() })
    );
    assert_eq!(
        SupabaseError::parse_response(500, Err(failure(true, false, false, false, None))),
        Err(SupabaseError::Http { status: 500, body: String::new() })
    );
    assert_eq!(
        SupabaseError::parse_response(199, Ok("early".to_string())),
        Err(SupabaseError::Http { status: 199, body: "early".to_string() })
    );
    assert_eq!(
        SupabaseError::parse_response(300, Ok("moved".to_string())),
        Err(SupabaseError::Http { status: 300, body: "moved".to_string() })
    );
    assert_eq!(
        SupabaseError::parse_response(7, Ok("odd".to_string())),
        Err(SupabaseError::Http { status: 502, body: "odd".to_string() })
    );
}

#[test]
fn an_answer_with_success_hands_its_body_back() {
    assert_eq!(SupabaseError::parse_response(200, Ok("{}".to_string())), Ok("{}".to_string()));
    assert_eq!(SupabaseError::parse_response(299, Ok(String::new())), Ok(String::new()));
}

#[test]
fn an_answer_with_success_whose_body_cannot_be_read_is_that_failure() {
    assert_eq!(
        SupabaseError::parse_response(200, Err(failure(true, false, false, false, None))),
        Err(SupabaseError::Timeout(failure(true, false, false, false, None)))
    );
    assert_eq!(
        SupabaseError::parse_response(200, Err(failure(false, false, false, true, None))),
        Err(SupabaseError::Parse { body: String::new() })
    );
}

#[test]
fn refused_credentials_become_invalid_credentials() {
    let http = |status: u16| SupabaseError::Http { status, body: "why".to_string() };
    assert_eq!(AuthError::from(http(401)), AuthError::InvalidCredentials);
    assert_eq!(AuthError::from(http(400)), AuthError::InvalidCredentials);
    assert_eq!(AuthError::of(http(401)), AuthError::InvalidCredentials);
    assert_eq!(AuthError::from(http(403)), AuthError::External(http(403)));
    assert_eq!(AuthError::from(http(500)), AuthError::External(http(500)));
    assert_eq!(
        AuthError::from(SupabaseError::Parse { body: "x".to_string() }),
        AuthError::External(SupabaseError::Parse { body: "x".to_string() })
    );
    assert_eq!(
        AuthError::from(SupabaseError::Timeout(failure(true, false, false, false, None))),
        AuthError::External(SupabaseError::Timeout(failure(true, false, false, false, None)))
    );
}

#[test]
fn authentication_errors_have_their_code() {
    assert_eq!(AuthError::InvalidCredentials.code(), ErrorCode::InvalidCredentials);
    assert_eq!(
        AuthError::External(SupabaseError::Http { status: 500, body: String::new() }).code(),
        ErrorCode::SupabaseHttpError
    );
    assert_eq!(
        AuthError::External(SupabaseError::Timeout(failure(true, false, false, false, None))).code(),
        ErrorCode::SupabaseTimeout
    );
}

#[test]
fn application_errors_have_their_code_and_status() {
    let refused = AppError::from(AuthError::InvalidCredentials);
    assert_eq!(refused, AppError::Auth(AuthError::InvalidCredentials));
    assert_eq!(refused.code(), ErrorCode::InvalidCredentials);
    assert_eq!(refused.status_code(), 401);
    let timeout = AppError::from(SupabaseError::Timeout(failure(true, false, false, false, None)));
    assert_eq!(timeout.code(), ErrorCode::SupabaseTimeout);
    assert_eq!(timeout.status_code(), 504);
    let denied = AppError::from(SupabaseError::Http { status: 400, body: String::new() });
    assert_eq!(denied, AppError::Auth(AuthError::InvalidCredentials));
    let invalid = AppError::validation("email", "Invalid email format".to_string());
    assert_eq!(
        invalid,
        AppError::Validation { field: "email", message: "Invalid email format".to_string() }
    );
    assert_eq!(invalid.code(), ErrorCode::ValidationFailed);
    assert_eq!(invalid.status_code(), 400);
}

#[test]
fn the_response_names_the_field_only_for_invalid_input() {
    assert_eq!(
        AppError::validation("password", "Password must be 6-128 characters".to_string()).error_response(),
        ErrorResponse {
            code: "VALIDATION_FAILED",
            message: "Invalid input data",
            field: Some("password"),
        }
    );
    assert_eq!(
        AppError::Auth(AuthError::InvalidCredentials).error_response(),
        ErrorResponse {
            code: "AUTH_INVALID_CREDENTIALS",
            message: "Invalid email or password",
            field: None,
        }
    );
    assert_eq!(
        AppError::Auth(AuthError::External(SupabaseError::Parse { body: "secret".to_string() }))
            .error_response(),
        ErrorResponse {
            code: "SUPABASE_PARSE_ERROR",
            message: "Authentication service returned invalid data",
            field: None,
        }
    );
}
