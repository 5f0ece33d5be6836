use nautilus::errors::AuthError;
use nautilus::errors::PaginationError;
use nautilus::errors::PathIssue;
use nautilus::errors::ResolveError;
use nautilus::errors::auth_error_response;
use nautilus::errors::bad_request;
use nautilus::errors::internal_server_error;
use nautilus::errors::json_parse_failure;
use nautilus::errors::not_found;
use nautilus::errors::pagination_error_response;
use nautilus::errors::path_rejection_response;
use nautilus::errors::query_rejection_response;
use nautilus::errors::resolve_error_response;
use nautilus::errors::unauthorized;

#[test]
fn canned_responses_carry_their_statuses() {
    assert_eq!(unauthorized().status, 401);
    assert_eq!(unauthorized().detail, "You are not authorized to perform this action");
    assert_eq!(not_found().status, 404);
    assert_eq!(internal_server_error().status, 500);
    assert_eq!(internal_server_error().detail, "Internal Server Error");
    let r = bad_request("broken");
    assert_eq!(r.status, 400);
    assert_eq!(r.detail, "broken");
}

#[test]
fn every_auth_failure_is_uniformly_unauthorized() {
    for e in [
        AuthError::MalformedToken,
        AuthError::KeyNotFound,
        AuthError::UnsupportedAlgorithm,
        AuthError::InvalidSignature,
        AuthError::ExpiredToken,
        AuthError::AudienceMismatch,
    ] {
        let r = auth_error_response(&e);
        assert_eq!(r.status, 401);
        assert_eq!(r.detail, "You are not authorized to perform this action");
    }
}

#[test]
fn resolution_failures_are_server_faults() {
    assert_eq!(resolve_error_response(&ResolveError::ProviderUnavailable).status, 500);
    assert_eq!(resolve_error_response(&ResolveError::InternalError).status, 500);
}

#[test]
fn pagination_failures_are_bad_requests_with_reasons() {
    let r = pagination_error_response(&PaginationError::InvalidPerPage);
    assert_eq!(r.status, 400);
    assert_eq!(r.detail, "Invalid per_page query: min=1, max=25");
    let r = pagination_error_response(&PaginationError::InvalidPage);
    assert_eq!(r.status, 400);
    assert_eq!(r.detail, "Invalid page query: min=1");
}

#[test]
fn path_failures_split_caller_and_server_faults() {
    for issue in [
        PathIssue::WrongNumberOfParameters,
        PathIssue::ParseErrorAtKey,
        PathIssue::ParseErrorAtIndex,
        PathIssue::ParseError,
        PathIssue::InvalidUtf8,
    ] {
        let (status, _) = path_rejection_response(&issue, "m".to_string(), None);
        assert_eq!(status, 400);
    }
    for issue in [PathIssue::UnsupportedType, PathIssue::MissingParams, PathIssue::Other] {
        let (status, _) = path_rejection_response(&issue, "m".to_string(), None);
        assert_eq!(status, 500);
    }
    let (_, body) = path_rejection_response(
        &PathIssue::ParseErrorAtKey,
        "bad id".to_string(),
        Some("user_id".to_string()),
    );
    assert_eq!(body.message, "bad id");
    assert_eq!(body.location.as_deref(), Some("user_id"));
}

#[test]
fn body_and_query_rejections_are_bad_requests() {
    let (status, body) = json_parse_failure();
    assert_eq!(status, 400);
    assert_eq!(body.error, "Failed to parse JSON Body.");
    let (status, body) = query_rejection_response("no such field".to_string());
    assert_eq!(status, 400);
    assert_eq!(body.message, "no such field");
}
