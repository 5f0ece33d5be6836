//! Closed error taxonomy for the identity and pagination subsystems, and
//! the single place where each failure class is mapped to a
//! transport-level response.

use vstd::prelude::*;

verus! {

/// Failures of bearer-credential verification. All of these are surfaced
/// uniformly to the caller as an unauthorized response; the distinctions
/// exist for logging and for the verifier's own state machine.
#[derive(Clone, Copy, Debug, PartialEq, Eq, Structural)]
pub enum AuthError {
    /// The structural header of the credential could not be decoded.
    MalformedToken,
    /// The header carries no key id, or no key in the current key set
    /// matches it (after at most one refresh).
    KeyNotFound,
    /// The selected key's declared algorithm is not an accepted asymmetric
    /// algorithm, its material is unusable, or the credential's header
    /// names a different algorithm than the key declares.
    UnsupportedAlgorithm,
    /// The cryptographic signature does not verify under the selected key.
    InvalidSignature,
    /// The expiry claim is absent or not in the future.
    ExpiredToken,
    /// The audience claim does not include the expected audience.
    AudienceMismatch,
}

/// Failures of pagination-parameter validation.
#[derive(Clone, Copy, Debug, PartialEq, Eq, Structural)]
pub enum PaginationError {
    /// `page` was supplied and is below 1.
    InvalidPage,
    /// `per_page` was supplied and lies outside the accepted window.
    InvalidPerPage,
}

/// Failures of identity resolution that are not the caller's fault.
#[derive(Clone, Copy, Debug, PartialEq, Eq, Structural)]
pub enum ResolveError {
    /// The key or profile provider could not be reached, timed out, or
    /// returned an unusable payload.
    ProviderUnavailable,
    /// A persistence failure not explained by a known constraint.
    InternalError,
}

/// A transport-level response: a status code and a human-readable detail.
/// Rendering it as an HTTP body is left to the surrounding server glue.
#[derive(Clone, Debug)]
pub struct ErrorResponse {
    pub status: u16,
    pub detail: String,
}

/// A response with the given status and detail: the single constructor
/// every canned response goes through.
pub fn custom(status: u16, detail: String) -> (r: ErrorResponse)
    ensures
        r.status == status,
        r.detail == detail,
{
    ErrorResponse { status, detail }
}

/// The uniform response for every verification failure: internal
/// distinctions are logged, not leaked.
pub fn unauthorized() -> (r: ErrorResponse)
    ensures
        r.status == 401,
        r.detail@ == "You are not authorized to perform this action"@,
{
    custom(401, "You are not authorized to perform this action".to_owned())
}

/// A client error with a human-readable reason.
pub fn bad_request(reason: &str) -> (r: ErrorResponse)
    ensures
        r.status == 400,
        r.detail@ == reason@,
{
    custom(400, reason.to_owned())
}

pub fn not_found() -> (r: ErrorResponse)
    ensures
        r.status == 404,
        r.detail@ == "Not Found"@,
{
    custom(404, "Not Found".to_owned())
}

/// A server-fault response. The caller sees only a generic message; the
/// full detail belongs in the server's log, not in the response.
pub fn internal_server_error() -> (r: ErrorResponse)
    ensures
        r.status == 500,
        r.detail@ == "Internal Server Error"@,
{
    custom(500, "Internal Server Error".to_owned())
}

/// Every verification failure maps to the same unauthorized response.
pub fn auth_error_response(e: &AuthError) -> (r: ErrorResponse)
    ensures
        r.status == 401,
        r.detail@ == "You are not authorized to perform this action"@,
{
    let _ = e;
    unauthorized()
}

/// Resolution failures reflect infrastructure, not caller fault: they are
/// surfaced as a server error, distinct from unauthorized.
pub fn resolve_error_response(e: &ResolveError) -> (r: ErrorResponse)
    ensures
        r.status == 500,
        r.detail@ == "Internal Server Error"@,
{
    let _ = e;
    internal_server_error()
}

/// Pagination validation failures are the caller's fault: a bad request
/// with the reason spelled out.
pub fn pagination_error_response(e: &PaginationError) -> (r: ErrorResponse)
    ensures
        r.status == 400,
        e is InvalidPerPage ==> r.detail@ == "Invalid per_page query: min=1, max=25"@,
        e is InvalidPage ==> r.detail@ == "Invalid page query: min=1"@,
{
    match e {
        PaginationError::InvalidPerPage => bad_request("Invalid per_page query: min=1, max=25"),
        PaginationError::InvalidPage => bad_request("Invalid page query: min=1"),
    }
}

/// The error payload of a rejected JSON request body.
#[derive(Clone, Debug)]
pub struct JsonError {
    pub error: String,
}

/// The error payload of a rejected path parameter.
#[derive(Clone, Debug)]
pub struct PathError {
    pub message: String,
    pub location: Option<String>,
}

/// The error payload of a rejected query string.
#[derive(Clone, Debug)]
pub struct InternalQueryError {
    pub message: String,
}

/// The ways a path parameter can fail, as the server glue reports them.
#[derive(Clone, Copy, Debug, PartialEq, Eq, Structural)]
pub enum PathIssue {
    /// The route and the handler disagree on the number of parameters.
    WrongNumberOfParameters,
    /// A named parameter failed to parse.
    ParseErrorAtKey,
    /// A positional parameter failed to parse.
    ParseErrorAtIndex,
    /// The parameter list as a whole failed to parse.
    ParseError,
    /// A parameter held invalid UTF-8.
    InvalidUtf8,
    /// The handler asked for a parameter type no route can supply: the
    /// programmer's fault, not the caller's.
    UnsupportedType,
    /// The route machinery supplied no parameters at all.
    MissingParams,
    /// Anything else.
    Other,
}

/// Which status each path failure earns: the caller's mistakes are bad
/// requests; the handler's own (an unsupported parameter type, missing
/// parameters) are server faults.
pub open spec fn spec_path_issue_status(k: PathIssue) -> u16 {
    match k {
        PathIssue::WrongNumberOfParameters => 400,
        PathIssue::ParseErrorAtKey => 400,
        PathIssue::ParseErrorAtIndex => 400,
        PathIssue::ParseError => 400,
        PathIssue::InvalidUtf8 => 400,
        PathIssue::UnsupportedType => 500,
        PathIssue::MissingParams => 500,
        PathIssue::Other => 500,
    }
}

/// The response for a rejected path parameter: the status prescribed for
/// the failure, with the report carried through.
pub fn path_rejection_response(issue: &PathIssue, message: String, location: Option<String>) -> (r:
    (u16, PathError))
    ensures
        r.0 == spec_path_issue_status(*issue),
        r.1.message == message,
        r.1.location == location,
{
    let status: u16 = match issue {
        PathIssue::WrongNumberOfParameters => 400,
        PathIssue::ParseErrorAtKey => 400,
        PathIssue::ParseErrorAtIndex => 400,
        PathIssue::ParseError => 400,
        PathIssue::InvalidUtf8 => 400,
        PathIssue::UnsupportedType => 500,
        PathIssue::MissingParams => 500,
        PathIssue::Other => 500,
    };
    (status, PathError { message, location })
}

/// The response for a JSON body that could not be parsed at all.
pub fn json_parse_failure() -> (r: (u16, JsonError))
    ensures
        r.0 == 400,
        r.1.error@ == "Failed to parse JSON Body."@,
{
    (400, JsonError { error: "Failed to parse JSON Body.".to_owned() })
}

/// The response for a query string that could not be deserialized.
pub fn query_rejection_response(message: String) -> (r: (u16, InternalQueryError))
    ensures
        r.0 == 400,
        r.1.message == message,
{
    (400, InternalQueryError { message })
}

} // verus!
