//! Failures of a resolution, their classification, and the responses that
//! report them.

use vstd::prelude::*;
use crate::json::{json_quote, json_string_literal};

verus! {

/// The kinds a failed resolution is reported as.
#[derive(Debug, Clone, Copy, PartialEq, Eq, Structural)]
pub enum ErrorKind {
    InvalidDid,
    NotFound,
    MethodNotSupported,
    RepresentationNotSupported,
    InternalError,
}

impl ErrorKind {
    /// The HTTP status that reports this kind.
    pub open spec fn spec_status(self) -> u16 {
        match self {
            ErrorKind::InvalidDid => 400,
            ErrorKind::NotFound => 404,
            ErrorKind::MethodNotSupported => 501,
            ErrorKind::RepresentationNotSupported => 406,
            ErrorKind::InternalError => 500,
        }
    }

    /// The stable, machine-readable code of this kind.
    pub open spec fn spec_code(self) -> Seq<char> {
        match self {
            ErrorKind::InvalidDid => "invalidDid"@,
            ErrorKind::NotFound => "notFound"@,
            ErrorKind::MethodNotSupported => "methodNotSupported"@,
            ErrorKind::RepresentationNotSupported => "representationNotSupported"@,
            ErrorKind::InternalError => "internalError"@,
        }
    }

    /// The HTTP status that reports this kind.
    pub fn status(self) -> (status: u16)
        ensures
            status == self.spec_status(),
    {
        match self {
            ErrorKind::InvalidDid => 400,
            ErrorKind::NotFound => 404,
            ErrorKind::MethodNotSupported => 501,
            ErrorKind::RepresentationNotSupported => 406,
            ErrorKind::InternalError => 500,
        }
    }

    /// The stable, machine-readable code of this kind.
    pub fn code(self) -> (code: String)
        ensures
            code@ == self.spec_code(),
    {
        match self {
            ErrorKind::InvalidDid => "invalidDid".to_owned(),
            ErrorKind::NotFound => "notFound".to_owned(),
            ErrorKind::MethodNotSupported => "methodNotSupported".to_owned(),
            ErrorKind::RepresentationNotSupported => "representationNotSupported".to_owned(),
            ErrorKind::InternalError => "internalError".to_owned(),
        }
    }
}

/// What the resolver reported when it failed.
#[derive(Debug, Clone, Copy, PartialEq, Eq, Structural)]
pub enum ResolverFault {
    InvalidDid,
    NotFound,
    MethodNotSupported,
    RepresentationNotSupported,
    /// Any other failure the resolver reports.
    Other,
}

impl ResolverFault {
    /// The kind a resolver fault is reported as.
    pub open spec fn spec_kind(self) -> ErrorKind {
        match self {
            ResolverFault::InvalidDid => ErrorKind::InvalidDid,
            ResolverFault::NotFound => ErrorKind::NotFound,
            ResolverFault::MethodNotSupported => ErrorKind::MethodNotSupported,
            ResolverFault::RepresentationNotSupported => ErrorKind::RepresentationNotSupported,
            ResolverFault::Other => ErrorKind::InternalError,
        }
    }

    /// The kind a resolver fault is reported as.
    pub fn kind(self) -> (kind: ErrorKind)
        ensures
            kind == self.spec_kind(),
    {
        match self {
            ResolverFault::InvalidDid => ErrorKind::InvalidDid,
            ResolverFault::NotFound => ErrorKind::NotFound,
            ResolverFault::MethodNotSupported => ErrorKind::MethodNotSupported,
            ResolverFault::RepresentationNotSupported => ErrorKind::RepresentationNotSupported,
            ResolverFault::Other => ErrorKind::InternalError,
        }
    }
}

/// A failure reported by the resolver: what went wrong, and its message.
#[derive(Debug, Clone)]
pub struct ResolverError {
    pub fault: ResolverFault,
    pub message: String,
}

/// A failure that arrived through the generic channel, by what it turned out
/// to be underneath.
#[derive(Debug, Clone)]
pub enum OpaqueCause {
    /// Underneath, a failure of the resolver.
    Resolver(ResolverError),
    /// Underneath, a failure to parse the identifier; holds its message.
    Parse(String),
    /// Nothing recognisable; holds the message.
    Unrecognized(String),
}

/// Why a resolution request failed.
#[derive(Debug, Clone)]
pub enum DidSovDriverError {
    /// The identifier did not parse; holds the parser's message.
    ParseError(String),
    /// The resolver reported a failure.
    ResolveError(ResolverError),
    /// A failure from the generic channel.
    Other(OpaqueCause),
}

impl DidSovDriverError {
    /// The kind this failure is reported as. A failure from the generic
    /// channel counts as what it is underneath, and as an internal error only
    /// where nothing is recognised.
    pub open spec fn spec_kind(self) -> ErrorKind {
        match self {
            DidSovDriverError::ParseError(_) => ErrorKind::InvalidDid,
            DidSovDriverError::ResolveError(e) => e.fault.spec_kind(),
            DidSovDriverError::Other(OpaqueCause::Resolver(e)) => e.fault.spec_kind(),
            DidSovDriverError::Other(OpaqueCause::Parse(_)) => ErrorKind::InvalidDid,
            DidSovDriverError::Other(OpaqueCause::Unrecognized(_)) => ErrorKind::InternalError,
        }
    }

    /// The message of the underlying cause.
    pub open spec fn spec_details(self) -> Seq<char> {
        match self {
            DidSovDriverError::ParseError(m) => m@,
            DidSovDriverError::ResolveError(e) => e.message@,
            DidSovDriverError::Other(OpaqueCause::Resolver(e)) => e.message@,
            DidSovDriverError::Other(OpaqueCause::Parse(m)) => m@,
            DidSovDriverError::Other(OpaqueCause::Unrecognized(m)) => m@,
        }
    }

    /// The response that reports this failure: the status and code of its
    /// kind, and the message of the underlying cause as details.
    pub fn into_response(self) -> (response: ErrorResponse)
        ensures
            reports(response, self),
    {
        match self {
            DidSovDriverError::ParseError(message) => parse_error_response(message),
            DidSovDriverError::ResolveError(err) => resolver_error_response(err),
            DidSovDriverError::Other(cause) => match cause {
                OpaqueCause::Resolver(err) => resolver_error_response(err),
                OpaqueCause::Parse(message) => parse_error_response(message),
                OpaqueCause::Unrecognized(message) => ErrorResponse {
                    status: ErrorKind::InternalError.status(),
                    error: ErrorKind::InternalError.code(),
                    details: message,
                },
            },
        }
    }
}

/// The response for a failure of the resolver.
fn resolver_error_response(err: ResolverError) -> (response: ErrorResponse)
    ensures
        response.status == err.fault.spec_kind().spec_status(),
        response.error@ == err.fault.spec_kind().spec_code(),
        response.details@ == err.message@,
{
    let kind = err.fault.kind();
    ErrorResponse { status: kind.status(), error: kind.code(), details: err.message }
}

/// The response for an identifier that did not parse.
fn parse_error_response(message: String) -> (response: ErrorResponse)
    ensures
        response.status == 400,
        response.error@ == "invalidDid"@,
        response.details@ == message@,
{
    ErrorResponse {
        status: ErrorKind::InvalidDid.status(),
        error: ErrorKind::InvalidDid.code(),
        details: message,
    }
}

/// A failure as it is reported: the status, the code of its kind, and the
/// message of the underlying cause.
#[derive(Debug, Clone)]
pub struct ErrorResponse {
    pub status: u16,
    pub error: String,
    pub details: String,
}

/// Whether `response` is the report of the failure `e`.
pub open spec fn reports(response: ErrorResponse, e: DidSovDriverError) -> bool {
    &&& response.status == e.spec_kind().spec_status()
    &&& response.error@ == e.spec_kind().spec_code()
    &&& response.details@ == e.spec_details()
}

/// The body could not be written as JSON.
#[derive(Debug, Clone, Copy, PartialEq, Eq, Structural)]
pub struct EncodingFailed;

/// The text of an error body with the given JSON literals as its two members.
pub open spec fn error_body_text(code_literal: Seq<char>, details_literal: Seq<char>) -> Seq<char> {
    "{\"error\":"@ + code_literal + ",\"details\":"@ + details_literal + "}"@
}

/// Frames an error body from the JSON literals of its two members.
pub fn error_body(code_literal: &str, details_literal: &str) -> (body: String)
    ensures
        body@ == error_body_text(code_literal@, details_literal@),
{
    let mut body = "{\"error\":".to_owned();
    body.append(code_literal);
    body.append(",\"details\":");
    body.append(details_literal);
    body.append("}");
    body
}

impl ErrorResponse {
    /// The text of this response's JSON body: the object with the members
    /// `error` and `details`, in that order, each written as a JSON string;
    /// or nothing, where one of the two cannot be written as one.
    pub open spec fn spec_body(self) -> Option<Seq<char>> {
        match (json_string_literal(self.error@), json_string_literal(self.details@)) {
            (Some(code), Some(details)) => Some(error_body_text(code, details)),
            _ => None,
        }
    }

    /// The JSON body of this response: an object with the members `error` and
    /// `details`, in that order. It fails exactly where the serializer
    /// refuses one of the two strings.
    pub fn body(&self) -> (body: Result<String, EncodingFailed>)
        ensures
            match body {
                Ok(text) => self.spec_body() == Some(text@),
                Err(_) => self.spec_body() is None,
            },
    {
        let code = match json_quote(self.error.as_str()) {
            Ok(text) => text,
            Err(_) => {
                return Err(EncodingFailed);
            },
        };
        let details = match json_quote(self.details.as_str()) {
            Ok(text) => text,
            Err(_) => {
                return Err(EncodingFailed);
            },
        };
        Ok(error_body(code.as_str(), details.as_str()))
    }
}

/// Each kind has one status of its own: two kinds that share a status are
/// the same kind, and no kind is reported as a success.
pub proof fn law_one_status_per_kind(a: ErrorKind, b: ErrorKind)
    ensures
        a.spec_status() == b.spec_status() <==> a == b,
        400 <= a.spec_status() < 600,
{
}

/// Each kind has one code of its own: two kinds that share a code are the
/// same kind.
pub proof fn law_one_code_per_kind(a: ErrorKind, b: ErrorKind)
    ensures
        a.spec_code() == b.spec_code() <==> a == b,
{
    reveal_strlit("invalidDid");
    reveal_strlit("notFound");
    reveal_strlit("methodNotSupported");
    reveal_strlit("representationNotSupported");
    reveal_strlit("internalError");
    assert(ErrorKind::InvalidDid.spec_code().len() == 10);
    assert(ErrorKind::NotFound.spec_code().len() == 8);
    assert(ErrorKind::MethodNotSupported.spec_code().len() == 18);
    assert(ErrorKind::RepresentationNotSupported.spec_code().len() == 26);
    assert(ErrorKind::InternalError.spec_code().len() == 13);
}

/// The status, code and details of a report are fixed by the failure: two
/// reports of the same failure agree in all three.
pub proof fn law_same_failure_same_report(e: DidSovDriverError, first: ErrorResponse, second: ErrorResponse)
    requires
        reports(first, e),
        reports(second, e),
    ensures
        first.status == second.status,
        first.error@ == second.error@,
        first.details@ == second.details@,
{
}

/// A failure from the generic channel is reported as what it is underneath:
/// a resolver failure as if the resolver had reported it directly, a parse
/// failure as an invalid identifier, and anything else as an internal error.
pub proof fn law_opaque_cause_is_recovered(cause: OpaqueCause)
    ensures
        cause matches OpaqueCause::Resolver(e) ==> {
            &&& DidSovDriverError::Other(cause).spec_kind() == DidSovDriverError::ResolveError(e).spec_kind()
            &&& DidSovDriverError::Other(cause).spec_details() == DidSovDriverError::ResolveError(e).spec_details()
        },
        cause matches OpaqueCause::Parse(m) ==> {
            &&& DidSovDriverError::Other(cause).spec_kind() == ErrorKind::InvalidDid
            &&& DidSovDriverError::Other(cause).spec_details() == m@
        },
        cause matches OpaqueCause::Unrecognized(m) ==> {
            &&& DidSovDriverError::Other(cause).spec_kind() == ErrorKind::InternalError
            &&& DidSovDriverError::Other(cause).spec_details() == m@
        },
{
}

} // verus!
