use vstd::prelude::*;

verus! {

/// The canonical shape of a non-success HTTP body: a remote error code
/// and a human-readable message.
#[derive(Debug)]
pub struct ErrorResponse {
    pub error_code: String,
    pub message: String,
}

/// The error taxonomy. Seven kinds classify a remote error payload;
/// `InternalError` wraps a failure that originated locally and carries
/// the underlying cause's text.
#[derive(Debug)]
pub enum HttpError {
    BadRequest(String),
    Unauthorized(String),
    PermissionDenied(String),
    NotFound(String),
    RequestLimitExceeded(String),
    InternalServerError(String),
    TemporarilyUnavailable(String),
    InternalError(String),
}

/// Whether `code` is one of the known codes that classify away from
/// `InternalServerError`.
pub open spec fn known_non_ise_code(code: Seq<char>) -> bool {
    ||| code == "BAD_REQUEST"@
    ||| code == "INVALID_PARAMETER_VALUE"@
    ||| code == "UNAUTHORIZED"@
    ||| code == "PERMISSION_DENIED"@
    ||| code == "NOT_FOUND"@
    ||| code == "REQUEST_LIMIT_EXCEEDED"@
    ||| code == "TEMPORARILY_UNAVAILABLE"@
}

/// The classification policy: which error kind a `{error_code, message}`
/// payload maps to. For every code and message exactly one kind satisfies
/// this predicate, and it always carries the payload's message; every code
/// outside the known set falls back to `InternalServerError`.
pub open spec fn classifies(code: Seq<char>, msg: Seq<char>, e: HttpError) -> bool {
    match e {
        HttpError::BadRequest(m) => m@ == msg && (code == "BAD_REQUEST"@ || code
            == "INVALID_PARAMETER_VALUE"@),
        HttpError::Unauthorized(m) => m@ == msg && code == "UNAUTHORIZED"@,
        HttpError::PermissionDenied(m) => m@ == msg && code == "PERMISSION_DENIED"@,
        HttpError::NotFound(m) => m@ == msg && code == "NOT_FOUND"@,
        HttpError::RequestLimitExceeded(m) => m@ == msg && code == "REQUEST_LIMIT_EXCEEDED"@,
        HttpError::TemporarilyUnavailable(m) => m@ == msg && code == "TEMPORARILY_UNAVAILABLE"@,
        HttpError::InternalServerError(m) => m@ == msg && !known_non_ise_code(code),
        HttpError::InternalError(_) => false,
    }
}

/// Whether two taxonomy values are the same kind and carry the same text.
pub open spec fn same_error(a: HttpError, b: HttpError) -> bool {
    match (a, b) {
        (HttpError::BadRequest(x), HttpError::BadRequest(y)) => x@ == y@,
        (HttpError::Unauthorized(x), HttpError::Unauthorized(y)) => x@ == y@,
        (HttpError::PermissionDenied(x), HttpError::PermissionDenied(y)) => x@ == y@,
        (HttpError::NotFound(x), HttpError::NotFound(y)) => x@ == y@,
        (HttpError::RequestLimitExceeded(x), HttpError::RequestLimitExceeded(y)) => x@ == y@,
        (HttpError::InternalServerError(x), HttpError::InternalServerError(y)) => x@ == y@,
        (HttpError::TemporarilyUnavailable(x), HttpError::TemporarilyUnavailable(y)) => x@ == y@,
        (HttpError::InternalError(x), HttpError::InternalError(y)) => x@ == y@,
        _ => false,
    }
}

/// Classification is deterministic and total: any two kinds that classify
/// the same payload are the same kind with the same message.
pub proof fn lemma_classification_deterministic(
    code: Seq<char>,
    msg: Seq<char>,
    a: HttpError,
    b: HttpError,
)
    requires
        classifies(code, msg, a),
        classifies(code, msg, b),
    ensures
        same_error(a, b),
{
    reveal_strlit("BAD_REQUEST");
    reveal_strlit("INVALID_PARAMETER_VALUE");
    reveal_strlit("UNAUTHORIZED");
    reveal_strlit("PERMISSION_DENIED");
    reveal_strlit("NOT_FOUND");
    reveal_strlit("REQUEST_LIMIT_EXCEEDED");
    reveal_strlit("TEMPORARILY_UNAVAILABLE");
    assert("BAD_REQUEST"@.len() == 11);
    assert("INVALID_PARAMETER_VALUE"@.len() == 23);
    assert("UNAUTHORIZED"@.len() == 12);
    assert("PERMISSION_DENIED"@.len() == 17);
    assert("NOT_FOUND"@.len() == 9);
    assert("REQUEST_LIMIT_EXCEEDED"@.len() == 22);
    assert("TEMPORARILY_UNAVAILABLE"@.len() == 23);
    assert("INVALID_PARAMETER_VALUE"@[0] == 'I');
    assert("TEMPORARILY_UNAVAILABLE"@[0] == 'T');
}

impl HttpError {
    /// Maps a remote error payload to its kind. Known codes take their own
    /// kind; any unrecognized code falls back to `InternalServerError`.
    /// The payload's message is always carried along.
    pub fn from_error_response(response: ErrorResponse) -> (e: HttpError)
        ensures
            classifies(response.error_code@, response.message@, e),
    {
        let code = response.error_code.as_str();
        if crate::text::str_eq(code, "BAD_REQUEST") || crate::text::str_eq(
            code,
            "INVALID_PARAMETER_VALUE",
        ) {
            HttpError::BadRequest(response.message)
        } else if crate::text::str_eq(code, "UNAUTHORIZED") {
            HttpError::Unauthorized(response.message)
        } else if crate::text::str_eq(code, "PERMISSION_DENIED") {
            HttpError::PermissionDenied(response.message)
        } else if crate::text::str_eq(code, "NOT_FOUND") {
            HttpError::NotFound(response.message)
        } else if crate::text::str_eq(code, "REQUEST_LIMIT_EXCEEDED") {
            HttpError::RequestLimitExceeded(response.message)
        } else if crate::text::str_eq(code, "TEMPORARILY_UNAVAILABLE") {
            HttpError::TemporarilyUnavailable(response.message)
        } else {
            HttpError::InternalServerError(response.message)
        }
    }

    /// The message view of this error, whatever its kind.
    pub open spec fn message_view(&self) -> Seq<char> {
        match self {
            HttpError::BadRequest(m) => m@,
            HttpError::Unauthorized(m) => m@,
            HttpError::PermissionDenied(m) => m@,
            HttpError::NotFound(m) => m@,
            HttpError::RequestLimitExceeded(m) => m@,
            HttpError::InternalServerError(m) => m@,
            HttpError::TemporarilyUnavailable(m) => m@,
            HttpError::InternalError(m) => m@,
        }
    }

    /// The human-readable message this error carries.
    pub fn message(&self) -> (m: &String)
        ensures
            m@ == self.message_view(),
    {
        match self {
            HttpError::BadRequest(m) => m,
            HttpError::Unauthorized(m) => m,
            HttpError::PermissionDenied(m) => m,
            HttpError::NotFound(m) => m,
            HttpError::RequestLimitExceeded(m) => m,
            HttpError::InternalServerError(m) => m,
            HttpError::TemporarilyUnavailable(m) => m,
            HttpError::InternalError(m) => m,
        }
    }
}

} // verus!
