//! Errors of the storage engine and of the HTTP API, and how the former
//! become the latter.

use vstd::prelude::*;

use crate::text::{push_str, string_of};

verus! {

/// What can go wrong in the storage engine.
#[derive(Clone, Debug)]
pub enum StorageError {
    NotFound(String),
    BucketNotFound(String),
    UploadSessionNotFound(String),
    UploadSessionExpired(String),
    AlreadyExists(String),
    Forbidden(String),
    BadRequest(String),
    /// An I/O failure, with its message.
    Io(String),
    /// A database failure, with its message.
    Database(String),
    Internal(String),
}

/// The human-readable text of a storage error.
pub open spec fn storage_error_text(e: StorageError) -> Seq<char> {
    match e {
        StorageError::NotFound(m) => "objeto não encontrado: "@ + m@,
        StorageError::BucketNotFound(m) => "bucket não encontrado: "@ + m@,
        StorageError::UploadSessionNotFound(m) => "sessão de upload não encontrada: "@ + m@,
        StorageError::UploadSessionExpired(m) => "sessão de upload expirada: "@ + m@,
        StorageError::AlreadyExists(m) => "objeto já existe: "@ + m@,
        StorageError::Forbidden(m) => "acesso negado: "@ + m@,
        StorageError::BadRequest(m) => "requisição inválida: "@ + m@,
        StorageError::Io(m) => "erro de I/O: "@ + m@,
        StorageError::Database(m) => "erro de banco de dados: "@ + m@,
        StorageError::Internal(m) => "erro interno: "@ + m@,
    }
}

impl StorageError {
    /// The human-readable text of the error.
    pub fn message(&self) -> (s: String)
        ensures
            s@ == storage_error_text(*self),
    {
        let mut out: Vec<char> = Vec::new();
        let m = match self {
            StorageError::NotFound(m) => {
                push_str(&mut out, "objeto não encontrado: ");
                m
            },
            StorageError::BucketNotFound(m) => {
                push_str(&mut out, "bucket não encontrado: ");
                m
            },
            StorageError::UploadSessionNotFound(m) => {
                push_str(&mut out, "sessão de upload não encontrada: ");
                m
            },
            StorageError::UploadSessionExpired(m) => {
                push_str(&mut out, "sessão de upload expirada: ");
                m
            },
            StorageError::AlreadyExists(m) => {
                push_str(&mut out, "objeto já existe: ");
                m
            },
            StorageError::Forbidden(m) => {
                push_str(&mut out, "acesso negado: ");
                m
            },
            StorageError::BadRequest(m) => {
                push_str(&mut out, "requisição inválida: ");
                m
            },
            StorageError::Io(m) => {
                push_str(&mut out, "erro de I/O: ");
                m
            },
            StorageError::Database(m) => {
                push_str(&mut out, "erro de banco de dados: ");
                m
            },
            StorageError::Internal(m) => {
                push_str(&mut out, "erro interno: ");
                m
            },
        };
        push_str(&mut out, m.as_str());
        string_of(out.as_slice())
    }
}

/// An HTTP error: a status code and a message.
#[derive(Clone, Debug)]
pub struct ApiError {
    pub status: u16,
    pub message: String,
}

/// The status name of the error body for an HTTP status code.
pub open spec fn status_name(status: u16) -> Seq<char> {
    if status == 400 {
        "INVALID_ARGUMENT"@
    } else if status == 401 {
        "UNAUTHENTICATED"@
    } else if status == 403 {
        "PERMISSION_DENIED"@
    } else if status == 404 {
        "NOT_FOUND"@
    } else if status == 409 {
        "ALREADY_EXISTS"@
    } else {
        "INTERNAL"@
    }
}

/// The HTTP error for a storage error: missing things are 404, refusals 403,
/// bad requests and expired sessions 400, conflicts 409, anything else 500
/// with the error's text.
pub open spec fn api_error_for(e: StorageError) -> (u16, Seq<char>) {
    match e {
        StorageError::NotFound(m) => (404, m@),
        StorageError::BucketNotFound(m) => (404, m@),
        StorageError::UploadSessionNotFound(m) => (404, m@),
        StorageError::Forbidden(m) => (403, m@),
        StorageError::BadRequest(m) => (400, m@),
        StorageError::UploadSessionExpired(m) => (400, m@),
        StorageError::AlreadyExists(m) => (409, m@),
        _ => (500, storage_error_text(e)),
    }
}

/// The body of an error response.
#[derive(Clone, Debug)]
pub struct ErrorResponse {
    pub error: ErrorDetail,
}

/// Code, message and status name of an error response.
#[derive(Clone, Debug)]
pub struct ErrorDetail {
    pub code: u16,
    pub message: String,
    pub status: String,
}

impl ApiError {
    /// 400 Bad Request.
    pub fn bad_request(msg: String) -> (e: ApiError)
        ensures
            e.status == 400 && e.message == msg,
    {
        ApiError { status: 400, message: msg }
    }

    /// 401 Unauthorized.
    pub fn unauthorized(msg: String) -> (e: ApiError)
        ensures
            e.status == 401 && e.message == msg,
    {
        ApiError { status: 401, message: msg }
    }

    /// 403 Forbidden.
    pub fn forbidden(msg: String) -> (e: ApiError)
        ensures
            e.status == 403 && e.message == msg,
    {
        ApiError { status: 403, message: msg }
    }

    /// 404 Not Found.
    pub fn not_found(msg: String) -> (e: ApiError)
        ensures
            e.status == 404 && e.message == msg,
    {
        ApiError { status: 404, message: msg }
    }

    /// 500 Internal Server Error.
    pub fn internal(msg: String) -> (e: ApiError)
        ensures
            e.status == 500 && e.message == msg,
    {
        ApiError { status: 500, message: msg }
    }

    /// The HTTP error for a storage error.
    pub fn from_storage_error(err: StorageError) -> (e: ApiError)
        ensures
            (e.status, e.message@) == api_error_for(err),
    {
        let text = err.message();
        match err {
            StorageError::NotFound(msg) | StorageError::BucketNotFound(msg)
            | StorageError::UploadSessionNotFound(msg) => ApiError::not_found(msg),
            StorageError::Forbidden(msg) => ApiError::forbidden(msg),
            StorageError::BadRequest(msg) | StorageError::UploadSessionExpired(msg) => {
                ApiError::bad_request(msg)
            },
            StorageError::AlreadyExists(msg) => ApiError { status: 409, message: msg },
            _ => ApiError::internal(text),
        }
    }

    /// The status name used in the error body.
    pub fn status_name(&self) -> (s: String)
        ensures
            s@ == status_name(self.status),
    {
        let name = if self.status == 400 {
            "INVALID_ARGUMENT"
        } else if self.status == 401 {
            "UNAUTHENTICATED"
        } else if self.status == 403 {
            "PERMISSION_DENIED"
        } else if self.status == 404 {
            "NOT_FOUND"
        } else if self.status == 409 {
            "ALREADY_EXISTS"
        } else {
            "INTERNAL"
        };
        name.to_owned()
    }

    /// The body sent for this error.
    pub fn to_response(self) -> (r: ErrorResponse)
        ensures
            r.error.code == self.status,
            r.error.message == self.message,
            r.error.status@ == status_name(self.status),
    {
        let status = self.status_name();
        ErrorResponse { error: ErrorDetail { code: self.status, message: self.message, status } }
    }
}

/// Every storage error becomes one of the HTTP statuses 400, 403, 404, 409
/// or 500, and its error body names that status.
pub proof fn law_storage_errors_map_to_known_statuses(e: StorageError)
    ensures
        ({
            let s = api_error_for(e).0;
            &&& s == 400 || s == 403 || s == 404 || s == 409 || s == 500
            &&& (s == 404 ==> status_name(s) == "NOT_FOUND"@)
            &&& (s == 409 ==> status_name(s) == "ALREADY_EXISTS"@)
            &&& (s == 500 ==> status_name(s) == "INTERNAL"@)
        }),
{
}

} // verus!
