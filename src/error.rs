//! Error kinds reported by the library, and their outward form.

use vstd::prelude::*;
use vstd::string::*;

verus! {

/// The failures an operation reports, each with a human-readable detail.
#[derive(Debug, Clone, PartialEq, Eq)]
pub enum AppError {
    Database(String),
    Authentication(String),
    Authorization(String),
    NotFound(String),
    Validation(String),
    Internal(String),
    Io(String),
    Serialization(String),
}

/// Machine-readable code of each error kind.
pub open spec fn error_code(e: AppError) -> Seq<char> {
    match e {
        AppError::Database(_) => "DATABASE_ERROR"@,
        AppError::Authentication(_) => "AUTH_ERROR"@,
        AppError::Authorization(_) => "FORBIDDEN"@,
        AppError::NotFound(_) => "NOT_FOUND"@,
        AppError::Validation(_) => "VALIDATION_ERROR"@,
        AppError::Internal(_) => "INTERNAL_ERROR"@,
        AppError::Io(_) => "IO_ERROR"@,
        AppError::Serialization(_) => "SERIALIZATION_ERROR"@,
    }
}

/// Heading placed before the detail when an error is shown to a person.
pub open spec fn error_heading(e: AppError) -> Seq<char> {
    match e {
        AppError::Database(_) => "Erro de banco de dados: "@,
        AppError::Authentication(_) => "Erro de autenticação: "@,
        AppError::Authorization(_) => "Erro de autorização: "@,
        AppError::NotFound(_) => "Recurso não encontrado: "@,
        AppError::Validation(_) => "Dados inválidos: "@,
        AppError::Internal(_) => "Erro interno: "@,
        AppError::Io(_) => "Erro de IO: "@,
        AppError::Serialization(_) => "Erro de serialização: "@,
    }
}

/// The detail an error carries.
pub open spec fn error_detail(e: AppError) -> String {
    match e {
        AppError::Database(s) => s,
        AppError::Authentication(s) => s,
        AppError::Authorization(s) => s,
        AppError::NotFound(s) => s,
        AppError::Validation(s) => s,
        AppError::Internal(s) => s,
        AppError::Io(s) => s,
        AppError::Serialization(s) => s,
    }
}

impl AppError {
    /// The machine-readable code of this error's kind.
    pub fn code(&self) -> (r: &'static str)
        ensures
            r@ == error_code(*self),
    {
        match self {
            AppError::Database(_) => "DATABASE_ERROR",
            AppError::Authentication(_) => "AUTH_ERROR",
            AppError::Authorization(_) => "FORBIDDEN",
            AppError::NotFound(_) => "NOT_FOUND",
            AppError::Validation(_) => "VALIDATION_ERROR",
            AppError::Internal(_) => "INTERNAL_ERROR",
            AppError::Io(_) => "IO_ERROR",
            AppError::Serialization(_) => "SERIALIZATION_ERROR",
        }
    }

    /// The detail this error carries.
    pub fn detail(&self) -> (r: &String)
        ensures
            *r == error_detail(*self),
    {
        match self {
            AppError::Database(s) => s,
            AppError::Authentication(s) => s,
            AppError::Authorization(s) => s,
            AppError::NotFound(s) => s,
            AppError::Validation(s) => s,
            AppError::Internal(s) => s,
            AppError::Io(s) => s,
            AppError::Serialization(s) => s,
        }
    }

    /// The text shown to a person: the kind's heading followed by the detail.
    pub fn message(&self) -> (r: String)
        ensures
            r@ == error_heading(*self) + error_detail(*self)@,
    {
        let heading: &str = match self {
            AppError::Database(_) => "Erro de banco de dados: ",
            AppError::Authentication(_) => "Erro de autenticação: ",
            AppError::Authorization(_) => "Erro de autorização: ",
            AppError::NotFound(_) => "Recurso não encontrado: ",
            AppError::Validation(_) => "Dados inválidos: ",
            AppError::Internal(_) => "Erro interno: ",
            AppError::Io(_) => "Erro de IO: ",
            AppError::Serialization(_) => "Erro de serialização: ",
        };
        let mut text = String::from_str(heading);
        text.append(self.detail().as_str());
        text
    }
}

/// The structured form in which an error reaches the user interface.
#[derive(Debug, Clone, PartialEq, Eq)]
pub struct ErrorResponse {
    pub code: String,
    pub message: String,
    pub details: Option<String>,
}

impl ErrorResponse {
    /// The outward form of an error: its kind's code and its detail.
    pub fn from_error(error: AppError) -> (r: ErrorResponse)
        ensures
            r.code@ == error_code(error),
            r.message == error_detail(error),
            r.details is None,
    {
        let code = String::from_str(error.code());
        let message = match error {
            AppError::Database(s) => s,
            AppError::Authentication(s) => s,
            AppError::Authorization(s) => s,
            AppError::NotFound(s) => s,
            AppError::Validation(s) => s,
            AppError::Internal(s) => s,
            AppError::Io(s) => s,
            AppError::Serialization(s) => s,
        };
        ErrorResponse { code, message, details: None }
    }
}

} // verus!
