//! Errors of the chat service and the body they are reported with.

use vstd::prelude::*;

use crate::text::join;

verus! {

/// Body of an error response sent to a client.
#[derive(Debug, Clone, PartialEq, Eq)]
pub struct ErrorOutput {
    pub error: String,
}

impl ErrorOutput {
    /// Wraps an error message.
    pub fn new(error: String) -> (out: Self)
        ensures
            out.error == error,
    {
        ErrorOutput { error }
    }
}

/// What can go wrong while serving a chat request. Each variant carries the
/// text of its cause.
#[derive(Debug, Clone, PartialEq, Eq)]
pub enum AppError {
    EmailAlreadyExists(String),
    SqlxError(String),
    PasswordHashError(String),
    AnyError(String),
    CreateChatError(String),
    UpdateChatError(String),
    NotFound(String),
    IoError(String),
    MultipartError(String),
    CreateMessageError(String),
    ChatFileError(String),
    HeaderError(String),
}

pub const STATUS_BAD_REQUEST: u16 = 400;

pub const STATUS_UNAUTHORIZED: u16 = 401;

pub const STATUS_FORBIDDEN: u16 = 403;

pub const STATUS_NOT_FOUND: u16 = 404;

pub const STATUS_CONFLICT: u16 = 409;

pub const STATUS_UNPROCESSABLE_ENTITY: u16 = 422;

pub const STATUS_INTERNAL_SERVER_ERROR: u16 = 500;

impl AppError {
    /// The text of the cause that the error carries.
    pub open spec fn detail(self) -> Seq<char> {
        match self {
            AppError::EmailAlreadyExists(s) => s@,
            AppError::SqlxError(s) => s@,
            AppError::PasswordHashError(s) => s@,
            AppError::AnyError(s) => s@,
            AppError::CreateChatError(s) => s@,
            AppError::UpdateChatError(s) => s@,
            AppError::NotFound(s) => s@,
            AppError::IoError(s) => s@,
            AppError::MultipartError(s) => s@,
            AppError::CreateMessageError(s) => s@,
            AppError::ChatFileError(s) => s@,
            AppError::HeaderError(s) => s@,
        }
    }

    /// The words that introduce the cause in the error's message.
    pub open spec fn prefix(self) -> Seq<char> {
        match self {
            AppError::EmailAlreadyExists(_) => "email already exists: "@,
            AppError::SqlxError(_) => "sql error: "@,
            AppError::PasswordHashError(_) => "password hash error: "@,
            AppError::AnyError(_) => "general error: "@,
            AppError::CreateChatError(_) => "create chat error: "@,
            AppError::UpdateChatError(_) => "update chat error: "@,
            AppError::NotFound(_) => "Not found: "@,
            AppError::IoError(_) => "io error: "@,
            AppError::MultipartError(_) => "multipart error: "@,
            AppError::CreateMessageError(_) => "create message error: "@,
            AppError::ChatFileError(_) => "chat file error: "@,
            AppError::HeaderError(_) => "parse header value: "@,
        }
    }

    /// The HTTP status that each kind of error is answered with.
    pub open spec fn status(self) -> u16 {
        match self {
            AppError::EmailAlreadyExists(_) => STATUS_CONFLICT,
            AppError::SqlxError(_) => STATUS_INTERNAL_SERVER_ERROR,
            AppError::PasswordHashError(_) => STATUS_UNPROCESSABLE_ENTITY,
            AppError::AnyError(_) => STATUS_INTERNAL_SERVER_ERROR,
            AppError::CreateChatError(_) => STATUS_BAD_REQUEST,
            AppError::UpdateChatError(_) => STATUS_BAD_REQUEST,
            AppError::NotFound(_) => STATUS_NOT_FOUND,
            AppError::IoError(_) => STATUS_INTERNAL_SERVER_ERROR,
            AppError::MultipartError(_) => STATUS_BAD_REQUEST,
            AppError::CreateMessageError(_) => STATUS_BAD_REQUEST,
            AppError::ChatFileError(_) => STATUS_BAD_REQUEST,
            AppError::HeaderError(_) => STATUS_BAD_REQUEST,
        }
    }

    /// The HTTP status of the response that reports this error.
    pub fn status_code(&self) -> (code: u16)
        ensures
            code == self.status(),
    {
        match self {
            AppError::EmailAlreadyExists(_) => STATUS_CONFLICT,
            AppError::PasswordHashError(_) => STATUS_UNPROCESSABLE_ENTITY,
            AppError::NotFound(_) => STATUS_NOT_FOUND,
            AppError::SqlxError(_) | AppError::AnyError(_) | AppError::IoError(_) => {
                STATUS_INTERNAL_SERVER_ERROR
            },
            AppError::CreateChatError(_)
            | AppError::UpdateChatError(_)
            | AppError::MultipartError(_)
            | AppError::CreateMessageError(_)
            | AppError::ChatFileError(_)
            | AppError::HeaderError(_) => STATUS_BAD_REQUEST,
        }
    }

    /// The message of the error: its prefix followed by its cause.
    pub fn message(&self) -> (text: String)
        ensures
            text@ == self.prefix() + self.detail(),
    {
        match self {
            AppError::EmailAlreadyExists(s) => join("email already exists: ", s),
            AppError::SqlxError(s) => join("sql error: ", s),
            AppError::PasswordHashError(s) => join("password hash error: ", s),
            AppError::AnyError(s) => join("general error: ", s),
            AppError::CreateChatError(s) => join("create chat error: ", s),
            AppError::UpdateChatError(s) => join("update chat error: ", s),
            AppError::NotFound(s) => join("Not found: ", s),
            AppError::IoError(s) => join("io error: ", s),
            AppError::MultipartError(s) => join("multipart error: ", s),
            AppError::CreateMessageError(s) => join("create message error: ", s),
            AppError::ChatFileError(s) => join("chat file error: ", s),
            AppError::HeaderError(s) => join("parse header value: ", s),
        }
    }

    /// The body of the response that reports this error.
    pub fn to_output(&self) -> (out: ErrorOutput)
        ensures
            out.error@ == self.prefix() + self.detail(),
    {
        ErrorOutput::new(self.message())
    }
}

} // verus!
