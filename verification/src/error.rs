//! Error codes and the two error types of the library: `AdapterError`, what a
//! platform adapter reports, and `AppError`, what a command reports.
use vstd::prelude::*;
use crate::text::owned;

verus! {

/// Machine-readable error category.
#[derive(Debug, Clone, Copy, PartialEq, Eq, Structural)]
pub enum ErrorCode {
    PermDenied,
    ElementNotFound,
    AppNotFound,
    ActionFailed,
    ActionNotSupported,
    StaleRef,
    WindowNotFound,
    PlatformNotSupported,
    Timeout,
    InvalidArgs,
    SnapshotNotFound,
    PolicyDenied,
    Internal,
}

/// The wire name of an error code.
pub open spec fn error_code_name(c: ErrorCode) -> Seq<char> {
    match c {
        ErrorCode::PermDenied => "PERM_DENIED"@,
        ErrorCode::ElementNotFound => "ELEMENT_NOT_FOUND"@,
        ErrorCode::AppNotFound => "APP_NOT_FOUND"@,
        ErrorCode::ActionFailed => "ACTION_FAILED"@,
        ErrorCode::ActionNotSupported => "ACTION_NOT_SUPPORTED"@,
        ErrorCode::StaleRef => "STALE_REF"@,
        ErrorCode::WindowNotFound => "WINDOW_NOT_FOUND"@,
        ErrorCode::PlatformNotSupported => "PLATFORM_NOT_SUPPORTED"@,
        ErrorCode::Timeout => "TIMEOUT"@,
        ErrorCode::InvalidArgs => "INVALID_ARGS"@,
        ErrorCode::SnapshotNotFound => "SNAPSHOT_NOT_FOUND"@,
        ErrorCode::PolicyDenied => "POLICY_DENIED"@,
        ErrorCode::Internal => "INTERNAL"@,
    }
}

impl ErrorCode {
    /// The wire name of this code, e.g. `INVALID_ARGS`.
    pub fn as_str(&self) -> (r: &'static str)
        ensures
            r@ == error_code_name(*self),
    {
        match self {
            ErrorCode::PermDenied => "PERM_DENIED",
            ErrorCode::ElementNotFound => "ELEMENT_NOT_FOUND",
            ErrorCode::AppNotFound => "APP_NOT_FOUND",
            ErrorCode::ActionFailed => "ACTION_FAILED",
            ErrorCode::ActionNotSupported => "ACTION_NOT_SUPPORTED",
            ErrorCode::StaleRef => "STALE_REF",
            ErrorCode::WindowNotFound => "WINDOW_NOT_FOUND",
            ErrorCode::PlatformNotSupported => "PLATFORM_NOT_SUPPORTED",
            ErrorCode::Timeout => "TIMEOUT",
            ErrorCode::InvalidArgs => "INVALID_ARGS",
            ErrorCode::SnapshotNotFound => "SNAPSHOT_NOT_FOUND",
            ErrorCode::PolicyDenied => "POLICY_DENIED",
            ErrorCode::Internal => "INTERNAL",
        }
    }
}

/// An error reported by a platform adapter.
#[derive(Debug, Clone)]
pub struct AdapterError {
    pub code: ErrorCode,
    pub message: String,
    pub suggestion: Option<String>,
    pub platform_detail: Option<String>,
}

impl AdapterError {
    /// An error with `code` and `message`, and nothing more.
    pub fn new(code: ErrorCode, message: &str) -> (r: AdapterError)
        ensures
            r.code == code,
            r.message@ == message@,
            r.suggestion is None,
            r.platform_detail is None,
    {
        AdapterError { code, message: owned(message), suggestion: None, platform_detail: None }
    }

    /// This error with `suggestion` attached.
    pub fn with_suggestion(self, suggestion: &str) -> (r: AdapterError)
        ensures
            r.code == self.code,
            r.message == self.message,
            r.suggestion matches Some(s) && s@ == suggestion@,
            r.platform_detail == self.platform_detail,
    {
        AdapterError { suggestion: Some(owned(suggestion)), ..self }
    }

    /// The error a platform reports for an operation it does not provide.
    pub fn not_supported(operation: &str) -> (r: AdapterError)
        ensures
            r.code == ErrorCode::PlatformNotSupported,
            r.message@ == operation@ + " is not supported on this platform"@,
            r.suggestion is None,
            r.platform_detail is None,
    {
        let mut m = owned(operation);
        crate::text::append_str(&mut m, " is not supported on this platform");
        AdapterError { code: ErrorCode::PlatformNotSupported, message: m, suggestion: None, platform_detail: None }
    }
}

/// An error reported by a command.
#[derive(Debug, Clone)]
pub enum AppError {
    /// The adapter failed; its error is passed on unchanged.
    Adapter(AdapterError),
    /// The caller's arguments were rejected.
    InvalidInput { message: String, suggestion: Option<String> },
}

/// The code that an `AppError` reports.
pub open spec fn app_error_code(e: AppError) -> ErrorCode {
    match e {
        AppError::Adapter(a) => a.code,
        AppError::InvalidInput { .. } => ErrorCode::InvalidArgs,
    }
}

/// The message that an `AppError` carries.
pub open spec fn app_error_message(e: AppError) -> Seq<char> {
    match e {
        AppError::Adapter(a) => a.message@,
        AppError::InvalidInput { message, .. } => message@,
    }
}

impl AppError {
    /// Rejected arguments, explained by `message`.
    pub fn invalid_input(message: String) -> (r: AppError)
        ensures
            r == (AppError::InvalidInput { message, suggestion: None }),
    {
        AppError::InvalidInput { message, suggestion: None }
    }

    /// Rejected arguments, explained by `message`, with a suggestion.
    pub fn invalid_input_with_suggestion(message: &str, suggestion: &str) -> (r: AppError)
        ensures
            r matches AppError::InvalidInput { message: m, suggestion: Some(s) } && m@ == message@
                && s@ == suggestion@,
    {
        AppError::InvalidInput { message: owned(message), suggestion: Some(owned(suggestion)) }
    }

    /// The wire name of this error's code, e.g. `INVALID_ARGS`.
    pub fn code(&self) -> (r: &'static str)
        ensures
            r@ == error_code_name(app_error_code(*self)),
    {
        self.error_code().as_str()
    }

    /// This error's code.
    pub fn error_code(&self) -> (r: ErrorCode)
        ensures
            r == app_error_code(*self),
    {
        match self {
            AppError::Adapter(a) => a.code,
            AppError::InvalidInput { .. } => ErrorCode::InvalidArgs,
        }
    }

    /// This error's message.
    pub fn message(&self) -> (r: String)
        ensures
            r@ == app_error_message(*self),
    {
        match self {
            AppError::Adapter(a) => a.message.clone(),
            AppError::InvalidInput { message, .. } => message.clone(),
        }
    }

    /// This error's suggestion, if it carries one.
    pub fn suggestion(&self) -> (r: Option<String>)
        ensures
            r == (match *self {
                AppError::Adapter(a) => a.suggestion,
                AppError::InvalidInput { suggestion, .. } => suggestion,
            }),
    {
        match self {
            AppError::Adapter(a) => a.suggestion.clone(),
            AppError::InvalidInput { suggestion, .. } => suggestion.clone(),
        }
    }
}

} // verus!
