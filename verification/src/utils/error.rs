//! The application's error values and the shapes in which results are
//! brought to them.

use vstd::prelude::*;
use vstd::string::*;
use crate::text::{decimal, push_decimal, push_signed_decimal, signed_decimal};
use crate::utils::error::error_constructors::{
    config_error, file_error, network_error, timeout_error,
};

pub mod error_constructors;

verus! {

/// An error of the application, by kind.
#[derive(Clone, Debug, PartialEq, Eq)]
#[allow(inconsistent_fields)]
pub enum AppError {
    Config { message: String, source: Option<String> },
    Network { message: String, status_code: Option<u16> },
    FileSystem { message: String, path: Option<String> },
    Permission { message: String, required: String },
    Service { message: String, service: String },
    Parse { message: String, format: String },
    Validation { message: String, field: Option<String> },
    Command { message: String, exit_code: Option<i32> },
    Timeout { message: String, duration_ms: u64 },
    Generic { message: String },
}

/// The result type of the application.
pub type AppResult<T> = Result<T, AppError>;

/// `head`, the message, and, where there is a detail, the detail between
/// `open` and a closing bracket.
pub open spec fn with_detail(
    head: Seq<char>,
    message: Seq<char>,
    open: Seq<char>,
    detail: Option<Seq<char>>,
) -> Seq<char> {
    match detail {
        Some(text) => head + message + open + text + ")"@,
        None => head + message,
    }
}

pub open spec fn decimal_of(number: Option<int>) -> Option<Seq<char>> {
    match number {
        Some(n) => Some(signed_decimal(n)),
        None => None,
    }
}

pub open spec fn text_of(text: Option<String>) -> Option<Seq<char>> {
    match text {
        Some(t) => Some(t@),
        None => None,
    }
}

pub open spec fn code_of(code: Option<u16>) -> Option<int> {
    match code {
        Some(c) => Some(c as int),
        None => None,
    }
}

pub open spec fn exit_of(code: Option<i32>) -> Option<int> {
    match code {
        Some(c) => Some(c as int),
        None => None,
    }
}

impl AppError {
    /// The error as one line of text.
    pub open spec fn display_text(self) -> Seq<char> {
        match self {
            AppError::Config { message, source } => with_detail(
                "Config error: "@,
                message@,
                " (source: "@,
                text_of(source),
            ),
            AppError::Network { message, status_code } => with_detail(
                "Network error: "@,
                message@,
                " (status: "@,
                decimal_of(code_of(status_code)),
            ),
            AppError::FileSystem { message, path } => with_detail(
                "File system error: "@,
                message@,
                " (path: "@,
                text_of(path),
            ),
            AppError::Permission { message, required } => with_detail(
                "Permission error: "@,
                message@,
                " (required: "@,
                Some(required@),
            ),
            AppError::Service { message, service } => with_detail(
                "Service error: "@,
                message@,
                " (service: "@,
                Some(service@),
            ),
            AppError::Parse { message, format } => with_detail(
                "Parse error: "@,
                message@,
                " (format: "@,
                Some(format@),
            ),
            AppError::Validation { message, field } => with_detail(
                "Validation error: "@,
                message@,
                " (field: "@,
                text_of(field),
            ),
            AppError::Command { message, exit_code } => with_detail(
                "Command error: "@,
                message@,
                " (exit code: "@,
                decimal_of(exit_of(exit_code)),
            ),
            AppError::Timeout { message, duration_ms } => "Timeout error: "@ + message@ + " ("@
                + decimal(duration_ms as nat) + "ms)"@,
            AppError::Generic { message } => "Error: "@ + message@,
        }
    }

    /// Writes the error as one line of text.
    pub fn to_string(&self) -> (out: String)
        ensures
            out@ == self.display_text(),
    {
        match self {
            AppError::Config { message, source } => {
                let mut out = String::from_str("Config error: ");
                out.append(message.as_str());
                match source {
                    Some(source) => {
                        out.append(" (source: ");
                        out.append(source.as_str());
                        out.append(")");
                    },
                    None => {},
                }
                out
            },
            AppError::Network { message, status_code } => {
                let mut out = String::from_str("Network error: ");
                out.append(message.as_str());
                match status_code {
                    Some(code) => {
                        out.append(" (status: ");
                        push_signed_decimal(&mut out, *code as i64);
                        out.append(")");
                    },
                    None => {},
                }
                out
            },
            AppError::FileSystem { message, path } => {
                let mut out = String::from_str("File system error: ");
                out.append(message.as_str());
                match path {
                    Some(path) => {
                        out.append(" (path: ");
                        out.append(path.as_str());
                        out.append(")");
                    },
                    None => {},
                }
                out
            },
            AppError::Permission { message, required } => {
                let mut out = String::from_str("Permission error: ");
                out.append(message.as_str());
                out.append(" (required: ");
                out.append(required.as_str());
                out.append(")");
                out
            },
            AppError::Service { message, service } => {
                let mut out = String::from_str("Service error: ");
                out.append(message.as_str());
                out.append(" (service: ");
                out.append(service.as_str());
                out.append(")");
                out
            },
            AppError::Parse { message, format } => {
                let mut out = String::from_str("Parse error: ");
                out.append(message.as_str());
                out.append(" (format: ");
                out.append(format.as_str());
                out.append(")");
                out
            },
            AppError::Validation { message, field } => {
                let mut out = String::from_str("Validation error: ");
                out.append(message.as_str());
                match field {
                    Some(field) => {
                        out.append(" (field: ");
                        out.append(field.as_str());
                        out.append(")");
                    },
                    None => {},
                }
                out
            },
            AppError::Command { message, exit_code } => {
                let mut out = String::from_str("Command error: ");
                out.append(message.as_str());
                match exit_code {
                    Some(code) => {
                        out.append(" (exit code: ");
                        push_signed_decimal(&mut out, *code as i64);
                        out.append(")");
                    },
                    None => {},
                }
                out
            },
            AppError::Timeout { message, duration_ms } => {
                let mut out = String::from_str("Timeout error: ");
                out.append(message.as_str());
                out.append(" (");
                push_decimal(&mut out, *duration_ms);
                out.append("ms)");
                out
            },
            AppError::Generic { message } => {
                let mut out = String::from_str("Error: ");
                out.append(message.as_str());
                out
            },
        }
    }
}

/// The error that stands for a missing value.
pub open spec fn is_missing_value(error: AppError) -> bool {
    error matches AppError::Generic { message } && message@ == "Value is None"@
}

/// The error `cause` seen through a context: the context, a colon, and the
/// cause's own line.
pub open spec fn in_context(context: Seq<char>, cause: Seq<char>, error: AppError) -> bool {
    error matches AppError::Generic { message } && message@ == context + ": "@ + cause
}

/// Brings a value that may be absent or failed to the application's result
/// type.
pub trait StandardErrorHandler<T>: Sized {
    /// The value, or the application's error for what is in its place.
    fn to_app_result(self) -> AppResult<T>;

    /// As `to_app_result`, with the error put into the context that `f`
    /// words. `f` is called only where there is an error.
    fn to_app_result_with_context<F: FnOnce() -> String>(self, f: F) -> AppResult<T>
        requires
            f.requires(()),
    ;
}

impl<T> StandardErrorHandler<T> for Option<T> {
    fn to_app_result(self) -> (out: AppResult<T>)
        ensures
            match self {
                Some(value) => out == Ok::<T, AppError>(value),
                None => out matches Err(error) && is_missing_value(error),
            },
    {
        match self {
            Some(value) => Ok(value),
            None => Err(AppError::Generic { message: String::from_str("Value is None") }),
        }
    }

    fn to_app_result_with_context<F: FnOnce() -> String>(self, f: F) -> (out: AppResult<T>)
        ensures
            match self {
                Some(value) => out == Ok::<T, AppError>(value),
                None => out matches Err(error) && exists|context: String| #[trigger]
                    f.ensures((), context) && in_context(context@, "Value is None"@, error),
            },
    {
        match self {
            Some(value) => Ok(value),
            None => {
                let context = f();
                let mut message = String::from_str(context.as_str());
                message.append(": ");
                message.append("Value is None");
                let error = AppError::Generic { message };
                assert(f.ensures((), context) && in_context(
                    context@,
                    "Value is None"@,
                    error,
                ));
                Err(error)
            },
        }
    }
}

impl<T> StandardErrorHandler<T> for Result<T, AppError> {
    fn to_app_result(self) -> (out: AppResult<T>)
        ensures
            out == self,
    {
        self
    }

    fn to_app_result_with_context<F: FnOnce() -> String>(self, f: F) -> (out: AppResult<T>)
        ensures
            match self {
                Ok(value) => out == Ok::<T, AppError>(value),
                Err(cause) => out matches Err(error) && exists|context: String| #[trigger]
                    f.ensures((), context) && in_context(context@, cause.display_text(), error),
            },
    {
        match self {
            Ok(value) => Ok(value),
            Err(cause) => {
                let context = f();
                let mut message = String::from_str(context.as_str());
                message.append(": ");
                let line = cause.to_string();
                message.append(line.as_str());
                let error = AppError::Generic { message };
                assert(f.ensures((), context) && in_context(
                    context@,
                    cause.display_text(),
                    error,
                ));
                Err(error)
            },
        }
    }
}

/// The milliseconds after which an operation counts as timed out.
pub const OPERATION_TIMEOUT_MS: u64 = 30000;

/// The result of an operation that was given thirty seconds: `None` stands
/// for one that did not end in time.
pub fn safe_async_op<T>(outcome: Option<AppResult<T>>) -> (out: AppResult<T>)
    ensures
        match outcome {
            Some(result) => out == result,
            None => out matches Err(AppError::Timeout { message, duration_ms }) && message@
                == "Operation timed out"@ && duration_ms == OPERATION_TIMEOUT_MS,
        },
{
    match outcome {
        Some(result) => result,
        None => Err(timeout_error("Operation timed out", OPERATION_TIMEOUT_MS)),
    }
}

/// The result of an operation on the file at `path`; `Err` carries the
/// system's words for the failure.
pub fn safe_file_op<T>(outcome: Result<T, String>, path: &str) -> (out: AppResult<T>)
    ensures
        match outcome {
            Ok(value) => out == Ok::<T, AppError>(value),
            Err(cause) => out matches Err(AppError::FileSystem { message, path: Some(at) })
                && message@ == cause@ && at@ == path@,
        },
{
    match outcome {
        Ok(value) => Ok(value),
        Err(cause) => Err(file_error(cause.as_str(), Some(path))),
    }
}

/// What is known of a failed request.
#[derive(Clone, Debug, PartialEq, Eq)]
pub struct RequestFailure {
    /// The failure in the client's words.
    pub message: String,
    /// The status the server answered with, if it answered.
    pub status_code: Option<u16>,
}

/// The result of a network operation.
pub fn safe_network_op<T>(outcome: Result<T, RequestFailure>) -> (out: AppResult<T>)
    ensures
        match outcome {
            Ok(value) => out == Ok::<T, AppError>(value),
            Err(failure) => out matches Err(AppError::Network { message, status_code })
                && message@ == failure.message@ && status_code == failure.status_code,
        },
{
    match outcome {
        Ok(value) => Ok(value),
        Err(failure) => Err(network_error(failure.message.as_str(), failure.status_code)),
    }
}

/// The result of an operation on the configuration; `Err` carries the
/// failure's words, which are put behind `context` and a colon.
pub fn safe_config_op<T>(outcome: Result<T, String>, context: &str) -> (out: AppResult<T>)
    ensures
        match outcome {
            Ok(value) => out == Ok::<T, AppError>(value),
            Err(cause) => out matches Err(AppError::Config { message, source: None }) && message@
                == context@ + ": "@ + cause@,
        },
{
    match outcome {
        Ok(value) => Ok(value),
        Err(cause) => {
            let mut message = String::from_str(context);
            message.append(": ");
            message.append(cause.as_str());
            Err(config_error(message.as_str()))
        },
    }
}

} // verus!
