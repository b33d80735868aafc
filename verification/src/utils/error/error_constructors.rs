//! Shorthands that make an error of each kind.

use vstd::prelude::*;
use vstd::string::*;
use crate::utils::error::AppError;

verus! {

pub fn config_error(message: &str) -> (error: AppError)
    ensures
        error matches AppError::Config { message: held, source: None } && held@ == message@,
{
    AppError::Config { message: String::from_str(message), source: None }
}

pub fn network_error(message: &str, status_code: Option<u16>) -> (error: AppError)
    ensures
        error matches AppError::Network { message: held, status_code: code } && held@ == message@
            && code == status_code,
{
    AppError::Network { message: String::from_str(message), status_code }
}

pub fn file_error(message: &str, path: Option<&str>) -> (error: AppError)
    ensures
        error matches AppError::FileSystem { message: held, path: at } && held@ == message@ && (
        match path {
            Some(p) => at matches Some(a) && a@ == p@,
            None => at is None,
        }),
{
    let at = match path {
        Some(p) => Some(String::from_str(p)),
        None => None,
    };
    AppError::FileSystem { message: String::from_str(message), path: at }
}

pub fn permission_error(message: &str, required: &str) -> (error: AppError)
    ensures
        error matches AppError::Permission { message: held, required: needed } && held@
            == message@ && needed@ == required@,
{
    AppError::Permission {
        message: String::from_str(message),
        required: String::from_str(required),
    }
}

pub fn service_error(message: &str, service: &str) -> (error: AppError)
    ensures
        error matches AppError::Service { message: held, service: named } && held@ == message@
            && named@ == service@,
{
    AppError::Service { message: String::from_str(message), service: String::from_str(service) }
}

pub fn parse_error(message: &str, format: &str) -> (error: AppError)
    ensures
        error matches AppError::Parse { message: held, format: named } && held@ == message@
            && named@ == format@,
{
    AppError::Parse { message: String::from_str(message), format: String::from_str(format) }
}

pub fn validation_error(message: &str, field: Option<&str>) -> (error: AppError)
    ensures
        error matches AppError::Validation { message: held, field: named } && held@ == message@
            && (match field {
            Some(f) => named matches Some(n) && n@ == f@,
            None => named is None,
        }),
{
    let named = match field {
        Some(f) => Some(String::from_str(f)),
        None => None,
    };
    AppError::Validation { message: String::from_str(message), field: named }
}

pub fn timeout_error(message: &str, duration_ms: u64) -> (error: AppError)
    ensures
        error matches AppError::Timeout { message: held, duration_ms: ms } && held@ == message@
            && ms == duration_ms,
{
    AppError::Timeout { message: String::from_str(message), duration_ms }
}

} // verus!
