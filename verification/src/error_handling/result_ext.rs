//! Ways to combine results.

use vstd::prelude::*;
use vstd::string::*;
use crate::context_map::with_entry;
use crate::error_handling::app_error::{str_view, text_view, AppError, AppResult, ErrorCode};
use crate::error_handling::error_context::is_plain;
use crate::json::json_model;

verus! {

/// What every result can do.
pub trait ResultExt<T, E>: Sized {
    /// The result with its value mapped.
    fn map_ok<F: FnOnce(T) -> U, U>(self, f: F) -> (r: Result<U, E>)
        requires
            forall|value: T| call_requires(f, (value,)),
    ;

    /// The result with its error mapped.
    fn map_error<F: FnOnce(E) -> G, G>(self, f: F) -> (r: Result<T, G>)
        requires
            forall|error: E| call_requires(f, (error,)),
    ;

    /// The result with its value mapped by one function or its error by the
    /// other.
    fn map_both<F: FnOnce(T) -> U, G: FnOnce(E) -> E, U>(self, ok_fn: F, err_fn: G) -> (r: Result<U, E>)
        requires
            forall|value: T| call_requires(ok_fn, (value,)),
            forall|error: E| call_requires(err_fn, (error,)),
    ;

    /// The outcome of `f` on the value, or the error.
    fn flat_map<F: FnOnce(T) -> Result<U, E>, U>(self, f: F) -> (r: Result<U, E>)
        requires
            forall|value: T| call_requires(f, (value,)),
    ;

    /// The result as it is, after `f` has seen its value.
    fn on_ok<F: FnOnce(&T)>(self, f: F) -> (r: Result<T, E>)
        requires
            forall|value: &T| call_requires(f, (value,)),
    ;

    /// The result as it is, after `f` has seen its error.
    fn on_err<F: FnOnce(&E)>(self, f: F) -> (r: Result<T, E>)
        requires
            forall|error: &E| call_requires(f, (error,)),
    ;

    /// The value, if there is one.
    fn ok_or_log(self, context: &str) -> (r: Option<T>);

    /// The outcome of `fallback` on the error, or the value.
    fn recover<F: FnOnce(E) -> Result<T, E>>(self, fallback: F) -> (r: Result<T, E>)
        requires
            forall|error: E| call_requires(fallback, (error,)),
    ;
}

impl<T, E> ResultExt<T, E> for Result<T, E> {
    fn map_ok<F: FnOnce(T) -> U, U>(self, f: F) -> (r: Result<U, E>)
        ensures
            match self {
                Ok(value) => r matches Ok(mapped) && call_ensures(f, (value,), mapped),
                Err(error) => r == Err::<U, E>(error),
            },
    {
        match self {
            Ok(value) => Ok(f(value)),
            Err(error) => Err(error),
        }
    }

    fn map_error<F: FnOnce(E) -> G, G>(self, f: F) -> (r: Result<T, G>)
        ensures
            match self {
                Ok(value) => r == Ok::<T, G>(value),
                Err(error) => r matches Err(mapped) && call_ensures(f, (error,), mapped),
            },
    {
        match self {
            Ok(value) => Ok(value),
            Err(error) => Err(f(error)),
        }
    }

    fn map_both<F: FnOnce(T) -> U, G: FnOnce(E) -> E, U>(self, ok_fn: F, err_fn: G) -> (r: Result<U, E>)
        ensures
            match self {
                Ok(value) => r matches Ok(mapped) && call_ensures(ok_fn, (value,), mapped),
                Err(error) => r matches Err(mapped) && call_ensures(err_fn, (error,), mapped),
            },
    {
        match self {
            Ok(value) => Ok(ok_fn(value)),
            Err(error) => Err(err_fn(error)),
        }
    }

    fn flat_map<F: FnOnce(T) -> Result<U, E>, U>(self, f: F) -> (r: Result<U, E>)
        ensures
            match self {
                Ok(value) => call_ensures(f, (value,), r),
                Err(error) => r == Err::<U, E>(error),
            },
    {
        match self {
            Ok(value) => f(value),
            Err(error) => Err(error),
        }
    }

    fn on_ok<F: FnOnce(&T)>(self, f: F) -> (r: Result<T, E>)
        ensures
            r == self,
    {
        match &self {
            Ok(value) => f(value),
            Err(_) => {},
        }
        self
    }

    fn on_err<F: FnOnce(&E)>(self, f: F) -> (r: Result<T, E>)
        ensures
            r == self,
    {
        match &self {
            Ok(_) => {},
            Err(error) => f(error),
        }
        self
    }

    fn ok_or_log(self, context: &str) -> (r: Option<T>)
        ensures
            match self {
                Ok(value) => r == Some(value),
                Err(_) => r is None,
            },
    {
        match self {
            Ok(value) => Some(value),
            Err(_) => None,
        }
    }

    fn recover<F: FnOnce(E) -> Result<T, E>>(self, fallback: F) -> (r: Result<T, E>)
        ensures
            match self {
                Ok(value) => r == Ok::<T, E>(value),
                Err(error) => call_ensures(fallback, (error,), r),
            },
    {
        match self {
            Ok(value) => Ok(value),
            Err(error) => fallback(error),
        }
    }
}

/// The value of a result, or the value that `fallback` makes where the result
/// is an error.
pub fn unwrap_or_default_on_error<T, E, F: FnOnce() -> T>(result: Result<T, E>, fallback: F) -> (value: T)
    requires
        call_requires(fallback, ()),
    ensures
        match result {
            Ok(v) => value == v,
            Err(_) => call_ensures(fallback, (), value),
        },
{
    match result {
        Ok(v) => v,
        Err(_) => fallback(),
    }
}

/// What a result of the application can do beyond that.
pub trait AppResultExt<T>: Sized {
    /// The result, its error with one more value in its context.
    fn with_context(self, key: &str, value: serde_json::Value) -> (r: AppResult<T>);

    /// The result, its error with the place where it came up.
    fn with_location(self, module: &str, function: Option<&str>, line: Option<u32>) -> (r: AppResult<T>);

    /// The result as it is: an error of the application is one already.
    fn map_domain_error(self) -> (r: AppResult<T>);

    /// The value, if there is one.
    fn log_error(self, context: &str) -> (r: Option<T>);

    /// The result as it is, whatever the codes.
    fn retry_on(self, codes: &[ErrorCode]) -> (r: AppResult<T>);
}

impl<T> AppResultExt<T> for AppResult<T> {
    fn with_context(self, key: &str, value: serde_json::Value) -> (r: AppResult<T>)
        ensures
            match self {
                Ok(v) => r == Ok::<T, AppError>(v),
                Err(error) => r matches Err(after) && after.context@ == with_entry(
                    error.context@,
                    key@,
                    json_model(value),
                ) && after.id == error.id && after.code == error.code && after.message == error.message,
            },
    {
        match self {
            Ok(v) => Ok(v),
            Err(error) => Err(error.with_context(key, value)),
        }
    }

    fn with_location(self, module: &str, function: Option<&str>, line: Option<u32>) -> (r: AppResult<T>)
        ensures
            match self {
                Ok(v) => r == Ok::<T, AppError>(v),
                Err(error) => r matches Err(after) && after.id == error.id && after.code == error.code
                    && after.message == error.message && (after.location matches Some(location)
                    && location.module@ == module@ && text_view(location.function) == str_view(function)
                    && location.line == line),
            },
    {
        match self {
            Ok(v) => Ok(v),
            Err(error) => Err(error.with_location(module, function, line)),
        }
    }

    fn map_domain_error(self) -> (r: AppResult<T>)
        ensures
            r == self,
    {
        self
    }

    fn log_error(self, context: &str) -> (r: Option<T>)
        ensures
            match self {
                Ok(value) => r == Some(value),
                Err(_) => r is None,
            },
    {
        match self {
            Ok(value) => Some(value),
            Err(_) => None,
        }
    }

    fn retry_on(self, codes: &[ErrorCode]) -> (r: AppResult<T>)
        ensures
            r == self,
    {
        self
    }
}

/// A success.
pub fn ok<T>(value: T) -> (r: AppResult<T>)
    ensures
        r == Ok::<T, AppError>(value),
{
    Ok(value)
}

/// A failure: a new error of the given kind.
pub fn err<T>(code: ErrorCode, message: &str) -> (r: AppResult<T>)
    ensures
        r matches Err(error) && is_plain(error, code, message@),
{
    Err(AppError::new(code, message))
}

/// Builds an error step by step.
pub struct ErrorBuilder {
    error: AppError,
}

/// Starts to build an error of the given kind.
pub fn err_with(code: ErrorCode, message: &str) -> (builder: ErrorBuilder)
    ensures
        is_plain(builder.error(), code, message@),
{
    ErrorBuilder { error: AppError::new(code, message) }
}

impl ErrorBuilder {
    /// The error as built so far.
    pub closed spec fn error(self) -> AppError {
        self.error
    }

    /// Adds a value to the context of the error.
    pub fn context(self, key: &str, value: serde_json::Value) -> (builder: Self)
        ensures
            builder.error().context@ == with_entry(self.error().context@, key@, json_model(value)),
            builder.error().id == self.error().id,
            builder.error().code == self.error().code,
            builder.error().message == self.error().message,
            builder.error().cause == self.error().cause,
            builder.error().location == self.error().location,
    {
        ErrorBuilder { error: self.error.with_context(key, value) }
    }

    /// Says where the error came up.
    pub fn location(self, module: &str, function: Option<&str>, line: Option<u32>) -> (builder: Self)
        ensures
            builder.error().location matches Some(location) && location.module@ == module@ && text_view(
                location.function,
            ) == str_view(function) && location.line == line,
            builder.error().id == self.error().id,
            builder.error().code == self.error().code,
            builder.error().message == self.error().message,
            builder.error().cause == self.error().cause,
            builder.error().context == self.error().context,
    {
        ErrorBuilder { error: self.error.with_location(module, function, line) }
    }

    /// Says what caused the error.
    pub fn cause(self, cause: &str) -> (builder: Self)
        ensures
            text_view(builder.error().cause) == Some(cause@),
            builder.error().id == self.error().id,
            builder.error().code == self.error().code,
            builder.error().message == self.error().message,
            builder.error().context == self.error().context,
            builder.error().location == self.error().location,
    {
        ErrorBuilder { error: self.error.with_cause(cause) }
    }

    /// The error, as a failure.
    pub fn build<T>(self) -> (r: AppResult<T>)
        ensures
            r == Err::<T, AppError>(self.error()),
    {
        Err(self.error)
    }
}

} // verus!
