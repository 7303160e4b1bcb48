//! Context for errors, and checks that answer with an error.

use vstd::prelude::*;
use vstd::string::*;
use crate::context_map::{with_entries, with_entry, ContextMap};
use crate::error_handling::app_error::{AppError, AppResult, ErrorCode};
use crate::json::{json_model, text_value, Json};
use crate::stamp::ID_LENGTH;
use crate::text::{i64_text, join, signed_decimal};

verus! {

/// Values for the context of an error, collected one by one.
#[derive(Debug, PartialEq)]
pub struct ErrorContext {
    data: ContextMap,
}

impl View for ErrorContext {
    type V = Seq<(Seq<char>, Json)>;

    closed spec fn view(&self) -> Seq<(Seq<char>, Json)> {
        self.data@
    }
}

impl ErrorContext {
    /// No values.
    pub fn new() -> (context: Self)
        ensures
            context@.len() == 0,
    {
        ErrorContext { data: ContextMap::new() }
    }

    /// The context with `key` given `value`.
    pub fn add(self, key: &str, value: serde_json::Value) -> (context: Self)
        ensures
            context@ == with_entry(self@, key@, json_model(value)),
    {
        let mut context = self;
        context.data.insert(key.to_owned(), value);
        context
    }

    /// The context with the user under `user_id`.
    pub fn add_user_id(self, user_id: serde_json::Value) -> (context: Self)
        ensures
            context@ == with_entry(self@, "user_id"@, json_model(user_id)),
    {
        self.add("user_id", user_id)
    }

    /// The context with the request under `request_id`.
    pub fn add_request_id(self, request_id: serde_json::Value) -> (context: Self)
        ensures
            context@ == with_entry(self@, "request_id"@, json_model(request_id)),
    {
        self.add("request_id", request_id)
    }

    /// The context with the name of the operation under `operation`.
    pub fn add_operation(self, operation: &str) -> (context: Self)
        ensures
            context@ == with_entry(self@, "operation"@, Json::Text(operation@)),
    {
        self.add("operation", text_value(operation.to_owned()))
    }

    /// The context with a resource under the name of its type followed by
    /// `_id`.
    pub fn add_resource(self, resource_type: &str, resource_id: serde_json::Value) -> (context: Self)
        ensures
            context@ == with_entry(self@, resource_type@ + "_id"@, json_model(resource_id)),
    {
        let key = join(resource_type, "_id");
        self.add(key.as_str(), resource_id)
    }

    /// The context with every value of `other` added; where a name is in both,
    /// the value of `other` stays.
    pub fn merge(self, other: ErrorContext) -> (context: Self)
        ensures
            context@ == with_entries(self@, other@),
    {
        let mut context = self;
        context.data.extend(other.data);
        context
    }

    /// The values collected.
    pub fn into_map(self) -> (map: ContextMap)
        ensures
            map@ == self@,
    {
        self.data
    }
}

impl Default for ErrorContext {
    fn default() -> (context: Self)
        ensures
            context@.len() == 0,
    {
        ErrorContext::new()
    }
}

/// Results whose error can be given a context.
pub trait WithErrorContext<T>: Sized {
    /// The result, its error with the context that `f` builds from an empty
    /// one in place of the context it had.
    fn with_error_context<F: FnOnce(ErrorContext) -> ErrorContext>(self, f: F) -> (r: AppResult<T>)
        requires
            forall|empty: ErrorContext| call_requires(f, (empty,)),
    ;
}

impl<T> WithErrorContext<T> for AppResult<T> {
    fn with_error_context<F: FnOnce(ErrorContext) -> ErrorContext>(self, f: F) -> (r: AppResult<T>)
        ensures
            match self {
                Ok(value) => r == Ok::<T, AppError>(value),
                Err(error) => r matches Err(after) && {
                    &&& after.id == error.id
                    &&& after.code == error.code
                    &&& after.message == error.message
                    &&& after.cause == error.cause
                    &&& after.timestamp == error.timestamp
                    &&& after.location == error.location
                    &&& after.recovery == error.recovery
                    &&& exists|empty: ErrorContext, built: ErrorContext|
                        empty@.len() == 0 && call_ensures(f, (empty,), built) && after.context@ == built@
                },
            },
    {
        match self {
            Ok(value) => Ok(value),
            Err(error) => {
                let empty = ErrorContext::new();
                let built = f(empty);
                Err(
                    AppError {
                        id: error.id,
                        code: error.code,
                        message: error.message,
                        cause: error.cause,
                        context: built.into_map(),
                        timestamp: error.timestamp,
                        location: error.location,
                        recovery: error.recovery,
                    },
                )
            },
        }
    }
}

/// Whether `error` is a new error of the given kind and message, and nothing
/// else.
pub open spec fn is_plain(error: AppError, code: ErrorCode, message: Seq<char>) -> bool {
    &&& error.code == code
    &&& error.message@ == message
    &&& error.cause is None
    &&& error.context@.len() == 0
    &&& error.location is None
    &&& error.recovery is None
    &&& error.id@.len() == ID_LENGTH
}

/// The value, or an error of the given kind where there is none.
pub fn require<T>(value: Option<T>, code: ErrorCode, message: &str) -> (r: AppResult<T>)
    ensures
        match value {
            Some(v) => r == Ok::<T, AppError>(v),
            None => r matches Err(error) && is_plain(error, code, message@),
        },
{
    match value {
        Some(v) => Ok(v),
        None => Err(AppError::new(code, message)),
    }
}

/// Nothing where the condition holds, an error of the given kind where it does
/// not.
pub fn require_that(condition: bool, code: ErrorCode, message: &str) -> (r: AppResult<()>)
    ensures
        condition ==> r is Ok,
        !condition ==> (r matches Err(error) && is_plain(error, code, message@)),
{
    if condition {
        Ok(())
    } else {
        Err(AppError::new(code, message))
    }
}

/// The text where it is not empty; else an error that names the field.
pub fn require_non_empty<'a>(value: &'a str, code: ErrorCode, field: &str) -> (r: AppResult<&'a str>)
    ensures
        value@.len() > 0 ==> (r matches Ok(v) && v@ == value@),
        value@.len() == 0 ==> (r matches Err(error) && is_plain(error, code, field@ + " cannot be empty"@)),
{
    if value.is_empty() {
        Err(AppError::new(code, join(field, " cannot be empty").as_str()))
    } else {
        Ok(value)
    }
}

/// What is wrong with a number that has to lie between two others, if
/// anything: the lower limit is looked at first.
pub open spec fn range_fault(value: i64, min: i64, max: i64, field: Seq<char>) -> Option<Seq<char>> {
    if value < min {
        Some(field + " must be at least "@ + signed_decimal(min as int))
    } else if value > max {
        Some(field + " must be at most "@ + signed_decimal(max as int))
    } else {
        None
    }
}

/// The number where it lies between `min` and `max`; else an error that names
/// the field and the limit.
pub fn require_in_range(value: i64, min: i64, max: i64, code: ErrorCode, field: &str) -> (r: AppResult<i64>)
    ensures
        match r {
            Ok(v) => v == value && range_fault(value, min, max, field@) is None,
            Err(error) => range_fault(value, min, max, field@) matches Some(fault) && is_plain(
                error,
                code,
                fault,
            ),
        },
{
    if value < min {
        let mut message = join(field, " must be at least ");
        message.append(i64_text(min).as_str());
        Err(AppError::new(code, message.as_str()))
    } else if value > max {
        let mut message = join(field, " must be at most ");
        message.append(i64_text(max).as_str());
        Err(AppError::new(code, message.as_str()))
    } else {
        Ok(value)
    }
}

/// The value where the predicate holds of it; else an error of the given kind.
pub fn validate<T, F: FnOnce(&T) -> bool>(value: T, predicate: F, code: ErrorCode, message: &str) -> (r: AppResult<T>)
    requires
        call_requires(predicate, (&value,)),
    ensures
        match r {
            Ok(v) => v == value && call_ensures(predicate, (&value,), true),
            Err(error) => call_ensures(predicate, (&value,), false) && is_plain(error, code, message@),
        },
{
    if predicate(&value) {
        Ok(value)
    } else {
        Err(AppError::new(code, message))
    }
}

/// One check of several: what has to hold, and the error where it does not.
pub struct Validation<F> {
    pub predicate: F,
    pub code: ErrorCode,
    pub message: String,
}

/// Whether the check holds of the value.
pub open spec fn holds<T, F: Fn(&T) -> bool>(check: Validation<F>, value: &T) -> bool {
    call_ensures(check.predicate, (value,), true)
}

/// Whether the check does not hold of the value.
pub open spec fn fails<T, F: Fn(&T) -> bool>(check: Validation<F>, value: &T) -> bool {
    call_ensures(check.predicate, (value,), false)
}

/// Whether `errors` are the errors of the checks at the places `failed`, which
/// are in rising order, and none of those checks holds of the value.
pub open spec fn blames<T, F: Fn(&T) -> bool>(
    errors: Seq<AppError>,
    failed: Seq<int>,
    validations: Seq<Validation<F>>,
    value: &T,
) -> bool {
    &&& failed.len() == errors.len()
    &&& forall|k: int| 0 <= k < failed.len() ==> 0 <= #[trigger] failed[k] < validations.len()
    &&& forall|a: int, b: int| 0 <= a < b < failed.len() ==> #[trigger] failed[a] < #[trigger] failed[b]
    &&& forall|k: int| 0 <= k < failed.len() ==> fails(validations[#[trigger] failed[k]], value)
    &&& forall|k: int|
        0 <= k < failed.len() ==> is_plain(
            #[trigger] errors[k],
            validations[failed[k]].code,
            validations[failed[k]].message@,
        )
}

/// Whether every one of the first `upto` checks that is not at a place in
/// `failed` holds of the value.
pub open spec fn spares<T, F: Fn(&T) -> bool>(
    failed: Seq<int>,
    validations: Seq<Validation<F>>,
    value: &T,
    upto: int,
) -> bool {
    forall|i: int| 0 <= i < upto && !failed.contains(i) ==> holds(#[trigger] validations[i], value)
}

/// Applies every check to the value, the later ones too where an earlier one
/// failed. Nothing is wrong where every check holds; else the error of every
/// check that does not hold comes back, and of no other, in the order of the
/// checks.
pub fn validate_all<T, F: Fn(&T) -> bool>(value: &T, validations: Vec<Validation<F>>) -> (r: Result<(), Vec<AppError>>)
    requires
        forall|i: int| 0 <= i < validations@.len() ==> call_requires(validations@[i].predicate, (value,)),
    ensures
        match r {
            Ok(_) => forall|i: int| 0 <= i < validations@.len() ==> holds(#[trigger] validations@[i], value),
            Err(errors) => errors@.len() > 0 && exists|failed: Seq<int>|
                {
                    &&& #[trigger] blames(errors@, failed, validations@, value)
                    &&& spares(failed, validations@, value, validations@.len() as int)
                },
        },
{
    let mut errors: Vec<AppError> = Vec::new();
    let ghost mut failed: Seq<int> = Seq::empty();
    let mut i: usize = 0;
    while i < validations.len()
        invariant
            i <= validations@.len(),
            forall|j: int| 0 <= j < validations@.len() ==> call_requires(validations@[j].predicate, (value,)),
            spares(failed, validations@, value, i as int),
            blames(errors@, failed, validations@, value),
            forall|k: int| 0 <= k < failed.len() ==> #[trigger] failed[k] < i,
        decreases validations@.len() - i,
    {
        let check = &validations[i];
        let passed = (check.predicate)(value);
        if !passed {
            let ghost before = errors@;
            let ghost places = failed;
            let error = AppError::new(check.code, check.message.as_str());
            errors.push(error);
            proof {
                failed = places.push(i as int);
                assert(failed[places.len() as int] == i);
                assert forall|j: int| 0 <= j < i + 1 && !failed.contains(j) implies holds(
                    #[trigger] validations@[j],
                    value,
                ) by {
                    if places.contains(j) {
                        let at = choose|at: int| 0 <= at < places.len() && places[at] == j;
                        assert(failed[at] == j);
                    }
                }
                assert(fails(validations@[i as int], value));
                assert forall|k: int| 0 <= k < failed.len() implies fails(
                    validations@[#[trigger] failed[k]],
                    value,
                ) by {
                    if k < places.len() {
                        assert(failed[k] == places[k]);
                    }
                }
                assert forall|k: int| 0 <= k < failed.len() implies is_plain(
                    #[trigger] errors@[k],
                    validations@[failed[k]].code,
                    validations@[failed[k]].message@,
                ) by {
                    if k < places.len() {
                        assert(failed[k] == places[k]);
                        assert(errors@[k] == before[k]);
                    }
                }
                assert forall|a: int, b: int| 0 <= a < b < failed.len() implies #[trigger] failed[a]
                    < #[trigger] failed[b] by {
                    if b < places.len() {
                        assert(failed[a] == places[a] && failed[b] == places[b]);
                    } else {
                        assert(failed[a] == places[a]);
                    }
                }
            }
        } else {
            assert(holds(validations@[i as int], value));
        }
        i = i + 1;
    }
    if errors.len() == 0 {
        assert(failed.len() == 0);
        assert forall|j: int| 0 <= j < validations@.len() implies holds(#[trigger] validations@[j], value) by {
            assert(!failed.contains(j));
        }
        Ok(())
    } else {
        Err(errors)
    }
}

} // verus!
