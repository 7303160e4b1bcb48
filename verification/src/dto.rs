//! The shapes in which data leaves the application.

use vstd::prelude::*;

verus! {

/// A user as an answer shows it.
#[derive(Debug, PartialEq)]
pub struct UserDto {
    pub id: i64,
    pub name: String,
    pub email: String,
    pub role: String,
    pub status: String,
    /// Milliseconds since the Unix epoch.
    pub created_at: u64,
}

/// What is known of the data store.
#[derive(Debug, PartialEq)]
pub struct DatabaseStatsDto {
    pub users_count: i64,
    pub tables: Vec<String>,
    pub database_size: Option<i64>,
}

/// A counter.
#[derive(Debug, PartialEq)]
pub struct CounterDto {
    pub id: String,
    pub value: i64,
    pub label: String,
}

/// What a frontend tells of the machine it runs on.
#[derive(Debug, PartialEq)]
pub struct SystemInfoDto {
    pub platform: String,
    pub user_agent: String,
    pub language: String,
    pub screen_resolution: String,
    pub memory_gb: Option<u32>,
    pub cpu_cores: Option<u32>,
    pub online: bool,
}

/// An answer: the data where the call succeeded, the error where it did not.
#[derive(Debug, PartialEq)]
pub struct ApiResponse<T> {
    pub success: bool,
    pub data: Option<T>,
    pub error: Option<String>,
    pub message: Option<String>,
}

impl<T> ApiResponse<T> {
    /// The answer to a call that succeeded.
    pub fn success(data: T) -> (response: Self)
        ensures
            response.success,
            response.data == Some(data),
            response.error is None,
            response.message is None,
    {
        ApiResponse { success: true, data: Some(data), error: None, message: None }
    }

    /// The answer to a call that failed.
    pub fn error(message: String) -> (response: Self)
        ensures
            !response.success,
            response.data is None,
            response.error == Some(message),
            response.message is None,
    {
        ApiResponse { success: false, data: None, error: Some(message), message: None }
    }

    /// The answer with a message added, or replaced.
    pub fn with_message(self, message: String) -> (response: Self)
        ensures
            response.success == self.success,
            response.data == self.data,
            response.error == self.error,
            response.message == Some(message),
    {
        ApiResponse { success: self.success, data: self.data, error: self.error, message: Some(message) }
    }
}

} // verus!
