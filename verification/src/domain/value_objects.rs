//! Values that are what they hold: an e-mail address, a name, a point in time.

use vstd::prelude::*;
use vstd::string::*;
use vstd::utf8::encode_utf8;
use crate::stamp::{is_clock_time, now_millis};
use crate::text::{contains_char, is_trim_of, lowercase, to_lowercase, trim};

verus! {

/// The longest e-mail address, in bytes.
pub const MAX_EMAIL_BYTES: usize = 254;

/// The longest name, in bytes.
pub const MAX_NAME_BYTES: usize = 100;

/// An e-mail address, in lower case.
#[derive(Debug, PartialEq, Eq)]
pub struct Email(String);

/// Whether a text passes for an e-mail address: it has an `@` and a dot, and is
/// not too long.
pub open spec fn is_email(text: Seq<char>) -> bool {
    text.contains('@') && text.contains('.') && encode_utf8(text).len() <= MAX_EMAIL_BYTES
}

impl View for Email {
    type V = Seq<char>;

    closed spec fn view(&self) -> Seq<char> {
        self.0@
    }
}

impl Clone for Email {
    fn clone(&self) -> (copy: Self)
        ensures
            copy@ == self@,
    {
        Email(self.0.clone())
    }
}

impl Email {
    /// The address `email` in lower case, or an error where `email` does not
    /// pass for an address.
    pub fn new(email: String) -> (r: Result<Self, &'static str>)
        ensures
            match r {
                Ok(address) => is_email(email@) && address@ == lowercase(email@),
                Err(message) => !is_email(email@) && message@ == "Invalid email format"@,
            },
    {
        let text = email.as_str();
        if contains_char(text, '@') && contains_char(text, '.') && text.as_bytes().len() <= MAX_EMAIL_BYTES {
            Ok(Email(to_lowercase(text)))
        } else {
            Err("Invalid email format")
        }
    }

    pub fn as_str(&self) -> (text: &str)
        ensures
            text@ == self@,
    {
        self.0.as_str()
    }
}

/// A name: not empty, not too long, without white space at its ends.
#[derive(Debug, PartialEq, Eq)]
pub struct Name(String);

/// Whether a text, trimmed, passes for a name.
pub open spec fn is_name(trimmed: Seq<char>) -> bool {
    0 < trimmed.len() && encode_utf8(trimmed).len() <= MAX_NAME_BYTES
}

impl View for Name {
    type V = Seq<char>;

    closed spec fn view(&self) -> Seq<char> {
        self.0@
    }
}

impl Clone for Name {
    fn clone(&self) -> (copy: Self)
        ensures
            copy@ == self@,
    {
        Name(self.0.clone())
    }
}

impl Name {
    /// The name `name` without the white space at its ends, or an error where
    /// that is empty or longer than a name may be.
    pub fn new(name: String) -> (r: Result<Self, &'static str>)
        ensures
            match r {
                Ok(made) => is_trim_of(made@, name@) && is_name(made@),
                Err(message) => message@ == "Name must be between 1 and 100 characters"@ && exists|
                    inner: Seq<char>,
                | #[trigger] is_trim_of(inner, name@) && !is_name(inner),
            },
    {
        let trimmed = trim(name.as_str());
        if trimmed.is_empty() || trimmed.as_bytes().len() > MAX_NAME_BYTES {
            Err("Name must be between 1 and 100 characters")
        } else {
            Ok(Name(trimmed.to_owned()))
        }
    }

    pub fn as_str(&self) -> (text: &str)
        ensures
            text@ == self@,
    {
        self.0.as_str()
    }
}

/// A point in time, in milliseconds since the Unix epoch.
#[derive(Debug, Clone, Copy, PartialEq, Eq, Structural)]
pub struct Timestamp(u64);

impl Timestamp {
    pub closed spec fn millis(self) -> u64 {
        self.0
    }

    /// The current time, as the clock reads it.
    pub fn now() -> (t: Self)
        ensures
            is_clock_time(t.millis()),
    {
        Timestamp(now_millis())
    }

    pub fn from_millis(millis: u64) -> (t: Self)
        ensures
            t.millis() == millis,
    {
        Timestamp(millis)
    }

    pub fn as_millis(&self) -> (millis: u64)
        ensures
            millis == self.millis(),
    {
        self.0
    }
}

} // verus!
