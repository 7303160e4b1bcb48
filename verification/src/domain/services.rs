//! Rules that concern more than one entity.

use vstd::prelude::*;
use vstd::string::*;
use crate::domain::entities::{User, UserRole, UserStatus};
use crate::domain::errors::{DomainError, DomainErrorView, DomainResult};
use crate::text::{contains_char, i64_text, signed_decimal, text_eq};

verus! {

/// The rules on users.
pub trait UserService {
    /// Checks the data of a user before it is stored.
    fn validate_user(&self, user: &User) -> DomainResult<()>;

    /// Whether the user may perform the action.
    fn can_perform_action(&self, user: &User, action: &str) -> bool;

    /// Whether the user has the role that is asked for.
    fn has_role(&self, user: &User, required_role: UserRole) -> bool;

    /// Whether the user is active.
    fn is_active(&self, user: &User) -> bool;
}

/// The rules on users as this application has them.
#[derive(Debug, Clone, Copy, PartialEq, Eq)]
pub struct DefaultUserService;

/// What is wrong with a user's data, if anything: the name is looked at first,
/// then the e-mail address.
pub open spec fn stored_user_fault(name: Seq<char>, email: Seq<char>) -> Option<Seq<char>> {
    if name.len() == 0 {
        Some("Name cannot be empty"@)
    } else if !email.contains('@') {
        Some("Invalid email format"@)
    } else {
        None
    }
}

/// Whether a role may perform an action. Everyone may view content; editors and
/// administrators may edit it; the administration panel is for administrators.
/// No one may do anything else.
pub open spec fn permits(role: UserRole, action: Seq<char>) -> bool {
    if action == "admin_panel"@ {
        role == UserRole::Admin
    } else if action == "edit_content"@ {
        role == UserRole::Admin || role == UserRole::Editor
    } else if action == "view_content"@ {
        true
    } else {
        false
    }
}

impl UserService for DefaultUserService {
    fn validate_user(&self, user: &User) -> (r: DomainResult<()>)
        ensures
            match r {
                Ok(_) => stored_user_fault(user.name@, user.email@) is None,
                Err(error) => stored_user_fault(user.name@, user.email@) matches Some(fault) && error@
                    == DomainErrorView::ValidationError(fault),
            },
    {
        if user.name.as_str().is_empty() {
            return Err(DomainError::ValidationError("Name cannot be empty".to_owned()));
        }
        if !contains_char(user.email.as_str(), '@') {
            return Err(DomainError::ValidationError("Invalid email format".to_owned()));
        }
        Ok(())
    }

    fn can_perform_action(&self, user: &User, action: &str) -> (allowed: bool)
        ensures
            allowed == permits(user.role, action@),
    {
        if text_eq(action, "admin_panel") {
            user.role == UserRole::Admin
        } else if text_eq(action, "edit_content") {
            user.role == UserRole::Admin || user.role == UserRole::Editor
        } else if text_eq(action, "view_content") {
            true
        } else {
            false
        }
    }

    /// An administrator has every role.
    fn has_role(&self, user: &User, required_role: UserRole) -> (has: bool)
        ensures
            has == (user.role == UserRole::Admin || user.role == required_role),
    {
        if user.role == UserRole::Admin {
            return true;
        }
        user.role == required_role
    }

    fn is_active(&self, user: &User) -> (active: bool)
        ensures
            active == (user.status == UserStatus::Active),
    {
        user.status == UserStatus::Active
    }
}

/// The rules on counters.
pub trait CounterService {
    /// Checks a value against the limits of a counter.
    fn validate_limit(&self, value: i64, max: i64) -> DomainResult<()>;

    /// The value of a counter after a change.
    fn calculate_change(&self, current: i64, delta: i64) -> i64
        requires
            self.limits_are_ordered(),
    ;

    /// Whether the lower limit is no higher than the upper one.
    spec fn limits_are_ordered(&self) -> bool;
}

/// Counters that stay between two limits.
#[derive(Debug, Clone, Copy, PartialEq, Eq)]
pub struct DefaultCounterService {
    pub max_value: i64,
    pub min_value: i64,
}

/// A number, kept between two limits.
pub open spec fn clamped(n: int, low: int, high: int) -> int {
    if n < low {
        low
    } else if n > high {
        high
    } else {
        n
    }
}

impl DefaultCounterService {
    /// What is wrong with a value, if anything: the upper limit is looked at
    /// first.
    pub open spec fn limit_fault(self, value: i64) -> Option<Seq<char>> {
        if value > self.max_value {
            Some(
                "Counter value "@ + signed_decimal(value as int) + " exceeds maximum "@ + signed_decimal(
                    self.max_value as int,
                ),
            )
        } else if value < self.min_value {
            Some(
                "Counter value "@ + signed_decimal(value as int) + " below minimum "@ + signed_decimal(
                    self.min_value as int,
                ),
            )
        } else {
            None
        }
    }
}

impl CounterService for DefaultCounterService {
    open spec fn limits_are_ordered(&self) -> bool {
        self.min_value <= self.max_value
    }

    /// The limits are those of the service; `max` plays no part.
    fn validate_limit(&self, value: i64, max: i64) -> (r: DomainResult<()>)
        ensures
            match r {
                Ok(_) => self.limit_fault(value) is None,
                Err(error) => self.limit_fault(value) matches Some(fault) && error@
                    == DomainErrorView::BusinessRuleViolation(fault),
            },
    {
        if value > self.max_value {
            let mut message = "Counter value ".to_owned();
            message.append(i64_text(value).as_str());
            message.append(" exceeds maximum ");
            message.append(i64_text(self.max_value).as_str());
            return Err(DomainError::BusinessRuleViolation(message));
        }
        if value < self.min_value {
            let mut message = "Counter value ".to_owned();
            message.append(i64_text(value).as_str());
            message.append(" below minimum ");
            message.append(i64_text(self.min_value).as_str());
            return Err(DomainError::BusinessRuleViolation(message));
        }
        Ok(())
    }

    /// The sum of `current` and `delta`, kept between the limits.
    fn calculate_change(&self, current: i64, delta: i64) -> (value: i64)
        ensures
            value == clamped(current + delta, self.min_value as int, self.max_value as int),
    {
        let sum: i128 = current as i128 + delta as i128;
        if sum < self.min_value as i128 {
            self.min_value
        } else if sum > self.max_value as i128 {
            self.max_value
        } else {
            sum as i64
        }
    }
}

} // verus!
