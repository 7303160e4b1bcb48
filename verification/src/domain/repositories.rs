//! Where entities come from, as far as the rules are concerned.

use vstd::prelude::*;
use crate::domain::entities::SystemInfo;
use crate::domain::errors::DomainResult;

verus! {

/// Tells what is known of the system on which a frontend runs.
pub trait SystemInfoRepository {
    /// What is known right now.
    fn get_current(&self) -> DomainResult<SystemInfo>;
}

} // verus!
