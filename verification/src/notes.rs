//! Note listing filters.

use vstd::prelude::*;

verus! {

/// Whether a listing is restricted to active or to inactive notes.
#[derive(Debug, Clone, Copy, PartialEq, Eq, Structural)]
pub enum ActiveStatus {
    Active,
    Inactive,
}

impl ActiveStatus {
    /// The value of the `active` column that this status selects.
    pub open spec fn spec_as_bool(self) -> bool {
        self == ActiveStatus::Active
    }

    /// The value of the `active` column that this status selects.
    #[verifier::when_used_as_spec(spec_as_bool)]
    pub fn as_bool(self) -> (b: bool)
        ensures
            b == self.spec_as_bool(),
    {
        match self {
            ActiveStatus::Active => true,
            ActiveStatus::Inactive => false,
        }
    }
}

} // verus!
