//! When two percentages are equal.
use crate::decimal::equal;
use crate::percentage::Percentage;
use vstd::prelude::*;
use vstd::std_specs::cmp::PartialEqSpecImpl;

verus! {

impl PartialEq for Percentage {
    /// Whether the two hold the same number: `0.50` equals `0.5`.
    fn eq(&self, other: &Percentage) -> (r: bool) {
        equal(&self.0, &other.0)
    }
}

impl PartialEqSpecImpl for Percentage {
    open spec fn obeys_eq_spec() -> bool {
        true
    }

    open spec fn eq_spec(&self, other: &Percentage) -> bool {
        self@.same_number(other@)
    }
}

impl Eq for Percentage {}

} // verus!
