//! Equality of credentials: by content.

use crate::auth::UsernamePassword;
use vstd::prelude::*;
use vstd::std_specs::cmp::PartialEqSpecImpl;

verus! {

impl PartialEq for UsernamePassword {
    fn eq(&self, other: &UsernamePassword) -> (r: bool) {
        self.username == other.username && self.password == other.password
    }
}

impl PartialEqSpecImpl for UsernamePassword {
    open spec fn obeys_eq_spec() -> bool {
        true
    }

    /// Two tokens are equal when both fields hold the same text.
    open spec fn eq_spec(&self, other: &UsernamePassword) -> bool {
        self@ == other@
    }
}

impl Eq for UsernamePassword {

}

} // verus!
