//! The capability that every handle shares: it can be bound and unbound.

use vstd::prelude::*;
use crate::driver::Call;

verus! {

/// A driver resource that is made active by binding it and inactive by
/// binding the null object of its category in its place.
pub trait GPUObject {
    /// The call that makes this object the active one of its category.
    spec fn binding(&self) -> Call;

    /// The call that leaves no object of this category active.
    spec fn unbinding(&self) -> Call;

    /// Returns the call that binds this object.
    fn bind(&self) -> (call: Call)
        ensures
            call == self.binding(),
    ;

    /// Returns the call that unbinds whatever object of this category is
    /// bound.
    fn unbind(&self) -> (call: Call)
        ensures
            call == self.unbinding(),
    ;
}

} // verus!
