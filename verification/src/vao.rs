//! The handle that owns a vertex array object.

use vstd::prelude::*;
use crate::driver::Call;
use crate::object::GPUObject;

verus! {

/// Owns one vertex array object of the driver.
///
/// The handle is neither `Clone` nor `Copy`: the name it holds has exactly
/// one owner from [`VAO::new`] to [`VAO::release`].
pub struct VAO {
    id: u32,
}

impl View for VAO {
    type V = u32;

    /// A vertex array handle is the name that it owns.
    closed spec fn view(&self) -> u32 {
        self.id
    }
}

impl VAO {
    /// Takes ownership of the vertex array `id`, a name that the driver has
    /// generated and that no other handle holds.
    pub fn new(id: u32) -> (vao: VAO)
        ensures
            vao@ == id,
    {
        VAO { id }
    }

    /// Gives the vertex array up. The returned call deletes it, and since
    /// the handle is consumed no second delete can follow.
    pub fn release(self) -> (call: Call)
        ensures
            call == (Call::DeleteVertexArrays { id: self@ }),
    {
        Call::DeleteVertexArrays { id: self.id }
    }
}

impl GPUObject for VAO {
    open spec fn binding(&self) -> Call {
        Call::BindVertexArray { id: self@ }
    }

    open spec fn unbinding(&self) -> Call {
        Call::BindVertexArray { id: 0 }
    }

    fn bind(&self) -> (call: Call) {
        Call::BindVertexArray { id: self.id }
    }

    fn unbind(&self) -> (call: Call) {
        Call::BindVertexArray { id: 0 }
    }
}

} // verus!
