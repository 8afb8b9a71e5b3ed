//! A model of the context state that the calls of this crate act on.

use vstd::prelude::*;
use crate::driver::{BufferTarget, Call, Face, RasterMode};

verus! {

/// What the calls issued so far have asked of the driver.
///
/// There is one binding slot per category of object, and the slot belongs to
/// whichever bind call was issued last: it holds the name that this call
/// put there, `0` where it bound the null object. Each polygon face has the
/// rasterization mode that was last set for it. No handle looks at a slot
/// before it binds, so two handles that bind by turns overwrite each other.
#[derive(Clone, Copy, Debug, PartialEq, Eq, Structural)]
pub struct Context {
    /// The vertex array bound last.
    pub vertex_array: u32,
    /// The buffer bound last to the array target.
    pub array_buffer: u32,
    /// The buffer bound last to the element array target.
    pub element_array_buffer: u32,
    /// The mode set last for front-facing polygons.
    pub front: RasterMode,
    /// The mode set last for back-facing polygons.
    pub back: RasterMode,
}

impl Context {
    /// The context once `call` has been issued in it. A call that binds
    /// nothing and sets no mode leaves every slot and mode as it was.
    pub open spec fn after(self, call: Call) -> Context {
        match call {
            Call::BindVertexArray { id } => Context { vertex_array: id, ..self },
            Call::BindBuffer { target, id } => match target {
                BufferTarget::Array => Context { array_buffer: id, ..self },
                BufferTarget::ElementArray => Context { element_array_buffer: id, ..self },
            },
            Call::PolygonMode { face, mode } => match face {
                Face::Front => Context { front: mode, ..self },
                Face::Back => Context { back: mode, ..self },
                Face::FrontAndBack => Context { front: mode, back: mode, ..self },
            },
            _ => self,
        }
    }

    /// The context once `calls` have been issued in it, first to last.
    pub open spec fn after_all(self, calls: Seq<Call>) -> Context
        decreases calls.len(),
    {
        if calls.len() == 0 {
            self
        } else {
            self.after_all(calls.drop_last()).after(calls.last())
        }
    }

    /// Issuing `calls` and then `call` is issuing `call` in the context that
    /// `calls` leave.
    pub proof fn lemma_after_push(self, calls: Seq<Call>, call: Call)
        ensures
            self.after_all(calls.push(call)) == self.after_all(calls).after(call),
    {
        assert(calls.push(call).drop_last() =~= calls);
    }

    /// Follows one call: returns the context that `call` leaves when it is
    /// issued in this one.
    pub fn issue(self, call: Call) -> (next: Context)
        ensures
            next == self.after(call),
    {
        match call {
            Call::BindVertexArray { id } => Context { vertex_array: id, ..self },
            Call::BindBuffer { target: BufferTarget::Array, id } => Context { array_buffer: id, ..self },
            Call::BindBuffer { target: BufferTarget::ElementArray, id } => Context {
                element_array_buffer: id,
                ..self
            },
            Call::PolygonMode { face: Face::Front, mode } => Context { front: mode, ..self },
            Call::PolygonMode { face: Face::Back, mode } => Context { back: mode, ..self },
            Call::PolygonMode { face: Face::FrontAndBack, mode } => Context {
                front: mode,
                back: mode,
                ..self
            },
            _ => self,
        }
    }

    /// Follows a sequence of calls: returns the context that `calls` leave
    /// when they are issued in this one, first to last.
    pub fn issue_all(self, calls: &Vec<Call>) -> (last: Context)
        ensures
            last == self.after_all(calls@),
    {
        let mut ctx = self;
        let mut i: usize = 0;
        while i < calls.len()
            invariant
                i <= calls.len(),
                ctx == self.after_all(calls@.take(i as int)),
            decreases calls.len() - i,
        {
            proof {
                self.lemma_after_push(calls@.take(i as int), calls@[i as int]);
                assert(calls@.take(i + 1) =~= calls@.take(i as int).push(calls@[i as int]));
            }
            ctx = ctx.issue(calls[i]);
            i = i + 1;
        }
        proof {
            assert(calls@.take(calls@.len() as int) =~= calls@);
        }
        ctx
    }
}

} // verus!
