//! The handle that owns a buffer of vertex indices.

use vstd::prelude::*;
use crate::context::Context;
use crate::driver::{uploadable, BufferTarget, Call, Usage, ELEMENT_BYTES};
use crate::object::GPUObject;
use crate::vao::VAO;

verus! {

/// What an index buffer handle stands for: the buffer name it owns and the
/// indices it retains.
pub struct IndexBufferView {
    pub id: u32,
    pub indices: Seq<i32>,
}

/// Owns one buffer object of the driver that holds 32-bit vertex indices,
/// together with a copy of those indices.
///
/// The copy is taken when the handle is made and is never written again; it
/// is not read back from the driver.
pub struct IBO {
    id: u32,
    indices: Vec<i32>,
}

impl View for IBO {
    type V = IndexBufferView;

    closed spec fn view(&self) -> IndexBufferView {
        IndexBufferView { id: self.id, indices: self.indices@ }
    }
}

impl IBO {
    /// The retained copy is one that a buffer can be made of.
    #[verifier::type_invariant]
    spec fn well_formed(&self) -> bool {
        uploadable(self.indices@.len())
    }

    /// The calls that set up buffer `id`, holding `len` indices, as the index
    /// buffer of vertex array `array`.
    ///
    /// The array is bound first and unbound last. In between the buffer is
    /// bound to the element array target and filled as a static store. The
    /// buffer is not unbound: the binding stays behind as part of what the
    /// array has recorded.
    pub open spec fn construction(array: u32, id: u32, len: nat) -> Seq<Call> {
        seq![
            Call::BindVertexArray { id: array },
            Call::BindBuffer { target: BufferTarget::ElementArray, id },
            Call::BufferData {
                target: BufferTarget::ElementArray,
                bytes: (len * ELEMENT_BYTES) as isize,
                usage: Usage::StaticDraw,
            },
            Call::BindVertexArray { id: 0 },
        ]
    }

    /// Takes ownership of buffer `id`, a name that the driver has generated
    /// and that no other handle holds, retains `indices`, and returns the
    /// calls that upload `indices` as the index buffer of `vao`.
    ///
    /// `vao` is borrowed for the call only.
    pub fn new(indices: Vec<i32>, vao: &VAO, id: u32) -> (out: (IBO, Vec<Call>))
        requires
            uploadable(indices@.len()),
        ensures
            out.0@ == (IndexBufferView { id, indices: indices@ }),
            out.0.get_indices()@ == indices@,
            out.1@ == IBO::construction(vao@, id, indices@.len()),
    {
        let ibo = IBO { id, indices };
        let mut calls: Vec<Call> = Vec::new();
        calls.push(vao.bind());
        calls.push(ibo.bind());
        let bytes: isize = (ibo.indices.len() * ELEMENT_BYTES) as isize;
        calls.push(Call::BufferData { target: BufferTarget::ElementArray, bytes, usage: Usage::StaticDraw });
        calls.push(vao.unbind());
        (ibo, calls)
    }

    /// The retained copy, as a specification value.
    pub closed spec fn spec_get_indices(&self) -> &Vec<i32> {
        &self.indices
    }

    /// The indices that the handle was made with, unchanged.
    #[verifier::when_used_as_spec(spec_get_indices)]
    pub fn get_indices(&self) -> (indices: &Vec<i32>)
        ensures
            indices == self.spec_get_indices(),
            indices@ == self@.indices,
            indices@.len() > 0,
    {
        proof {
            use_type_invariant(self);
        }
        &self.indices
    }

    /// Gives the buffer up. The returned call deletes it, and since the
    /// handle is consumed no second delete can follow.
    pub fn release(self) -> (call: Call)
        ensures
            call == (Call::DeleteBuffers { id: self@.id }),
    {
        Call::DeleteBuffers { id: self.id }
    }

    /// The context after the first `k` calls of a construction: `array` is
    /// bound from the first call to the last, the new buffer from its bind
    /// on, and nothing else has changed.
    proof fn lemma_construction_prefix(ctx: Context, array: u32, id: u32, len: nat, k: int)
        requires
            0 <= k <= IBO::construction(array, id, len).len(),
        ensures
            ctx.after_all(IBO::construction(array, id, len).take(k)) == (Context {
                vertex_array: if k == 0 {
                    ctx.vertex_array
                } else if k < 4 {
                    array
                } else {
                    0
                },
                element_array_buffer: if k <= 1 {
                    ctx.element_array_buffer
                } else {
                    id
                },
                ..ctx
            }),
        decreases k,
    {
        let calls = IBO::construction(array, id, len);
        if k == 0 {
            assert(calls.take(0) =~= Seq::<Call>::empty());
        } else {
            IBO::lemma_construction_prefix(ctx, array, id, len, k - 1);
            ctx.lemma_after_push(calls.take(k - 1), calls[k - 1]);
            assert(calls.take(k) =~= calls.take(k - 1).push(calls[k - 1]));
        }
    }

    /// While construction runs its own objects are the bound ones: every
    /// call after the first is issued with `array` bound, and every call
    /// after the buffer's bind is issued with the new buffer bound to the
    /// element array target. So the binding is recorded in `array` and the
    /// upload fills the new buffer, whatever was bound before.
    pub proof fn lemma_construction_holds_bindings(ctx: Context, array: u32, id: u32, len: nat)
        ensures
            forall|k: int|
                0 < k < IBO::construction(array, id, len).len() ==> (#[trigger] ctx.after_all(
                    IBO::construction(array, id, len).take(k),
                )).vertex_array == array,
            forall|k: int|
                1 < k < IBO::construction(array, id, len).len() ==> (#[trigger] ctx.after_all(
                    IBO::construction(array, id, len).take(k),
                )).element_array_buffer == id,
    {
        let calls = IBO::construction(array, id, len);
        assert forall|k: int| 0 < k < calls.len() implies {
            &&& (#[trigger] ctx.after_all(calls.take(k))).vertex_array == array
            &&& 1 < k ==> ctx.after_all(calls.take(k)).element_array_buffer == id
        } by {
            IBO::lemma_construction_prefix(ctx, array, id, len, k);
        }
    }

    /// Construction leaves no vertex array bound and the new buffer bound to
    /// the element array target, whatever was bound before, and touches
    /// nothing else.
    pub proof fn lemma_construction_keeps_buffer_bound(ctx: Context, array: u32, id: u32, len: nat)
        ensures
            ctx.after_all(IBO::construction(array, id, len)) == (Context {
                vertex_array: 0,
                element_array_buffer: id,
                ..ctx
            }),
    {
        let calls = IBO::construction(array, id, len);
        IBO::lemma_construction_prefix(ctx, array, id, len, 4);
        assert(calls.take(4) =~= calls);
    }
}

impl GPUObject for IBO {
    open spec fn binding(&self) -> Call {
        Call::BindBuffer { target: BufferTarget::ElementArray, id: self@.id }
    }

    open spec fn unbinding(&self) -> Call {
        Call::BindBuffer { target: BufferTarget::ElementArray, id: 0 }
    }

    fn bind(&self) -> (call: Call) {
        Call::BindBuffer { target: BufferTarget::ElementArray, id: self.id }
    }

    fn unbind(&self) -> (call: Call) {
        Call::BindBuffer { target: BufferTarget::ElementArray, id: 0 }
    }
}

} // verus!
