//! The handle that owns a buffer of vertex attribute data.

use vstd::prelude::*;
use crate::context::Context;
use crate::driver::{uploadable, BufferTarget, Call, ComponentType, Usage, ELEMENT_BYTES};
use crate::object::GPUObject;
use crate::vao::VAO;

verus! {

/// What a vertex buffer handle stands for: the buffer name it owns and the
/// components it retains.
pub struct VertexBufferView {
    pub id: u32,
    pub data: Seq<u32>,
}

/// Owns one buffer object of the driver that holds single-precision vertex
/// attribute data, together with a copy of that data.
///
/// A component is held as its IEEE 754 bit pattern, which is what the driver
/// is handed byte for byte. The copy is taken when the handle is made and is
/// never written again; it is not read back from the driver.
pub struct VBO {
    id: u32,
    data: Vec<u32>,
}

impl View for VBO {
    type V = VertexBufferView;

    closed spec fn view(&self) -> VertexBufferView {
        VertexBufferView { id: self.id, data: self.data@ }
    }
}

impl VBO {
    /// The retained copy is one that a buffer can be made of.
    #[verifier::type_invariant]
    spec fn well_formed(&self) -> bool {
        uploadable(self.data@.len())
    }

    /// The calls that set up buffer `id`, holding `len` components, as the
    /// source of attribute slot `index` of vertex array `array`, with `size`
    /// components per vertex.
    ///
    /// The array is bound first and unbound last. In between the buffer is
    /// bound, filled as a static store, declared as the tightly packed,
    /// unnormalized float source of the slot from its first byte on, the slot
    /// is switched on, and the buffer is unbound.
    pub open spec fn construction(array: u32, id: u32, index: u32, size: i32, len: nat) -> Seq<Call> {
        seq![
            Call::BindVertexArray { id: array },
            Call::BindBuffer { target: BufferTarget::Array, id },
            Call::BufferData {
                target: BufferTarget::Array,
                bytes: (len * ELEMENT_BYTES) as isize,
                usage: Usage::StaticDraw,
            },
            Call::VertexAttribPointer {
                index,
                size,
                component: ComponentType::Float,
                normalized: false,
                stride: 0,
                offset: 0,
            },
            Call::EnableVertexAttribArray { index },
            Call::BindBuffer { target: BufferTarget::Array, id: 0 },
            Call::BindVertexArray { id: 0 },
        ]
    }

    /// Takes ownership of buffer `id`, a name that the driver has generated
    /// and that no other handle holds, retains `data`, and returns the calls
    /// that upload `data` and configure slot `index` of `vao` to read `size`
    /// components per vertex from it.
    ///
    /// `vao` is borrowed for the call only.
    pub fn new(data: Vec<u32>, index: u32, size: i32, vao: &VAO, id: u32) -> (out: (VBO, Vec<Call>))
        requires
            uploadable(data@.len()),
        ensures
            out.0@ == (VertexBufferView { id, data: data@ }),
            out.0.get_data()@ == data@,
            out.1@ == VBO::construction(vao@, id, index, size, data@.len()),
    {
        let vbo = VBO { id, data };
        let mut calls: Vec<Call> = Vec::new();
        calls.push(vao.bind());
        calls.push(vbo.bind());
        let bytes: isize = (vbo.data.len() * ELEMENT_BYTES) as isize;
        calls.push(Call::BufferData { target: BufferTarget::Array, bytes, usage: Usage::StaticDraw });
        calls.push(
            Call::VertexAttribPointer {
                index,
                size,
                component: ComponentType::Float,
                normalized: false,
                stride: 0,
                offset: 0,
            },
        );
        calls.push(Call::EnableVertexAttribArray { index });
        calls.push(vbo.unbind());
        calls.push(vao.unbind());
        (vbo, calls)
    }

    /// The retained copy, as a specification value.
    pub closed spec fn spec_get_data(&self) -> &Vec<u32> {
        &self.data
    }

    /// The components that the handle was made with, unchanged.
    #[verifier::when_used_as_spec(spec_get_data)]
    pub fn get_data(&self) -> (data: &Vec<u32>)
        ensures
            data == self.spec_get_data(),
            data@ == self@.data,
            data@.len() > 0,
    {
        proof {
            use_type_invariant(self);
        }
        &self.data
    }

    /// Gives the buffer up. The returned call deletes it, and since the
    /// handle is consumed no second delete can follow.
    pub fn release(self) -> (call: Call)
        ensures
            call == (Call::DeleteBuffers { id: self@.id }),
    {
        Call::DeleteBuffers { id: self.id }
    }

    /// The context after the first `k` calls of a construction: `array` is
    /// bound from the first call to the last, the new buffer from its bind to
    /// its unbind, and nothing else has changed.
    proof fn lemma_construction_prefix(
        ctx: Context,
        array: u32,
        id: u32,
        index: u32,
        size: i32,
        len: nat,
        k: int,
    )
        requires
            0 <= k <= VBO::construction(array, id, index, size, len).len(),
        ensures
            ctx.after_all(VBO::construction(array, id, index, size, len).take(k)) == (Context {
                vertex_array: if k == 0 {
                    ctx.vertex_array
                } else if k < 7 {
                    array
                } else {
                    0
                },
                array_buffer: if k <= 1 {
                    ctx.array_buffer
                } else if k < 6 {
                    id
                } else {
                    0
                },
                ..ctx
            }),
        decreases k,
    {
        let calls = VBO::construction(array, id, index, size, len);
        if k == 0 {
            assert(calls.take(0) =~= Seq::<Call>::empty());
        } else {
            VBO::lemma_construction_prefix(ctx, array, id, index, size, len, k - 1);
            ctx.lemma_after_push(calls.take(k - 1), calls[k - 1]);
            assert(calls.take(k) =~= calls.take(k - 1).push(calls[k - 1]));
        }
    }

    /// While construction runs its own objects are the bound ones: every
    /// call after the first is issued with `array` bound, and every call
    /// after the buffer's bind, up to and including its unbind, is issued
    /// with the new buffer bound to the array target. So the upload fills
    /// the new buffer, and the declaration and the enabling of the slot are
    /// recorded in `array` with the new buffer as the source, whatever was
    /// bound before.
    pub proof fn lemma_construction_holds_bindings(
        ctx: Context,
        array: u32,
        id: u32,
        index: u32,
        size: i32,
        len: nat,
    )
        ensures
            forall|k: int|
                0 < k < VBO::construction(array, id, index, size, len).len() ==> (#[trigger] ctx.after_all(
                    VBO::construction(array, id, index, size, len).take(k),
                )).vertex_array == array,
            forall|k: int|
                1 < k < VBO::construction(array, id, index, size, len).len() - 1 ==> (#[trigger] ctx.after_all(
                    VBO::construction(array, id, index, size, len).take(k),
                )).array_buffer == id,
    {
        let calls = VBO::construction(array, id, index, size, len);
        assert forall|k: int| 0 < k < calls.len() implies {
            &&& (#[trigger] ctx.after_all(calls.take(k))).vertex_array == array
            &&& 1 < k < calls.len() - 1 ==> ctx.after_all(calls.take(k)).array_buffer == id
        } by {
            VBO::lemma_construction_prefix(ctx, array, id, index, size, len, k);
        }
    }

    /// Construction leaves no vertex array bound and no buffer bound to the
    /// array target, whatever was bound before, and touches nothing else.
    pub proof fn lemma_construction_unbinds(
        ctx: Context,
        array: u32,
        id: u32,
        index: u32,
        size: i32,
        len: nat,
    )
        ensures
            ctx.after_all(VBO::construction(array, id, index, size, len)) == (Context {
                vertex_array: 0,
                array_buffer: 0,
                ..ctx
            }),
    {
        let calls = VBO::construction(array, id, index, size, len);
        VBO::lemma_construction_prefix(ctx, array, id, index, size, len, 7);
        assert(calls.take(7) =~= calls);
    }
}

impl GPUObject for VBO {
    open spec fn binding(&self) -> Call {
        Call::BindBuffer { target: BufferTarget::Array, id: self@.id }
    }

    open spec fn unbinding(&self) -> Call {
        Call::BindBuffer { target: BufferTarget::Array, id: 0 }
    }

    fn bind(&self) -> (call: Call) {
        Call::BindBuffer { target: BufferTarget::Array, id: self.id }
    }

    fn unbind(&self) -> (call: Call) {
        Call::BindBuffer { target: BufferTarget::Array, id: 0 }
    }
}

} // verus!
