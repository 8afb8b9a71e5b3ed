use renderer::context::Context;
use renderer::driver::{BufferTarget, Call, ComponentType, Face, RasterMode, Usage};
use renderer::{toggle_wireframe, update_wireframe, GPUObject, IBO, VAO, VBO};

fn busy() -> Context {
    Context {
        vertex_array: 40,
        array_buffer: 41,
        element_array_buffer: 42,
        front: RasterMode::Point,
        back: RasterMode::Line,
    }
}

fn idle(mode: RasterMode) -> Context {
    Context { vertex_array: 0, array_buffer: 0, element_array_buffer: 0, front: mode, back: mode }
}

#[test]
fn a_bind_call_takes_over_the_slot_of_its_category_only() {
    let ctx = busy();
    assert_eq!(ctx.issue(Call::BindVertexArray { id: 7 }), Context { vertex_array: 7, ..ctx });
    assert_eq!(
        ctx.issue(Call::BindBuffer { target: BufferTarget::Array, id: 8 }),
        Context { array_buffer: 8, ..ctx }
    );
    assert_eq!(
        ctx.issue(Call::BindBuffer { target: BufferTarget::ElementArray, id: 9 }),
        Context { element_array_buffer: 9, ..ctx }
    );
}

#[test]
fn a_polygon_mode_call_sets_the_faces_it_names() {
    let ctx = idle(RasterMode::Fill);
    assert_eq!(
        ctx.issue(Call::PolygonMode { face: Face::Front, mode: RasterMode::Line }),
        Context { front: RasterMode::Line, ..ctx }
    );
    assert_eq!(
        ctx.issue(Call::PolygonMode { face: Face::Back, mode: RasterMode::Point }),
        Context { back: RasterMode::Point, ..ctx }
    );
    assert_eq!(
        ctx.issue(Call::PolygonMode { face: Face::FrontAndBack, mode: RasterMode::Line }),
        idle(RasterMode::Line)
    );
}

#[test]
fn calls_that_bind_nothing_and_set_no_mode_change_nothing() {
    let ctx = busy();
    let calls = [
        Call::DeleteVertexArrays { id: 40 },
        Call::DeleteBuffers { id: 41 },
        Call::BufferData { target: BufferTarget::Array, bytes: 4, usage: Usage::StaticDraw },
        Call::VertexAttribPointer {
            index: 0,
            size: 1,
            component: ComponentType::Float,
            normalized: false,
            stride: 0,
            offset: 0,
        },
        Call::EnableVertexAttribArray { index: 0 },
    ];
    for call in calls {
        assert_eq!(ctx.issue(call), ctx);
    }
}

#[test]
fn issuing_no_call_changes_nothing() {
    assert_eq!(busy().issue_all(&vec![]), busy());
}

#[test]
fn issuing_a_sequence_is_issuing_its_calls_in_turn() {
    let calls = vec![
        Call::BindVertexArray { id: 1 },
        Call::BindBuffer { target: BufferTarget::Array, id: 2 },
        Call::BindVertexArray { id: 3 },
        Call::PolygonMode { face: Face::Back, mode: RasterMode::Fill },
    ];
    let mut step = busy();
    for call in &calls {
        step = step.issue(*call);
    }
    assert_eq!(busy().issue_all(&calls), step);
    assert_eq!(
        step,
        Context {
            vertex_array: 3,
            array_buffer: 2,
            element_array_buffer: 42,
            front: RasterMode::Point,
            back: RasterMode::Fill,
        }
    );
}

#[test]
fn applying_the_flag_sets_both_faces_and_no_binding() {
    let ctx = busy();
    assert_eq!(
        ctx.issue(update_wireframe(&true)),
        Context { front: RasterMode::Line, back: RasterMode::Line, ..ctx }
    );
    assert_eq!(
        ctx.issue(update_wireframe(&false)),
        Context { front: RasterMode::Fill, back: RasterMode::Fill, ..ctx }
    );
}

#[test]
fn toggling_twice_restores_a_context_that_agreed_with_the_flag() {
    for (start, mode) in [(false, RasterMode::Fill), (true, RasterMode::Line)] {
        let before = Context { front: mode, back: mode, ..busy() };
        let mut flag = start;
        let once = before.issue(toggle_wireframe(&mut flag));
        assert_ne!(once, before);
        let twice = once.issue(toggle_wireframe(&mut flag));
        assert_eq!(flag, start);
        assert_eq!(twice, before);
    }
}

#[test]
fn toggling_twice_applies_the_flag_to_a_context_that_disagreed_with_it() {
    let before = idle(RasterMode::Line);
    let mut flag = false;
    let first = toggle_wireframe(&mut flag);
    let second = toggle_wireframe(&mut flag);
    assert!(!flag);
    assert_eq!(before.issue_all(&vec![first, second]), idle(RasterMode::Fill));
}

#[test]
fn vertex_buffer_construction_leaves_array_and_buffer_unbound() {
    let vao = VAO::new(5);
    let (_, calls) = VBO::new(vec![0; 6], 1, 3, &vao, 6);
    let ctx = busy();
    assert_eq!(ctx.issue_all(&calls), Context { vertex_array: 0, array_buffer: 0, ..ctx });
}

#[test]
fn vertex_buffer_construction_works_on_its_own_array_and_buffer() {
    let vao = VAO::new(5);
    let (_, calls) = VBO::new(vec![0; 6], 1, 3, &vao, 6);
    let mut ctx = busy();
    for call in &calls {
        match call {
            Call::BufferData { .. } | Call::VertexAttribPointer { .. } => {
                assert_eq!(ctx.vertex_array, 5);
                assert_eq!(ctx.array_buffer, 6);
            }
            Call::EnableVertexAttribArray { .. } => assert_eq!(ctx.vertex_array, 5),
            _ => {}
        }
        ctx = ctx.issue(*call);
    }
    for k in 1..calls.len() {
        assert_eq!(busy().issue_all(&calls[..k].to_vec()).vertex_array, 5);
    }
    for k in 2..calls.len() - 1 {
        assert_eq!(busy().issue_all(&calls[..k].to_vec()).array_buffer, 6);
    }
}

#[test]
fn index_buffer_construction_leaves_the_buffer_bound_and_the_array_unbound() {
    let vao = VAO::new(5);
    let (ibo, calls) = IBO::new(vec![0, 1, 2], &vao, 7);
    let ctx = busy();
    assert_eq!(ctx.issue_all(&calls), Context { vertex_array: 0, element_array_buffer: 7, ..ctx });
    assert_eq!(
        ctx.issue_all(&calls).issue(ibo.unbind()),
        Context { vertex_array: 0, element_array_buffer: 0, ..ctx }
    );
}

#[test]
fn index_buffer_construction_works_on_its_own_array_and_buffer() {
    let vao = VAO::new(5);
    let (_, calls) = IBO::new(vec![0, 1, 2], &vao, 7);
    let mut ctx = busy();
    for call in &calls {
        if let Call::BufferData { .. } = call {
            assert_eq!(ctx.vertex_array, 5);
            assert_eq!(ctx.element_array_buffer, 7);
        }
        ctx = ctx.issue(*call);
    }
    for k in 1..calls.len() {
        assert_eq!(busy().issue_all(&calls[..k].to_vec()).vertex_array, 5);
    }
    for k in 2..calls.len() {
        assert_eq!(busy().issue_all(&calls[..k].to_vec()).element_array_buffer, 7);
    }
}

#[test]
fn two_buffers_made_for_one_array_leave_only_the_index_buffer_bound() {
    let a = VAO::new(1);
    let (_, vertex_calls) = VBO::new(vec![0; 9], 0, 3, &a, 2);
    let (_, index_calls) = IBO::new(vec![0, 1, 2], &a, 3);
    let start = idle(RasterMode::Fill);
    let end = start.issue_all(&vertex_calls).issue_all(&index_calls);
    assert_eq!(end, Context { element_array_buffer: 3, ..start });
}
