//! The wireframe switch: one flag, applied to the driver on request.

use vstd::prelude::*;
use crate::context::Context;
use crate::driver::{Call, Face, RasterMode};

verus! {

/// The rasterization mode that the flag stands for: outlines when it is set,
/// filled polygons when it is not.
pub open spec fn raster_mode(is_wireframe: bool) -> RasterMode {
    if is_wireframe {
        RasterMode::Line
    } else {
        RasterMode::Fill
    }
}

/// The call that puts the flag into effect, for front- and back-facing
/// polygons alike.
pub open spec fn polygon_mode_call(is_wireframe: bool) -> Call {
    Call::PolygonMode { face: Face::FrontAndBack, mode: raster_mode(is_wireframe) }
}

/// Whether `ctx` rasterizes both faces in the mode that the flag stands for.
pub open spec fn in_effect(is_wireframe: bool, ctx: Context) -> bool {
    ctx.front == raster_mode(is_wireframe) && ctx.back == raster_mode(is_wireframe)
}

/// Flips the flag and returns the call that puts the new value into effect.
pub fn toggle_wireframe(is_wireframe: &mut bool) -> (call: Call)
    ensures
        *final(is_wireframe) == !*old(is_wireframe),
        call == polygon_mode_call(*final(is_wireframe)),
{
    *is_wireframe = !*is_wireframe;
    update_wireframe(is_wireframe)
}

/// Returns the call that puts the flag into effect. The flag is not
/// remembered by the driver: the call has to be issued again whenever the
/// flag has changed.
pub fn update_wireframe(is_wireframe: &bool) -> (call: Call)
    ensures
        call == polygon_mode_call(*is_wireframe),
{
    match *is_wireframe {
        true => Call::PolygonMode { face: Face::FrontAndBack, mode: RasterMode::Line },
        false => Call::PolygonMode { face: Face::FrontAndBack, mode: RasterMode::Fill },
    }
}

/// Applying the flag draws both faces as outlines when it is set and filled
/// when it is not, whatever the context was, and changes no binding.
pub proof fn lemma_update_sets_both_faces(is_wireframe: bool, ctx: Context)
    ensures
        in_effect(is_wireframe, ctx.after(polygon_mode_call(is_wireframe))),
        ctx.after(polygon_mode_call(true)).front == RasterMode::Line,
        ctx.after(polygon_mode_call(true)).back == RasterMode::Line,
        ctx.after(polygon_mode_call(false)).front == RasterMode::Fill,
        ctx.after(polygon_mode_call(false)).back == RasterMode::Fill,
        ctx.after(polygon_mode_call(is_wireframe)) == (Context {
            front: raster_mode(is_wireframe),
            back: raster_mode(is_wireframe),
            ..ctx
        }),
{
}

/// Toggling twice gives the flag its first value back and leaves that value
/// in effect, whatever the context was before, and changes no binding.
pub proof fn lemma_toggle_twice_applies_first_value(is_wireframe: bool, ctx: Context)
    ensures
        !!is_wireframe == is_wireframe,
        ctx.after(polygon_mode_call(!is_wireframe)).after(polygon_mode_call(!!is_wireframe)) == (Context {
            front: raster_mode(is_wireframe),
            back: raster_mode(is_wireframe),
            ..ctx
        }),
        in_effect(
            is_wireframe,
            ctx.after(polygon_mode_call(!is_wireframe)).after(polygon_mode_call(!!is_wireframe)),
        ),
{
}

/// In a context where the flag's value is in effect, toggling twice restores
/// the context: the polygon mode after the second toggle is the one from
/// before the first.
pub proof fn lemma_toggle_twice_restores(is_wireframe: bool, ctx: Context)
    requires
        in_effect(is_wireframe, ctx),
    ensures
        ctx.after(polygon_mode_call(!is_wireframe)).after(polygon_mode_call(!!is_wireframe)) == ctx,
{
}

} // verus!
