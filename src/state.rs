use vstd::prelude::*;
use crate::gpu::{Color, GpuCommand, GpuOp};

verus! {

/// The last entry of `ops` that satisfies `f`, if any. Backend state set by a
/// command is the value of the last such command issued.
pub open spec fn last_where(ops: Seq<GpuOp>, f: spec_fn(GpuOp) -> bool) -> Option<GpuOp>
    decreases ops.len(),
{
    if ops.len() == 0 {
        None
    } else if f(ops.last()) {
        Some(ops.last())
    } else {
        last_where(ops.drop_last(), f)
    }
}

/// After `a` then `b`, the last entry satisfying `f` is `b`'s if `b` has one.
pub proof fn lemma_last_where_append(a: Seq<GpuOp>, b: Seq<GpuOp>, f: spec_fn(GpuOp) -> bool)
    ensures
        last_where(a + b, f) == match last_where(b, f) {
            Some(op) => Some(op),
            None => last_where(a, f),
        },
    decreases b.len(),
{
    if b.len() == 0 {
        assert(a + b =~= a);
    } else {
        assert((a + b).drop_last() =~= a + b.drop_last());
        assert((a + b).last() == b.last());
        lemma_last_where_append(a, b.drop_last(), f);
    }
}

pub open spec fn is_viewport(op: GpuOp) -> bool {
    op matches GpuOp::Command(GpuCommand::Viewport { .. })
}

pub open spec fn is_clear_color(op: GpuOp) -> bool {
    op matches GpuOp::Command(GpuCommand::ClearColor(_))
}

pub open spec fn is_vertex_array_binding(op: GpuOp) -> bool {
    op matches GpuOp::Command(GpuCommand::BindVertexArray(_))
}

pub open spec fn is_framebuffer_binding(op: GpuOp) -> bool {
    op matches GpuOp::Command(GpuCommand::BindFramebuffer(_))
}

/// The framebuffer bound as color target after `ops`; 0, the default
/// surface, when none was ever bound.
pub open spec fn current_framebuffer(ops: Seq<GpuOp>) -> u32 {
    match last_where(ops, |op: GpuOp| is_framebuffer_binding(op)) {
        Some(GpuOp::Command(GpuCommand::BindFramebuffer(name))) => name,
        _ => 0,
    }
}

/// The viewport in effect after `ops`, if one was ever set.
pub open spec fn current_viewport(ops: Seq<GpuOp>) -> Option<(u32, u32)> {
    match last_where(ops, |op: GpuOp| is_viewport(op)) {
        Some(GpuOp::Command(GpuCommand::Viewport { width, height })) => Some((width, height)),
        _ => None,
    }
}

/// The clear color in effect after `ops`, if one was ever set.
pub open spec fn current_clear_color(ops: Seq<GpuOp>) -> Option<Color> {
    match last_where(ops, |op: GpuOp| is_clear_color(op)) {
        Some(GpuOp::Command(GpuCommand::ClearColor(c))) => Some(c),
        _ => None,
    }
}

/// The vertex array bound after `ops`; 0 when none is.
pub open spec fn bound_vertex_array(ops: Seq<GpuOp>) -> u32 {
    match last_where(ops, |op: GpuOp| is_vertex_array_binding(op)) {
        Some(GpuOp::Command(GpuCommand::BindVertexArray(name))) => name,
        _ => 0,
    }
}

/// The number of draw calls in `ops`, and of those of exactly `count` indices.
pub open spec fn draws_of(ops: Seq<GpuOp>, count: u32) -> nat {
    ops.filter(|op: GpuOp| op == GpuOp::Command(GpuCommand::DrawIndexed(count))).len()
}

pub open spec fn draws(ops: Seq<GpuOp>) -> nat {
    ops.filter(|op: GpuOp| op matches GpuOp::Command(GpuCommand::DrawIndexed(_))).len()
}

} // verus!
