//! The frame: the ordered commands of the one render pass a redraw issues.

use vstd::prelude::*;

verus! {

/// A color with unit-intensity channels; the program only ever clears, and
/// it clears to opaque white.
#[derive(Clone, Copy, PartialEq, Eq, Structural, Debug)]
pub struct Color {
    pub r: u8,
    pub g: u8,
    pub b: u8,
    pub a: u8,
}

/// Opaque white, the clear color of every frame.
pub open spec fn white() -> Color {
    Color { r: 1, g: 1, b: 1, a: 1 }
}

/// One command of the render pass. `Clear` is the load operation of the
/// pass's single color attachment; `Draw` draws `vertex_count` vertices
/// starting at the first, for `instance_count` instances starting at the
/// first.
#[derive(Clone, Copy, PartialEq, Eq, Structural, Debug)]
pub enum PassOp {
    Clear(Color),
    SetPipeline,
    SetVertexBuffer { slot: u32 },
    Draw { vertex_count: u32, instance_count: u32 },
}

/// How many draw commands a plan holds, counting over its first `k`
/// entries.
pub open spec fn draws_before(ops: Seq<PassOp>, k: int) -> int
    decreases k,
{
    if k <= 0 {
        0
    } else {
        draws_before(ops, k - 1) + (if ops[k - 1] is Draw {
            1int
        } else {
            0int
        })
    }
}

/// How many draw commands a plan holds.
pub open spec fn draws_in(ops: Seq<PassOp>) -> int {
    draws_before(ops, ops.len() as int)
}

/// The plan of one frame, for a vertex buffer of `vertex_count` vertices.
pub open spec fn frame_plan_spec(vertex_count: u32) -> Seq<PassOp> {
    seq![
        PassOp::Clear(white()),
        PassOp::SetPipeline,
        PassOp::SetVertexBuffer { slot: 0 },
        PassOp::Draw { vertex_count, instance_count: 1 },
    ]
}

/// The commands of one frame: exactly one render pass, which first clears
/// the whole target to opaque white, then binds the pipeline and the vertex
/// buffer, and ends with the single draw of the frame.
pub fn frame_plan(vertex_count: u32) -> (ops: Vec<PassOp>)
    ensures
        ops@ == frame_plan_spec(vertex_count),
        ops@.len() == 4,
        (ops@[0] == PassOp::Clear(white())),
        ops@[1] == PassOp::SetPipeline,
        (ops@[2] == PassOp::SetVertexBuffer { slot: 0 }),
        (ops@[3] == PassOp::Draw { vertex_count, instance_count: 1 }),
        draws_in(ops@) == 1,
{
    let mut ops: Vec<PassOp> = Vec::new();
    ops.push(PassOp::Clear(Color { r: 1, g: 1, b: 1, a: 1 }));
    ops.push(PassOp::SetPipeline);
    ops.push(PassOp::SetVertexBuffer { slot: 0 });
    ops.push(PassOp::Draw { vertex_count, instance_count: 1 });
    proof {
        assert(ops@ =~= frame_plan_spec(vertex_count));
        reveal_with_fuel(draws_before, 5);
        assert(draws_in(ops@) == 1);
    }
    ops
}

/// Every frame begins with the clear: in the plan of any frame, the first
/// command is the full clear to white, every draw comes after it, and the
/// plan holds exactly one draw — of the requested vertices, in one
/// instance.
pub proof fn lemma_clear_precedes_single_draw(vertex_count: u32)
    ensures
        frame_plan_spec(vertex_count)[0] == PassOp::Clear(white()),
        forall|i: int|
            0 <= i < frame_plan_spec(vertex_count).len()
                && frame_plan_spec(vertex_count)[i] is Draw ==> i > 0,
        draws_in(frame_plan_spec(vertex_count)) == 1,
        (frame_plan_spec(vertex_count)[3] == PassOp::Draw { vertex_count, instance_count: 1 }),
{
    reveal_with_fuel(draws_before, 5);
}

} // verus!
