//! UI-overlay integration: the frame plan for the overlay pass.
//!
//! Once per frame the UI collaborator hands back texture updates keyed by
//! id, ids of textures it released, and an ordered list of clipped draw
//! primitives. The library does not interpret any of them; it decides the
//! order in which the loop performs the GPU work: uploads strictly before
//! the pass opens, draws inside the pass in the order given, and frees
//! strictly after the pass is recorded, so that no in-flight command can
//! reference a texture that was already released.

use vstd::prelude::*;

verus! {

use crate::frame::LoadOp;

/// One step of the overlay work, in execution order.
#[derive(Clone, Copy, PartialEq, Eq, Structural, Debug)]
pub enum OverlayStep {
    /// Upload new or changed pixel data for this texture id.
    UploadTexture(u64),
    /// Upload this frame's vertex and index buffers.
    UploadBuffers,
    /// Open the overlay render pass with the given color load behaviour.
    BeginPass(LoadOp),
    /// Draw one clipped primitive.
    DrawPrimitive(u64),
    /// Close the overlay render pass.
    EndPass,
    /// Release a texture the UI no longer needs.
    FreeTexture(u64),
}

/// The overlay plan: texture uploads, buffer upload, the pass loading the
/// attachment as it stands, the draws in their given order, and the frees
/// last.
pub open spec fn spec_overlay_plan(set: Seq<u64>, free: Seq<u64>, prims: Seq<u64>) -> Seq<
    OverlayStep,
> {
    set.map_values(|t: u64| OverlayStep::UploadTexture(t)) + seq![
        OverlayStep::UploadBuffers,
        OverlayStep::BeginPass(LoadOp::Load),
    ] + prims.map_values(|p: u64| OverlayStep::DrawPrimitive(p)) + seq![OverlayStep::EndPass]
        + free.map_values(|t: u64| OverlayStep::FreeTexture(t))
}

/// Lay out one frame's overlay work. `set` holds the texture ids with new
/// or changed pixel data, `free` the ids the UI released, and `prims` the
/// primitives to draw, in order.
pub fn plan_overlay_pass(set: &Vec<u64>, free: &Vec<u64>, prims: &Vec<u64>) -> (steps: Vec<
    OverlayStep,
>)
    ensures
        steps@ == spec_overlay_plan(set@, free@, prims@),
{
    let mut steps: Vec<OverlayStep> = Vec::new();
    let mut i: usize = 0;
    while i < set.len()
        invariant
            0 <= i <= set@.len(),
            steps@ =~= set@.take(i as int).map_values(|t: u64| OverlayStep::UploadTexture(t)),
        decreases set@.len() - i,
    {
        steps.push(OverlayStep::UploadTexture(set[i]));
        proof {
            assert(set@.take(i as int + 1) =~= set@.take(i as int).push(set@[i as int]));
        }
        i = i + 1;
    }
    proof {
        assert(set@.take(set@.len() as int) =~= set@);
    }
    steps.push(OverlayStep::UploadBuffers);
    steps.push(OverlayStep::BeginPass(LoadOp::Load));
    let mut k: usize = 0;
    while k < prims.len()
        invariant
            0 <= k <= prims@.len(),
            steps@ =~= set@.map_values(|t: u64| OverlayStep::UploadTexture(t)) + seq![
                OverlayStep::UploadBuffers,
                OverlayStep::BeginPass(LoadOp::Load),
            ] + prims@.take(k as int).map_values(|p: u64| OverlayStep::DrawPrimitive(p)),
        decreases prims@.len() - k,
    {
        steps.push(OverlayStep::DrawPrimitive(prims[k]));
        proof {
            assert(prims@.take(k as int + 1) =~= prims@.take(k as int).push(prims@[k as int]));
        }
        k = k + 1;
    }
    proof {
        assert(prims@.take(prims@.len() as int) =~= prims@);
    }
    steps.push(OverlayStep::EndPass);
    let mut j: usize = 0;
    while j < free.len()
        invariant
            0 <= j <= free@.len(),
            steps@ =~= set@.map_values(|t: u64| OverlayStep::UploadTexture(t)) + seq![
                OverlayStep::UploadBuffers,
                OverlayStep::BeginPass(LoadOp::Load),
            ] + prims@.map_values(|p: u64| OverlayStep::DrawPrimitive(p)) + seq![
                OverlayStep::EndPass,
            ] + free@.take(j as int).map_values(|t: u64| OverlayStep::FreeTexture(t)),
        decreases free@.len() - j,
    {
        steps.push(OverlayStep::FreeTexture(free[j]));
        proof {
            assert(free@.take(j as int + 1) =~= free@.take(j as int).push(free@[j as int]));
        }
        j = j + 1;
    }
    proof {
        assert(free@.take(free@.len() as int) =~= free@);
        assert(steps@ =~= spec_overlay_plan(set@, free@, prims@));
    }
    steps
}

/// The resource-lifetime law of the overlay plan: the pass opens at index
/// `set.len() + 1` and closes at `set.len() + 2 + prims.len()`; every
/// texture upload stands strictly before the pass opens, every draw stands
/// inside the pass in the order the UI gave, and every free stands
/// strictly after the pass closes — a texture still referenced by recorded
/// commands is never released early.
pub proof fn lemma_overlay_plan_lifetimes(set: Seq<u64>, free: Seq<u64>, prims: Seq<u64>)
    ensures
        spec_overlay_plan(set, free, prims).len() == set.len() + 3 + prims.len() + free.len(),
        spec_overlay_plan(set, free, prims)[set.len() as int + 1] == OverlayStep::BeginPass(
            LoadOp::Load,
        ),
        spec_overlay_plan(set, free, prims)[set.len() + 2 + prims.len() as int] == OverlayStep::EndPass,
        forall|i: int|
            0 <= i < set.len() ==> spec_overlay_plan(set, free, prims)[i]
                == OverlayStep::UploadTexture(set[i]),
        forall|k: int|
            0 <= k < prims.len() ==> spec_overlay_plan(set, free, prims)[set.len() + 2 + k]
                == OverlayStep::DrawPrimitive(prims[k]),
        forall|j: int|
            0 <= j < free.len() ==> spec_overlay_plan(set, free, prims)[set.len() + 3 + prims.len() + j] == OverlayStep::FreeTexture(free[j]),
{
    let plan = spec_overlay_plan(set, free, prims);
    assert forall|i: int| 0 <= i < set.len() implies plan[i] == OverlayStep::UploadTexture(
        set[i],
    ) by {
        assert(plan[i] == set.map_values(|t: u64| OverlayStep::UploadTexture(t))[i]);
    }
    assert forall|k: int| 0 <= k < prims.len() implies plan[set.len() + 2 + k]
        == OverlayStep::DrawPrimitive(prims[k]) by {
        assert(plan[set.len() + 2 + k] == prims.map_values(
            |p: u64| OverlayStep::DrawPrimitive(p),
        )[k]);
    }
    assert forall|j: int| 0 <= j < free.len() implies plan[set.len() + 3 + prims.len() + j]
        == OverlayStep::FreeTexture(free[j]) by {
        assert(plan[set.len() + 3 + prims.len() + j] == free.map_values(
            |t: u64| OverlayStep::FreeTexture(t),
        )[j]);
    }
}

} // verus!
