//! The order in which the renderer releases its GPU objects.
//!
//! Every object is released once, after a full device-idle wait, and never
//! before an object that still refers to it.
use vstd::prelude::*;

verus! {

/// A GPU object owned by the renderer. Indexed objects are numbered by their
/// position in the engine's lists.
#[derive(Clone, Copy, Debug, PartialEq, Eq, Structural)]
pub enum GpuObject {
    Pipeline,
    PipelineLayout,
    Framebuffer { index: usize },
    ImageView { index: usize },
    RenderPass,
    Swapchain,
    Allocation { index: usize },
    VertexBuffer,
    Allocator,
    CommandPool,
    ImageAvailableSemaphore,
    RenderFinishedSemaphore,
    FrameFence,
    Device,
    Surface,
    DebugMessenger,
    Instance,
}

/// One step of the teardown.
#[derive(Clone, Copy, Debug, PartialEq, Eq, Structural)]
pub enum TeardownStep {
    /// Wait until the device has finished all submitted work.
    WaitIdle,
    /// Release (destroy, free or drop) one object.
    Release { object: GpuObject },
}

/// `a` refers to `b`, so `a` must be released before `b`.
pub open spec fn depends_on(a: GpuObject, b: GpuObject) -> bool {
    match a {
        GpuObject::Pipeline => b == GpuObject::PipelineLayout || b == GpuObject::RenderPass || b
            == GpuObject::Device,
        GpuObject::PipelineLayout => b == GpuObject::Device,
        GpuObject::Framebuffer { index } => b == (GpuObject::ImageView { index }) || b
            == GpuObject::RenderPass || b == GpuObject::Device,
        GpuObject::ImageView { index } => b == GpuObject::Swapchain || b == GpuObject::Device,
        GpuObject::RenderPass => b == GpuObject::Device,
        GpuObject::Swapchain => b == GpuObject::Surface || b == GpuObject::Device,
        GpuObject::Allocation { index } => b == GpuObject::VertexBuffer || b
            == GpuObject::Allocator,
        GpuObject::VertexBuffer => b == GpuObject::Device,
        GpuObject::Allocator => b == GpuObject::Device,
        GpuObject::CommandPool => b == GpuObject::Device,
        GpuObject::ImageAvailableSemaphore => b == GpuObject::Device,
        GpuObject::RenderFinishedSemaphore => b == GpuObject::Device,
        GpuObject::FrameFence => b == GpuObject::Device,
        GpuObject::Device => b == GpuObject::Instance,
        GpuObject::Surface => b == GpuObject::Instance,
        GpuObject::DebugMessenger => b == GpuObject::Instance,
        GpuObject::Instance => false,
    }
}

/// The objects of an engine with `views` image views (and as many
/// framebuffers) and `allocations` allocations.
pub open spec fn engine_owns(views: nat, allocations: nat, o: GpuObject) -> bool {
    match o {
        GpuObject::Framebuffer { index } => index < views,
        GpuObject::ImageView { index } => index < views,
        GpuObject::Allocation { index } => index < allocations,
        _ => true,
    }
}

/// Number of steps of the plan.
pub open spec fn plan_len(views: nat, allocations: nat) -> nat {
    15 + 2 * views + allocations
}

/// The `k`-th step of the plan: the idle wait, the pipeline and its layout,
/// each framebuffer followed by its image view, the render pass, the chain,
/// the allocations, the vertex buffer, the allocator, the command pool, the
/// synchronisation objects, the device, the surface, the diagnostic
/// messenger and the instance.
pub open spec fn plan_step(views: nat, allocations: nat, k: int) -> TeardownStep {
    let fb_end = 3 + 2 * views;
    let alloc_start = fb_end + 2;
    let alloc_end = alloc_start + allocations;
    if k == 0 {
        TeardownStep::WaitIdle
    } else if k == 1 {
        TeardownStep::Release { object: GpuObject::Pipeline }
    } else if k == 2 {
        TeardownStep::Release { object: GpuObject::PipelineLayout }
    } else if k < fb_end {
        if (k - 3) % 2 == 0 {
            TeardownStep::Release { object: GpuObject::Framebuffer { index: ((k - 3) / 2) as usize } }
        } else {
            TeardownStep::Release { object: GpuObject::ImageView { index: ((k - 3) / 2) as usize } }
        }
    } else if k == fb_end {
        TeardownStep::Release { object: GpuObject::RenderPass }
    } else if k == fb_end + 1 {
        TeardownStep::Release { object: GpuObject::Swapchain }
    } else if k < alloc_end {
        TeardownStep::Release { object: GpuObject::Allocation { index: (k - alloc_start) as usize } }
    } else {
        TeardownStep::Release { object: tail_object(k - alloc_end) }
    }
}

/// The objects released after the allocations, in order.
pub open spec fn tail_object(j: int) -> GpuObject {
    if j == 0 {
        GpuObject::VertexBuffer
    } else if j == 1 {
        GpuObject::Allocator
    } else if j == 2 {
        GpuObject::CommandPool
    } else if j == 3 {
        GpuObject::ImageAvailableSemaphore
    } else if j == 4 {
        GpuObject::RenderFinishedSemaphore
    } else if j == 5 {
        GpuObject::FrameFence
    } else if j == 6 {
        GpuObject::Device
    } else if j == 7 {
        GpuObject::Surface
    } else if j == 8 {
        GpuObject::DebugMessenger
    } else {
        GpuObject::Instance
    }
}

pub open spec fn teardown_plan_spec(views: nat, allocations: nat) -> Seq<TeardownStep> {
    Seq::new(plan_len(views, allocations), |k: int| plan_step(views, allocations, k))
}

/// Builds the teardown plan of an engine with `views` image views (one
/// framebuffer each) and `allocations` allocations.
pub fn teardown_plan(views: usize, allocations: usize) -> (r: Vec<TeardownStep>)
    requires
        15 + 2 * views + allocations <= usize::MAX,
    ensures
        r@ == teardown_plan_spec(views as nat, allocations as nat),
{
    let ghost spec_plan = teardown_plan_spec(views as nat, allocations as nat);
    let mut r: Vec<TeardownStep> = Vec::new();
    r.push(TeardownStep::WaitIdle);
    r.push(TeardownStep::Release { object: GpuObject::Pipeline });
    r.push(TeardownStep::Release { object: GpuObject::PipelineLayout });
    let mut i: usize = 0;
    while i < views
        invariant
            0 <= i <= views,
            15 + 2 * views + allocations <= usize::MAX,
            spec_plan == teardown_plan_spec(views as nat, allocations as nat),
            r@.len() == 3 + 2 * i,
            forall|k: int| 0 <= k < r@.len() ==> r@[k] == #[trigger] spec_plan[k],
        decreases views - i,
    {
        r.push(TeardownStep::Release { object: GpuObject::Framebuffer { index: i } });
        r.push(TeardownStep::Release { object: GpuObject::ImageView { index: i } });
        i = i + 1;
    }
    r.push(TeardownStep::Release { object: GpuObject::RenderPass });
    r.push(TeardownStep::Release { object: GpuObject::Swapchain });
    let mut j: usize = 0;
    while j < allocations
        invariant
            0 <= j <= allocations,
            15 + 2 * views + allocations <= usize::MAX,
            spec_plan == teardown_plan_spec(views as nat, allocations as nat),
            r@.len() == 5 + 2 * views + j,
            forall|k: int| 0 <= k < r@.len() ==> r@[k] == #[trigger] spec_plan[k],
        decreases allocations - j,
    {
        r.push(TeardownStep::Release { object: GpuObject::Allocation { index: j } });
        j = j + 1;
    }
    r.push(TeardownStep::Release { object: GpuObject::VertexBuffer });
    r.push(TeardownStep::Release { object: GpuObject::Allocator });
    r.push(TeardownStep::Release { object: GpuObject::CommandPool });
    r.push(TeardownStep::Release { object: GpuObject::ImageAvailableSemaphore });
    r.push(TeardownStep::Release { object: GpuObject::RenderFinishedSemaphore });
    r.push(TeardownStep::Release { object: GpuObject::FrameFence });
    r.push(TeardownStep::Release { object: GpuObject::Device });
    r.push(TeardownStep::Release { object: GpuObject::Surface });
    r.push(TeardownStep::Release { object: GpuObject::DebugMessenger });
    r.push(TeardownStep::Release { object: GpuObject::Instance });
    assert(r@ =~= spec_plan);
    r
}

/// Where `o` stands in the plan.
pub open spec fn plan_position(views: nat, allocations: nat, o: GpuObject) -> int {
    let fb_end: int = 3 + 2 * views as int;
    let alloc_end: int = fb_end + 2 + allocations as int;
    match o {
        GpuObject::Pipeline => 1,
        GpuObject::PipelineLayout => 2,
        GpuObject::Framebuffer { index } => 3 + 2 * index,
        GpuObject::ImageView { index } => 4 + 2 * index,
        GpuObject::RenderPass => fb_end,
        GpuObject::Swapchain => fb_end + 1,
        GpuObject::Allocation { index } => fb_end + 2 + index,
        GpuObject::VertexBuffer => alloc_end,
        GpuObject::Allocator => alloc_end + 1,
        GpuObject::CommandPool => alloc_end + 2,
        GpuObject::ImageAvailableSemaphore => alloc_end + 3,
        GpuObject::RenderFinishedSemaphore => alloc_end + 4,
        GpuObject::FrameFence => alloc_end + 5,
        GpuObject::Device => alloc_end + 6,
        GpuObject::Surface => alloc_end + 7,
        GpuObject::DebugMessenger => alloc_end + 8,
        GpuObject::Instance => alloc_end + 9,
    }
}

proof fn lemma_step_is_at_its_position(views: nat, allocations: nat, k: int)
    requires
        plan_len(views, allocations) <= usize::MAX,
        1 <= k < plan_len(views, allocations),
    ensures
        plan_step(views, allocations, k) matches TeardownStep::Release { object } && engine_owns(
            views,
            allocations,
            object,
        ) && plan_position(views, allocations, object) == k,
{
    let fb_end: int = 3 + 2 * views as int;
    if 3 <= k < fb_end {
        assert(3 + 2 * ((k - 3) / 2) == k || 4 + 2 * ((k - 3) / 2) == k);
    }
}

proof fn lemma_position_holds_object(views: nat, allocations: nat, o: GpuObject)
    requires
        plan_len(views, allocations) <= usize::MAX,
        engine_owns(views, allocations, o),
    ensures
        1 <= plan_position(views, allocations, o) < plan_len(views, allocations),
        plan_step(views, allocations, plan_position(views, allocations, o))
            == (TeardownStep::Release { object: o }),
{
}

proof fn lemma_dependency_precedes(views: nat, allocations: nat, a: GpuObject, b: GpuObject)
    requires
        plan_len(views, allocations) <= usize::MAX,
        engine_owns(views, allocations, a),
        engine_owns(views, allocations, b),
        depends_on(a, b),
    ensures
        plan_position(views, allocations, a) < plan_position(views, allocations, b),
{
}

/// The plan starts with the device-idle wait and waits nowhere else, so no
/// object is released while submitted work may still use it.
pub proof fn lemma_teardown_waits_first(views: nat, allocations: nat)
    requires
        plan_len(views, allocations) <= usize::MAX,
    ensures
        teardown_plan_spec(views, allocations).len() > 0,
        teardown_plan_spec(views, allocations)[0] == TeardownStep::WaitIdle,
        forall|k: int|
            1 <= k < teardown_plan_spec(views, allocations).len() ==> #[trigger] teardown_plan_spec(
                views,
                allocations,
            )[k] != TeardownStep::WaitIdle,
{
    assert forall|k: int|
        1 <= k < teardown_plan_spec(views, allocations).len() implies #[trigger] teardown_plan_spec(
        views,
        allocations,
    )[k] != TeardownStep::WaitIdle by {
        lemma_step_is_at_its_position(views, allocations, k);
    }
}

/// No object is released after an object that it refers to: the order is
/// the reverse of the order of dependency (pipeline, render targets, chain,
/// allocations and buffer, allocator, device, instance).
pub proof fn lemma_teardown_respects_dependencies(
    views: nat,
    allocations: nat,
    i: int,
    j: int,
    a: GpuObject,
    b: GpuObject,
)
    requires
        plan_len(views, allocations) <= usize::MAX,
        0 <= i < j < teardown_plan_spec(views, allocations).len(),
        teardown_plan_spec(views, allocations)[i] == (TeardownStep::Release { object: a }),
        teardown_plan_spec(views, allocations)[j] == (TeardownStep::Release { object: b }),
    ensures
        !depends_on(b, a),
{
    lemma_step_is_at_its_position(views, allocations, i);
    lemma_step_is_at_its_position(views, allocations, j);
    if depends_on(b, a) {
        lemma_dependency_precedes(views, allocations, b, a);
    }
}

/// Every object of the engine is released, and none twice.
pub proof fn lemma_teardown_releases_each_once(views: nat, allocations: nat, o: GpuObject)
    requires
        plan_len(views, allocations) <= usize::MAX,
        engine_owns(views, allocations, o),
    ensures
        exists|k: int|
            0 <= k < teardown_plan_spec(views, allocations).len() && #[trigger] teardown_plan_spec(
                views,
                allocations,
            )[k] == (TeardownStep::Release { object: o }),
        forall|k1: int, k2: int|
            0 <= k1 < teardown_plan_spec(views, allocations).len() && 0 <= k2
                < teardown_plan_spec(views, allocations).len() && #[trigger] teardown_plan_spec(
                views,
                allocations,
            )[k1] == (TeardownStep::Release { object: o }) && #[trigger] teardown_plan_spec(
                views,
                allocations,
            )[k2] == (TeardownStep::Release { object: o }) ==> k1 == k2,
{
    lemma_position_holds_object(views, allocations, o);
    let p = plan_position(views, allocations, o);
    assert(teardown_plan_spec(views, allocations)[p] == (TeardownStep::Release { object: o }));
    assert forall|k1: int, k2: int|
        0 <= k1 < teardown_plan_spec(views, allocations).len() && 0 <= k2
            < teardown_plan_spec(views, allocations).len() && #[trigger] teardown_plan_spec(
            views,
            allocations,
        )[k1] == (TeardownStep::Release { object: o }) && #[trigger] teardown_plan_spec(
            views,
            allocations,
        )[k2] == (TeardownStep::Release { object: o }) implies k1 == k2 by {
        if k1 != 0 {
            lemma_step_is_at_its_position(views, allocations, k1);
        }
        if k2 != 0 {
            lemma_step_is_at_its_position(views, allocations, k2);
        }
    }
}

} // verus!
