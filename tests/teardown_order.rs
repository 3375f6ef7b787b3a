use ecocide::teardown::{teardown_plan, GpuObject, TeardownStep};

fn rel(object: GpuObject) -> TeardownStep {
    TeardownStep::Release { object }
}

#[test]
fn plan_for_three_images_and_one_allocation() {
    let plan = teardown_plan(3, 1);
    assert_eq!(
        plan,
        vec![
            TeardownStep::WaitIdle,
            rel(GpuObject::Pipeline),
            rel(GpuObject::PipelineLayout),
            rel(GpuObject::Framebuffer { index: 0 }),
            rel(GpuObject::ImageView { index: 0 }),
            rel(GpuObject::Framebuffer { index: 1 }),
            rel(GpuObject::ImageView { index: 1 }),
            rel(GpuObject::Framebuffer { index: 2 }),
            rel(GpuObject::ImageView { index: 2 }),
            rel(GpuObject::RenderPass),
            rel(GpuObject::Swapchain),
            rel(GpuObject::Allocation { index: 0 }),
            rel(GpuObject::VertexBuffer),
            rel(GpuObject::Allocator),
            rel(GpuObject::CommandPool),
            rel(GpuObject::ImageAvailableSemaphore),
            rel(GpuObject::RenderFinishedSemaphore),
            rel(GpuObject::FrameFence),
            rel(GpuObject::Device),
            rel(GpuObject::Surface),
            rel(GpuObject::DebugMessenger),
            rel(GpuObject::Instance),
        ]
    );
}

#[test]
fn plan_waits_idle_first_and_once() {
    let plan = teardown_plan(0, 0);
    assert_eq!(plan.len(), 15);
    assert_eq!(plan[0], TeardownStep::WaitIdle);
    assert_eq!(plan.iter().filter(|s| **s == TeardownStep::WaitIdle).count(), 1);
    assert_eq!(plan[14], rel(GpuObject::Instance));
}

#[test]
fn allocations_freed_before_buffer_and_allocator() {
    let plan = teardown_plan(2, 3);
    let pos = |o: GpuObject| plan.iter().position(|s| *s == rel(o)).unwrap();
    for i in 0..3 {
        assert!(pos(GpuObject::Allocation { index: i }) < pos(GpuObject::VertexBuffer));
    }
    assert!(pos(GpuObject::VertexBuffer) < pos(GpuObject::Allocator));
    assert!(pos(GpuObject::Allocator) < pos(GpuObject::Device));
    assert!(pos(GpuObject::Device) < pos(GpuObject::Instance));
}
