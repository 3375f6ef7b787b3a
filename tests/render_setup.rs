use ecocide::pipeline::{pipeline_description, render_area, CullMode, FrontFace, RenderArea, Topology};
use ecocide::surface::Extent2D;
use ecocide::targets::{
    framebuffer_descriptions, render_pass_description, FramebufferDesc, ImageLayout, LoadOp, StoreOp,
};

#[test]
fn one_framebuffer_per_view() {
    let fbs = framebuffer_descriptions(3, Extent2D { width: 800, height: 600 });
    assert_eq!(fbs.len(), 3);
    for (i, fb) in fbs.iter().enumerate() {
        assert_eq!(*fb, FramebufferDesc { view_index: i, width: 800, height: 600, layers: 1 });
    }
    assert!(framebuffer_descriptions(0, Extent2D { width: 1, height: 1 }).is_empty());
}

#[test]
fn render_pass_clears_and_presents() {
    let rp = render_pass_description(44);
    assert_eq!(rp.color_format, 44);
    assert_eq!(rp.load_op, LoadOp::Clear);
    assert_eq!(rp.store_op, StoreOp::Store);
    assert_eq!(rp.stencil_load_op, LoadOp::DontCare);
    assert_eq!(rp.stencil_store_op, StoreOp::DontCare);
    assert_eq!(rp.initial_layout, ImageLayout::Undefined);
    assert_eq!(rp.final_layout, ImageLayout::PresentSource);
    assert_eq!(rp.subpass_layout, ImageLayout::ColorAttachment);
}

#[test]
fn pipeline_state_is_fixed() {
    let p = pipeline_description(Extent2D { width: 1024, height: 768 });
    let area = RenderArea { x: 0, y: 0, width: 1024, height: 768 };
    assert_eq!(p.viewport, area);
    assert_eq!(p.scissor, area);
    assert_eq!(render_area(Extent2D { width: 1024, height: 768 }), area);
    assert_eq!(p.vertex_stride, 24);
    assert_eq!(p.position.location, 0);
    assert_eq!(p.position.offset, 0);
    assert_eq!(p.color.location, 1);
    assert_eq!(p.color.offset, 12);
    assert_eq!(p.position.format, 106);
    assert_eq!(p.topology, Topology::TriangleList);
    assert!(!p.primitive_restart);
    assert_eq!(p.cull_mode, CullMode::Disabled);
    assert_eq!(p.front_face, FrontFace::Clockwise);
    assert_eq!(p.sample_count, 1);
    assert!(!p.blend_enabled);
    assert!(p.write_all_channels);
}
