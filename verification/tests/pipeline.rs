use raypipe::canvas::{AcquireAction, AcquireError, Canvas, TextureFormat};
use raypipe::label::Label;
use raypipe::pipeline::{
    BindingType, Color, FrameStep, Pipeline, PostProcess, RawOutput, Raytracer,
    StorageTextureAccess, TextureDimension, TextureViewDimension, SCALE_FACTOR,
};
use raypipe::Size2D;

fn canvas(width: u32, height: u32) -> Canvas {
    Canvas::new(
        &Label::from("engine"),
        Size2D::new(width, height),
        TextureFormat::Reported(0),
    )
}

#[test]
fn downscale_derives_both_dimensions_from_width() {
    let s = Pipeline::downscale(Size2D::new(1280, 720), 8);
    assert_eq!((s.width, s.height), (160, 160));
    // The height is ignored entirely.
    let t = Pipeline::downscale(Size2D::new(100, 999), 10);
    assert_eq!((t.width, t.height), (10, 10));
}

#[test]
fn downscale_truncates() {
    let s = Pipeline::downscale(Size2D::new(1279, 720), 8);
    assert_eq!((s.width, s.height), (159, 159));
    let t = Pipeline::downscale(Size2D::new(15, 77), 4);
    assert_eq!((t.width, t.height), (3, 3));
}

#[test]
fn downscale_by_one_keeps_width() {
    let s = Pipeline::downscale(Size2D::new(321, 654), 1);
    assert_eq!((s.width, s.height), (321, 321));
}

#[test]
fn bind_group_layout_has_one_readwrite_storage_slot() {
    let layout = RawOutput::bind_group_layout();
    assert_eq!(layout.entries.len(), 1);
    let entry = &layout.entries[0];
    assert_eq!(entry.binding, 0);
    assert!(entry.visibility.compute);
    assert!(entry.visibility.fragment);
    assert!(!entry.visibility.vertex);
    let BindingType::StorageTexture {
        access,
        format,
        view_dimension,
    } = entry.ty;
    assert_eq!(access, StorageTextureAccess::ReadWrite);
    assert_eq!(format, TextureFormat::Rgba8Unorm);
    assert_eq!(view_dimension, TextureViewDimension::D2);
}

#[test]
fn binding_layouts_of_both_stages_are_identical() {
    let rt = Raytracer::new();
    let pp = PostProcess::new(&canvas(1280, 720));
    let rt_layouts = &rt.desc.layout.bind_group_layouts;
    let pp_layouts = &pp.desc.layout.bind_group_layouts;
    assert_eq!(rt_layouts.len(), 1);
    assert_eq!(pp_layouts.len(), 1);
    assert_eq!(rt_layouts[0].entries, pp_layouts[0].entries);
    // And both match the schema the offscreen target instantiates.
    assert_eq!(rt_layouts[0].entries, RawOutput::bind_group_layout().entries);
}

#[test]
fn stage_entry_points() {
    let rt = Raytracer::new();
    assert_eq!(rt.desc.entry_point.as_str(), "raytrace");
    let pp = PostProcess::new(&canvas(1280, 720));
    assert_eq!(pp.desc.vertex_entry_point.as_str(), "vs_main");
    assert_eq!(pp.desc.fragment_entry_point.as_str(), "fs_main");
    assert_eq!(pp.desc.vertex_buffer_count, 0);
}

#[test]
fn postprocess_targets_the_surface_format() {
    let pp = PostProcess::new(&canvas(1280, 720));
    assert_eq!(pp.desc.targets.len(), 1);
    assert_eq!(pp.desc.targets[0].format, TextureFormat::Reported(0));
    assert_eq!(pp.desc.multisample.count, 1);
    assert_eq!(pp.desc.multisample.mask, u64::MAX);
    assert!(pp.desc.primitive.cull_mode.is_none());
}

#[test]
fn offscreen_image_descriptor() {
    let raw = RawOutput::new(Size2D::new(160, 160));
    assert_eq!(raw.texture.size, Size2D::new(160, 160));
    assert_eq!(raw.texture.format, TextureFormat::Rgba8Unorm);
    assert_eq!(raw.texture.dimension, TextureDimension::D2);
    assert_eq!(raw.texture.depth_or_array_layers, 1);
    assert_eq!(raw.texture.mip_level_count, 1);
    assert_eq!(raw.texture.sample_count, 1);
    assert!(raw.texture.usage.storage_binding);
    assert!(!raw.texture.usage.render_attachment);
    assert_eq!(raw.bindgroup.binding, 0);
    assert_eq!(
        raw.bindgroup.layout.entries,
        RawOutput::bind_group_layout().entries
    );
}

#[test]
fn offscreen_resize_rebuilds_both_halves() {
    let mut raw = RawOutput::new(Size2D::new(160, 160));
    raw.resize(Size2D::new(80, 80));
    assert_eq!(raw.texture.size, Size2D::new(80, 80));
    assert_eq!(raw.bindgroup.binding, 0);
    assert_eq!(
        raw.bindgroup.layout.entries,
        RawOutput::bind_group_layout().entries
    );
}

#[test]
fn pipeline_new_downscales_by_eight() {
    let c = canvas(1280, 720);
    let (p, shader) = Pipeline::new(&c);
    assert_eq!(SCALE_FACTOR, 8);
    assert_eq!(p.scale, 8);
    assert_eq!(p.size, Size2D::new(160, 160));
    assert_eq!(p.rawoutput.texture.size, Size2D::new(160, 160));
    assert_eq!(shader.path.as_str(), "shaders/raytracer.wgsl");
    assert_eq!(shader.label.as_str(), "engine.shaders/raytracer.wgsl");
}

#[test]
fn resize_twice_with_same_size_changes_nothing_more() {
    let c = canvas(1280, 720);
    let (mut p, _) = Pipeline::new(&c);
    p.resize(Size2D::new(640, 480));
    let once_size = p.size;
    let once_texture = p.rawoutput.texture;
    p.resize(Size2D::new(640, 480));
    assert_eq!(p.size, once_size);
    assert_eq!(p.rawoutput.texture, once_texture);
    // Still renderable.
    let plan = p.render();
    assert_eq!(plan.graphics.vertex_count, 3);
}

#[test]
fn zero_size_resize_leaves_pipeline_unchanged() {
    let c = canvas(1280, 720);
    let (mut p, _) = Pipeline::new(&c);
    p.resize(Size2D::new(0, 480));
    assert_eq!(p.size, Size2D::new(160, 160));
    assert_eq!(p.rawoutput.texture.size, Size2D::new(160, 160));
    p.resize(Size2D::new(640, 0));
    assert_eq!(p.size, Size2D::new(160, 160));
    assert_eq!(p.rawoutput.texture.size, Size2D::new(160, 160));
}

#[test]
fn workgroup_counts_use_truncating_division() {
    // Logical size 2560: covered extent 2560/16 = 160, so 160/16 = 10
    // groups per axis.
    let c = canvas(20480, 720);
    let (p, _) = Pipeline::new(&c);
    assert_eq!(p.size, Size2D::new(2560, 2560));
    let plan = p.render();
    assert_eq!(plan.compute.workgroups.x, 10);
    assert_eq!(plan.compute.workgroups.y, 10);
    assert_eq!(plan.compute.workgroups.z, 1);
}

#[test]
fn workgroup_counts_drop_the_truncated_border() {
    // Logical size 632: covered extent 632/16 = 39, and 39/16 = 2: the
    // last 7 texels of the covered extent get no work group.
    let c = canvas(5056, 720);
    let (p, _) = Pipeline::new(&c);
    assert_eq!(p.size, Size2D::new(632, 632));
    let plan = p.render();
    assert_eq!(plan.compute.workgroups.x, 2);
    assert_eq!(plan.compute.workgroups.y, 2);
}

#[test]
fn end_to_end_scenario_1280x720() {
    let mut c = canvas(1280, 720);
    let (mut p, _) = Pipeline::new(&c);
    assert_eq!(p.size, Size2D::new(160, 160));

    // The window shrinks to 640x480: the context reconfigures first, then
    // the pipeline follows.
    assert!(c.resize(Size2D::new(640, 480)));
    p.resize(c.get_size());
    assert_eq!(p.size, Size2D::new(80, 80));
    assert_eq!(p.rawoutput.texture.size, Size2D::new(80, 80));

    // One frame at this size: the covered extent is 80/16 = 5, and 5/16
    // truncates to a degenerate dispatch of no work groups at all.
    let plan = p.render();
    assert_eq!(plan.compute.workgroups.x, 0);
    assert_eq!(plan.compute.workgroups.y, 0);
    assert_eq!(plan.compute.workgroups.z, 1);
    assert_eq!(plan.compute.bind_slot, 0);
    assert_eq!(plan.graphics.bind_slot, 0);
    assert_eq!(plan.graphics.vertex_count, 3);
    assert_eq!(plan.graphics.instance_count, 1);
    assert_eq!(
        plan.graphics.clear_color,
        Color {
            r: 255,
            g: 0,
            b: 0,
            a: 255
        }
    );
}

#[test]
fn frame_step_renders_when_acquisition_succeeds() {
    let c = canvas(1280, 720);
    let (p, _) = Pipeline::new(&c);
    let step = p.frame_step(&None);
    assert_eq!(step, FrameStep::Render(p.render()));
}

#[test]
fn frame_step_recovers_per_failure() {
    let c = canvas(1280, 720);
    let (p, _) = Pipeline::new(&c);
    assert_eq!(
        p.frame_step(&Some(AcquireError::Lost)),
        FrameStep::Recover(AcquireAction::Reconfigure)
    );
    assert_eq!(
        p.frame_step(&Some(AcquireError::Outdated)),
        FrameStep::Recover(AcquireAction::Reconfigure)
    );
    assert_eq!(
        p.frame_step(&Some(AcquireError::Timeout)),
        FrameStep::Recover(AcquireAction::SkipFrame)
    );
    assert_eq!(
        p.frame_step(&Some(AcquireError::OutOfMemory)),
        FrameStep::Recover(AcquireAction::Exit)
    );
}
