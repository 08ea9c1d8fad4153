//! The two-stage rendering pipeline: the offscreen target shared by a
//! compute pass (raytracer) and a graphics pass (postprocess), the
//! descriptors both stages are built from, and the per-frame command plan.
//!
//! Descriptors are plain data. The unverified shell turns each into the
//! corresponding driver object; everything the driver must be told — slot
//! indices, visibility, formats, entry points, dispatch extents — is fixed
//! here, with contracts.

use vstd::prelude::*;

use crate::canvas::{
    AcquireAction, AcquireError, Canvas, ShaderModuleDesc, TextureFormat, TextureUsages,
    spec_acquire_action,
};
use crate::Size2D;

verus! {

/// Which program stages may see a binding.
#[derive(Clone, Copy, PartialEq, Eq, Structural, Debug)]
pub struct ShaderStages {
    pub vertex: bool,
    pub fragment: bool,
    pub compute: bool,
}

/// Access granted on a storage image binding.
#[derive(Clone, Copy, PartialEq, Eq, Structural, Debug)]
pub enum StorageTextureAccess {
    ReadOnly,
    WriteOnly,
    ReadWrite,
}

/// Dimensionality of an image view.
#[derive(Clone, Copy, PartialEq, Eq, Structural, Debug)]
pub enum TextureViewDimension {
    D1,
    D2,
    D3,
}

/// The resource kind a binding slot exposes.
#[derive(Clone, Copy, PartialEq, Eq, Structural, Debug)]
pub enum BindingType {
    StorageTexture {
        access: StorageTextureAccess,
        format: TextureFormat,
        view_dimension: TextureViewDimension,
    },
}

/// One slot of a binding layout: its index, who may see it, and what it
/// exposes.
#[derive(Clone, Copy, PartialEq, Eq, Structural, Debug)]
pub struct BindGroupLayoutEntry {
    pub binding: u32,
    pub visibility: ShaderStages,
    pub ty: BindingType,
}

/// A binding layout: the declared agreement between a program and the
/// resources bound while it runs, one entry per slot.
pub struct BindGroupLayoutDesc {
    pub entries: Vec<BindGroupLayoutEntry>,
}

impl View for BindGroupLayoutDesc {
    type V = Seq<BindGroupLayoutEntry>;

    open spec fn view(&self) -> Seq<BindGroupLayoutEntry> {
        self.entries@
    }
}

/// A pipeline layout: the binding layouts a program is built against, one
/// per group index.
pub struct PipelineLayoutDesc {
    pub bind_group_layouts: Vec<BindGroupLayoutDesc>,
}

impl View for PipelineLayoutDesc {
    type V = Seq<Seq<BindGroupLayoutEntry>>;

    open spec fn view(&self) -> Seq<Seq<BindGroupLayoutEntry>> {
        self.bind_group_layouts@.map_values(|l: BindGroupLayoutDesc| l@)
    }
}

/// Dimensionality of an image resource.
#[derive(Clone, Copy, PartialEq, Eq, Structural, Debug)]
pub enum TextureDimension {
    D1,
    D2,
    D3,
}

/// An image resource as declared at creation.
#[derive(Clone, Copy, PartialEq, Eq, Structural, Debug)]
pub struct TextureDesc {
    pub size: Size2D,
    pub depth_or_array_layers: u32,
    pub mip_level_count: u32,
    pub sample_count: u32,
    pub dimension: TextureDimension,
    pub format: TextureFormat,
    pub usage: TextureUsages,
}

/// A binding object: which layout it instantiates and the slot at which it
/// exposes the owning target's image view.
pub struct BindGroupDesc {
    pub layout: BindGroupLayoutDesc,
    pub binding: u32,
}

/// The single binding slot of the offscreen target's layout: slot 0, a
/// read-write two-dimensional storage image of the fixed offscreen format,
/// visible to both the compute and the fragment stage.
pub open spec fn spec_bind_group_layout() -> Seq<BindGroupLayoutEntry> {
    seq![
        BindGroupLayoutEntry {
            binding: 0,
            visibility: ShaderStages { vertex: false, fragment: true, compute: true },
            ty: BindingType::StorageTexture {
                access: StorageTextureAccess::ReadWrite,
                format: TextureFormat::Rgba8Unorm,
                view_dimension: TextureViewDimension::D2,
            },
        },
    ]
}

/// The offscreen image as declared for a target of extent `size`: a single
/// two-dimensional 8-bit RGBA image used only as a storage binding.
pub open spec fn spec_texture_desc(size: Size2D) -> TextureDesc {
    TextureDesc {
        size,
        depth_or_array_layers: 1,
        mip_level_count: 1,
        sample_count: 1,
        dimension: TextureDimension::D2,
        format: TextureFormat::Rgba8Unorm,
        usage: TextureUsages { render_attachment: false, storage_binding: true },
    }
}

/// Output of the raytracer before postprocessing: an offscreen image plus
/// the binding object exposing it, created and destroyed as one unit.
pub struct RawOutput {
    pub texture: TextureDesc,
    pub bindgroup: BindGroupDesc,
}

impl RawOutput {
    /// The image and its binding object describe one coherent target of
    /// extent `size`: the image is the declared offscreen image, and the
    /// binding object instantiates the shared layout at slot 0.
    pub open spec fn is_for(self, size: Size2D) -> bool {
        &&& self.texture == spec_texture_desc(size)
        &&& self.bindgroup.layout@ == spec_bind_group_layout()
        &&& self.bindgroup.binding == 0
    }

    /// The schema both stages are built against. It depends on no live
    /// resource: both construction sites call it and get structurally
    /// identical layouts.
    pub fn bind_group_layout() -> (l: BindGroupLayoutDesc)
        ensures
            l@ == spec_bind_group_layout(),
    {
        let mut entries: Vec<BindGroupLayoutEntry> = Vec::new();
        entries.push(BindGroupLayoutEntry {
            binding: 0,
            visibility: ShaderStages { vertex: false, fragment: true, compute: true },
            ty: BindingType::StorageTexture {
                access: StorageTextureAccess::ReadWrite,
                format: TextureFormat::Rgba8Unorm,
                view_dimension: TextureViewDimension::D2,
            },
        });
        proof {
            assert(entries@ =~= spec_bind_group_layout());
        }
        BindGroupLayoutDesc { entries }
    }

    /// A fresh image/binding pair of extent `size`.
    pub fn new(size: Size2D) -> (r: RawOutput)
        ensures
            r.is_for(size),
    {
        let texture = TextureDesc {
            size,
            depth_or_array_layers: 1,
            mip_level_count: 1,
            sample_count: 1,
            dimension: TextureDimension::D2,
            format: TextureFormat::Rgba8Unorm,
            usage: TextureUsages { render_attachment: false, storage_binding: true },
        };
        let bindgroup = BindGroupDesc { layout: Self::bind_group_layout(), binding: 0 };
        RawOutput { texture, bindgroup }
    }

    /// Atomic full rebuild: the old image/binding pair is discarded whole
    /// and a fresh pair of extent `size` takes its place. There is no
    /// partial update path, since image resources cannot be resized in
    /// place.
    pub fn resize(&mut self, size: Size2D)
        ensures
            final(self).is_for(size),
    {
        *self = Self::new(size);
    }
}

/// How vertices are assembled into primitives.
#[derive(Clone, Copy, PartialEq, Eq, Structural, Debug)]
pub enum PrimitiveTopology {
    PointList,
    LineList,
    LineStrip,
    TriangleList,
    TriangleStrip,
}

/// Winding order that counts as front-facing.
#[derive(Clone, Copy, PartialEq, Eq, Structural, Debug)]
pub enum FrontFace {
    Ccw,
    Cw,
}

/// A primitive face, for culling.
#[derive(Clone, Copy, PartialEq, Eq, Structural, Debug)]
pub enum Face {
    Front,
    Back,
}

/// How primitives are rasterized.
#[derive(Clone, Copy, PartialEq, Eq, Structural, Debug)]
pub enum PolygonMode {
    Fill,
    Line,
    Point,
}

/// Primitive assembly and rasterization settings of a render program.
#[derive(Clone, Copy, PartialEq, Eq, Structural, Debug)]
pub struct PrimitiveState {
    pub topology: PrimitiveTopology,
    pub front_face: FrontFace,
    pub cull_mode: Option<Face>,
    pub polygon_mode: PolygonMode,
}

/// Multisampling settings of a render program.
#[derive(Clone, Copy, PartialEq, Eq, Structural, Debug)]
pub struct MultisampleState {
    pub count: u32,
    pub mask: u64,
    pub alpha_to_coverage_enabled: bool,
}

/// How a fragment's output is combined with the destination.
#[derive(Clone, Copy, PartialEq, Eq, Structural, Debug)]
pub enum BlendState {
    /// The fragment's output replaces the destination content.
    Replace,
    AlphaBlending,
}

/// Which color channels a render program may write.
#[derive(Clone, Copy, PartialEq, Eq, Structural, Debug)]
pub struct ColorWrites {
    pub red: bool,
    pub green: bool,
    pub blue: bool,
    pub alpha: bool,
}

/// One color output of a render program.
#[derive(Clone, Copy, PartialEq, Eq, Structural, Debug)]
pub struct ColorTargetState {
    pub format: TextureFormat,
    pub blend: Option<BlendState>,
    pub write_mask: ColorWrites,
}

/// A compute program as handed to the driver: its binding layouts and the
/// entry point to run.
pub struct ComputePipelineDesc {
    pub layout: PipelineLayoutDesc,
    pub entry_point: String,
}

/// A render program as handed to the driver: its binding layouts, its
/// vertex and fragment entry points, a count of bound vertex buffers (zero:
/// the full-screen triangle computes its coordinates from the vertex index
/// alone), and its fixed-function state.
pub struct RenderPipelineDesc {
    pub layout: PipelineLayoutDesc,
    pub vertex_entry_point: String,
    pub fragment_entry_point: String,
    pub vertex_buffer_count: u32,
    pub primitive: PrimitiveState,
    pub multisample: MultisampleState,
    pub targets: Vec<ColorTargetState>,
}

/// Fixed-function state of the postprocess pass: a plain triangle list,
/// counter-clockwise front faces, no culling, filled polygons.
pub open spec fn spec_primitive_state() -> PrimitiveState {
    PrimitiveState {
        topology: PrimitiveTopology::TriangleList,
        front_face: FrontFace::Ccw,
        cull_mode: None,
        polygon_mode: PolygonMode::Fill,
    }
}

/// Single-sample rendering with every sample bit enabled.
pub open spec fn spec_multisample_state() -> MultisampleState {
    MultisampleState { count: 1, mask: 0xffff_ffff_ffff_ffff, alpha_to_coverage_enabled: false }
}

/// The one color output of the postprocess pass: the presentation surface's
/// configured format, opaque blending that replaces the destination, all
/// channels written.
pub open spec fn spec_color_target(surface_format: TextureFormat) -> ColorTargetState {
    ColorTargetState {
        format: surface_format,
        blend: Some(BlendState::Replace),
        write_mask: ColorWrites { red: true, green: true, blue: true, alpha: true },
    }
}

/// The pipeline layout both stages share: exactly the offscreen target's
/// binding layout at group index 0.
fn shared_pipeline_layout() -> (l: PipelineLayoutDesc)
    ensures
        l@ == seq![spec_bind_group_layout()],
{
    let mut bind_group_layouts: Vec<BindGroupLayoutDesc> = Vec::new();
    bind_group_layouts.push(RawOutput::bind_group_layout());
    proof {
        assert(bind_group_layouts@.map_values(|bgl: BindGroupLayoutDesc| bgl@) =~= seq![
            spec_bind_group_layout(),
        ]);
    }
    PipelineLayoutDesc { bind_group_layouts }
}

/// The raytracer: a compute program bound to the offscreen target's layout,
/// dispatching a grid of work groups that cover the target image.
pub struct Raytracer {
    pub desc: ComputePipelineDesc,
}

impl Raytracer {
    /// The program is built against exactly the shared binding layout and
    /// runs the compute entry point.
    pub open spec fn wf(self) -> bool {
        &&& self.desc.layout@ == seq![spec_bind_group_layout()]
        &&& self.desc.entry_point@ == "raytrace"@
    }

    /// A compute program over the shared shader module. Its layout has no
    /// output color target: it writes directly into the bound storage
    /// image.
    pub fn new() -> (r: Raytracer)
        ensures
            r.wf(),
    {
        Raytracer {
            desc: ComputePipelineDesc {
                layout: shared_pipeline_layout(),
                entry_point: String::from_str("raytrace"),
            },
        }
    }
}

/// The postprocess: a render program bound to the same layout, drawing one
/// full-surface pass that reads the offscreen target.
pub struct PostProcess {
    pub desc: RenderPipelineDesc,
}

impl PostProcess {
    /// The program is built against exactly the shared binding layout, runs
    /// the vertex/fragment entry pair without vertex buffers, and writes
    /// one color target of the surface's format with the fixed
    /// rasterization state.
    pub open spec fn wf(self, surface_format: TextureFormat) -> bool {
        &&& self.desc.layout@ == seq![spec_bind_group_layout()]
        &&& self.desc.vertex_entry_point@ == "vs_main"@
        &&& self.desc.fragment_entry_point@ == "fs_main"@
        &&& self.desc.vertex_buffer_count == 0
        &&& self.desc.primitive == spec_primitive_state()
        &&& self.desc.multisample == spec_multisample_state()
        &&& self.desc.targets@ == seq![spec_color_target(surface_format)]
    }

    /// A render program over the shared shader module, targeting the
    /// surface format the context is configured at.
    pub fn new(canvas: &Canvas) -> (r: PostProcess)
        ensures
            r.wf(canvas.config.format),
    {
        let mut targets: Vec<ColorTargetState> = Vec::new();
        targets.push(ColorTargetState {
            format: canvas.config.format,
            blend: Some(BlendState::Replace),
            write_mask: ColorWrites { red: true, green: true, blue: true, alpha: true },
        });
        proof {
            assert(targets@ =~= seq![spec_color_target(canvas.config.format)]);
        }
        PostProcess {
            desc: RenderPipelineDesc {
                layout: shared_pipeline_layout(),
                vertex_entry_point: String::from_str("vs_main"),
                fragment_entry_point: String::from_str("fs_main"),
                vertex_buffer_count: 0,
                primitive: PrimitiveState {
                    topology: PrimitiveTopology::TriangleList,
                    front_face: FrontFace::Ccw,
                    cull_mode: None,
                    polygon_mode: PolygonMode::Fill,
                },
                multisample: MultisampleState {
                    count: 1,
                    mask: 0xffff_ffff_ffff_ffff,
                    alpha_to_coverage_enabled: false,
                },
                targets,
            },
        }
    }
}

/// The integer factor between the presentation size and the offscreen
/// target's size.
pub const SCALE_FACTOR: u32 = 8;

/// The edge, in invocations, of the square compute work group.
pub const WORKGROUP_SIZE: u32 = 16;

/// Both offscreen dimensions derive from the presentation *width* by
/// truncating integer division: the target is square and the surface's
/// height is ignored.
pub open spec fn spec_downscale(size: Size2D, scale: u32) -> Size2D
    recommends
        scale > 0,
{
    Size2D { width: size.width / scale, height: size.width / scale }
}

/// The work-group grid of one compute dispatch over a target of extent
/// `size`: the grid covers `downscale(size, 16)` with 16x16 work groups,
/// counting groups by truncating division. A dimension that the truncation
/// cuts short leaves a border of texels unwritten.
pub open spec fn spec_workgroups(size: Size2D) -> DispatchSize {
    let dim = spec_downscale(size, WORKGROUP_SIZE);
    DispatchSize {
        x: dim.width / WORKGROUP_SIZE,
        y: dim.height / WORKGROUP_SIZE,
        z: 1,
    }
}

/// A work-group grid extent.
#[derive(Clone, Copy, PartialEq, Eq, Structural, Debug)]
pub struct DispatchSize {
    pub x: u32,
    pub y: u32,
    pub z: u32,
}

/// An opaque color, eight bits per channel.
#[derive(Clone, Copy, PartialEq, Eq, Structural, Debug)]
pub struct Color {
    pub r: u8,
    pub g: u8,
    pub b: u8,
    pub a: u8,
}

/// The compute half of a frame: bind the offscreen binding object at the
/// given slot, bind the compute program, dispatch this grid.
#[derive(Clone, Copy, PartialEq, Eq, Structural, Debug)]
pub struct ComputePassPlan {
    pub bind_slot: u32,
    pub workgroups: DispatchSize,
}

/// The graphics half of a frame: clear the acquired image to this color,
/// bind the same offscreen binding object at the given slot, bind the
/// render program, and issue one bufferless draw of `vertex_count`
/// vertices and `instance_count` instances.
#[derive(Clone, Copy, PartialEq, Eq, Structural, Debug)]
pub struct RenderPassPlan {
    pub clear_color: Color,
    pub bind_slot: u32,
    pub vertex_count: u32,
    pub instance_count: u32,
}

/// One frame's command sequence, recorded and submitted as a unit: the
/// compute dispatch into the offscreen target, then the render pass
/// reading it and writing the acquired presentable image.
#[derive(Clone, Copy, PartialEq, Eq, Structural, Debug)]
pub struct FramePlan {
    pub compute: ComputePassPlan,
    pub graphics: RenderPassPlan,
}

/// What the per-frame tick does after trying to acquire a presentable
/// image: either record and submit this plan and present, or recover.
#[derive(Clone, Copy, PartialEq, Eq, Structural, Debug)]
pub enum FrameStep {
    Render(FramePlan),
    Recover(AcquireAction),
}

/// The orchestrator: the offscreen target, the two programs built over the
/// shared layout, the current logical (offscreen) size, and the constant
/// downscale factor.
pub struct Pipeline {
    pub raytracer: Raytracer,
    pub postprocess: PostProcess,
    pub rawoutput: RawOutput,
    pub size: Size2D,
    pub scale: u32,
}

impl Pipeline {
    /// The downscale factor is usable and the offscreen target is exactly
    /// the image/binding pair for the current logical size, built over the
    /// shared layout the compute program was constructed from.
    pub open spec fn wf(self) -> bool {
        &&& self.scale > 0
        &&& self.rawoutput.is_for(self.size)
        &&& self.raytracer.wf()
    }

    /// The one command sequence `render` records for this pipeline.
    pub open spec fn spec_frame_plan(self) -> FramePlan {
        FramePlan {
            compute: ComputePassPlan { bind_slot: 0, workgroups: spec_workgroups(self.size) },
            graphics: RenderPassPlan {
                clear_color: Color { r: 255, g: 0, b: 0, a: 255 },
                bind_slot: 0,
                vertex_count: 3,
                instance_count: 1,
            },
        }
    }

    /// How one `resize` call relates the state after it to the state before
    /// it: a nonzero target size sets the logical size to its downscale and
    /// rebuilds the offscreen target at that size, leaving the programs and
    /// the factor alone; a zero-area size changes nothing.
    pub open spec fn resize_post(pre: Pipeline, post: Pipeline, size: Size2D) -> bool {
        if size.is_nonzero() {
            &&& post.size == spec_downscale(size, pre.scale)
            &&& post.rawoutput.is_for(post.size)
            &&& post.scale == pre.scale
            &&& post.raytracer == pre.raytracer
            &&& post.postprocess == pre.postprocess
        } else {
            post == pre
        }
    }

    /// See `spec_downscale`: square-from-width downscaling by truncating
    /// division.
    pub fn downscale(size: Size2D, scale: u32) -> (r: Size2D)
        requires
            scale > 0,
        ensures
            r == spec_downscale(size, scale),
            r.width == size.width / scale,
            r.height == size.width / scale,
    {
        Size2D { width: size.width / scale, height: size.width / scale }
    }

    /// Builds the whole pipeline for a freshly configured context: fixes
    /// the downscale factor, derives the logical size from the context's
    /// current size, constructs both programs over the shared layout and
    /// shader module, and the initial offscreen target at the logical
    /// size. Returns the pipeline together with the compilation request
    /// for the shared shader module.
    pub fn new(canvas: &Canvas) -> (r: (Pipeline, ShaderModuleDesc))
        ensures
            r.0.wf(),
            r.0.scale == SCALE_FACTOR,
            r.0.size == spec_downscale(
                Size2D { width: canvas.config.width, height: canvas.config.height },
                SCALE_FACTOR,
            ),
            r.0.postprocess.wf(canvas.config.format),
            r.1.path@ == "shaders/raytracer.wgsl"@,
            r.1.label@ == canvas.label@ + seq!['.'] + "shaders/raytracer.wgsl"@,
    {
        let scale = SCALE_FACTOR;
        let size = Self::downscale(canvas.get_size(), scale);

        let module = canvas.load_shader("shaders/raytracer.wgsl");

        let raytracer = Raytracer::new();
        let postprocess = PostProcess::new(canvas);
        let intermediate = RawOutput::new(size);

        (Pipeline { raytracer, postprocess, rawoutput: intermediate, size, scale }, module)
    }

    /// Records one frame: a compute dispatch covering the offscreen target,
    /// then a full-surface render pass over the acquired image. The shell
    /// records exactly this plan into one command sequence, submits it to
    /// the queue, and presents the image.
    pub fn render(&self) -> (plan: FramePlan)
        ensures
            plan == self.spec_frame_plan(),
    {
        let dim = Self::downscale(self.size, WORKGROUP_SIZE);
        FramePlan {
            compute: ComputePassPlan {
                bind_slot: 0,
                workgroups: DispatchSize {
                    x: dim.width / WORKGROUP_SIZE,
                    y: dim.height / WORKGROUP_SIZE,
                    z: 1,
                },
            },
            graphics: RenderPassPlan {
                clear_color: Color { r: 255, g: 0, b: 0, a: 255 },
                bind_slot: 0,
                vertex_count: 3,
                instance_count: 1,
            },
        }
    }

    /// Recomputes the logical size for a new presentation size and rebuilds
    /// the offscreen target at it; called strictly after the context itself
    /// has been reconfigured. A zero-area size is the transient minimized
    /// state and changes nothing.
    pub fn resize(&mut self, size: Size2D)
        requires
            old(self).wf(),
        ensures
            Pipeline::resize_post(*old(self), *final(self), size),
            final(self).wf(),
    {
        if size.width > 0 && size.height > 0 {
            self.size = Self::downscale(size, self.scale);
            self.rawoutput.resize(self.size);
        }
    }

    /// The single dispatch point of a frame tick: with a freshly acquired
    /// image the frame's plan is rendered; on an acquisition failure the
    /// step is the failure's recovery action.
    pub fn frame_step(&self, failure: &Option<AcquireError>) -> (step: FrameStep)
        ensures
            step == (match *failure {
                None => FrameStep::Render(self.spec_frame_plan()),
                Some(e) => FrameStep::Recover(spec_acquire_action(e)),
            }),
    {
        match failure {
            None => FrameStep::Render(self.render()),
            Some(e) => FrameStep::Recover(Canvas::acquire_action(e)),
        }
    }
}

/// The binding layout produced for the compute program and the one
/// produced for the render program are structurally identical: the same
/// entries, hence the same binding count, slot indices, visibility flags
/// and resource kinds. Both programs can therefore share one offscreen
/// binding object.
pub proof fn lemma_binding_layout_shared(
    rt: Raytracer,
    pp: PostProcess,
    surface_format: TextureFormat,
)
    requires
        rt.wf(),
        pp.wf(surface_format),
    ensures
        rt.desc.layout@ == pp.desc.layout@,
        rt.desc.layout@ == seq![spec_bind_group_layout()],
{
}

/// Resizing is idempotent: a second `resize` with the same target size
/// leaves the logical size and the offscreen target's extent exactly as
/// the first left them, and the pipeline remains well formed, hence
/// renderable.
pub proof fn lemma_resize_idempotent(before: Pipeline, once: Pipeline, twice: Pipeline, size: Size2D)
    requires
        before.wf(),
        Pipeline::resize_post(before, once, size),
        Pipeline::resize_post(once, twice, size),
    ensures
        twice.size == once.size,
        twice.rawoutput.texture == once.rawoutput.texture,
        twice.wf(),
{
}

} // verus!
