//! What a frame is made of: which batches are drawn by which pipeline, where their data
//! goes in the instance buffers, and when the frame's pass is interrupted for paths.

use crate::web::atlas::TextureId;
use vstd::prelude::*;

verus! {

/// How many samples a pixel of a path has.
pub const PATH_SAMPLE_COUNT: u32 = 4;

/// The size in bytes that an instance buffer starts with.
pub const INITIAL_INSTANCE_BUFFER_SIZE: u64 = 4096;

/// More bytes than one buffer is ever asked to take in a frame, and twice that.
pub const DEMAND_LIMIT: u64 = 0x2000_0000_0000_0000;

pub const CAPACITY_LIMIT: u64 = 0x4000_0000_0000_0000;

/// What the surface says when asked for the next frame.
#[derive(Clone, Copy, Debug, PartialEq, Eq, Structural)]
pub enum SurfaceStatus {
    Success,
    Suboptimal,
    Outdated,
    Lost,
    Timeout,
    Occluded,
    Validation,
}

/// What becomes of a frame.
#[derive(Clone, Copy, Debug, PartialEq, Eq, Structural)]
pub enum FrameStart {
    Draw,
    /// The surface is configured anew, and this frame is not drawn.
    Reconfigure,
    Skip,
}

pub fn frame_start(status: SurfaceStatus) -> (start: FrameStart)
    ensures
        start == match status {
            SurfaceStatus::Success | SurfaceStatus::Suboptimal => FrameStart::Draw,
            SurfaceStatus::Outdated | SurfaceStatus::Lost => FrameStart::Reconfigure,
            SurfaceStatus::Timeout
            | SurfaceStatus::Occluded
            | SurfaceStatus::Validation => FrameStart::Skip,
        },
{
    match status {
        SurfaceStatus::Success | SurfaceStatus::Suboptimal => FrameStart::Draw,
        SurfaceStatus::Outdated | SurfaceStatus::Lost => FrameStart::Reconfigure,
        SurfaceStatus::Timeout
        | SurfaceStatus::Occluded
        | SurfaceStatus::Validation => FrameStart::Skip,
    }
}

/// How a surface is laid over what is behind it.
#[derive(Clone, Copy, Debug, PartialEq, Eq, Structural)]
pub enum AlphaMode {
    Auto,
    Opaque,
    PreMultiplied,
    PostMultiplied,
    Inherit,
}

/// The mode for a surface that has these: opaque where that can be had, else the first.
pub fn choose_alpha_mode(modes: &Vec<AlphaMode>) -> (mode: AlphaMode)
    ensures
        mode == if modes@.contains(AlphaMode::Opaque) {
            AlphaMode::Opaque
        } else if modes@.len() > 0 {
            modes@[0]
        } else {
            AlphaMode::Auto
        },
{
    let mut index: usize = 0;
    while index < modes.len()
        invariant
            index <= modes@.len(),
            forall|i: int| 0 <= i < index ==> modes@[i] != AlphaMode::Opaque,
        decreases modes@.len() - index,
    {
        if modes[index] == AlphaMode::Opaque {
            assert(modes@[index as int] == AlphaMode::Opaque);
            return AlphaMode::Opaque;
        }
        index += 1;
    }
    if modes.len() > 0 {
        modes[0]
    } else {
        AlphaMode::Auto
    }
}

/// The number that the shaders take for a surface's mode.
pub fn premultiplied_alpha(mode: AlphaMode) -> (flag: u32)
    ensures
        flag == if mode == AlphaMode::PreMultiplied {
            1u32
        } else {
            0u32
        },
{
    if mode == AlphaMode::PreMultiplied {
        1
    } else {
        0
    }
}

/// One side of a drawable, in pixels: at least one.
pub fn drawable_side(side: i32) -> (pixels: u32)
    ensures
        pixels == if side < 1 {
            1
        } else {
            side as int
        },
{
    if side < 1 {
        1
    } else {
        side as u32
    }
}

/// The size that a surface is configured with, where it differs from the one it has.
pub fn update_drawable_size(configured: &mut (u32, u32), width: i32, height: i32) -> (changed:
    bool)
    ensures
        final(configured).0 == if width < 1 {
            1
        } else {
            width as int
        },
        final(configured).1 == if height < 1 {
            1
        } else {
            height as int
        },
        changed == (*final(configured) != *old(configured)),
{
    let width: u32 = drawable_side(width);
    let height: u32 = drawable_side(height);
    if width == configured.0 && height == configured.1 {
        return false;
    }
    *configured = (width, height);
    true
}

#[derive(Clone, Copy, Debug, PartialEq, Eq, Structural)]
pub enum PipelineKind {
    Quads,
    Shadows,
    PathRasterization,
    Paths,
    Underlines,
    MonoSprites,
    PolySprites,
}

#[derive(Clone, Copy, Debug, PartialEq, Eq, Structural)]
pub enum Topology {
    TriangleStrip,
    TriangleList,
}

#[derive(Clone, Copy, Debug, PartialEq, Eq, Structural)]
pub enum Blend {
    /// Straight alpha.
    Alpha,
    /// Colours already multiplied by their alpha.
    Premultiplied,
    /// Colours laid over one another, alphas added.
    OverAdditive,
}

/// How a pipeline is set up.
#[derive(Clone, Copy, Debug)]
pub struct PipelineSetup {
    pub label: &'static str,
    pub vertex_entry: &'static str,
    pub fragment_entry: &'static str,
    pub topology: Topology,
    pub blend: Blend,
    pub sample_count: u32,
}

#[verifier::ext_equal]
pub struct SetupView {
    pub label: Seq<char>,
    pub vertex_entry: Seq<char>,
    pub fragment_entry: Seq<char>,
    pub topology: Topology,
    pub blend: Blend,
    pub sample_count: u32,
}

impl View for PipelineSetup {
    type V = SetupView;

    open spec fn view(&self) -> SetupView {
        SetupView {
            label: self.label@,
            vertex_entry: self.vertex_entry@,
            fragment_entry: self.fragment_entry@,
            topology: self.topology,
            blend: self.blend,
            sample_count: self.sample_count,
        }
    }
}

/// How the frame is blended on a surface.
pub open spec fn frame_blend(mode: AlphaMode) -> Blend {
    if mode == AlphaMode::PreMultiplied {
        Blend::Premultiplied
    } else {
        Blend::Alpha
    }
}

pub open spec fn strip(
    label: Seq<char>,
    vertex_entry: Seq<char>,
    fragment_entry: Seq<char>,
    blend: Blend,
) -> SetupView {
    SetupView {
        label,
        vertex_entry,
        fragment_entry,
        topology: Topology::TriangleStrip,
        blend,
        sample_count: 1,
    }
}

pub open spec fn setup_of(kind: PipelineKind, mode: AlphaMode) -> SetupView {
    let blend = frame_blend(mode);
    match kind {
        PipelineKind::Quads => strip("quads"@, "vs_quad"@, "fs_quad"@, blend),
        PipelineKind::Shadows => strip("shadows"@, "vs_shadow"@, "fs_shadow"@, blend),
        PipelineKind::PathRasterization => SetupView {
            label: "path_rasterization"@,
            vertex_entry: "vs_path_rasterization"@,
            fragment_entry: "fs_path_rasterization"@,
            topology: Topology::TriangleList,
            blend: Blend::Premultiplied,
            sample_count: PATH_SAMPLE_COUNT,
        },
        PipelineKind::Paths => strip("paths"@, "vs_path"@, "fs_path"@, Blend::OverAdditive),
        PipelineKind::Underlines => strip(
            "underlines"@,
            "vs_underline"@,
            "fs_underline"@,
            blend,
        ),
        PipelineKind::MonoSprites => strip(
            "mono-sprites"@,
            "vs_mono_sprite"@,
            "fs_mono_sprite"@,
            blend,
        ),
        PipelineKind::PolySprites => strip(
            "poly-sprites"@,
            "vs_poly_sprite"@,
            "fs_poly_sprite"@,
            blend,
        ),
    }
}

fn strip_setup(
    label: &'static str,
    vertex_entry: &'static str,
    fragment_entry: &'static str,
    blend: Blend,
) -> (setup: PipelineSetup)
    ensures
        setup@ == strip(label@, vertex_entry@, fragment_entry@, blend),
{
    PipelineSetup {
        label,
        vertex_entry,
        fragment_entry,
        topology: Topology::TriangleStrip,
        blend,
        sample_count: 1,
    }
}

/// The setup of a pipeline for a surface of the given mode.
pub fn pipeline_setup(kind: PipelineKind, mode: AlphaMode) -> (setup: PipelineSetup)
    ensures
        setup@ == setup_of(kind, mode),
{
    let blend = if mode == AlphaMode::PreMultiplied {
        Blend::Premultiplied
    } else {
        Blend::Alpha
    };
    match kind {
        PipelineKind::Quads => strip_setup("quads", "vs_quad", "fs_quad", blend),
        PipelineKind::Shadows => strip_setup("shadows", "vs_shadow", "fs_shadow", blend),
        PipelineKind::PathRasterization => PipelineSetup {
            label: "path_rasterization",
            vertex_entry: "vs_path_rasterization",
            fragment_entry: "fs_path_rasterization",
            topology: Topology::TriangleList,
            blend: Blend::Premultiplied,
            sample_count: PATH_SAMPLE_COUNT,
        },
        PipelineKind::Paths => strip_setup("paths", "vs_path", "fs_path", Blend::OverAdditive),
        PipelineKind::Underlines => strip_setup(
            "underlines",
            "vs_underline",
            "fs_underline",
            blend,
        ),
        PipelineKind::MonoSprites => strip_setup(
            "mono-sprites",
            "vs_mono_sprite",
            "fs_mono_sprite",
            blend,
        ),
        PipelineKind::PolySprites => strip_setup(
            "poly-sprites",
            "vs_poly_sprite",
            "fs_poly_sprite",
            blend,
        ),
    }
}

/// What a shader is bound to.
#[derive(Clone, Copy, Debug, PartialEq, Eq, Structural)]
pub enum Resource {
    Globals,
    PathRasterizationGlobals,
    GammaRatios,
    GrayscaleEnhancedContrast,
    PathIntermediateTexture,
    AtlasTexture,
    AtlasSampler,
    /// The part of the instance buffer that holds the batch.
    Instances,
}

pub open spec fn bindings_of(kind: PipelineKind) -> Seq<(u32, Resource)> {
    match kind {
        PipelineKind::Quads => seq![(0u32, Resource::Globals), (5u32, Resource::Instances)],
        PipelineKind::Shadows => seq![(0u32, Resource::Globals), (6u32, Resource::Instances)],
        PipelineKind::PathRasterization => seq![
            (0u32, Resource::PathRasterizationGlobals),
            (7u32, Resource::Instances),
        ],
        PipelineKind::Paths => seq![
            (0u32, Resource::Globals),
            (3u32, Resource::PathIntermediateTexture),
            (4u32, Resource::AtlasSampler),
            (8u32, Resource::Instances),
        ],
        PipelineKind::Underlines => seq![(0u32, Resource::Globals), (9u32, Resource::Instances)],
        PipelineKind::MonoSprites => seq![
            (0u32, Resource::Globals),
            (1u32, Resource::GammaRatios),
            (2u32, Resource::GrayscaleEnhancedContrast),
            (3u32, Resource::AtlasTexture),
            (4u32, Resource::AtlasSampler),
            (10u32, Resource::Instances),
        ],
        PipelineKind::PolySprites => seq![
            (0u32, Resource::Globals),
            (3u32, Resource::AtlasTexture),
            (4u32, Resource::AtlasSampler),
            (11u32, Resource::Instances),
        ],
    }
}

/// What a pipeline's shaders are bound to, by the number of the binding.
pub fn bindings(kind: PipelineKind) -> (bound: Vec<(u32, Resource)>)
    ensures
        bound@ == bindings_of(kind),
{
    let mut bound: Vec<(u32, Resource)> = Vec::new();
    match kind {
        PipelineKind::PathRasterization => {
            bound.push((0, Resource::PathRasterizationGlobals));
        },
        _ => {
            bound.push((0, Resource::Globals));
        },
    }
    match kind {
        PipelineKind::Quads => {
            bound.push((5, Resource::Instances));
        },
        PipelineKind::Shadows => {
            bound.push((6, Resource::Instances));
        },
        PipelineKind::PathRasterization => {
            bound.push((7, Resource::Instances));
        },
        PipelineKind::Paths => {
            bound.push((3, Resource::PathIntermediateTexture));
            bound.push((4, Resource::AtlasSampler));
            bound.push((8, Resource::Instances));
        },
        PipelineKind::Underlines => {
            bound.push((9, Resource::Instances));
        },
        PipelineKind::MonoSprites => {
            bound.push((1, Resource::GammaRatios));
            bound.push((2, Resource::GrayscaleEnhancedContrast));
            bound.push((3, Resource::AtlasTexture));
            bound.push((4, Resource::AtlasSampler));
            bound.push((10, Resource::Instances));
        },
        PipelineKind::PolySprites => {
            bound.push((3, Resource::AtlasTexture));
            bound.push((4, Resource::AtlasSampler));
            bound.push((11, Resource::Instances));
        },
    }
    assert(bound@ =~= bindings_of(kind));
    bound
}

/// A place in an instance buffer.
#[derive(Clone, Copy, Debug, PartialEq, Eq, Structural)]
pub struct Upload {
    pub offset: u64,
    pub size: u64,
    /// The size of the buffer that replaces the one before, which was too small.
    pub grown: Option<u64>,
}

/// An instance buffer that grows. The batches of a frame are packed one after the other
/// at aligned offsets.
#[derive(Clone, Copy, Debug, PartialEq, Eq, Structural)]
pub struct InstanceBuffer {
    pub capacity: u64,
    pub offset: u64,
}

/// The next multiple of an alignment, 0 standing for no alignment.
pub open spec fn aligned(offset: nat, alignment: nat) -> nat {
    if alignment == 0 || offset % alignment == 0 {
        offset
    } else {
        (offset + alignment - offset % alignment) as nat
    }
}

/// A capacity doubled until so much fits.
pub open spec fn doubled(capacity: nat, size: nat) -> nat
    decreases 2 * size - capacity,
{
    if capacity == 0 || capacity >= size {
        capacity
    } else {
        doubled(2 * capacity, size)
    }
}

proof fn lemma_doubled(capacity: nat, size: nat)
    requires
        capacity > 0,
    ensures
        doubled(capacity, size) >= size,
        doubled(capacity, size) >= capacity,
        doubled(capacity, size) <= capacity || doubled(capacity, size) < 2 * size,
    decreases 2 * size - capacity,
{
    if capacity < size {
        lemma_doubled(2 * capacity, size);
    }
}

proof fn lemma_aligned(offset: nat, alignment: nat)
    ensures
        offset <= aligned(offset, alignment) <= offset + alignment,
        alignment > 0 ==> aligned(offset, alignment) % alignment == 0,
{
    if alignment > 0 && offset % alignment != 0 {
        let rem = (offset % alignment) as int;
        let quotient = (offset / alignment) as int;
        let n = alignment as int;
        assert(offset == n * quotient + rem && 0 <= rem < n) by (nonlinear_arith)
            requires
                rem == offset % alignment,
                quotient == offset / alignment,
                n == alignment,
                n > 0,
        ;
        assert((n * quotient + rem + n - rem) % n == 0) by (nonlinear_arith)
            requires
                n > 0,
        {
            assert(n * quotient + n == n * (quotient + 1));
            vstd::arithmetic::div_mod::lemma_mod_multiples_basic(quotient + 1, n);
            assert((quotient + 1) * n == n * (quotient + 1));
        }
    }
}

impl InstanceBuffer {
    pub open spec fn wf(self) -> bool {
        INITIAL_INSTANCE_BUFFER_SIZE <= self.capacity <= CAPACITY_LIMIT
    }

    /// Whether the buffer, as it is, has room at the next aligned offset.
    pub open spec fn fits(self, alignment: u64, size: u64) -> bool {
        aligned(self.offset as nat, alignment as nat) + size <= self.capacity
    }

    /// The size of the buffer that replaces this one where it is too small.
    pub open spec fn larger(self, size: u64) -> nat {
        doubled((2 * self.capacity) as nat, size as nat)
    }

    pub open spec fn place(self, alignment: u64, size: u64) -> Upload {
        if self.fits(alignment, size) {
            Upload {
                offset: aligned(self.offset as nat, alignment as nat) as u64,
                size,
                grown: None,
            }
        } else {
            Upload { offset: 0, size, grown: Some(self.larger(size) as u64) }
        }
    }

    pub open spec fn uploaded(self, alignment: u64, size: u64) -> InstanceBuffer {
        let place = self.place(alignment, size);
        InstanceBuffer {
            capacity: match place.grown {
                Some(capacity) => capacity,
                None => self.capacity,
            },
            offset: (place.offset + size) as u64,
        }
    }

    /// Whether so much can be asked of the buffer.
    pub open spec fn takes(self, alignment: u64, size: u64) -> bool {
        self.wf() && size > 0 && self.offset + alignment + size <= DEMAND_LIMIT
    }

    pub fn new() -> (buffer: InstanceBuffer)
        ensures
            buffer == (InstanceBuffer { capacity: INITIAL_INSTANCE_BUFFER_SIZE, offset: 0 }),
            buffer.wf(),
            buffer.capacity == 4096,
    {
        InstanceBuffer { capacity: INITIAL_INSTANCE_BUFFER_SIZE, offset: 0 }
    }

    /// Finds a place for so many bytes. A buffer that is too small is replaced by one at
    /// least twice its size, in which the bytes come first.
    pub fn upload(&mut self, alignment: u64, size: u64) -> (place: Upload)
        requires
            old(self).takes(alignment, size),
        ensures
            place == old(self).place(alignment, size),
            *final(self) == old(self).uploaded(alignment, size),
            final(self).wf(),
            place.offset + place.size == final(self).offset <= final(self).capacity,
            alignment > 0 ==> place.offset % alignment == 0,
            place.grown is None ==> old(self).offset <= place.offset,
            place.grown matches Some(capacity) ==> capacity >= 2 * old(self).capacity,
    {
        proof {
            lemma_aligned(self.offset as nat, alignment as nat);
            lemma_doubled((2 * self.capacity) as nat, size as nat);
        }
        let mut offset: u64 = self.offset;
        if alignment > 0 && offset % alignment != 0 {
            offset = offset + (alignment - offset % alignment);
        }
        if offset + size <= self.capacity {
            self.offset = offset + size;
            return Upload { offset, size, grown: None };
        }
        let ghost wanted = self.larger(size);
        let mut capacity: u64 = self.capacity * 2;
        while capacity < size
            invariant
                0 < capacity <= CAPACITY_LIMIT,
                size <= DEMAND_LIMIT,
                wanted == doubled(capacity as nat, size as nat),
            decreases 2 * size - capacity,
        {
            capacity = capacity * 2;
        }
        assert(wanted == capacity);
        self.capacity = capacity;
        self.offset = size;
        Upload { offset: 0, size, grown: Some(capacity) }
    }
}

/// The instance buffers, one for each kind of data.
#[derive(Clone, Copy, Debug, PartialEq, Eq, Structural)]
pub struct InstanceBuffers {
    pub quads: InstanceBuffer,
    pub shadows: InstanceBuffer,
    pub path_vertices: InstanceBuffer,
    pub path_sprites: InstanceBuffer,
    pub underlines: InstanceBuffer,
    pub mono_sprites: InstanceBuffer,
    pub poly_sprites: InstanceBuffer,
}

impl InstanceBuffers {
    pub open spec fn wf(self) -> bool {
        self.quads.wf() && self.shadows.wf() && self.path_vertices.wf() && self.path_sprites.wf()
            && self.underlines.wf() && self.mono_sprites.wf() && self.poly_sprites.wf()
    }

    /// Whether nothing lies beyond so many bytes.
    pub open spec fn within(self, limit: nat) -> bool {
        self.quads.offset <= limit && self.shadows.offset <= limit && self.path_vertices.offset
            <= limit && self.path_sprites.offset <= limit && self.underlines.offset <= limit
            && self.mono_sprites.offset <= limit && self.poly_sprites.offset <= limit
    }

    pub open spec fn emptied(self) -> InstanceBuffers {
        InstanceBuffers {
            quads: InstanceBuffer { offset: 0, ..self.quads },
            shadows: InstanceBuffer { offset: 0, ..self.shadows },
            path_vertices: InstanceBuffer { offset: 0, ..self.path_vertices },
            path_sprites: InstanceBuffer { offset: 0, ..self.path_sprites },
            underlines: InstanceBuffer { offset: 0, ..self.underlines },
            mono_sprites: InstanceBuffer { offset: 0, ..self.mono_sprites },
            poly_sprites: InstanceBuffer { offset: 0, ..self.poly_sprites },
        }
    }

    pub fn new() -> (buffers: InstanceBuffers)
        ensures
            buffers.wf(),
            buffers == buffers.emptied(),
            buffers.quads.capacity == INITIAL_INSTANCE_BUFFER_SIZE,
            buffers.shadows == buffers.quads,
            buffers.path_vertices == buffers.quads,
            buffers.path_sprites == buffers.quads,
            buffers.underlines == buffers.quads,
            buffers.mono_sprites == buffers.quads,
            buffers.poly_sprites == buffers.quads,
    {
        InstanceBuffers {
            quads: InstanceBuffer::new(),
            shadows: InstanceBuffer::new(),
            path_vertices: InstanceBuffer::new(),
            path_sprites: InstanceBuffer::new(),
            underlines: InstanceBuffer::new(),
            mono_sprites: InstanceBuffer::new(),
            poly_sprites: InstanceBuffer::new(),
        }
    }

    /// A new frame: all buffers are filled from their beginning again.
    pub fn reset(&mut self)
        ensures
            *final(self) == old(self).emptied(),
    {
        self.quads.offset = 0;
        self.shadows.offset = 0;
        self.path_vertices.offset = 0;
        self.path_sprites.offset = 0;
        self.underlines.offset = 0;
        self.mono_sprites.offset = 0;
        self.poly_sprites.offset = 0;
    }
}

/// What a batch knows of a path: its place in the order of drawing, and how many vertices
/// it has.
#[derive(Clone, Copy, Debug, PartialEq, Eq, Structural)]
pub struct PathShape {
    pub order: u32,
    pub vertices: u32,
}

/// Primitives of one kind that are drawn together; `count` of them take `bytes`.
#[derive(Debug, PartialEq, Eq)]
pub enum Batch {
    Quads { count: u32, bytes: u64 },
    Shadows { count: u32, bytes: u64 },
    Paths(Vec<PathShape>),
    Underlines { count: u32, bytes: u64 },
    MonochromeSprites { texture: TextureId, count: u32, bytes: u64 },
    PolychromeSprites { texture: TextureId, count: u32, bytes: u64 },
    /// Video surfaces, which the web does not have.
    Surfaces { count: u32 },
}

/// How paths are copied from the intermediate texture to the frame. Each pixel must be
/// copied only once.
#[derive(Clone, Copy, Debug, PartialEq, Eq, Structural)]
pub enum PathCopies {
    /// The paths have the same order, so that their bounds are apart: the bounds of each.
    Each,
    /// One rectangle that spans all of them.
    Spanning,
}

/// What is recorded for a frame, in order.
#[derive(Clone, Copy, Debug, PartialEq, Eq, Structural)]
pub enum Command {
    /// Draw instances of four vertices each in the frame's pass.
    Draw {
        pipeline: PipelineKind,
        texture: Option<TextureId>,
        upload: Upload,
        instances: u32,
    },
    /// End the frame's pass.
    SuspendFrame,
    /// Rasterise paths into the intermediate texture, in a pass of its own.
    RasterizePaths { upload: Upload, vertices: u32 },
    /// Begin the frame's pass again, keeping what has been drawn.
    ResumeFrame,
    /// Draw the rasterised paths in the frame's pass.
    CopyPaths { copies: PathCopies, upload: Upload, instances: u32 },
    /// Say that so many surfaces cannot be drawn.
    ReportSurfaces(u32),
}

/// How many bytes a vertex and a copied rectangle of a path take.
#[derive(Clone, Copy, Debug, PartialEq, Eq, Structural)]
pub struct PathLayout {
    pub vertex: u64,
    pub sprite: u64,
}

/// The vertices of all paths.
pub open spec fn vertex_count(paths: Seq<PathShape>) -> nat
    decreases paths.len(),
{
    if paths.len() == 0 {
        0
    } else {
        vertex_count(paths.drop_last()) + paths.last().vertices as nat
    }
}

pub open spec fn copies_of(paths: Seq<PathShape>) -> PathCopies {
    if paths.last().order == paths[0].order {
        PathCopies::Each
    } else {
        PathCopies::Spanning
    }
}

pub open spec fn copy_count(paths: Seq<PathShape>) -> nat {
    if copies_of(paths) == PathCopies::Each {
        paths.len()
    } else {
        1
    }
}

impl Batch {
    /// How many bytes the batch may take in any of the buffers, alignment included.
    pub open spec fn demand(self, layout: PathLayout, alignment: u64) -> nat {
        match self {
            Batch::Quads { count, bytes } => (bytes + alignment) as nat,
            Batch::Shadows { count, bytes } => (bytes + alignment) as nat,
            Batch::Paths(paths) => vertex_count(paths@) * layout.vertex as nat + copy_count(paths@)
                * layout.sprite as nat + alignment as nat,
            Batch::Underlines { count, bytes } => (bytes + alignment) as nat,
            Batch::MonochromeSprites { texture, count, bytes } => (bytes + alignment) as nat,
            Batch::PolychromeSprites { texture, count, bytes } => (bytes + alignment) as nat,
            Batch::Surfaces { count } => 0,
        }
    }

    /// Whether the numbers of a batch agree: what is there takes bytes, and paths can be
    /// counted.
    pub open spec fn wf(self) -> bool {
        match self {
            Batch::Quads { count, bytes } => count > 0 ==> bytes > 0,
            Batch::Shadows { count, bytes } => count > 0 ==> bytes > 0,
            Batch::Paths(paths) => vertex_count(paths@) <= u32::MAX && paths@.len() <= u32::MAX,
            Batch::Underlines { count, bytes } => count > 0 ==> bytes > 0,
            Batch::MonochromeSprites { texture, count, bytes } => count > 0 ==> bytes > 0,
            Batch::PolychromeSprites { texture, count, bytes } => count > 0 ==> bytes > 0,
            Batch::Surfaces { count } => true,
        }
    }
}

/// The demand of all batches.
pub open spec fn total_demand(batches: Seq<Batch>, layout: PathLayout, alignment: u64) -> nat
    decreases batches.len(),
{
    if batches.len() == 0 {
        0
    } else {
        total_demand(batches.drop_last(), layout, alignment) + batches.last().demand(
            layout,
            alignment,
        )
    }
}

/// Instances of a kind, drawn from their buffer.
pub open spec fn drawn(
    pipeline: PipelineKind,
    texture: Option<TextureId>,
    buffer: InstanceBuffer,
    alignment: u64,
    count: u32,
    bytes: u64,
) -> Seq<Command> {
    if count == 0 {
        seq![]
    } else {
        seq![
            Command::Draw {
                pipeline,
                texture,
                upload: buffer.place(alignment, bytes),
                instances: count,
            },
        ]
    }
}

pub open spec fn filled(
    buffer: InstanceBuffer,
    alignment: u64,
    count: u32,
    bytes: u64,
) -> InstanceBuffer {
    if count == 0 {
        buffer
    } else {
        buffer.uploaded(alignment, bytes)
    }
}

impl InstanceBuffers {
    /// The bytes of the vertices of paths.
    pub open spec fn vertex_bytes(self, paths: Seq<PathShape>, layout: PathLayout) -> u64 {
        (vertex_count(paths) * layout.vertex as nat) as u64
    }

    pub open spec fn sprite_bytes(self, paths: Seq<PathShape>, layout: PathLayout) -> u64 {
        (copy_count(paths) * layout.sprite as nat) as u64
    }

    pub open spec fn after(self, batch: Batch, layout: PathLayout, alignment: u64) -> InstanceBuffers {
        match batch {
            Batch::Quads { count, bytes } => InstanceBuffers {
                quads: filled(self.quads, alignment, count, bytes),
                ..self
            },
            Batch::Shadows { count, bytes } => InstanceBuffers {
                shadows: filled(self.shadows, alignment, count, bytes),
                ..self
            },
            Batch::Paths(paths) => if paths@.len() == 0 {
                self
            } else {
                InstanceBuffers {
                    path_vertices: filled(
                        self.path_vertices,
                        alignment,
                        vertex_count(paths@) as u32,
                        self.vertex_bytes(paths@, layout),
                    ),
                    path_sprites: self.path_sprites.uploaded(
                        alignment,
                        self.sprite_bytes(paths@, layout),
                    ),
                    ..self
                }
            },
            Batch::Underlines { count, bytes } => InstanceBuffers {
                underlines: filled(self.underlines, alignment, count, bytes),
                ..self
            },
            Batch::MonochromeSprites { texture, count, bytes } => InstanceBuffers {
                mono_sprites: filled(self.mono_sprites, alignment, count, bytes),
                ..self
            },
            Batch::PolychromeSprites { texture, count, bytes } => InstanceBuffers {
                poly_sprites: filled(self.poly_sprites, alignment, count, bytes),
                ..self
            },
            Batch::Surfaces { count } => self,
        }
    }

    /// Paths are rasterised in a pass of their own, between which the frame's pass is
    /// suspended, and then copied.
    pub open spec fn path_commands(
        self,
        paths: Seq<PathShape>,
        layout: PathLayout,
        alignment: u64,
    ) -> Seq<Command> {
        if paths.len() == 0 {
            seq![]
        } else {
            seq![Command::SuspendFrame] + (if vertex_count(paths) == 0 {
                seq![]
            } else {
                seq![
                    Command::RasterizePaths {
                        upload: self.path_vertices.place(
                            alignment,
                            self.vertex_bytes(paths, layout),
                        ),
                        vertices: vertex_count(paths) as u32,
                    },
                ]
            }) + seq![
                Command::ResumeFrame,
                Command::CopyPaths {
                    copies: copies_of(paths),
                    upload: self.path_sprites.place(alignment, self.sprite_bytes(paths, layout)),
                    instances: copy_count(paths) as u32,
                },
            ]
        }
    }

    pub open spec fn commands(self, batch: Batch, layout: PathLayout, alignment: u64) -> Seq<
        Command,
    > {
        match batch {
            Batch::Quads { count, bytes } => drawn(
                PipelineKind::Quads,
                None,
                self.quads,
                alignment,
                count,
                bytes,
            ),
            Batch::Shadows { count, bytes } => drawn(
                PipelineKind::Shadows,
                None,
                self.shadows,
                alignment,
                count,
                bytes,
            ),
            Batch::Paths(paths) => self.path_commands(paths@, layout, alignment),
            Batch::Underlines { count, bytes } => drawn(
                PipelineKind::Underlines,
                None,
                self.underlines,
                alignment,
                count,
                bytes,
            ),
            Batch::MonochromeSprites { texture, count, bytes } => drawn(
                PipelineKind::MonoSprites,
                Some(texture),
                self.mono_sprites,
                alignment,
                count,
                bytes,
            ),
            Batch::PolychromeSprites { texture, count, bytes } => drawn(
                PipelineKind::PolySprites,
                Some(texture),
                self.poly_sprites,
                alignment,
                count,
                bytes,
            ),
            Batch::Surfaces { count } => seq![Command::ReportSurfaces(count)],
        }
    }

    pub open spec fn after_all(
        self,
        batches: Seq<Batch>,
        layout: PathLayout,
        alignment: u64,
    ) -> InstanceBuffers
        decreases batches.len(),
    {
        if batches.len() == 0 {
            self
        } else {
            self.after_all(batches.drop_last(), layout, alignment).after(
                batches.last(),
                layout,
                alignment,
            )
        }
    }

    /// The commands for all batches, one batch after the other.
    pub open spec fn all_commands(
        self,
        batches: Seq<Batch>,
        layout: PathLayout,
        alignment: u64,
    ) -> Seq<Command>
        decreases batches.len(),
    {
        if batches.len() == 0 {
            seq![]
        } else {
            self.all_commands(batches.drop_last(), layout, alignment) + self.after_all(
                batches.drop_last(),
                layout,
                alignment,
            ).commands(batches.last(), layout, alignment)
        }
    }
}

fn draw_instances(
    pipeline: PipelineKind,
    texture: Option<TextureId>,
    buffer: &mut InstanceBuffer,
    alignment: u64,
    count: u32,
    bytes: u64,
    commands: &mut Vec<Command>,
)
    requires
        count > 0 ==> old(buffer).takes(alignment, bytes),
        old(buffer).wf(),
    ensures
        *final(buffer) == filled(*old(buffer), alignment, count, bytes),
        final(buffer).wf(),
        final(buffer).offset <= old(buffer).offset + alignment + bytes,
        final(commands)@ == old(commands)@ + drawn(
            pipeline,
            texture,
            *old(buffer),
            alignment,
            count,
            bytes,
        ),
{
    if count == 0 {
        assert(commands@ + Seq::<Command>::empty() =~= commands@);
        return;
    }
    proof {
        lemma_aligned(buffer.offset as nat, alignment as nat);
    }
    let upload = buffer.upload(alignment, bytes);
    commands.push(Command::Draw { pipeline, texture, upload, instances: count });
}

fn count_vertices(paths: &Vec<PathShape>) -> (count: u32)
    requires
        vertex_count(paths@) <= u32::MAX,
    ensures
        count == vertex_count(paths@),
{
    let mut count: u32 = 0;
    let mut index: usize = 0;
    while index < paths.len()
        invariant
            index <= paths@.len(),
            vertex_count(paths@) <= u32::MAX,
            count == vertex_count(paths@.take(index as int)),
        decreases paths@.len() - index,
    {
        proof {
            assert(paths@.take(index + 1).drop_last() =~= paths@.take(index as int));
            lemma_vertex_prefix(paths@, index + 1);
        }
        count = count + paths[index].vertices;
        index += 1;
    }
    assert(paths@.take(index as int) =~= paths@);
    count
}

proof fn lemma_vertex_prefix(paths: Seq<PathShape>, count: int)
    requires
        0 <= count <= paths.len(),
    ensures
        vertex_count(paths.take(count)) <= vertex_count(paths),
    decreases paths.len() - count,
{
    if count < paths.len() {
        assert(paths.take(count + 1).drop_last() =~= paths.take(count));
        lemma_vertex_prefix(paths, count + 1);
    } else {
        assert(paths.take(count) =~= paths);
    }
}

/// The commands of one batch.
fn plan_batch(
    batch: &Batch,
    layout: PathLayout,
    alignment: u64,
    used: Ghost<nat>,
    buffers: &mut InstanceBuffers,
    commands: &mut Vec<Command>,
)
    requires
        old(buffers).wf(),
        old(buffers).within(used@),
        batch.wf(),
        layout.vertex > 0,
        layout.sprite > 0,
        used@ + batch.demand(layout, alignment) <= DEMAND_LIMIT,
    ensures
        *final(buffers) == old(buffers).after(*batch, layout, alignment),
        final(buffers).wf(),
        final(buffers).within((used@ + batch.demand(layout, alignment)) as nat),
        final(commands)@ == old(commands)@ + old(buffers).commands(*batch, layout, alignment),
{
    match batch {
        Batch::Quads { count, bytes } => {
            draw_instances(
                PipelineKind::Quads,
                None,
                &mut buffers.quads,
                alignment,
                *count,
                *bytes,
                commands,
            );
        },
        Batch::Shadows { count, bytes } => {
            draw_instances(
                PipelineKind::Shadows,
                None,
                &mut buffers.shadows,
                alignment,
                *count,
                *bytes,
                commands,
            );
        },
        Batch::Paths(paths) => {
            if paths.len() == 0 {
                assert(commands@ + Seq::<Command>::empty() =~= commands@);
                return;
            }
            commands.push(Command::SuspendFrame);
            let vertices: u32 = count_vertices(paths);
            let same_order = paths[paths.len() - 1].order == paths[0].order;
            let copies = if same_order {
                PathCopies::Each
            } else {
                PathCopies::Spanning
            };
            let instances: u32 = if same_order {
                paths.len() as u32
            } else {
                1
            };
            proof {
                lemma_aligned(buffers.path_vertices.offset as nat, alignment as nat);
                lemma_aligned(buffers.path_sprites.offset as nat, alignment as nat);
                assert(vertices * layout.vertex >= 0 && (vertices > 0 ==> vertices * layout.vertex
                    > 0)) by (nonlinear_arith)
                    requires
                        layout.vertex > 0,
                ;
                assert(instances * layout.sprite > 0) by (nonlinear_arith)
                    requires
                        instances > 0,
                        layout.sprite > 0,
                ;
            }
            if vertices > 0 {
                let bytes: u64 = vertices as u64 * layout.vertex;
                let upload = buffers.path_vertices.upload(alignment, bytes);
                commands.push(Command::RasterizePaths { upload, vertices });
            }
            commands.push(Command::ResumeFrame);
            let bytes: u64 = instances as u64 * layout.sprite;
            let upload = buffers.path_sprites.upload(alignment, bytes);
            commands.push(Command::CopyPaths { copies, upload, instances });
            assert(commands@ =~= old(commands)@ + old(buffers).commands(
                *batch,
                layout,
                alignment,
            ));
        },
        Batch::Underlines { count, bytes } => {
            draw_instances(
                PipelineKind::Underlines,
                None,
                &mut buffers.underlines,
                alignment,
                *count,
                *bytes,
                commands,
            );
        },
        Batch::MonochromeSprites { texture, count, bytes } => {
            draw_instances(
                PipelineKind::MonoSprites,
                Some(*texture),
                &mut buffers.mono_sprites,
                alignment,
                *count,
                *bytes,
                commands,
            );
        },
        Batch::PolychromeSprites { texture, count, bytes } => {
            draw_instances(
                PipelineKind::PolySprites,
                Some(*texture),
                &mut buffers.poly_sprites,
                alignment,
                *count,
                *bytes,
                commands,
            );
        },
        Batch::Surfaces { count } => {
            commands.push(Command::ReportSurfaces(*count));
        },
    }
}

/// Whether a frame can be planned: the numbers of its batches agree, and no buffer is
/// asked for more than a buffer can be.
pub open spec fn plannable(batches: Seq<Batch>, layout: PathLayout, alignment: u64) -> bool {
    &&& forall|i: int| 0 <= i < batches.len() ==> (#[trigger] batches[i]).wf()
    &&& layout.vertex > 0
    &&& layout.sprite > 0
    &&& total_demand(batches, layout, alignment) <= DEMAND_LIMIT
}

proof fn lemma_demand_prefix(
    batches: Seq<Batch>,
    layout: PathLayout,
    alignment: u64,
    count: int,
)
    requires
        0 <= count <= batches.len(),
    ensures
        total_demand(batches.take(count), layout, alignment) <= total_demand(
            batches,
            layout,
            alignment,
        ),
    decreases batches.len() - count,
{
    if count < batches.len() {
        assert(batches.take(count + 1).drop_last() =~= batches.take(count));
        lemma_demand_prefix(batches, layout, alignment, count + 1);
    } else {
        assert(batches.take(count) =~= batches);
    }
}

/// The commands of a frame: its batches one after the other, each from its instance
/// buffer, which is filled from its beginning again.
pub fn plan_frame(
    batches: &Vec<Batch>,
    layout: PathLayout,
    alignment: u64,
    buffers: &mut InstanceBuffers,
) -> (commands: Vec<Command>)
    requires
        old(buffers).wf(),
        plannable(batches@, layout, alignment),
    ensures
        commands@ == old(buffers).emptied().all_commands(batches@, layout, alignment),
        *final(buffers) == old(buffers).emptied().after_all(batches@, layout, alignment),
        final(buffers).wf(),
{
    buffers.reset();
    let ghost start = *buffers;
    let mut commands: Vec<Command> = Vec::new();
    let mut index: usize = 0;
    let ghost mut used: nat = 0;
    while index < batches.len()
        invariant
            index <= batches@.len(),
            plannable(batches@, layout, alignment),
            buffers.wf(),
            used == total_demand(batches@.take(index as int), layout, alignment),
            buffers.within(used),
            *buffers == start.after_all(batches@.take(index as int), layout, alignment),
            commands@ == start.all_commands(batches@.take(index as int), layout, alignment),
        decreases batches@.len() - index,
    {
        proof {
            assert(batches@.take(index + 1).drop_last() =~= batches@.take(index as int));
            lemma_demand_prefix(batches@, layout, alignment, index + 1);
            assert(batches@[index as int].wf());
        }
        plan_batch(&batches[index], layout, alignment, Ghost(used), buffers, &mut commands);
        proof {
            used = total_demand(batches@.take(index + 1), layout, alignment);
        }
        index += 1;
    }
    assert(batches@.take(index as int) =~= batches@);
    commands
}

/// Whether the frame's pass is open after a command, given whether it was before; `None`
/// where the command cannot be recorded then.
pub open spec fn pass_after(open: Option<bool>, command: Command) -> Option<bool> {
    match open {
        Some(open) => match command {
            Command::Draw { .. } => if open {
                Some(true)
            } else {
                None
            },
            Command::CopyPaths { .. } => if open {
                Some(true)
            } else {
                None
            },
            Command::SuspendFrame => if open {
                Some(false)
            } else {
                None
            },
            Command::RasterizePaths { .. } => if open {
                None
            } else {
                Some(false)
            },
            Command::ResumeFrame => if open {
                None
            } else {
                Some(true)
            },
            Command::ReportSurfaces(_) => Some(open),
        },
        None => None,
    }
}

pub open spec fn pass_after_all(open: Option<bool>, commands: Seq<Command>) -> Option<bool>
    decreases commands.len(),
{
    if commands.len() == 0 {
        open
    } else {
        pass_after(pass_after_all(open, commands.drop_last()), commands.last())
    }
}

proof fn lemma_pass_concat(open: Option<bool>, a: Seq<Command>, b: Seq<Command>)
    ensures
        pass_after_all(open, a + b) == pass_after_all(pass_after_all(open, a), b),
    decreases b.len(),
{
    if b.len() == 0 {
        assert(a + b =~= a);
    } else {
        assert((a + b).drop_last() =~= a + b.drop_last());
        lemma_pass_concat(open, a, b.drop_last());
    }
}

/// Everything is drawn in an open pass, paths are rasterised while it is closed, and a
/// frame ends with its pass open as it began.
pub proof fn law_passes_are_nested(
    buffers: InstanceBuffers,
    batches: Seq<Batch>,
    layout: PathLayout,
    alignment: u64,
)
    ensures
        pass_after_all(Some(true), buffers.all_commands(batches, layout, alignment)) == Some(true),
    decreases batches.len(),
{
    if batches.len() > 0 {
        law_passes_are_nested(buffers, batches.drop_last(), layout, alignment);
        let before = buffers.after_all(batches.drop_last(), layout, alignment);
        let last = before.commands(batches.last(), layout, alignment);
        lemma_pass_concat(
            Some(true),
            buffers.all_commands(batches.drop_last(), layout, alignment),
            last,
        );
        reveal_with_fuel(pass_after_all, 5);
        if let Batch::Paths(paths) = batches.last() {
            if paths@.len() > 0 {
                if vertex_count(paths@) == 0 {
                    assert(last.len() == 3);
                    assert(last.drop_last().drop_last() =~= seq![Command::SuspendFrame]);
                } else {
                    assert(last.len() == 4);
                    assert(last.drop_last().drop_last().drop_last() =~= seq![
                        Command::SuspendFrame,
                    ]);
                }
            }
        }
    }
}

/// What one buffer holds of a frame never overlaps: data comes after what was there
/// before, or in a new buffer.
pub proof fn law_uploads_are_apart(
    buffer: InstanceBuffer,
    alignment: u64,
    first: u64,
    second: u64,
)
    requires
        buffer.takes(alignment, first),
        buffer.uploaded(alignment, first).takes(alignment, second),
    ensures
        buffer.uploaded(alignment, first).place(alignment, second).grown is Some || buffer.place(
            alignment,
            first,
        ).offset + first <= buffer.uploaded(alignment, first).place(alignment, second).offset,
        buffer.place(alignment, first).offset + first <= buffer.uploaded(
            alignment,
            first,
        ).capacity,
{
    lemma_aligned(buffer.offset as nat, alignment as nat);
    lemma_doubled((2 * buffer.capacity) as nat, first as nat);
    let next = buffer.uploaded(alignment, first);
    lemma_aligned(next.offset as nat, alignment as nat);
}

/// Whether every buffer holds at least so many bytes.
pub open spec fn roomy(buffers: InstanceBuffers, bytes: nat) -> bool {
    bytes <= buffers.quads.capacity && bytes <= buffers.shadows.capacity && bytes
        <= buffers.path_vertices.capacity && bytes <= buffers.path_sprites.capacity && bytes
        <= buffers.underlines.capacity && bytes <= buffers.mono_sprites.capacity && bytes
        <= buffers.poly_sprites.capacity
}

/// Growing settles: once the buffers have room for all that a frame asks for, its batches
/// fit into them as they are. And every time that a buffer grows it at least doubles, so
/// that this happens only a few times.
pub proof fn law_growing_settles(
    buffers: InstanceBuffers,
    batches: Seq<Batch>,
    layout: PathLayout,
    alignment: u64,
)
    requires
        buffers.wf(),
        plannable(batches, layout, alignment),
        roomy(buffers, total_demand(batches, layout, alignment)),
    ensures
        buffers.emptied().after_all(batches, layout, alignment).emptied() == buffers.emptied(),
{
    lemma_settled(buffers, batches, layout, alignment, total_demand(batches, layout, alignment));
}

proof fn lemma_settled(
    buffers: InstanceBuffers,
    batches: Seq<Batch>,
    layout: PathLayout,
    alignment: u64,
    room: nat,
)
    requires
        buffers.wf(),
        plannable(batches, layout, alignment),
        roomy(buffers, room),
        total_demand(batches, layout, alignment) <= room,
    ensures
        buffers.emptied().after_all(batches, layout, alignment).emptied() == buffers.emptied(),
        buffers.emptied().after_all(batches, layout, alignment).within(
            total_demand(batches, layout, alignment),
        ),
    decreases batches.len(),
{
    if batches.len() > 0 {
        let earlier = batches.drop_last();
        assert forall|i: int| 0 <= i < earlier.len() implies (#[trigger] earlier[i]).wf() by {
            assert(earlier[i] == batches[i]);
        }
        lemma_settled(buffers, earlier, layout, alignment, room);
        let before = buffers.emptied().after_all(earlier, layout, alignment);
        let used = total_demand(earlier, layout, alignment);
        assert(before.emptied() == buffers.emptied());
        let batch = batches.last();
        assert(batches[batches.len() - 1].wf());
        match batch {
            Batch::Quads { count, bytes } => {
                lemma_fits(before.quads, alignment, bytes, used);
            },
            Batch::Shadows { count, bytes } => {
                lemma_fits(before.shadows, alignment, bytes, used);
            },
            Batch::Paths(paths) => {
                if paths@.len() > 0 {
                    let vertices = vertex_count(paths@) * layout.vertex as nat;
                    let sprites = copy_count(paths@) * layout.sprite as nat;
                    lemma_fits(before.path_vertices, alignment, vertices as u64, used);
                    lemma_fits(before.path_sprites, alignment, sprites as u64, used);
                }
            },
            Batch::Underlines { count, bytes } => {
                lemma_fits(before.underlines, alignment, bytes, used);
            },
            Batch::MonochromeSprites { texture, count, bytes } => {
                lemma_fits(before.mono_sprites, alignment, bytes, used);
            },
            Batch::PolychromeSprites { texture, count, bytes } => {
                lemma_fits(before.poly_sprites, alignment, bytes, used);
            },
            Batch::Surfaces { count } => {},
        }
    }
}

/// A buffer with enough room is not replaced.
proof fn lemma_fits(buffer: InstanceBuffer, alignment: u64, bytes: u64, used: nat)
    requires
        buffer.offset <= used,
        used + alignment + bytes <= buffer.capacity,
    ensures
        buffer.uploaded(alignment, bytes).capacity == buffer.capacity,
        buffer.uploaded(alignment, bytes).offset <= used + alignment + bytes,
{
    lemma_aligned(buffer.offset as nat, alignment as nat);
}

/// Paths of one order, whose bounds are apart, are copied one by one, and others together
/// in one rectangle.
pub proof fn law_paths_are_copied_apart_or_together(
    buffers: InstanceBuffers,
    paths: Seq<PathShape>,
    layout: PathLayout,
    alignment: u64,
)
    requires
        0 < paths.len() <= u32::MAX,
    ensures
        buffers.path_commands(paths, layout, alignment).last() matches Command::CopyPaths {
            copies,
            upload,
            instances,
        } && (copies == PathCopies::Each ==> paths.last().order == paths[0].order && instances
            == paths.len()) && (copies == PathCopies::Spanning ==> paths.last().order
            != paths[0].order && instances == 1),
{
}

/// A batch with nothing in it is not drawn.
pub proof fn law_empty_batches_draw_nothing(
    buffers: InstanceBuffers,
    layout: PathLayout,
    alignment: u64,
    bytes: u64,
    texture: TextureId,
    paths: Vec<PathShape>,
)
    requires
        paths@.len() == 0,
    ensures
        buffers.commands(Batch::Quads { count: 0, bytes }, layout, alignment).len() == 0,
        buffers.commands(Batch::Shadows { count: 0, bytes }, layout, alignment).len() == 0,
        buffers.commands(Batch::Underlines { count: 0, bytes }, layout, alignment).len() == 0,
        buffers.commands(
            Batch::MonochromeSprites { texture, count: 0, bytes },
            layout,
            alignment,
        ).len() == 0,
        buffers.commands(
            Batch::PolychromeSprites { texture, count: 0, bytes },
            layout,
            alignment,
        ).len() == 0,
        buffers.commands(Batch::Paths(paths), layout, alignment).len() == 0,
{
}

} // verus!
