//! What is drawn of a frame, batch by batch.

use crate::web::atlas::TextureId;
use crate::web::renderer;
use crate::web::renderer::{
    AlphaMode, Batch, Blend, Command, InstanceBuffer, InstanceBuffers, PathCopies, PathLayout,
    PathShape, PipelineKind, Resource, Topology, Upload,
};
use vstd::prelude::*;

verus! {

/// The pipeline that draws instances of a batch, and `None` for the batches that are not
/// drawn as instances.
pub open spec fn pipeline_of(commands: Seq<Command>) -> Option<PipelineKind> {
    if commands.len() == 1 && commands[0] is Draw {
        Some(commands[0]->pipeline)
    } else {
        None
    }
}

/// Every batch with something in it is drawn once, by the pipeline of its own kind, with
/// its own texture and its own count, from where its own buffer takes its bytes.
pub proof fn law_batches_are_drawn_by_their_kind(
    buffers: InstanceBuffers,
    layout: PathLayout,
    alignment: u64,
    texture: TextureId,
    count: u32,
    bytes: u64,
)
    requires
        count > 0,
    ensures
        buffers.commands(Batch::Quads { count, bytes }, layout, alignment) == seq![
            Command::Draw {
                pipeline: PipelineKind::Quads,
                texture: None,
                upload: buffers.quads.place(alignment, bytes),
                instances: count,
            },
        ],
        buffers.commands(Batch::Shadows { count, bytes }, layout, alignment) == seq![
            Command::Draw {
                pipeline: PipelineKind::Shadows,
                texture: None,
                upload: buffers.shadows.place(alignment, bytes),
                instances: count,
            },
        ],
        buffers.commands(Batch::Underlines { count, bytes }, layout, alignment) == seq![
            Command::Draw {
                pipeline: PipelineKind::Underlines,
                texture: None,
                upload: buffers.underlines.place(alignment, bytes),
                instances: count,
            },
        ],
        buffers.commands(Batch::MonochromeSprites { texture, count, bytes }, layout, alignment)
            == seq![
            Command::Draw {
                pipeline: PipelineKind::MonoSprites,
                texture: Some(texture),
                upload: buffers.mono_sprites.place(alignment, bytes),
                instances: count,
            },
        ],
        buffers.commands(Batch::PolychromeSprites { texture, count, bytes }, layout, alignment)
            == seq![
            Command::Draw {
                pipeline: PipelineKind::PolySprites,
                texture: Some(texture),
                upload: buffers.poly_sprites.place(alignment, bytes),
                instances: count,
            },
        ],
        buffers.commands(Batch::Surfaces { count }, layout, alignment) == seq![
            Command::ReportSurfaces(count),
        ],
{
}

/// No two kinds of batch share a pipeline.
pub proof fn law_kinds_do_not_share_a_pipeline(
    buffers: InstanceBuffers,
    layout: PathLayout,
    alignment: u64,
    first: Batch,
    second: Batch,
)
    requires
        pipeline_of(buffers.commands(first, layout, alignment)) is Some,
        pipeline_of(buffers.commands(first, layout, alignment)) == pipeline_of(
            buffers.commands(second, layout, alignment),
        ),
    ensures
        first is Quads <==> second is Quads,
        first is Shadows <==> second is Shadows,
        first is Underlines <==> second is Underlines,
        first is MonochromeSprites <==> second is MonochromeSprites,
        first is PolychromeSprites <==> second is PolychromeSprites,
        !(first is Paths) && !(first is Surfaces),
{
}

/// A drawn batch takes room in the buffer of its own kind only.
pub proof fn law_batches_fill_their_own_buffer(
    buffers: InstanceBuffers,
    layout: PathLayout,
    alignment: u64,
    texture: TextureId,
    count: u32,
    bytes: u64,
)
    requires
        count > 0,
    ensures
        buffers.after(Batch::Quads { count, bytes }, layout, alignment) == (InstanceBuffers {
            quads: buffers.quads.uploaded(alignment, bytes),
            ..buffers
        }),
        buffers.after(Batch::Shadows { count, bytes }, layout, alignment) == (InstanceBuffers {
            shadows: buffers.shadows.uploaded(alignment, bytes),
            ..buffers
        }),
        buffers.after(Batch::Underlines { count, bytes }, layout, alignment) == (InstanceBuffers {
            underlines: buffers.underlines.uploaded(alignment, bytes),
            ..buffers
        }),
        buffers.after(Batch::MonochromeSprites { texture, count, bytes }, layout, alignment) == (
        InstanceBuffers {
            mono_sprites: buffers.mono_sprites.uploaded(alignment, bytes),
            ..buffers
        }),
        buffers.after(Batch::PolychromeSprites { texture, count, bytes }, layout, alignment) == (
        InstanceBuffers {
            poly_sprites: buffers.poly_sprites.uploaded(alignment, bytes),
            ..buffers
        }),
        buffers.after(Batch::Surfaces { count }, layout, alignment) == buffers,
{
}

/// A batch without instances changes no buffer.
pub proof fn law_empty_batches_take_no_room(
    buffers: InstanceBuffers,
    layout: PathLayout,
    alignment: u64,
    texture: TextureId,
    bytes: u64,
    paths: Vec<PathShape>,
)
    requires
        paths@.len() == 0,
    ensures
        buffers.after(Batch::Quads { count: 0, bytes }, layout, alignment) == buffers,
        buffers.after(Batch::Shadows { count: 0, bytes }, layout, alignment) == buffers,
        buffers.after(Batch::Underlines { count: 0, bytes }, layout, alignment) == buffers,
        buffers.after(Batch::MonochromeSprites { texture, count: 0, bytes }, layout, alignment)
            == buffers,
        buffers.after(Batch::PolychromeSprites { texture, count: 0, bytes }, layout, alignment)
            == buffers,
        buffers.after(Batch::Paths(paths), layout, alignment) == buffers,
{
}

/// The vertices of paths are counted path by path.
pub proof fn law_vertices_add_up(paths: Seq<PathShape>, more: Seq<PathShape>, one: PathShape)
    ensures
        renderer::vertex_count(Seq::<PathShape>::empty()) == 0,
        renderer::vertex_count(seq![one]) == one.vertices,
        renderer::vertex_count(paths + more) == renderer::vertex_count(paths)
            + renderer::vertex_count(more),
    decreases more.len(),
{
    reveal_with_fuel(renderer::vertex_count, 2);
    assert(seq![one].drop_last() =~= Seq::<PathShape>::empty());
    if more.len() == 0 {
        assert(paths + more =~= paths);
    } else {
        law_vertices_add_up(paths, more.drop_last(), one);
        assert((paths + more).drop_last() =~= paths + more.drop_last());
    }
}

/// Paths are drawn in four steps: the frame's pass is suspended, all their vertices are
/// rasterised from the vertex buffer, the pass is resumed, and the result is copied, path
/// by path where the first and the last have one order, in one piece otherwise. Paths
/// without any vertex are not rasterised.
pub proof fn law_paths_are_rasterised_and_copied(
    buffers: InstanceBuffers,
    paths: Vec<PathShape>,
    layout: PathLayout,
    alignment: u64,
    vertices: u32,
)
    requires
        0 < paths@.len() <= u32::MAX,
        vertices == renderer::vertex_count(paths@),
        vertices * layout.vertex <= u64::MAX,
        paths@.len() * layout.sprite <= u64::MAX,
    ensures
        ({
            let apart = paths@[paths@.len() - 1].order == paths@[0].order;
            let copied = Command::CopyPaths {
                copies: if apart {
                    PathCopies::Each
                } else {
                    PathCopies::Spanning
                },
                upload: buffers.path_sprites.place(
                    alignment,
                    if apart {
                        (paths@.len() * layout.sprite) as u64
                    } else {
                        layout.sprite
                    },
                ),
                instances: if apart {
                    paths@.len() as u32
                } else {
                    1
                },
            };
            let commands = buffers.commands(Batch::Paths(paths), layout, alignment);
            &&& vertices > 0 ==> commands == seq![
                Command::SuspendFrame,
                Command::RasterizePaths {
                    upload: buffers.path_vertices.place(
                        alignment,
                        (vertices * layout.vertex) as u64,
                    ),
                    vertices,
                },
                Command::ResumeFrame,
                copied,
            ]
            &&& vertices == 0 ==> commands == seq![
                Command::SuspendFrame,
                Command::ResumeFrame,
                copied,
            ]
            &&& buffers.after(Batch::Paths(paths), layout, alignment) == InstanceBuffers {
                path_vertices: if vertices == 0 {
                    buffers.path_vertices
                } else {
                    buffers.path_vertices.uploaded(alignment, (vertices * layout.vertex) as u64)
                },
                path_sprites: buffers.path_sprites.uploaded(
                    alignment,
                    if apart {
                        (paths@.len() * layout.sprite) as u64
                    } else {
                        layout.sprite
                    },
                ),
                ..buffers
            }
        }),
{
    assert(1 * layout.sprite as nat == layout.sprite as nat);
    assert(paths@.last() == paths@[paths@.len() - 1]);
}

/// The commands of a frame are those of its batches one after the other: where a frame is
/// cut in two, the second part goes on with the buffers as the first part left them.
pub proof fn law_frames_concatenate(
    buffers: InstanceBuffers,
    first: Seq<Batch>,
    second: Seq<Batch>,
    layout: PathLayout,
    alignment: u64,
)
    ensures
        buffers.after_all(first + second, layout, alignment) == buffers.after_all(
            first,
            layout,
            alignment,
        ).after_all(second, layout, alignment),
        buffers.all_commands(first + second, layout, alignment) == buffers.all_commands(
            first,
            layout,
            alignment,
        ) + buffers.after_all(first, layout, alignment).all_commands(second, layout, alignment),
    decreases second.len(),
{
    if second.len() == 0 {
        assert(first + second =~= first);
    } else {
        law_frames_concatenate(buffers, first, second.drop_last(), layout, alignment);
        assert((first + second).drop_last() =~= first + second.drop_last());
    }
}

/// Every batch of a frame that has something in it is drawn in it, by the pipeline of its
/// own kind and with its own texture and count.
pub proof fn law_every_batch_of_a_frame_is_drawn(
    buffers: InstanceBuffers,
    batches: Seq<Batch>,
    layout: PathLayout,
    alignment: u64,
    index: int,
)
    requires
        0 <= index < batches.len(),
    ensures
        ({
            let (pipeline, texture, instances) = match batches[index] {
                Batch::Quads { count, bytes } => (PipelineKind::Quads, None, count),
                Batch::Shadows { count, bytes } => (PipelineKind::Shadows, None, count),
                Batch::Underlines { count, bytes } => (PipelineKind::Underlines, None, count),
                Batch::MonochromeSprites { texture, count, bytes } => (
                    PipelineKind::MonoSprites,
                    Some(texture),
                    count,
                ),
                Batch::PolychromeSprites { texture, count, bytes } => (
                    PipelineKind::PolySprites,
                    Some(texture),
                    count,
                ),
                Batch::Paths(paths) => (PipelineKind::Paths, None, 0),
                Batch::Surfaces { count } => (PipelineKind::Quads, None, 0),
            };
            let commands = buffers.all_commands(batches, layout, alignment);
            let place = buffers.all_commands(batches.take(index), layout, alignment).len() as int;
            instances > 0 ==> place < commands.len() && (commands[place] matches Command::Draw {
                pipeline: by,
                texture: with,
                upload,
                instances: many,
            } && by == pipeline && with == texture && many == instances)
        }),
{
    let before = batches.take(index);
    let rest = batches.skip(index + 1);
    let one = seq![batches[index]];
    assert(batches =~= before + (one + rest));
    law_frames_concatenate(buffers, before, one + rest, layout, alignment);
    let middle = buffers.after_all(before, layout, alignment);
    law_frames_concatenate(middle, one, rest, layout, alignment);
    law_single_batches(middle, batches[index], layout, alignment);
}

/// A frame of one batch has the commands of that batch, and one of none has none.
pub proof fn law_single_batches(
    buffers: InstanceBuffers,
    batch: Batch,
    layout: PathLayout,
    alignment: u64,
)
    ensures
        buffers.all_commands(Seq::<Batch>::empty(), layout, alignment) == Seq::<Command>::empty(),
        buffers.after_all(Seq::<Batch>::empty(), layout, alignment) == buffers,
        buffers.all_commands(seq![batch], layout, alignment) == buffers.commands(
            batch,
            layout,
            alignment,
        ),
        buffers.after_all(seq![batch], layout, alignment) == buffers.after(
            batch,
            layout,
            alignment,
        ),
{
    reveal_with_fuel(InstanceBuffers::all_commands, 2);
    reveal_with_fuel(InstanceBuffers::after_all, 2);
    assert(seq![batch].drop_last() =~= Seq::<Batch>::empty());
}

/// A frame starts with every buffer empty and none of them smaller.
pub proof fn law_frames_start_empty(buffers: InstanceBuffers)
    ensures
        ({
            let empty = buffers.emptied();
            &&& empty.quads == InstanceBuffer { capacity: buffers.quads.capacity, offset: 0 }
            &&& empty.shadows == InstanceBuffer { capacity: buffers.shadows.capacity, offset: 0 }
            &&& empty.path_vertices == InstanceBuffer {
                capacity: buffers.path_vertices.capacity,
                offset: 0,
            }
            &&& empty.path_sprites == InstanceBuffer {
                capacity: buffers.path_sprites.capacity,
                offset: 0,
            }
            &&& empty.underlines == InstanceBuffer {
                capacity: buffers.underlines.capacity,
                offset: 0,
            }
            &&& empty.mono_sprites == InstanceBuffer {
                capacity: buffers.mono_sprites.capacity,
                offset: 0,
            }
            &&& empty.poly_sprites == InstanceBuffer {
                capacity: buffers.poly_sprites.capacity,
                offset: 0,
            }
        }),
{
}

/// Data is placed at the first multiple of the alignment that is not before the end of
/// what the buffer holds, as long as it ends within the buffer; the buffer then ends where
/// the data does, and stays as large as it was.
pub proof fn law_data_is_placed_next(
    buffer: InstanceBuffer,
    alignment: u64,
    size: u64,
    at: u64,
)
    requires
        buffer.takes(alignment, size),
        alignment > 0,
        at % alignment == 0,
        buffer.offset <= at < buffer.offset + alignment,
        at + size <= buffer.capacity,
    ensures
        buffer.place(alignment, size) == (Upload { offset: at, size, grown: None }),
        buffer.uploaded(alignment, size) == (InstanceBuffer {
            capacity: buffer.capacity,
            offset: (at + size) as u64,
        }),
{
    lemma_next_multiple(buffer.offset as nat, alignment as nat, at as nat);
}

proof fn lemma_next_multiple(offset: nat, alignment: nat, at: nat)
    requires
        alignment > 0,
        at % alignment == 0,
        offset <= at < offset + alignment,
    ensures
        renderer::aligned(offset, alignment) == at,
{
    let o = offset as int;
    let d = alignment as int;
    let a = at as int;
    vstd::arithmetic::div_mod::lemma_fundamental_div_mod(o, d);
    vstd::arithmetic::div_mod::lemma_fundamental_div_mod(a, d);
    vstd::arithmetic::div_mod::lemma_mod_bound(o, d);
    let p = o / d;
    let q = a / d;
    let r = o % d;
    assert(r == 0 ==> p == q) by (nonlinear_arith)
        requires
            d > 0,
            o == d * p + r,
            a == d * q,
            0 <= r < d,
            o <= a < o + d,
    ;
    assert(r != 0 ==> q == p + 1) by (nonlinear_arith)
        requires
            d > 0,
            o == d * p + r,
            a == d * q,
            0 <= r < d,
            o <= a < o + d,
    ;
    assert(d * (p + 1) == d * p + d) by (nonlinear_arith);
}

/// Where data does not fit it starts a new buffer, which is twice as large as the one
/// before, doubled again as often as the data needs, and never more.
pub proof fn law_data_that_does_not_fit_starts_anew(
    buffer: InstanceBuffer,
    alignment: u64,
    size: u64,
    at: u64,
)
    requires
        buffer.takes(alignment, size),
        alignment > 0,
        at % alignment == 0,
        buffer.offset <= at < buffer.offset + alignment,
        buffer.capacity < at + size,
    ensures
        ({
            let place = buffer.place(alignment, size);
            let capacity = place.grown->0;
            &&& place.offset == 0
            &&& place.size == size
            &&& place.grown is Some
            &&& size <= capacity
            &&& 2 * buffer.capacity <= capacity
            &&& capacity == 2 * buffer.capacity || capacity < 2 * size
            &&& exists|doublings: nat|
                capacity == #[trigger] vstd::arithmetic::power2::pow2(doublings) * (2
                    * buffer.capacity)
            &&& buffer.uploaded(alignment, size) == InstanceBuffer { capacity, offset: size }
        }),
{
    lemma_next_multiple(buffer.offset as nat, alignment as nat, at as nat);
    lemma_doublings((2 * buffer.capacity) as nat, size as nat);
}

proof fn lemma_doublings(capacity: nat, size: nat)
    requires
        capacity > 0,
    ensures
        size <= renderer::doubled(capacity, size),
        capacity <= renderer::doubled(capacity, size),
        renderer::doubled(capacity, size) == capacity || renderer::doubled(capacity, size) < 2
            * size,
        exists|doublings: nat|
            renderer::doubled(capacity, size) == #[trigger] vstd::arithmetic::power2::pow2(
                doublings,
            ) * capacity,
    decreases 2 * size - capacity,
{
    vstd::arithmetic::power2::lemma2_to64();
    if capacity < size {
        lemma_doublings(2 * capacity, size);
        let n = choose|n: nat|
            renderer::doubled(2 * capacity, size) == #[trigger] vstd::arithmetic::power2::pow2(n)
                * (2 * capacity);
        vstd::arithmetic::power2::lemma_pow2_unfold(n + 1);
        let p = vstd::arithmetic::power2::pow2(n);
        assert(p * (2 * capacity) == (2 * p) * capacity) by (nonlinear_arith);
        assert(renderer::doubled(capacity, size) == vstd::arithmetic::power2::pow2(n + 1)
            * capacity);
    } else {
        assert(renderer::doubled(capacity, size) == vstd::arithmetic::power2::pow2(0) * capacity);
    }
}

/// Without an alignment data follows at once.
pub proof fn law_unaligned_data_follows_at_once(buffer: InstanceBuffer, size: u64)
    requires
        buffer.takes(0, size),
        buffer.offset + size <= buffer.capacity,
    ensures
        buffer.place(0, size) == (Upload { offset: buffer.offset, size, grown: None }),
{
}

/// The pipelines by name, each with its own pair of shader entries. All but the one that
/// rasterises paths draw strips of single samples. The frame's blending is premultiplied
/// exactly where the surface's alpha is.
pub proof fn law_pipeline_setups(mode: AlphaMode)
    ensures
        ({
            let blend = if mode == AlphaMode::PreMultiplied {
                Blend::Premultiplied
            } else {
                Blend::Alpha
            };
            let quads = renderer::setup_of(PipelineKind::Quads, mode);
            let shadows = renderer::setup_of(PipelineKind::Shadows, mode);
            let rasterization = renderer::setup_of(PipelineKind::PathRasterization, mode);
            let paths = renderer::setup_of(PipelineKind::Paths, mode);
            let underlines = renderer::setup_of(PipelineKind::Underlines, mode);
            let mono = renderer::setup_of(PipelineKind::MonoSprites, mode);
            let poly = renderer::setup_of(PipelineKind::PolySprites, mode);
            &&& (quads.label, quads.vertex_entry, quads.fragment_entry) == (
                "quads"@,
                "vs_quad"@,
                "fs_quad"@,
            )
            &&& (shadows.label, shadows.vertex_entry, shadows.fragment_entry) == (
                "shadows"@,
                "vs_shadow"@,
                "fs_shadow"@,
            )
            &&& (
                rasterization.label,
                rasterization.vertex_entry,
                rasterization.fragment_entry,
            ) == ("path_rasterization"@, "vs_path_rasterization"@, "fs_path_rasterization"@)
            &&& (paths.label, paths.vertex_entry, paths.fragment_entry) == (
                "paths"@,
                "vs_path"@,
                "fs_path"@,
            )
            &&& (underlines.label, underlines.vertex_entry, underlines.fragment_entry) == (
                "underlines"@,
                "vs_underline"@,
                "fs_underline"@,
            )
            &&& (mono.label, mono.vertex_entry, mono.fragment_entry) == (
                "mono-sprites"@,
                "vs_mono_sprite"@,
                "fs_mono_sprite"@,
            )
            &&& (poly.label, poly.vertex_entry, poly.fragment_entry) == (
                "poly-sprites"@,
                "vs_poly_sprite"@,
                "fs_poly_sprite"@,
            )
            &&& quads.blend == blend
            &&& shadows.blend == blend
            &&& underlines.blend == blend
            &&& mono.blend == blend
            &&& poly.blend == blend
            &&& rasterization.blend == Blend::Premultiplied
            &&& paths.blend == Blend::OverAdditive
            &&& rasterization.topology == Topology::TriangleList
            &&& rasterization.sample_count == 4
        }),
{
}

/// Everything but the rasterisation of paths draws strips of single samples.
pub proof fn law_strips_of_single_samples(kind: PipelineKind, mode: AlphaMode)
    requires
        kind != PipelineKind::PathRasterization,
    ensures
        renderer::setup_of(kind, mode).topology == Topology::TriangleStrip,
        renderer::setup_of(kind, mode).sample_count == 1,
{
}

/// Where a kind of pipeline finds its instances.
pub open spec fn instance_slot(kind: PipelineKind) -> u32 {
    match kind {
        PipelineKind::Quads => 5,
        PipelineKind::Shadows => 6,
        PipelineKind::PathRasterization => 7,
        PipelineKind::Paths => 8,
        PipelineKind::Underlines => 9,
        PipelineKind::MonoSprites => 10,
        PipelineKind::PolySprites => 11,
    }
}

/// A pipeline is bound to what its shader reads and to nothing else: its globals in slot
/// 0, the text parameters of monochrome sprites in 1 and 2, a texture and the sampler in
/// 3 and 4, and the instances in a slot of its own from 5 to 11.
pub proof fn law_bindings(kind: PipelineKind, slot: u32, resource: Resource)
    ensures
        renderer::bindings_of(kind).contains((slot, resource)) <==> {
            let textured = kind == PipelineKind::MonoSprites || kind == PipelineKind::PolySprites;
            let paths = kind == PipelineKind::Paths;
            ||| slot == 0 && resource == if kind == PipelineKind::PathRasterization {
                Resource::PathRasterizationGlobals
            } else {
                Resource::Globals
            }
            ||| kind == PipelineKind::MonoSprites && slot == 1 && resource == Resource::GammaRatios
            ||| kind == PipelineKind::MonoSprites && slot == 2 && resource
                == Resource::GrayscaleEnhancedContrast
            ||| textured && slot == 3 && resource == Resource::AtlasTexture
            ||| paths && slot == 3 && resource == Resource::PathIntermediateTexture
            ||| (textured || paths) && slot == 4 && resource == Resource::AtlasSampler
            ||| slot == instance_slot(kind) && resource == Resource::Instances
        },
{
    let bound = renderer::bindings_of(kind);
    assert(bound.len() >= 2 && bound[0].0 == 0);
    assert(bound.last() == (instance_slot(kind), Resource::Instances));
    if kind == PipelineKind::MonoSprites {
        assert(bound.len() == 6);
        assert(bound[1] == (1u32, Resource::GammaRatios));
        assert(bound[2] == (2u32, Resource::GrayscaleEnhancedContrast));
        assert(bound[3] == (3u32, Resource::AtlasTexture));
        assert(bound[4] == (4u32, Resource::AtlasSampler));
    } else if kind == PipelineKind::PolySprites {
        assert(bound.len() == 4);
        assert(bound[1] == (3u32, Resource::AtlasTexture));
        assert(bound[2] == (4u32, Resource::AtlasSampler));
    } else if kind == PipelineKind::Paths {
        assert(bound.len() == 4);
        assert(bound[1] == (3u32, Resource::PathIntermediateTexture));
        assert(bound[2] == (4u32, Resource::AtlasSampler));
    } else {
        assert(bound.len() == 2);
    }
}

/// The slots of a pipeline are bound in ascending order, each once.
pub proof fn law_slots_ascend(kind: PipelineKind, first: int, second: int)
    requires
        0 <= first < second < renderer::bindings_of(kind).len(),
    ensures
        renderer::bindings_of(kind)[first].0 < renderer::bindings_of(kind)[second].0,
{
}

/// A batch asks for its own bytes and one alignment, paths for their vertices and copies
/// besides, and surfaces for nothing; a frame asks for what its batches ask for together.
pub proof fn law_demands_add_up(
    first: Seq<Batch>,
    second: Seq<Batch>,
    layout: PathLayout,
    alignment: u64,
    texture: TextureId,
    count: u32,
    bytes: u64,
    paths: Vec<PathShape>,
)
    requires
        paths@.len() > 0,
    ensures
        (Batch::Quads { count, bytes }).demand(layout, alignment) == bytes + alignment,
        (Batch::Shadows { count, bytes }).demand(layout, alignment) == bytes + alignment,
        (Batch::Underlines { count, bytes }).demand(layout, alignment) == bytes + alignment,
        (Batch::MonochromeSprites { texture, count, bytes }).demand(layout, alignment) == bytes
            + alignment,
        (Batch::PolychromeSprites { texture, count, bytes }).demand(layout, alignment) == bytes
            + alignment,
        (Batch::Surfaces { count }).demand(layout, alignment) == 0,
        Batch::Paths(paths).demand(layout, alignment) == renderer::vertex_count(paths@)
            * layout.vertex + (if paths@[paths@.len() - 1].order == paths@[0].order {
            paths@.len()
        } else {
            1
        }) * layout.sprite + alignment,
        renderer::total_demand(Seq::<Batch>::empty(), layout, alignment) == 0,
        renderer::total_demand(first + second, layout, alignment) == renderer::total_demand(
            first,
            layout,
            alignment,
        ) + renderer::total_demand(second, layout, alignment),
        second.len() == 1 ==> renderer::total_demand(second, layout, alignment)
            == second[0].demand(layout, alignment),
    decreases second.len(),
{
    reveal_with_fuel(renderer::total_demand, 2);
    assert(paths@.last() == paths@[paths@.len() - 1]);
    if second.len() == 0 {
        assert(first + second =~= first);
    } else {
        law_demands_add_up(
            first,
            second.drop_last(),
            layout,
            alignment,
            texture,
            count,
            bytes,
            paths,
        );
        assert((first + second).drop_last() =~= first + second.drop_last());
    }
}

/// A frame can be planned where every batch is well formed, the layout has sizes, and all
/// of it together is below 2 to the power of 61 bytes.
pub proof fn law_plannable_frames(batches: Seq<Batch>, layout: PathLayout, alignment: u64)
    ensures
        renderer::plannable(batches, layout, alignment) <==> {
            &&& forall|i: int| 0 <= i < batches.len() ==> (#[trigger] batches[i]).wf()
            &&& 0 < layout.vertex
            &&& 0 < layout.sprite
            &&& renderer::total_demand(batches, layout, alignment) <= 0x2000_0000_0000_0000
        },
{
}

} // verus!
