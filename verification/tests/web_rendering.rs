use gpui_platform::web::atlas::{
    bytes_per_pixel, can_pack, pixel_format, tile_upload, NewTexture, PixelFormat, TextureId,
    TextureKind, Tile, WebGpuAtlas,
};
use gpui_platform::web::renderer::{
    bindings, choose_alpha_mode, drawable_side, frame_start, pipeline_setup, plan_frame,
    premultiplied_alpha, update_drawable_size, AlphaMode, Batch, Blend, Command, FrameStart,
    InstanceBuffer, InstanceBuffers, PathCopies, PathLayout, PathShape, PipelineKind, Resource,
    SurfaceStatus, Topology, Upload,
};

const LAYOUT: PathLayout = PathLayout { vertex: 100, sprite: 16 };

fn texture(index: u32) -> TextureId {
    TextureId { index, kind: TextureKind::Monochrome }
}

fn apart(a: Tile, b: Tile) -> bool {
    a.x + a.width <= b.x || b.x + b.width <= a.x || a.y + a.height <= b.y || b.y + b.height <= a.y
}

#[test]
fn the_first_sprite_makes_a_texture() {
    let mut atlas = WebGpuAtlas::new();
    assert!(atlas.can_insert(1, TextureKind::Monochrome, 10, 20));
    let (tile, created) = atlas.insert(1, TextureKind::Monochrome, 10, 20);
    assert_eq!(
        created,
        Some(NewTexture {
            id: texture(0),
            width: 1024,
            height: 1024,
            format: PixelFormat::R8Unorm,
        })
    );
    assert_eq!((tile.texture, tile.width, tile.height), (texture(0), 10, 20));
    assert_eq!(atlas.get(1), Some(tile));
    assert_eq!(atlas.get(2), None);
    assert!(!atlas.can_insert(1, TextureKind::Monochrome, 10, 20));
}

#[test]
fn sprites_never_overlap() {
    let mut atlas = WebGpuAtlas::new();
    let mut tiles: Vec<Tile> = Vec::new();
    for key in 0..600u64 {
        let width = 5 + (key as i32 * 37) % 90;
        let height = 3 + (key as i32 * 53) % 70;
        let (tile, _) = atlas.insert(key, TextureKind::Monochrome, width, height);
        assert!(tile.x >= 0 && tile.y >= 0);
        assert!(tile.x + tile.width <= 1024 && tile.y + tile.height <= 1024);
        assert_eq!((tile.width, tile.height), (width, height));
        for other in &tiles {
            assert!(other.texture != tile.texture || apart(*other, tile));
        }
        tiles.push(tile);
    }
    assert!(tiles.iter().any(|tile| tile.texture.index > 0));
}

#[test]
fn a_large_sprite_gets_a_texture_of_its_size() {
    let mut atlas = WebGpuAtlas::new();
    let (_, created) = atlas.insert(1, TextureKind::Polychrome, 2000, 8);
    let created = created.unwrap();
    assert_eq!((created.width, created.height), (2000, 1024));
    assert_eq!(created.format, PixelFormat::Bgra8Unorm);
    let (tile, created) = atlas.insert(2, TextureKind::Polychrome, 1500, 1000);
    assert_eq!(created, None);
    assert_eq!(tile.texture.index, 0);
}

#[test]
fn a_texture_goes_with_its_last_sprite_and_its_number_is_used_again() {
    let mut atlas = WebGpuAtlas::new();
    atlas.insert(1, TextureKind::Monochrome, 1024, 1024);
    let (second, created) = atlas.insert(2, TextureKind::Monochrome, 1024, 512);
    assert!(created.is_some());
    assert_eq!(second.texture, texture(1));
    let (third, created) = atlas.insert(3, TextureKind::Monochrome, 1024, 512);
    assert_eq!((third.texture, created), (texture(1), None));
    assert_eq!(atlas.remove(2), None);
    assert_eq!(atlas.remove(1), Some(texture(0)));
    assert_eq!(atlas.remove(1), None);
    let (fourth, created) = atlas.insert(4, TextureKind::Monochrome, 1024, 1024);
    assert_eq!(fourth.texture, texture(0));
    assert_eq!(created.map(|created| created.id), Some(texture(0)));
    assert_eq!(atlas.remove(3), Some(texture(1)));
    assert_eq!(atlas.get(4), Some(fourth));
}

#[test]
fn the_youngest_texture_is_asked_first() {
    let mut atlas = WebGpuAtlas::new();
    atlas.insert(1, TextureKind::Monochrome, 1000, 10);
    atlas.insert(2, TextureKind::Monochrome, 1024, 1024);
    let (third, created) = atlas.insert(3, TextureKind::Monochrome, 10, 10);
    assert_eq!((third.texture, created), (texture(0), None));
    let (fourth, _) = atlas.insert(4, TextureKind::Monochrome, 1024, 1020);
    assert_eq!(fourth.texture, texture(2));
    let (fifth, _) = atlas.insert(5, TextureKind::Monochrome, 1024, 500);
    assert_eq!(fifth.texture, texture(0));
}

#[test]
fn the_kinds_of_textures_are_apart() {
    let mut atlas = WebGpuAtlas::new();
    atlas.insert(1, TextureKind::Monochrome, 8, 8);
    let (tile, created) = atlas.insert(2, TextureKind::Polychrome, 8, 8);
    assert!(created.is_some());
    assert_eq!(tile.texture, TextureId { index: 0, kind: TextureKind::Polychrome });
    assert_eq!(atlas.remove(2), Some(tile.texture));
    assert!(atlas.get(1).is_some());
}

#[test]
fn what_cannot_be_packed_is_told() {
    assert!(can_pack(1, 1));
    assert!(can_pack(32000, 64));
    assert!(!can_pack(0, 5));
    assert!(!can_pack(5, 0));
    assert!(!can_pack(-1, 5));
    assert!(!can_pack(65535, 1));
    assert!(!can_pack(1, 65473));
    assert!(!can_pack(60000, 60000));
}

#[test]
fn the_pixels_of_a_tile() {
    let tile = Tile { texture: texture(0), tile_id: 1, x: 3, y: 4, width: 10, height: 20 };
    let upload = tile_upload(tile);
    assert_eq!((upload.x, upload.y, upload.width, upload.height), (3, 4, 10, 20));
    assert_eq!(upload.bytes_per_row, 10);
    let coloured = Tile {
        texture: TextureId { index: 0, kind: TextureKind::Polychrome },
        ..tile
    };
    assert_eq!(tile_upload(coloured).bytes_per_row, 40);
    assert_eq!(bytes_per_pixel(pixel_format(TextureKind::Monochrome)), 1);
    assert_eq!(bytes_per_pixel(pixel_format(TextureKind::Polychrome)), 4);
}

#[test]
fn a_frame_is_drawn_where_there_is_a_surface() {
    assert_eq!(frame_start(SurfaceStatus::Success), FrameStart::Draw);
    assert_eq!(frame_start(SurfaceStatus::Suboptimal), FrameStart::Draw);
    assert_eq!(frame_start(SurfaceStatus::Outdated), FrameStart::Reconfigure);
    assert_eq!(frame_start(SurfaceStatus::Lost), FrameStart::Reconfigure);
    assert_eq!(frame_start(SurfaceStatus::Timeout), FrameStart::Skip);
    assert_eq!(frame_start(SurfaceStatus::Occluded), FrameStart::Skip);
    assert_eq!(frame_start(SurfaceStatus::Validation), FrameStart::Skip);
}

#[test]
fn a_surface_is_opaque_where_it_can_be() {
    let modes = vec![AlphaMode::PreMultiplied, AlphaMode::Opaque];
    assert_eq!(choose_alpha_mode(&modes), AlphaMode::Opaque);
    assert_eq!(choose_alpha_mode(&vec![AlphaMode::PreMultiplied]), AlphaMode::PreMultiplied);
    assert_eq!(choose_alpha_mode(&Vec::new()), AlphaMode::Auto);
    assert_eq!(premultiplied_alpha(AlphaMode::PreMultiplied), 1);
    assert_eq!(premultiplied_alpha(AlphaMode::Opaque), 0);
}

#[test]
fn a_drawable_has_at_least_one_pixel() {
    assert_eq!(drawable_side(-3), 1);
    assert_eq!(drawable_side(0), 1);
    assert_eq!(drawable_side(17), 17);
    let mut configured = (800, 600);
    assert!(!update_drawable_size(&mut configured, 800, 600));
    assert!(update_drawable_size(&mut configured, 0, 600));
    assert_eq!(configured, (1, 600));
    assert!(!update_drawable_size(&mut configured, -7, 600));
}

#[test]
fn pipelines_are_set_up_for_their_shaders() {
    let quads = pipeline_setup(PipelineKind::Quads, AlphaMode::Opaque);
    assert_eq!(quads.label, "quads");
    assert_eq!(quads.vertex_entry, "vs_quad");
    assert_eq!(quads.fragment_entry, "fs_quad");
    assert_eq!((quads.topology, quads.blend, quads.sample_count), (
        Topology::TriangleStrip,
        Blend::Alpha,
        1
    ));
    let premultiplied = pipeline_setup(PipelineKind::Shadows, AlphaMode::PreMultiplied);
    assert_eq!(premultiplied.blend, Blend::Premultiplied);
    let paths = pipeline_setup(PipelineKind::PathRasterization, AlphaMode::Opaque);
    assert_eq!((paths.topology, paths.blend, paths.sample_count), (
        Topology::TriangleList,
        Blend::Premultiplied,
        4
    ));
    let copied = pipeline_setup(PipelineKind::Paths, AlphaMode::PreMultiplied);
    assert_eq!(copied.blend, Blend::OverAdditive);
    assert_eq!(pipeline_setup(PipelineKind::PolySprites, AlphaMode::Opaque).label, "poly-sprites");
}

#[test]
fn shaders_are_bound_to_their_data() {
    assert_eq!(bindings(PipelineKind::Quads), vec![(0, Resource::Globals), (5, Resource::Instances)]);
    assert_eq!(bindings(PipelineKind::Shadows)[1], (6, Resource::Instances));
    assert_eq!(
        bindings(PipelineKind::PathRasterization),
        vec![(0, Resource::PathRasterizationGlobals), (7, Resource::Instances)]
    );
    assert_eq!(bindings(PipelineKind::Paths)[3], (8, Resource::Instances));
    assert_eq!(bindings(PipelineKind::Underlines)[1], (9, Resource::Instances));
    assert_eq!(
        bindings(PipelineKind::MonoSprites),
        vec![
            (0, Resource::Globals),
            (1, Resource::GammaRatios),
            (2, Resource::GrayscaleEnhancedContrast),
            (3, Resource::AtlasTexture),
            (4, Resource::AtlasSampler),
            (10, Resource::Instances),
        ]
    );
    assert_eq!(bindings(PipelineKind::PolySprites)[3], (11, Resource::Instances));
}

#[test]
fn uploads_are_aligned_and_apart() {
    let mut buffer = InstanceBuffer::new();
    assert_eq!(buffer.upload(256, 100), Upload { offset: 0, size: 100, grown: None });
    assert_eq!(buffer.upload(256, 100), Upload { offset: 256, size: 100, grown: None });
    assert_eq!(buffer.upload(0, 4), Upload { offset: 356, size: 4, grown: None });
    assert_eq!(buffer.offset, 360);
}

#[test]
fn a_buffer_grows_by_doubling() {
    let mut buffer = InstanceBuffer::new();
    buffer.upload(256, 4000);
    assert_eq!(buffer.upload(256, 1), Upload { offset: 0, size: 1, grown: Some(8192) });
    assert_eq!(buffer.upload(256, 40000), Upload { offset: 0, size: 40000, grown: Some(65536) });
    assert_eq!(buffer, InstanceBuffer { capacity: 65536, offset: 40000 });
}

#[test]
fn batches_are_drawn_in_order_from_their_buffers() {
    let mut buffers = InstanceBuffers::new();
    let batches = vec![
        Batch::Quads { count: 2, bytes: 400 },
        Batch::Shadows { count: 0, bytes: 0 },
        Batch::MonochromeSprites { texture: texture(3), count: 5, bytes: 300 },
        Batch::Quads { count: 1, bytes: 200 },
        Batch::Surfaces { count: 2 },
    ];
    let commands = plan_frame(&batches, LAYOUT, 256, &mut buffers);
    assert_eq!(
        commands,
        vec![
            Command::Draw {
                pipeline: PipelineKind::Quads,
                texture: None,
                upload: Upload { offset: 0, size: 400, grown: None },
                instances: 2,
            },
            Command::Draw {
                pipeline: PipelineKind::MonoSprites,
                texture: Some(texture(3)),
                upload: Upload { offset: 0, size: 300, grown: None },
                instances: 5,
            },
            Command::Draw {
                pipeline: PipelineKind::Quads,
                texture: None,
                upload: Upload { offset: 512, size: 200, grown: None },
                instances: 1,
            },
            Command::ReportSurfaces(2),
        ]
    );
    assert_eq!(buffers.quads.offset, 712);
    assert_eq!(plan_frame(&batches, LAYOUT, 256, &mut buffers), commands);
}

#[test]
fn paths_interrupt_the_pass_of_the_frame() {
    let mut buffers = InstanceBuffers::new();
    let same = vec![PathShape { order: 1, vertices: 3 }, PathShape { order: 1, vertices: 6 }];
    let mixed = vec![PathShape { order: 1, vertices: 0 }, PathShape { order: 2, vertices: 0 }];
    let batches = vec![Batch::Paths(same), Batch::Paths(Vec::new()), Batch::Paths(mixed)];
    assert_eq!(
        plan_frame(&batches, LAYOUT, 256, &mut buffers),
        vec![
            Command::SuspendFrame,
            Command::RasterizePaths {
                upload: Upload { offset: 0, size: 900, grown: None },
                vertices: 9,
            },
            Command::ResumeFrame,
            Command::CopyPaths {
                copies: PathCopies::Each,
                upload: Upload { offset: 0, size: 32, grown: None },
                instances: 2,
            },
            Command::SuspendFrame,
            Command::ResumeFrame,
            Command::CopyPaths {
                copies: PathCopies::Spanning,
                upload: Upload { offset: 256, size: 16, grown: None },
                instances: 1,
            },
        ]
    );
}

#[test]
fn growing_settles_after_some_frames() {
    let mut buffers = InstanceBuffers::new();
    let batches: Vec<Batch> = (0..20).map(|_| Batch::Underlines { count: 1, bytes: 1000 }).collect();
    let grows = |commands: &Vec<Command>| {
        commands.iter().any(|command| {
            matches!(command, Command::Draw { upload: Upload { grown: Some(_), .. }, .. })
        })
    };
    let mut frames = 0;
    while grows(&plan_frame(&batches, LAYOUT, 256, &mut buffers)) {
        frames += 1;
    }
    assert!(frames <= 3);
    assert_eq!(buffers.underlines.capacity, 32768);
}
