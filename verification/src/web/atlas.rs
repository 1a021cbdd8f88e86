//! Sprites packed into textures. A texture keeps its tiles apart for as long as it lives;
//! it is given up, and its number free for another one, when the last of its tiles is
//! removed.

use etagere::BucketedAtlasAllocator;
use std::collections::HashMap;
use vstd::prelude::*;
use vstd::std_specs::hash::*;

verus! {

broadcast use group_hash_axioms;

/// `etagere::BucketedAtlasAllocator`, which finds places for rectangles in a larger one.
#[verifier::external_type_specification]
#[verifier::external_body]
pub struct ExBucketedAtlasAllocator(BucketedAtlasAllocator);

/// The rectangles that an allocator has handed out, by their number: left, top, right and
/// bottom.
pub uninterp spec fn placed(allocator: BucketedAtlasAllocator) -> Map<u32, (int, int, int, int)>;

/// The width and height that `new_allocator` made an allocator with.
pub uninterp spec fn extent(allocator: BucketedAtlasAllocator) -> (int, int);

/// What an allocator answers when it is next asked for a rectangle of this width and
/// height: a number and a rectangle, or nothing.
pub uninterp spec fn vacancy(allocator: BucketedAtlasAllocator, width: int, height: int) -> Option<
    (u32, (int, int, int, int)),
>;

/// Whether two rectangles have no point in common.
pub open spec fn apart(a: (int, int, int, int), b: (int, int, int, int)) -> bool {
    a.2 <= b.0 || b.2 <= a.0 || a.3 <= b.1 || b.3 <= a.1
}

/// The largest height that an allocator can be asked for.
pub const MAX_TILE_HEIGHT: i32 = 65472;

/// Whether an allocator can have this width and height: below what 16 bits count, and with
/// an area that 32 bits count.
pub open spec fn is_extent(width: int, height: int) -> bool {
    0 < width < 65535 && 0 < height < 65535 && width * height <= i32::MAX
}

/// A rectangle as an allocator hands it out.
#[derive(Clone, Copy, Debug, PartialEq, Eq, Structural)]
pub struct Placement {
    pub id: u32,
    pub left: i32,
    pub top: i32,
    pub right: i32,
    pub bottom: i32,
}

impl Placement {
    pub open spec fn area(self) -> (int, int, int, int) {
        (self.left as int, self.top as int, self.right as int, self.bottom as int)
    }
}

/// `BucketedAtlasAllocator::new`: an allocator of the given size that has handed out
/// nothing.
#[verifier::external_body]
fn new_allocator(width: i32, height: i32) -> (allocator: BucketedAtlasAllocator)
    requires
        is_extent(width as int, height as int),
    ensures
        extent(allocator) == (width as int, height as int),
        placed(allocator).is_empty(),
{
    BucketedAtlasAllocator::new(etagere::Size::new(width, height))
}

/// `BucketedAtlasAllocator::allocate`: a rectangle of exactly the width asked for, at
/// least as high as asked for, inside the allocator's extent and apart from every rectangle
/// handed out before, under a number of its own; or nothing, and the allocator stays as it
/// is. There is nothing for what is empty or larger than the extent, and something for
/// whatever else is asked of an allocator that has handed out nothing. Where a used
/// allocator still has a place, its layout decides, of which only `vacancy` speaks.
/// Allocators come from `new_allocator`, and what they hand out is never given back to them.
#[verifier::external_body]
fn allocate(allocator: &mut BucketedAtlasAllocator, width: i32, height: i32) -> (placement: Option<
    Placement,
>)
    requires
        is_extent(extent(*old(allocator)).0, extent(*old(allocator)).1),
        height <= MAX_TILE_HEIGHT,
    ensures
        extent(*final(allocator)) == extent(*old(allocator)),
        match placement {
            Some(placement) => vacancy(*old(allocator), width as int, height as int) == Some(
                (placement.id, placement.area()),
            ) && !placed(*old(allocator)).contains_key(placement.id) && placed(*final(allocator))
                == placed(*old(allocator)).insert(placement.id, placement.area()) && 0
                <= placement.left && placement.right - placement.left == width && placement.right
                <= extent(*old(allocator)).0 && 0 <= placement.top && placement.bottom
                - placement.top >= height && placement.bottom <= extent(*old(allocator)).1 && (
            forall|id: u32| #[trigger]
                placed(*old(allocator)).contains_key(id) ==> apart(
                    placed(*old(allocator))[id],
                    placement.area(),
                )),
            None => vacancy(*old(allocator), width as int, height as int) is None
                && *final(allocator) == *old(allocator),
        },
        width < 1 || height < 1 || width > extent(*old(allocator)).0 || height > extent(
            *old(allocator),
        ).1 ==> placement is None,
        placed(*old(allocator)).is_empty() && 1 <= width <= extent(*old(allocator)).0 && 1
            <= height <= extent(*old(allocator)).1 ==> placement is Some,
{
    let allocation = allocator.allocate(etagere::Size::new(width, height))?;
    Some(
        Placement {
            id: allocation.id.serialize(),
            left: allocation.rectangle.min.x,
            top: allocation.rectangle.min.y,
            right: allocation.rectangle.max.x,
            bottom: allocation.rectangle.max.y,
        },
    )
}

/// What a texture holds: coverage, or colours.
#[derive(Clone, Copy, Debug, PartialEq, Eq, Structural)]
pub enum TextureKind {
    Monochrome,
    Polychrome,
}

/// The number of a texture among those of its kind.
#[derive(Clone, Copy, Debug, PartialEq, Eq, Structural)]
pub struct TextureId {
    pub index: u32,
    pub kind: TextureKind,
}

/// A format of pixels.
#[derive(Clone, Copy, Debug, PartialEq, Eq, Structural)]
pub enum PixelFormat {
    R8Unorm,
    Bgra8Unorm,
}

/// Where a sprite lies.
#[derive(Clone, Copy, Debug, PartialEq, Eq, Structural)]
pub struct Tile {
    pub texture: TextureId,
    pub tile_id: u32,
    pub x: i32,
    pub y: i32,
    pub width: i32,
    pub height: i32,
}

impl Tile {
    pub open spec fn area(self) -> (int, int, int, int) {
        (self.x as int, self.y as int, self.x + self.width, self.y + self.height)
    }
}

/// A texture that must be made before a tile of it can be filled.
#[derive(Clone, Copy, Debug, PartialEq, Eq, Structural)]
pub struct NewTexture {
    pub id: TextureId,
    pub width: i32,
    pub height: i32,
    pub format: PixelFormat,
}

/// The pixels that a tile is filled with.
#[derive(Clone, Copy, Debug, PartialEq, Eq, Structural)]
pub struct TileUpload {
    pub x: u32,
    pub y: u32,
    pub width: u32,
    pub height: u32,
    pub bytes_per_row: u32,
}

/// The side of a texture, unless a sprite asks for more.
pub const DEFAULT_ATLAS_SIZE: i32 = 1024;

/// The format of a texture's pixels: the shaders work in encoded values, so that nothing
/// is converted.
#[verifier::allow_in_spec]
pub fn pixel_format(kind: TextureKind) -> PixelFormat
    returns
        (match kind {
            TextureKind::Monochrome => PixelFormat::R8Unorm,
            TextureKind::Polychrome => PixelFormat::Bgra8Unorm,
        }),
{
    match kind {
        TextureKind::Monochrome => PixelFormat::R8Unorm,
        TextureKind::Polychrome => PixelFormat::Bgra8Unorm,
    }
}

/// How many bytes a pixel takes.
pub fn bytes_per_pixel(format: PixelFormat) -> (bytes: u32)
    ensures
        bytes == match format {
            PixelFormat::R8Unorm => 1u32,
            PixelFormat::Bgra8Unorm => 4u32,
        },
{
    match format {
        PixelFormat::R8Unorm => 1,
        PixelFormat::Bgra8Unorm => 4,
    }
}

/// The larger of two sides.
pub open spec fn at_least(side: int, least: int) -> int {
    if side < least {
        least
    } else {
        side
    }
}

/// Whether a sprite can be packed: it is not empty, and a texture can be as large as it
/// asks for.
pub open spec fn packable(width: int, height: int) -> bool {
    0 < width && 0 < height <= MAX_TILE_HEIGHT && is_extent(
        at_least(width, DEFAULT_ATLAS_SIZE as int),
        at_least(height, DEFAULT_ATLAS_SIZE as int),
    )
}

/// Whether a sprite can be packed.
pub fn can_pack(width: i32, height: i32) -> (can: bool)
    ensures
        can == packable(width as int, height as int),
{
    let texture_width: i64 = if width < DEFAULT_ATLAS_SIZE {
        DEFAULT_ATLAS_SIZE as i64
    } else {
        width as i64
    };
    let texture_height: i64 = if height < DEFAULT_ATLAS_SIZE {
        DEFAULT_ATLAS_SIZE as i64
    } else {
        height as i64
    };
    if width <= 0 || height <= 0 || height > MAX_TILE_HEIGHT || texture_width >= 65535 {
        return false;
    }
    assert(0 <= texture_width * texture_height <= 65535 * 65535) by (nonlinear_arith)
        requires
            0 < texture_width < 65535,
            0 < texture_height < 65535,
    ;
    texture_width * texture_height <= i32::MAX as i64
}

/// A texture: the places in it, and how many tiles of it are in use.
pub struct AtlasTexture {
    id: TextureId,
    allocator: BucketedAtlasAllocator,
    live_atlas_keys: u32,
}

impl AtlasTexture {
    pub closed spec fn number(self) -> TextureId {
        self.id
    }

    pub closed spec fn live(self) -> nat {
        self.live_atlas_keys as nat
    }

    pub closed spec fn placed(self) -> Map<u32, (int, int, int, int)> {
        placed(self.allocator)
    }

    pub closed spec fn extent(self) -> (int, int) {
        extent(self.allocator)
    }

    /// What a tile of this size would get.
    pub closed spec fn vacancy(self, width: int, height: int) -> Option<
        (u32, (int, int, int, int)),
    > {
        vacancy(self.allocator, width, height)
    }

    /// All places are inside the texture and apart from one another.
    pub open spec fn wf(self) -> bool {
        &&& is_extent(self.extent().0, self.extent().1)
        &&& forall|id: u32| #[trigger]
            self.placed().contains_key(id) ==> {
                let area = self.placed()[id];
                0 <= area.0 < area.2 <= self.extent().0 && 0 <= area.1 < area.3
                    <= self.extent().1
            }
        &&& forall|a: u32, b: u32|
            #![trigger self.placed().contains_key(a), self.placed().contains_key(b)]
            self.placed().contains_key(a) && self.placed().contains_key(b) && a != b ==> apart(
                self.placed()[a],
                self.placed()[b],
            )
    }

    /// Whether a tile lies in one of the places of this texture.
    pub open spec fn holds(self, tile: Tile) -> bool {
        &&& tile.texture == self.number()
        &&& self.placed().contains_key(tile.tile_id)
        &&& tile.width >= 1
        &&& tile.height >= 1
        &&& {
            let area = self.placed()[tile.tile_id];
            area.0 == tile.x && area.1 == tile.y && area.2 == tile.x + tile.width && area.3
                >= tile.y + tile.height
        }
    }

    /// Whether this texture becomes `after` by handing out a tile.
    pub open spec fn hands_out(self, tile: Tile, after: AtlasTexture) -> bool {
        &&& after.number() == self.number()
        &&& after.extent() == self.extent()
        &&& after.live() == self.live() + 1
        &&& !self.placed().contains_key(tile.tile_id)
        &&& after.placed().contains_key(tile.tile_id)
        &&& after.placed() == self.placed().insert(tile.tile_id, after.placed()[tile.tile_id])
        &&& after.holds(tile)
    }

    /// An empty texture.
    fn new(id: TextureId, width: i32, height: i32) -> (texture: AtlasTexture)
        requires
            is_extent(width as int, height as int),
        ensures
            texture.wf(),
            texture.number() == id,
            texture.live() == 0,
            texture.placed().is_empty(),
            texture.extent() == (width as int, height as int),
    {
        AtlasTexture { id, allocator: new_allocator(width, height), live_atlas_keys: 0 }
    }

    /// Finds a place for a tile.
    fn allocate(&mut self, width: i32, height: i32) -> (tile: Option<Tile>)
        requires
            old(self).wf(),
            height <= MAX_TILE_HEIGHT,
            old(self).live() < u32::MAX,
            1 <= width,
            1 <= height,
        ensures
            final(self).wf(),
            match tile {
                Some(tile) => tile.width == width && tile.height == height && old(
                    self,
                ).hands_out(tile, *final(self)) && (old(self).vacancy(
                    width as int,
                    height as int,
                ) matches Some((id, area)) && id == tile.tile_id && area.0 == tile.x && area.1
                    == tile.y),
                None => *final(self) == *old(self) && old(self).vacancy(
                    width as int,
                    height as int,
                ) is None,
            },
            old(self).placed().is_empty() && width <= old(self).extent().0 && height <= old(
                self,
            ).extent().1 ==> tile is Some,
    {
        let ghost before = *self;
        match allocate(&mut self.allocator, width, height) {
            Some(placement) => {
                self.live_atlas_keys = self.live_atlas_keys + 1;
                assert(self.placed() == before.placed().insert(placement.id, placement.area()));
                Some(
                    Tile {
                        texture: self.id,
                        tile_id: placement.id,
                        x: placement.left,
                        y: placement.top,
                        width,
                        height,
                    },
                )
            },
            None => None,
        }
    }
}

/// The textures of one kind. A slot without a texture is on the free list.
pub struct TextureList {
    pub textures: Vec<Option<AtlasTexture>>,
    pub free_list: Vec<usize>,
}

/// The last texture below `end` that has a place for a tile of this size.
pub open spec fn last_fit(
    textures: Seq<Option<AtlasTexture>>,
    width: int,
    height: int,
    end: int,
) -> Option<int>
    decreases end,
{
    if end <= 0 {
        None
    } else {
        match textures[end - 1] {
            Some(texture) if texture.vacancy(width, height) is Some => Some(end - 1),
            _ => last_fit(textures, width, height, end - 1),
        }
    }
}

impl TextureList {
    pub open spec fn wf(self, kind: TextureKind) -> bool {
        &&& self.textures@.len() <= u32::MAX
        &&& forall|i: int|
            0 <= i < self.textures@.len() ==> (#[trigger] self.textures@[i] matches Some(texture)
                ==> texture.wf() && texture.number() == (TextureId { index: i as u32, kind }))
        &&& forall|j: int|
            0 <= j < self.free_list@.len() ==> (#[trigger] self.free_list@[j])
                < self.textures@.len() && self.textures@[self.free_list@[j] as int] is None
        &&& forall|j: int, k: int|
            0 <= j < k < self.free_list@.len() ==> self.free_list@[j] != self.free_list@[k]
    }

    /// The slot that the next new texture gets.
    pub open spec fn next_slot(self) -> int {
        if self.free_list@.len() > 0 {
            self.free_list@.last() as int
        } else {
            self.textures@.len() as int
        }
    }

    /// The texture with the given number.
    pub open spec fn texture(self, index: int) -> Option<AtlasTexture> {
        if 0 <= index < self.textures@.len() {
            self.textures@[index]
        } else {
            None
        }
    }

    pub open spec fn fit(self, width: int, height: int) -> Option<int> {
        last_fit(self.textures@, width, height, self.textures@.len() as int)
    }

    pub fn new() -> (list: TextureList)
        ensures
            list.textures@.len() == 0,
            list.free_list@.len() == 0,
            forall|kind: TextureKind| list.wf(kind),
    {
        TextureList { textures: Vec::new(), free_list: Vec::new() }
    }

    /// Asks the textures for a place, the youngest slot first.
    fn allocate_existing(&mut self, kind: TextureKind, width: i32, height: i32) -> (tile: Option<
        Tile,
    >)
        requires
            old(self).wf(kind),
            1 <= width,
            1 <= height <= MAX_TILE_HEIGHT,
            forall|i: int|
                0 <= i < old(self).textures@.len() ==> (#[trigger] old(self).textures@[i] matches Some(
                    texture,
                ) ==> texture.live() < u32::MAX),
        ensures
            final(self).wf(kind),
            final(self).free_list@ == old(self).free_list@,
            match tile {
                Some(tile) => {
                    let index = old(self).fit(width as int, height as int)->0;
                    &&& old(self).fit(width as int, height as int) is Some
                    &&& 0 <= index < old(self).textures@.len()
                    &&& old(self).textures@[index] is Some
                    &&& final(self).textures@.len() == old(self).textures@.len()
                    &&& final(self).textures@[index] is Some
                    &&& old(self).textures@[index]->0.hands_out(
                        tile,
                        final(self).textures@[index]->0,
                    )
                    &&& final(self).textures@ == old(self).textures@.update(
                        index,
                        final(self).textures@[index],
                    )
                    &&& tile.width == width
                    &&& tile.height == height
                },
                None => old(self).fit(width as int, height as int) is None
                    && final(self).textures@ == old(self).textures@,
            },
    {
        let mut index: usize = self.textures.len();
        while index > 0
            invariant
                index <= self.textures@.len(),
                1 <= width,
                1 <= height <= MAX_TILE_HEIGHT,
                self.wf(kind),
                self.textures@ == old(self).textures@,
                self.free_list@ == old(self).free_list@,
                self.textures@.len() == old(self).textures@.len(),
                forall|i: int|
                    0 <= i < old(self).textures@.len() ==> (#[trigger] old(
                        self,
                    ).textures@[i] matches Some(texture) ==> texture.live() < u32::MAX),
                old(self).fit(width as int, height as int) == last_fit(
                    old(self).textures@,
                    width as int,
                    height as int,
                    index as int,
                ),
            decreases index,
        {
            index -= 1;
            assert(old(self).textures@[index as int] == self.textures@[index as int]);
            let mut found: Option<Tile> = None;
            if let Some(texture) = &mut self.textures[index] {
                found = texture.allocate(width, height);
            }
            assert(self.textures@ =~= old(self).textures@.update(
                index as int,
                self.textures@[index as int],
            ));
            if found.is_some() {
                assert forall|j: int| 0 <= j < self.free_list@.len() implies (
                #[trigger] self.free_list@[j]) < self.textures@.len()
                    && self.textures@[self.free_list@[j] as int] is None by {
                    assert(old(self).textures@[old(self).free_list@[j] as int] is None);
                }
                return found;
            }
            assert(self.textures@ =~= old(self).textures@);
        }
        None
    }

    /// Makes a new texture, in a free slot where there is one, and finds a place for a
    /// tile in it.
    fn push_texture(&mut self, kind: TextureKind, width: i32, height: i32) -> (made: (
        Tile,
        NewTexture,
    ))
        requires
            old(self).wf(kind),
            old(self).textures@.len() < u32::MAX,
            packable(width as int, height as int),
        ensures
            final(self).wf(kind),
            ({
                let slot = old(self).next_slot();
                let (tile, created) = made;
                &&& created.id == (TextureId { index: slot as u32, kind })
                &&& created.width == at_least(width as int, DEFAULT_ATLAS_SIZE as int)
                &&& created.height == at_least(height as int, DEFAULT_ATLAS_SIZE as int)
                &&& created.format == pixel_format(kind)
                &&& tile.width == width
                &&& tile.height == height
                &&& 0 <= slot < final(self).textures@.len() <= u32::MAX
                &&& final(self).textures@[slot] is Some
                &&& final(self).textures@[slot]->0.holds(tile)
                &&& final(self).textures@[slot]->0.live() == 1
                &&& final(self).textures@[slot]->0.extent() == (
                    created.width as int,
                    created.height as int,
                )
                &&& old(self).free_list@.len() > 0 ==> final(self).textures@ == old(
                    self,
                ).textures@.update(slot, final(self).textures@[slot]) && final(self).free_list@
                    == old(self).free_list@.drop_last()
                &&& old(self).free_list@.len() == 0 ==> final(self).textures@ == old(
                    self,
                ).textures@.push(final(self).textures@[slot]) && final(self).free_list@ == old(
                    self,
                ).free_list@
            }),
    {
        let texture_width: i32 = if width < DEFAULT_ATLAS_SIZE {
            DEFAULT_ATLAS_SIZE
        } else {
            width
        };
        let texture_height: i32 = if height < DEFAULT_ATLAS_SIZE {
            DEFAULT_ATLAS_SIZE
        } else {
            height
        };
        let slot: usize = match self.free_list.pop() {
            Some(slot) => slot,
            None => self.textures.len(),
        };
        let id = TextureId { index: slot as u32, kind };
        let mut texture = AtlasTexture::new(id, texture_width, texture_height);
        let tile = texture.allocate(width, height).unwrap();
        if slot < self.textures.len() {
            self.textures.set(slot, Some(texture));
        } else {
            self.textures.push(Some(texture));
        }
        (
            tile,
            NewTexture { id, width: texture_width, height: texture_height, format: pixel_format(kind) },
        )
    }

    /// A tile of a texture is no longer in use. The texture goes with its last tile, and
    /// its slot is free. Tells whether it went.
    fn release(&mut self, kind: TextureKind, index: usize) -> (freed: bool)
        requires
            old(self).wf(kind),
            index < old(self).textures@.len(),
            old(self).textures@[index as int] matches Some(texture) && texture.live() > 0,
        ensures
            final(self).wf(kind),
            ({
                let before = old(self).textures@[index as int]->0;
                &&& freed == (before.live() == 1)
                &&& freed ==> final(self).textures@ == old(self).textures@.update(
                    index as int,
                    None,
                ) && final(self).free_list@ == old(self).free_list@.push(index)
                &&& !freed ==> final(self).free_list@ == old(self).free_list@
                    && final(self).textures@.len() == old(self).textures@.len() && (
                final(self).textures@[index as int] matches Some(after) && after.number() == before.number()
                    && after.placed() == before.placed() && after.extent() == before.extent()
                    && after.live() == before.live() - 1) && final(self).textures@ == old(
                    self,
                ).textures@.update(index as int, final(self).textures@[index as int])
            }),
    {
        let mut freed = false;
        if let Some(texture) = &mut self.textures[index] {
            texture.live_atlas_keys = texture.live_atlas_keys - 1;
            freed = texture.live_atlas_keys == 0;
        }
        assert(self.textures@ =~= old(self).textures@.update(
            index as int,
            self.textures@[index as int],
        ));
        assert forall|j: int| 0 <= j < old(self).free_list@.len() implies old(
            self,
        ).free_list@[j] != index by {
            assert(old(self).textures@[old(self).free_list@[j] as int] is None);
        }
        if freed {
            self.textures.set(index, None);
            self.free_list.push(index);
        }
        proof {
            let before = old(self).textures@[index as int]->0;
            assert(before.wf());
            if !freed {
                let after = self.textures@[index as int]->0;
                assert(after.placed() == before.placed());
                assert(after.extent() == before.extent());
                assert(after.wf());
            }
            assert forall|j: int| 0 <= j < self.free_list@.len() implies (
            #[trigger] self.free_list@[j]) < self.textures@.len()
                && self.textures@[self.free_list@[j] as int] is None by {
                if j < old(self).free_list@.len() {
                    assert(old(self).textures@[old(self).free_list@[j] as int] is None);
                }
            }
        }
        freed
    }
}

/// The keys whose tiles lie in a texture.
pub open spec fn users(tiles: Map<u64, Tile>, id: TextureId) -> Set<u64> {
    tiles.dom().filter(|key: u64| tiles[key].texture == id)
}

/// One more key uses a texture.
proof fn lemma_users_insert(tiles: Map<u64, Tile>, key: u64, tile: Tile, id: TextureId)
    requires
        tiles.dom().finite(),
        !tiles.contains_key(key),
    ensures
        users(tiles.insert(key, tile), id).len() == users(tiles, id).len() + if tile.texture
            == id {
            1int
        } else {
            0int
        },
        users(tiles, id).len() <= tiles.dom().len(),
{
    tiles.dom().lemma_len_filter(|key: u64| tiles[key].texture == id);
    let after = users(tiles.insert(key, tile), id);
    if tile.texture == id {
        assert(after =~= users(tiles, id).insert(key));
    } else {
        assert(after =~= users(tiles, id));
    }
}

/// One key less uses a texture.
proof fn lemma_users_remove(tiles: Map<u64, Tile>, key: u64, id: TextureId)
    requires
        tiles.dom().finite(),
        tiles.contains_key(key),
    ensures
        users(tiles.remove(key), id).len() == users(tiles, id).len() - if tiles[key].texture
            == id {
            1int
        } else {
            0int
        },
        tiles[key].texture == id ==> users(tiles, id).len() > 0,
{
    tiles.dom().lemma_len_filter(|key: u64| tiles[key].texture == id);
    let after = users(tiles.remove(key), id);
    if tiles[key].texture == id {
        assert(users(tiles, id).contains(key));
        assert(after =~= users(tiles, id).remove(key));
    } else {
        assert(after =~= users(tiles, id));
    }
}

/// The sprites of a renderer, by the number of their key.
pub struct WebGpuAtlas {
    monochrome: TextureList,
    polychrome: TextureList,
    tiles_by_key: HashMap<u64, Tile>,
}

impl WebGpuAtlas {
    pub closed spec fn list(self, kind: TextureKind) -> TextureList {
        match kind {
            TextureKind::Monochrome => self.monochrome,
            TextureKind::Polychrome => self.polychrome,
        }
    }

    pub closed spec fn tiles(self) -> Map<u64, Tile> {
        self.tiles_by_key@
    }

    /// The texture with the given number, where there is one.
    pub open spec fn texture(self, id: TextureId) -> Option<AtlasTexture> {
        self.list(id.kind).texture(id.index as int)
    }

    /// Every tile lies in a place of a texture, no two tiles in the same place, and every
    /// texture counts its tiles.
    pub open spec fn wf(self) -> bool {
        &&& self.list(TextureKind::Monochrome).wf(TextureKind::Monochrome)
        &&& self.list(TextureKind::Polychrome).wf(TextureKind::Polychrome)
        &&& self.tiles().dom().finite()
        &&& forall|key: u64| #[trigger]
            self.tiles().contains_key(key) ==> (self.texture(
                self.tiles()[key].texture,
            ) matches Some(texture) && texture.holds(self.tiles()[key]))
        &&& forall|a: u64, b: u64|
            #![trigger self.tiles().contains_key(a), self.tiles().contains_key(b)]
            self.tiles().contains_key(a) && self.tiles().contains_key(b) && a != b
                && self.tiles()[a].texture == self.tiles()[b].texture
                ==> self.tiles()[a].tile_id != self.tiles()[b].tile_id
        &&& forall|id: TextureId|
            #![trigger self.texture(id)]
            self.texture(id) matches Some(texture) ==> texture.live() == users(
                self.tiles(),
                id,
            ).len() && texture.live() > 0
    }

    /// An atlas without a texture.
    pub fn new() -> (atlas: WebGpuAtlas)
        ensures
            atlas.wf(),
            atlas.tiles().is_empty(),
            forall|id: TextureId| #[trigger] atlas.texture(id) is None,
    {
        WebGpuAtlas {
            monochrome: TextureList::new(),
            polychrome: TextureList::new(),
            tiles_by_key: HashMap::new(),
        }
    }

    /// The tile of a key that has one.
    pub fn get(&self, key: u64) -> (tile: Option<Tile>)
        ensures
            tile == if self.tiles().contains_key(key) {
                Some(self.tiles()[key])
            } else {
                None
            },
    {
        match self.tiles_by_key.get(&key) {
            Some(tile) => Some(*tile),
            None => None,
        }
    }

    /// Whether the sprite of a key can be given a tile.
    pub fn can_insert(&self, key: u64, kind: TextureKind, width: i32, height: i32) -> (can: bool)
        ensures
            can == (!self.tiles().contains_key(key) && packable(width as int, height as int)
                && self.tiles().dom().len() < u32::MAX && self.list(kind).textures@.len()
                < u32::MAX),
    {
        let textures: usize = match kind {
            TextureKind::Monochrome => self.monochrome.textures.len(),
            TextureKind::Polychrome => self.polychrome.textures.len(),
        };
        !self.tiles_by_key.contains_key(&key) && can_pack(width, height)
            && self.tiles_by_key.len() < u32::MAX as usize && textures < u32::MAX as usize
    }

    /// Makes room for the sprite of a key that has no tile yet: in the last texture of its
    /// kind that has a place, else in a new one, which is as large as the sprite and at
    /// least `DEFAULT_ATLAS_SIZE`.
    pub fn insert(&mut self, key: u64, kind: TextureKind, width: i32, height: i32) -> (inserted: (
        Tile,
        Option<NewTexture>,
    ))
        requires
            old(self).wf(),
            !old(self).tiles().contains_key(key),
            packable(width as int, height as int),
            old(self).tiles().dom().len() < u32::MAX,
            old(self).list(kind).textures@.len() < u32::MAX,
        ensures
            final(self).wf(),
            final(self).tiles() == old(self).tiles().insert(key, inserted.0),
            inserted.0.texture.kind == kind,
            inserted.0.width == width,
            inserted.0.height == height,
            match inserted.1 {
                None => old(self).list(kind).fit(width as int, height as int) == Some(
                    inserted.0.texture.index as int,
                ),
                Some(created) => old(self).list(kind).fit(width as int, height as int) is None
                    && created.id == inserted.0.texture && created.id.index == old(self).list(
                    kind,
                ).next_slot() && created.width == at_least(
                    width as int,
                    DEFAULT_ATLAS_SIZE as int,
                ) && created.height == at_least(height as int, DEFAULT_ATLAS_SIZE as int)
                    && created.format == pixel_format(kind) && old(self).texture(created.id) is None,
            },
            forall|id: TextureId|
                id != inserted.0.texture ==> #[trigger] final(self).texture(id) == old(
                    self,
                ).texture(id),
    {
        let ghost before = *self;
        let ghost other = if kind == TextureKind::Monochrome {
            TextureKind::Polychrome
        } else {
            TextureKind::Monochrome
        };
        proof {
            assert forall|i: int| 0 <= i < before.list(kind).textures@.len() implies (
            #[trigger] before.list(kind).textures@[i] matches Some(texture) ==> texture.live()
                < u32::MAX) by {
                let id = TextureId { index: i as u32, kind };
                assert(before.texture(id) == before.list(kind).textures@[i]);
                if before.texture(id) is Some {
                    before.tiles().dom().lemma_len_filter(
                        |key: u64| before.tiles()[key].texture == id,
                    );
                }
            }
        }
        let found = match kind {
            TextureKind::Monochrome => self.monochrome.allocate_existing(kind, width, height),
            TextureKind::Polychrome => self.polychrome.allocate_existing(kind, width, height),
        };
        let (tile, created) = match found {
            Some(tile) => (tile, None),
            None => {
                let (tile, created) = match kind {
                    TextureKind::Monochrome => self.monochrome.push_texture(kind, width, height),
                    TextureKind::Polychrome => self.polychrome.push_texture(kind, width, height),
                };
                (tile, Some(created))
            },
        };
        self.tiles_by_key.insert(key, tile);
        proof {
            assert(self.tiles() == before.tiles().insert(key, tile));
            assert(self.list(other) == before.list(other));
            lemma_inserted(before, *self, key, tile, created is Some);
        }
        (tile, created)
    }

    /// Removes a key. Where its tile was the last one of its texture, the texture goes too,
    /// and is returned for the caller to destroy.
    pub fn remove(&mut self, key: u64) -> (freed: Option<TextureId>)
        requires
            old(self).wf(),
        ensures
            final(self).wf(),
            final(self).tiles() == old(self).tiles().remove(key),
            match freed {
                Some(id) => old(self).tiles().contains_key(key) && old(self).tiles()[key].texture
                    == id && users(final(self).tiles(), id).len() == 0 && final(self).texture(id)
                    is None && final(self).list(id.kind).next_slot() == id.index,
                None => old(self).tiles().contains_key(key) ==> users(
                    final(self).tiles(),
                    old(self).tiles()[key].texture,
                ).len() > 0,
            },
            forall|id: TextureId|
                (!old(self).tiles().contains_key(key) || id != old(self).tiles()[key].texture)
                    ==> #[trigger] final(self).texture(id) == old(self).texture(id),
    {
        let ghost before = *self;
        let tile = match self.tiles_by_key.remove(&key) {
            Some(tile) => tile,
            None => {
                proof {
                    assert(self.tiles() =~= before.tiles());
                    assert(self.tiles() =~= before.tiles().remove(key));
                    assert(self.list(TextureKind::Monochrome) == before.list(
                        TextureKind::Monochrome,
                    ));
                    assert(self.list(TextureKind::Polychrome) == before.list(
                        TextureKind::Polychrome,
                    ));
                    assert forall|id: TextureId| #[trigger]
                        self.texture(id) == before.texture(id) by {}
                    assert(self.wf());
                }
                return None;
            },
        };
        let ghost id = tile.texture;
        proof {
            assert(before.tiles()[key] == tile);
            assert(before.texture(id) is Some);
            lemma_users_remove(before.tiles(), key, id);
        }
        let freed = match tile.texture.kind {
            TextureKind::Monochrome => self.monochrome.release(
                tile.texture.kind,
                tile.texture.index as usize,
            ),
            TextureKind::Polychrome => self.polychrome.release(
                tile.texture.kind,
                tile.texture.index as usize,
            ),
        };
        proof {
            lemma_removed(before, *self, key, freed);
        }
        if freed {
            Some(tile.texture)
        } else {
            None
        }
    }
}

/// An atlas stays well formed as a key gets a tile.
proof fn lemma_inserted(
    before: WebGpuAtlas,
    after: WebGpuAtlas,
    key: u64,
    tile: Tile,
    created: bool,
)
    requires
        before.wf(),
        !before.tiles().contains_key(key),
        after.tiles() == before.tiles().insert(key, tile),
        after.list(TextureKind::Monochrome).wf(TextureKind::Monochrome),
        after.list(TextureKind::Polychrome).wf(TextureKind::Polychrome),
        forall|id: TextureId|
            id != tile.texture ==> #[trigger] after.texture(id) == before.texture(id),
        after.texture(tile.texture) matches Some(texture) && texture.holds(tile),
        !created ==> before.texture(tile.texture) is Some && before.texture(
            tile.texture,
        )->0.hands_out(tile, after.texture(tile.texture)->0),
        created ==> before.texture(tile.texture) is None && after.texture(
            tile.texture,
        )->0.live() == 1,
    ensures
        after.wf(),
{
    assert forall|id: TextureId|
        #![trigger after.texture(id)]
        after.texture(id) matches Some(texture) implies after.texture(id)->0.live() == users(
        after.tiles(),
        id,
    ).len() && after.texture(id)->0.live() > 0 by {
        lemma_users_insert(before.tiles(), key, tile, id);
        assert(before.texture(id) == before.texture(id));
        if id == tile.texture && created {
            assert forall|other: u64| !users(before.tiles(), id).contains(other) by {
                if before.tiles().contains_key(other) {
                    assert(before.texture(before.tiles()[other].texture) is Some);
                }
            }
            assert(users(before.tiles(), id) =~= Set::empty());
        }
    }
    assert forall|other: u64| #[trigger] after.tiles().contains_key(other) implies after.texture(
        after.tiles()[other].texture,
    ) is Some && after.texture(after.tiles()[other].texture)->0.holds(after.tiles()[other]) by {
        if other != key {
            assert(before.tiles().contains_key(other));
            assert(before.texture(before.tiles()[other].texture) is Some);
        }
    }
    assert forall|a: u64, b: u64|
        #![trigger after.tiles().contains_key(a), after.tiles().contains_key(b)]
        after.tiles().contains_key(a) && after.tiles().contains_key(b) && a != b
            && after.tiles()[a].texture == after.tiles()[b].texture implies after.tiles()[a].tile_id
        != after.tiles()[b].tile_id by {
        if a != key {
            assert(before.tiles().contains_key(a));
        }
        if b != key {
            assert(before.tiles().contains_key(b));
        }
    }
}

/// An atlas stays well formed as a key loses its tile.
proof fn lemma_removed(before: WebGpuAtlas, after: WebGpuAtlas, key: u64, freed: bool)
    requires
        before.wf(),
        before.tiles().contains_key(key),
        after.tiles() == before.tiles().remove(key),
        after.list(TextureKind::Monochrome).wf(TextureKind::Monochrome),
        after.list(TextureKind::Polychrome).wf(TextureKind::Polychrome),
        forall|id: TextureId|
            id != before.tiles()[key].texture ==> #[trigger] after.texture(id) == before.texture(
                id,
            ),
        freed == (before.texture(before.tiles()[key].texture)->0.live() == 1),
        freed ==> after.texture(before.tiles()[key].texture) is None,
        !freed ==> (after.texture(before.tiles()[key].texture) matches Some(texture)
            && texture.live() == before.texture(before.tiles()[key].texture)->0.live() - 1
            && texture.placed() == before.texture(before.tiles()[key].texture)->0.placed()
            && texture.number() == before.texture(before.tiles()[key].texture)->0.number()),
    ensures
        after.wf(),
        freed == (users(after.tiles(), before.tiles()[key].texture).len() == 0),
{
    let gone = before.tiles()[key].texture;
    assert(before.texture(gone) is Some);
    lemma_users_remove(before.tiles(), key, gone);
    assert forall|id: TextureId|
        #![trigger after.texture(id)]
        after.texture(id) matches Some(texture) implies after.texture(id)->0.live() == users(
        after.tiles(),
        id,
    ).len() && after.texture(id)->0.live() > 0 by {
        lemma_users_remove(before.tiles(), key, id);
        assert(before.texture(id) == before.texture(id));
    }
    assert forall|other: u64| #[trigger] after.tiles().contains_key(other) implies after.texture(
        after.tiles()[other].texture,
    ) is Some && after.texture(after.tiles()[other].texture)->0.holds(after.tiles()[other]) by {
        assert(before.tiles().contains_key(other));
        assert(before.texture(before.tiles()[other].texture) is Some);
        if freed && before.tiles()[other].texture == gone {
            assert(users(after.tiles(), gone).contains(other));
        }
    }
    assert forall|a: u64, b: u64|
        #![trigger after.tiles().contains_key(a), after.tiles().contains_key(b)]
        after.tiles().contains_key(a) && after.tiles().contains_key(b) && a != b
            && after.tiles()[a].texture == after.tiles()[b].texture implies after.tiles()[a].tile_id
        != after.tiles()[b].tile_id by {
        assert(before.tiles().contains_key(a));
        assert(before.tiles().contains_key(b));
    }
}

/// The pixels of a sprite, as they are copied into its tile.
pub fn tile_upload(tile: Tile) -> (upload: TileUpload)
    requires
        0 <= tile.x,
        0 <= tile.y,
        0 <= tile.width < 65535,
        0 <= tile.height,
    ensures
        upload.x == tile.x,
        upload.y == tile.y,
        upload.width == tile.width,
        upload.height == tile.height,
        upload.bytes_per_row == tile.width * match tile.texture.kind {
            TextureKind::Monochrome => 1int,
            TextureKind::Polychrome => 4int,
        },
{
    let width: u32 = tile.width as u32;
    let bytes: u32 = bytes_per_pixel(pixel_format(tile.texture.kind));
    assert(width * bytes <= 65534 * 4) by (nonlinear_arith)
        requires
            width <= 65534,
            bytes <= 4,
    ;
    TileUpload {
        x: tile.x as u32,
        y: tile.y as u32,
        width,
        height: tile.height as u32,
        bytes_per_row: width * bytes,
    }
}

/// No two sprites share a pixel: the tiles of an atlas are apart wherever they lie in the
/// same texture.
pub proof fn law_tiles_are_apart(atlas: WebGpuAtlas, a: u64, b: u64)
    requires
        atlas.wf(),
        atlas.tiles().contains_key(a),
        atlas.tiles().contains_key(b),
        a != b,
        atlas.tiles()[a].texture == atlas.tiles()[b].texture,
    ensures
        apart(atlas.tiles()[a].area(), atlas.tiles()[b].area()),
{
    let id = atlas.tiles()[a].texture;
    let texture = atlas.texture(id)->0;
    assert(texture.holds(atlas.tiles()[a]));
    assert(texture.holds(atlas.tiles()[b]));
    assert(atlas.list(id.kind).textures@[id.index as int] is Some);
    assert(texture.wf());
}

/// Every sprite lies inside its texture.
pub proof fn law_tiles_are_inside(atlas: WebGpuAtlas, key: u64)
    requires
        atlas.wf(),
        atlas.tiles().contains_key(key),
    ensures
        atlas.texture(atlas.tiles()[key].texture) matches Some(texture) && ({
            let area = atlas.tiles()[key].area();
            0 <= area.0 < area.2 <= texture.extent().0 && 0 <= area.1 < area.3
                <= texture.extent().1
        }),
{
    let id = atlas.tiles()[key].texture;
    let texture = atlas.texture(id)->0;
    assert(texture.holds(atlas.tiles()[key]));
    assert(atlas.list(id.kind).textures@[id.index as int] is Some);
    assert(texture.wf());
}

/// A texture lives exactly as long as a key uses it.
pub proof fn law_textures_live_while_used(atlas: WebGpuAtlas, id: TextureId)
    requires
        atlas.wf(),
    ensures
        atlas.texture(id) is Some <==> users(atlas.tiles(), id).len() > 0,
{
    if atlas.texture(id) is None {
        assert forall|key: u64| !users(atlas.tiles(), id).contains(key) by {
            if atlas.tiles().contains_key(key) {
                assert(atlas.texture(atlas.tiles()[key].texture) is Some);
            }
        }
        assert(users(atlas.tiles(), id) =~= Set::empty());
    }
}

/// A tile goes to the newest texture that has room for it: no later one has, and where
/// none has there is none to take it.
pub proof fn law_newest_texture_with_room(
    textures: Seq<Option<AtlasTexture>>,
    width: int,
    height: int,
    end: int,
)
    requires
        0 <= end <= textures.len(),
    ensures
        match last_fit(textures, width, height, end) {
            Some(index) => 0 <= index < end && textures[index] is Some
                && textures[index]->0.vacancy(width, height) is Some && forall|k: int|
                index < k < end ==> ((#[trigger] textures[k]) matches Some(texture)
                    ==> texture.vacancy(width, height) is None),
            None => forall|k: int|
                0 <= k < end ==> ((#[trigger] textures[k]) matches Some(texture)
                    ==> texture.vacancy(width, height) is None),
        },
    decreases end,
{
    if end > 0 {
        law_newest_texture_with_room(textures, width, height, end - 1);
    }
}

/// A list looks through all of its textures.
pub proof fn law_fit_looks_everywhere(list: TextureList, width: int, height: int)
    ensures
        list.fit(width, height) == last_fit(
            list.textures@,
            width,
            height,
            list.textures@.len() as int,
        ),
        forall|index: int|
            0 <= index < list.textures@.len() ==> #[trigger] list.texture(index)
                == list.textures@[index],
        forall|index: int|
            index < 0 || list.textures@.len() <= index ==> #[trigger] list.texture(index) is None,
{
}

/// A new texture takes the slot that was freed last, and a slot of its own where none is
/// free.
pub proof fn law_new_texture_slot(list: TextureList)
    ensures
        list.free_list@.len() > 0 ==> list.next_slot() == list.free_list@[list.free_list@.len()
            - 1],
        list.free_list@.len() == 0 ==> list.next_slot() == list.textures@.len(),
{
}

/// A new texture is 1024 pixels wide and high, or as large as its first tile where that is
/// larger.
pub proof fn law_new_texture_size(side: int)
    ensures
        side <= 1024 ==> at_least(side, DEFAULT_ATLAS_SIZE as int) == 1024,
        side >= 1024 ==> at_least(side, DEFAULT_ATLAS_SIZE as int) == side,
{
}

/// A tile can be packed where its sides are above zero and below 65535, its height is at
/// most 65472, and a texture that holds it has no more pixels than a signed number counts.
pub proof fn law_packable_tiles(width: int, height: int)
    ensures
        packable(width, height) <==> 0 < width < 65535 && 0 < height <= 65472 && (if width < 1024 {
            1024
        } else {
            width
        }) * (if height < 1024 {
            1024
        } else {
            height
        }) <= 0x7fff_ffff,
{
}

/// Monochrome textures hold one channel, polychrome ones four, blue first.
pub proof fn law_pixel_formats()
    ensures
        pixel_format(TextureKind::Monochrome) == PixelFormat::R8Unorm,
        pixel_format(TextureKind::Polychrome) == PixelFormat::Bgra8Unorm,
{
}

/// Whether a point is in a rectangle.
pub open spec fn covers(area: (int, int, int, int), x: int, y: int) -> bool {
    area.0 <= x < area.2 && area.1 <= y < area.3
}

/// Rectangles are apart exactly where no point is in both.
pub proof fn law_apart(a: (int, int, int, int), b: (int, int, int, int), x: int, y: int)
    requires
        a.0 < a.2 && a.1 < a.3,
        b.0 < b.2 && b.1 < b.3,
    ensures
        apart(a, b) ==> !(covers(a, x, y) && covers(b, x, y)),
        !apart(a, b) ==> exists|p: int, q: int| #[trigger] covers(a, p, q) && covers(b, p, q),
{
    if !apart(a, b) {
        let p = if a.0 < b.0 {
            b.0
        } else {
            a.0
        };
        let q = if a.1 < b.1 {
            b.1
        } else {
            a.1
        };
        assert(covers(a, p, q) && covers(b, p, q));
    }
}

/// The users of a texture are the keys of the tiles in it.
pub proof fn law_users(tiles: Map<u64, Tile>, id: TextureId, key: u64)
    ensures
        users(tiles, id).contains(key) <==> tiles.contains_key(key) && tiles[key].texture == id,
{
}

/// A tile that a texture holds lies where the texture placed it, at least a pixel wide and
/// high, and no wider or higher than its place.
pub proof fn law_held_tiles(texture: AtlasTexture, tile: Tile)
    requires
        texture.holds(tile),
    ensures
        ({
            let place = texture.placed()[tile.tile_id];
            &&& tile.texture == texture.number()
            &&& texture.placed().contains_key(tile.tile_id)
            &&& tile.width >= 1 && tile.height >= 1
            &&& tile.x == place.0 && tile.y == place.1
            &&& tile.x + tile.width == place.2
            &&& tile.y + tile.height <= place.3
        }),
{
}

/// Handing a tile out places it in the texture, leaves the other tiles where they are, and
/// counts one user more.
pub proof fn law_handed_out_tiles(before: AtlasTexture, tile: Tile, after: AtlasTexture, id: u32)
    requires
        before.hands_out(tile, after),
    ensures
        after.live() == before.live() + 1,
        after.number() == before.number(),
        after.extent() == before.extent(),
        after.holds(tile),
        !before.placed().contains_key(tile.tile_id),
        id != tile.tile_id ==> (after.placed().contains_key(id) <==> before.placed().contains_key(
            id,
        )),
        id != tile.tile_id && before.placed().contains_key(id) ==> after.placed()[id]
            == before.placed()[id],
{
}

} // verus!
