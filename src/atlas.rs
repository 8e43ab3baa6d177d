use std::collections::HashMap;
use std::hash::Hash;

use vstd::prelude::*;
use vstd::std_specs::hash::obeys_key_model;

use crate::geom::{RectU, Vec2I, Vec2U};
use crate::sprite::{assoc_map, AnimFrame, AnimLayer, AnimTag, Sprite, SpriteAnim, SpriteFont, SpriteGlyph, SpritePatch, SpriteSheet, Texture};

verus! {

/// A packed sprite atlas: every entry refers to regions of one shared
/// texture.
pub struct SpriteAtlas<I> {
    pub sprites: Vec<AtlasSprite<I>>,
    pub sheets: Vec<AtlasSheet<I>>,
    pub fonts: Vec<AtlasFont<I>>,
    pub patches: Vec<AtlasPatch<I>>,
    pub anims: Vec<AtlasAnim<I>>,
}

/// A packed sprite.
pub struct AtlasSprite<I> {
    pub id: I,
    pub size: Vec2U,
    pub rect: RectU,
    pub off: Vec2I,
}

/// A packed sheet: a grid of `size.x` by `size.y` tile slots, row by row.
pub struct AtlasSheet<I> {
    pub id: I,
    pub tile_size: Vec2U,
    pub size: Vec2U,
    pub tiles: Vec<Option<AtlasTile>>,
}

/// A packed sheet tile.
#[derive(Clone, Copy, Debug, PartialEq, Eq, Hash)]
pub struct AtlasTile {
    pub rect: RectU,
    pub off: Vec2I,
}

/// A packed font.
pub struct AtlasFont<I> {
    pub id: I,
    pub ascent: i32,
    pub descent: i32,
    pub line_gap: i32,
    pub glyphs: Vec<AtlasGlyph>,
    pub kerning: Vec<(char, char, i32)>,
}

/// A packed font glyph; a glyph of zero width has no region.
#[derive(Clone, Copy, Debug, PartialEq, Eq, Hash)]
pub struct AtlasGlyph {
    pub chr: char,
    pub adv: i32,
    pub size: Vec2U,
    pub rect: RectU,
    pub off: Vec2I,
}

/// A packed 9-patch.
pub struct AtlasPatch<I> {
    pub id: I,
    pub outer: RectU,
    pub inner: RectU,
}

/// A packed animation.
pub struct AtlasAnim<I> {
    pub id: I,
    pub size: Vec2U,
    pub cels: Vec<AtlasCel>,
    pub frames: Vec<AnimFrame>,
    pub tags: Vec<AnimTag>,
    pub layers: Vec<AnimLayer>,
}

/// A packed animation cel.
#[derive(Clone, Copy, Debug, PartialEq, Eq, Hash)]
pub struct AtlasCel {
    pub size: Vec2U,
    pub rect: RectU,
    pub off: Vec2I,
}

/// Graphics assets made from a sprite atlas, in the atlas's order.
pub struct AtlasGraphics<I> {
    pub texture: Texture,
    pub sprites: Vec<(I, Sprite)>,
    pub sheets: Vec<(I, SpriteSheet)>,
    pub fonts: Vec<(I, SpriteFont)>,
    pub patches: Vec<(I, SpritePatch)>,
    pub anims: Vec<(I, SpriteAnim)>,
}

/// Why a sprite atlas could not be made into graphics.
#[derive(Clone, Copy, Debug, PartialEq, Eq, Hash)]
pub enum AtlasError {
    /// The sheet at this index does not hold one tile slot per grid cell.
    TileCountMismatch { sheet: usize },
}

/// The sprite that a packed region becomes on `texture`.
pub open spec fn sprite_spec(texture: Texture, rect: RectU, off: Vec2I, size: Vec2U) -> Sprite {
    Sprite { texture, rect, offset: off, size }
}

fn make_sprites<I>(texture: Texture, items: Vec<AtlasSprite<I>>) -> (r: Vec<(I, Sprite)>)
    ensures
        r@.len() == items@.len(),
        forall|i: int|
            0 <= i < items@.len() ==> #[trigger] r@[i] == (
                items@[i].id,
                sprite_spec(texture, items@[i].rect, items@[i].off, items@[i].size),
            ),
{
    let ghost src = items@;
    let mut out: Vec<(I, Sprite)> = Vec::new();
    for s in it: items.into_iter()
        invariant
            it.seq() == src,
            out@.len() == it.index(),
            forall|i: int|
                0 <= i < it.index() ==> #[trigger] out@[i] == (
                    src[i].id,
                    sprite_spec(texture, src[i].rect, src[i].off, src[i].size),
                ),
    {
        let sprite = Sprite::new_ext(texture, s.rect, s.off, s.size);
        out.push((s.id, sprite));
    }
    out
}


/// The slot of a sheet that a packed tile becomes: every tile takes the
/// sheet's uniform tile size.
pub open spec fn tile_spec(texture: Texture, tile: Option<AtlasTile>, tile_size: Vec2U) -> Option<Sprite> {
    match tile {
        Some(t) => Some(sprite_spec(texture, t.rect, t.off, tile_size)),
        None => None,
    }
}

/// The sheet holds one tile slot per grid cell.
pub open spec fn sheet_fits<I>(sheet: AtlasSheet<I>) -> bool {
    sheet.tiles@.len() == sheet.size.x as int * sheet.size.y as int
}

/// `s` is the sprite sheet that the packed `a` becomes on `texture`.
pub open spec fn sheet_made<I>(texture: Texture, a: AtlasSheet<I>, s: SpriteSheet) -> bool {
    &&& s.width == a.size.x
    &&& s.height == a.size.y
    &&& s.tile_size == a.tile_size
    &&& s.tiles@ == a.tiles@.map_values(|t: Option<AtlasTile>| tile_spec(texture, t, a.tile_size))
}

/// `e` is the id and sprite sheet that the packed `a` becomes on `texture`.
pub open spec fn sheet_entry_made<I>(texture: Texture, a: AtlasSheet<I>, e: (I, SpriteSheet)) -> bool {
    e.0 == a.id && sheet_made(texture, a, e.1)
}

/// The glyph entry that a packed glyph becomes: a glyph of zero width keeps
/// its advance but has no sprite.
pub open spec fn glyph_spec(texture: Texture, g: AtlasGlyph) -> (char, SpriteGlyph) {
    (
        g.chr,
        SpriteGlyph {
            sprite: if g.size.x > 0 {
                Some(sprite_spec(texture, g.rect, g.off, g.size))
            } else {
                None
            },
            advance: g.adv,
        },
    )
}

pub open spec fn kerning_spec(k: (char, char, i32)) -> ((char, char), i32) {
    ((k.0, k.1), k.2)
}

/// `f` is the sprite font that the packed `a` becomes on `texture`.
pub open spec fn font_made<I>(texture: Texture, a: AtlasFont<I>, f: SpriteFont) -> bool {
    &&& f.ascent == a.ascent
    &&& f.descent == a.descent
    &&& f.line_gap == a.line_gap
    &&& f.glyphs@ == a.glyphs@.map_values(|g: AtlasGlyph| glyph_spec(texture, g))
    &&& f.kerning@ == a.kerning@.map_values(|k: (char, char, i32)| kerning_spec(k))
}

/// `e` is the id and sprite font that the packed `a` becomes on `texture`.
pub open spec fn font_entry_made<I>(texture: Texture, a: AtlasFont<I>, e: (I, SpriteFont)) -> bool {
    e.0 == a.id && font_made(texture, a, e.1)
}

pub open spec fn cel_spec(texture: Texture, c: AtlasCel) -> Sprite {
    sprite_spec(texture, c.rect, c.off, c.size)
}

/// `s` is the animation that the packed `a` becomes on `texture`: its cels
/// become sprites, the rest is carried over.
pub open spec fn anim_made<I>(texture: Texture, a: AtlasAnim<I>, s: SpriteAnim) -> bool {
    &&& s.size == a.size
    &&& s.sprites@ == a.cels@.map_values(|c: AtlasCel| cel_spec(texture, c))
    &&& s.frames == a.frames
    &&& s.tags == a.tags
    &&& s.layers == a.layers
}

/// `e` is the id and animation that the packed `a` becomes on `texture`.
pub open spec fn anim_entry_made<I>(texture: Texture, a: AtlasAnim<I>, e: (I, SpriteAnim)) -> bool {
    e.0 == a.id && anim_made(texture, a, e.1)
}

fn make_tiles(texture: Texture, tiles: Vec<Option<AtlasTile>>, tile_size: Vec2U) -> (r: Vec<Option<Sprite>>)
    ensures
        r@ == tiles@.map_values(|t: Option<AtlasTile>| tile_spec(texture, t, tile_size)),
{
    let mut out: Vec<Option<Sprite>> = Vec::new();
    let mut i: usize = 0;
    while i < tiles.len()
        invariant
            i <= tiles@.len(),
            out@ == tiles@.take(i as int).map_values(|t: Option<AtlasTile>| tile_spec(texture, t, tile_size)),
        decreases tiles@.len() - i,
    {
        let slot = match tiles[i] {
            Some(t) => Some(Sprite::new_ext(texture, t.rect, t.off, tile_size)),
            None => None,
        };
        out.push(slot);
        assert(tiles@.take(i + 1).drop_last() =~= tiles@.take(i as int));
        i = i + 1;
        assert(out@ =~= tiles@.take(i as int).map_values(|t: Option<AtlasTile>| tile_spec(texture, t, tile_size)));
    }
    assert(tiles@.take(i as int) =~= tiles@);
    out
}

fn make_sheets<I>(texture: Texture, items: Vec<AtlasSheet<I>>) -> (r: Vec<(I, SpriteSheet)>)
    ensures
        r@.len() == items@.len(),
        forall|i: int|
            0 <= i < items@.len() ==> sheet_entry_made(texture, items@[i], #[trigger] r@[i]),
{
    let ghost src = items@;
    let mut out: Vec<(I, SpriteSheet)> = Vec::new();
    for a in it: items.into_iter()
        invariant
            it.seq() == src,
            out@.len() == it.index(),
            forall|i: int|
                0 <= i < it.index() ==> sheet_entry_made(texture, src[i], #[trigger] out@[i]),
    {
        let ghost a0 = a;
        let tiles = make_tiles(texture, a.tiles, a.tile_size);
        let sheet = SpriteSheet { width: a.size.x, height: a.size.y, tiles, tile_size: a.tile_size };
        assert(sheet_made(texture, a0, sheet));
        out.push((a.id, sheet));
    }
    out
}

fn make_glyphs(texture: Texture, glyphs: &Vec<AtlasGlyph>) -> (r: Vec<(char, SpriteGlyph)>)
    ensures
        r@ == glyphs@.map_values(|g: AtlasGlyph| glyph_spec(texture, g)),
{
    let mut out: Vec<(char, SpriteGlyph)> = Vec::new();
    let mut i: usize = 0;
    while i < glyphs.len()
        invariant
            i <= glyphs@.len(),
            out@ == glyphs@.take(i as int).map_values(|g: AtlasGlyph| glyph_spec(texture, g)),
        decreases glyphs@.len() - i,
    {
        let g = glyphs[i];
        let sprite = if g.size.x > 0 {
            Some(Sprite::new_ext(texture, g.rect, g.off, g.size))
        } else {
            None
        };
        out.push((g.chr, SpriteGlyph::new(sprite, g.adv)));
        assert(glyphs@.take(i + 1).drop_last() =~= glyphs@.take(i as int));
        i = i + 1;
        assert(out@ =~= glyphs@.take(i as int).map_values(|g: AtlasGlyph| glyph_spec(texture, g)));
    }
    assert(glyphs@.take(i as int) =~= glyphs@);
    out
}

fn make_kerning(kerning: &Vec<(char, char, i32)>) -> (r: Vec<((char, char), i32)>)
    ensures
        r@ == kerning@.map_values(|k: (char, char, i32)| kerning_spec(k)),
{
    let mut out: Vec<((char, char), i32)> = Vec::new();
    let mut i: usize = 0;
    while i < kerning.len()
        invariant
            i <= kerning@.len(),
            out@ == kerning@.take(i as int).map_values(|k: (char, char, i32)| kerning_spec(k)),
        decreases kerning@.len() - i,
    {
        let (a, b, k) = kerning[i];
        out.push(((a, b), k));
        assert(kerning@.take(i + 1).drop_last() =~= kerning@.take(i as int));
        i = i + 1;
        assert(out@ =~= kerning@.take(i as int).map_values(|k: (char, char, i32)| kerning_spec(k)));
    }
    assert(kerning@.take(i as int) =~= kerning@);
    out
}

fn make_fonts<I>(texture: Texture, items: Vec<AtlasFont<I>>) -> (r: Vec<(I, SpriteFont)>)
    ensures
        r@.len() == items@.len(),
        forall|i: int|
            0 <= i < items@.len() ==> font_entry_made(texture, items@[i], #[trigger] r@[i]),
{
    let ghost src = items@;
    let mut out: Vec<(I, SpriteFont)> = Vec::new();
    for a in it: items.into_iter()
        invariant
            it.seq() == src,
            out@.len() == it.index(),
            forall|i: int|
                0 <= i < it.index() ==> font_entry_made(texture, src[i], #[trigger] out@[i]),
    {
        let ghost a0 = a;
        let glyphs = make_glyphs(texture, &a.glyphs);
        let kerning = make_kerning(&a.kerning);
        let font = SpriteFont {
            ascent: a.ascent,
            descent: a.descent,
            line_gap: a.line_gap,
            glyphs,
            kerning,
        };
        assert(font_made(texture, a0, font));
        out.push((a.id, font));
    }
    out
}

fn make_patches<I>(texture: Texture, items: Vec<AtlasPatch<I>>) -> (r: Vec<(I, SpritePatch)>)
    ensures
        r@.len() == items@.len(),
        forall|i: int|
            0 <= i < items@.len() ==> #[trigger] r@[i] == (
                items@[i].id,
                SpritePatch { texture, outer: items@[i].outer, inner: items@[i].inner },
            ),
{
    let ghost src = items@;
    let mut out: Vec<(I, SpritePatch)> = Vec::new();
    for a in it: items.into_iter()
        invariant
            it.seq() == src,
            out@.len() == it.index(),
            forall|i: int|
                0 <= i < it.index() ==> #[trigger] out@[i] == (
                    src[i].id,
                    SpritePatch { texture, outer: src[i].outer, inner: src[i].inner },
                ),
    {
        out.push((a.id, SpritePatch::new(texture, a.outer, a.inner)));
    }
    out
}

fn make_cels(texture: Texture, cels: &Vec<AtlasCel>) -> (r: Vec<Sprite>)
    ensures
        r@ == cels@.map_values(|c: AtlasCel| cel_spec(texture, c)),
{
    let mut out: Vec<Sprite> = Vec::new();
    let mut i: usize = 0;
    while i < cels.len()
        invariant
            i <= cels@.len(),
            out@ == cels@.take(i as int).map_values(|c: AtlasCel| cel_spec(texture, c)),
        decreases cels@.len() - i,
    {
        let c = cels[i];
        out.push(Sprite::new_ext(texture, c.rect, c.off, c.size));
        assert(cels@.take(i + 1).drop_last() =~= cels@.take(i as int));
        i = i + 1;
        assert(out@ =~= cels@.take(i as int).map_values(|c: AtlasCel| cel_spec(texture, c)));
    }
    assert(cels@.take(i as int) =~= cels@);
    out
}

fn make_anims<I>(texture: Texture, items: Vec<AtlasAnim<I>>) -> (r: Vec<(I, SpriteAnim)>)
    ensures
        r@.len() == items@.len(),
        forall|i: int|
            0 <= i < items@.len() ==> anim_entry_made(texture, items@[i], #[trigger] r@[i]),
{
    let ghost src = items@;
    let mut out: Vec<(I, SpriteAnim)> = Vec::new();
    for a in it: items.into_iter()
        invariant
            it.seq() == src,
            out@.len() == it.index(),
            forall|i: int|
                0 <= i < it.index() ==> anim_entry_made(texture, src[i], #[trigger] out@[i]),
    {
        let sprites = make_cels(texture, &a.cels);
        let anim = SpriteAnim {
            size: a.size,
            sprites,
            frames: a.frames,
            tags: a.tags,
            layers: a.layers,
        };
        out.push((a.id, anim));
    }
    out
}


/// Every sheet holds one tile slot per grid cell.
pub open spec fn all_sheets_fit<I>(sheets: Seq<AtlasSheet<I>>) -> bool {
    forall|i: int| 0 <= i < sheets.len() ==> sheet_fits(#[trigger] sheets[i])
}

/// `g` is what `atlas` becomes on `texture`: each list of entries, in order,
/// with every id kept and every region a sprite on the shared texture.
pub open spec fn graphics_made<I>(atlas: SpriteAtlas<I>, texture: Texture, g: AtlasGraphics<I>) -> bool {
    &&& g.texture == texture
    &&& g.sprites@.len() == atlas.sprites@.len()
    &&& forall|i: int|
        0 <= i < atlas.sprites@.len() ==> #[trigger] g.sprites@[i] == (
            atlas.sprites@[i].id,
            sprite_spec(texture, atlas.sprites@[i].rect, atlas.sprites@[i].off, atlas.sprites@[i].size),
        )
    &&& g.sheets@.len() == atlas.sheets@.len()
    &&& forall|i: int|
        0 <= i < atlas.sheets@.len() ==> sheet_entry_made(texture, atlas.sheets@[i], #[trigger] g.sheets@[i])
    &&& g.fonts@.len() == atlas.fonts@.len()
    &&& forall|i: int|
        0 <= i < atlas.fonts@.len() ==> font_entry_made(texture, atlas.fonts@[i], #[trigger] g.fonts@[i])
    &&& g.patches@.len() == atlas.patches@.len()
    &&& forall|i: int|
        0 <= i < atlas.patches@.len() ==> #[trigger] g.patches@[i] == (
            atlas.patches@[i].id,
            SpritePatch { texture, outer: atlas.patches@[i].outer, inner: atlas.patches@[i].inner },
        )
    &&& g.anims@.len() == atlas.anims@.len()
    &&& forall|i: int|
        0 <= i < atlas.anims@.len() ==> anim_entry_made(texture, atlas.anims@[i], #[trigger] g.anims@[i])
}

/// Every sprite made from an atlas, of every kind, draws from the one texture
/// that the atlas was made on.
pub proof fn lemma_graphics_share_texture<I>(atlas: SpriteAtlas<I>, texture: Texture, g: AtlasGraphics<I>)
    requires
        graphics_made(atlas, texture, g),
    ensures
        forall|i: int| 0 <= i < g.sprites@.len() ==> (#[trigger] g.sprites@[i]).1.texture == texture,
        forall|i: int, j: int|
            0 <= i < g.sheets@.len() && 0 <= j < g.sheets@[i].1.tiles@.len()
                && (#[trigger] g.sheets@[i].1.tiles@[j]) is Some ==> g.sheets@[i].1.tiles@[j]->0.texture
                == texture,
        forall|i: int, j: int|
            0 <= i < g.fonts@.len() && 0 <= j < g.fonts@[i].1.glyphs@.len()
                && (#[trigger] g.fonts@[i].1.glyphs@[j]).1.sprite is Some
                ==> g.fonts@[i].1.glyphs@[j].1.sprite->0.texture == texture,
        forall|i: int| 0 <= i < g.patches@.len() ==> (#[trigger] g.patches@[i]).1.texture == texture,
        forall|i: int, j: int|
            0 <= i < g.anims@.len() && 0 <= j < g.anims@[i].1.sprites@.len()
                ==> (#[trigger] g.anims@[i].1.sprites@[j]).texture == texture,
{
    assert forall|i: int, j: int|
        0 <= i < g.sheets@.len() && 0 <= j < g.sheets@[i].1.tiles@.len()
            && (#[trigger] g.sheets@[i].1.tiles@[j]) is Some implies g.sheets@[i].1.tiles@[j]->0.texture
        == texture by {
        assert(sheet_entry_made(texture, atlas.sheets@[i], g.sheets@[i]));
    }
    assert forall|i: int, j: int|
        0 <= i < g.fonts@.len() && 0 <= j < g.fonts@[i].1.glyphs@.len()
            && (#[trigger] g.fonts@[i].1.glyphs@[j]).1.sprite is Some
            implies g.fonts@[i].1.glyphs@[j].1.sprite->0.texture == texture by {
        assert(font_entry_made(texture, atlas.fonts@[i], g.fonts@[i]));
    }
    assert forall|i: int, j: int|
        0 <= i < g.anims@.len() && 0 <= j < g.anims@[i].1.sprites@.len()
            implies (#[trigger] g.anims@[i].1.sprites@[j]).texture == texture by {
        assert(anim_entry_made(texture, atlas.anims@[i], g.anims@[i]));
    }
}

/// The index of the first sheet whose tile count does not match its grid.
fn first_unfit_sheet<I>(sheets: &Vec<AtlasSheet<I>>) -> (r: Option<usize>)
    ensures
        match r {
            Some(k) => {
                &&& k < sheets@.len()
                &&& !sheet_fits(sheets@[k as int])
                &&& forall|j: int| 0 <= j < k ==> sheet_fits(#[trigger] sheets@[j])
            },
            None => all_sheets_fit(sheets@),
        },
{
    let mut i: usize = 0;
    while i < sheets.len()
        invariant
            i <= sheets@.len(),
            forall|j: int| 0 <= j < i ==> sheet_fits(#[trigger] sheets@[j]),
        decreases sheets@.len() - i,
    {
        let sheet = &sheets[i];
        let (w, h) = (sheet.size.x as u64, sheet.size.y as u64);
        assert(w * h <= 0xffff_ffff * 0xffff_ffff) by (nonlinear_arith)
            requires
                w <= 0xffff_ffff,
                h <= 0xffff_ffff,
        ;
        let cells = w * h;
        if sheet.tiles.len() as u64 != cells {
            return Some(i);
        }
        i = i + 1;
    }
    None
}

impl<I> SpriteAtlas<I> {
    /// Create renderable graphics assets from this sprite atlas: every entry
    /// becomes a sprite (or group of sprites) on `texture`. Fails, naming the
    /// first such sheet, when a sheet's tile count does not match its grid.
    pub fn create_graphics(self, texture: Texture) -> (r: Result<AtlasGraphics<I>, AtlasError>)
        ensures
            r is Ok <==> all_sheets_fit(self.sheets@),
            match r {
                Ok(g) => graphics_made(self, texture, g),
                Err(AtlasError::TileCountMismatch { sheet }) => {
                    &&& sheet < self.sheets@.len()
                    &&& !sheet_fits(self.sheets@[sheet as int])
                    &&& forall|j: int| 0 <= j < sheet ==> sheet_fits(#[trigger] self.sheets@[j])
                },
            },
    {
        if let Some(k) = first_unfit_sheet(&self.sheets) {
            return Err(AtlasError::TileCountMismatch { sheet: k });
        }
        let sprites = make_sprites(texture, self.sprites);
        let sheets = make_sheets(texture, self.sheets);
        let fonts = make_fonts(texture, self.fonts);
        let patches = make_patches(texture, self.patches);
        let anims = make_anims(texture, self.anims);
        Ok(AtlasGraphics { texture, sprites, sheets, fonts, patches, anims })
    }
}

/// Graphics assets made from a sprite atlas, looked up by id.
pub struct AtlasGraphicsMapped<I> {
    pub texture: Texture,
    pub sprites: HashMap<I, Sprite>,
    pub sheets: HashMap<I, SpriteSheet>,
    pub fonts: HashMap<I, SpriteFont>,
    pub patches: HashMap<I, SpritePatch>,
    pub anims: HashMap<I, SpriteAnim>,
}

/// Inserts the pairs in order, so that a later pair replaces an earlier one
/// with the same id.
fn to_map<I: Eq + Hash, V>(items: Vec<(I, V)>) -> (m: HashMap<I, V>)
    ensures
        obeys_key_model::<I>() ==> m@ == assoc_map(items@),
{
    broadcast use vstd::std_specs::hash::group_hash_axioms;

    let ghost src = items@;
    let mut m: HashMap<I, V> = HashMap::new();
    for pair in it: items.into_iter()
        invariant
            it.seq() == src,
            obeys_key_model::<I>() ==> m@ == assoc_map(src.take(it.index())),
    {
        let ghost k = it.index();
        let (id, v) = pair;
        m.insert(id, v);
        assert(src.take(k + 1).drop_last() =~= src.take(k));
    }
    assert(src.take(src.len() as int) =~= src);
    m
}

impl<I: Eq + Hash> AtlasGraphics<I> {
    /// Convert the graphics lists into maps by id; where two entries of a list
    /// share an id, the later one is kept.
    pub fn mapped(self) -> (r: AtlasGraphicsMapped<I>)
        ensures
            r.texture == self.texture,
            obeys_key_model::<I>() ==> {
                &&& r.sprites@ == assoc_map(self.sprites@)
                &&& r.sheets@ == assoc_map(self.sheets@)
                &&& r.fonts@ == assoc_map(self.fonts@)
                &&& r.patches@ == assoc_map(self.patches@)
                &&& r.anims@ == assoc_map(self.anims@)
            },
    {
        AtlasGraphicsMapped {
            texture: self.texture,
            sprites: to_map(self.sprites),
            sheets: to_map(self.sheets),
            fonts: to_map(self.fonts),
            patches: to_map(self.patches),
            anims: to_map(self.anims),
        }
    }
}

} // verus!
