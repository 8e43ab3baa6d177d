use vstd::prelude::*;

use crate::geom::{RectU, Vec2, Vec2I, Vec2U};

verus! {

/// A handle to a texture resource that lives elsewhere; every sprite made
/// from an atlas carries a copy of the same handle.
#[derive(Clone, Copy, Debug, PartialEq, Eq, Hash)]
pub struct Texture {
    pub id: u64,
}

/// A single renderable sprite: a region of a texture, the offset at which it
/// is drawn and the size it stands for (before transparent padding was
/// trimmed off).
#[derive(Clone, Copy, Debug, PartialEq, Eq, Hash)]
pub struct Sprite {
    pub texture: Texture,
    pub rect: RectU,
    pub offset: Vec2I,
    pub size: Vec2U,
}

impl Sprite {
    /// Create a sprite from a texture region, draw offset and full size.
    pub fn new_ext(texture: Texture, rect: RectU, offset: Vec2I, size: Vec2U) -> (s: Self)
        ensures
            s == (Sprite { texture, rect, offset, size }),
    {
        Sprite { texture, rect, offset, size }
    }

    /// Create an untrimmed sprite: no offset, and the size of its region.
    pub fn new(texture: Texture, rect: RectU) -> (s: Self)
        ensures
            s == (Sprite { texture, rect, offset: Vec2 { x: 0, y: 0 }, size: Vec2 { x: rect.w, y: rect.h } }),
    {
        Sprite { texture, rect, offset: Vec2 { x: 0, y: 0 }, size: rect.size() }
    }
}

/// A glyph of a sprite font: the sprite drawn for it, if any, and how far the
/// pen moves after it.
#[derive(Clone, Copy, Debug, PartialEq, Eq, Hash)]
pub struct SpriteGlyph {
    pub sprite: Option<Sprite>,
    pub advance: i32,
}

impl SpriteGlyph {
    pub fn new(sub: Option<Sprite>, advance: i32) -> (g: Self)
        ensures
            g == (SpriteGlyph { sprite: sub, advance }),
    {
        SpriteGlyph { sprite: sub, advance }
    }

    /// The sprite drawn for this glyph; none for a glyph such as a space.
    pub fn sub(&self) -> (s: Option<Sprite>)
        ensures
            s == self.sprite,
    {
        self.sprite
    }

    /// How far the pen moves after this glyph.
    pub fn advance(&self) -> (a: i32)
        ensures
            a == self.advance,
    {
        self.advance
    }
}

/// The value stored for `k` in a list of pairs where a later pair replaces
/// an earlier one with the same key.
pub open spec fn assoc_lookup<K, V>(s: Seq<(K, V)>, k: K) -> Option<V>
    decreases s.len(),
{
    if s.len() == 0 {
        None
    } else if s.last().0 == k {
        Some(s.last().1)
    } else {
        assoc_lookup(s.drop_last(), k)
    }
}

/// The map built by inserting the pairs of `s` in order, so that a later pair
/// replaces an earlier one with the same key.
pub open spec fn assoc_map<K, V>(s: Seq<(K, V)>) -> Map<K, V>
    decreases s.len(),
{
    if s.len() == 0 {
        Map::empty()
    } else {
        assoc_map(s.drop_last()).insert(s.last().0, s.last().1)
    }
}

/// Looking a key up in the list and in the map built from it agree.
pub proof fn lemma_assoc_lookup_map<K, V>(s: Seq<(K, V)>, k: K)
    ensures
        assoc_lookup(s, k) == (if assoc_map(s).contains_key(k) {
            Some(assoc_map(s)[k])
        } else {
            None
        }),
    decreases s.len(),
{
    if s.len() > 0 {
        lemma_assoc_lookup_map(s.drop_last(), k);
    }
}

/// A grid of optional tiles of uniform size, stored row by row.
pub struct SpriteSheet {
    pub width: u32,
    pub height: u32,
    pub tiles: Vec<Option<Sprite>>,
    pub tile_size: Vec2U,
}

impl SpriteSheet {
    /// The grid holds one slot per cell.
    pub open spec fn wf(&self) -> bool {
        self.tiles@.len() == self.width as int * self.height as int
    }

    /// The tile in column `x` of row `y`, if that slot holds one.
    pub fn tile(&self, x: u32, y: u32) -> (t: Option<Sprite>)
        requires
            self.wf(),
            x < self.width,
            y < self.height,
        ensures
            t == self.tiles@[y * self.width + x],
    {
        let ghost (xi, yi, wi, hi) = (x as int, y as int, self.width as int, self.height as int);
        assert(yi * wi + xi < wi * hi) by (nonlinear_arith)
            requires
                0 <= xi < wi,
                0 <= yi < hi,
        ;
        let n = self.tiles.len();
        assert(yi * wi <= yi * wi + xi < n);
        let row = y as usize * self.width as usize;
        self.tiles[row + x as usize]
    }
}

/// A font whose glyphs are sprites.
pub struct SpriteFont {
    pub ascent: i32,
    pub descent: i32,
    pub line_gap: i32,
    /// Glyphs by character; a later entry replaces an earlier one.
    pub glyphs: Vec<(char, SpriteGlyph)>,
    /// Kerning adjustments by character pair; a later entry replaces an
    /// earlier one.
    pub kerning: Vec<((char, char), i32)>,
}

impl SpriteFont {
    pub open spec fn line_height_spec(&self) -> int {
        self.ascent - self.descent + self.line_gap
    }

    /// The distance between two baselines.
    pub fn line_height(&self) -> (h: i64)
        ensures
            h == self.line_height_spec(),
    {
        self.ascent as i64 - self.descent as i64 + self.line_gap as i64
    }

    /// The glyph for `chr`, if the font has one.
    pub fn glyph(&self, chr: char) -> (g: Option<SpriteGlyph>)
        ensures
            g == assoc_lookup(self.glyphs@, chr),
    {
        let mut i = self.glyphs.len();
        assert(self.glyphs@.take(i as int) =~= self.glyphs@);
        while i > 0
            invariant
                i <= self.glyphs@.len(),
                assoc_lookup(self.glyphs@, chr) == assoc_lookup(self.glyphs@.take(i as int), chr),
            decreases i,
        {
            assert(self.glyphs@.take(i as int).drop_last() =~= self.glyphs@.take(i - 1));
            if self.glyphs[i - 1].0 == chr {
                return Some(self.glyphs[i - 1].1);
            }
            i = i - 1;
        }
        None
    }

    /// The kerning adjustment between `left` and `right`, if the font has one.
    pub fn kerning(&self, left: char, right: char) -> (k: Option<i32>)
        ensures
            k == assoc_lookup(self.kerning@, (left, right)),
    {
        let mut i = self.kerning.len();
        assert(self.kerning@.take(i as int) =~= self.kerning@);
        while i > 0
            invariant
                i <= self.kerning@.len(),
                assoc_lookup(self.kerning@, (left, right)) == assoc_lookup(
                    self.kerning@.take(i as int),
                    (left, right),
                ),
            decreases i,
        {
            assert(self.kerning@.take(i as int).drop_last() =~= self.kerning@.take(i - 1));
            let (pair, k) = self.kerning[i - 1];
            if pair.0 == left && pair.1 == right {
                return Some(k);
            }
            i = i - 1;
        }
        None
    }
}

/// A 9-patch: an outer region and the inner region that leaves its borders.
#[derive(Clone, Copy, Debug, PartialEq, Eq, Hash)]
pub struct SpritePatch {
    pub texture: Texture,
    pub outer: RectU,
    pub inner: RectU,
}

impl SpritePatch {
    pub fn new(texture: Texture, outer: RectU, inner: RectU) -> (p: Self)
        ensures
            p == (SpritePatch { texture, outer, inner }),
    {
        SpritePatch { texture, outer, inner }
    }
}

/// One timed frame of an animation.
#[derive(Clone, Copy, Debug, PartialEq, Eq, Hash)]
pub struct AnimFrame {
    /// Index of the cel shown.
    pub cel: u32,
    /// How long the frame shows, in milliseconds.
    pub duration: u32,
}

/// The direction in which a tag's frames play.
#[derive(Clone, Copy, Debug, PartialEq, Eq, Hash)]
pub enum AnimDir {
    Forward,
    Reverse,
    PingPong,
}

/// A named range of frames, both ends included.
#[derive(Clone, Debug, PartialEq, Eq, Hash)]
pub struct AnimTag {
    pub name: String,
    pub from: u32,
    pub to: u32,
    pub dir: AnimDir,
}

/// A named layer, for compositing several layers of an animation.
#[derive(Clone, Debug, PartialEq, Eq, Hash)]
pub struct AnimLayer {
    pub name: String,
}

/// An animation: its nominal frame size, its cels as sprites, and its timed
/// frames, tags and layers.
pub struct SpriteAnim {
    pub size: Vec2U,
    pub sprites: Vec<Sprite>,
    pub frames: Vec<AnimFrame>,
    pub tags: Vec<AnimTag>,
    pub layers: Vec<AnimLayer>,
}

} // verus!
