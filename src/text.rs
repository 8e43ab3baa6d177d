use vstd::prelude::*;
use vstd::string::StrSliceExecFns;

use crate::sprite::{assoc_lookup, Sprite, SpriteFont, SpriteGlyph};

verus! {

/// A glyph sprite to draw, at a pen position relative to where the text starts.
#[derive(Clone, Copy, Debug, PartialEq, Eq, Hash)]
pub struct GlyphPlacement {
    pub sprite: Sprite,
    pub x: i128,
    pub y: i128,
}

/// The result of laying out a string with a sprite font.
pub struct TextLayout {
    /// The sprites to draw, in the order of the text.
    pub placed: Vec<GlyphPlacement>,
    /// The characters for which the font had no glyph, not even a
    /// replacement, in the order of the text.
    pub missing: Vec<char>,
}

/// The glyph drawn for `c`: its own, else the font's replacement glyph, the
/// one of the null character.
pub open spec fn resolve_glyph(font: SpriteFont, c: char) -> Option<SpriteGlyph> {
    match assoc_lookup(font.glyphs@, c) {
        Some(g) => Some(g),
        None => assoc_lookup(font.glyphs@, '\0'),
    }
}

/// Layout state: placed sprites, missing characters, pen x, pen y.
pub type LayoutState = (Seq<GlyphPlacement>, Seq<char>, int, int);

/// One step of the walk. A newline moves the pen to the start of the next
/// line. A character with a glyph places the glyph's sprite, if it has one, at
/// the pen and moves the pen right by the glyph's advance. A character without
/// one is recorded and the pen stays.
pub open spec fn layout_step(font: SpriteFont, st: LayoutState, c: char) -> LayoutState {
    if c == '\n' {
        (st.0, st.1, 0, st.3 + font.line_height_spec())
    } else {
        match resolve_glyph(font, c) {
            Some(g) => {
                let placed = match g.sprite {
                    Some(s) => st.0.push(GlyphPlacement { sprite: s, x: st.2 as i128, y: st.3 as i128 }),
                    None => st.0,
                };
                (placed, st.1, st.2 + g.advance, st.3)
            },
            None => (st.0, st.1.push(c), st.2, st.3),
        }
    }
}

/// The state after walking all of `text`, from an empty layout with the pen
/// at the origin.
pub open spec fn layout_spec(font: SpriteFont, text: Seq<char>) -> LayoutState
    decreases text.len(),
{
    if text.len() == 0 {
        (Seq::empty(), Seq::empty(), 0, 0)
    } else {
        layout_step(font, layout_spec(font, text.drop_last()), text.last())
    }
}

proof fn lemma_layout_bounds(font: SpriteFont, text: Seq<char>)
    ensures
        -0x8000_0000 * text.len() <= layout_spec(font, text).2 <= 0x8000_0000 * text.len(),
        -0x2_0000_0000 * text.len() <= layout_spec(font, text).3 <= 0x2_0000_0000 * text.len(),
    decreases text.len(),
{
    if text.len() > 0 {
        lemma_layout_bounds(font, text.drop_last());
    }
}

impl SpriteFont {
    /// Lay out `text` left to right, the pen starting at the origin. Kerning
    /// is not applied.
    pub fn layout_text(&self, text: &str) -> (r: TextLayout)
        ensures
            r.placed@ == layout_spec(*self, text@).0,
            r.missing@ == layout_spec(*self, text@).1,
    {
        let ghost src = text@;
        let len = text.unicode_len();
        let line_height = self.line_height();
        let mut placed: Vec<GlyphPlacement> = Vec::new();
        let mut missing: Vec<char> = Vec::new();
        let mut x: i128 = 0;
        let mut y: i128 = 0;
        for c in it: text.chars()
            invariant
                it.seq() == src,
                src.len() == len,
                line_height == self.line_height_spec(),
                (placed@, missing@, x as int, y as int) == layout_spec(*self, src.take(it.index())),
        {
            let ghost k = it.index();
            let ghost prefix = src.take(k);
            proof {
                assert(src.take(k + 1).drop_last() =~= prefix);
                lemma_layout_bounds(*self, prefix);
            }
            if c == '\n' {
                x = 0;
                y = y + line_height as i128;
            } else {
                let found = match self.glyph(c) {
                    Some(g) => Some(g),
                    None => self.glyph('\0'),
                };
                match found {
                    Some(g) => {
                        if let Some(s) = g.sprite {
                            placed.push(GlyphPlacement { sprite: s, x, y });
                        }
                        x = x + g.advance as i128;
                    },
                    None => {
                        missing.push(c);
                    },
                }
            }
        }
        assert(src.take(src.len() as int) =~= src);
        TextLayout { placed, missing }
    }
}

} // verus!
