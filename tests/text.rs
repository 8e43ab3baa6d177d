use kero_spr::geom::{rect, vec2};
use kero_spr::sprite::{Sprite, SpriteFont, SpriteGlyph, Texture};

fn sprite(x: u32) -> Sprite {
    Sprite::new_ext(Texture { id: 1 }, rect(x, 0, 4, 4), vec2(0, 0), vec2(4, 4))
}

fn font(with_replacement: bool) -> SpriteFont {
    let mut glyphs = vec![
        ('a', SpriteGlyph::new(Some(sprite(0)), 5)),
        (' ', SpriteGlyph::new(None, 3)),
        ('b', SpriteGlyph::new(Some(sprite(4)), 6)),
    ];
    if with_replacement {
        glyphs.push(('\0', SpriteGlyph::new(Some(sprite(8)), 7)));
    }
    SpriteFont { ascent: 10, descent: -3, line_gap: 1, glyphs, kerning: vec![] }
}

#[test]
fn layout_advances_pen_and_wraps_lines() {
    let f = font(false);
    let layout = f.layout_text("a b\nba");
    let spots: Vec<(u32, i128, i128)> = layout.placed.iter().map(|p| (p.sprite.rect.x, p.x, p.y)).collect();
    assert_eq!(spots, vec![(0, 0, 0), (4, 8, 0), (4, 0, 14), (0, 6, 14)]);
    assert!(layout.missing.is_empty());
}

#[test]
fn missing_glyph_is_reported_and_pen_stays() {
    let f = font(false);
    let layout = f.layout_text("aza");
    let xs: Vec<i128> = layout.placed.iter().map(|p| p.x).collect();
    assert_eq!(xs, vec![0, 5]);
    assert_eq!(layout.missing, vec!['z']);
}

#[test]
fn unknown_character_falls_back_to_replacement_glyph() {
    let f = font(true);
    let layout = f.layout_text("zq");
    let spots: Vec<(u32, i128)> = layout.placed.iter().map(|p| (p.sprite.rect.x, p.x)).collect();
    assert_eq!(spots, vec![(8, 0), (8, 7)]);
    assert!(layout.missing.is_empty());
}
