use kero_spr::atlas::{
    AtlasAnim, AtlasCel, AtlasError, AtlasFont, AtlasGlyph, AtlasPatch, AtlasSheet, AtlasSprite,
    AtlasTile, SpriteAtlas,
};
use kero_spr::geom::{rect, vec2};
use kero_spr::sprite::{AnimDir, AnimFrame, AnimLayer, AnimTag, Sprite, Texture};

fn empty_atlas() -> SpriteAtlas<u32> {
    SpriteAtlas { sprites: vec![], sheets: vec![], fonts: vec![], patches: vec![], anims: vec![] }
}

fn tile(x: u32) -> Option<AtlasTile> {
    Some(AtlasTile { rect: rect(x, 0, 5, 7), off: vec2(1, 2) })
}

#[test]
fn end_to_end_sprite_lookup_by_id() {
    let mut atlas = empty_atlas();
    atlas.sprites.push(AtlasSprite { id: 1, size: vec2(8, 8), rect: rect(0, 0, 8, 8), off: vec2(0, 0) });
    let texture = Texture { id: 42 };
    let mapped = atlas.create_graphics(texture).unwrap().mapped();
    let s = mapped.sprites.get(&1).unwrap();
    let r = s.rect;
    assert_eq!((r.x as f32, r.y as f32, r.w as f32, r.h as f32), (0.0, 0.0, 8.0, 8.0));
    assert_eq!(s.texture, texture);
    assert_eq!(mapped.texture, texture);
}

#[test]
fn sheet_tiles_take_uniform_tile_size() {
    let mut atlas = empty_atlas();
    atlas.sheets.push(AtlasSheet {
        id: 3,
        tile_size: vec2(16, 16),
        size: vec2(2, 2),
        tiles: vec![tile(0), None, tile(16), tile(32)],
    });
    let graphics = atlas.create_graphics(Texture { id: 1 }).unwrap();
    let (id, sheet) = &graphics.sheets[0];
    assert_eq!(*id, 3);
    assert_eq!((sheet.width, sheet.height), (2, 2));
    assert_eq!(sheet.tile(1, 0), None);
    for (x, y) in [(0, 0), (0, 1), (1, 1)] {
        let t = sheet.tile(x, y).unwrap();
        assert_eq!(t.size, vec2(16, 16));
        assert_eq!(t.offset, vec2(1, 2));
    }
    assert_eq!(sheet.tile(1, 1).unwrap().rect, rect(32, 0, 5, 7));
}

#[test]
fn sheet_with_wrong_tile_count_is_rejected() {
    let mut atlas = empty_atlas();
    atlas.sheets.push(AtlasSheet { id: 0, tile_size: vec2(4, 4), size: vec2(1, 1), tiles: vec![tile(0)] });
    atlas.sheets.push(AtlasSheet { id: 1, tile_size: vec2(4, 4), size: vec2(2, 2), tiles: vec![tile(0)] });
    atlas.sheets.push(AtlasSheet { id: 2, tile_size: vec2(4, 4), size: vec2(3, 1), tiles: vec![] });
    match atlas.create_graphics(Texture { id: 1 }) {
        Err(e) => assert_eq!(e, AtlasError::TileCountMismatch { sheet: 1 }),
        Ok(_) => panic!("malformed sheet accepted"),
    }
}

#[test]
fn zero_width_glyph_has_no_sprite_but_keeps_advance() {
    let mut atlas = empty_atlas();
    atlas.fonts.push(AtlasFont {
        id: 9,
        ascent: 12,
        descent: -4,
        line_gap: 2,
        glyphs: vec![
            AtlasGlyph { chr: ' ', adv: 10, size: vec2(0, 0), rect: rect(0, 0, 0, 0), off: vec2(0, 0) },
            AtlasGlyph { chr: 'a', adv: 6, size: vec2(5, 8), rect: rect(3, 4, 5, 8), off: vec2(0, 1) },
        ],
        kerning: vec![('a', 'b', -1), ('a', 'b', -2)],
    });
    let texture = Texture { id: 5 };
    let graphics = atlas.create_graphics(texture).unwrap();
    let font = &graphics.fonts[0].1;
    let space = font.glyph(' ').unwrap();
    assert!(space.sub().is_none());
    assert_eq!(space.advance() as f32, 10.0);
    let a = font.glyph('a').unwrap();
    assert_eq!(a.sub(), Some(Sprite::new_ext(texture, rect(3, 4, 5, 8), vec2(0, 1), vec2(5, 8))));
    assert_eq!(font.glyph('z'), None);
    assert_eq!(font.line_height(), 18);
    assert_eq!(font.kerning('a', 'b'), Some(-2));
    assert_eq!(font.kerning('b', 'a'), None);
}

#[test]
fn patches_and_anims_share_the_texture() {
    let mut atlas = empty_atlas();
    atlas.patches.push(AtlasPatch { id: 4, outer: rect(0, 0, 9, 9), inner: rect(3, 3, 3, 3) });
    atlas.anims.push(AtlasAnim {
        id: 6,
        size: vec2(10, 10),
        cels: vec![
            AtlasCel { size: vec2(10, 10), rect: rect(0, 0, 8, 9), off: vec2(1, 0) },
            AtlasCel { size: vec2(10, 10), rect: rect(8, 0, 7, 9), off: vec2(2, 0) },
        ],
        frames: vec![AnimFrame { cel: 0, duration: 100 }, AnimFrame { cel: 1, duration: 50 }],
        tags: vec![AnimTag { name: "walk".to_string(), from: 0, to: 1, dir: AnimDir::PingPong }],
        layers: vec![AnimLayer { name: "body".to_string() }],
    });
    let texture = Texture { id: 8 };
    let graphics = atlas.create_graphics(texture).unwrap();
    let (pid, patch) = graphics.patches[0];
    assert_eq!(pid, 4);
    assert_eq!(patch.texture, texture);
    assert_eq!(patch.inner, rect(3, 3, 3, 3));
    let (aid, anim) = &graphics.anims[0];
    assert_eq!(*aid, 6);
    assert_eq!(anim.size, vec2(10, 10));
    assert_eq!(anim.sprites.len(), 2);
    assert_eq!(anim.sprites[1], Sprite::new_ext(texture, rect(8, 0, 7, 9), vec2(2, 0), vec2(10, 10)));
    assert_eq!(anim.frames[1], AnimFrame { cel: 1, duration: 50 });
    assert_eq!(anim.tags[0].name, "walk");
    assert_eq!(anim.layers[0].name, "body");
}

#[test]
fn mapped_keeps_the_last_entry_of_a_repeated_id() {
    let mut atlas = empty_atlas();
    atlas.sprites.push(AtlasSprite { id: 1, size: vec2(8, 8), rect: rect(0, 0, 8, 8), off: vec2(0, 0) });
    atlas.sprites.push(AtlasSprite { id: 2, size: vec2(4, 4), rect: rect(8, 0, 4, 4), off: vec2(0, 0) });
    atlas.sprites.push(AtlasSprite { id: 1, size: vec2(2, 2), rect: rect(12, 0, 2, 2), off: vec2(0, 0) });
    let graphics = atlas.create_graphics(Texture { id: 1 }).unwrap();
    assert_eq!(graphics.sprites.len(), 3);
    assert_eq!(graphics.sprites[2].1.rect, rect(12, 0, 2, 2));
    let mapped = graphics.mapped();
    assert_eq!(mapped.sprites.len(), 2);
    assert_eq!(mapped.sprites[&1].rect, rect(12, 0, 2, 2));
    assert_eq!(mapped.sprites[&2].rect, rect(8, 0, 4, 4));
}

#[test]
fn untrimmed_sprite_takes_region_size() {
    let s = Sprite::new(Texture { id: 2 }, rect(4, 5, 6, 7));
    assert_eq!(s.offset, vec2(0, 0));
    assert_eq!(s.size, vec2(6, 7));
}
