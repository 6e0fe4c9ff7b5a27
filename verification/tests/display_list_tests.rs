use emerald_core::hw::holly::pvr::display_list::{vertex_from_words, DisplayListBuilder, DisplayListItem, VertexDefinition};
use emerald_core::hw::holly::pvr::ta::{PvrPixelFmt, PvrTextureFmt, VertexType};
use emerald_core::hw::holly::pvr::texture_cache::{Texture, TextureAtlas};

const POLY: u32 = 0x8000_0000;
const VERT: u32 = 0xE000_0000;
const VERT_END: u32 = 0xF000_0000;

fn vertex(x: u32) -> VertexDefinition {
    VertexDefinition { x, y: 0, z: 0, u: 0, v: 0, end_of_strip: false, color: 0xff00_00ff }
}

fn words(w0: u32) -> [u32; 8] {
    [w0, 0, 0, 0, 0, 0, 0, 0]
}

#[test]
fn strip_becomes_one_polygon() {
    let mut b = DisplayListBuilder::new();
    b.push_poly(words(POLY), [1, 2, 3, 4]);
    assert_eq!(b.vertex_layout(), Some((VertexType::Type0, [1, 2, 3, 4])));
    b.push_vert(words(VERT), vertex(1));
    b.push_vert(words(VERT), vertex(2));
    b.push_vert(words(VERT_END), vertex(3));
    let list = b.build();
    assert_eq!(list.items.len(), 1);
    match list.items[0] {
        DisplayListItem::Polygon(p) => {
            assert_eq!(p.starting_vert, 0);
            assert_eq!(p.vert_len, 3);
            assert_eq!(p.face_color, [1, 2, 3, 4]);
            assert!(p.texture_id.is_none());
        }
        _ => panic!("expected a polygon"),
    }
    assert_eq!(list.verts.len(), 3);
    assert_eq!(list.verts[0].x, 1);
    assert!(!list.verts[0].end_of_strip);
    assert!(!list.verts[1].end_of_strip);
    assert!(list.verts[2].end_of_strip);
    // building starts afresh
    let empty = b.build();
    assert!(empty.items.is_empty());
    assert!(empty.verts.is_empty());
}

#[test]
fn following_strip_continues_the_polygon() {
    let mut b = DisplayListBuilder::new();
    b.push_poly(words(POLY), [0; 4]);
    b.push_vert(words(VERT), vertex(1));
    b.push_vert(words(VERT_END), vertex(2));
    assert!(b.current_poly.is_none());
    assert_eq!(b.vertex_layout(), Some((VertexType::Type0, [0; 4])));
    b.push_vert(words(VERT), vertex(3));
    b.push_vert(words(VERT_END), vertex(4));
    let list = b.build();
    assert_eq!(list.items.len(), 2);
    match list.items[1] {
        DisplayListItem::Polygon(p) => {
            assert_eq!(p.starting_vert, 2);
            assert_eq!(p.vert_len, 2);
        }
        _ => panic!("expected a polygon"),
    }
    assert_eq!(list.verts.len(), 4);
}

#[test]
fn vertex_without_polygon_is_dropped() {
    let mut b = DisplayListBuilder::new();
    assert_eq!(b.vertex_layout(), None);
    b.push_vert(words(VERT_END), vertex(1));
    let list = b.build();
    assert!(list.items.is_empty());
    assert!(list.verts.is_empty());
}

#[test]
fn polygon_without_vertices_is_not_kept() {
    let mut b = DisplayListBuilder::new();
    b.push_poly(words(POLY), [0; 4]);
    b.push_poly(words(POLY), [9; 4]);
    b.push_vert(words(VERT_END), vertex(1));
    let list = b.build();
    assert_eq!(list.items.len(), 1);
    match list.items[0] {
        DisplayListItem::Polygon(p) => {
            assert_eq!(p.face_color, [9; 4]);
            assert_eq!(p.vert_len, 1);
        }
        _ => panic!("expected a polygon"),
    }
}

#[test]
fn textured_polygon_asks_for_its_texture() {
    let mut b = DisplayListBuilder::new();
    // textured, packed colour; texture u size 1, v size 2; texture address 0x100 (8-byte units)
    let poly = [POLY | 0x8, 0, (1 << 3) | 2, 0x100, 0, 0, 0, 0];
    b.push_poly(poly, [0; 4]);
    assert_eq!(b.vertex_layout().map(|l| l.0), Some(VertexType::Type3));
    b.push_vert(words(VERT_END), vertex(7));
    let list = b.build();
    assert_eq!(list.items.len(), 2);
    let (texture, pf, tf) = match list.items[0] {
        DisplayListItem::UploadTexture { texture, pixel_format, texture_format } => (texture, pixel_format, texture_format),
        _ => panic!("expected a texture upload"),
    };
    assert_eq!(texture.width, 16);
    assert_eq!(texture.height, 32);
    assert_eq!(texture.addr, 0x800);
    assert_eq!(texture.palette_addr, 0);
    assert_eq!(pf, PvrPixelFmt::Argb1555);
    assert_eq!(tf, PvrTextureFmt::Twiddled);
    let expected = TextureAtlas::hash_texture(
        &Texture { width: 16, height: 32, addr: 0x800, palette_addr: 0 },
        PvrTextureFmt::Twiddled,
        PvrPixelFmt::Argb1555,
    );
    match list.items[1] {
        DisplayListItem::Polygon(p) => assert_eq!(p.texture_id.map(|t| t.0), Some(expected)),
        _ => panic!("expected a polygon"),
    }
}

#[test]
fn sprite_vertex_commits_the_sprite() {
    let mut b = DisplayListBuilder::new();
    b.push_poly(words(0xA000_0000), [0; 4]);
    assert_eq!(b.vertex_layout().map(|l| l.0), Some(VertexType::SpriteType0));
    b.push_vert(words(VERT_END), vertex(1));
    assert!(b.current_poly.is_none());
    let list = b.build();
    assert!(list.items.is_empty());
    assert!(list.verts.is_empty());
}

#[test]
fn vertices_copied_bit_for_bit() {
    let w: [u32; 8] = [0xF000_0000, 1, 2, 3, 4, 5, 6, 7];
    let t0 = vertex_from_words(VertexType::Type0, w).unwrap();
    assert_eq!((t0.x, t0.y, t0.z, t0.u, t0.v, t0.color), (1, 2, 3, 0, 0, 6));
    assert!(t0.end_of_strip);
    let t2 = vertex_from_words(VertexType::Type2, w).unwrap();
    assert_eq!(t2.color, 0xff00_00ff);
    let t3 = vertex_from_words(VertexType::Type3, w).unwrap();
    assert_eq!((t3.u, t3.v, t3.color), (5, 4, 6));
    let t5 = vertex_from_words(VertexType::Type5, [0xE000_0000, 1, 2, 3, 4, 5, 6, 7]).unwrap();
    assert_eq!((t5.u, t5.v, t5.color), (5, 4, 0xff00_00ff));
    assert!(!t5.end_of_strip);
    // layouts that need floating point are left to the caller
    assert!(vertex_from_words(VertexType::Type1, w).is_none());
    assert!(vertex_from_words(VertexType::Type4, w).is_none());
    assert!(vertex_from_words(VertexType::Type7, w).is_none());
    assert!(vertex_from_words(VertexType::Type8, w).is_none());
}
