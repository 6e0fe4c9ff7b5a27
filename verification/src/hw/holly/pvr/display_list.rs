//! Display lists: the polygons and vertices the tile accelerator receives,
//! grouped for the renderer. The builder decides which vertices belong to
//! which polygon, when a polygon is complete, and which textures a polygon
//! needs; the vertex values themselves come converted (their coordinates
//! as the bits of single-precision numbers).
use super::ta::{
    pixel_fmt_of, polygon_type_of, texture_fmt_of, vertex_type_of, ParameterControlWord, PolygonType,
    PvrPixelFmt, PvrTextureFmt, TextureControlWord, TextureShadingProcessorWord, VertexType,
};
use super::texture_cache::{texture_hash, Texture, TextureAtlas, TextureId};
use vstd::prelude::*;

verus! {

/// A display list entry: a polygon, or a texture to upload first.
#[derive(Clone, Copy, Debug)]
pub enum DisplayListItem {
    Polygon(PolygonDisplayItem),
    UploadTexture { texture: Texture, pixel_format: PvrPixelFmt, texture_format: PvrTextureFmt },
}

/// A polygon of a display list: its layouts, its texture, and the run of
/// vertices it uses.
#[derive(Clone, Copy, Debug)]
pub struct PolygonDisplayItem {
    pub texture_id: Option<TextureId>,
    pub vert_type: VertexType,
    pub poly_type: PolygonType,
    pub tsp: TextureShadingProcessorWord,
    pub starting_vert: usize,
    pub vert_len: usize,
    pub palette_selector: u32,
    pub face_color: [u8; 4],
}

/// A vertex as the renderer takes it: the bits of its single-precision
/// coordinates and texture coordinates, its packed colour, and whether it
/// ends a strip.
#[derive(Copy, Clone, Debug, Default, PartialEq, Eq, Structural)]
pub struct VertexDefinition {
    pub x: u32,
    pub y: u32,
    pub z: u32,
    pub u: u32,
    pub v: u32,
    pub end_of_strip: bool,
    pub color: u32,
}

/// The vertex that vertex parameter `w` gives in `layout`, for the layouts
/// whose fields are copied bit for bit: position from words 1 to 3, the end
/// of strip flag from bit 28 of word 0, and, by layout, texture coordinates
/// (words 5 and 4) and packed colour (word 6); `None` for the layouts whose
/// colours or texture coordinates are floating-point values to scale or
/// packed halves to widen (1, 4, 7 and 8).
pub open spec fn copied_vertex(layout: VertexType, w: Seq<u32>) -> Option<VertexDefinition> {
    let base = VertexDefinition {
        x: w[1],
        y: w[2],
        z: w[3],
        u: 0,
        v: 0,
        end_of_strip: w[0] & 0x1000_0000 != 0,
        color: 0xff00_00ff,
    };
    match layout {
        VertexType::Type1 | VertexType::Type4 | VertexType::Type7 | VertexType::Type8 => None,
        VertexType::Type2 => Some(base),
        VertexType::Type3 => Some(VertexDefinition { u: w[5], v: w[4], color: w[6], ..base }),
        VertexType::Type5 => Some(VertexDefinition { u: w[5], v: w[4], ..base }),
        _ => Some(VertexDefinition { color: w[6], ..base }),
    }
}

/// The vertex of a layout whose fields are copied bit for bit (see
/// `copied_vertex`); `None` for the layouts that need floating point.
pub fn vertex_from_words(layout: VertexType, w: [u32; 8]) -> (r: Option<VertexDefinition>)
    ensures
        r == copied_vertex(layout, w@),
{
    let base = VertexDefinition {
        x: w[1],
        y: w[2],
        z: w[3],
        u: 0,
        v: 0,
        end_of_strip: w[0] & 0x1000_0000 != 0,
        color: 0xff00_00ff,
    };
    match layout {
        VertexType::Type1 | VertexType::Type4 | VertexType::Type7 | VertexType::Type8 => None,
        VertexType::Type2 => Some(base),
        VertexType::Type3 => Some(VertexDefinition { u: w[5], v: w[4], color: w[6], ..base }),
        VertexType::Type5 => Some(VertexDefinition { u: w[5], v: w[4], ..base }),
        _ => Some(VertexDefinition { color: w[6], ..base }),
    }
}

/// A built display list: its items and the vertices the polygons use.
#[derive(Clone, Debug)]
pub struct DisplayList {
    pub items: Vec<DisplayListItem>,
    pub verts: Vec<VertexDefinition>,
}

/// The identity of a display list.
#[derive(Clone, Copy, Debug, PartialEq, Eq, Structural)]
pub struct DisplayListId(pub u32);

impl DisplayList {
    /// A list of the given items and no vertices.
    pub fn new(items: Vec<DisplayListItem>) -> (r: Self)
        ensures
            r.items@ == items@,
            r.verts@ == Seq::<VertexDefinition>::empty(),
    {
        Self { items, verts: Vec::new() }
    }

    pub fn items(&self) -> (r: &[DisplayListItem])
        ensures
            r@ == self.items@,
    {
        self.items.as_slice()
    }

    pub fn verts(&self) -> (r: &[VertexDefinition])
        ensures
            r@ == self.verts@,
    {
        self.verts.as_slice()
    }
}

/// The builder as plain values.
pub struct BuilderView {
    pub current: Option<PolygonDisplayItem>,
    pub prev_poly: Option<PolygonDisplayItem>,
    pub prev_vert: Option<[u32; 8]>,
    pub items: Seq<DisplayListItem>,
    pub verts: Seq<VertexDefinition>,
}

/// Whether the parameter words end a strip (bit 28 of the control word).
pub open spec fn ends_strip(words: [u32; 8]) -> bool {
    words[0] & 0x10000000 != 0
}

/// The builder after the open polygon `s.current` is committed: unless it
/// got no vertex, it joins the items with the vertices received since it
/// began, and is kept as the polygon a following strip continues.
pub open spec fn committed(s: BuilderView) -> BuilderView {
    let p = s.current->0;
    if s.verts.len() <= p.starting_vert {
        BuilderView { current: None, ..s }
    } else {
        BuilderView {
            current: None,
            prev_poly: Some(PolygonDisplayItem { vert_len: 0, starting_vert: s.verts.len() as usize, ..p }),
            items: s.items.push(
                DisplayListItem::Polygon(PolygonDisplayItem { vert_len: (s.verts.len() - p.starting_vert) as usize, ..p }),
            ),
            ..s
        }
    }
}

/// The palette address of a palette texture: its palette selector's upper
/// bits, in 1 KiB units.
pub open spec fn palette_addr_of(tcw: u32) -> u32 {
    ((((tcw & 0x03E00000) >> 21u32) >> 4u32) << 10u32) as u32
}

/// The texture a textured polygon with these parameter words uses: eight
/// texels shifted by the TSP size fields, at the texture address (in 8-byte
/// units).
pub open spec fn texture_of(words: [u32; 8]) -> Texture {
    let tsp = words[2];
    let tcw = words[3];
    Texture {
        width: (8u32 << ((tsp & 0x38) >> 3u32)) as u32,
        height: (8u32 << (tsp & 0x7)) as u32,
        addr: ((tcw & 0x1FFFFF) * 8) as u32,
        palette_addr: palette_addr_of(tcw),
    }
}

/// The builder after polygon parameter `words` with face colour
/// `face_color`: the open polygon is committed, and a new one opens at the
/// current vertex; a textured one first asks for its texture.
pub open spec fn poly_pushed(s: BuilderView, words: [u32; 8], face_color: [u8; 4]) -> BuilderView {
    let s1 = if s.current is Some { committed(s) } else { s };
    let pcw = words[0];
    let tcw = words[3];
    let base = PolygonDisplayItem {
        texture_id: None,
        vert_type: vertex_type_of(pcw),
        poly_type: polygon_type_of(pcw),
        tsp: TextureShadingProcessorWord { full: words[2] },
        starting_vert: s1.verts.len() as usize,
        vert_len: 0,
        palette_selector: palette_addr_of(tcw),
        face_color,
    };
    if pcw & 0x8 != 0 {
        let t = texture_of(words);
        BuilderView {
            current: Some(
                PolygonDisplayItem {
                    texture_id: Some(TextureId(texture_hash(t, texture_fmt_of(tcw), pixel_fmt_of(tcw)))),
                    ..base
                },
            ),
            prev_vert: None,
            items: s1.items.push(
                DisplayListItem::UploadTexture {
                    texture: t,
                    pixel_format: pixel_fmt_of(tcw),
                    texture_format: texture_fmt_of(tcw),
                },
            ),
            ..s1
        }
    } else {
        BuilderView { current: Some(base), prev_vert: None, ..s1 }
    }
}

/// The builder before a vertex is taken: after a strip ended with no
/// polygon open, the polygon of that strip continues.
pub open spec fn continued(s: BuilderView) -> BuilderView {
    if s.current is None && s.prev_poly is Some && s.prev_vert is Some && ends_strip(s.prev_vert->0) {
        BuilderView { current: s.prev_poly, prev_poly: None, ..s }
    } else {
        s
    }
}

/// The builder after vertex parameter `words`, converted to `vert`: without
/// an open polygon it is dropped; a sprite's vertex commits the sprite; a
/// modifier volume's is ignored; any other joins the vertices, and commits
/// the polygon when it ends the strip.
pub open spec fn vert_pushed(s: BuilderView, words: [u32; 8], vert: VertexDefinition) -> BuilderView {
    let s1 = continued(s);
    match s1.current {
        None => s1,
        Some(p) => if p.vert_type == VertexType::SpriteType0 || p.vert_type == VertexType::SpriteType1 {
            committed(s1)
        } else if p.vert_type == VertexType::ModVol {
            s1
        } else {
            let s2 = BuilderView {
                verts: s1.verts.push(VertexDefinition { end_of_strip: ends_strip(words), ..vert }),
                prev_vert: Some(words),
                ..s1
            };
            if ends_strip(words) {
                committed(s2)
            } else {
                s2
            }
        },
    }
}

/// Collects the polygons and vertices of one display list.
#[derive(Clone, Debug)]
pub struct DisplayListBuilder {
    /// The polygon being received.
    pub current_poly: Option<PolygonDisplayItem>,
    prev_poly: Option<PolygonDisplayItem>,
    prev_vert: Option<[u32; 8]>,
    /// The items and vertices received so far.
    pub pending_list: Vec<DisplayListItem>,
    pub verts: Vec<VertexDefinition>,
}

impl DisplayListBuilder {
    /// The builder as plain values.
    pub closed spec fn view(&self) -> BuilderView {
        BuilderView {
            current: self.current_poly,
            prev_poly: self.prev_poly,
            prev_vert: self.prev_vert,
            items: self.pending_list@,
            verts: self.verts@,
        }
    }

    /// Nothing received.
    pub fn new() -> (r: Self)
        ensures
            r@.current is None,
            r@.prev_poly is None,
            r@.prev_vert is None,
            r@.items == Seq::<DisplayListItem>::empty(),
            r@.verts == Seq::<VertexDefinition>::empty(),
    {
        Self { pending_list: Vec::new(), verts: Vec::new(), current_poly: None, prev_poly: None, prev_vert: None }
    }

    /// Commits the open polygon.
    fn commit_pending_polygon(&mut self)
        requires
            old(self)@.current is Some,
        ensures
            final(self)@ == committed(old(self)@),
    {
        let mut poly = match self.current_poly {
            Some(p) => p,
            None => return,
        };
        if !(self.verts.len() > poly.starting_vert) {
            self.current_poly = None;
            return;
        }
        poly.vert_len = self.verts.len() - poly.starting_vert;
        let poly_item = DisplayListItem::Polygon(poly);
        self.pending_list.push(poly_item);
        poly.vert_len = 0;
        poly.starting_vert = self.verts.len();
        self.prev_poly = Some(poly);
        self.current_poly = None;
    }

    /// The texture of a textured polygon.
    fn polygon_texture(tsp: TextureShadingProcessorWord, tcw: TextureControlWord) -> (r: Texture)
        ensures
            r == texture_of([0, 0, tsp.full, tcw.full, 0, 0, 0, 0]),
    {
        proof {
            let t = tsp.full;
            let c = tcw.full;
            assert((t & 0x38) >> 3u32 <= 7 && t & 0x7 <= 7) by (bit_vector);
            assert(c & 0x1FFFFF <= 0x1FFFFF) by (bit_vector);
        }
        let width = 8u32 << tsp.texture_u_size();
        let height = 8u32 << tsp.texture_v_size();
        let texture_addr = (tcw.full & 0x1FFFFF) * 8;
        let palette_addr = (tcw.palette().palette_selector() >> 4u32) << 10u32;
        Texture { width, height, addr: texture_addr, palette_addr }
    }

    /// Takes a polygon or sprite parameter (its first eight words) with its
    /// face colour: commits the open polygon and opens this one, asking for
    /// its texture first when it is textured.
    pub fn push_poly(&mut self, poly: [u32; 8], face_color: [u8; 4])
        ensures
            final(self)@ == poly_pushed(old(self)@, poly, face_color),
    {
        if self.current_poly.is_some() {
            self.commit_pending_polygon();
        }
        self.prev_vert = None;
        let pcw = ParameterControlWord::new(poly[0]);
        let tsp = TextureShadingProcessorWord::new(poly[2]);
        let tcw = TextureControlWord::new(poly[3]);
        let palette_selector = (tcw.palette().palette_selector() >> 4u32) << 10u32;
        proof {
            assert(texture_of(poly) == texture_of([0, 0, poly[2], poly[3], 0, 0, 0, 0]));
        }
        if pcw.texture() {
            let texture = Self::polygon_texture(tsp, tcw);
            let texture_format = tcw.texture_fmt();
            let pixel_format = tcw.pixel_fmt();
            let texture_id = TextureAtlas::hash_texture(&texture, texture_format, pixel_format);
            self.pending_list.push(DisplayListItem::UploadTexture { texture, texture_format, pixel_format });
            self.current_poly = Some(
                PolygonDisplayItem {
                    texture_id: Some(TextureId(texture_id)),
                    starting_vert: self.verts.len(),
                    tsp,
                    vert_len: 0,
                    poly_type: pcw.poly_type(),
                    vert_type: pcw.vert_type(),
                    face_color,
                    palette_selector,
                },
            );
        } else {
            self.current_poly = Some(
                PolygonDisplayItem {
                    texture_id: None,
                    starting_vert: self.verts.len(),
                    tsp,
                    vert_len: 0,
                    vert_type: pcw.vert_type(),
                    poly_type: pcw.poly_type(),
                    face_color,
                    palette_selector,
                },
            );
        }
    }

    /// The vertex layout and face colour the next vertex will be read with,
    /// or `None` when it will be dropped.
    pub fn vertex_layout(&self) -> (r: Option<(VertexType, [u8; 4])>)
        ensures
            r == match continued(self@).current {
                Some(p) => Some((p.vert_type, p.face_color)),
                None => None,
            },
    {
        let continues = self.current_poly.is_none() && self.prev_poly.is_some() && match self.prev_vert {
            Some(w) => w[0] & 0x10000000 != 0,
            None => false,
        };
        let poly = if continues { self.prev_poly } else { self.current_poly };
        match poly {
            Some(p) => Some((p.vert_type, p.face_color)),
            None => None,
        }
    }

    /// Takes a vertex parameter (its first eight words), converted to
    /// `vert` with the layout `vertex_layout` gives.
    pub fn push_vert(&mut self, value: [u32; 8], vert: VertexDefinition)
        requires
            continued(old(self)@).current matches Some(p) && (p.vert_type == VertexType::SpriteType0
                || p.vert_type == VertexType::SpriteType1) ==> ends_strip(value),
        ensures
            final(self)@ == vert_pushed(old(self)@, value, vert),
    {
        let pcw = ParameterControlWord::new(value[0]);
        let vert = VertexDefinition { end_of_strip: pcw.end_of_strip(), ..vert };
        let prev_ends = match self.prev_vert {
            Some(w) => w[0] & 0x10000000 != 0,
            None => false,
        };
        if self.current_poly.is_none() && self.prev_poly.is_some() && prev_ends {
            self.current_poly = self.prev_poly;
            self.prev_poly = None;
        }
        let vert_type = match self.current_poly {
            Some(p) => p.vert_type,
            None => return,
        };
        match vert_type {
            VertexType::SpriteType0 | VertexType::SpriteType1 => {
                self.commit_pending_polygon();
                return;
            },
            VertexType::ModVol => {
                return;
            },
            _ => {
                self.verts.push(vert);
                self.prev_vert = Some(value);
            },
        }
        if pcw.end_of_strip() {
            self.commit_pending_polygon();
        }
    }

    /// Hands out the display list received so far and starts afresh.
    pub fn build(&mut self) -> (r: DisplayList)
        ensures
            r.items@ == old(self)@.items,
            r.verts@ == old(self)@.verts,
            final(self)@.current is None,
            final(self)@.prev_poly is None,
            final(self)@.prev_vert is None,
            final(self)@.items == Seq::<DisplayListItem>::empty(),
            final(self)@.verts == Seq::<VertexDefinition>::empty(),
    {
        let mut items = Vec::new();
        std::mem::swap(&mut items, &mut self.pending_list);
        let mut verts = Vec::new();
        std::mem::swap(&mut verts, &mut self.verts);
        self.prev_poly = None;
        self.current_poly = None;
        self.prev_vert = None;
        DisplayList { items, verts }
    }
}

/// The polygons of a builder cover runs of the vertices received: each
/// item's run is non-empty and inside the vertices, and the open and the
/// last committed polygon start inside them (of at most `usize::MAX`
/// vertices).
pub open spec fn builder_consistent(s: BuilderView) -> bool {
    &&& s.verts.len() <= usize::MAX
    &&& forall|i: int|
        0 <= i < s.items.len() ==> (#[trigger] s.items[i] matches DisplayListItem::Polygon(p) ==> p.vert_len > 0
            && p.starting_vert + p.vert_len <= s.verts.len())
    &&& s.current matches Some(p) ==> p.starting_vert <= s.verts.len()
    &&& s.prev_poly matches Some(p) ==> p.starting_vert <= s.verts.len()
}

proof fn lemma_committed_consistent(s: BuilderView)
    requires
        builder_consistent(s),
        s.current is Some,
    ensures
        builder_consistent(committed(s)),
        committed(s).verts == s.verts,
{
    let c = committed(s);
    assert forall|i: int| 0 <= i < c.items.len() implies (#[trigger] c.items[i] matches DisplayListItem::Polygon(p)
        ==> p.vert_len > 0 && p.starting_vert + p.vert_len <= c.verts.len()) by {
        if i < s.items.len() {
            assert(c.items[i] == s.items[i]);
        }
    }
}

/// Every polygon in a display list covers a non-empty run of the vertices
/// received, whatever polygons and vertices arrive: building keeps the
/// items consistent with the vertices.
pub proof fn law_polygons_cover_received_vertices(s: BuilderView, words: [u32; 8], face_color: [u8; 4], vert: VertexDefinition)
    requires
        builder_consistent(s),
        s.verts.len() < usize::MAX,
    ensures
        builder_consistent(poly_pushed(s, words, face_color)),
        builder_consistent(vert_pushed(s, words, vert)),
{
    let s1 = if s.current is Some { committed(s) } else { s };
    if s.current is Some {
        lemma_committed_consistent(s);
    }
    let a = poly_pushed(s, words, face_color);
    assert forall|i: int| 0 <= i < a.items.len() implies (#[trigger] a.items[i] matches DisplayListItem::Polygon(p)
        ==> p.vert_len > 0 && p.starting_vert + p.vert_len <= a.verts.len()) by {
        if i < s1.items.len() {
            assert(a.items[i] == s1.items[i]);
        }
    }
    let c = continued(s);
    assert(builder_consistent(c));
    match c.current {
        None => {},
        Some(p) => {
            if p.vert_type == VertexType::SpriteType0 || p.vert_type == VertexType::SpriteType1 {
                lemma_committed_consistent(c);
            } else if p.vert_type == VertexType::ModVol {
            } else {
                let s2 = BuilderView {
                    verts: c.verts.push(VertexDefinition { end_of_strip: ends_strip(words), ..vert }),
                    prev_vert: Some(words),
                    ..c
                };
                assert forall|i: int| 0 <= i < s2.items.len() implies (#[trigger] s2.items[i] matches DisplayListItem::Polygon(q)
                    ==> q.vert_len > 0 && q.starting_vert + q.vert_len <= s2.verts.len()) by {
                    assert(s2.items[i] == c.items[i]);
                }
                assert(builder_consistent(s2));
                if ends_strip(words) {
                    lemma_committed_consistent(s2);
                }
            }
        },
    }
}

} // verus!
