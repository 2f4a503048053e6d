//! The chunked model format: a sequence of tagged, length-prefixed chunks.
//! The material chunk and the geometry chunk are decoded field by field;
//! other chunks are kept as raw payloads. Matrix and vector entries are
//! carried as 32-bit patterns; strings are byte strings up to their NUL.

use vstd::prelude::*;

use crate::file::{
    counted_string_at, le16_at, le32_at, ByteReader, ParseError, ReadFatBool, ReadString, ReadVec,
    Vec3Bits, Vec4Bits,
};
use crate::scene::MeshDef;

verus! {

/// An axis-aligned bounding box with a yaw, as the material chunk stores it.
#[derive(Clone, Copy, Debug, PartialEq, Eq, Structural)]
pub struct BoundingBox {
    pub min: Vec3Bits,
    pub max: Vec3Bits,
    pub center: Vec3Bits,
    pub rot_y: u32,
}

/// One texture reference of the material chunk.
#[derive(Clone, Debug)]
pub struct Bitmap {
    pub path: Vec<u8>,
    pub bitmap_type: u32,
    pub index: u32,
}

/// One material property record of the material chunk.
#[derive(Clone, Debug)]
pub struct MatProp {
    pub ambient: Vec4Bits,
    pub diffuse: Vec4Bits,
    pub specular: Vec4Bits,
    pub emissive: Vec4Bits,
    pub shine: u32,
    pub alpha: u32,
    pub alphatype: u32,
    pub bitfield: u32,
    pub animname: Vec<u8>,
}

/// The decoded material chunk.
#[derive(Clone, Debug)]
pub struct MDL2 {
    pub inertia_multi: Vec3Bits,
    pub bounding_radius: u32,
    pub distance_fades: u32,
    pub bounding_box: Option<BoundingBox>,
    pub use_unique_materials: u32,
    pub use_unique_textures: u32,
    pub use_generic_geometry: u32,
    pub vertex_buffer_flags: u32,
    pub u0: Vec<u8>,
    pub bitmaps: Vec<Bitmap>,
    pub mat_props: Vec<MatProp>,
}

/// One texture-blend layer.
#[derive(Clone, Copy, Debug, PartialEq, Eq, Structural)]
pub struct Blend {
    pub effect: u32,
    pub texture_index: u16,
    pub coordinate_index: u8,
    pub tiling_info: u8,
}

/// The four blend layers of a render group.
#[derive(Clone, Debug)]
pub struct TexBlend {
    pub effectmask: u16,
    pub render_reference: u16,
    pub effects: u16,
    pub custom: u8,
    pub coordinates: u8,
    pub blends: Vec<Blend>,
}

/// A render group's interleaved vertex buffer and its layout.
#[derive(Clone, Debug)]
pub struct Vertex {
    pub offset_vector: u32,
    pub offset_normal: u32,
    pub offset_colour: u32,
    pub offset_texcoord: u32,
    pub size_vertstruct: u32,
    pub num_texcoords: u32,
    pub flags: u16,
    pub vertices: u16,
    pub managedbuffer: u16,
    pub currentvertex: u16,
    pub u0: Vec<u8>,
    pub buffer: Vec<u8>,
}

/// A render group's index data.
#[derive(Clone, Debug)]
pub struct Fill {
    pub selectable_prim_blocks: u32,
    pub fill_type: u32,
    pub indicies: Vec<u16>,
}

/// One drawable group of the geometry chunk.
#[derive(Clone, Debug)]
pub struct RenderGroup {
    pub polygons: u16,
    pub vertices: u16,
    pub material: u16,
    pub effects: u16,
    pub u0: Vec<u8>,
    pub tex_blend: TexBlend,
    pub vertex: Vertex,
    pub fill: Fill,
}

/// One detail level of the geometry chunk.
#[derive(Clone, Debug)]
pub struct DetailLevel {
    pub detail_type: u32,
    pub maxed_ge_length: u32,
    pub u0: Vec<u8>,
    pub render_groups: Vec<RenderGroup>,
}

/// The decoded geometry chunk: its detail levels.
pub type Geo1 = Vec<DetailLevel>;

/// One chunk of the model file.
#[derive(Clone, Debug)]
pub enum MD2Chunk {
    MDL0(Vec<u8>),
    MDL1(Vec<u8>),
    MDL2(MDL2),
    GEO0(Vec<u8>),
    GEO1(Geo1),
    P2G0(Vec<u8>),
    COLD(Vec<u8>),
    SHA0(Vec<u8>),
    /// An unrecognised chunk: its tag and its payload.
    Unknown(Vec<u8>, Vec<u8>),
}

/// A whole model file: its chunks, in file order.
pub type MD2 = Vec<MD2Chunk>;

/// The shape every decoded bitmap has: a path field of at most 256 bytes.
pub open spec fn bitmap_wf(b: Bitmap) -> bool {
    b.path@.len() <= 256
}

/// The shape every decoded material property has.
pub open spec fn mat_prop_wf(m: MatProp) -> bool {
    m.animname@.len() <= 8
}

/// The shape every decoded material chunk has: its unknown block is 48
/// bytes, and every bitmap and property is shaped as decoded.
pub open spec fn mdl2_wf(m: MDL2) -> bool {
    &&& m.u0@.len() == 48
    &&& forall|i: int| 0 <= i < m.bitmaps@.len() ==> bitmap_wf(#[trigger] m.bitmaps@[i])
    &&& forall|i: int| 0 <= i < m.mat_props@.len() ==> mat_prop_wf(#[trigger] m.mat_props@[i])
}

/// The shape every decoded texture blend has: exactly four layers.
pub open spec fn tex_blend_wf(t: TexBlend) -> bool {
    t.blends@.len() == 4
}

/// The shape every decoded vertex record has: an 8-byte unknown block and a
/// buffer never longer than its declared vertex count times its stride.
pub open spec fn vertex_wf(v: Vertex) -> bool {
    &&& v.u0@.len() == 8
    &&& v.buffer@.len() <= v.vertices * v.size_vertstruct
}

/// The shape every decoded render group has.
pub open spec fn render_group_wf(g: RenderGroup) -> bool {
    &&& g.u0@.len() == 12
    &&& tex_blend_wf(g.tex_blend)
    &&& vertex_wf(g.vertex)
}

/// The shape every decoded detail level has.
pub open spec fn detail_level_wf(d: DetailLevel) -> bool {
    &&& d.u0@.len() == 8
    &&& forall|i: int| 0 <= i < d.render_groups@.len() ==> render_group_wf(
        #[trigger] d.render_groups@[i],
    )
}

/// The shape every decoded chunk has.
pub open spec fn chunk_wf(c: MD2Chunk) -> bool {
    match c {
        MD2Chunk::MDL2(m) => mdl2_wf(m),
        MD2Chunk::GEO1(levels) => forall|i: int|
            0 <= i < levels@.len() ==> detail_level_wf(#[trigger] levels@[i]),
        MD2Chunk::Unknown(tag, _) => tag@.len() <= 4,
        _ => true,
    }
}

/// Decode one bounding box: min, max and center vectors, then the yaw.
fn read_bounding_box(r: &mut ByteReader) -> (res: Result<BoundingBox, ParseError>)
    ensures
        final(r).data() == old(r).data(),
        match res {
            Ok(b) => {
                &&& old(r).remaining() >= 40
                &&& b.min.x == le32_at(old(r).data(), old(r).position() as int)
                &&& b.min.y == le32_at(old(r).data(), old(r).position() as int + 4)
                &&& b.min.z == le32_at(old(r).data(), old(r).position() as int + 8)
                &&& b.max.x == le32_at(old(r).data(), old(r).position() as int + 12)
                &&& b.max.y == le32_at(old(r).data(), old(r).position() as int + 16)
                &&& b.max.z == le32_at(old(r).data(), old(r).position() as int + 20)
                &&& b.center.x == le32_at(old(r).data(), old(r).position() as int + 24)
                &&& b.center.y == le32_at(old(r).data(), old(r).position() as int + 28)
                &&& b.center.z == le32_at(old(r).data(), old(r).position() as int + 32)
                &&& b.rot_y == le32_at(old(r).data(), old(r).position() as int + 36)
                &&& final(r).position() == old(r).position() + 40
            },
            Err(_) => final(r).position() >= old(r).position(),
        },
{
    let min = match r.read_vec3_bits() {
        Ok(v) => v,
        Err(e) => {
            return Err(e);
        },
    };
    let max = match r.read_vec3_bits() {
        Ok(v) => v,
        Err(e) => {
            return Err(e);
        },
    };
    let center = match r.read_vec3_bits() {
        Ok(v) => v,
        Err(e) => {
            return Err(e);
        },
    };
    let rot_y = match r.read_u32_le() {
        Ok(v) => v,
        Err(e) => {
            return Err(e);
        },
    };
    Ok(BoundingBox { min, max, center, rot_y })
}

/// Decode one bitmap record: a 256-byte counted path, a type and an index.
fn read_bitmap(r: &mut ByteReader) -> (res: Result<Bitmap, ParseError>)
    ensures
        final(r).data() == old(r).data(),
        match res {
            Ok(b) => {
                &&& old(r).remaining() >= 264
                &&& b.path@ == counted_string_at(old(r).data(), old(r).position() as int, 256)
                &&& b.bitmap_type == le32_at(old(r).data(), old(r).position() as int + 256)
                &&& b.index == le32_at(old(r).data(), old(r).position() as int + 260)
                &&& bitmap_wf(b)
                &&& final(r).position() == old(r).position() + 264
            },
            Err(_) => final(r).position() >= old(r).position(),
        },
{
    let path = match r.read_sized_string(256) {
        Ok(v) => v,
        Err(e) => {
            return Err(e);
        },
    };
    let bitmap_type = match r.read_u32_le() {
        Ok(v) => v,
        Err(e) => {
            return Err(e);
        },
    };
    let index = match r.read_u32_le() {
        Ok(v) => v,
        Err(e) => {
            return Err(e);
        },
    };
    proof {
        crate::file::lemma_counted_string_len(old(r).data(), old(r).position() as int, 256);
    }
    Ok(Bitmap { path, bitmap_type, index })
}

/// Decode one material property record.
fn read_mat_prop(r: &mut ByteReader) -> (res: Result<MatProp, ParseError>)
    ensures
        final(r).data() == old(r).data(),
        match res {
            Ok(m) => {
                &&& mat_prop_wf(m)
                &&& final(r).position() == old(r).position() + 88
            },
            Err(_) => final(r).position() >= old(r).position(),
        },
{
    let ambient = match r.read_vec4_bits() {
        Ok(v) => v,
        Err(e) => {
            return Err(e);
        },
    };
    let diffuse = match r.read_vec4_bits() {
        Ok(v) => v,
        Err(e) => {
            return Err(e);
        },
    };
    let specular = match r.read_vec4_bits() {
        Ok(v) => v,
        Err(e) => {
            return Err(e);
        },
    };
    let emissive = match r.read_vec4_bits() {
        Ok(v) => v,
        Err(e) => {
            return Err(e);
        },
    };
    let shine = match r.read_u32_le() {
        Ok(v) => v,
        Err(e) => {
            return Err(e);
        },
    };
    let alpha = match r.read_u32_le() {
        Ok(v) => v,
        Err(e) => {
            return Err(e);
        },
    };
    let alphatype = match r.read_u32_le() {
        Ok(v) => v,
        Err(e) => {
            return Err(e);
        },
    };
    let bitfield = match r.read_u32_le() {
        Ok(v) => v,
        Err(e) => {
            return Err(e);
        },
    };
    let animname = match r.read_sized_string(8) {
        Ok(v) => v,
        Err(e) => {
            return Err(e);
        },
    };
    proof {
        crate::file::lemma_counted_string_len(old(r).data(), old(r).position() as int + 80, 8);
    }
    Ok(MatProp { ambient, diffuse, specular, emissive, shine, alpha, alphatype, bitfield, animname })
}

/// Decode `count` bitmap records.
fn read_bitmaps(r: &mut ByteReader, count: u32) -> (res: Result<Vec<Bitmap>, ParseError>)
    ensures
        final(r).data() == old(r).data(),
        match res {
            Ok(bs) => forall|k: int| 0 <= k < bs@.len() ==> bitmap_wf(#[trigger] bs@[k]),
            Err(_) => true,
        },
{
    let mut bitmaps: Vec<Bitmap> = Vec::new();
    let mut i: u32 = 0;
    while i < count
        invariant
            i <= count,
            r.data() == old(r).data(),
            forall|k: int| 0 <= k < bitmaps@.len() ==> bitmap_wf(#[trigger] bitmaps@[k]),
        decreases count - i,
    {
        let b = match read_bitmap(r) {
            Ok(v) => v,
            Err(e) => {
                return Err(e);
            },
        };
        bitmaps.push(b);
        i = i + 1;
    }
    Ok(bitmaps)
}

/// Decode `count` material property records.
fn read_mat_props(r: &mut ByteReader, count: u32) -> (res: Result<Vec<MatProp>, ParseError>)
    ensures
        final(r).data() == old(r).data(),
        match res {
            Ok(ps) => forall|k: int| 0 <= k < ps@.len() ==> mat_prop_wf(#[trigger] ps@[k]),
            Err(_) => true,
        },
{
    let mut mat_props: Vec<MatProp> = Vec::new();
    let mut i: u32 = 0;
    while i < count
        invariant
            i <= count,
            r.data() == old(r).data(),
            forall|k: int| 0 <= k < mat_props@.len() ==> mat_prop_wf(#[trigger] mat_props@[k]),
        decreases count - i,
    {
        let p = match read_mat_prop(r) {
            Ok(v) => v,
            Err(e) => {
                return Err(e);
            },
        };
        mat_props.push(p);
        i = i + 1;
    }
    Ok(mat_props)
}

/// Decode the material chunk.
#[verifier::rlimit(50)]
fn read_mdl2(r: &mut ByteReader) -> (res: Result<MDL2, ParseError>)
    ensures
        final(r).data() == old(r).data(),
        match res {
            Ok(m) => mdl2_wf(m),
            Err(_) => true,
        },
{
    let inertia_multi = match r.read_vec3_bits() {
        Ok(v) => v,
        Err(e) => {
            return Err(e);
        },
    };
    let bounding_radius = match r.read_u32_le() {
        Ok(v) => v,
        Err(e) => {
            return Err(e);
        },
    };
    let distance_fades = match r.read_u32_le() {
        Ok(v) => v,
        Err(e) => {
            return Err(e);
        },
    };
    let has_box = match r.read_fat_bool() {
        Ok(v) => v,
        Err(e) => {
            return Err(e);
        },
    };
    let bounding_box = if has_box {
        match read_bounding_box(r) {
            Ok(b) => Some(b),
            Err(e) => {
                return Err(e);
            },
        }
    } else {
        None
    };
    let use_unique_materials = match r.read_u32_le() {
        Ok(v) => v,
        Err(e) => {
            return Err(e);
        },
    };
    let use_unique_textures = match r.read_u32_le() {
        Ok(v) => v,
        Err(e) => {
            return Err(e);
        },
    };
    let use_generic_geometry = match r.read_u32_le() {
        Ok(v) => v,
        Err(e) => {
            return Err(e);
        },
    };
    let vertex_buffer_flags = match r.read_u32_le() {
        Ok(v) => v,
        Err(e) => {
            return Err(e);
        },
    };
    let u0 = match r.read_exact(48) {
        Ok(v) => v,
        Err(e) => {
            return Err(e);
        },
    };
    let bitmap_count = match r.read_u32_le() {
        Ok(v) => v,
        Err(e) => {
            return Err(e);
        },
    };
    let bitmaps = match read_bitmaps(r, bitmap_count) {
        Ok(v) => v,
        Err(e) => {
            return Err(e);
        },
    };
    let prop_count = match r.read_u32_le() {
        Ok(v) => v,
        Err(e) => {
            return Err(e);
        },
    };
    let mat_props = match read_mat_props(r, prop_count) {
        Ok(v) => v,
        Err(e) => {
            return Err(e);
        },
    };
    Ok(MDL2 {
        inertia_multi,
        bounding_radius,
        distance_fades,
        bounding_box,
        use_unique_materials,
        use_unique_textures,
        use_generic_geometry,
        vertex_buffer_flags,
        u0,
        bitmaps,
        mat_props,
    })
}

/// Decode one blend layer.
fn read_blend(r: &mut ByteReader) -> (res: Result<Blend, ParseError>)
    ensures
        final(r).data() == old(r).data(),
        match res {
            Ok(b) => {
                &&& old(r).remaining() >= 8
                &&& b.effect == le32_at(old(r).data(), old(r).position() as int)
                &&& b.texture_index == le16_at(old(r).data(), old(r).position() as int + 4)
                &&& b.coordinate_index == old(r).data()[old(r).position() as int + 6]
                &&& b.tiling_info == old(r).data()[old(r).position() as int + 7]
                &&& final(r).position() == old(r).position() + 8
            },
            Err(_) => final(r).position() >= old(r).position(),
        },
{
    let effect = match r.read_u32_le() {
        Ok(v) => v,
        Err(e) => {
            return Err(e);
        },
    };
    let texture_index = match r.read_u16_le() {
        Ok(v) => v,
        Err(e) => {
            return Err(e);
        },
    };
    let coordinate_index = match r.read_u8() {
        Ok(v) => v,
        Err(e) => {
            return Err(e);
        },
    };
    let tiling_info = match r.read_u8() {
        Ok(v) => v,
        Err(e) => {
            return Err(e);
        },
    };
    Ok(Blend { effect, texture_index, coordinate_index, tiling_info })
}

/// Decode one texture blend: five header fields, then its four layers.
fn read_tex_blend(r: &mut ByteReader) -> (res: Result<TexBlend, ParseError>)
    ensures
        final(r).data() == old(r).data(),
        match res {
            Ok(t) => {
                &&& tex_blend_wf(t)
                &&& final(r).position() == old(r).position() + 40
            },
            Err(_) => final(r).position() >= old(r).position(),
        },
{
    let effectmask = match r.read_u16_le() {
        Ok(v) => v,
        Err(e) => {
            return Err(e);
        },
    };
    let render_reference = match r.read_u16_le() {
        Ok(v) => v,
        Err(e) => {
            return Err(e);
        },
    };
    let effects = match r.read_u16_le() {
        Ok(v) => v,
        Err(e) => {
            return Err(e);
        },
    };
    let custom = match r.read_u8() {
        Ok(v) => v,
        Err(e) => {
            return Err(e);
        },
    };
    let coordinates = match r.read_u8() {
        Ok(v) => v,
        Err(e) => {
            return Err(e);
        },
    };
    let mut blends: Vec<Blend> = Vec::new();
    let mut i: usize = 0;
    while i < 4
        invariant
            i <= 4,
            blends@.len() == i,
            r.data() == old(r).data(),
            r.position() == old(r).position() + 8 + 8 * i,
        decreases 4 - i,
    {
        let b = match read_blend(r) {
            Ok(v) => v,
            Err(_) => {
                return Err(ParseError::UnexpectedEof);
            },
        };
        blends.push(b);
        i = i + 1;
    }
    Ok(TexBlend { effectmask, render_reference, effects, custom, coordinates, blends })
}

/// Decode one vertex record: the layout header, an 8-byte unknown block,
/// then up to `vertices * size_vertstruct` bytes of interleaved vertex data
/// (less when the chunk ends first: short vertex data is truncated, not
/// rejected).
fn read_vertex(r: &mut ByteReader) -> (res: Result<Vertex, ParseError>)
    ensures
        final(r).data() == old(r).data(),
        match res {
            Ok(v) => {
                &&& vertex_wf(v)
                &&& v.offset_vector == le32_at(old(r).data(), old(r).position() as int)
                &&& v.offset_normal == le32_at(old(r).data(), old(r).position() as int + 4)
                &&& v.offset_colour == le32_at(old(r).data(), old(r).position() as int + 8)
                &&& v.offset_texcoord == le32_at(old(r).data(), old(r).position() as int + 12)
                &&& v.size_vertstruct == le32_at(old(r).data(), old(r).position() as int + 16)
                &&& v.flags == le16_at(old(r).data(), old(r).position() as int + 24)
                &&& final(r).position() >= old(r).position() + 40
            },
            Err(_) => final(r).position() >= old(r).position(),
        },
{
    let offset_vector = match r.read_u32_le() {
        Ok(v) => v,
        Err(e) => {
            return Err(e);
        },
    };
    let offset_normal = match r.read_u32_le() {
        Ok(v) => v,
        Err(e) => {
            return Err(e);
        },
    };
    let offset_colour = match r.read_u32_le() {
        Ok(v) => v,
        Err(e) => {
            return Err(e);
        },
    };
    let offset_texcoord = match r.read_u32_le() {
        Ok(v) => v,
        Err(e) => {
            return Err(e);
        },
    };
    let size_vertstruct = match r.read_u32_le() {
        Ok(v) => v,
        Err(e) => {
            return Err(e);
        },
    };
    let num_texcoords = match r.read_u32_le() {
        Ok(v) => v,
        Err(e) => {
            return Err(e);
        },
    };
    let flags = match r.read_u16_le() {
        Ok(v) => v,
        Err(e) => {
            return Err(e);
        },
    };
    let vertices = match r.read_u16_le() {
        Ok(v) => v,
        Err(e) => {
            return Err(e);
        },
    };
    let managedbuffer = match r.read_u16_le() {
        Ok(v) => v,
        Err(e) => {
            return Err(e);
        },
    };
    let currentvertex = match r.read_u16_le() {
        Ok(v) => v,
        Err(e) => {
            return Err(e);
        },
    };
    let u0 = match r.read_exact(8) {
        Ok(v) => v,
        Err(e) => {
            return Err(e);
        },
    };
    proof {
        assert((vertices as u64) * (size_vertstruct as u64) <= 0xFFFF * 0xFFFF_FFFFu64)
            by (nonlinear_arith)
            requires
                vertices as u64 <= 0xFFFF,
                size_vertstruct as u64 <= 0xFFFF_FFFFu64,
        ;
    }
    let want64: u64 = (vertices as u64) * (size_vertstruct as u64);
    let rem = r.remaining_len();
    let want: usize = if want64 <= rem as u64 {
        want64 as usize
    } else {
        rem
    };
    let buffer = r.read_up_to(want);
    Ok(Vertex {
        offset_vector,
        offset_normal,
        offset_colour,
        offset_texcoord,
        size_vertstruct,
        num_texcoords,
        flags,
        vertices,
        managedbuffer,
        currentvertex,
        u0,
        buffer,
    })
}

/// Decode one fill record: two header fields, an index count, then that many
/// 16-bit indices.
fn read_fill(r: &mut ByteReader) -> (res: Result<Fill, ParseError>)
    ensures
        final(r).data() == old(r).data(),
        match res {
            Ok(f) => {
                &&& f.selectable_prim_blocks == le32_at(old(r).data(), old(r).position() as int)
                &&& f.fill_type == le32_at(old(r).data(), old(r).position() as int + 4)
                &&& f.indicies@.len() == le32_at(old(r).data(), old(r).position() as int + 8)
                &&& forall|k: int|
                    0 <= k < f.indicies@.len() ==> #[trigger] f.indicies@[k] == le16_at(
                        old(r).data(),
                        old(r).position() as int + 12 + 2 * k,
                    )
                &&& final(r).position() == old(r).position() + 12 + 2 * f.indicies@.len()
            },
            Err(_) => final(r).position() >= old(r).position(),
        },
{
    let selectable_prim_blocks = match r.read_u32_le() {
        Ok(v) => v,
        Err(e) => {
            return Err(e);
        },
    };
    let fill_type = match r.read_u32_le() {
        Ok(v) => v,
        Err(e) => {
            return Err(e);
        },
    };
    let count = match r.read_u32_le() {
        Ok(v) => v,
        Err(e) => {
            return Err(e);
        },
    };
    let mut indicies: Vec<u16> = Vec::new();
    let mut i: u32 = 0;
    while i < count
        invariant
            i <= count,
            r.data() == old(r).data(),
            r.position() == old(r).position() + 12 + 2 * i,
            indicies@.len() == i,
            forall|k: int|
                0 <= k < i ==> #[trigger] indicies@[k] == le16_at(
                    old(r).data(),
                    old(r).position() as int + 12 + 2 * k,
                ),
        decreases count - i,
    {
        let v = match r.read_u16_le() {
            Ok(v) => v,
            Err(_) => {
                return Err(ParseError::UnexpectedEof);
            },
        };
        indicies.push(v);
        i = i + 1;
    }
    Ok(Fill { selectable_prim_blocks, fill_type, indicies })
}

/// Decode one render group: its counts, a 12-byte unknown block, its texture
/// blend, its vertex record and its fill record, in that order.
fn read_render_group(r: &mut ByteReader) -> (res: Result<RenderGroup, ParseError>)
    ensures
        final(r).data() == old(r).data(),
        match res {
            Ok(g) => {
                &&& render_group_wf(g)
                &&& final(r).position() > old(r).position()
            },
            Err(_) => final(r).position() >= old(r).position(),
        },
{
    let polygons = match r.read_u16_le() {
        Ok(v) => v,
        Err(e) => {
            return Err(e);
        },
    };
    let vertices = match r.read_u16_le() {
        Ok(v) => v,
        Err(e) => {
            return Err(e);
        },
    };
    let material = match r.read_u16_le() {
        Ok(v) => v,
        Err(e) => {
            return Err(e);
        },
    };
    let effects = match r.read_u16_le() {
        Ok(v) => v,
        Err(e) => {
            return Err(e);
        },
    };
    let u0 = match r.read_exact(12) {
        Ok(v) => v,
        Err(e) => {
            return Err(e);
        },
    };
    let tex_blend = match read_tex_blend(r) {
        Ok(v) => v,
        Err(e) => {
            return Err(e);
        },
    };
    let vertex = match read_vertex(r) {
        Ok(v) => v,
        Err(e) => {
            return Err(e);
        },
    };
    let fill = match read_fill(r) {
        Ok(v) => v,
        Err(e) => {
            return Err(e);
        },
    };
    Ok(RenderGroup { polygons, vertices, material, effects, u0, tex_blend, vertex, fill })
}

/// Decode one detail level: its type, its fade length pattern, its group
/// count, an 8-byte unknown block, then its render groups.
fn read_detail_level(r: &mut ByteReader) -> (res: Result<DetailLevel, ParseError>)
    ensures
        final(r).data() == old(r).data(),
        match res {
            Ok(d) => {
                &&& detail_level_wf(d)
                &&& final(r).position() > old(r).position()
            },
            Err(_) => final(r).position() >= old(r).position(),
        },
{
    let detail_type = match r.read_u32_le() {
        Ok(v) => v,
        Err(e) => {
            return Err(e);
        },
    };
    let maxed_ge_length = match r.read_u32_le() {
        Ok(v) => v,
        Err(e) => {
            return Err(e);
        },
    };
    let group_count = match r.read_u32_le() {
        Ok(v) => v,
        Err(e) => {
            return Err(e);
        },
    };
    let u0 = match r.read_exact(8) {
        Ok(v) => v,
        Err(e) => {
            return Err(e);
        },
    };
    let mut render_groups: Vec<RenderGroup> = Vec::new();
    let mut i: u32 = 0;
    while i < group_count
        invariant
            i <= group_count,
            r.data() == old(r).data(),
            r.position() > old(r).position(),
            forall|k: int| 0 <= k < render_groups@.len() ==> render_group_wf(
                #[trigger] render_groups@[k],
            ),
        decreases group_count - i,
    {
        let g = match read_render_group(r) {
            Ok(v) => v,
            Err(_) => {
                return Err(ParseError::UnexpectedEof);
            },
        };
        render_groups.push(g);
        i = i + 1;
    }
    Ok(DetailLevel { detail_type, maxed_ge_length, u0, render_groups })
}

/// Decode the geometry chunk: its level count, then that many detail levels.
fn read_geo1(r: &mut ByteReader) -> (res: Result<Geo1, ParseError>)
    ensures
        final(r).data() == old(r).data(),
        match res {
            Ok(levels) => {
                &&& levels@.len() == le32_at(old(r).data(), old(r).position() as int)
                &&& forall|i: int| 0 <= i < levels@.len() ==> detail_level_wf(
                    #[trigger] levels@[i],
                )
            },
            Err(_) => true,
        },
{
    let count = match r.read_u32_le() {
        Ok(v) => v,
        Err(e) => {
            return Err(e);
        },
    };
    let mut levels: Vec<DetailLevel> = Vec::new();
    let mut i: u32 = 0;
    while i < count
        invariant
            i <= count,
            r.data() == old(r).data(),
            levels@.len() == i,
            forall|k: int| 0 <= k < levels@.len() ==> detail_level_wf(#[trigger] levels@[k]),
        decreases count - i,
    {
        let d = match read_detail_level(r) {
            Ok(v) => v,
            Err(_) => {
                return Err(ParseError::UnexpectedEof);
            },
        };
        levels.push(d);
        i = i + 1;
    }
    Ok(levels)
}

/// Whether a four-byte chunk tag equals the given bytes.
fn tag_eq(tag: &Vec<u8>, t0: u8, t1: u8, t2: u8, t3: u8) -> (r: bool)
    ensures
        r == (tag@ =~= seq![t0, t1, t2, t3]),
{
    if tag.len() == 4 {
        tag[0] == t0 && tag[1] == t1 && tag[2] == t2 && tag[3] == t3
    } else {
        false
    }
}

/// Decode a whole model file: tagged, length-prefixed chunks until a chunk
/// tag that is empty (its first byte NUL). The material and geometry chunks
/// are decoded; other known tags keep their payloads; unknown tags are kept
/// with their tag. A chunk whose payload runs past the end of the buffer is
/// truncated to what is there.
pub fn load_md2(r: &mut ByteReader) -> (res: Result<MD2, ParseError>)
    ensures
        final(r).data() == old(r).data(),
        match res {
            Ok(chunks) => forall|i: int| 0 <= i < chunks@.len() ==> chunk_wf(
                #[trigger] chunks@[i],
            ),
            Err(_) => true,
        },
{
    let mut chunks: Vec<MD2Chunk> = Vec::new();
    loop
        invariant
            r.data() == old(r).data(),
            forall|k: int| 0 <= k < chunks@.len() ==> chunk_wf(#[trigger] chunks@[k]),
        ensures
            r.data() == old(r).data(),
            forall|k: int| 0 <= k < chunks@.len() ==> chunk_wf(#[trigger] chunks@[k]),
        decreases r.remaining(),
    {
        let ghost p0 = r.position();
        let tag = match r.read_sized_string(4) {
            Ok(v) => v,
            Err(e) => {
                return Err(e);
            },
        };
        proof {
            crate::file::lemma_counted_string_len(r.data(), p0 as int, 4);
        }
        if tag.len() == 0 {
            break;
        }
        let size = match r.read_u32_le() {
            Ok(v) => v,
            Err(e) => {
                return Err(e);
            },
        };
        let take_n: usize = if (size as u64) <= (usize::MAX as u64) {
            size as usize
        } else {
            usize::MAX
        };
        let payload = r.read_up_to(take_n);
        // tags are the four ASCII bytes of the chunk names
        let chunk = if tag_eq(&tag, 0x4D, 0x44, 0x4C, 0x30) {
            MD2Chunk::MDL0(payload)
        } else if tag_eq(&tag, 0x4D, 0x44, 0x4C, 0x31) {
            MD2Chunk::MDL1(payload)
        } else if tag_eq(&tag, 0x4D, 0x44, 0x4C, 0x32) {
            let mut sub = ByteReader::new(payload);
            match read_mdl2(&mut sub) {
                Ok(m) => MD2Chunk::MDL2(m),
                Err(e) => {
                    return Err(e);
                },
            }
        } else if tag_eq(&tag, 0x47, 0x45, 0x4F, 0x30) {
            MD2Chunk::GEO0(payload)
        } else if tag_eq(&tag, 0x47, 0x45, 0x4F, 0x31) {
            let mut sub = ByteReader::new(payload);
            match read_geo1(&mut sub) {
                Ok(levels) => MD2Chunk::GEO1(levels),
                Err(e) => {
                    return Err(e);
                },
            }
        } else if tag_eq(&tag, 0x50, 0x32, 0x47, 0x30) {
            MD2Chunk::P2G0(payload)
        } else if tag_eq(&tag, 0x43, 0x4F, 0x4C, 0x44) {
            MD2Chunk::COLD(payload)
        } else if tag_eq(&tag, 0x53, 0x48, 0x41, 0x30) {
            MD2Chunk::SHA0(payload)
        } else {
            MD2Chunk::Unknown(tag, payload)
        };
        chunks.push(chunk);
    }
    Ok(chunks)
}

/// Why a decoded model could not be turned into mesh definitions.
#[derive(Clone, Copy, Debug, PartialEq, Eq, Structural)]
pub enum ProcessError {
    /// The file holds no geometry chunk.
    MissingGeometry,
    /// The geometry chunk holds no detail levels.
    NoDetailLevels,
}

/// Whether a chunk is the geometry chunk.
pub open spec fn is_geo1(c: MD2Chunk) -> bool {
    c is GEO1
}

/// The detail levels of a geometry chunk.
pub open spec fn geo1_levels(c: MD2Chunk) -> Seq<DetailLevel>
    recommends
        is_geo1(c),
{
    match c {
        MD2Chunk::GEO1(levels) => levels@,
        _ => Seq::empty(),
    }
}

/// The render group's vertex layout carries a position attribute.
pub open spec fn group_has_vectors(g: RenderGroup) -> bool {
    g.vertex.flags & 0x1 == 0x1
}

/// `d` is exactly the mesh definition that the render group `g` yields: the
/// group's stride, each attribute offset present exactly when its flag bit
/// is set, the group's vertex bytes and its indices.
pub open spec fn def_matches_group(d: MeshDef, g: RenderGroup) -> bool {
    &&& d.stride == g.vertex.size_vertstruct
    &&& d.vector_offset == (if g.vertex.flags & 0x1 == 0x1 {
        Some(g.vertex.offset_vector)
    } else {
        None::<u32>
    })
    &&& d.normal_offset == (if g.vertex.flags & 0x2 == 0x2 {
        Some(g.vertex.offset_normal)
    } else {
        None::<u32>
    })
    &&& d.colour_offset == (if g.vertex.flags & 0x4 == 0x4 {
        Some(g.vertex.offset_colour)
    } else {
        None::<u32>
    })
    &&& d.texcoords_offsets@ == (if g.vertex.flags & 0x8 == 0x8 {
        seq![g.vertex.offset_texcoord]
    } else {
        Seq::<u32>::empty()
    })
    &&& d.vertex_buffer@ == g.vertex.buffer@
    &&& d.index_buffer@ == g.fill.indicies@
}

/// Copy a byte vector.
fn copy_bytes(src: &Vec<u8>) -> (out: Vec<u8>)
    ensures
        out@ == src@,
{
    let mut out: Vec<u8> = Vec::new();
    let mut i: usize = 0;
    while i < src.len()
        invariant
            i <= src@.len(),
            out@ =~= src@.take(i as int),
        decreases src@.len() - i,
    {
        out.push(src[i]);
        i = i + 1;
    }
    proof {
        assert(out@ =~= src@);
    }
    out
}

/// Copy a vector of 16-bit values.
fn copy_u16s(src: &Vec<u16>) -> (out: Vec<u16>)
    ensures
        out@ == src@,
{
    let mut out: Vec<u16> = Vec::new();
    let mut i: usize = 0;
    while i < src.len()
        invariant
            i <= src@.len(),
            out@ =~= src@.take(i as int),
        decreases src@.len() - i,
    {
        out.push(src[i]);
        i = i + 1;
    }
    proof {
        assert(out@ =~= src@);
    }
    out
}

/// Turn a decoded model into mesh definitions: the render groups of the
/// first detail level of the first geometry chunk, one definition per group,
/// in order. Fails when the file holds no geometry chunk or the chunk holds
/// no detail levels.
pub fn process_model(md2: &MD2) -> (res: Result<Vec<MeshDef>, ProcessError>)
    ensures
        match res {
            Ok(defs) => exists|gi: int|
                {
                    &&& 0 <= gi < md2@.len()
                    &&& is_geo1(#[trigger] md2@[gi])
                    &&& forall|j: int| 0 <= j < gi ==> !is_geo1(#[trigger] md2@[j])
                    &&& geo1_levels(md2@[gi]).len() > 0
                    &&& defs@.len() == geo1_levels(md2@[gi])[0].render_groups@.len()
                    &&& forall|k: int|
                        0 <= k < defs@.len() ==> def_matches_group(
                            #[trigger] defs@[k],
                            geo1_levels(md2@[gi])[0].render_groups@[k],
                        )
                },
            Err(ProcessError::MissingGeometry) => forall|j: int|
                0 <= j < md2@.len() ==> !is_geo1(#[trigger] md2@[j]),
            Err(ProcessError::NoDetailLevels) => exists|gi: int|
                {
                    &&& 0 <= gi < md2@.len()
                    &&& is_geo1(#[trigger] md2@[gi])
                    &&& forall|j: int| 0 <= j < gi ==> !is_geo1(#[trigger] md2@[j])
                    &&& geo1_levels(md2@[gi]).len() == 0
                },
        },
{
    let mut gi: usize = 0;
    while gi < md2.len()
        invariant
            gi <= md2@.len(),
            forall|j: int| 0 <= j < gi ==> !is_geo1(#[trigger] md2@[j]),
        decreases md2@.len() - gi,
    {
        let found = match &md2[gi] {
            MD2Chunk::GEO1(_) => true,
            _ => false,
        };
        if found {
            let levels = match &md2[gi] {
                MD2Chunk::GEO1(levels) => levels,
                _ => unreached(),
            };
            if levels.len() == 0 {
                return Err(ProcessError::NoDetailLevels);
            }
            let groups = &levels[0].render_groups;
            let mut defs: Vec<MeshDef> = Vec::new();
            let mut k: usize = 0;
            while k < groups.len()
                invariant
                    k <= groups@.len(),
                    defs@.len() == k,
                    forall|m: int|
                        0 <= m < k ==> def_matches_group(#[trigger] defs@[m], groups@[m]),
                decreases groups@.len() - k,
            {
                let g = &groups[k];
                let vector_offset = if g.vertex.flags & 0x1 == 0x1 {
                    Some(g.vertex.offset_vector)
                } else {
                    None
                };
                let normal_offset = if g.vertex.flags & 0x2 == 0x2 {
                    Some(g.vertex.offset_normal)
                } else {
                    None
                };
                let colour_offset = if g.vertex.flags & 0x4 == 0x4 {
                    Some(g.vertex.offset_colour)
                } else {
                    None
                };
                let texcoords_offsets = if g.vertex.flags & 0x8 == 0x8 {
                    let mut t: Vec<u32> = Vec::new();
                    t.push(g.vertex.offset_texcoord);
                    t
                } else {
                    Vec::new()
                };
                let d = MeshDef {
                    stride: g.vertex.size_vertstruct,
                    vector_offset,
                    normal_offset,
                    colour_offset,
                    texcoords_offsets,
                    vertex_buffer: copy_bytes(&g.vertex.buffer),
                    index_buffer: copy_u16s(&g.fill.indicies),
                };
                defs.push(d);
                k = k + 1;
            }
            return Ok(defs);
        }
        gi = gi + 1;
    }
    Err(ProcessError::MissingGeometry)
}

/// Decode a model file and turn it into mesh definitions in one step.
pub fn load_model(r: &mut ByteReader) -> (res: Result<Vec<MeshDef>, ParseError>)
    ensures
        final(r).data() == old(r).data(),
{
    let md2 = match load_md2(r) {
        Ok(v) => v,
        Err(e) => {
            return Err(e);
        },
    };
    match process_model(&md2) {
        Ok(defs) => Ok(defs),
        Err(_) => Err(ParseError::InvalidData),
    }
}

} // verus!
