use whirled::file::{ByteReader, ParseError};
use whirled::md2::{load_md2, load_model, process_model, MD2Chunk, ProcessError};

fn push_u32(out: &mut Vec<u8>, v: u32) {
    out.extend_from_slice(&v.to_le_bytes());
}

fn push_u16(out: &mut Vec<u8>, v: u16) {
    out.extend_from_slice(&v.to_le_bytes());
}

fn push_tag(out: &mut Vec<u8>, tag: &[u8; 4]) {
    out.extend_from_slice(tag);
}

/// One render group: flags 0x1 (positions only), three 8-byte vertices,
/// indices 0 1 2.
fn render_group_bytes() -> Vec<u8> {
    let mut g = Vec::new();
    push_u16(&mut g, 1); // polygons
    push_u16(&mut g, 3); // vertices
    push_u16(&mut g, 0); // material
    push_u16(&mut g, 0); // effects
    g.extend_from_slice(&[0u8; 12]); // unknown block
    // texture blend
    push_u16(&mut g, 0); // effectmask
    push_u16(&mut g, 0); // render reference
    push_u16(&mut g, 0); // effects
    g.push(0); // custom
    g.push(0); // coordinates
    for layer in 0..4u32 {
        push_u32(&mut g, layer); // effect
        push_u16(&mut g, 0); // texture index
        g.push(0); // coordinate index
        g.push(0); // tiling info
    }
    // vertex record
    push_u32(&mut g, 0); // offset of positions
    push_u32(&mut g, 4); // offset of normals (unused: flag bit clear)
    push_u32(&mut g, 0); // offset of colours
    push_u32(&mut g, 0); // offset of texcoords
    push_u32(&mut g, 8); // stride
    push_u32(&mut g, 0); // texcoord count
    push_u16(&mut g, 0x1); // flags: positions only
    push_u16(&mut g, 3); // vertex count
    push_u16(&mut g, 0); // managed buffer
    push_u16(&mut g, 0); // current vertex
    g.extend_from_slice(&[0u8; 8]); // unknown block
    for b in 0..24u8 {
        g.push(b); // interleaved vertex bytes
    }
    // fill record
    push_u32(&mut g, 0); // selectable prim blocks
    push_u32(&mut g, 0); // fill type
    push_u32(&mut g, 3); // index count
    push_u16(&mut g, 0);
    push_u16(&mut g, 1);
    push_u16(&mut g, 2);
    g
}

fn geo1_payload() -> Vec<u8> {
    let mut p = Vec::new();
    push_u32(&mut p, 1); // one detail level
    push_u32(&mut p, 0); // detail type
    push_u32(&mut p, 0x3F800000); // fade length pattern (one)
    push_u32(&mut p, 1); // one render group
    p.extend_from_slice(&[0u8; 8]); // unknown block
    p.extend_from_slice(&render_group_bytes());
    p
}

fn geo1_file() -> Vec<u8> {
    let mut f = Vec::new();
    push_tag(&mut f, b"GEO1");
    let payload = geo1_payload();
    push_u32(&mut f, payload.len() as u32);
    f.extend_from_slice(&payload);
    f.extend_from_slice(&[0u8; 4]); // terminating empty tag
    f
}

#[test]
fn geometry_chunk_decodes_groupwise() {
    let mut r = ByteReader::new(geo1_file());
    let md2 = load_md2(&mut r).unwrap();
    assert_eq!(md2.len(), 1);
    match &md2[0] {
        MD2Chunk::GEO1(levels) => {
            assert_eq!(levels.len(), 1);
            let groups = &levels[0].render_groups;
            assert_eq!(groups.len(), 1);
            let g = &groups[0];
            assert_eq!(g.vertices, 3);
            assert_eq!(g.tex_blend.blends.len(), 4);
            assert_eq!(g.tex_blend.blends[2].effect, 2);
            assert_eq!(g.vertex.size_vertstruct, 8);
            assert_eq!(g.vertex.flags, 0x1);
            assert_eq!(g.vertex.buffer.len(), 24);
            assert_eq!(g.fill.indicies, vec![0, 1, 2]);
        }
        _ => panic!("expected the geometry chunk"),
    }
}

#[test]
fn processing_yields_one_mesh_definition() {
    let mut r = ByteReader::new(geo1_file());
    let md2 = load_md2(&mut r).unwrap();
    let defs = process_model(&md2).unwrap();
    assert_eq!(defs.len(), 1);
    let d = &defs[0];
    assert_eq!(d.stride, 8);
    assert_eq!(d.vector_offset, Some(0));
    assert_eq!(d.normal_offset, None);
    assert_eq!(d.colour_offset, None);
    assert!(d.texcoords_offsets.is_empty());
    assert_eq!(d.vertex_buffer.len(), 24);
    assert_eq!(d.vertex_buffer[5], 5);
    assert_eq!(d.index_buffer, vec![0, 1, 2]);
}

#[test]
fn load_model_combines_decode_and_processing() {
    let mut r = ByteReader::new(geo1_file());
    let defs = load_model(&mut r).unwrap();
    assert_eq!(defs.len(), 1);
    assert_eq!(defs[0].index_buffer, vec![0, 1, 2]);
}

#[test]
fn material_chunk_decodes_without_bounding_box() {
    let mut payload = Vec::new();
    for w in [10u32, 11, 12] {
        push_u32(&mut payload, w); // inertia components
    }
    push_u32(&mut payload, 0x3F000000); // bounding radius pattern (half)
    push_u32(&mut payload, 1); // distance fades
    push_u32(&mut payload, 0); // no bounding box
    push_u32(&mut payload, 0); // unique materials
    push_u32(&mut payload, 0); // unique textures
    push_u32(&mut payload, 1); // generic geometry
    push_u32(&mut payload, 0); // vertex buffer flags
    payload.extend_from_slice(&[7u8; 48]); // unknown block
    push_u32(&mut payload, 0); // no bitmaps
    push_u32(&mut payload, 0); // no material properties
    let mut f = Vec::new();
    push_tag(&mut f, b"MDL2");
    push_u32(&mut f, payload.len() as u32);
    f.extend_from_slice(&payload);
    f.extend_from_slice(&[0u8; 4]);

    let mut r = ByteReader::new(f);
    let md2 = load_md2(&mut r).unwrap();
    match &md2[0] {
        MD2Chunk::MDL2(m) => {
            assert_eq!((m.inertia_multi.x, m.inertia_multi.y, m.inertia_multi.z), (10, 11, 12));
            assert_eq!(m.bounding_radius, 0x3F000000);
            assert!(m.bounding_box.is_none());
            assert_eq!(m.use_generic_geometry, 1);
            assert_eq!(m.u0.len(), 48);
            assert!(m.bitmaps.is_empty());
            assert!(m.mat_props.is_empty());
        }
        _ => panic!("expected the material chunk"),
    }
}

#[test]
fn raw_and_unknown_chunks_keep_their_payloads() {
    let mut f = Vec::new();
    push_tag(&mut f, b"MDL0");
    push_u32(&mut f, 3);
    f.extend_from_slice(&[9, 8, 7]);
    push_tag(&mut f, b"XYZW");
    push_u32(&mut f, 2);
    f.extend_from_slice(&[1, 2]);
    f.extend_from_slice(&[0u8; 4]);

    let mut r = ByteReader::new(f);
    let md2 = load_md2(&mut r).unwrap();
    assert_eq!(md2.len(), 2);
    match &md2[0] {
        MD2Chunk::MDL0(p) => assert_eq!(p, &vec![9, 8, 7]),
        _ => panic!("expected the raw chunk"),
    }
    match &md2[1] {
        MD2Chunk::Unknown(tag, p) => {
            assert_eq!(tag, &b"XYZW".to_vec());
            assert_eq!(p, &vec![1, 2]);
        }
        _ => panic!("expected the unknown chunk"),
    }
}

#[test]
fn empty_terminator_alone_is_an_empty_model() {
    let mut r = ByteReader::new(vec![0, 0, 0, 0]);
    let md2 = load_md2(&mut r).unwrap();
    assert!(md2.is_empty());
}

#[test]
fn truncated_file_is_rejected() {
    // no terminator and no room for a tag
    let mut r = ByteReader::new(vec![b'G', b'E']);
    assert_eq!(load_md2(&mut r).unwrap_err(), ParseError::UnexpectedEof);
    // a geometry chunk whose payload ends inside a group
    let mut f = Vec::new();
    push_tag(&mut f, b"GEO1");
    push_u32(&mut f, 8);
    push_u32(&mut f, 1); // one level promised
    push_u32(&mut f, 0); // but the level is cut short
    f.extend_from_slice(&[0u8; 4]);
    let mut r = ByteReader::new(f);
    assert_eq!(load_md2(&mut r).unwrap_err(), ParseError::UnexpectedEof);
}

#[test]
fn processing_without_geometry_is_rejected() {
    let md2 = vec![MD2Chunk::MDL0(vec![1, 2, 3])];
    assert_eq!(process_model(&md2).unwrap_err(), ProcessError::MissingGeometry);
}

#[test]
fn processing_empty_geometry_is_rejected() {
    let md2 = vec![MD2Chunk::GEO1(Vec::new())];
    assert_eq!(process_model(&md2).unwrap_err(), ProcessError::NoDetailLevels);
}
