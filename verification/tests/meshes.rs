use whirled::scene::{derive_model, CameraView, MeshDef};

#[test]
fn derivation_keeps_layout_buffers_and_counts() {
    let def = vec![
        MeshDef {
            stride: 12,
            vector_offset: Some(0),
            normal_offset: Some(4),
            colour_offset: Some(8),
            texcoords_offsets: vec![16, 20],
            vertex_buffer: vec![1, 2, 3],
            index_buffer: vec![5, 6],
        },
        MeshDef {
            stride: 4,
            vector_offset: None,
            normal_offset: None,
            colour_offset: None,
            texcoords_offsets: Vec::new(),
            vertex_buffer: Vec::new(),
            index_buffer: Vec::new(),
        },
    ];
    let r = derive_model(def);
    assert_eq!(r.meshes.len(), 2);
    assert_eq!(r.meshes[0].layout.stride, 12);
    assert_eq!(r.meshes[0].layout.normal_offset, Some(4));
    assert_eq!(r.meshes[0].layout.texcoords_offsets, vec![16, 20]);
    assert_eq!(r.meshes[0].vertex_bytes, vec![1, 2, 3]);
    assert_eq!(r.meshes[0].indices, vec![5, 6]);
    assert_eq!(r.meshes[0].index_count, 2);
    assert_eq!(r.meshes[1].index_count, 0);
    assert!(r.meshes[1].vertex_bytes.is_empty());
}

#[test]
fn uniform_words_are_transform_then_projection() {
    let view = CameraView {
        transform: (100..116).collect(),
        projection: (200..216).collect(),
    };
    let words = view.uniform_words();
    assert_eq!(words.len(), 32);
    assert_eq!(words[0], 100);
    assert_eq!(words[15], 115);
    assert_eq!(words[16], 200);
    assert_eq!(words[31], 215);
}
