use render_core::buffer::BufferManager;
use render_core::errors::SceneError;
use render_core::handle::ResourceHandleType;
use render_core::model::{
    load_gltf_file, resolve_buffer_uri, widen_u16_indices, GltfAccessorInfo, GltfAttributeInfo,
    GltfComponentType, GltfDocumentInfo, GltfMeshInfo, GltfPrimitiveInfo, GltfSemantic,
    MeshBufferSemantic,
};
use render_core::paths::{file_stem, parent_dir};

fn float32_accessor(buffer_index: u32, offset: u64, length: u64) -> GltfAccessorInfo {
    GltfAccessorInfo {
        accessor_offset: offset,
        view_offset: 0,
        view_length: length,
        count: 3,
        component_type: GltfComponentType::Float32,
        buffer_index,
    }
}

fn one_primitive_doc(indices: Option<GltfAccessorInfo>) -> GltfDocumentInfo {
    GltfDocumentInfo {
        buffer_uris: vec![String::from("mesh.bin")],
        meshes: vec![GltfMeshInfo {
            primitives: vec![GltfPrimitiveInfo {
                attributes: vec![GltfAttributeInfo {
                    semantic: GltfSemantic::Positions,
                    accessor: float32_accessor(0, 0, 36),
                }],
                indices,
            }],
        }],
    }
}

#[test]
fn path_helpers() {
    assert_eq!(parent_dir("resources/models/duck.gltf"), "resources/models");
    assert_eq!(parent_dir("duck.gltf"), "");
    assert_eq!(file_stem("resources/gltf_model.bg"), "gltf_model");
    assert_eq!(file_stem("plain"), "plain");
    assert_eq!(file_stem("dir/.hidden"), ".hidden");
    assert_eq!(
        resolve_buffer_uri("resources/models/duck.gltf", "duck.bin"),
        "resources/models/duck.bin"
    );
}

#[test]
fn widen_codec_is_bit_exact() {
    // Two 16-bit little-endian indices: 0x0201 and 0xff00.
    let raw = vec![0xaau8, 0x01, 0x02, 0x00, 0xff];
    let widened = widen_u16_indices(&raw, 1, 2);
    assert_eq!(widened, vec![0x01, 0x02, 0, 0, 0x00, 0xff, 0, 0]);
}

#[test]
fn sixteen_bit_indices_are_rewritten_to_a_fresh_buffer() {
    // One position attribute of 36 bytes, then three 16-bit indices.
    let mut bytes = vec![0u8; 36];
    bytes.extend_from_slice(&[0, 0, 1, 0, 2, 0]);
    let raw = vec![bytes];
    let doc = one_primitive_doc(Some(GltfAccessorInfo {
        accessor_offset: 36,
        view_offset: 0,
        view_length: 6,
        count: 3,
        component_type: GltfComponentType::Uint16,
        buffer_index: 0,
    }));

    let mut bm = BufferManager::new();
    let gf = load_gltf_file(&doc, &raw, &mut bm).unwrap();
    assert_eq!(gf.models.len(), 1);
    let mesh = &gf.models[0].meshes[0];
    let index = mesh.index_buffer.as_ref().unwrap();
    let position = mesh.get_buffer_from_semantic(MeshBufferSemantic::Positions);

    // The widened stream lives in its own buffer, at offset zero, with
    // byte length count * 4, and is no longer 16-bit.
    assert_ne!(index.buffer_handle, position.buffer_handle);
    assert_eq!(index.offset, 0);
    assert_eq!(index.count, 3);
    assert_eq!(index.length, 3 * 4);
    assert!(!index.is_uint16);

    // The fresh buffer holds the widened little-endian words.
    let widened = bm.get_buffer_from_handle(index.buffer_handle.raw()).unwrap();
    assert_eq!(
        widened.data,
        vec![0u8, 0, 0, 0, 1, 0, 0, 0, 2, 0, 0, 0]
    );

    // Exactly two buffers were materialized: the document's raw buffer and
    // the widened index stream.
    assert_eq!(bm.buffer_count(), 2);
}

#[test]
fn thirty_two_bit_indices_are_referenced_in_place() {
    let mut bytes = vec![0u8; 36];
    bytes.extend_from_slice(&[1, 0, 0, 0, 2, 0, 0, 0, 3, 0, 0, 0]);
    let raw = vec![bytes];
    let doc = one_primitive_doc(Some(GltfAccessorInfo {
        accessor_offset: 36,
        view_offset: 0,
        view_length: 12,
        count: 3,
        component_type: GltfComponentType::Uint32,
        buffer_index: 0,
    }));

    let mut bm = BufferManager::new();
    let gf = load_gltf_file(&doc, &raw, &mut bm).unwrap();
    let mesh = &gf.models[0].meshes[0];
    let index = mesh.index_buffer.as_ref().unwrap();
    let position = mesh.get_buffer_from_semantic(MeshBufferSemantic::Positions);

    // Referenced in place: same buffer as the attributes, true offset kept.
    assert_eq!(index.buffer_handle, position.buffer_handle);
    assert_eq!(index.offset, 36);
    assert_eq!(index.length, 12);
    assert_eq!(index.count, 3);
    assert_eq!(bm.buffer_count(), 1);
}

#[test]
fn attributes_map_semantics_offsets_and_handles() {
    let raw = vec![vec![0u8; 128]];
    let doc = GltfDocumentInfo {
        buffer_uris: vec![String::from("mesh.bin")],
        meshes: vec![GltfMeshInfo {
            primitives: vec![GltfPrimitiveInfo {
                attributes: vec![
                    GltfAttributeInfo {
                        semantic: GltfSemantic::Positions,
                        accessor: GltfAccessorInfo {
                            accessor_offset: 8,
                            view_offset: 16,
                            view_length: 36,
                            count: 3,
                            component_type: GltfComponentType::Float32,
                            buffer_index: 0,
                        },
                    },
                    GltfAttributeInfo {
                        semantic: GltfSemantic::Other,
                        accessor: float32_accessor(0, 0, 8),
                    },
                    GltfAttributeInfo {
                        semantic: GltfSemantic::Normals,
                        accessor: float32_accessor(0, 64, 36),
                    },
                ],
                indices: None,
            }],
        }],
    };

    let mut bm = BufferManager::new();
    let gf = load_gltf_file(&doc, &raw, &mut bm).unwrap();
    let mesh = &gf.models[0].meshes[0];

    // The unknown semantic was skipped, not fatal.
    assert_eq!(mesh.buffers.len(), 2);
    assert!(mesh.index_buffer.is_none());

    let positions = mesh.get_buffer_from_semantic(MeshBufferSemantic::Positions);
    assert_eq!(positions.offset, 24); // accessor offset + view offset
    assert_eq!(positions.length, 36);
    let normals = mesh.get_buffer_from_semantic(MeshBufferSemantic::Normals);
    assert_eq!(normals.offset, 64);

    // Both reference the document buffer's handle.
    let mapped = gf.buffers.get(&0).unwrap();
    assert_eq!(positions.buffer_handle, *mapped);
    assert_eq!(normals.buffer_handle, *mapped);
    assert_eq!(mapped.get_type(), ResourceHandleType::Buffer);

    // The managed buffer holds the document's bytes.
    let res = bm.get_buffer_from_handle(mapped.raw()).unwrap();
    assert_eq!(res.data.len(), 128);
}

#[test]
fn unsupported_index_component_is_fatal() {
    let raw = vec![vec![0u8; 48]];
    let doc = one_primitive_doc(Some(GltfAccessorInfo {
        accessor_offset: 36,
        view_offset: 0,
        view_length: 3,
        count: 3,
        component_type: GltfComponentType::Other,
        buffer_index: 0,
    }));
    let mut bm = BufferManager::new();
    assert_eq!(
        load_gltf_file(&doc, &raw, &mut bm).unwrap_err(),
        SceneError::UnsupportedIndexType
    );
}

#[test]
fn out_of_bounds_attribute_is_fatal() {
    let raw = vec![vec![0u8; 16]];
    let doc = one_primitive_doc(None); // wants 36 bytes from a 16-byte buffer
    let mut bm = BufferManager::new();
    assert_eq!(
        load_gltf_file(&doc, &raw, &mut bm).unwrap_err(),
        SceneError::AttributeOutOfBounds
    );
}

#[test]
fn out_of_bounds_index_stream_is_fatal() {
    let raw = vec![vec![0u8; 40]];
    let doc = one_primitive_doc(Some(GltfAccessorInfo {
        accessor_offset: 36,
        view_offset: 0,
        view_length: 6,
        count: 3, // needs 6 bytes at offset 36 of a 40-byte buffer
        component_type: GltfComponentType::Uint16,
        buffer_index: 0,
    }));
    let mut bm = BufferManager::new();
    assert_eq!(
        load_gltf_file(&doc, &raw, &mut bm).unwrap_err(),
        SceneError::IndexDataOutOfBounds
    );
}

#[test]
fn missing_raw_buffer_is_fatal() {
    let doc = one_primitive_doc(None);
    let raw: Vec<Vec<u8>> = Vec::new();
    let mut bm = BufferManager::new();
    assert_eq!(
        load_gltf_file(&doc, &raw, &mut bm).unwrap_err(),
        SceneError::MissingBuffer
    );
}

#[test]
fn wrong_attribute_component_is_fatal() {
    let raw = vec![vec![0u8; 64]];
    let doc = GltfDocumentInfo {
        buffer_uris: vec![String::from("mesh.bin")],
        meshes: vec![GltfMeshInfo {
            primitives: vec![GltfPrimitiveInfo {
                attributes: vec![GltfAttributeInfo {
                    semantic: GltfSemantic::Positions,
                    accessor: GltfAccessorInfo {
                        accessor_offset: 0,
                        view_offset: 0,
                        view_length: 36,
                        count: 3,
                        component_type: GltfComponentType::Uint16,
                        buffer_index: 0,
                    },
                }],
                indices: None,
            }],
        }],
    };
    let mut bm = BufferManager::new();
    assert_eq!(
        load_gltf_file(&doc, &raw, &mut bm).unwrap_err(),
        SceneError::UnsupportedAttributeType
    );
}

#[test]
fn oversized_index_count_is_fatal() {
    let raw = vec![vec![0u8; 64]];
    let doc = one_primitive_doc(Some(GltfAccessorInfo {
        accessor_offset: 36,
        view_offset: 0,
        view_length: 6,
        count: (u32::MAX as u64 / 4) + 1,
        component_type: GltfComponentType::Uint16,
        buffer_index: 0,
    }));
    let mut bm = BufferManager::new();
    assert_eq!(
        load_gltf_file(&doc, &raw, &mut bm).unwrap_err(),
        SceneError::ValueOutOfRange
    );
}
