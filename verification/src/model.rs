//! Scene/Mesh ingestion.
//!
//! An interchange scene document (its accessors, buffer views and raw
//! buffers modeled as plain values) is mapped onto Buffer-Manager handles:
//! every raw buffer is materialized exactly once, vertex attributes become
//! buffer mappers referencing those handles by offset and length, and a
//! 16-bit index stream is never referenced in place — it is widened to
//! 32 bits, uploaded as a fresh buffer, and referenced there at offset zero.

use vstd::prelude::*;

use crate::buffer::{BufferManager, BUFFER_USAGE_INDEX, BUFFER_USAGE_VERTEX};
use crate::errors::SceneError;
use crate::handle::{
    spec_kind_of, spec_value_bits, ResourceHandle, ResourceHandleType, HANDLE_VALUE_MASK,
};
use std::collections::HashMap;

verus! {

broadcast use vstd::std_specs::hash::group_hash_axioms;

/// What a vertex-attribute stream holds.
#[derive(Clone, Copy, PartialEq, Eq, Structural, Debug)]
pub enum MeshBufferSemantic {
    Unassigned,
    Positions,
    Normals,
    TexCoords,
}

/// One vertex attribute stream: a slice of a managed buffer.
#[derive(Clone, Copy, PartialEq, Eq, Structural, Debug)]
pub struct MeshBufferMapper {
    pub semantic: MeshBufferSemantic,
    pub offset: u32,
    pub length: u32,
    pub buffer_handle: ResourceHandle,
}

/// The index stream of a mesh: always 32-bit once ingestion is done.
#[derive(Clone, Copy, PartialEq, Eq, Structural, Debug)]
pub struct MeshIndexBufferMapper {
    pub offset: u32,
    pub length: u32,
    pub is_uint16: bool,
    pub buffer_handle: ResourceHandle,
    pub count: u32,
}

/// A mesh: its attribute streams, in document order, and its optional index
/// stream. Meshes hold handles, never the buffers themselves.
#[derive(PartialEq, Debug)]
pub struct Mesh {
    pub buffers: Vec<MeshBufferMapper>,
    pub index_buffer: Option<MeshIndexBufferMapper>,
}

/// The index of the first mapper carrying `semantic`, if any.
pub open spec fn spec_semantic_index(
    buffers: Seq<MeshBufferMapper>,
    semantic: MeshBufferSemantic,
) -> Option<int>
    decreases buffers.len(),
{
    if buffers.len() == 0 {
        None
    } else if buffers[0].semantic == semantic {
        Some(0int)
    } else {
        match spec_semantic_index(buffers.drop_first(), semantic) {
            Some(i) => Some(i + 1),
            None => None,
        }
    }
}

/// A found semantic index is a real position carrying the semantic.
pub proof fn lemma_semantic_index_bounds(
    buffers: Seq<MeshBufferMapper>,
    semantic: MeshBufferSemantic,
)
    ensures
        match spec_semantic_index(buffers, semantic) {
            Some(n) => 0 <= n < buffers.len() && buffers[n].semantic == semantic,
            None => true,
        },
    decreases buffers.len(),
{
    if buffers.len() > 0 {
        lemma_semantic_index_bounds(buffers.drop_first(), semantic);
    }
}

impl Mesh {
    /// The first buffer mapper carrying `semantic`. Asking for a semantic the
    /// mesh does not hold is a caller bug, ruled out up front.
    pub fn get_buffer_from_semantic(&self, semantic: MeshBufferSemantic) -> (r: &MeshBufferMapper)
        requires
            spec_semantic_index(self.buffers@, semantic) is Some,
        ensures
            spec_semantic_index(self.buffers@, semantic) matches Some(i) && *r == self.buffers@[i],
    {
        let mut i: usize = 0;
        let n = self.buffers.len();
        proof {
            assert(self.buffers@.skip(0) =~= self.buffers@);
            lemma_semantic_index_bounds(self.buffers@, semantic);
        }
        loop
            invariant
                n == self.buffers@.len(),
                i <= self.buffers@.len(),
                spec_semantic_index(self.buffers@, semantic) matches Some(n) && i <= n
                    && spec_semantic_index(self.buffers@.skip(i as int), semantic) == Some(n - i),
            decreases self.buffers@.len() - i,
        {
            proof {
                lemma_semantic_index_bounds(self.buffers@.skip(i as int), semantic);
                assert(i < self.buffers@.len());
                assert(self.buffers@.skip(i as int).drop_first() =~= self.buffers@.skip(
                    i as int + 1,
                ));
                assert(self.buffers@.skip(i as int)[0] == self.buffers@[i as int]);
            }
            if self.buffers[i].semantic == semantic {
                proof {
                    assert(spec_semantic_index(self.buffers@.skip(i as int), semantic) == Some(
                        0int,
                    ));
                }
                return &self.buffers[i];
            }
            i = i + 1;
        }
    }
}

/// A model: an ordered list of meshes.
#[derive(PartialEq, Debug)]
pub struct Model {
    pub meshes: Vec<Mesh>,
}

/// An ingested scene: its models and the map from the document's own buffer
/// index to the handle the Buffer Manager issued for it.
#[derive(Debug)]
pub struct GltfFile {
    pub models: Vec<Model>,
    pub buffers: HashMap<u32, ResourceHandle>,
}

/// Component types an accessor may declare, as far as ingestion reads them.
#[derive(Clone, Copy, PartialEq, Eq, Structural, Debug)]
pub enum GltfComponentType {
    Float32,
    Uint16,
    Uint32,
    Other,
}

/// Attribute semantics, as far as ingestion maps them; anything else is
/// skipped, not fatal.
#[derive(Clone, Copy, PartialEq, Eq, Structural, Debug)]
pub enum GltfSemantic {
    Positions,
    Normals,
    Other,
}

/// An accessor and the buffer view it reads through, flattened to the plain
/// values ingestion needs.
#[derive(Clone, Copy, PartialEq, Eq, Structural, Debug)]
pub struct GltfAccessorInfo {
    pub accessor_offset: u64,
    pub view_offset: u64,
    pub view_length: u64,
    pub count: u64,
    pub component_type: GltfComponentType,
    pub buffer_index: u32,
}

/// One vertex attribute of a primitive.
#[derive(Clone, Copy, PartialEq, Eq, Structural, Debug)]
pub struct GltfAttributeInfo {
    pub semantic: GltfSemantic,
    pub accessor: GltfAccessorInfo,
}

/// One mesh primitive: its attributes and its optional index accessor.
#[derive(PartialEq, Debug)]
pub struct GltfPrimitiveInfo {
    pub attributes: Vec<GltfAttributeInfo>,
    pub indices: Option<GltfAccessorInfo>,
}

/// One document mesh: its primitives.
#[derive(PartialEq, Debug)]
pub struct GltfMeshInfo {
    pub primitives: Vec<GltfPrimitiveInfo>,
}

/// A scene document, reduced to what ingestion reads: one URI per raw
/// buffer, and the meshes.
#[derive(PartialEq, Debug)]
pub struct GltfDocumentInfo {
    pub buffer_uris: Vec<String>,
    pub meshes: Vec<GltfMeshInfo>,
}

/// The path a buffer URI resolves to: relative to the document's own
/// directory.
pub fn resolve_buffer_uri(file_name: &str, uri: &str) -> (r: String)
    ensures
        r@ == crate::paths::spec_parent_dir(file_name@) + "/"@ + uri@,
{
    let parent = crate::paths::parent_dir(file_name);
    parent.to_owned().concat("/").concat(uri)
}

/// The 32-bit little-endian widening of `count` 16-bit little-endian
/// elements starting at `offset`: each element keeps its low and high byte
/// and gains two zero bytes.
pub open spec fn spec_widen_bytes(raw: Seq<u8>, offset: int, count: int) -> Seq<u8> {
    Seq::new(
        (4 * count) as nat,
        |i: int|
            if i % 4 == 0 {
                raw[offset + 2 * (i / 4)]
            } else if i % 4 == 1 {
                raw[offset + 2 * (i / 4) + 1]
            } else {
                0u8
            },
    )
}

/// Reads `count` 16-bit little-endian indices at `offset` and re-encodes them
/// as 32-bit little-endian values, bit-exactly.
pub fn widen_u16_indices(raw: &Vec<u8>, offset: usize, count: u32) -> (r: Vec<u8>)
    requires
        offset + 2 * count <= raw@.len(),
        4 * count <= u32::MAX,
    ensures
        r@ == spec_widen_bytes(raw@, offset as int, count as int),
{
    let mut out: Vec<u8> = Vec::new();
    let mut i: u32 = 0;
    let raw_len = raw.len();
    while i < count
        invariant
            i <= count,
            offset + 2 * count <= raw@.len(),
            4 * count <= u32::MAX,
            raw_len == raw@.len(),
            out@.len() == 4 * i,
            out@ == spec_widen_bytes(raw@, offset as int, i as int),
        decreases count - i,
    {
        let ghost before = out@;
        let lo = raw[offset + 2 * (i as usize)];
        let hi = raw[offset + 2 * (i as usize) + 1];
        out.push(lo);
        out.push(hi);
        out.push(0);
        out.push(0);
        proof {
            assert(out@ =~= spec_widen_bytes(raw@, offset as int, i as int + 1));
        }
        i = i + 1;
    }
    out
}

/// The first problem a kept vertex attribute has, in validation order:
/// component type, buffer existence, 32-bit range of its slice, bounds of
/// its slice. `None` when it is sound (or skipped).
pub open spec fn spec_attr_error(
    attr: GltfAttributeInfo,
    buffer_count: int,
    raw: Seq<Vec<u8>>,
) -> Option<SceneError> {
    if attr.semantic == GltfSemantic::Other {
        None
    } else if attr.accessor.component_type != GltfComponentType::Float32 {
        Some(SceneError::UnsupportedAttributeType)
    } else if attr.accessor.buffer_index >= buffer_count {
        Some(SceneError::MissingBuffer)
    } else {
        let total = attr.accessor.accessor_offset + attr.accessor.view_offset;
        if total > u32::MAX || attr.accessor.view_length > u32::MAX {
            Some(SceneError::ValueOutOfRange)
        } else if total + attr.accessor.view_length > raw[attr.accessor.buffer_index as int]@.len() {
            Some(SceneError::AttributeOutOfBounds)
        } else {
            None
        }
    }
}

/// The first problem among a primitive's attributes.
pub open spec fn spec_attrs_error(
    attrs: Seq<GltfAttributeInfo>,
    buffer_count: int,
    raw: Seq<Vec<u8>>,
) -> Option<SceneError>
    decreases attrs.len(),
{
    if attrs.len() == 0 {
        None
    } else {
        match spec_attr_error(attrs[0], buffer_count, raw) {
            Some(e) => Some(e),
            None => spec_attrs_error(attrs.drop_first(), buffer_count, raw),
        }
    }
}

/// The first problem an index accessor has: buffer existence, count range,
/// component type, then the width-specific slice checks. A 32-bit stream
/// must also satisfy the mapper invariant that `count * 4` fits inside its
/// byte length.
pub open spec fn spec_index_error(
    indices: Option<GltfAccessorInfo>,
    buffer_count: int,
    raw: Seq<Vec<u8>>,
) -> Option<SceneError> {
    match indices {
        None => None,
        Some(acc) => if acc.buffer_index >= buffer_count {
            Some(SceneError::MissingBuffer)
        } else if acc.count > u32::MAX / 4 {
            Some(SceneError::ValueOutOfRange)
        } else {
            let total = acc.accessor_offset + acc.view_offset;
            match acc.component_type {
                GltfComponentType::Uint16 => {
                    if total + 2 * acc.count > raw[acc.buffer_index as int]@.len() {
                        Some(SceneError::IndexDataOutOfBounds)
                    } else {
                        None
                    }
                },
                GltfComponentType::Uint32 => {
                    if total > u32::MAX || acc.view_length > u32::MAX {
                        Some(SceneError::ValueOutOfRange)
                    } else if 4 * acc.count > acc.view_length {
                        Some(SceneError::IndexDataOutOfBounds)
                    } else if total + acc.view_length > raw[acc.buffer_index as int]@.len() {
                        Some(SceneError::IndexDataOutOfBounds)
                    } else {
                        None
                    }
                },
                _ => Some(SceneError::UnsupportedIndexType),
            }
        },
    }
}

/// The first problem of one primitive: its attributes, then its indices.
pub open spec fn spec_prim_error(
    prim: GltfPrimitiveInfo,
    buffer_count: int,
    raw: Seq<Vec<u8>>,
) -> Option<SceneError> {
    match spec_attrs_error(prim.attributes@, buffer_count, raw) {
        Some(e) => Some(e),
        None => spec_index_error(prim.indices, buffer_count, raw),
    }
}

/// The first problem among a mesh's primitives.
pub open spec fn spec_prims_error(
    prims: Seq<GltfPrimitiveInfo>,
    buffer_count: int,
    raw: Seq<Vec<u8>>,
) -> Option<SceneError>
    decreases prims.len(),
{
    if prims.len() == 0 {
        None
    } else {
        match spec_prim_error(prims[0], buffer_count, raw) {
            Some(e) => Some(e),
            None => spec_prims_error(prims.drop_first(), buffer_count, raw),
        }
    }
}

/// The first problem among a document's meshes.
pub open spec fn spec_meshes_error(
    meshes: Seq<GltfMeshInfo>,
    buffer_count: int,
    raw: Seq<Vec<u8>>,
) -> Option<SceneError>
    decreases meshes.len(),
{
    if meshes.len() == 0 {
        None
    } else {
        match spec_prims_error(meshes[0].primitives@, buffer_count, raw) {
            Some(e) => Some(e),
            None => spec_meshes_error(meshes.drop_first(), buffer_count, raw),
        }
    }
}

/// The first problem of a whole document against its raw buffers: one byte
/// blob per declared URI, then every mesh in order.
pub open spec fn spec_scene_error(doc: GltfDocumentInfo, raw: Seq<Vec<u8>>) -> Option<SceneError> {
    if raw.len() != doc.buffer_uris@.len() {
        Some(SceneError::MissingBuffer)
    } else if raw.len() > u32::MAX {
        Some(SceneError::ValueOutOfRange)
    } else {
        spec_meshes_error(doc.meshes@, doc.buffer_uris@.len() as int, raw)
    }
}

/// How many buffers one primitive allocates beyond the document's own: one
/// for a 16-bit index stream that must be widened.
pub open spec fn spec_prim_allocs(prim: GltfPrimitiveInfo) -> nat {
    match prim.indices {
        Some(acc) => if acc.component_type == GltfComponentType::Uint16 {
            1nat
        } else {
            0nat
        },
        None => 0nat,
    }
}

/// Widening allocations of a primitive list.
pub open spec fn spec_prims_allocs(prims: Seq<GltfPrimitiveInfo>) -> nat
    decreases prims.len(),
{
    if prims.len() == 0 {
        0nat
    } else {
        spec_prim_allocs(prims[0]) + spec_prims_allocs(prims.drop_first())
    }
}

/// Widening allocations of a mesh list.
pub open spec fn spec_meshes_allocs(meshes: Seq<GltfMeshInfo>) -> nat
    decreases meshes.len(),
{
    if meshes.len() == 0 {
        0nat
    } else {
        spec_prims_allocs(meshes[0].primitives@) + spec_meshes_allocs(meshes.drop_first())
    }
}

/// Every buffer a document's ingestion allocates: one per declared URI plus
/// the widenings.
pub open spec fn spec_scene_allocs(doc: GltfDocumentInfo) -> nat {
    doc.buffer_uris@.len() + spec_meshes_allocs(doc.meshes@)
}

/// Whether an attribute is carried into a mesh rather than skipped.
pub open spec fn attr_kept(attr: GltfAttributeInfo) -> bool {
    attr.semantic != GltfSemantic::Other
}

/// The mesh semantic an attribute's document semantic maps to.
pub open spec fn spec_mesh_semantic(semantic: GltfSemantic) -> MeshBufferSemantic {
    match semantic {
        GltfSemantic::Positions => MeshBufferSemantic::Positions,
        GltfSemantic::Normals => MeshBufferSemantic::Normals,
        GltfSemantic::Other => MeshBufferSemantic::Unassigned,
    }
}

/// The mapper one kept attribute becomes, against the document's
/// buffer-handle map.
pub open spec fn spec_attr_mapper(
    attr: GltfAttributeInfo,
    handles: Map<u32, ResourceHandle>,
) -> MeshBufferMapper {
    MeshBufferMapper {
        semantic: spec_mesh_semantic(attr.semantic),
        offset: (attr.accessor.accessor_offset + attr.accessor.view_offset) as u32,
        length: attr.accessor.view_length as u32,
        buffer_handle: handles[attr.accessor.buffer_index],
    }
}

/// The mappers an attribute list becomes: kept attributes in order, skipped
/// ones dropped.
pub open spec fn spec_attr_mappers(
    attrs: Seq<GltfAttributeInfo>,
    handles: Map<u32, ResourceHandle>,
) -> Seq<MeshBufferMapper>
    decreases attrs.len(),
{
    if attrs.len() == 0 {
        Seq::empty()
    } else if attr_kept(attrs[0]) {
        seq![spec_attr_mapper(attrs[0], handles)] + spec_attr_mappers(attrs.drop_first(), handles)
    } else {
        spec_attr_mappers(attrs.drop_first(), handles)
    }
}

/// A buffer mapper is backed: its handle is `Buffer`-tagged, resolves, and
/// its slice lies within the resolved bytes.
pub open spec fn mapper_in_bounds(m: MeshBufferMapper, bm: BufferManager) -> bool {
    &&& spec_kind_of(m.buffer_handle@) == ResourceHandleType::Buffer
    &&& bm.buffers().contains_key(spec_value_bits(m.buffer_handle@))
    &&& m.offset + m.length <= bm.buffers()[spec_value_bits(m.buffer_handle@)].data@.len()
}

/// An index mapper is backed, and its element count times four fits its byte
/// length.
pub open spec fn index_mapper_in_bounds(m: MeshIndexBufferMapper, bm: BufferManager) -> bool {
    &&& spec_kind_of(m.buffer_handle@) == ResourceHandleType::Buffer
    &&& bm.buffers().contains_key(spec_value_bits(m.buffer_handle@))
    &&& m.offset + m.length <= bm.buffers()[spec_value_bits(m.buffer_handle@)].data@.len()
    &&& 4 * m.count <= m.length
}

/// What one ingested mesh must hold for its source primitive: the kept
/// attributes' mappers in order, each within bounds; and the index stream —
/// absent with the accessor, referencing the original buffer at its true
/// offset for a 32-bit source, or a fresh widened buffer at offset zero,
/// never shared with any attribute, for a 16-bit source.
pub open spec fn mesh_matches_primitive(
    mesh: Mesh,
    prim: GltfPrimitiveInfo,
    handles: Map<u32, ResourceHandle>,
    bm: BufferManager,
    raw: Seq<Vec<u8>>,
) -> bool {
    &&& mesh.buffers@ == spec_attr_mappers(prim.attributes@, handles)
    &&& forall|j: int|
        0 <= j < mesh.buffers@.len() ==> mapper_in_bounds(#[trigger] mesh.buffers@[j], bm)
    &&& (match prim.indices {
        None => mesh.index_buffer is None,
        Some(acc) => mesh.index_buffer matches Some(im) && {
            let total = acc.accessor_offset + acc.view_offset;
            &&& index_mapper_in_bounds(im, bm)
            &&& im.count == acc.count
            &&& im.is_uint16 == false
            &&& (match acc.component_type {
                GltfComponentType::Uint16 => {
                    &&& im.offset == 0
                    &&& im.length == 4 * acc.count
                    &&& bm.buffers()[spec_value_bits(im.buffer_handle@)].data@ == spec_widen_bytes(
                        raw[acc.buffer_index as int]@,
                        total as int,
                        acc.count as int,
                    )
                    &&& forall|j: int|
                        0 <= j < mesh.buffers@.len() ==> (#[trigger] mesh.buffers@[j]).buffer_handle
                            != im.buffer_handle
                },
                GltfComponentType::Uint32 => {
                    &&& im.offset == total
                    &&& im.length == acc.view_length
                    &&& im.buffer_handle == handles[acc.buffer_index]
                },
                _ => false,
            })
        },
    })
}

/// What a whole ingested scene must hold: one handle per document buffer,
/// resolving to exactly that buffer's bytes; one model per document mesh,
/// one ingested mesh per primitive, each matching its primitive.
pub open spec fn scene_matches(
    gf: GltfFile,
    doc: GltfDocumentInfo,
    bm: BufferManager,
    raw: Seq<Vec<u8>>,
) -> bool {
    &&& forall|i: u32|
        0 <= i < doc.buffer_uris@.len() ==> #[trigger] gf.buffers@.contains_key(i) && spec_kind_of(
            gf.buffers@[i]@,
        ) == ResourceHandleType::Buffer && bm.buffers().contains_key(
            spec_value_bits(gf.buffers@[i]@),
        ) && bm.buffers()[spec_value_bits(gf.buffers@[i]@)].data@ == raw[i as int]@
    &&& gf.models@.len() == doc.meshes@.len()
    &&& forall|m: int|
        0 <= m < doc.meshes@.len() ==> (#[trigger] gf.models@[m]).meshes@.len()
            == (#[trigger] doc.meshes@[m]).primitives@.len()
    &&& forall|m: int, p: int|
        #![trigger gf.models@[m].meshes@[p]]
        0 <= m < doc.meshes@.len() && 0 <= p < doc.meshes@[m].primitives@.len()
            ==> mesh_matches_primitive(
            gf.models@[m].meshes@[p],
            doc.meshes@[m].primitives@[p],
            gf.buffers@,
            bm,
            raw,
        )
}

/// The buffer manager only ever grows under ingestion.
pub open spec fn bm_extended(prev: BufferManager, cur: BufferManager) -> bool {
    &&& cur.counter() >= prev.counter()
    &&& forall|k: u64|
        #[trigger] prev.buffers().contains_key(k) ==> cur.buffers().contains_key(k)
            && cur.buffers()[k] == prev.buffers()[k]
}

/// What ingesting a document must do: on success, the scene matches the
/// document exactly, the document was sound, and the Buffer Manager grew by
/// exactly one buffer per declared URI plus one per widened index stream —
/// each raw buffer is materialized exactly once; on failure, either the
/// document's first problem is reported or the handle space could not carry
/// the document's allocations. Whenever the document is sound and the
/// counter space suffices, success is owed.
pub open spec fn load_gltf_post(
    doc: GltfDocumentInfo,
    raw: Seq<Vec<u8>>,
    prev: BufferManager,
    cur: BufferManager,
    r: Result<GltfFile, SceneError>,
) -> bool {
    &&& bm_extended(prev, cur)
    &&& (match r {
        Ok(gf) => {
            &&& spec_scene_error(doc, raw) is None
            &&& scene_matches(gf, doc, cur, raw)
            &&& cur.counter() == prev.counter() + spec_scene_allocs(doc)
        },
        Err(e) => spec_scene_error(doc, raw) == Some(e) || (e == SceneError::HandleSpaceExhausted
            && prev.counter() + spec_scene_allocs(doc) > HANDLE_VALUE_MASK),
    })
    &&& ((spec_scene_error(doc, raw) is None) && prev.counter() + spec_scene_allocs(doc)
        <= HANDLE_VALUE_MASK ==> r is Ok)
}


/// Whether the document's buffer-handle map is sound against the manager:
/// every document buffer index resolves, with `Buffer` kind, to exactly that
/// buffer's bytes.
pub open spec fn handles_wf(
    handles: Map<u32, ResourceHandle>,
    raw: Seq<Vec<u8>>,
    bm: BufferManager,
) -> bool {
    forall|i: u32|
        #![trigger handles.index(i)]
        0 <= i < raw.len() ==> handles.contains_key(i) && spec_kind_of(handles[i]@)
            == ResourceHandleType::Buffer && bm.buffers().contains_key(
            spec_value_bits(handles[i]@),
        ) && bm.buffers()[spec_value_bits(handles[i]@)].data@ == raw[i as int]@
}

/// A sound handle map stays sound while the manager only grows.
proof fn lemma_handles_wf_extended(
    handles: Map<u32, ResourceHandle>,
    raw: Seq<Vec<u8>>,
    prev: BufferManager,
    cur: BufferManager,
)
    requires
        handles_wf(handles, raw, prev),
        bm_extended(prev, cur),
    ensures
        handles_wf(handles, raw, cur),
{
    assert forall|i: u32|
        0 <= i < raw.len() implies #[trigger] handles.contains_key(i) && spec_kind_of(handles[i]@)
        == ResourceHandleType::Buffer && cur.buffers().contains_key(spec_value_bits(handles[i]@))
        && cur.buffers()[spec_value_bits(handles[i]@)].data@ == raw[i as int]@ by {
        assert(handles_wf(handles, raw, prev));
        assert(handles.contains_key(i) && spec_kind_of(handles[i]@)
            == ResourceHandleType::Buffer && prev.buffers().contains_key(
            spec_value_bits(handles[i]@),
        ) && prev.buffers()[spec_value_bits(handles[i]@)].data@ == raw[i as int]@);
    }
}

/// A matching mesh keeps matching while the manager only grows.
proof fn lemma_mesh_matches_extended(
    mesh: &Mesh,
    prim: &GltfPrimitiveInfo,
    handles: Map<u32, ResourceHandle>,
    prev: BufferManager,
    cur: BufferManager,
    raw: Seq<Vec<u8>>,
)
    requires
        mesh_matches_primitive(*mesh, *prim, handles, prev, raw),
        bm_extended(prev, cur),
    ensures
        mesh_matches_primitive(*mesh, *prim, handles, cur, raw),
{
}

fn attrs_from(
    attrs: &Vec<GltfAttributeInfo>,
    j: usize,
    raw_buffers: &Vec<Vec<u8>>,
    buffer_handles: &HashMap<u32, ResourceHandle>,
    Ghost(bm): Ghost<BufferManager>,
) -> (r: Result<Vec<MeshBufferMapper>, SceneError>)
    requires
        j <= attrs@.len(),
        bm.wf(),
        handles_wf(buffer_handles@, raw_buffers@, bm),
    ensures
        match r {
            Ok(v) => {
                &&& spec_attrs_error(attrs@.skip(j as int), raw_buffers@.len() as int, raw_buffers@)
                    is None
                &&& v@ == spec_attr_mappers(attrs@.skip(j as int), buffer_handles@)
                &&& forall|k: int|
                    0 <= k < v@.len() ==> mapper_in_bounds(#[trigger] v@[k], bm) && spec_value_bits(
                        v@[k].buffer_handle@,
                    ) <= bm.counter()
            },
            Err(e) => spec_attrs_error(attrs@.skip(j as int), raw_buffers@.len() as int, raw_buffers@)
                == Some(e),
        },
    decreases attrs@.len() - j,
{
    if j == attrs.len() {
        let empty: Vec<MeshBufferMapper> = Vec::new();
        return Ok(empty);
    }
    proof {
        assert(attrs@.skip(j as int).drop_first() =~= attrs@.skip(j as int + 1));
        assert(attrs@.skip(j as int)[0] == attrs@[j as int]);
    }
    let attr = &attrs[j];
    if matches!(attr.semantic, GltfSemantic::Other) {
        return attrs_from(attrs, j + 1, raw_buffers, buffer_handles, Ghost(bm));
    }
    if !matches!(attr.accessor.component_type, GltfComponentType::Float32) {
        return Err(SceneError::UnsupportedAttributeType);
    }
    if attr.accessor.buffer_index as usize >= raw_buffers.len() {
        return Err(SceneError::MissingBuffer);
    }
    if attr.accessor.accessor_offset > u32::MAX as u64 {
        return Err(SceneError::ValueOutOfRange);
    }
    if attr.accessor.view_offset > u32::MAX as u64 - attr.accessor.accessor_offset {
        return Err(SceneError::ValueOutOfRange);
    }
    let total = attr.accessor.accessor_offset + attr.accessor.view_offset;
    if attr.accessor.view_length > u32::MAX as u64 {
        return Err(SceneError::ValueOutOfRange);
    }
    let blob = &raw_buffers[attr.accessor.buffer_index as usize];
    if total + attr.accessor.view_length > blob.len() as u64 {
        return Err(SceneError::AttributeOutOfBounds);
    }
    let handle = match buffer_handles.get(&attr.accessor.buffer_index) {
        Some(h) => *h,
        None => {
            proof {
                let ghost mapped = buffer_handles@.index(attr.accessor.buffer_index);
                assert(buffer_handles@.contains_key(attr.accessor.buffer_index));
                assert(false);
            }
            return Err(SceneError::MissingBuffer);
        },
    };
    let semantic = match attr.semantic {
        GltfSemantic::Positions => MeshBufferSemantic::Positions,
        GltfSemantic::Normals => MeshBufferSemantic::Normals,
        GltfSemantic::Other => MeshBufferSemantic::Unassigned,
    };
    let mapper = MeshBufferMapper {
        semantic,
        offset: total as u32,
        length: attr.accessor.view_length as u32,
        buffer_handle: handle,
    };
    match attrs_from(attrs, j + 1, raw_buffers, buffer_handles, Ghost(bm)) {
        Ok(mut rest) => {
            let ghost prev = rest@;
            rest.insert(0, mapper);
            proof {
                assert(rest@ =~= seq![mapper] + prev);
            }
            Ok(rest)
        },
        Err(e) => Err(e),
    }
}

/// Maps one document primitive onto managed buffers: kept attributes become
/// buffer mappers against the document's handles; a 16-bit index stream is
/// widened into a fresh 32-bit buffer, a 32-bit one referenced in place.
pub fn load_gltf_mesh_primitive(
    prim: &GltfPrimitiveInfo,
    raw_buffers: &Vec<Vec<u8>>,
    buffer_handles: &HashMap<u32, ResourceHandle>,
    buffer_manager: &mut BufferManager,
) -> (r: Result<Mesh, SceneError>)
    requires
        old(buffer_manager).wf(),
        handles_wf(buffer_handles@, raw_buffers@, *old(buffer_manager)),
    ensures
        final(buffer_manager).wf(),
        bm_extended(*old(buffer_manager), *final(buffer_manager)),
        handles_wf(buffer_handles@, raw_buffers@, *final(buffer_manager)),
        match r {
            Ok(mesh) => {
                &&& spec_prim_error(*prim, raw_buffers@.len() as int, raw_buffers@) is None
                &&& mesh_matches_primitive(
                    mesh,
                    *prim,
                    buffer_handles@,
                    *final(buffer_manager),
                    raw_buffers@,
                )
                &&& final(buffer_manager).counter() == old(buffer_manager).counter()
                    + spec_prim_allocs(*prim)
            },
            Err(e) => {
                &&& *final(buffer_manager) == *old(buffer_manager)
                &&& (spec_prim_error(*prim, raw_buffers@.len() as int, raw_buffers@) == Some(e) || (
                e == SceneError::HandleSpaceExhausted && old(buffer_manager).counter()
                    + spec_prim_allocs(*prim) > HANDLE_VALUE_MASK))
            },
        },
        (spec_prim_error(*prim, raw_buffers@.len() as int, raw_buffers@) is None) && old(
            buffer_manager,
        ).counter() + spec_prim_allocs(*prim) <= HANDLE_VALUE_MASK ==> r is Ok,
{
    proof {
        assert(prim.attributes@.skip(0) =~= prim.attributes@);
    }
    let mappers = match attrs_from(
        &prim.attributes,
        0,
        raw_buffers,
        buffer_handles,
        Ghost(*buffer_manager),
    ) {
        Ok(v) => v,
        Err(e) => {
            return Err(e);
        },
    };
    let index_buffer: Option<MeshIndexBufferMapper> = match &prim.indices {
        None => None,
        Some(acc) => {
            if acc.buffer_index as usize >= raw_buffers.len() {
                return Err(SceneError::MissingBuffer);
            }
            if acc.count > (u32::MAX / 4) as u64 {
                return Err(SceneError::ValueOutOfRange);
            }
            let handle = match buffer_handles.get(&acc.buffer_index) {
                Some(h) => *h,
                None => {
                    proof {
                        let ghost mapped = buffer_handles@.index(acc.buffer_index);
                        assert(buffer_handles@.contains_key(acc.buffer_index));
                        assert(false);
                    }
                    return Err(SceneError::MissingBuffer);
                },
            };
            let blob = &raw_buffers[acc.buffer_index as usize];
            let blob_len = blob.len();
            match acc.component_type {
                GltfComponentType::Uint16 => {
                    if acc.accessor_offset > u64::MAX - acc.view_offset {
                        proof {
                            assert(acc.accessor_offset + acc.view_offset > blob_len);
                        }
                        return Err(SceneError::IndexDataOutOfBounds);
                    }
                    let total = acc.accessor_offset + acc.view_offset;
                    if total > blob_len as u64 || 2 * acc.count > blob_len as u64 - total {
                        return Err(SceneError::IndexDataOutOfBounds);
                    }
                    let widened = widen_u16_indices(blob, total as usize, acc.count as u32);
                    let new_handle = match buffer_manager.create_buffer_with_data(
                        widened.as_slice(),
                        BUFFER_USAGE_INDEX,
                    ) {
                        Ok(h) => h,
                        Err(_) => {
                            return Err(SceneError::HandleSpaceExhausted);
                        },
                    };
                    proof {
                        crate::handle::lemma_handle_round_trip(
                            ResourceHandleType::Buffer,
                            (old(buffer_manager).counter() + 1) as u64,
                        );
                    }
                    Some(MeshIndexBufferMapper {
                        offset: 0,
                        length: 4 * (acc.count as u32),
                        is_uint16: false,
                        buffer_handle: new_handle,
                        count: acc.count as u32,
                    })
                },
                GltfComponentType::Uint32 => {
                    if acc.accessor_offset > u32::MAX as u64 {
                        return Err(SceneError::ValueOutOfRange);
                    }
                    if acc.view_offset > u32::MAX as u64 - acc.accessor_offset {
                        return Err(SceneError::ValueOutOfRange);
                    }
                    let total = acc.accessor_offset + acc.view_offset;
                    if acc.view_length > u32::MAX as u64 {
                        return Err(SceneError::ValueOutOfRange);
                    }
                    if 4 * acc.count > acc.view_length {
                        return Err(SceneError::IndexDataOutOfBounds);
                    }
                    if total + acc.view_length > blob_len as u64 {
                        return Err(SceneError::IndexDataOutOfBounds);
                    }
                    Some(MeshIndexBufferMapper {
                        offset: total as u32,
                        length: acc.view_length as u32,
                        is_uint16: false,
                        buffer_handle: handle,
                        count: acc.count as u32,
                    })
                },
                _ => {
                    return Err(SceneError::UnsupportedIndexType);
                },
            }
        },
    };
    Ok(Mesh { buffers: mappers, index_buffer })
}


fn prims_from(
    prims: &Vec<GltfPrimitiveInfo>,
    j: usize,
    raw_buffers: &Vec<Vec<u8>>,
    buffer_handles: &HashMap<u32, ResourceHandle>,
    buffer_manager: &mut BufferManager,
) -> (r: Result<Vec<Mesh>, SceneError>)
    requires
        j <= prims@.len(),
        old(buffer_manager).wf(),
        handles_wf(buffer_handles@, raw_buffers@, *old(buffer_manager)),
    ensures
        final(buffer_manager).wf(),
        bm_extended(*old(buffer_manager), *final(buffer_manager)),
        handles_wf(buffer_handles@, raw_buffers@, *final(buffer_manager)),
        match r {
            Ok(v) => {
                &&& spec_prims_error(prims@.skip(j as int), raw_buffers@.len() as int, raw_buffers@)
                    is None
                &&& v@.len() == prims@.len() - j
                &&& forall|k: int|
                    0 <= k < v@.len() ==> mesh_matches_primitive(
                        #[trigger] v@[k],
                        prims@[j + k],
                        buffer_handles@,
                        *final(buffer_manager),
                        raw_buffers@,
                    )
                &&& final(buffer_manager).counter() == old(buffer_manager).counter()
                    + spec_prims_allocs(prims@.skip(j as int))
            },
            Err(e) => spec_prims_error(prims@.skip(j as int), raw_buffers@.len() as int, raw_buffers@)
                == Some(e) || (e == SceneError::HandleSpaceExhausted && old(
                buffer_manager,
            ).counter() + spec_prims_allocs(prims@.skip(j as int)) > HANDLE_VALUE_MASK),
        },
        (spec_prims_error(prims@.skip(j as int), raw_buffers@.len() as int, raw_buffers@) is None)
            && old(buffer_manager).counter() + spec_prims_allocs(prims@.skip(j as int))
            <= HANDLE_VALUE_MASK ==> r is Ok,
    decreases prims@.len() - j,
{
    if j == prims.len() {
        let empty: Vec<Mesh> = Vec::new();
        return Ok(empty);
    }
    proof {
        assert(prims@.skip(j as int).drop_first() =~= prims@.skip(j as int + 1));
        assert(prims@.skip(j as int)[0] == prims@[j as int]);
    }
    let ghost bm0 = *buffer_manager;
    let mesh = match load_gltf_mesh_primitive(
        &prims[j],
        raw_buffers,
        buffer_handles,
        buffer_manager,
    ) {
        Ok(m) => m,
        Err(e) => {
            return Err(e);
        },
    };
    let ghost bm1 = *buffer_manager;
    match prims_from(prims, j + 1, raw_buffers, buffer_handles, buffer_manager) {
        Ok(mut rest) => {
            proof {
                lemma_mesh_matches_extended(
                    &mesh,
                    &prims@[j as int],
                    buffer_handles@,
                    bm1,
                    *buffer_manager,
                    raw_buffers@,
                );
            }
            let ghost prev = rest@;
            rest.insert(0, mesh);
            proof {
                assert(rest@ =~= seq![rest@[0]] + prev);
            }
            Ok(rest)
        },
        Err(e) => Err(e),
    }
}

/// Maps every primitive of one document mesh, in order.
pub fn load_gltf_mesh(
    mesh: &GltfMeshInfo,
    raw_buffers: &Vec<Vec<u8>>,
    buffer_handles: &HashMap<u32, ResourceHandle>,
    buffer_manager: &mut BufferManager,
) -> (r: Result<Vec<Mesh>, SceneError>)
    requires
        old(buffer_manager).wf(),
        handles_wf(buffer_handles@, raw_buffers@, *old(buffer_manager)),
    ensures
        final(buffer_manager).wf(),
        bm_extended(*old(buffer_manager), *final(buffer_manager)),
        handles_wf(buffer_handles@, raw_buffers@, *final(buffer_manager)),
        match r {
            Ok(v) => {
                &&& spec_prims_error(mesh.primitives@, raw_buffers@.len() as int, raw_buffers@)
                    is None
                &&& v@.len() == mesh.primitives@.len()
                &&& forall|k: int|
                    0 <= k < v@.len() ==> mesh_matches_primitive(
                        #[trigger] v@[k],
                        mesh.primitives@[k],
                        buffer_handles@,
                        *final(buffer_manager),
                        raw_buffers@,
                    )
                &&& final(buffer_manager).counter() == old(buffer_manager).counter()
                    + spec_prims_allocs(mesh.primitives@)
            },
            Err(e) => spec_prims_error(mesh.primitives@, raw_buffers@.len() as int, raw_buffers@)
                == Some(e) || (e == SceneError::HandleSpaceExhausted && old(
                buffer_manager,
            ).counter() + spec_prims_allocs(mesh.primitives@) > HANDLE_VALUE_MASK),
        },
        (spec_prims_error(mesh.primitives@, raw_buffers@.len() as int, raw_buffers@) is None) && old(
            buffer_manager,
        ).counter() + spec_prims_allocs(mesh.primitives@) <= HANDLE_VALUE_MASK ==> r is Ok,
{
    proof {
        assert(mesh.primitives@.skip(0) =~= mesh.primitives@);
    }
    prims_from(&mesh.primitives, 0, raw_buffers, buffer_handles, buffer_manager)
}

fn meshes_from(
    meshes: &Vec<GltfMeshInfo>,
    j: usize,
    raw_buffers: &Vec<Vec<u8>>,
    buffer_handles: &HashMap<u32, ResourceHandle>,
    buffer_manager: &mut BufferManager,
) -> (r: Result<Vec<Model>, SceneError>)
    requires
        j <= meshes@.len(),
        old(buffer_manager).wf(),
        handles_wf(buffer_handles@, raw_buffers@, *old(buffer_manager)),
    ensures
        final(buffer_manager).wf(),
        bm_extended(*old(buffer_manager), *final(buffer_manager)),
        handles_wf(buffer_handles@, raw_buffers@, *final(buffer_manager)),
        match r {
            Ok(v) => {
                &&& spec_meshes_error(
                    meshes@.skip(j as int),
                    raw_buffers@.len() as int,
                    raw_buffers@,
                ) is None
                &&& v@.len() == meshes@.len() - j
                &&& forall|k: int|
                    0 <= k < v@.len() ==> (#[trigger] v@[k]).meshes@.len() == meshes@[j
                        + k].primitives@.len()
                &&& forall|k: int, p: int|
                    #![trigger v@[k].meshes@[p]]
                    0 <= k < v@.len() && 0 <= p < meshes@[j + k].primitives@.len()
                        ==> mesh_matches_primitive(
                        v@[k].meshes@[p],
                        meshes@[j + k].primitives@[p],
                        buffer_handles@,
                        *final(buffer_manager),
                        raw_buffers@,
                    )
                &&& final(buffer_manager).counter() == old(buffer_manager).counter()
                    + spec_meshes_allocs(meshes@.skip(j as int))
            },
            Err(e) => spec_meshes_error(meshes@.skip(j as int), raw_buffers@.len() as int, raw_buffers@)
                == Some(e) || (e == SceneError::HandleSpaceExhausted && old(
                buffer_manager,
            ).counter() + spec_meshes_allocs(meshes@.skip(j as int)) > HANDLE_VALUE_MASK),
        },
        (spec_meshes_error(meshes@.skip(j as int), raw_buffers@.len() as int, raw_buffers@)
            is None) && old(buffer_manager).counter() + spec_meshes_allocs(meshes@.skip(j as int))
            <= HANDLE_VALUE_MASK ==> r is Ok,
    decreases meshes@.len() - j,
{
    if j == meshes.len() {
        let empty: Vec<Model> = Vec::new();
        return Ok(empty);
    }
    proof {
        assert(meshes@.skip(j as int).drop_first() =~= meshes@.skip(j as int + 1));
        assert(meshes@.skip(j as int)[0] == meshes@[j as int]);
    }
    let submeshes = match load_gltf_mesh(&meshes[j], raw_buffers, buffer_handles, buffer_manager) {
        Ok(v) => v,
        Err(e) => {
            return Err(e);
        },
    };
    let ghost bm1 = *buffer_manager;
    let ghost submeshes_view = submeshes@;
    let model = Model { meshes: submeshes };
    match meshes_from(meshes, j + 1, raw_buffers, buffer_handles, buffer_manager) {
        Ok(mut rest) => {
            proof {
                assert forall|p: int|
                    0 <= p < submeshes_view.len() implies mesh_matches_primitive(
                    #[trigger] submeshes_view[p],
                    meshes@[j as int].primitives@[p],
                    buffer_handles@,
                    *buffer_manager,
                    raw_buffers@,
                ) by {
                    lemma_mesh_matches_extended(
                        &submeshes_view[p],
                        &meshes@[j as int].primitives@[p],
                        buffer_handles@,
                        bm1,
                        *buffer_manager,
                        raw_buffers@,
                    );
                }
            }
            let ghost prev = rest@;
            rest.insert(0, model);
            proof {
                assert(rest@ =~= seq![rest@[0]] + prev);
            }
            Ok(rest)
        },
        Err(e) => Err(e),
    }
}

/// Ingests a whole scene document: materializes every raw buffer exactly
/// once through the Buffer Manager, then maps every mesh primitive against
/// those handles.
pub fn load_gltf_file(
    doc: &GltfDocumentInfo,
    raw_buffers: &Vec<Vec<u8>>,
    buffer_manager: &mut BufferManager,
) -> (r: Result<GltfFile, SceneError>)
    requires
        old(buffer_manager).wf(),
    ensures
        final(buffer_manager).wf(),
        load_gltf_post(*doc, raw_buffers@, *old(buffer_manager), *final(buffer_manager), r),
{
    let buffer_count = raw_buffers.len();
    if buffer_count != doc.buffer_uris.len() {
        return Err(SceneError::MissingBuffer);
    }
    if buffer_count > u32::MAX as usize {
        return Err(SceneError::ValueOutOfRange);
    }
    let ghost bm0 = *buffer_manager;
    let mut handles_map: HashMap<u32, ResourceHandle> = HashMap::new();
    let mut i: usize = 0;
    while i < buffer_count
        invariant
            i <= buffer_count,
            bm0 == *old(buffer_manager),
            buffer_count == raw_buffers@.len(),
            doc.buffer_uris@.len() == raw_buffers@.len(),
            buffer_count <= u32::MAX,
            buffer_manager.wf(),
            bm_extended(bm0, *buffer_manager),
            buffer_manager.counter() == bm0.counter() + i,
            forall|k: u32|
                #![trigger handles_map@.index(k)]
                0 <= k < i ==> handles_map@.contains_key(k) && spec_kind_of(handles_map@[k]@)
                    == ResourceHandleType::Buffer && buffer_manager.buffers().contains_key(
                    spec_value_bits(handles_map@[k]@),
                ) && buffer_manager.buffers()[spec_value_bits(handles_map@[k]@)].data@
                    == raw_buffers@[k as int]@ && buffer_manager.buffers()[spec_value_bits(
                    handles_map@[k]@,
                )].usage == BUFFER_USAGE_INDEX | BUFFER_USAGE_VERTEX,
        decreases buffer_count - i,
    {
        let ghost bm_before = *buffer_manager;
        let ghost map_before = handles_map@;
        let handle = match buffer_manager.create_buffer_with_data(
            raw_buffers[i].as_slice(),
            BUFFER_USAGE_INDEX | BUFFER_USAGE_VERTEX,
        ) {
            Ok(h) => h,
            Err(_) => {
                proof {
                    assert(bm_before.counter() >= HANDLE_VALUE_MASK);
                    assert(spec_scene_allocs(*doc) == doc.buffer_uris@.len()
                        + spec_meshes_allocs(doc.meshes@));
                    assert(doc.buffer_uris@.len() == raw_buffers@.len());
                    assert(spec_meshes_allocs(doc.meshes@) >= 0);
                    assert(spec_scene_allocs(*doc) >= raw_buffers@.len());
                    assert(bm0.counter() + spec_scene_allocs(*doc) > HANDLE_VALUE_MASK);
                }
                return Err(SceneError::HandleSpaceExhausted);
            },
        };
        proof {
            crate::handle::lemma_handle_round_trip(
                ResourceHandleType::Buffer,
                (bm_before.counter() + 1) as u64,
            );
        }
        handles_map.insert(i as u32, handle);
        proof {
            assert forall|k: u32|
                #![trigger handles_map@.index(k)]
                0 <= k < i + 1 implies handles_map@.contains_key(k) && spec_kind_of(
                handles_map@[k]@,
            ) == ResourceHandleType::Buffer && buffer_manager.buffers().contains_key(
                spec_value_bits(handles_map@[k]@),
            ) && buffer_manager.buffers()[spec_value_bits(handles_map@[k]@)].data@
                == raw_buffers@[k as int]@ && buffer_manager.buffers()[spec_value_bits(
                handles_map@[k]@,
            )].usage == BUFFER_USAGE_INDEX | BUFFER_USAGE_VERTEX by {
                if k < i {
                    assert(k != i as u32);
                    let ghost prior = map_before.index(k);
                    assert(handles_map@[k] == prior);
                    assert(bm_before.buffers().contains_key(spec_value_bits(prior@)));
                } else {
                    assert(k == i as u32);
                    assert(handles_map@[k] == handle);
                }
            }
        }
        i = i + 1;
    }
    proof {
        assert forall|k: u32|
            #![trigger handles_map@.index(k)]
            0 <= k < raw_buffers@.len() implies handles_map@.contains_key(k) && spec_kind_of(
            handles_map@[k]@,
        ) == ResourceHandleType::Buffer && buffer_manager.buffers().contains_key(
            spec_value_bits(handles_map@[k]@),
        ) && buffer_manager.buffers()[spec_value_bits(handles_map@[k]@)].data@
            == raw_buffers@[k as int]@ by {
            let ghost h = handles_map@.index(k);
        }
        assert(handles_wf(handles_map@, raw_buffers@, *buffer_manager));
    }
    let ghost bm_mid = *buffer_manager;
    proof {
        assert(doc.meshes@.skip(0) =~= doc.meshes@);
    }
    let models = match meshes_from(&doc.meshes, 0, raw_buffers, &handles_map, buffer_manager) {
        Ok(v) => v,
        Err(e) => {
            return Err(e);
        },
    };
    let gf = GltfFile { models, buffers: handles_map };
    proof {
        assert(scene_matches(gf, *doc, *buffer_manager, raw_buffers@));
    }
    Ok(gf)
}

} // verus!
