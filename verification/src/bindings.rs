//! Pipeline Manager.
//!
//! Owns the binding-group-layout and pipeline caches. A binding-set file is
//! parsed once per path: the handles issued for it are recorded and repeated
//! loads return them unchanged. A pipeline file is parsed once per (path,
//! configuration): the same file may legitimately live twice in the cache
//! under two configurations. Compute pipelines share the `Pipeline` kind tag
//! with raster ones and are told apart by a sub-tag bit inside the handle
//! value.

use vstd::prelude::*;

use crate::descriptors::{
    spec_binding_sets, parse_binding_sets, BindGroupLayoutEntry, ColorState, DepthStencilState,
    IndexFormat, PipelineDescriptor, PrimitiveTopology, RasterizationState, TextureFormat,
    VertexBufferDescriptor,
};
use crate::errors::{LoadError, LookupError};
use crate::handle::{
    spec_kind_of, spec_pack, spec_value_bits, ResourceHandle, ResourceHandleType,
    HANDLE_VALUE_MASK,
};
use crate::json::{str_eq, JsonValue};
use crate::paths::{file_stem, spec_file_stem};
use crate::shader::{
    lemma_lookup_after_load, lemma_name_lookup_push_keeps_some, lemma_name_lookup_push_preserve,
    load_shader_post, spec_name_lookup, Shader, ShaderManager, ShaderType,
};
use std::collections::HashMap;

verus! {

broadcast use vstd::std_specs::hash::group_hash_axioms;

/// The handle-value bit that marks a compute pipeline. It sits just below
/// the kind tag, so raster and compute pipelines issued from one counter
/// namespace can never collide.
pub const COMPUTE_PIPELINE_SUB_TAG: u64 = 0x20_0000_0000_0000;

/// The largest counter a pipeline manager may issue: all counters stay below
/// the sub-tag bit.
pub const PIPELINE_COUNTER_LIMIT: u64 = 0x1f_ffff_ffff_ffff;

/// A cached bind-group layout: its typed entries and the debug label it was
/// created under (the source file's stem).
#[derive(PartialEq, Debug)]
pub struct BindGroupLayoutState {
    pub entries: Vec<BindGroupLayoutEntry>,
    pub label: String,
}

/// A cached raster pipeline: shader stages and layouts by handle, and the
/// fixed-function state the descriptor file declared.
#[derive(PartialEq, Debug)]
pub struct RenderPipelineState {
    pub vertex_shader: ResourceHandle,
    pub fragment_shader: Option<ResourceHandle>,
    pub rasterization_state: RasterizationState,
    pub primitive_topology: PrimitiveTopology,
    pub color_states: Vec<ColorState>,
    pub depth_stencil_state: Option<DepthStencilState>,
    pub vertex_buffers: Vec<VertexBufferDescriptor>,
    pub index_format: IndexFormat,
    pub layouts: Vec<ResourceHandle>,
}

/// A cached compute pipeline.
#[derive(PartialEq, Debug)]
pub struct ComputePipelineState {
    pub compute_shader: ResourceHandle,
    pub layouts: Vec<ResourceHandle>,
}

/// Build-time choices that vary a pipeline's cache key even under one source
/// path.
#[derive(Clone, Copy, PartialEq, Eq, Structural, Debug)]
pub struct PipelineConfig {
    /// Whether the pipeline is built for 16-bit index buffers.
    pub use_uint16_indices: bool,
}

/// Caches bind-group layouts and pipelines, and issues `BindingGroup`- and
/// `Pipeline`-tagged handles.
pub struct PipelineManager {
    bg_mapper: HashMap<u64, BindGroupLayoutState>,
    bg_path_mapper: Vec<(String, Vec<u64>)>,
    pipe_mapper: HashMap<u64, RenderPipelineState>,
    compute_pipe_mapper: HashMap<u64, ComputePipelineState>,
    pipe_path_mapper: Vec<(String, PipelineConfig, u64)>,
    handle_counter: u64,
}

/// The counters recorded for a binding-set path: the first entry that
/// matches.
pub open spec fn spec_bg_path_lookup(
    paths: Seq<(String, Vec<u64>)>,
    path: Seq<char>,
) -> Option<Seq<u64>>
    decreases paths.len(),
{
    if paths.len() == 0 {
        None
    } else if paths[0].0@ == path {
        Some(paths[0].1@)
    } else {
        spec_bg_path_lookup(paths.drop_first(), path)
    }
}

/// The handle value recorded for a (path, configuration) pair: the first
/// entry that matches both.
pub open spec fn spec_pipe_path_lookup(
    paths: Seq<(String, PipelineConfig, u64)>,
    path: Seq<char>,
    config: PipelineConfig,
) -> Option<u64>
    decreases paths.len(),
{
    if paths.len() == 0 {
        None
    } else if paths[0].0@ == path && paths[0].1 == config {
        Some(paths[0].2)
    } else {
        spec_pipe_path_lookup(paths.drop_first(), path, config)
    }
}

/// The counters a load starting at `start` issues for `n` fresh resources:
/// `start + 1` through `start + n`.
pub open spec fn spec_fresh_counters(start: u64, n: nat) -> Seq<u64> {
    Seq::new(n, |i: int| (start + 1 + i) as u64)
}

impl PipelineManager {
    /// The layout cache, as a map from counter to layout.
    pub closed spec fn bg_cache(&self) -> Map<u64, BindGroupLayoutState> {
        self.bg_mapper@
    }

    /// The recorded binding-set paths, in insertion order.
    pub closed spec fn bg_paths(&self) -> Seq<(String, Vec<u64>)> {
        self.bg_path_mapper@
    }

    /// The raster pipeline cache.
    pub closed spec fn pipes(&self) -> Map<u64, RenderPipelineState> {
        self.pipe_mapper@
    }

    /// The compute pipeline cache; its keys carry the sub-tag bit.
    pub closed spec fn compute_pipes(&self) -> Map<u64, ComputePipelineState> {
        self.compute_pipe_mapper@
    }

    /// The recorded (path, configuration) pairs, in insertion order.
    pub closed spec fn pipe_paths(&self) -> Seq<(String, PipelineConfig, u64)> {
        self.pipe_path_mapper@
    }

    /// The counter the last issued handle used.
    pub closed spec fn counter(&self) -> u64 {
        self.handle_counter
    }

    /// The manager's invariant: the counter stays below the sub-tag bit,
    /// raster keys are plain issued counters, compute keys are issued
    /// counters with the sub-tag bit added, recorded paths point into the
    /// caches, no path (or path-and-configuration) is recorded twice, and no
    /// two recorded pairs share a handle value.
    pub open spec fn wf(&self) -> bool {
        &&& self.counter() <= PIPELINE_COUNTER_LIMIT
        &&& forall|k: u64|
            #[trigger] self.bg_cache().contains_key(k) ==> 1 <= k && k <= self.counter()
        &&& forall|k: u64|
            #[trigger] self.pipes().contains_key(k) ==> 1 <= k && k <= self.counter()
        &&& forall|k: u64|
            #[trigger] self.compute_pipes().contains_key(k) ==> COMPUTE_PIPELINE_SUB_TAG < k && k
                <= COMPUTE_PIPELINE_SUB_TAG + self.counter()
        &&& forall|i: int|
            0 <= i < self.bg_paths().len() ==> forall|j: int|
                0 <= j < (#[trigger] self.bg_paths()[i]).1@.len() ==> self.bg_cache().contains_key(
                    #[trigger] self.bg_paths()[i].1@[j],
                )
        &&& forall|i: int, j: int|
            #![trigger self.bg_paths()[i], self.bg_paths()[j]]
            0 <= i < j < self.bg_paths().len() ==> self.bg_paths()[i].0@ != self.bg_paths()[j].0@
        &&& forall|i: int|
            0 <= i < self.pipe_paths().len() ==> self.pipes().contains_key(
                (#[trigger] self.pipe_paths()[i]).2,
            ) || self.compute_pipes().contains_key(self.pipe_paths()[i].2)
        &&& forall|i: int|
            0 <= i < self.pipe_paths().len() ==> (#[trigger] self.pipe_paths()[i]).2
                <= COMPUTE_PIPELINE_SUB_TAG + self.counter()
        &&& forall|i: int, j: int|
            #![trigger self.pipe_paths()[i], self.pipe_paths()[j]]
            0 <= i < j < self.pipe_paths().len() ==> !(self.pipe_paths()[i].0@
                == self.pipe_paths()[j].0@ && self.pipe_paths()[i].1 == self.pipe_paths()[j].1)
        &&& forall|i: int, j: int|
            #![trigger self.pipe_paths()[i].2, self.pipe_paths()[j].2]
            0 <= i < j < self.pipe_paths().len() ==> self.pipe_paths()[i].2
                != self.pipe_paths()[j].2
    }

    /// An empty manager.
    pub fn new() -> (r: Self)
        ensures
            r.wf(),
            r.bg_cache() == Map::<u64, BindGroupLayoutState>::empty(),
            r.bg_paths() == Seq::<(String, Vec<u64>)>::empty(),
            r.pipes() == Map::<u64, RenderPipelineState>::empty(),
            r.compute_pipes() == Map::<u64, ComputePipelineState>::empty(),
            r.pipe_paths() == Seq::<(String, PipelineConfig, u64)>::empty(),
            r.counter() == 0,
    {
        Self {
            bg_mapper: HashMap::new(),
            bg_path_mapper: Vec::new(),
            pipe_mapper: HashMap::new(),
            compute_pipe_mapper: HashMap::new(),
            pipe_path_mapper: Vec::new(),
            handle_counter: 0,
        }
    }

    /// How many native layouts this manager has created over its lifetime;
    /// nothing is ever evicted, so a repeated load leaves it unchanged.
    pub fn layout_count(&self) -> (r: usize)
        ensures
            r == self.bg_cache().len(),
    {
        self.bg_mapper.len()
    }

    fn lookup_bg_path(&self, file_name: &str) -> (r: Option<&Vec<u64>>)
        ensures
            match r {
                Some(counters) => spec_bg_path_lookup(self.bg_paths(), file_name@) == Some(
                    counters@,
                ),
                None => spec_bg_path_lookup(self.bg_paths(), file_name@) is None,
            },
    {
        let mut i: usize = 0;
        proof {
            assert(self.bg_paths().skip(0) =~= self.bg_paths());
        }
        loop
            invariant
                i <= self.bg_paths().len(),
                spec_bg_path_lookup(self.bg_paths(), file_name@) == spec_bg_path_lookup(
                    self.bg_paths().skip(i as int),
                    file_name@,
                ),
            decreases self.bg_paths().len() - i,
        {
            if i == self.bg_path_mapper.len() {
                return None;
            }
            proof {
                assert(self.bg_paths().skip(i as int).drop_first() =~= self.bg_paths().skip(
                    i as int + 1,
                ));
            }
            let entry = &self.bg_path_mapper[i];
            if str_eq(entry.0.as_str(), file_name) {
                return Some(&entry.1);
            }
            i = i + 1;
        }
    }

    /// Whether a binding-set path was already loaded; a caller may skip
    /// reading the file when it was.
    pub fn is_binding_group_loaded(&self, file_name: &str) -> (r: bool)
        ensures
            r == (spec_bg_path_lookup(self.bg_paths(), file_name@) is Some),
    {
        self.lookup_bg_path(file_name).is_some()
    }

    /// Loads a binding-set document: one handle per binding set in the file.
    /// A path already loaded returns exactly the handles issued for it and
    /// creates nothing; a fresh path has its document parsed and one layout
    /// cached per set, under fresh counters, in file order.
    pub fn load_binding_group(
        &mut self,
        file_name: &str,
        doc: &JsonValue,
        swap_chain_format: TextureFormat,
    ) -> (r: Result<Vec<ResourceHandle>, LoadError>)
        requires
            old(self).wf(),
        ensures
            final(self).wf(),
            load_binding_group_post(
                *old(self),
                *final(self),
                file_name@,
                *doc,
                swap_chain_format,
                r,
            ),
    {
        match self.lookup_bg_path(file_name) {
            Some(counters) => {
                let mut to_return: Vec<ResourceHandle> = Vec::new();
                let mut i: usize = 0;
                proof {
                    lemma_bg_lookup_in_cache(self.bg_paths(), file_name@);
                    assert forall|j: int|
                        0 <= j < counters@.len() implies #[trigger] counters@[j]
                        <= HANDLE_VALUE_MASK by {
                        let paths = self.bg_paths();
                        let idx = choose|idx: int|
                            0 <= idx < paths.len() && (#[trigger] paths[idx]).1@ == counters@;
                        assert(self.bg_cache().contains_key(self.bg_paths()[idx].1@[j]));
                    }
                }
                let n = counters.len();
                while i < n
                    invariant
                        i <= n,
                        n == counters@.len(),
                        to_return@.len() == i,
                        forall|j: int|
                            0 <= j < i ==> #[trigger] to_return@[j]@ == spec_pack(
                                ResourceHandleType::BindingGroup,
                                counters@[j],
                            ),
                        forall|j: int|
                            0 <= j < n ==> #[trigger] counters@[j] <= HANDLE_VALUE_MASK,
                    decreases n - i,
                {
                    to_return.push(ResourceHandle::new(
                        ResourceHandleType::BindingGroup,
                        counters[i],
                    ));
                    i = i + 1;
                }
                return Ok(to_return);
            },
            None => (),
        };
        let sets = match parse_binding_sets(doc, swap_chain_format) {
            Ok(sets) => sets,
            Err(e) => {
                return Err(LoadError::Config(e));
            },
        };
        let set_count = sets.len() as u64;
        if set_count > PIPELINE_COUNTER_LIMIT - self.handle_counter {
            return Err(LoadError::HandleSpaceExhausted);
        }
        let label = file_stem(file_name).to_owned().concat("_bg");
        let ghost start = self.counter();
        let ghost prev = *self;
        let ghost set_views = crate::descriptors::views_of_sets(sets@);
        let mut remaining = sets;
        let mut counters: Vec<u64> = Vec::new();
        let mut handles: Vec<ResourceHandle> = Vec::new();
        let mut i: usize = 0;
        let n = remaining.len();
        while i < n
            invariant
                i <= n,
                n as u64 == set_count,
                set_count <= PIPELINE_COUNTER_LIMIT - start,
                prev.wf(),
                start == prev.counter(),
                remaining@.len() == n - i,
                forall|j: int|
                    0 <= j < n - i ==> #[trigger] remaining@[j]@ == set_views[i + j],
                set_views.len() == n,
                self.counter() == start + i,
                counters@ == spec_fresh_counters(start, i as nat),
                handles@.len() == i,
                forall|j: int|
                    0 <= j < i ==> #[trigger] handles@[j]@ == spec_pack(
                        ResourceHandleType::BindingGroup,
                        (start + 1 + j) as u64,
                    ),
                forall|k: u64|
                    #[trigger] self.bg_cache().contains_key(k) <==> (prev.bg_cache().contains_key(
                        k,
                    ) || (start < k && k <= start + i)),
                forall|j: int|
                    0 <= j < i ==> #[trigger] self.bg_cache()[(start + 1 + j) as u64].entries@
                        == set_views[j] && self.bg_cache()[(start + 1 + j) as u64].label@
                        == spec_file_stem(file_name@) + "_bg"@,
                forall|k: u64|
                    #[trigger] prev.bg_cache().contains_key(k) ==> self.bg_cache()[k]
                        == prev.bg_cache()[k],
                self.bg_paths() == prev.bg_paths(),
                self.pipes() == prev.pipes(),
                self.compute_pipes() == prev.compute_pipes(),
                self.pipe_paths() == prev.pipe_paths(),
                label@ == spec_file_stem(file_name@) + "_bg"@,
            decreases n - i,
        {
            let ghost cache_before = self.bg_cache();
            let ghost rem_before = remaining@;
            self.handle_counter = self.handle_counter + 1;
            let counter = self.handle_counter;
            let set = remaining.remove(0);
            self.bg_mapper.insert(
                counter,
                BindGroupLayoutState { entries: set, label: label.clone() },
            );
            counters.push(counter);
            handles.push(ResourceHandle::new(ResourceHandleType::BindingGroup, counter));
            proof {
                assert(counters@ =~= spec_fresh_counters(start, (i + 1) as nat));
                assert(remaining@ =~= rem_before.drop_first());
                assert forall|j: int|
                    0 <= j < n - (i + 1) implies #[trigger] remaining@[j]@ == set_views[i + 1
                    + j] by {
                    assert(rem_before[j + 1]@ == set_views[i + (j + 1)]);
                }
                assert forall|k: u64| #[trigger]
                    self.bg_cache().contains_key(k) implies (prev.bg_cache().contains_key(k) || (
                    start < k && k <= start + i + 1)) by {
                    if k != counter {
                        assert(cache_before.contains_key(k));
                        assert(prev.bg_cache().contains_key(k) || (start < k && k <= start + i));
                    }
                }
                assert forall|k: u64|
                    prev.bg_cache().contains_key(k) || (start < k && k <= start + i
                    + 1) implies #[trigger] self.bg_cache().contains_key(k) by {
                    if k != counter {
                        assert(cache_before.contains_key(k));
                    }
                }
                assert forall|j: int|
                    0 <= j < i + 1 implies (#[trigger] self.bg_cache()[(start + 1
                    + j) as u64].entries@ == set_views[j] && self.bg_cache()[(start + 1
                    + j) as u64].label@ == spec_file_stem(file_name@) + "_bg"@) by {
                    assert((start + 1 + (i as int)) as u64 == counter);
                    if j < i {
                        assert((start + 1 + j) as u64 != counter);
                        assert(self.bg_cache()[(start + 1 + j) as u64] == cache_before[(start + 1
                            + j) as u64]);
                        assert(cache_before[(start + 1 + j) as u64].entries@ == set_views[j]);
                        assert(cache_before[(start + 1 + j) as u64].label@ == spec_file_stem(
                            file_name@,
                        ) + "_bg"@);
                    } else {
                        assert(self.bg_cache()[counter].entries@ == set_views[i as int]);
                        assert(self.bg_cache()[counter].label@ == spec_file_stem(file_name@)
                            + "_bg"@);
                    }
                }
                assert(forall|j: int|
                    0 <= j < i + 1 ==> #[trigger] self.bg_cache()[(start + 1 + j) as u64].entries@
                        == set_views[j] && self.bg_cache()[(start + 1 + j) as u64].label@
                        == spec_file_stem(file_name@) + "_bg"@);
            }
            i = i + 1;
        }
        let ghost paths_before = self.bg_paths();
        let ghost cache_done = self.bg_cache();
        self.bg_path_mapper.push((file_name.to_owned(), counters));
        proof {
            assert(self.bg_cache() == cache_done);
            assert(self.bg_paths().take(paths_before.len() as int) =~= paths_before);
            lemma_bg_lookup_none(paths_before, file_name@);
            lemma_bg_lookup_extend(paths_before, self.bg_paths().last(), file_name@);
            assert forall|k: u64| #[trigger]
                self.bg_cache().contains_key(k) implies 1 <= k && k <= self.counter() by {
                assert(cache_done.contains_key(k));
                if prev.bg_cache().contains_key(k) {
                }
            }
        }
        let result: Result<Vec<ResourceHandle>, LoadError> = Ok(handles);
        proof {
            assert(load_binding_group_post(prev, *self, file_name@, *doc, swap_chain_format, result));
        }
        result
    }

    /// Looks a handle's layout up; a value never issued for a layout is
    /// `NotFound`.
    pub fn get_bind_group_from_handle(&self, handle: &ResourceHandle) -> (r: Result<
        &BindGroupLayoutState,
        LookupError,
    >)
        ensures
            match r {
                Ok(layout) => self.bg_cache().contains_key(spec_value_bits(handle@)) && *layout
                    == self.bg_cache()[spec_value_bits(handle@)],
                Err(e) => e == LookupError::NotFound && !self.bg_cache().contains_key(
                    spec_value_bits(handle@),
                ),
            },
    {
        let value = handle.get_value();
        match self.bg_mapper.get(&value) {
            Some(layout) => Ok(layout),
            None => Err(LookupError::NotFound),
        }
    }
}

/// What loading a binding-set document must do. A recorded path: the handles
/// its counters encode, and no change. A fresh path: one layout per parsed
/// set under counters `counter + 1 ..`, the path recorded, the matching
/// handles returned; a parse error or an exhausted counter space changes
/// nothing.
pub open spec fn load_binding_group_post(
    prev: PipelineManager,
    cur: PipelineManager,
    path: Seq<char>,
    doc: JsonValue,
    swap_chain_format: TextureFormat,
    r: Result<Vec<ResourceHandle>, LoadError>,
) -> bool {
    match spec_bg_path_lookup(prev.bg_paths(), path) {
        Some(counters) => {
            &&& cur == prev
            &&& r matches Ok(handles) && handles@.len() == counters.len() && (forall|i: int|
                0 <= i < counters.len() ==> #[trigger] handles@[i]@ == spec_pack(
                    ResourceHandleType::BindingGroup,
                    counters[i],
                ))
        },
        None => match spec_binding_sets(doc, swap_chain_format) {
            Err(e) => {
                &&& cur == prev
                &&& r == Err::<Vec<ResourceHandle>, LoadError>(LoadError::Config(e))
            },
            Ok(sets) => {
                if prev.counter() + sets.len() > PIPELINE_COUNTER_LIMIT {
                    &&& cur == prev
                    &&& r == Err::<Vec<ResourceHandle>, LoadError>(LoadError::HandleSpaceExhausted)
                } else {
                    let fresh = spec_fresh_counters(prev.counter(), sets.len());
                    &&& r matches Ok(handles) && handles@.len() == sets.len() && (forall|i: int|
                        0 <= i < sets.len() ==> #[trigger] handles@[i]@ == spec_pack(
                            ResourceHandleType::BindingGroup,
                            fresh[i],
                        ))
                    &&& cur.counter() == prev.counter() + sets.len()
                    &&& cur.bg_paths().len() == prev.bg_paths().len() + 1
                    &&& cur.bg_paths().take(prev.bg_paths().len() as int) == prev.bg_paths()
                    &&& cur.bg_paths().last().0@ == path
                    &&& cur.bg_paths().last().1@ == fresh
                    &&& forall|k: u64|
                        #[trigger] cur.bg_cache().contains_key(k) <==> (
                        prev.bg_cache().contains_key(k) || (prev.counter() < k && k
                            <= cur.counter()))
                    &&& forall|i: int|
                        0 <= i < sets.len() ==> #[trigger] cur.bg_cache()[fresh[i]].entries@
                            == sets[i] && cur.bg_cache()[fresh[i]].label@ == spec_file_stem(path)
                            + "_bg"@
                    &&& forall|k: u64|
                        #[trigger] prev.bg_cache().contains_key(k) ==> cur.bg_cache()[k]
                            == prev.bg_cache()[k]
                    &&& cur.pipes() == prev.pipes()
                    &&& cur.compute_pipes() == prev.compute_pipes()
                    &&& cur.pipe_paths() == prev.pipe_paths()
                }
            },
        },
    }
}

/// A successful path lookup names counters that some recorded entry holds.
proof fn lemma_bg_lookup_in_cache(paths: Seq<(String, Vec<u64>)>, path: Seq<char>)
    ensures
        match spec_bg_path_lookup(paths, path) {
            Some(counters) => exists|i: int|
                0 <= i < paths.len() && (#[trigger] paths[i]).1@ == counters,
            None => true,
        },
    decreases paths.len(),
{
    if paths.len() > 0 {
        lemma_bg_lookup_in_cache(paths.drop_first(), path);
        if paths[0].0@ != path {
            match spec_bg_path_lookup(paths.drop_first(), path) {
                Some(counters) => {
                    let i = choose|i: int|
                        0 <= i < paths.drop_first().len() && (#[trigger] paths.drop_first()[i]).1@
                            == counters;
                    assert(paths[i + 1].1@ == counters);
                },
                None => {},
            }
        }
    }
}

/// A lookup that misses saw every entry: none records the path.
proof fn lemma_bg_lookup_none(paths: Seq<(String, Vec<u64>)>, path: Seq<char>)
    requires
        spec_bg_path_lookup(paths, path) is None,
    ensures
        forall|i: int| 0 <= i < paths.len() ==> (#[trigger] paths[i]).0@ != path,
    decreases paths.len(),
{
    if paths.len() > 0 {
        lemma_bg_lookup_none(paths.drop_first(), path);
        assert forall|i: int| 0 <= i < paths.len() implies (#[trigger] paths[i]).0@ != path by {
            if i > 0 {
                assert(paths.drop_first()[i - 1] == paths[i]);
            }
        }
    }
}

/// Recording a path that a lookup missed makes the lookup find it.
proof fn lemma_bg_lookup_extend(
    paths: Seq<(String, Vec<u64>)>,
    entry: (String, Vec<u64>),
    path: Seq<char>,
)
    requires
        spec_bg_path_lookup(paths, path) is None,
        entry.0@ == path,
    ensures
        spec_bg_path_lookup(paths.push(entry), path) == Some(entry.1@),
    decreases paths.len(),
{
    if paths.len() == 0 {
        assert(paths.push(entry)[0] == entry);
    } else {
        assert(paths.push(entry)[0] == paths[0]);
        assert(paths.push(entry).drop_first() =~= paths.drop_first().push(entry));
        lemma_bg_lookup_extend(paths.drop_first(), entry, path);
    }
}


/// The bytecode a pipeline load hands to the shader manager, one entry per
/// stage the caller prepared.
pub struct ShaderSources {
    pub vertex: Option<Vec<u32>>,
    pub fragment: Option<Vec<u32>>,
    pub compute: Option<Vec<u32>>,
}

/// Whether a handle value names a raster pipeline: the compute sub-tag bit is
/// clear.
pub open spec fn spec_is_raster_value(value: u64) -> bool {
    value & COMPUTE_PIPELINE_SUB_TAG == 0
}

/// Every counter the manager issues is a raster value; a counter plus the
/// sub-tag bit is not, and adding the bit is the same as setting it.
proof fn lemma_sub_tag_arith(c: u64)
    requires
        c <= PIPELINE_COUNTER_LIMIT,
    ensures
        spec_is_raster_value(c),
        !spec_is_raster_value((c + COMPUTE_PIPELINE_SUB_TAG) as u64),
        c + COMPUTE_PIPELINE_SUB_TAG <= HANDLE_VALUE_MASK,
{
    assert(c <= 0x1f_ffff_ffff_ffffu64 ==> {
        &&& c & 0x20_0000_0000_0000u64 == 0
        &&& ((c + 0x20_0000_0000_0000u64) as u64) & 0x20_0000_0000_0000u64 != 0
    }) by (bit_vector);
}

/// The binding-set path a pipeline descriptor references.
pub open spec fn spec_layout_path(desc: PipelineDescriptor) -> Seq<char> {
    match desc {
        PipelineDescriptor::Raster(rd) => rd.layout_path@,
        PipelineDescriptor::Compute(cd) => cd.layout_path@,
    }
}

/// Whether the caller supplied bytecode for every stage the descriptor
/// needs.
pub open spec fn pipeline_sources_supplied(desc: PipelineDescriptor, sources: ShaderSources) -> bool {
    match desc {
        PipelineDescriptor::Raster(rd) => {
            &&& sources.vertex is Some
            &&& (rd.fragment_shader_name is Some ==> sources.fragment is Some)
        },
        PipelineDescriptor::Compute(_) => sources.compute is Some,
    }
}

/// Whether the shader manager lacks counter space for the stages the
/// descriptor would newly cache.
pub open spec fn spec_shader_space_short(sm: ShaderManager, desc: PipelineDescriptor) -> bool {
    match desc {
        PipelineDescriptor::Raster(rd) => {
            let vertex_fresh = spec_name_lookup(
                sm.names(),
                rd.vertex_shader_name@,
                ShaderType::VERTEX,
            ) is None;
            ||| (vertex_fresh && sm.counter() >= HANDLE_VALUE_MASK)
            ||| (match rd.fragment_shader_name {
                Some(fragment_name) => (spec_name_lookup(
                    sm.names(),
                    fragment_name@,
                    ShaderType::FRAGMENT,
                ) is None) && sm.counter() + (if vertex_fresh {
                    1int
                } else {
                    0int
                }) >= HANDLE_VALUE_MASK,
                None => false,
            })
        },
        PipelineDescriptor::Compute(cd) => (spec_name_lookup(
            sm.names(),
            cd.compute_shader_name@,
            ShaderType::COMPUPTE,
        ) is None) && sm.counter() >= HANDLE_VALUE_MASK,
    }
}

/// The error a binding-group load for `path` would fail with, `None` when it
/// would succeed (including by cache hit).
pub open spec fn spec_bg_would_fail(
    prev: PipelineManager,
    path: Seq<char>,
    doc: JsonValue,
    swap_chain_format: TextureFormat,
) -> Option<LoadError> {
    match spec_bg_path_lookup(prev.bg_paths(), path) {
        Some(_) => None,
        None => match spec_binding_sets(doc, swap_chain_format) {
            Err(e) => Some(LoadError::Config(e)),
            Ok(sets) => if prev.counter() + sets.len() > PIPELINE_COUNTER_LIMIT {
                Some(LoadError::HandleSpaceExhausted)
            } else {
                None
            },
        },
    }
}

/// How many fresh layout counters a binding-group load for `path` would
/// issue.
pub open spec fn spec_bg_new_count(
    prev: PipelineManager,
    path: Seq<char>,
    doc: JsonValue,
    swap_chain_format: TextureFormat,
) -> nat {
    match spec_bg_path_lookup(prev.bg_paths(), path) {
        Some(_) => 0,
        None => match spec_binding_sets(doc, swap_chain_format) {
            Err(_) => 0,
            Ok(sets) => sets.len(),
        },
    }
}

/// The shader manager only ever grows: issued entries and cached modules
/// survive every later load.
pub open spec fn sm_extended(prev: ShaderManager, cur: ShaderManager) -> bool {
    &&& cur.counter() >= prev.counter()
    &&& cur.names().len() >= prev.names().len()
    &&& forall|i: int| 0 <= i < prev.names().len() ==> cur.names()[i] == #[trigger] prev.names()[i]
    &&& forall|k: u64|
        #[trigger] prev.shaders().contains_key(k) ==> cur.shaders().contains_key(k)
            && cur.shaders()[k] == prev.shaders()[k]
}

/// The pipeline manager's layout cache only ever grows.
pub open spec fn pm_bg_extended(prev: PipelineManager, cur: PipelineManager) -> bool {
    &&& cur.counter() >= prev.counter()
    &&& cur.bg_paths().len() >= prev.bg_paths().len()
    &&& forall|i: int|
        0 <= i < prev.bg_paths().len() ==> cur.bg_paths()[i] == #[trigger] prev.bg_paths()[i]
    &&& forall|k: u64|
        #[trigger] prev.bg_cache().contains_key(k) ==> cur.bg_cache().contains_key(k)
            && cur.bg_cache()[k] == prev.bg_cache()[k]
}

/// What the pipeline state cached for a raster descriptor must hold: the
/// descriptor's own fixed-function fields, the index format the
/// configuration selects, and handles that the shader manager and layout
/// cache of the final state resolve to the named stages and layouts.
pub open spec fn raster_state_matches(
    st: RenderPipelineState,
    rd: crate::descriptors::RasterPipelineDescriptor,
    config: PipelineConfig,
    cur: PipelineManager,
    cur_sm: ShaderManager,
) -> bool {
    &&& st.rasterization_state == rd.rasterization_state
    &&& st.primitive_topology == rd.primitive_topology
    &&& st.color_states == rd.color_states
    &&& st.depth_stencil_state == rd.depth_state
    &&& st.vertex_buffers == rd.vertex_buffers
    &&& st.index_format == (if config.use_uint16_indices {
        IndexFormat::Uint16
    } else {
        IndexFormat::Uint32
    })
    &&& (match spec_name_lookup(cur_sm.names(), rd.vertex_shader_name@, ShaderType::VERTEX) {
        Some(c) => st.vertex_shader@ == spec_pack(ResourceHandleType::Shader, c),
        None => false,
    })
    &&& (match rd.fragment_shader_name {
        Some(fragment_name) => match spec_name_lookup(
            cur_sm.names(),
            fragment_name@,
            ShaderType::FRAGMENT,
        ) {
            Some(c) => st.fragment_shader matches Some(fh) && fh@ == spec_pack(
                ResourceHandleType::Shader,
                c,
            ),
            None => false,
        },
        None => st.fragment_shader is None,
    })
    &&& layouts_match(st.layouts@, cur, rd.layout_path@)
}

/// What the pipeline state cached for a compute descriptor must hold.
pub open spec fn compute_state_matches(
    st: ComputePipelineState,
    cd: crate::descriptors::ComputePipelineDescriptor,
    cur: PipelineManager,
    cur_sm: ShaderManager,
) -> bool {
    &&& (match spec_name_lookup(cur_sm.names(), cd.compute_shader_name@, ShaderType::COMPUPTE) {
        Some(c) => st.compute_shader@ == spec_pack(ResourceHandleType::Shader, c),
        None => false,
    })
    &&& layouts_match(st.layouts@, cur, cd.layout_path@)
}

/// The layout handles a pipeline state holds are exactly the ones recorded
/// for its binding-set path, in file order.
pub open spec fn layouts_match(
    layouts: Seq<ResourceHandle>,
    cur: PipelineManager,
    layout_path: Seq<char>,
) -> bool {
    match spec_bg_path_lookup(cur.bg_paths(), layout_path) {
        Some(counters) => layouts.len() == counters.len() && (forall|i: int|
            0 <= i < counters.len() ==> #[trigger] layouts[i]@ == spec_pack(
                ResourceHandleType::BindingGroup,
                counters[i],
            )),
        None => false,
    }
}

/// What loading a pipeline must do. A recorded (path, configuration): its
/// handle, and no change anywhere. Otherwise the required shader stages are
/// cached (deduplicated) in the shader manager, which grows by exactly the
/// stages it did not already hold and by nothing else; the binding-set
/// document is loaded through the layout cache; the assembled pipeline state
/// is cached under a fresh counter — sub-tagged for compute — with the
/// pipeline caches gaining exactly that one entry; and the pair is recorded.
/// A missing source, a malformed binding-set document or an exhausted
/// counter space fails the load and caches no pipeline.
pub open spec fn load_pipeline_post(
    prev: PipelineManager,
    cur: PipelineManager,
    prev_sm: ShaderManager,
    cur_sm: ShaderManager,
    path: Seq<char>,
    config: PipelineConfig,
    desc: PipelineDescriptor,
    sources: ShaderSources,
    layout_doc: JsonValue,
    swap_chain_format: TextureFormat,
    r: Result<ResourceHandle, LoadError>,
) -> bool {
    match spec_pipe_path_lookup(prev.pipe_paths(), path, config) {
        Some(v) => {
            &&& cur == prev
            &&& cur_sm == prev_sm
            &&& r matches Ok(h) && h@ == spec_pack(ResourceHandleType::Pipeline, v)
        },
        None => {
            &&& sm_extended(prev_sm, cur_sm)
            &&& pm_bg_extended(prev, cur)
            &&& if !pipeline_sources_supplied(desc, sources) {
                &&& cur == prev
                &&& cur_sm == prev_sm
                &&& r == Err::<ResourceHandle, LoadError>(LoadError::MissingShader)
            } else if spec_shader_space_short(prev_sm, desc) {
                &&& cur == prev
                &&& r == Err::<ResourceHandle, LoadError>(LoadError::HandleSpaceExhausted)
            } else {
                match spec_bg_would_fail(prev, spec_layout_path(desc), layout_doc, swap_chain_format) {
                    Some(e2) => {
                        &&& cur == prev
                        &&& r == Err::<ResourceHandle, LoadError>(e2)
                    },
                    None => {
                        let after_bg = prev.counter() + spec_bg_new_count(
                            prev,
                            spec_layout_path(desc),
                            layout_doc,
                            swap_chain_format,
                        );
                        if after_bg + 1 > PIPELINE_COUNTER_LIMIT {
                            &&& cur.pipes() == prev.pipes()
                            &&& cur.compute_pipes() == prev.compute_pipes()
                            &&& cur.pipe_paths() == prev.pipe_paths()
                            &&& r == Err::<ResourceHandle, LoadError>(
                                LoadError::HandleSpaceExhausted,
                            )
                        } else {
                            let fresh = (after_bg + 1) as u64;
                            let vval = if desc is Compute {
                                (fresh + COMPUTE_PIPELINE_SUB_TAG) as u64
                            } else {
                                fresh
                            };
                            &&& r matches Ok(h) && h@ == spec_pack(
                                ResourceHandleType::Pipeline,
                                vval,
                            )
                            &&& cur.counter() == fresh
                            &&& cur.pipe_paths().len() == prev.pipe_paths().len() + 1
                            &&& cur.pipe_paths().take(prev.pipe_paths().len() as int)
                                == prev.pipe_paths()
                            &&& cur.pipe_paths().last().0@ == path
                            &&& cur.pipe_paths().last().1 == config
                            &&& cur.pipe_paths().last().2 == vval
                            &&& (forall|k: u64|
                                #[trigger] prev.pipes().contains_key(k) ==> cur.pipes().contains_key(
                                    k,
                                ) && cur.pipes()[k] == prev.pipes()[k])
                            &&& (forall|k: u64|
                                #[trigger] prev.compute_pipes().contains_key(k)
                                    ==> cur.compute_pipes().contains_key(k) && cur.compute_pipes()[k]
                                    == prev.compute_pipes()[k])
                            &&& sm_growth_exact(prev_sm, cur_sm, desc, sources)
                            &&& (match desc {
                                PipelineDescriptor::Raster(rd) => {
                                    &&& cur.pipes().contains_key(vval)
                                    &&& (forall|k: u64|
                                        #[trigger] cur.pipes().contains_key(k) ==> (
                                        prev.pipes().contains_key(k) || k == vval))
                                    &&& raster_state_matches(
                                        cur.pipes()[vval],
                                        rd,
                                        config,
                                        cur,
                                        cur_sm,
                                    )
                                    &&& cur.compute_pipes() == prev.compute_pipes()
                                },
                                PipelineDescriptor::Compute(cd) => {
                                    &&& cur.compute_pipes().contains_key(vval)
                                    &&& (forall|k: u64|
                                        #[trigger] cur.compute_pipes().contains_key(k) ==> (
                                        prev.compute_pipes().contains_key(k) || k == vval))
                                    &&& compute_state_matches(
                                        cur.compute_pipes()[vval],
                                        cd,
                                        cur,
                                        cur_sm,
                                    )
                                    &&& cur.pipes() == prev.pipes()
                                },
                            })
                        }
                    },
                }
            }
        },
    }
}



/// The exact shader-manager growth a fresh pipeline load performs: only the
/// stages the descriptor names and the manager did not already hold are
/// cached — vertex first, then the fragment, or the single compute stage —
/// each under the next counter, holding exactly the supplied bytecode; no
/// other counter appears.
pub open spec fn sm_growth_exact(
    prev: ShaderManager,
    cur: ShaderManager,
    desc: PipelineDescriptor,
    sources: ShaderSources,
) -> bool {
    match desc {
        PipelineDescriptor::Raster(rd) => {
            let vertex_fresh: int = if spec_name_lookup(
                prev.names(),
                rd.vertex_shader_name@,
                ShaderType::VERTEX,
            ) is None {
                1int
            } else {
                0int
            };
            let fragment_fresh: int = match rd.fragment_shader_name {
                Some(fragment_name) => if spec_name_lookup(
                    prev.names(),
                    fragment_name@,
                    ShaderType::FRAGMENT,
                ) is None {
                    1int
                } else {
                    0int
                },
                None => 0int,
            };
            &&& cur.counter() == prev.counter() + vertex_fresh + fragment_fresh
            &&& cur.names().len() == prev.names().len() + vertex_fresh + fragment_fresh
            &&& (vertex_fresh == 1 ==> {
                let entry = cur.names()[prev.names().len() as int];
                &&& entry.0@ == rd.vertex_shader_name@
                &&& entry.1 == ShaderType::VERTEX
                &&& entry.2 == prev.counter() + 1
                &&& cur.shaders().contains_key(entry.2)
                &&& cur.shaders()[entry.2] == (Shader {
                    shader_type: ShaderType::VERTEX,
                    bytecode: sources.vertex->0,
                })
            })
            &&& (fragment_fresh == 1 ==> {
                let entry = cur.names()[prev.names().len() + vertex_fresh];
                &&& (rd.fragment_shader_name matches Some(fragment_name) && entry.0@
                    == fragment_name@)
                &&& entry.1 == ShaderType::FRAGMENT
                &&& entry.2 == prev.counter() + vertex_fresh + 1
                &&& cur.shaders().contains_key(entry.2)
                &&& cur.shaders()[entry.2] == (Shader {
                    shader_type: ShaderType::FRAGMENT,
                    bytecode: sources.fragment->0,
                })
            })
            &&& forall|k: u64|
                #[trigger] cur.shaders().contains_key(k) <==> (prev.shaders().contains_key(k) || (
                prev.counter() < k && k <= cur.counter()))
        },
        PipelineDescriptor::Compute(cd) => {
            let compute_fresh: int = if spec_name_lookup(
                prev.names(),
                cd.compute_shader_name@,
                ShaderType::COMPUPTE,
            ) is None {
                1int
            } else {
                0int
            };
            &&& cur.counter() == prev.counter() + compute_fresh
            &&& cur.names().len() == prev.names().len() + compute_fresh
            &&& (compute_fresh == 1 ==> {
                let entry = cur.names()[prev.names().len() as int];
                &&& entry.0@ == cd.compute_shader_name@
                &&& entry.1 == ShaderType::COMPUPTE
                &&& entry.2 == prev.counter() + 1
                &&& cur.shaders().contains_key(entry.2)
                &&& cur.shaders()[entry.2] == (Shader {
                    shader_type: ShaderType::COMPUPTE,
                    bytecode: sources.compute->0,
                })
            })
            &&& forall|k: u64|
                #[trigger] cur.shaders().contains_key(k) <==> (prev.shaders().contains_key(k) || (
                prev.counter() < k && k <= cur.counter()))
        },
    }
}

/// A lookup that misses saw every entry: none records the pair.
proof fn lemma_pipe_lookup_none(
    paths: Seq<(String, PipelineConfig, u64)>,
    path: Seq<char>,
    config: PipelineConfig,
)
    requires
        spec_pipe_path_lookup(paths, path, config) is None,
    ensures
        forall|i: int|
            0 <= i < paths.len() ==> !((#[trigger] paths[i]).0@ == path && paths[i].1 == config),
    decreases paths.len(),
{
    if paths.len() > 0 {
        lemma_pipe_lookup_none(paths.drop_first(), path, config);
        assert forall|i: int|
            0 <= i < paths.len() implies !((#[trigger] paths[i]).0@ == path && paths[i].1
            == config) by {
            if i > 0 {
                assert(paths.drop_first()[i - 1] == paths[i]);
            }
        }
    }
}

/// Recording a pair that a lookup missed makes the lookup find it.
proof fn lemma_pipe_lookup_extend(
    paths: Seq<(String, PipelineConfig, u64)>,
    entry: (String, PipelineConfig, u64),
    path: Seq<char>,
    config: PipelineConfig,
)
    requires
        spec_pipe_path_lookup(paths, path, config) is None,
        entry.0@ == path,
        entry.1 == config,
    ensures
        spec_pipe_path_lookup(paths.push(entry), path, config) == Some(entry.2),
    decreases paths.len(),
{
    if paths.len() == 0 {
        assert(paths.push(entry)[0] == entry);
    } else {
        assert(paths.push(entry)[0] == paths[0]);
        assert(paths.push(entry).drop_first() =~= paths.drop_first().push(entry));
        lemma_pipe_lookup_extend(paths.drop_first(), entry, path, config);
    }
}

/// A successful pair lookup names a recorded entry that carries exactly the
/// path, the configuration and the value.
proof fn lemma_pipe_lookup_found(
    paths: Seq<(String, PipelineConfig, u64)>,
    path: Seq<char>,
    config: PipelineConfig,
)
    ensures
        match spec_pipe_path_lookup(paths, path, config) {
            Some(v) => exists|i: int|
                0 <= i < paths.len() && (#[trigger] paths[i]).0@ == path && paths[i].1 == config
                    && paths[i].2 == v,
            None => true,
        },
    decreases paths.len(),
{
    if paths.len() > 0 {
        lemma_pipe_lookup_found(paths.drop_first(), path, config);
        if !(paths[0].0@ == path && paths[0].1 == config) {
            match spec_pipe_path_lookup(paths.drop_first(), path, config) {
                Some(v) => {
                    let rest = paths.drop_first();
                    let i = choose|i: int|
                        0 <= i < rest.len() && (#[trigger] rest[i]).0@ == path && rest[i].1
                            == config && rest[i].2 == v;
                    assert(paths[i + 1] == rest[i]);
                },
                None => {},
            }
        }
    }
}


/// One shader load only extends the manager.
proof fn lemma_sm_extended_from_load(
    prev: ShaderManager,
    cur: ShaderManager,
    name: Seq<char>,
    shader_type: ShaderType,
    bytecode: Vec<u32>,
    r: Result<ResourceHandle, LoadError>,
)
    requires
        prev.wf(),
        load_shader_post(prev, cur, name, shader_type, bytecode, r),
    ensures
        sm_extended(prev, cur),
{
    match spec_name_lookup(prev.names(), name, shader_type) {
        Some(_) => {},
        None => {
            if prev.counter() < HANDLE_VALUE_MASK {
                let prev_names = prev.names();
                assert forall|i: int|
                    0 <= i < prev_names.len() implies cur.names()[i] == #[trigger] prev_names[i] by {
                    assert(cur.names().take(prev.names().len() as int)[i] == prev.names()[i]);
                }
            }
        },
    }
}

/// Extension composes.
proof fn lemma_sm_extended_trans(a: ShaderManager, b: ShaderManager, c: ShaderManager)
    requires
        sm_extended(a, b),
        sm_extended(b, c),
    ensures
        sm_extended(a, c),
{
}

/// One binding-group load only extends the layout cache.
proof fn lemma_pm_bg_extended_from_load(
    prev: PipelineManager,
    cur: PipelineManager,
    path: Seq<char>,
    doc: JsonValue,
    swap_chain_format: TextureFormat,
    r: Result<Vec<ResourceHandle>, LoadError>,
)
    requires
        load_binding_group_post(prev, cur, path, doc, swap_chain_format, r),
    ensures
        pm_bg_extended(prev, cur),
{
    match spec_bg_path_lookup(prev.bg_paths(), path) {
        Some(_) => {},
        None => match spec_binding_sets(doc, swap_chain_format) {
            Err(_) => {},
            Ok(sets) => {
                if prev.counter() + sets.len() <= PIPELINE_COUNTER_LIMIT {
                    assert forall|i: int|
                        0 <= i < prev.bg_paths().len() implies cur.bg_paths()[i]
                        == #[trigger] prev.bg_paths()[i] by {
                        assert(cur.bg_paths().take(prev.bg_paths().len() as int)[i]
                            == prev.bg_paths()[i]);
                    }
                }
            },
        },
    }
}

impl PipelineManager {
    fn lookup_pipe_path(&self, file_name: &str, config: PipelineConfig) -> (r: Option<u64>)
        ensures
            r == spec_pipe_path_lookup(self.pipe_paths(), file_name@, config),
    {
        let mut i: usize = 0;
        proof {
            assert(self.pipe_paths().skip(0) =~= self.pipe_paths());
        }
        loop
            invariant
                i <= self.pipe_paths().len(),
                spec_pipe_path_lookup(self.pipe_paths(), file_name@, config)
                    == spec_pipe_path_lookup(
                    self.pipe_paths().skip(i as int),
                    file_name@,
                    config,
                ),
            decreases self.pipe_paths().len() - i,
        {
            if i == self.pipe_path_mapper.len() {
                return None;
            }
            proof {
                assert(self.pipe_paths().skip(i as int).drop_first() =~= self.pipe_paths().skip(
                    i as int + 1,
                ));
            }
            let entry = &self.pipe_path_mapper[i];
            if str_eq(entry.0.as_str(), file_name) && entry.1 == config {
                return Some(entry.2);
            }
            i = i + 1;
        }
    }

    /// Whether a (path, configuration) pair was already loaded.
    pub fn is_pipeline_loaded(&self, file_name: &str, config: PipelineConfig) -> (r: bool)
        ensures
            r == (spec_pipe_path_lookup(self.pipe_paths(), file_name@, config) is Some),
    {
        self.lookup_pipe_path(file_name, config).is_some()
    }

    /// Loads a pipeline from its parsed descriptor. A (path, configuration)
    /// already loaded returns the handle issued for it, unchanged. Otherwise
    /// the shader stages are cached through the shader manager, the
    /// descriptor's binding-set document through this manager's layout cache,
    /// and the assembled pipeline state under a fresh counter — with the
    /// compute sub-tag bit for a compute pipeline — and the pair is recorded.
    pub fn load_pipeline(
        &mut self,
        file_name: &str,
        config: PipelineConfig,
        desc: PipelineDescriptor,
        sources: ShaderSources,
        layout_doc: &JsonValue,
        shader_manager: &mut ShaderManager,
        swap_chain_format: TextureFormat,
    ) -> (r: Result<ResourceHandle, LoadError>)
        requires
            old(self).wf(),
            old(shader_manager).wf(),
        ensures
            final(self).wf(),
            final(shader_manager).wf(),
            load_pipeline_post(
                *old(self),
                *final(self),
                *old(shader_manager),
                *final(shader_manager),
                file_name@,
                config,
                desc,
                sources,
                *layout_doc,
                swap_chain_format,
                r,
            ),
    {
        match self.lookup_pipe_path(file_name, config) {
            Some(cached) => {
                proof {
                    lemma_pipe_lookup_found(self.pipe_paths(), file_name@, config);
                }
                return Ok(ResourceHandle::new(ResourceHandleType::Pipeline, cached));
            },
            None => (),
        };
        let ghost prev = *self;
        let ghost prev_sm = *shader_manager;
        let ShaderSources { vertex, fragment, compute } = sources;
        match desc {
            PipelineDescriptor::Raster(rd) => {
                if rd.fragment_shader_name.is_some() && fragment.is_none() {
                    return Err(LoadError::MissingShader);
                }
                let vertex_bytes = match vertex {
                    Some(b) => b,
                    None => {
                        return Err(LoadError::MissingShader);
                    },
                };
                let vs_handle = match shader_manager.load_shader_type(
                    rd.vertex_shader_name.as_str(),
                    ShaderType::VERTEX,
                    vertex_bytes,
                ) {
                    Ok(h) => h,
                    Err(_) => {
                        return Err(LoadError::HandleSpaceExhausted);
                    },
                };
                let ghost mid_sm = *shader_manager;
                proof {
                    lemma_sm_extended_from_load(
                        prev_sm,
                        mid_sm,
                        rd.vertex_shader_name@,
                        ShaderType::VERTEX,
                        sources.vertex->0,
                        Ok(vs_handle),
                    );
                    lemma_lookup_after_load(
                        prev_sm,
                        mid_sm,
                        rd.vertex_shader_name@,
                        ShaderType::VERTEX,
                        sources.vertex->0,
                        vs_handle,
                    );
                }
                let fs_handle: Option<ResourceHandle> = match &rd.fragment_shader_name {
                    Some(fragment_name) => {
                        let fragment_bytes = match fragment {
                            Some(b) => b,
                            None => {
                                return Err(LoadError::MissingShader);
                            },
                        };
                        proof {
                            if spec_name_lookup(
                                prev_sm.names(),
                                rd.vertex_shader_name@,
                                ShaderType::VERTEX,
                            ) is None {
                                lemma_name_lookup_push_preserve(
                                    prev_sm.names(),
                                    mid_sm.names().last(),
                                    fragment_name@,
                                    ShaderType::FRAGMENT,
                                );
                                assert(mid_sm.names() =~= prev_sm.names().push(
                                    mid_sm.names().last(),
                                ));
                            }
                        }
                        match shader_manager.load_shader_type(
                            fragment_name.as_str(),
                            ShaderType::FRAGMENT,
                            fragment_bytes,
                        ) {
                            Ok(h) => {
                                proof {
                                    lemma_sm_extended_from_load(
                                        mid_sm,
                                        *shader_manager,
                                        fragment_name@,
                                        ShaderType::FRAGMENT,
                                        sources.fragment->0,
                                        Ok(h),
                                    );
                                    lemma_sm_extended_trans(prev_sm, mid_sm, *shader_manager);
                                    lemma_lookup_after_load(
                                        mid_sm,
                                        *shader_manager,
                                        fragment_name@,
                                        ShaderType::FRAGMENT,
                                        sources.fragment->0,
                                        h,
                                    );
                                    if spec_name_lookup(
                                        mid_sm.names(),
                                        fragment_name@,
                                        ShaderType::FRAGMENT,
                                    ) is None {
                                        lemma_name_lookup_push_keeps_some(
                                            mid_sm.names(),
                                            shader_manager.names().last(),
                                            rd.vertex_shader_name@,
                                            ShaderType::VERTEX,
                                        );
                                        assert(shader_manager.names() =~= mid_sm.names().push(
                                            shader_manager.names().last(),
                                        ));
                                    }
                                }
                                Some(h)
                            },
                            Err(_) => {
                                proof {
                                    lemma_sm_extended_from_load(
                                        mid_sm,
                                        *shader_manager,
                                        fragment_name@,
                                        ShaderType::FRAGMENT,
                                        sources.fragment->0,
                                        Err(LoadError::HandleSpaceExhausted),
                                    );
                                    lemma_sm_extended_trans(prev_sm, mid_sm, *shader_manager);
                                }
                                return Err(LoadError::HandleSpaceExhausted);
                            },
                        }
                    },
                    None => None,
                };
                let ghost done_sm = *shader_manager;
                let ghost before_bg = *self;
                let layout_handles = match self.load_binding_group(
                    rd.layout_path.as_str(),
                    layout_doc,
                    swap_chain_format,
                ) {
                    Ok(hs) => {
                        proof {
                            lemma_pm_bg_extended_from_load(
                                before_bg,
                                *self,
                                rd.layout_path@,
                                *layout_doc,
                                swap_chain_format,
                                Ok(hs),
                            );
                        }
                        hs
                    },
                    Err(e) => {
                        proof {
                            lemma_pm_bg_extended_from_load(
                                before_bg,
                                *self,
                                rd.layout_path@,
                                *layout_doc,
                                swap_chain_format,
                                Err(e),
                            );
                        }
                        return Err(e);
                    },
                };
                let ghost after_bg = *self;
                if self.handle_counter >= PIPELINE_COUNTER_LIMIT {
                    return Err(LoadError::HandleSpaceExhausted);
                }
                self.handle_counter = self.handle_counter + 1;
                let fresh = self.handle_counter;
                let index_format = if config.use_uint16_indices {
                    IndexFormat::Uint16
                } else {
                    IndexFormat::Uint32
                };
                let state = RenderPipelineState {
                    vertex_shader: vs_handle,
                    fragment_shader: fs_handle,
                    rasterization_state: rd.rasterization_state,
                    primitive_topology: rd.primitive_topology,
                    color_states: rd.color_states,
                    depth_stencil_state: rd.depth_state,
                    vertex_buffers: rd.vertex_buffers,
                    index_format,
                    layouts: layout_handles,
                };
                let ghost pipes_before = self.pipes();
                self.pipe_mapper.insert(fresh, state);
                let ghost paths_before = self.pipe_paths();
                self.pipe_path_mapper.push((file_name.to_owned(), config, fresh));
                let h = ResourceHandle::new(ResourceHandleType::Pipeline, fresh);
                proof {
                    assert(self.pipe_paths().take(paths_before.len() as int) =~= paths_before);
                    lemma_pipe_lookup_none(paths_before, file_name@, config);
                    lemma_sub_tag_arith(fresh);
                    assert forall|idx: int|
                        0 <= idx < paths_before.len() implies (#[trigger] paths_before[idx]).2
                        != fresh by {
                        let v = paths_before[idx].2;
                        if prev.pipes().contains_key(v) {
                            assert(v <= prev.counter());
                        } else {
                            assert(prev.compute_pipes().contains_key(v));
                            assert(v > COMPUTE_PIPELINE_SUB_TAG);
                        }
                    }
                    assert(self.bg_paths() == after_bg.bg_paths());
                    assert(self.bg_cache() == after_bg.bg_cache());
                    assert(self.compute_pipes() == after_bg.compute_pipes());
                    if spec_bg_path_lookup(prev.bg_paths(), rd.layout_path@) is None {
                        assert(after_bg.bg_paths() =~= prev.bg_paths().push(
                            after_bg.bg_paths().last(),
                        ));
                        lemma_bg_lookup_extend(
                            prev.bg_paths(),
                            after_bg.bg_paths().last(),
                            rd.layout_path@,
                        );
                    }
                    assert forall|k: u64| #[trigger]
                        prev.pipes().contains_key(k) implies self.pipes().contains_key(k)
                        && self.pipes()[k] == prev.pipes()[k] by {
                        assert(k <= prev.counter());
                        assert(pipes_before.contains_key(k));
                    }
                    assert forall|k: u64| #[trigger]
                        self.pipes().contains_key(k) implies 1 <= k && k <= self.counter() by {
                        if k != fresh {
                            assert(pipes_before.contains_key(k));
                            assert(after_bg.pipes().contains_key(k));
                        }
                    }
                    assert(load_pipeline_post(
                        prev,
                        *self,
                        prev_sm,
                        *shader_manager,
                        file_name@,
                        config,
                        desc,
                        sources,
                        *layout_doc,
                        swap_chain_format,
                        Ok(h),
                    ));
                }
                Ok(h)
            },
            PipelineDescriptor::Compute(cd) => {
                let compute_bytes = match compute {
                    Some(b) => b,
                    None => {
                        return Err(LoadError::MissingShader);
                    },
                };
                let cs_handle = match shader_manager.load_shader_type(
                    cd.compute_shader_name.as_str(),
                    ShaderType::COMPUPTE,
                    compute_bytes,
                ) {
                    Ok(h) => h,
                    Err(_) => {
                        return Err(LoadError::HandleSpaceExhausted);
                    },
                };
                proof {
                    lemma_sm_extended_from_load(
                        prev_sm,
                        *shader_manager,
                        cd.compute_shader_name@,
                        ShaderType::COMPUPTE,
                        sources.compute->0,
                        Ok(cs_handle),
                    );
                    lemma_lookup_after_load(
                        prev_sm,
                        *shader_manager,
                        cd.compute_shader_name@,
                        ShaderType::COMPUPTE,
                        sources.compute->0,
                        cs_handle,
                    );
                }
                let ghost before_bg = *self;
                let layout_handles = match self.load_binding_group(
                    cd.layout_path.as_str(),
                    layout_doc,
                    swap_chain_format,
                ) {
                    Ok(hs) => {
                        proof {
                            lemma_pm_bg_extended_from_load(
                                before_bg,
                                *self,
                                cd.layout_path@,
                                *layout_doc,
                                swap_chain_format,
                                Ok(hs),
                            );
                        }
                        hs
                    },
                    Err(e) => {
                        proof {
                            lemma_pm_bg_extended_from_load(
                                before_bg,
                                *self,
                                cd.layout_path@,
                                *layout_doc,
                                swap_chain_format,
                                Err(e),
                            );
                        }
                        return Err(e);
                    },
                };
                let ghost after_bg = *self;
                if self.handle_counter >= PIPELINE_COUNTER_LIMIT {
                    return Err(LoadError::HandleSpaceExhausted);
                }
                self.handle_counter = self.handle_counter + 1;
                let fresh = self.handle_counter;
                proof {
                    lemma_sub_tag_arith(fresh);
                }
                let tagged = fresh + COMPUTE_PIPELINE_SUB_TAG;
                let state = ComputePipelineState {
                    compute_shader: cs_handle,
                    layouts: layout_handles,
                };
                let ghost compute_before = self.compute_pipes();
                self.compute_pipe_mapper.insert(tagged, state);
                let ghost paths_before = self.pipe_paths();
                self.pipe_path_mapper.push((file_name.to_owned(), config, tagged));
                let h = ResourceHandle::new(ResourceHandleType::Pipeline, tagged);
                proof {
                    assert(self.pipe_paths().take(paths_before.len() as int) =~= paths_before);
                    lemma_pipe_lookup_none(paths_before, file_name@, config);
                    assert forall|idx: int|
                        0 <= idx < paths_before.len() implies (#[trigger] paths_before[idx]).2
                        != tagged by {
                        let v = paths_before[idx].2;
                        if prev.pipes().contains_key(v) {
                            assert(v <= prev.counter());
                            lemma_sub_tag_arith(v);
                        } else {
                            assert(prev.compute_pipes().contains_key(v));
                            assert(v <= COMPUTE_PIPELINE_SUB_TAG + prev.counter());
                        }
                    }
                    assert(self.bg_paths() == after_bg.bg_paths());
                    assert(self.bg_cache() == after_bg.bg_cache());
                    assert(self.pipes() == after_bg.pipes());
                    if spec_bg_path_lookup(prev.bg_paths(), cd.layout_path@) is None {
                        assert(after_bg.bg_paths() =~= prev.bg_paths().push(
                            after_bg.bg_paths().last(),
                        ));
                        lemma_bg_lookup_extend(
                            prev.bg_paths(),
                            after_bg.bg_paths().last(),
                            cd.layout_path@,
                        );
                    }
                    assert forall|k: u64| #[trigger]
                        prev.compute_pipes().contains_key(k) implies self.compute_pipes().contains_key(
                        k,
                    ) && self.compute_pipes()[k] == prev.compute_pipes()[k] by {
                        assert(compute_before.contains_key(k));
                    }
                    assert forall|k: u64| #[trigger]
                        self.compute_pipes().contains_key(k) implies COMPUTE_PIPELINE_SUB_TAG < k
                        && k <= COMPUTE_PIPELINE_SUB_TAG + self.counter() by {
                        if k != tagged {
                            assert(compute_before.contains_key(k));
                            assert(after_bg.compute_pipes().contains_key(k));
                        }
                    }
                    assert(load_pipeline_post(
                        prev,
                        *self,
                        prev_sm,
                        *shader_manager,
                        file_name@,
                        config,
                        desc,
                        sources,
                        *layout_doc,
                        swap_chain_format,
                        Ok(h),
                    ));
                }
                Ok(h)
            },
        }
    }

    /// Looks a handle's raster pipeline up. The handle must carry the
    /// `Pipeline` kind with the raster sub-tag — a handle of any other kind,
    /// or a compute-tagged one, fails the type check rather than returning a
    /// value — and the value must have been issued for a raster pipeline.
    pub fn get_pipeline_from_handle(&self, handle: &ResourceHandle) -> (r: Result<
        &RenderPipelineState,
        LookupError,
    >)
        ensures
            match r {
                Ok(st) => spec_kind_of(handle@) == ResourceHandleType::Pipeline
                    && spec_is_raster_value(spec_value_bits(handle@))
                    && self.pipes().contains_key(spec_value_bits(handle@)) && *st
                    == self.pipes()[spec_value_bits(handle@)],
                Err(LookupError::WrongKind) => spec_kind_of(handle@)
                    != ResourceHandleType::Pipeline || !spec_is_raster_value(
                    spec_value_bits(handle@),
                ),
                Err(LookupError::NotFound) => spec_kind_of(handle@)
                    == ResourceHandleType::Pipeline && spec_is_raster_value(
                    spec_value_bits(handle@),
                ) && !self.pipes().contains_key(spec_value_bits(handle@)),
            },
    {
        let handle_type = handle.get_type();
        if handle_type != ResourceHandleType::Pipeline {
            return Err(LookupError::WrongKind);
        }
        if !self.is_raster_pipeline(handle) {
            return Err(LookupError::WrongKind);
        }
        let value = handle.get_value();
        match self.pipe_mapper.get(&value) {
            Some(st) => Ok(st),
            None => Err(LookupError::NotFound),
        }
    }

    /// Whether a `Pipeline`-tagged handle names a raster pipeline: its
    /// compute sub-tag bit is clear. Asking this of a handle of any other
    /// kind is a caller bug, ruled out up front.
    pub fn is_raster_pipeline(&self, handle: &ResourceHandle) -> (r: bool)
        requires
            spec_kind_of(handle@) == ResourceHandleType::Pipeline,
        ensures
            r == spec_is_raster_value(spec_value_bits(handle@)),
    {
        let handle_value = handle.get_value();
        (handle_value & COMPUTE_PIPELINE_SUB_TAG) == 0
    }

    /// Looks a handle's compute pipeline up. The handle must carry the
    /// `Pipeline` kind and the compute sub-tag — a raster handle fails the
    /// sub-tag check rather than returning a value.
    pub fn get_compute_pipeline_from_handle(&self, handle: &ResourceHandle) -> (r: Result<
        &ComputePipelineState,
        LookupError,
    >)
        ensures
            match r {
                Ok(st) => spec_kind_of(handle@) == ResourceHandleType::Pipeline
                    && !spec_is_raster_value(spec_value_bits(handle@))
                    && self.compute_pipes().contains_key(spec_value_bits(handle@)) && *st
                    == self.compute_pipes()[spec_value_bits(handle@)],
                Err(LookupError::WrongKind) => spec_kind_of(handle@)
                    != ResourceHandleType::Pipeline || spec_is_raster_value(
                    spec_value_bits(handle@),
                ),
                Err(LookupError::NotFound) => spec_kind_of(handle@)
                    == ResourceHandleType::Pipeline && !spec_is_raster_value(
                    spec_value_bits(handle@),
                ) && !self.compute_pipes().contains_key(spec_value_bits(handle@)),
            },
    {
        let handle_type = handle.get_type();
        if handle_type != ResourceHandleType::Pipeline {
            return Err(LookupError::WrongKind);
        }
        if self.is_raster_pipeline(handle) {
            return Err(LookupError::WrongKind);
        }
        let value = handle.get_value();
        match self.compute_pipe_mapper.get(&value) {
            Some(st) => Ok(st),
            None => Err(LookupError::NotFound),
        }
    }
}


/// Recording a pair never disturbs a lookup for a different pair.
proof fn lemma_pipe_lookup_push_preserve(
    paths: Seq<(String, PipelineConfig, u64)>,
    entry: (String, PipelineConfig, u64),
    path: Seq<char>,
    config: PipelineConfig,
)
    requires
        !(entry.0@ == path && entry.1 == config),
    ensures
        spec_pipe_path_lookup(paths.push(entry), path, config) == spec_pipe_path_lookup(
            paths,
            path,
            config,
        ),
    decreases paths.len(),
{
    if paths.len() == 0 {
        assert(paths.push(entry)[0] == entry);
        assert(paths.push(entry).drop_first().len() == 0);
        assert(spec_pipe_path_lookup(paths.push(entry).drop_first(), path, config) is None);
    } else {
        assert(paths.push(entry)[0] == paths[0]);
        assert(paths.push(entry).drop_first() =~= paths.drop_first().push(entry));
        lemma_pipe_lookup_push_preserve(paths.drop_first(), entry, path, config);
    }
}

/// Loading the same binding-set path twice returns identical handle lists
/// both times, leaves the manager exactly as the first load left it, and in
/// particular creates no further native layout: the layout cache keeps its
/// size.
pub proof fn lemma_binding_group_load_idempotent(
    pm0: PipelineManager,
    pm1: PipelineManager,
    pm2: PipelineManager,
    path: Seq<char>,
    doc1: JsonValue,
    doc2: JsonValue,
    swap1: TextureFormat,
    swap2: TextureFormat,
    r1: Result<Vec<ResourceHandle>, LoadError>,
    r2: Result<Vec<ResourceHandle>, LoadError>,
)
    requires
        load_binding_group_post(pm0, pm1, path, doc1, swap1, r1),
        r1 is Ok,
        load_binding_group_post(pm1, pm2, path, doc2, swap2, r2),
    ensures
        pm2 == pm1,
        pm2.bg_cache().len() == pm1.bg_cache().len(),
        r2 matches Ok(h2) && (r1 matches Ok(h1) && h1@ == h2@),
{
    let h1 = r1->Ok_0;
    match spec_bg_path_lookup(pm0.bg_paths(), path) {
        Some(counters) => {
            let h2 = r2->Ok_0;
            assert forall|i: int| 0 <= i < h1@.len() implies h1@[i] == h2@[i] by {
                crate::handle::lemma_handle_eq_from_view(h1@[i], h2@[i]);
            }
            assert(h1@ =~= h2@);
        },
        None => {
            let fresh = spec_fresh_counters(pm0.counter(), spec_binding_sets(doc1, swap1)->Ok_0.len());
            assert(pm1.bg_paths() =~= pm0.bg_paths().push(pm1.bg_paths().last()));
            lemma_bg_lookup_extend(pm0.bg_paths(), pm1.bg_paths().last(), path);
            assert(spec_bg_path_lookup(pm1.bg_paths(), path) == Some(fresh));
            let h2 = r2->Ok_0;
            assert forall|i: int| 0 <= i < h1@.len() implies h1@[i] == h2@[i] by {
                crate::handle::lemma_handle_eq_from_view(h1@[i], h2@[i]);
            }
            assert(h1@ =~= h2@);
        },
    }
}

/// Loading the same pipeline path under the same configuration twice returns
/// the same handle, and the second load changes neither manager.
pub proof fn lemma_pipeline_load_idempotent(
    pm0: PipelineManager,
    pm1: PipelineManager,
    pm2: PipelineManager,
    sm0: ShaderManager,
    sm1: ShaderManager,
    sm2: ShaderManager,
    path: Seq<char>,
    config: PipelineConfig,
    desc1: PipelineDescriptor,
    desc2: PipelineDescriptor,
    sources1: ShaderSources,
    sources2: ShaderSources,
    layout_doc1: JsonValue,
    layout_doc2: JsonValue,
    swap1: TextureFormat,
    swap2: TextureFormat,
    r1: Result<ResourceHandle, LoadError>,
    r2: Result<ResourceHandle, LoadError>,
)
    requires
        load_pipeline_post(
            pm0,
            pm1,
            sm0,
            sm1,
            path,
            config,
            desc1,
            sources1,
            layout_doc1,
            swap1,
            r1,
        ),
        r1 is Ok,
        load_pipeline_post(
            pm1,
            pm2,
            sm1,
            sm2,
            path,
            config,
            desc2,
            sources2,
            layout_doc2,
            swap2,
            r2,
        ),
    ensures
        pm2 == pm1,
        sm2 == sm1,
        r2 matches Ok(h2) && (r1 matches Ok(h1) && h1 == h2),
{
    let h1 = r1->Ok_0;
    match spec_pipe_path_lookup(pm0.pipe_paths(), path, config) {
        Some(v) => {
            let h2 = r2->Ok_0;
            crate::handle::lemma_handle_eq_from_view(h1, h2);
        },
        None => {
            assert(pm1.pipe_paths() =~= pm0.pipe_paths().push(pm1.pipe_paths().last()));
            lemma_pipe_lookup_extend(
                pm0.pipe_paths(),
                pm1.pipe_paths().last(),
                path,
                config,
            );
            let h2 = r2->Ok_0;
            crate::handle::lemma_handle_eq_from_view(h1, h2);
        },
    }
}

/// Loading one pipeline path under two different configurations returns two
/// distinct handles, and both stay resolvable in the final manager: each
/// handle's value is cached in the raster or compute pipeline cache. This
/// holds whether either pair was already recorded or is loaded fresh.
pub proof fn lemma_pipeline_config_distinct(
    pm0: PipelineManager,
    pm1: PipelineManager,
    pm2: PipelineManager,
    sm0: ShaderManager,
    sm1: ShaderManager,
    sm2: ShaderManager,
    path: Seq<char>,
    config1: PipelineConfig,
    config2: PipelineConfig,
    desc1: PipelineDescriptor,
    desc2: PipelineDescriptor,
    sources1: ShaderSources,
    sources2: ShaderSources,
    layout_doc1: JsonValue,
    layout_doc2: JsonValue,
    swap1: TextureFormat,
    swap2: TextureFormat,
    r1: Result<ResourceHandle, LoadError>,
    r2: Result<ResourceHandle, LoadError>,
)
    requires
        config1 != config2,
        pm0.wf(),
        pm1.wf(),
        load_pipeline_post(
            pm0,
            pm1,
            sm0,
            sm1,
            path,
            config1,
            desc1,
            sources1,
            layout_doc1,
            swap1,
            r1,
        ),
        r1 is Ok,
        load_pipeline_post(
            pm1,
            pm2,
            sm1,
            sm2,
            path,
            config2,
            desc2,
            sources2,
            layout_doc2,
            swap2,
            r2,
        ),
        r2 is Ok,
    ensures
        r1 matches Ok(h1) && r2 matches Ok(h2) && {
            &&& h1 != h2
            &&& spec_kind_of(h1@) == ResourceHandleType::Pipeline
            &&& spec_kind_of(h2@) == ResourceHandleType::Pipeline
            &&& (pm2.pipes().contains_key(spec_value_bits(h1@))
                || pm2.compute_pipes().contains_key(spec_value_bits(h1@)))
            &&& (pm2.pipes().contains_key(spec_value_bits(h2@))
                || pm2.compute_pipes().contains_key(spec_value_bits(h2@)))
        },
{
    let h1 = r1->Ok_0;
    let h2 = r2->Ok_0;
    let paths0 = pm0.pipe_paths();
    let paths1 = pm1.pipe_paths();
    // The value each load returned, and where it lives in pm1.
    let v1: u64 = match spec_pipe_path_lookup(paths0, path, config1) {
        Some(v) => v,
        None => {
            let after_bg = pm0.counter() + spec_bg_new_count(
                pm0,
                spec_layout_path(desc1),
                layout_doc1,
                swap1,
            );
            if desc1 is Compute {
                ((after_bg + 1) + COMPUTE_PIPELINE_SUB_TAG) as u64
            } else {
                (after_bg + 1) as u64
            }
        },
    };
    match spec_pipe_path_lookup(paths0, path, config1) {
        Some(_) => {
            lemma_pipe_lookup_found(paths0, path, config1);
            let i1 = choose|i: int|
                0 <= i < paths0.len() && (#[trigger] paths0[i]).0@ == path && paths0[i].1
                    == config1 && paths0[i].2 == v1;
            assert(pm0.pipes().contains_key(v1) || pm0.compute_pipes().contains_key(v1));
            assert(v1 <= COMPUTE_PIPELINE_SUB_TAG + pm0.counter());
        },
        None => {
            assert(pm1.pipes().contains_key(v1) || pm1.compute_pipes().contains_key(v1));
        },
    }
    crate::handle::lemma_handle_round_trip(ResourceHandleType::Pipeline, v1);
    assert(h1@ == spec_pack(ResourceHandleType::Pipeline, v1));
    assert(spec_value_bits(h1@) == v1);
    // v1 resolves in pm1 whether it was recorded or freshly cached.
    assert(pm1.pipes().contains_key(v1) || pm1.compute_pipes().contains_key(v1)) by {
        if spec_pipe_path_lookup(paths0, path, config1) is Some {
            assert(pm1 == pm0);
        }
    }
    match spec_pipe_path_lookup(paths1, path, config2) {
        Some(v2) => {
            // Second load was a cache hit: pm2 == pm1, and v2 is an entry
            // recorded under config2 — a different entry than any for
            // config1, so a different value by the manager's invariant.
            lemma_pipe_lookup_found(paths1, path, config2);
            let i2 = choose|i: int|
                0 <= i < paths1.len() && (#[trigger] paths1[i]).0@ == path && paths1[i].1
                    == config2 && paths1[i].2 == v2;
            crate::handle::lemma_handle_round_trip(ResourceHandleType::Pipeline, v2);
            assert(pm1.pipes().contains_key(v2) || pm1.compute_pipes().contains_key(v2));
            match spec_pipe_path_lookup(paths0, path, config1) {
                Some(_) => {
                    // Both values sit in pm0's records at distinct indexes.
                    let i1 = choose|i: int|
                        0 <= i < paths0.len() && (#[trigger] paths0[i]).0@ == path && paths0[i].1
                            == config1 && paths0[i].2 == v1;
                    assert(paths1 == paths0);
                    assert(i1 != i2);
                    assert(v1 != v2);
                },
                None => {
                    // v1 was freshly recorded as the last entry of pm1; v2 is
                    // some entry of pm1 under config2, which the fresh entry
                    // (config1) cannot be, so v2 is an old value of pm0 and
                    // lies within pm0's counter bounds, below the fresh v1.
                    assert(paths1.len() == paths0.len() + 1);
                    if i2 == paths0.len() {
                        assert(paths1.last().1 == config1);
                        assert(false);
                    }
                    assert(paths1.take(paths0.len() as int)[i2] == paths0[i2]);
                    assert(paths0[i2].2 == v2);
                    assert(pm0.pipes().contains_key(v2) || pm0.compute_pipes().contains_key(v2));
                    let after_bg = pm0.counter() + spec_bg_new_count(
                        pm0,
                        spec_layout_path(desc1),
                        layout_doc1,
                        swap1,
                    );
                    lemma_sub_tag_arith((after_bg + 1) as u64);
                    if pm0.pipes().contains_key(v2) {
                        assert(v2 <= pm0.counter());
                    } else {
                        assert(v2 > COMPUTE_PIPELINE_SUB_TAG);
                        assert(v2 <= COMPUTE_PIPELINE_SUB_TAG + pm0.counter());
                    }
                    assert(v1 != v2);
                },
            }
            assert(h2@ == spec_pack(ResourceHandleType::Pipeline, v2));
            assert(h1@ != h2@);
        },
        None => {
            // Second load is fresh: its value exceeds everything pm1 holds.
            let after_bg2 = pm1.counter() + spec_bg_new_count(
                pm1,
                spec_layout_path(desc2),
                layout_doc2,
                swap2,
            );
            let fresh2 = (after_bg2 + 1) as u64;
            let v2: u64 = if desc2 is Compute {
                (fresh2 + COMPUTE_PIPELINE_SUB_TAG) as u64
            } else {
                fresh2
            };
            crate::handle::lemma_handle_round_trip(ResourceHandleType::Pipeline, v2);
            lemma_sub_tag_arith(fresh2);
            if pm1.pipes().contains_key(v1) {
                assert(v1 <= pm1.counter());
                lemma_sub_tag_arith(v1);
            } else {
                assert(pm1.compute_pipes().contains_key(v1));
                assert(v1 <= COMPUTE_PIPELINE_SUB_TAG + pm1.counter());
            }
            assert(v1 != v2);
            assert(h2@ == spec_pack(ResourceHandleType::Pipeline, v2));
            assert(h1@ != h2@);
        },
    }
    // Both values stay resolvable in the final manager: a cache hit changes
    // nothing, and a fresh load preserves every cached pipeline.
    assert(pm2.pipes().contains_key(spec_value_bits(h1@)) || pm2.compute_pipes().contains_key(
        spec_value_bits(h1@),
    ));
    assert(pm2.pipes().contains_key(spec_value_bits(h2@)) || pm2.compute_pipes().contains_key(
        spec_value_bits(h2@),
    ));
}


/// A raster pipeline load succeeds outright on a fresh (path, configuration)
/// pair whenever the caller supplied the stage bytecode, the binding-set
/// document is sound (or its path already cached), and counter space
/// remains: the handle comes back `Pipeline`-tagged with the raster sub-tag,
/// and the raster resolver serves its value. The compute resolver refuses
/// the same handle at its sub-tag check, by that resolver's own contract.
pub proof fn lemma_raster_pipeline_load_succeeds(
    pm0: PipelineManager,
    pm1: PipelineManager,
    sm0: ShaderManager,
    sm1: ShaderManager,
    path: Seq<char>,
    config: PipelineConfig,
    desc: PipelineDescriptor,
    sources: ShaderSources,
    layout_doc: JsonValue,
    swap: TextureFormat,
    r: Result<ResourceHandle, LoadError>,
)
    requires
        load_pipeline_post(pm0, pm1, sm0, sm1, path, config, desc, sources, layout_doc, swap, r),
        spec_pipe_path_lookup(pm0.pipe_paths(), path, config) is None,
        desc is Raster,
        pipeline_sources_supplied(desc, sources),
        !spec_shader_space_short(sm0, desc),
        spec_bg_would_fail(pm0, spec_layout_path(desc), layout_doc, swap) is None,
        pm0.counter() + spec_bg_new_count(pm0, spec_layout_path(desc), layout_doc, swap) + 1
            <= PIPELINE_COUNTER_LIMIT,
    ensures
        r matches Ok(h) && {
            &&& spec_kind_of(h@) == ResourceHandleType::Pipeline
            &&& spec_is_raster_value(spec_value_bits(h@))
            &&& pm1.pipes().contains_key(spec_value_bits(h@))
        },
{
    let after_bg = pm0.counter() + spec_bg_new_count(pm0, spec_layout_path(desc), layout_doc, swap);
    let fresh = (after_bg + 1) as u64;
    crate::handle::lemma_handle_round_trip(ResourceHandleType::Pipeline, fresh);
    lemma_sub_tag_arith(fresh);
}

} // verus!
