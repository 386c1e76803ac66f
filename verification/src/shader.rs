//! Shader Manager.
//!
//! Compiled shader bytecode is obtained by a platform collaborator (compile
//! the source, or load a precompiled artifact); this manager owns the cache:
//! one module per distinct (name, stage), a fresh counter per module, and
//! `Shader`-tagged handles. Loads are deduplicated by (name, stage), so a
//! repeated request returns the handle already issued and allocates nothing.

use vstd::prelude::*;

use crate::errors::{LoadError, LookupError};
use crate::handle::{
    spec_pack, spec_value_bits, ResourceHandle, ResourceHandleType, HANDLE_VALUE_MASK,
};
use crate::json::str_eq;
use std::collections::HashMap;

verus! {

broadcast use vstd::std_specs::hash::group_hash_axioms;

/// The pipeline stage a shader runs at.
#[derive(Clone, Copy, PartialEq, Eq, Structural, Debug)]
pub enum ShaderType {
    VERTEX,
    FRAGMENT,
    COMPUPTE,
}

/// The stage-specific source-file extension of a shader stage.
pub open spec fn spec_shader_extension(shader_type: ShaderType) -> Seq<char> {
    match shader_type {
        ShaderType::VERTEX => ".vert"@,
        ShaderType::FRAGMENT => ".frag"@,
        ShaderType::COMPUPTE => ".comp"@,
    }
}

/// The source file a logical shader name and stage resolve to: the name with
/// the stage's extension appended.
pub fn shader_file_name(shader_name: &str, shader_type: ShaderType) -> (r: String)
    ensures
        r@ == shader_name@ + spec_shader_extension(shader_type),
{
    let ext: &str = match shader_type {
        ShaderType::VERTEX => ".vert",
        ShaderType::FRAGMENT => ".frag",
        ShaderType::COMPUPTE => ".comp",
    };
    shader_name.to_owned().concat(ext)
}

/// The precompiled artifact beside a shader file: the file name with `.spv`
/// appended.
pub fn spirv_file_name(shader_file: &str) -> (r: String)
    ensures
        r@ == shader_file@ + ".spv"@,
{
    shader_file.to_owned().concat(".spv")
}

/// A cached shader module, modeled by the stage it serves and the SPIR-V
/// words it was built from.
#[derive(PartialEq, Debug)]
pub struct Shader {
    pub shader_type: ShaderType,
    pub bytecode: Vec<u32>,
}

/// Caches compiled shader modules and issues `Shader`-tagged handles.
pub struct ShaderManager {
    shader_mapper: HashMap<u64, Shader>,
    name_mapper: Vec<(String, ShaderType, u64)>,
    shader_counter: u64,
}

/// The counter a (name, stage) pair is cached under: the first entry that
/// matches both.
pub open spec fn spec_name_lookup(
    names: Seq<(String, ShaderType, u64)>,
    name: Seq<char>,
    shader_type: ShaderType,
) -> Option<u64>
    decreases names.len(),
{
    if names.len() == 0 {
        None
    } else if names[0].0@ == name && names[0].1 == shader_type {
        Some(names[0].2)
    } else {
        spec_name_lookup(names.drop_first(), name, shader_type)
    }
}

impl ShaderManager {
    /// The module cache, as a map from counter to module.
    pub closed spec fn shaders(&self) -> Map<u64, Shader> {
        self.shader_mapper@
    }

    /// The dedup index, as the sequence of (name, stage, counter) entries in
    /// insertion order.
    pub closed spec fn names(&self) -> Seq<(String, ShaderType, u64)> {
        self.name_mapper@
    }

    /// The counter the last issued handle used.
    pub closed spec fn counter(&self) -> u64 {
        self.shader_counter
    }

    /// The manager's invariant: counters fit the handle value field, every
    /// cached counter was issued, the dedup index points into the cache, and
    /// no (name, stage) pair is indexed twice.
    pub open spec fn wf(&self) -> bool {
        &&& self.counter() <= HANDLE_VALUE_MASK
        &&& forall|k: u64|
            #[trigger] self.shaders().contains_key(k) ==> 1 <= k && k <= self.counter()
        &&& forall|i: int|
            0 <= i < self.names().len() ==> self.shaders().contains_key(
                #[trigger] self.names()[i].2,
            )
        &&& forall|i: int, j: int|
            #![trigger self.names()[i], self.names()[j]]
            0 <= i < j < self.names().len() ==> !(self.names()[i].0@ == self.names()[j].0@
                && self.names()[i].1 == self.names()[j].1)
    }

    /// An empty manager.
    pub fn new() -> (r: Self)
        ensures
            r.wf(),
            r.shaders() == Map::<u64, Shader>::empty(),
            r.names() == Seq::<(String, ShaderType, u64)>::empty(),
            r.counter() == 0,
    {
        Self { shader_mapper: HashMap::new(), name_mapper: Vec::new(), shader_counter: 0 }
    }

    fn lookup_name(&self, shader_name: &str, shader_type: ShaderType) -> (r: Option<u64>)
        ensures
            r == spec_name_lookup(self.names(), shader_name@, shader_type),
    {
        let mut i: usize = 0;
        proof {
            assert(self.names().skip(0) =~= self.names());
        }
        loop
            invariant
                i <= self.names().len(),
                spec_name_lookup(self.names(), shader_name@, shader_type) == spec_name_lookup(
                    self.names().skip(i as int),
                    shader_name@,
                    shader_type,
                ),
            decreases self.names().len() - i,
        {
            if i == self.name_mapper.len() {
                return None;
            }
            proof {
                assert(self.names().skip(i as int).drop_first() =~= self.names().skip(
                    i as int + 1,
                ));
            }
            let entry = &self.name_mapper[i];
            if str_eq(entry.0.as_str(), shader_name) && entry.1 == shader_type {
                return Some(entry.2);
            }
            i = i + 1;
        }
    }

    /// Caches `bytecode` as the module for `(shader_name, shader_type)` and
    /// returns its `Shader`-tagged handle. A pair already cached returns the
    /// handle issued for it, unchanged and without a new allocation; a fresh
    /// pair takes the next counter.
    pub fn load_shader_type(
        &mut self,
        shader_name: &str,
        shader_type: ShaderType,
        bytecode: Vec<u32>,
    ) -> (r: Result<ResourceHandle, LoadError>)
        requires
            old(self).wf(),
        ensures
            final(self).wf(),
            load_shader_post(*old(self), *final(self), shader_name@, shader_type, bytecode, r),
    {
        match self.lookup_name(shader_name, shader_type) {
            Some(cached) => {
                proof {
                    lemma_name_lookup_in_cache(self.names(), shader_name@, shader_type);
                }
                let h = ResourceHandle::new(ResourceHandleType::Shader, cached);
                proof {
                    assert(self.wf());
                }
                Ok(h)
            },
            None => {
                if self.shader_counter >= HANDLE_VALUE_MASK {
                    return Err(LoadError::HandleSpaceExhausted);
                }
                proof {
                    lemma_name_lookup_none(self.names(), shader_name@, shader_type);
                }
                self.shader_counter = self.shader_counter + 1;
                let counter = self.shader_counter;
                self.shader_mapper.insert(counter, Shader { shader_type, bytecode });
                let ghost names_before = self.names();
                self.name_mapper.push((shader_name.to_owned(), shader_type, counter));
                proof {
                    assert(self.names().take(names_before.len() as int) =~= names_before);
                    lemma_name_lookup_extend(
                        names_before,
                        self.names().last(),
                        shader_name@,
                        shader_type,
                    );
                }
                let h = ResourceHandle::new(ResourceHandleType::Shader, counter);
                proof {
                    assert(self.counter() <= HANDLE_VALUE_MASK);
                    assert forall|k: u64| #[trigger]
                        self.shaders().contains_key(k) implies 1 <= k && k <= self.counter() by {
                        if k != counter {
                            assert(old(self).shaders().contains_key(k));
                        }
                    }
                    assert(forall|i: int|
                        0 <= i < self.names().len() ==> self.shaders().contains_key(
                            #[trigger] self.names()[i].2,
                        ));
                    assert(forall|i: int, j: int|
                        #![trigger self.names()[i], self.names()[j]]
                        0 <= i < j < self.names().len() ==> !(self.names()[i].0@
                            == self.names()[j].0@ && self.names()[i].1 == self.names()[j].1));
                }
                Ok(h)
            },
        }
    }

    /// Looks a handle's module up; a handle whose value was never issued (or
    /// was issued by another manager) is `NotFound`.
    pub fn get_shader_module(&self, handle: &ResourceHandle) -> (r: Result<&Shader, LookupError>)
        ensures
            match r {
                Ok(shader) => self.shaders().contains_key(spec_value_bits(handle@)) && *shader
                    == self.shaders()[spec_value_bits(handle@)],
                Err(e) => e == LookupError::NotFound && !self.shaders().contains_key(
                    spec_value_bits(handle@),
                ),
            },
    {
        let value = handle.get_value();
        match self.shader_mapper.get(&value) {
            Some(shader) => Ok(shader),
            None => Err(LookupError::NotFound),
        }
    }
}

/// What loading a shader must do: return the cached handle unchanged for a
/// known (name, stage) pair, else cache the bytecode under the next counter
/// and hand out its handle; fail only when the counter space is exhausted.
pub open spec fn load_shader_post(
    prev: ShaderManager,
    cur: ShaderManager,
    name: Seq<char>,
    shader_type: ShaderType,
    bytecode: Vec<u32>,
    r: Result<ResourceHandle, LoadError>,
) -> bool {
    match spec_name_lookup(prev.names(), name, shader_type) {
        Some(cached) => {
            &&& cur == prev
            &&& r matches Ok(h) && h@ == spec_pack(ResourceHandleType::Shader, cached)
        },
        None => {
            if prev.counter() < HANDLE_VALUE_MASK {
                let fresh = (prev.counter() + 1) as u64;
                &&& r matches Ok(h) && h@ == spec_pack(ResourceHandleType::Shader, fresh)
                &&& cur.counter() == fresh
                &&& cur.shaders() == prev.shaders().insert(
                    fresh,
                    Shader { shader_type, bytecode },
                )
                &&& cur.names().len() == prev.names().len() + 1
                &&& cur.names().take(prev.names().len() as int) == prev.names()
                &&& cur.names().last().0@ == name
                &&& cur.names().last().1 == shader_type
                &&& cur.names().last().2 == fresh
            } else {
                &&& cur == prev
                &&& r == Err::<ResourceHandle, LoadError>(LoadError::HandleSpaceExhausted)
            }
        },
    }
}

/// A lookup that misses saw every entry: none matches the pair looked for.
pub proof fn lemma_name_lookup_none(
    names: Seq<(String, ShaderType, u64)>,
    name: Seq<char>,
    shader_type: ShaderType,
)
    requires
        spec_name_lookup(names, name, shader_type) is None,
    ensures
        forall|i: int|
            0 <= i < names.len() ==> !(#[trigger] names[i].0@ == name && names[i].1
                == shader_type),
    decreases names.len(),
{
    if names.len() > 0 {
        lemma_name_lookup_none(names.drop_first(), name, shader_type);
        assert forall|i: int|
            0 <= i < names.len() implies !(#[trigger] names[i].0@ == name && names[i].1
            == shader_type) by {
            if i > 0 {
                assert(names.drop_first()[i - 1] == names[i]);
            }
        }
    }
}

/// A successful name lookup points at a value the lookup's own scan saw, so
/// the value satisfies whatever holds of every indexed counter.
proof fn lemma_name_lookup_in_cache(
    names: Seq<(String, ShaderType, u64)>,
    name: Seq<char>,
    shader_type: ShaderType,
)
    ensures
        match spec_name_lookup(names, name, shader_type) {
            Some(c) => exists|i: int| 0 <= i < names.len() && #[trigger] names[i].2 == c,
            None => true,
        },
    decreases names.len(),
{
    if names.len() > 0 {
        lemma_name_lookup_in_cache(names.drop_first(), name, shader_type);
        if !(names[0].0@ == name && names[0].1 == shader_type) {
            match spec_name_lookup(names.drop_first(), name, shader_type) {
                Some(c) => {
                    let i = choose|i: int|
                        0 <= i < names.drop_first().len() && #[trigger] names.drop_first()[i].2
                            == c;
                    assert(names[i + 1].2 == c);
                },
                None => {},
            }
        }
    }
}

/// A lookup that misses a list also misses the list with one more entry,
/// unless that entry is the pair looked for.
pub proof fn lemma_name_lookup_extend(
    names: Seq<(String, ShaderType, u64)>,
    entry: (String, ShaderType, u64),
    name: Seq<char>,
    shader_type: ShaderType,
)
    requires
        spec_name_lookup(names, name, shader_type) is None,
        entry.0@ == name,
        entry.1 == shader_type,
    ensures
        spec_name_lookup(names.push(entry), name, shader_type) == Some(entry.2),
    decreases names.len(),
{
    if names.len() == 0 {
        assert(names.push(entry)[0] == entry);
    } else {
        assert(names.push(entry)[0] == names[0]);
        assert(names.push(entry).drop_first() =~= names.drop_first().push(entry));
        lemma_name_lookup_extend(names.drop_first(), entry, name, shader_type);
    }
}


/// Appending an entry never disturbs what an earlier lookup found, and never
/// makes a lookup for a different (name, stage) pair succeed.
pub proof fn lemma_name_lookup_push_preserve(
    names: Seq<(String, ShaderType, u64)>,
    entry: (String, ShaderType, u64),
    name: Seq<char>,
    shader_type: ShaderType,
)
    requires
        !(entry.0@ == name && entry.1 == shader_type),
    ensures
        spec_name_lookup(names.push(entry), name, shader_type) == spec_name_lookup(
            names,
            name,
            shader_type,
        ),
    decreases names.len(),
{
    if names.len() == 0 {
        assert(names.push(entry)[0] == entry);
        assert(names.push(entry).drop_first().len() == 0);
        assert(spec_name_lookup(names.push(entry).drop_first(), name, shader_type) is None);
    } else {
        assert(names.push(entry)[0] == names[0]);
        assert(names.push(entry).drop_first() =~= names.drop_first().push(entry));
        lemma_name_lookup_push_preserve(names.drop_first(), entry, name, shader_type);
    }
}

/// A lookup that already succeeds is untouched by appending anything.
pub proof fn lemma_name_lookup_push_keeps_some(
    names: Seq<(String, ShaderType, u64)>,
    entry: (String, ShaderType, u64),
    name: Seq<char>,
    shader_type: ShaderType,
)
    requires
        spec_name_lookup(names, name, shader_type) is Some,
    ensures
        spec_name_lookup(names.push(entry), name, shader_type) == spec_name_lookup(
            names,
            name,
            shader_type,
        ),
    decreases names.len(),
{
    assert(names.push(entry)[0] == names[0]);
    assert(names.push(entry).drop_first() =~= names.drop_first().push(entry));
    if !(names[0].0@ == name && names[0].1 == shader_type) {
        lemma_name_lookup_push_keeps_some(names.drop_first(), entry, name, shader_type);
    }
}

/// After a successful load, the manager's dedup index resolves the pair to
/// exactly the counter inside the returned handle.
pub proof fn lemma_lookup_after_load(
    prev: ShaderManager,
    cur: ShaderManager,
    name: Seq<char>,
    shader_type: ShaderType,
    bytecode: Vec<u32>,
    h: ResourceHandle,
)
    requires
        load_shader_post(prev, cur, name, shader_type, bytecode, Ok(h)),
    ensures
        match spec_name_lookup(cur.names(), name, shader_type) {
            Some(c) => h@ == crate::handle::spec_pack(
                crate::handle::ResourceHandleType::Shader,
                c,
            ),
            None => false,
        },
{
    match spec_name_lookup(prev.names(), name, shader_type) {
        Some(_) => {},
        None => {
            assert(cur.names() =~= prev.names().push(cur.names().last()));
            lemma_name_lookup_extend(prev.names(), cur.names().last(), name, shader_type);
        },
    }
}

} // verus!
