//! Buffer Manager.
//!
//! Wraps raw byte data into buffer resources, one fresh allocation per call
//! — nothing is deduplicated by content; callers share data by sharing the
//! handle. Resolution checks the handle's kind before the lookup: a
//! wrong-kind handle is a caller bug, reported as such and never served.

use vstd::prelude::*;

use crate::errors::{LoadError, LookupError};
use crate::handle::{
    spec_kind_of, spec_pack, spec_value_bits, ResourceHandle, ResourceHandleType,
    HANDLE_VALUE_MASK,
};
use std::collections::HashMap;

verus! {

broadcast use vstd::std_specs::hash::group_hash_axioms;

/// Usage bit: the buffer may be mapped for reading.
pub const BUFFER_USAGE_MAP_READ: u32 = 1;

/// Usage bit: the buffer may be mapped for writing.
pub const BUFFER_USAGE_MAP_WRITE: u32 = 2;

/// Usage bit: the buffer may be a copy source.
pub const BUFFER_USAGE_COPY_SRC: u32 = 4;

/// Usage bit: the buffer may be a copy destination.
pub const BUFFER_USAGE_COPY_DST: u32 = 8;

/// Usage bit: the buffer may hold index data.
pub const BUFFER_USAGE_INDEX: u32 = 16;

/// Usage bit: the buffer may hold vertex data.
pub const BUFFER_USAGE_VERTEX: u32 = 32;

/// Usage bit: the buffer may hold uniform data.
pub const BUFFER_USAGE_UNIFORM: u32 = 64;

/// Usage bit: the buffer may hold storage data.
pub const BUFFER_USAGE_STORAGE: u32 = 128;

/// A buffer resource, modeled by the bytes it was uploaded with and the
/// usage bits it was created for.
#[derive(PartialEq, Debug)]
pub struct BufferResource {
    pub data: Vec<u8>,
    pub usage: u32,
}

/// Allocates buffer resources and issues `Buffer`-tagged handles.
pub struct BufferManager {
    buffers_mapper: HashMap<u64, BufferResource>,
    buffer_counter: u64,
}

impl BufferManager {
    /// The buffer cache, as a map from counter to resource.
    pub closed spec fn buffers(&self) -> Map<u64, BufferResource> {
        self.buffers_mapper@
    }

    /// The counter the last issued handle used.
    pub closed spec fn counter(&self) -> u64 {
        self.buffer_counter
    }

    /// The manager's invariant: counters fit the handle value field and
    /// every cached counter was issued.
    pub open spec fn wf(&self) -> bool {
        &&& self.counter() <= HANDLE_VALUE_MASK
        &&& forall|k: u64|
            #[trigger] self.buffers().contains_key(k) ==> 1 <= k && k <= self.counter()
    }

    /// An empty manager.
    pub fn new() -> (r: Self)
        ensures
            r.wf(),
            r.buffers() == Map::<u64, BufferResource>::empty(),
            r.counter() == 0,
    {
        Self { buffers_mapper: HashMap::new(), buffer_counter: 0 }
    }

    /// How many buffers this manager has allocated.
    pub fn buffer_count(&self) -> (r: usize)
        ensures
            r == self.buffers().len(),
    {
        self.buffers_mapper.len()
    }

    /// Allocates a fresh buffer holding a copy of `data`, created with
    /// `usage_flags`, and returns its `Buffer`-tagged handle. Every call
    /// allocates: identical bytes still get distinct buffers and handles.
    pub fn create_buffer_with_data(&mut self, data: &[u8], usage_flags: u32) -> (r: Result<
        ResourceHandle,
        LoadError,
    >)
        requires
            old(self).wf(),
        ensures
            final(self).wf(),
            create_buffer_post(*old(self), *final(self), data@, usage_flags, r),
    {
        if self.buffer_counter >= HANDLE_VALUE_MASK {
            return Err(LoadError::HandleSpaceExhausted);
        }
        self.buffer_counter = self.buffer_counter + 1;
        let counter = self.buffer_counter;
        let bytes = vstd::slice::slice_to_vec(data);
        self.buffers_mapper.insert(counter, BufferResource { data: bytes, usage: usage_flags });
        let h = ResourceHandle::new(ResourceHandleType::Buffer, counter);
        proof {
            assert forall|k: u64| #[trigger]
                self.buffers().contains_key(k) implies 1 <= k && k <= self.counter() by {
                if k != counter {
                    assert(old(self).buffers().contains_key(k));
                }
            }
        }
        Ok(h)
    }

    /// Resolves a raw handle word to its buffer. The kind tag must be
    /// `Buffer` — any other kind fails the type check rather than returning a
    /// value — and the value must have been issued here.
    pub fn get_buffer_from_handle(&self, raw_handle: u64) -> (r: Result<
        &BufferResource,
        LookupError,
    >)
        ensures
            match r {
                Ok(res) => spec_kind_of(raw_handle) == ResourceHandleType::Buffer
                    && self.buffers().contains_key(spec_value_bits(raw_handle)) && *res
                    == self.buffers()[spec_value_bits(raw_handle)],
                Err(LookupError::WrongKind) => spec_kind_of(raw_handle)
                    != ResourceHandleType::Buffer,
                Err(LookupError::NotFound) => spec_kind_of(raw_handle)
                    == ResourceHandleType::Buffer && !self.buffers().contains_key(
                    spec_value_bits(raw_handle),
                ),
            },
    {
        let curr_handle = ResourceHandle::from_data(raw_handle);
        let handle_type = curr_handle.get_type();
        if handle_type != ResourceHandleType::Buffer {
            return Err(LookupError::WrongKind);
        }
        let value = curr_handle.get_value();
        match self.buffers_mapper.get(&value) {
            Some(res) => Ok(res),
            None => Err(LookupError::NotFound),
        }
    }
}

/// What creating a buffer must do: allocate a fresh counter holding exactly
/// the given bytes and usage, leave every other buffer untouched, and hand
/// out the counter's `Buffer`-tagged handle; fail only when the counter
/// space is exhausted.
pub open spec fn create_buffer_post(
    prev: BufferManager,
    cur: BufferManager,
    data: Seq<u8>,
    usage_flags: u32,
    r: Result<ResourceHandle, LoadError>,
) -> bool {
    if prev.counter() < HANDLE_VALUE_MASK {
        let fresh = (prev.counter() + 1) as u64;
        &&& r matches Ok(h) && h@ == spec_pack(ResourceHandleType::Buffer, fresh)
        &&& cur.counter() == fresh
        &&& cur.buffers().dom() == prev.buffers().dom().insert(fresh)
        &&& cur.buffers()[fresh].data@ == data
        &&& cur.buffers()[fresh].usage == usage_flags
        &&& forall|k: u64|
            #[trigger] prev.buffers().contains_key(k) ==> cur.buffers()[k] == prev.buffers()[k]
    } else {
        &&& cur == prev
        &&& r == Err::<ResourceHandle, LoadError>(LoadError::HandleSpaceExhausted)
    }
}

} // verus!
