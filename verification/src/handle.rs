//! Kind-tagged 64-bit resource handles.
//!
//! A handle packs a resource kind into the high `HANDLE_TYPE_BIT_COUNT` bits
//! and an opaque value (typically a manager's counter, possibly with a
//! sub-tag bit) into the remaining low bits. Two handles are equal exactly
//! when their packed 64-bit values are equal.

use vstd::prelude::*;

verus! {

/// Number of high bits reserved for the kind tag.
pub const HANDLE_TYPE_BIT_COUNT: u64 = 10;

/// Number of low bits available for the opaque value.
pub const HANDLE_VALUE_BIT_COUNT: u64 = 64 - HANDLE_TYPE_BIT_COUNT;

/// Mask selecting the value bits of a packed handle: the low
/// `HANDLE_VALUE_BIT_COUNT` (54) bits set.
pub const HANDLE_VALUE_MASK: u64 = 0x3f_ffff_ffff_ffff;

/// The kind of resource a handle stands for.
#[derive(Clone, Copy, PartialEq, Eq, Structural, Debug)]
pub enum ResourceHandleType {
    Shader,
    Texture,
    Mesh,
    BindingGroup,
    Pipeline,
    Buffer,
    Invalid,
}

/// Numeric tag stored in the high bits for each kind.
pub open spec fn spec_kind_tag(kind: ResourceHandleType) -> u64 {
    match kind {
        ResourceHandleType::Shader => 1,
        ResourceHandleType::Texture => 2,
        ResourceHandleType::Mesh => 3,
        ResourceHandleType::BindingGroup => 4,
        ResourceHandleType::Pipeline => 5,
        ResourceHandleType::Buffer => 6,
        ResourceHandleType::Invalid => 255,
    }
}

/// Closed decode of a numeric tag; tags outside the known set decode to
/// `Invalid` rather than to undefined behaviour.
pub open spec fn spec_decode_tag(tag: u64) -> ResourceHandleType {
    if tag == 1 {
        ResourceHandleType::Shader
    } else if tag == 2 {
        ResourceHandleType::Texture
    } else if tag == 3 {
        ResourceHandleType::Mesh
    } else if tag == 4 {
        ResourceHandleType::BindingGroup
    } else if tag == 5 {
        ResourceHandleType::Pipeline
    } else if tag == 6 {
        ResourceHandleType::Buffer
    } else {
        ResourceHandleType::Invalid
    }
}

/// Tag bits of a packed handle word.
pub open spec fn spec_tag_bits(data: u64) -> u64 {
    data >> HANDLE_VALUE_BIT_COUNT
}

/// Value bits of a packed handle word.
pub open spec fn spec_value_bits(data: u64) -> u64 {
    data & HANDLE_VALUE_MASK
}

/// The packed word a handle of the given kind and value holds.
pub open spec fn spec_pack(kind: ResourceHandleType, value: u64) -> u64 {
    (spec_kind_tag(kind) << HANDLE_VALUE_BIT_COUNT) | value
}

/// Kind decoded from a packed handle word.
pub open spec fn spec_kind_of(data: u64) -> ResourceHandleType {
    spec_decode_tag(spec_tag_bits(data))
}

/// Tagged identifier standing in for a live resource; never dereferenced
/// directly, only resolved through the manager that issued it.
#[derive(Clone, Copy, PartialEq, Eq, Structural, Debug)]
pub struct ResourceHandle {
    data: u64,
}

impl View for ResourceHandle {
    type V = u64;

    closed spec fn view(&self) -> u64 {
        self.data
    }
}

impl ResourceHandle {
    /// Packs `value` into the low bits and the kind's tag into the high bits.
    pub fn new(handle_type: ResourceHandleType, value: u64) -> (r: Self)
        requires
            value <= HANDLE_VALUE_MASK,
        ensures
            r@ == spec_pack(handle_type, value),
            spec_kind_of(r@) == handle_type,
            spec_value_bits(r@) == value,
    {
        let tag: u64 = Self::kind_tag(handle_type);
        let data: u64 = (tag << HANDLE_VALUE_BIT_COUNT) | value;
        proof {
            lemma_pack_unpack(spec_kind_tag(handle_type), value);
            lemma_decode_kind_tag(handle_type);
        }
        Self { data }
    }

    /// Reconstructs a handle from its packed representation.
    pub fn from_data(data: u64) -> (r: Self)
        ensures
            r@ == data,
    {
        Self { data }
    }

    /// Extracts the kind tag; unknown tags decode to `Invalid`.
    pub fn get_type(&self) -> (r: ResourceHandleType)
        ensures
            r == spec_kind_of(self@),
    {
        let tag: u64 = self.data >> HANDLE_VALUE_BIT_COUNT;
        if tag == 1 {
            ResourceHandleType::Shader
        } else if tag == 2 {
            ResourceHandleType::Texture
        } else if tag == 3 {
            ResourceHandleType::Mesh
        } else if tag == 4 {
            ResourceHandleType::BindingGroup
        } else if tag == 5 {
            ResourceHandleType::Pipeline
        } else if tag == 6 {
            ResourceHandleType::Buffer
        } else {
            ResourceHandleType::Invalid
        }
    }

    /// Extracts the opaque payload, masking off the tag bits.
    pub fn get_value(&self) -> (r: u64)
        ensures
            r == spec_value_bits(self@),
    {
        self.data & HANDLE_VALUE_MASK
    }

    /// The packed 64-bit representation.
    pub fn raw(&self) -> (r: u64)
        ensures
            r == self@,
    {
        self.data
    }

    /// Numeric tag for each kind; the executable twin of [`spec_kind_tag`].
    pub fn kind_tag(kind: ResourceHandleType) -> (r: u64)
        ensures
            r == spec_kind_tag(kind),
    {
        match kind {
            ResourceHandleType::Shader => 1,
            ResourceHandleType::Texture => 2,
            ResourceHandleType::Mesh => 3,
            ResourceHandleType::BindingGroup => 4,
            ResourceHandleType::Pipeline => 5,
            ResourceHandleType::Buffer => 6,
            ResourceHandleType::Invalid => 255,
        }
    }
}

/// Packing a tag and an in-range value and unpacking them returns both
/// unchanged.
proof fn lemma_pack_unpack(tag: u64, value: u64)
    requires
        value <= HANDLE_VALUE_MASK,
    ensures
        ((tag << HANDLE_VALUE_BIT_COUNT) | value) >> HANDLE_VALUE_BIT_COUNT == (tag & 0x3ff),
        ((tag << HANDLE_VALUE_BIT_COUNT) | value) & HANDLE_VALUE_MASK == value,
{
    assert(HANDLE_VALUE_BIT_COUNT == 54);
    assert(value <= 0x3f_ffff_ffff_ffffu64 ==> {
        &&& ((tag << 54u64) | value) >> 54u64 == (tag & 0x3ff)
        &&& ((tag << 54u64) | value) & 0x3f_ffff_ffff_ffffu64 == value
    }) by (bit_vector);
}

/// Every kind's tag is small enough for the tag field and decodes back to
/// the same kind.
proof fn lemma_decode_kind_tag(kind: ResourceHandleType)
    ensures
        spec_kind_tag(kind) & 0x3ff == spec_kind_tag(kind),
        spec_decode_tag(spec_kind_tag(kind)) == kind,
{
    let t = spec_kind_tag(kind);
    assert(t <= 255u64 ==> t & 0x3ff == t) by (bit_vector);
}

/// Two handles with the same packed representation are the same handle: the
/// packed word is all a handle holds.
pub proof fn lemma_handle_eq_from_view(h1: ResourceHandle, h2: ResourceHandle)
    requires
        h1@ == h2@,
    ensures
        h1 == h2,
{
}

/// Round trip: for every kind and every value within the value-bit range,
/// packing and then extracting returns the kind and the value unchanged.
pub proof fn lemma_handle_round_trip(kind: ResourceHandleType, value: u64)
    requires
        value <= HANDLE_VALUE_MASK,
    ensures
        spec_kind_of(spec_pack(kind, value)) == kind,
        spec_value_bits(spec_pack(kind, value)) == value,
{
    lemma_pack_unpack(spec_kind_tag(kind), value);
    lemma_decode_kind_tag(kind);
}

/// Tag isolation: handles packed with different kinds are never equal,
/// whatever their values.
pub proof fn lemma_handle_tag_isolation(
    kind1: ResourceHandleType,
    value1: u64,
    kind2: ResourceHandleType,
    value2: u64,
)
    requires
        value1 <= HANDLE_VALUE_MASK,
        value2 <= HANDLE_VALUE_MASK,
        kind1 != kind2,
    ensures
        spec_pack(kind1, value1) != spec_pack(kind2, value2),
{
    lemma_handle_round_trip(kind1, value1);
    lemma_handle_round_trip(kind2, value2);
}

} // verus!
