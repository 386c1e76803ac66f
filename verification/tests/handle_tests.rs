use render_core::handle::{ResourceHandle, ResourceHandleType, HANDLE_VALUE_MASK};

#[test]
fn basic_handle_tests() {
    let test_handle = ResourceHandle::new(ResourceHandleType::Shader, 43);
    assert_eq!(test_handle.get_type(), ResourceHandleType::Shader);
    assert_eq!(test_handle.get_value(), 43);

    let test_handle_mesh = ResourceHandle::new(ResourceHandleType::Mesh, 9999);
    assert_eq!(test_handle_mesh.get_type(), ResourceHandleType::Mesh);
    assert_eq!(test_handle_mesh.get_value(), 9999);

    let test_handle_invalid = ResourceHandle::new(ResourceHandleType::Invalid, 3243);
    assert_eq!(test_handle_invalid.get_type(), ResourceHandleType::Invalid);
    assert_eq!(test_handle_invalid.get_value(), 3243);
}

#[test]
fn round_trip_at_value_bounds() {
    let low = ResourceHandle::new(ResourceHandleType::Buffer, 0);
    assert_eq!(low.get_type(), ResourceHandleType::Buffer);
    assert_eq!(low.get_value(), 0);

    let high = ResourceHandle::new(ResourceHandleType::Pipeline, HANDLE_VALUE_MASK);
    assert_eq!(high.get_type(), ResourceHandleType::Pipeline);
    assert_eq!(high.get_value(), HANDLE_VALUE_MASK);
}

#[test]
fn tag_isolation() {
    // Same value, different kinds: never equal, whatever the values.
    let a = ResourceHandle::new(ResourceHandleType::Shader, 7);
    let b = ResourceHandle::new(ResourceHandleType::Texture, 7);
    assert_ne!(a, b);
    assert_ne!(a.raw(), b.raw());

    let c = ResourceHandle::new(ResourceHandleType::Mesh, 1);
    let d = ResourceHandle::new(ResourceHandleType::BindingGroup, 2);
    assert_ne!(c.raw(), d.raw());
}

#[test]
fn from_data_reconstructs() {
    let original = ResourceHandle::new(ResourceHandleType::BindingGroup, 512);
    let copy = ResourceHandle::from_data(original.raw());
    assert_eq!(copy, original);
    assert_eq!(copy.get_type(), ResourceHandleType::BindingGroup);
    assert_eq!(copy.get_value(), 512);
}

#[test]
fn shader_tag_is_one() {
    // The packed word is tag << 54 | value.
    let h = ResourceHandle::new(ResourceHandleType::Shader, 43);
    assert_eq!(h.raw(), (1u64 << 54) | 43);
}

#[test]
fn unknown_tag_decodes_to_invalid() {
    let h = ResourceHandle::from_data(999u64 << 54);
    assert_eq!(h.get_type(), ResourceHandleType::Invalid);
}
