use render_core::api::ResourceManagers;
use render_core::bindings::{PipelineConfig, PipelineManager, ShaderSources};
use render_core::buffer::{BufferManager, BUFFER_USAGE_VERTEX};
use render_core::descriptors::{
    parse_pipeline_descriptor, BindingType, TextureFormat, VISIBILITY_VERTEX,
};
use render_core::errors::{LoadError, LookupError};
use render_core::handle::{ResourceHandle, ResourceHandleType};
use render_core::json::{parse_document, JsonValue};
use render_core::shader::{shader_file_name, spirv_file_name, ShaderManager, ShaderType};

fn binding_set_doc() -> JsonValue {
    parse_document(
        "{\"bindings\": [[ {\"slot\": 0, \"visibility\": [\"vertex\"], \"type\": \"uniform\", \
         \"uniform_config\": {\"dynamic\": false}} ]]}",
    )
    .unwrap()
}

fn raster_pipeline_doc() -> JsonValue {
    parse_document(
        "{\"type\": \"raster\", \"layout\": \"resources/simple.bg\", \
         \"vertex\": {\"shader_name\": \"tri\"}, \"fragment\": null, \
         \"rasterization_state\": {\"type\": \"default\"}, \
         \"primitive_topology\": \"triangleList\", \
         \"color_states\": [{\"format\": \"swap_chain_native\", \
         \"color_blend\": \"replace\", \"alpha_blend\": \"replace\"}], \
         \"depth_state\": null, \"vertex_state\": {\"type\": \"position\"}}",
    )
    .unwrap()
}

#[test]
fn shader_file_names() {
    assert_eq!(shader_file_name("tri", ShaderType::VERTEX), "tri.vert");
    assert_eq!(shader_file_name("tri", ShaderType::FRAGMENT), "tri.frag");
    assert_eq!(shader_file_name("cull", ShaderType::COMPUPTE), "cull.comp");
    assert_eq!(spirv_file_name("tri.vert"), "tri.vert.spv");
}

#[test]
fn shader_loads_deduplicate_by_name_and_stage() {
    let mut sm = ShaderManager::new();
    let first = sm
        .load_shader_type("tri", ShaderType::VERTEX, vec![1, 2, 3])
        .unwrap();
    let again = sm
        .load_shader_type("tri", ShaderType::VERTEX, vec![9, 9, 9])
        .unwrap();
    assert_eq!(first, again);
    // The cached module keeps the first bytecode.
    let module = sm.get_shader_module(&first).unwrap();
    assert_eq!(module.bytecode, vec![1, 2, 3]);

    // A different stage under the same name is a different module.
    let fragment = sm
        .load_shader_type("tri", ShaderType::FRAGMENT, vec![4, 5])
        .unwrap();
    assert_ne!(first, fragment);
    assert_eq!(first.get_type(), ResourceHandleType::Shader);
    assert_eq!(fragment.get_type(), ResourceHandleType::Shader);
}

#[test]
fn shader_resolve_unknown_handle() {
    let sm = ShaderManager::new();
    let foreign = ResourceHandle::new(ResourceHandleType::Shader, 77);
    assert_eq!(sm.get_shader_module(&foreign), Err(LookupError::NotFound));
}

#[test]
fn buffer_create_and_resolve() {
    let mut bm = BufferManager::new();
    let h = bm
        .create_buffer_with_data(&[1u8, 2, 3, 4], BUFFER_USAGE_VERTEX)
        .unwrap();
    assert_eq!(h.get_type(), ResourceHandleType::Buffer);
    let res = bm.get_buffer_from_handle(h.raw()).unwrap();
    assert_eq!(res.data, vec![1u8, 2, 3, 4]);
    assert_eq!(res.usage, BUFFER_USAGE_VERTEX);

    // No deduplication by content: same bytes, fresh buffer, distinct handle.
    let h2 = bm
        .create_buffer_with_data(&[1u8, 2, 3, 4], BUFFER_USAGE_VERTEX)
        .unwrap();
    assert_ne!(h, h2);
    assert_eq!(bm.buffer_count(), 2);
}

#[test]
fn buffer_resolve_rejects_wrong_kind() {
    let mut bm = BufferManager::new();
    let _ = bm
        .create_buffer_with_data(&[0u8], BUFFER_USAGE_VERTEX)
        .unwrap();
    // A Shader-tagged handle with the same value must fail the type check,
    // not return a value.
    let shader_handle = ResourceHandle::new(ResourceHandleType::Shader, 1);
    assert_eq!(
        bm.get_buffer_from_handle(shader_handle.raw()),
        Err(LookupError::WrongKind)
    );
    // A Buffer-tagged handle whose value was never issued is NotFound.
    let stale = ResourceHandle::new(ResourceHandleType::Buffer, 99);
    assert_eq!(
        bm.get_buffer_from_handle(stale.raw()),
        Err(LookupError::NotFound)
    );
}

#[test]
fn binding_group_load_is_idempotent() {
    let mut pm = PipelineManager::new();
    let doc = binding_set_doc();
    let swap = TextureFormat::Bgra8UnormSrgb;

    assert!(!pm.is_binding_group_loaded("resources/simple.bg"));
    let first = pm
        .load_binding_group("resources/simple.bg", &doc, swap)
        .unwrap();
    assert_eq!(first.len(), 1);
    assert_eq!(pm.layout_count(), 1);
    assert!(pm.is_binding_group_loaded("resources/simple.bg"));

    // Loading the same path again returns the identical handle list and
    // creates nothing: the creation counter stays at one.
    let second = pm
        .load_binding_group("resources/simple.bg", &doc, swap)
        .unwrap();
    assert_eq!(first, second);
    assert_eq!(pm.layout_count(), 1);
}

#[test]
fn binding_group_end_to_end() {
    let mut pm = PipelineManager::new();
    let doc = binding_set_doc();
    let handles = pm
        .load_binding_group("resources/simple.bg", &doc, TextureFormat::Bgra8UnormSrgb)
        .unwrap();
    assert_eq!(handles.len(), 1);
    assert_eq!(handles[0].get_type(), ResourceHandleType::BindingGroup);

    let layout = pm.get_bind_group_from_handle(&handles[0]).unwrap();
    assert_eq!(layout.entries.len(), 1);
    assert_eq!(layout.entries[0].binding, 0);
    assert_eq!(layout.entries[0].visibility, VISIBILITY_VERTEX);
    assert_eq!(
        layout.entries[0].ty,
        BindingType::UniformBuffer { dynamic: false }
    );
    assert_eq!(layout.label, "simple_bg");
}

#[test]
fn binding_group_malformed_document() {
    let mut pm = PipelineManager::new();
    let doc = parse_document("{\"bindings\": 3}").unwrap();
    let r = pm.load_binding_group("bad.bg", &doc, TextureFormat::Bgra8Unorm);
    assert!(matches!(r, Err(LoadError::Config(_))));
    assert_eq!(pm.layout_count(), 0);
}

fn raster_sources() -> ShaderSources {
    ShaderSources {
        vertex: Some(vec![1, 2, 3]),
        fragment: None,
        compute: None,
    }
}

#[test]
fn pipeline_load_caches_by_path_and_configuration() {
    let mut managers = ResourceManagers::new();
    let swap = TextureFormat::Bgra8UnormSrgb;
    let depth = TextureFormat::Depth32Float;
    let pipe_doc = raster_pipeline_doc();
    let layout_doc = binding_set_doc();
    let config16 = PipelineConfig {
        use_uint16_indices: true,
    };
    let config32 = PipelineConfig {
        use_uint16_indices: false,
    };

    let desc = parse_pipeline_descriptor(&pipe_doc, swap, depth).unwrap();
    let h1 = managers
        .pipeline_manager
        .load_pipeline(
            "resources/simple.pipeline",
            config16,
            desc,
            raster_sources(),
            &layout_doc,
            &mut managers.shader_manager,
            swap,
        )
        .unwrap();

    // Same path, same configuration: the cached handle, and nothing redone.
    let desc_again = parse_pipeline_descriptor(&pipe_doc, swap, depth).unwrap();
    let h2 = managers
        .pipeline_manager
        .load_pipeline(
            "resources/simple.pipeline",
            config16,
            desc_again,
            raster_sources(),
            &layout_doc,
            &mut managers.shader_manager,
            swap,
        )
        .unwrap();
    assert_eq!(h1, h2);

    // Same path, other configuration: a distinct handle that also resolves.
    let desc_other = parse_pipeline_descriptor(&pipe_doc, swap, depth).unwrap();
    let h3 = managers
        .pipeline_manager
        .load_pipeline(
            "resources/simple.pipeline",
            config32,
            desc_other,
            raster_sources(),
            &layout_doc,
            &mut managers.shader_manager,
            swap,
        )
        .unwrap();
    assert_ne!(h1, h3);

    let first = managers.pipeline_manager.get_pipeline_from_handle(&h1).unwrap();
    assert!(matches!(
        first.index_format,
        render_core::descriptors::IndexFormat::Uint16
    ));
    let second = managers.pipeline_manager.get_pipeline_from_handle(&h3).unwrap();
    assert!(matches!(
        second.index_format,
        render_core::descriptors::IndexFormat::Uint32
    ));
}

#[test]
fn raster_pipeline_resolves_and_rejects_compute_resolution() {
    let mut managers = ResourceManagers::new();
    let swap = TextureFormat::Bgra8UnormSrgb;
    let depth = TextureFormat::Depth32Float;
    let pipe_doc = raster_pipeline_doc();
    let layout_doc = binding_set_doc();
    let config = PipelineConfig {
        use_uint16_indices: false,
    };

    let desc = parse_pipeline_descriptor(&pipe_doc, swap, depth).unwrap();
    let handle = managers
        .pipeline_manager
        .load_pipeline(
            "resources/simple.pipeline",
            config,
            desc,
            raster_sources(),
            &layout_doc,
            &mut managers.shader_manager,
            swap,
        )
        .unwrap();
    assert_eq!(handle.get_type(), ResourceHandleType::Pipeline);
    assert!(managers.pipeline_manager.is_raster_pipeline(&handle));

    let pipe = managers
        .pipeline_manager
        .get_pipeline_from_handle(&handle)
        .unwrap();
    assert_eq!(pipe.layouts.len(), 1);
    assert!(pipe.fragment_shader.is_none());
    let vs = managers
        .shader_manager
        .get_shader_module(&pipe.vertex_shader)
        .unwrap();
    assert_eq!(vs.bytecode, vec![1, 2, 3]);

    // Asking for a compute pipeline with a raster handle fails the sub-tag
    // check.
    assert_eq!(
        managers
            .pipeline_manager
            .get_compute_pipeline_from_handle(&handle),
        Err(LookupError::WrongKind)
    );

    // A handle of another kind fails the raster resolver's type check even
    // when its value collides with an issued pipeline counter.
    let foreign = ResourceHandle::new(ResourceHandleType::Shader, handle.get_value());
    assert_eq!(
        managers.pipeline_manager.get_pipeline_from_handle(&foreign),
        Err(LookupError::WrongKind)
    );
    // A Pipeline-tagged handle whose raster value was never issued is
    // NotFound.
    let stale = ResourceHandle::new(ResourceHandleType::Pipeline, 4095);
    assert_eq!(
        managers.pipeline_manager.get_pipeline_from_handle(&stale),
        Err(LookupError::NotFound)
    );
}

#[test]
fn compute_pipeline_round_trip() {
    let mut managers = ResourceManagers::new();
    let swap = TextureFormat::Bgra8UnormSrgb;
    let depth = TextureFormat::Depth32Float;
    let pipe_doc = parse_document(
        "{\"type\": \"compute\", \"layout\": \"resources/simple.bg\", \
         \"compute\": {\"shader_name\": \"cull\"}}",
    )
    .unwrap();
    let layout_doc = binding_set_doc();
    let config = PipelineConfig {
        use_uint16_indices: false,
    };

    let desc = parse_pipeline_descriptor(&pipe_doc, swap, depth).unwrap();
    let handle = managers
        .pipeline_manager
        .load_pipeline(
            "resources/cull.pipeline",
            config,
            desc,
            ShaderSources {
                vertex: None,
                fragment: None,
                compute: Some(vec![7, 8]),
            },
            &layout_doc,
            &mut managers.shader_manager,
            swap,
        )
        .unwrap();
    assert_eq!(handle.get_type(), ResourceHandleType::Pipeline);
    assert!(!managers.pipeline_manager.is_raster_pipeline(&handle));

    let pipe = managers
        .pipeline_manager
        .get_compute_pipeline_from_handle(&handle)
        .unwrap();
    assert_eq!(pipe.layouts.len(), 1);

    // The raster resolver fails the sub-tag check for a compute handle.
    assert_eq!(
        managers.pipeline_manager.get_pipeline_from_handle(&handle),
        Err(LookupError::WrongKind)
    );
}

#[test]
fn pipeline_missing_shader_source() {
    let mut managers = ResourceManagers::new();
    let swap = TextureFormat::Bgra8UnormSrgb;
    let depth = TextureFormat::Depth32Float;
    let desc = parse_pipeline_descriptor(&raster_pipeline_doc(), swap, depth).unwrap();
    let r = managers.pipeline_manager.load_pipeline(
        "resources/simple.pipeline",
        PipelineConfig {
            use_uint16_indices: false,
        },
        desc,
        ShaderSources {
            vertex: None,
            fragment: None,
            compute: None,
        },
        &binding_set_doc(),
        &mut managers.shader_manager,
        swap,
    );
    assert_eq!(r, Err(LoadError::MissingShader));
}
