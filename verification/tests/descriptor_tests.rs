use render_core::descriptors::{
    get_bind_group_type, get_bind_group_visibility, get_color_format, get_compare_function,
    get_depth_stencil_state, get_pipeline_blend, get_pipeline_color_states,
    get_pipeline_raster_state, get_primitive_topology, get_raster_cull, get_raster_facing,
    get_vertex_attribute_descriptors, parse_binding_entry, parse_binding_sets,
    parse_pipeline_descriptor, parse_visibility_token, BindingType, BlendMode, ColorState,
    CompareFunction, CullMode, DepthStencilState, FrontFace, PipelineDescriptor,
    PrimitiveTopology, RasterizationState, TextureComponentType, TextureFormat,
    TextureViewDimension, VertexFormat, VISIBILITY_COMPUTE, VISIBILITY_FRAGMENT, VISIBILITY_NONE,
    VISIBILITY_VERTEX,
};
use render_core::errors::ConfigError;
use render_core::json::{JsonNumber, JsonValue};

fn obj(entries: Vec<(&str, JsonValue)>) -> JsonValue {
    JsonValue::Obj(
        entries
            .into_iter()
            .map(|(k, v)| (String::from(k), v))
            .collect(),
    )
}

fn s(text: &str) -> JsonValue {
    JsonValue::Str(String::from(text))
}

#[test]
fn visibility_tokens() {
    assert_eq!(parse_visibility_token("vertex"), Ok(VISIBILITY_VERTEX));
    assert_eq!(parse_visibility_token("fragment"), Ok(VISIBILITY_FRAGMENT));
    assert_eq!(parse_visibility_token("compute"), Ok(VISIBILITY_COMPUTE));
    assert_eq!(
        parse_visibility_token("geometry"),
        Err(ConfigError::UnknownVisibility)
    );
}

#[test]
fn visibility_mask_is_bitwise_or() {
    let list = vec![s("vertex"), s("fragment")];
    assert_eq!(
        get_bind_group_visibility(&list),
        Ok(VISIBILITY_VERTEX | VISIBILITY_FRAGMENT)
    );
    let empty: Vec<JsonValue> = Vec::new();
    assert_eq!(get_bind_group_visibility(&empty), Ok(VISIBILITY_NONE));
    let bad = vec![s("vertex"), JsonValue::Bool(true)];
    assert_eq!(
        get_bind_group_visibility(&bad),
        Err(ConfigError::WrongFieldType)
    );
}

#[test]
fn color_formats_resolve_against_swap_chain() {
    let swap = TextureFormat::Bgra8UnormSrgb;
    assert_eq!(get_color_format("swap_chain_native", swap), Ok(swap));
    assert_eq!(
        get_color_format("Rgb10a2Unorm", swap),
        Ok(TextureFormat::Rgb10a2Unorm)
    );
    assert_eq!(
        get_color_format("Rgba32Float", swap),
        Ok(TextureFormat::Rgba32Float)
    );
    assert_eq!(
        get_color_format("Rg16Float", swap),
        Ok(TextureFormat::Rg16Float)
    );
    assert_eq!(
        get_color_format("Depth32Float", swap),
        Err(ConfigError::UnknownColorFormat)
    );
}

#[test]
fn compare_functions_closed_set() {
    assert_eq!(
        get_compare_function(&s("LessEqual")),
        Ok(CompareFunction::LessEqual)
    );
    assert_eq!(get_compare_function(&s("Always")), Ok(CompareFunction::Always));
    assert_eq!(
        get_compare_function(&s("Sometimes")),
        Err(ConfigError::UnknownCompareFunction)
    );
    assert_eq!(
        get_compare_function(&JsonValue::Null),
        Err(ConfigError::WrongFieldType)
    );
}

#[test]
fn topology_closed_set() {
    let doc = obj(vec![("primitive_topology", s("triangleStrip"))]);
    assert_eq!(
        get_primitive_topology(&doc),
        Ok(PrimitiveTopology::TriangleStrip)
    );
    let bad = obj(vec![("primitive_topology", s("patchList"))]);
    assert_eq!(get_primitive_topology(&bad), Err(ConfigError::UnknownTopology));
    let missing = obj(vec![]);
    assert_eq!(
        get_primitive_topology(&missing),
        Err(ConfigError::MissingField)
    );
}

#[test]
fn raster_state_default_preset() {
    let doc = obj(vec![(
        "rasterization_state",
        obj(vec![("type", s("default"))]),
    )]);
    assert_eq!(
        get_pipeline_raster_state(&doc),
        Ok(RasterizationState {
            front_face: FrontFace::Ccw,
            cull_mode: CullMode::Back,
            depth_bias: 0,
            depth_bias_slope_scale: JsonNumber::UInt(0),
            depth_bias_clamp: JsonNumber::UInt(0),
        })
    );
}

#[test]
fn raster_state_explicit_fields() {
    let doc = obj(vec![(
        "rasterization_state",
        obj(vec![
            ("type", s("explicit")),
            ("front_facing", s("cw")),
            ("cull_mode", s("none")),
            ("depth_bias", JsonValue::Num(JsonNumber::Int(-2))),
            (
                "slope_scale",
                JsonValue::Num(JsonNumber::Decimal(String::from("0.5"))),
            ),
            ("bias_clamp", JsonValue::Num(JsonNumber::UInt(1))),
        ]),
    )]);
    assert_eq!(
        get_pipeline_raster_state(&doc),
        Ok(RasterizationState {
            front_face: FrontFace::Cw,
            cull_mode: CullMode::Disabled,
            depth_bias: -2,
            depth_bias_slope_scale: JsonNumber::Decimal(String::from("0.5")),
            depth_bias_clamp: JsonNumber::UInt(1),
        })
    );
}

#[test]
fn raster_facing_and_cull_errors() {
    let facing = obj(vec![("front_facing", s("clockwise"))]);
    assert_eq!(get_raster_facing(&facing), Err(ConfigError::UnknownFrontFace));
    let cull = obj(vec![("cull_mode", s("everything"))]);
    assert_eq!(get_raster_cull(&cull), Err(ConfigError::UnknownCullMode));
}

#[test]
fn depth_state_absent_and_present() {
    let absent = obj(vec![]);
    assert_eq!(
        get_depth_stencil_state(&absent, TextureFormat::Depth32Float),
        Ok(None)
    );
    let null = obj(vec![("depth_state", JsonValue::Null)]);
    assert_eq!(
        get_depth_stencil_state(&null, TextureFormat::Depth32Float),
        Ok(None)
    );
    let present = obj(vec![(
        "depth_state",
        obj(vec![
            ("format", s("default")),
            ("depth_write_enabled", JsonValue::Bool(true)),
            ("depth_compare", s("Less")),
        ]),
    )]);
    assert_eq!(
        get_depth_stencil_state(&present, TextureFormat::Depth32Float),
        Ok(Some(DepthStencilState {
            format: TextureFormat::Depth32Float,
            depth_write_enabled: true,
            depth_compare: CompareFunction::Less,
        }))
    );
    let bad = obj(vec![(
        "depth_state",
        obj(vec![
            ("format", s("Depth24")),
            ("depth_write_enabled", JsonValue::Bool(true)),
            ("depth_compare", s("Less")),
        ]),
    )]);
    assert_eq!(
        get_depth_stencil_state(&bad, TextureFormat::Depth32Float),
        Err(ConfigError::UnknownDepthFormat)
    );
}

#[test]
fn color_states_list() {
    let doc = obj(vec![(
        "color_states",
        JsonValue::Arr(vec![obj(vec![
            ("format", s("swap_chain_native")),
            ("color_blend", s("replace")),
            ("alpha_blend", s("replace")),
        ])]),
    )]);
    let states = get_pipeline_color_states(&doc, TextureFormat::Bgra8Unorm).unwrap();
    assert_eq!(
        states,
        vec![ColorState {
            format: TextureFormat::Bgra8Unorm,
            color_blend: BlendMode::Replace,
            alpha_blend: BlendMode::Replace,
        }]
    );
    let none = obj(vec![("color_states", JsonValue::Null)]);
    assert_eq!(
        get_pipeline_color_states(&none, TextureFormat::Bgra8Unorm).unwrap(),
        Vec::new()
    );
}

#[test]
fn blend_mode_closed_set() {
    let color = obj(vec![("color_blend", s("additive"))]);
    assert_eq!(
        get_pipeline_blend(&color, "color_blend"),
        Err(ConfigError::UnknownBlendMode)
    );
}

#[test]
fn vertex_presets() {
    let both = get_vertex_attribute_descriptors("position_normal").unwrap();
    assert_eq!(both.len(), 2);
    assert_eq!(both[0].stride, 12);
    assert_eq!(both[0].attributes.len(), 1);
    assert_eq!(both[0].attributes[0].shader_location, 0);
    assert_eq!(both[0].attributes[0].format, VertexFormat::Float3);
    assert_eq!(both[1].attributes[0].shader_location, 1);

    let single = get_vertex_attribute_descriptors("position").unwrap();
    assert_eq!(single.len(), 1);

    let empty = get_vertex_attribute_descriptors("none").unwrap();
    assert!(empty.is_empty());

    assert_eq!(
        get_vertex_attribute_descriptors("position_color"),
        Err(ConfigError::UnknownVertexLayout)
    );
}

#[test]
fn binding_entry_uniform() {
    let entry = obj(vec![
        ("slot", JsonValue::Num(JsonNumber::UInt(0))),
        ("visibility", JsonValue::Arr(vec![s("vertex")])),
        ("type", s("uniform")),
        ("uniform_config", obj(vec![("dynamic", JsonValue::Bool(false))])),
    ]);
    let parsed = parse_binding_entry(&entry, TextureFormat::Bgra8Unorm).unwrap();
    assert_eq!(parsed.binding, 0);
    assert_eq!(parsed.visibility, VISIBILITY_VERTEX);
    assert_eq!(parsed.ty, BindingType::UniformBuffer { dynamic: false });
}

#[test]
fn binding_types_closed_union() {
    let swap = TextureFormat::Bgra8Unorm;
    let texture_config = obj(vec![
        ("multisampled", JsonValue::Bool(false)),
        ("dimension", s("2D")),
        ("component_type", s("float")),
    ]);
    assert_eq!(
        get_bind_group_type("texture", &obj(vec![("texture_config", texture_config)]), swap),
        Ok(BindingType::SampledTexture {
            multisampled: false,
            dimension: TextureViewDimension::D2,
            component_type: TextureComponentType::Float,
        })
    );
    let sampler = obj(vec![("sampler_config", obj(vec![("comparison", JsonValue::Bool(true))]))]);
    assert_eq!(
        get_bind_group_type("sampler", &sampler, swap),
        Ok(BindingType::Sampler { comparison: true })
    );
    let storage = obj(vec![(
        "texture_config",
        obj(vec![
            ("dimension", s("2D")),
            ("component_type", s("uint")),
            ("format", s("Rgba32Float")),
            ("readonly", JsonValue::Bool(true)),
        ]),
    )]);
    assert_eq!(
        get_bind_group_type("storage_texture", &storage, swap),
        Ok(BindingType::StorageTexture {
            dimension: TextureViewDimension::D2,
            component_type: TextureComponentType::Uint,
            format: TextureFormat::Rgba32Float,
            readonly: true,
        })
    );
    assert_eq!(
        get_bind_group_type("push_constant", &obj(vec![]), swap),
        Err(ConfigError::UnknownBindingType)
    );
    let bad_dim = obj(vec![(
        "texture_config",
        obj(vec![
            ("multisampled", JsonValue::Bool(false)),
            ("dimension", s("3D")),
            ("component_type", s("float")),
        ]),
    )]);
    assert_eq!(
        get_bind_group_type("texture", &bad_dim, swap),
        Err(ConfigError::UnknownTextureDimension)
    );
    let bad_component = obj(vec![(
        "texture_config",
        obj(vec![
            ("multisampled", JsonValue::Bool(false)),
            ("dimension", s("2D")),
            ("component_type", s("sint")),
        ]),
    )]);
    assert_eq!(
        get_bind_group_type("texture", &bad_component, swap),
        Err(ConfigError::UnknownComponentType)
    );
}

#[test]
fn binding_entry_errors() {
    let swap = TextureFormat::Bgra8Unorm;
    let no_slot = obj(vec![]);
    assert_eq!(
        parse_binding_entry(&no_slot, swap),
        Err(ConfigError::MissingField)
    );
    let bad_slot = obj(vec![("slot", s("zero"))]);
    assert_eq!(
        parse_binding_entry(&bad_slot, swap),
        Err(ConfigError::WrongFieldType)
    );
    let huge_slot = obj(vec![("slot", JsonValue::Num(JsonNumber::UInt(1 << 40)))]);
    assert_eq!(
        parse_binding_entry(&huge_slot, swap),
        Err(ConfigError::ValueOutOfRange)
    );
}

#[test]
fn binding_sets_shape() {
    let entry = obj(vec![
        ("slot", JsonValue::Num(JsonNumber::UInt(2))),
        ("visibility", JsonValue::Arr(vec![s("compute")])),
        ("type", s("uniform")),
        ("uniform_config", obj(vec![("dynamic", JsonValue::Bool(true))])),
    ]);
    let doc = obj(vec![(
        "bindings",
        JsonValue::Arr(vec![JsonValue::Arr(vec![entry])]),
    )]);
    let sets = parse_binding_sets(&doc, TextureFormat::Bgra8Unorm).unwrap();
    assert_eq!(sets.len(), 1);
    assert_eq!(sets[0].len(), 1);
    assert_eq!(sets[0][0].binding, 2);
    assert_eq!(sets[0][0].visibility, VISIBILITY_COMPUTE);

    let missing = obj(vec![]);
    assert_eq!(
        parse_binding_sets(&missing, TextureFormat::Bgra8Unorm),
        Err(ConfigError::MissingField)
    );
}

#[test]
fn pipeline_descriptor_raster() {
    let doc = obj(vec![
        ("type", s("raster")),
        ("layout", s("resources/simple.bg")),
        ("vertex", obj(vec![("shader_name", s("tri"))])),
        ("fragment", obj(vec![("shader_name", s("tri_ps"))])),
        ("rasterization_state", obj(vec![("type", s("default"))])),
        ("primitive_topology", s("triangleList")),
        ("color_states", JsonValue::Null),
        ("depth_state", JsonValue::Null),
        ("vertex_state", obj(vec![("type", s("position"))])),
    ]);
    let desc = parse_pipeline_descriptor(&doc, TextureFormat::Bgra8Unorm, TextureFormat::Depth32Float)
        .unwrap();
    match desc {
        PipelineDescriptor::Raster(rd) => {
            assert_eq!(rd.vertex_shader_name, "tri");
            assert_eq!(rd.fragment_shader_name, Some(String::from("tri_ps")));
            assert_eq!(rd.primitive_topology, PrimitiveTopology::TriangleList);
            assert!(rd.color_states.is_empty());
            assert!(rd.depth_state.is_none());
            assert_eq!(rd.vertex_buffers.len(), 1);
            assert_eq!(rd.layout_path, "resources/simple.bg");
        },
        PipelineDescriptor::Compute(_) => panic!("expected a raster descriptor"),
    }
}

#[test]
fn pipeline_descriptor_fragment_null_means_none() {
    let doc = obj(vec![
        ("type", s("raster")),
        ("layout", s("a.bg")),
        ("vertex", obj(vec![("shader_name", s("depth_only"))])),
        ("fragment", JsonValue::Null),
        ("rasterization_state", obj(vec![("type", s("default"))])),
        ("primitive_topology", s("lineList")),
        ("vertex_state", obj(vec![("type", s("none"))])),
    ]);
    let desc = parse_pipeline_descriptor(&doc, TextureFormat::Bgra8Unorm, TextureFormat::Depth32Float)
        .unwrap();
    match desc {
        PipelineDescriptor::Raster(rd) => {
            assert!(rd.fragment_shader_name.is_none());
            assert!(rd.vertex_buffers.is_empty());
        },
        PipelineDescriptor::Compute(_) => panic!("expected a raster descriptor"),
    }
}

#[test]
fn pipeline_descriptor_compute() {
    let doc = obj(vec![
        ("type", s("compute")),
        ("layout", s("cull.bg")),
        ("compute", obj(vec![("shader_name", s("cull"))])),
    ]);
    let desc = parse_pipeline_descriptor(&doc, TextureFormat::Bgra8Unorm, TextureFormat::Depth32Float)
        .unwrap();
    match desc {
        PipelineDescriptor::Compute(cd) => {
            assert_eq!(cd.compute_shader_name, "cull");
            assert_eq!(cd.layout_path, "cull.bg");
        },
        PipelineDescriptor::Raster(_) => panic!("expected a compute descriptor"),
    }
}

#[test]
fn pipeline_descriptor_unknown_type() {
    let doc = obj(vec![("type", s("mesh_shading"))]);
    assert_eq!(
        parse_pipeline_descriptor(&doc, TextureFormat::Bgra8Unorm, TextureFormat::Depth32Float),
        Err(ConfigError::UnknownPipelineType)
    );
}
