//! Typed descriptors for binding-set and pipeline files.
//!
//! A declarative file is parsed into the closed, strongly-typed descriptors
//! here in one validating pass; unknown enum strings, missing fields and
//! mistyped fields are configuration errors, never defaulted over. A second,
//! pure step (the managers) turns descriptors into cached resource state.

use vstd::prelude::*;

use crate::errors::ConfigError;
use crate::json::{spec_get_field, get_field, str_eq, JsonNumber, JsonValue};

verus! {

/// Stage visibility bit: no stage.
pub const VISIBILITY_NONE: u32 = 0;

/// Stage visibility bit: vertex stage.
pub const VISIBILITY_VERTEX: u32 = 1;

/// Stage visibility bit: fragment stage.
pub const VISIBILITY_FRAGMENT: u32 = 2;

/// Stage visibility bit: compute stage.
pub const VISIBILITY_COMPUTE: u32 = 4;

/// Pixel formats the declarative files may name. `swap_chain_native` in a
/// file resolves to whatever format the surface was created with, so the
/// sentinel itself never appears here.
#[derive(Clone, Copy, PartialEq, Eq, Structural, Debug)]
pub enum TextureFormat {
    Bgra8Unorm,
    Bgra8UnormSrgb,
    Rgb10a2Unorm,
    Rgba32Float,
    Rg16Float,
    Depth32Float,
}

/// Texture view dimensions the binding files may name.
#[derive(Clone, Copy, PartialEq, Eq, Structural, Debug)]
pub enum TextureViewDimension {
    D2,
}

/// Sampled-component types the binding files may name.
#[derive(Clone, Copy, PartialEq, Eq, Structural, Debug)]
pub enum TextureComponentType {
    Uint,
    Float,
}

/// The discriminated union of binding types a binding entry may declare.
#[derive(Clone, Copy, PartialEq, Eq, Structural, Debug)]
pub enum BindingType {
    UniformBuffer { dynamic: bool },
    SampledTexture {
        multisampled: bool,
        dimension: TextureViewDimension,
        component_type: TextureComponentType,
    },
    Sampler { comparison: bool },
    StorageTexture {
        dimension: TextureViewDimension,
        component_type: TextureComponentType,
        format: TextureFormat,
        readonly: bool,
    },
}

/// One binding slot of a binding-set layout.
#[derive(Clone, Copy, PartialEq, Eq, Structural, Debug)]
pub struct BindGroupLayoutEntry {
    /// Slot index the shaders bind against.
    pub binding: u32,
    /// Bitwise OR of the `VISIBILITY_*` stage bits.
    pub visibility: u32,
    /// What occupies the slot.
    pub ty: BindingType,
}

/// One visibility token: a known stage name mapped to its bit.
pub open spec fn spec_parse_visibility_token(s: Seq<char>) -> Result<u32, ConfigError> {
    if s == "vertex"@ {
        Ok(VISIBILITY_VERTEX)
    } else if s == "fragment"@ {
        Ok(VISIBILITY_FRAGMENT)
    } else if s == "compute"@ {
        Ok(VISIBILITY_COMPUTE)
    } else {
        Err(ConfigError::UnknownVisibility)
    }
}

/// Executable twin of [`spec_parse_visibility_token`].
pub fn parse_visibility_token(s: &str) -> (r: Result<u32, ConfigError>)
    ensures
        r == spec_parse_visibility_token(s@),
{
    if str_eq(s, "vertex") {
        Ok(VISIBILITY_VERTEX)
    } else if str_eq(s, "fragment") {
        Ok(VISIBILITY_FRAGMENT)
    } else if str_eq(s, "compute") {
        Ok(VISIBILITY_COMPUTE)
    } else {
        Err(ConfigError::UnknownVisibility)
    }
}

/// The visibility mask of a list of stage names: the bitwise OR of each
/// token's bit, or the first error. Every item must be a string.
pub open spec fn spec_visibility_mask(items: Seq<JsonValue>) -> Result<u32, ConfigError>
    decreases items.len(),
{
    if items.len() == 0 {
        Ok(VISIBILITY_NONE)
    } else {
        match items[0] {
            JsonValue::Str(s) => match spec_parse_visibility_token(s@) {
                Ok(bit) => match spec_visibility_mask(items.drop_first()) {
                    Ok(rest) => Ok(bit | rest),
                    Err(e) => Err(e),
                },
                Err(e) => Err(e),
            },
            _ => Err(ConfigError::WrongFieldType),
        }
    }
}

fn visibility_mask_from(items: &Vec<JsonValue>, i: usize) -> (r: Result<u32, ConfigError>)
    requires
        i <= items@.len(),
    ensures
        r == spec_visibility_mask(items@.skip(i as int)),
    decreases items@.len() - i,
{
    if i == items.len() {
        Ok(VISIBILITY_NONE)
    } else {
        proof {
            assert(items@.skip(i as int).drop_first() =~= items@.skip(i as int + 1));
        }
        match &items[i] {
            JsonValue::Str(s) => match parse_visibility_token(s.as_str()) {
                Ok(bit) => match visibility_mask_from(items, i + 1) {
                    Ok(rest) => Ok(bit | rest),
                    Err(e) => Err(e),
                },
                Err(e) => Err(e),
            },
            _ => Err(ConfigError::WrongFieldType),
        }
    }
}

/// Resolves a visibility list to its stage bitmask; unknown stage names are a
/// fatal configuration error.
pub fn get_bind_group_visibility(visibilities: &Vec<JsonValue>) -> (r: Result<u32, ConfigError>)
    ensures
        r == spec_visibility_mask(visibilities@),
{
    proof {
        assert(visibilities@.skip(0) =~= visibilities@);
    }
    visibility_mask_from(visibilities, 0)
}

/// A color format string resolved against the swap chain's native format:
/// the sentinel resolves to `swap_chain_format`, known names to themselves.
pub open spec fn spec_color_format(
    s: Seq<char>,
    swap_chain_format: TextureFormat,
) -> Result<TextureFormat, ConfigError> {
    if s == "swap_chain_native"@ {
        Ok(swap_chain_format)
    } else if s == "Rgb10a2Unorm"@ {
        Ok(TextureFormat::Rgb10a2Unorm)
    } else if s == "Rgba32Float"@ {
        Ok(TextureFormat::Rgba32Float)
    } else if s == "Rg16Float"@ {
        Ok(TextureFormat::Rg16Float)
    } else {
        Err(ConfigError::UnknownColorFormat)
    }
}

/// Executable twin of [`spec_color_format`].
pub fn get_color_format(s: &str, swap_chain_format: TextureFormat) -> (r: Result<
    TextureFormat,
    ConfigError,
>)
    ensures
        r == spec_color_format(s@, swap_chain_format),
{
    if str_eq(s, "swap_chain_native") {
        Ok(swap_chain_format)
    } else if str_eq(s, "Rgb10a2Unorm") {
        Ok(TextureFormat::Rgb10a2Unorm)
    } else if str_eq(s, "Rgba32Float") {
        Ok(TextureFormat::Rgba32Float)
    } else if str_eq(s, "Rg16Float") {
        Ok(TextureFormat::Rg16Float)
    } else {
        Err(ConfigError::UnknownColorFormat)
    }
}

/// A `"2D"` dimension token; every other dimension is unsupported.
pub open spec fn spec_texture_dimension(s: Seq<char>) -> Result<
    TextureViewDimension,
    ConfigError,
> {
    if s == "2D"@ {
        Ok(TextureViewDimension::D2)
    } else {
        Err(ConfigError::UnknownTextureDimension)
    }
}

/// A `"uint"` or `"float"` component-type token.
pub open spec fn spec_component_type(s: Seq<char>) -> Result<TextureComponentType, ConfigError> {
    if s == "uint"@ {
        Ok(TextureComponentType::Uint)
    } else if s == "float"@ {
        Ok(TextureComponentType::Float)
    } else {
        Err(ConfigError::UnknownComponentType)
    }
}

/// The boolean value of field `key` of `config`; missing and mistyped fields
/// are distinct errors.
pub open spec fn spec_bool_field(config: JsonValue, key: Seq<char>) -> Result<bool, ConfigError> {
    match spec_get_field(config, key) {
        Some(JsonValue::Bool(b)) => Ok(b),
        Some(_) => Err(ConfigError::WrongFieldType),
        None => Err(ConfigError::MissingField),
    }
}

/// Executable twin of [`spec_bool_field`].
pub fn bool_field(config: &JsonValue, key: &str) -> (r: Result<bool, ConfigError>)
    ensures
        r == spec_bool_field(*config, key@),
{
    match get_field(config, key) {
        Some(JsonValue::Bool(b)) => Ok(*b),
        Some(_) => Err(ConfigError::WrongFieldType),
        None => Err(ConfigError::MissingField),
    }
}

/// The string value of field `key` of `config`.
pub open spec fn spec_str_field(config: JsonValue, key: Seq<char>) -> Result<String, ConfigError> {
    match spec_get_field(config, key) {
        Some(JsonValue::Str(s)) => Ok(s),
        Some(_) => Err(ConfigError::WrongFieldType),
        None => Err(ConfigError::MissingField),
    }
}

/// Executable twin of [`spec_str_field`]; hands back a reference into the
/// document.
pub fn str_field<'a>(config: &'a JsonValue, key: &str) -> (r: Result<&'a String, ConfigError>)
    ensures
        match r {
            Ok(s) => spec_str_field(*config, key@) == Ok::<String, ConfigError>(*s),
            Err(e) => spec_str_field(*config, key@) == Err::<String, ConfigError>(e),
        },
{
    match get_field(config, key) {
        Some(JsonValue::Str(s)) => Ok(s),
        Some(_) => Err(ConfigError::WrongFieldType),
        None => Err(ConfigError::MissingField),
    }
}

/// The binding type of one binding entry, from its `"type"` discriminator and
/// the type-specific configuration object beside it.
pub open spec fn spec_bind_group_type(
    type_str: Seq<char>,
    binding: JsonValue,
    swap_chain_format: TextureFormat,
) -> Result<BindingType, ConfigError> {
    if type_str == "uniform"@ {
        match spec_get_field(binding, "uniform_config"@) {
            Some(config) => match spec_bool_field(config, "dynamic"@) {
                Ok(dynamic) => Ok(BindingType::UniformBuffer { dynamic }),
                Err(e) => Err(e),
            },
            None => Err(ConfigError::MissingField),
        }
    } else if type_str == "texture"@ {
        match spec_get_field(binding, "texture_config"@) {
            Some(config) => match spec_bool_field(config, "multisampled"@) {
                Ok(multisampled) => match spec_str_field(config, "dimension"@) {
                    Ok(dim) => match spec_texture_dimension(dim@) {
                        Ok(dimension) => match spec_str_field(config, "component_type"@) {
                            Ok(comp) => match spec_component_type(comp@) {
                                Ok(component_type) => Ok(BindingType::SampledTexture {
                                    multisampled,
                                    dimension,
                                    component_type,
                                }),
                                Err(e) => Err(e),
                            },
                            Err(e) => Err(e),
                        },
                        Err(e) => Err(e),
                    },
                    Err(e) => Err(e),
                },
                Err(e) => Err(e),
            },
            None => Err(ConfigError::MissingField),
        }
    } else if type_str == "sampler"@ {
        match spec_get_field(binding, "sampler_config"@) {
            Some(config) => match spec_bool_field(config, "comparison"@) {
                Ok(comparison) => Ok(BindingType::Sampler { comparison }),
                Err(e) => Err(e),
            },
            None => Err(ConfigError::MissingField),
        }
    } else if type_str == "storage_texture"@ {
        match spec_get_field(binding, "texture_config"@) {
            Some(config) => match spec_str_field(config, "dimension"@) {
                Ok(dim) => match spec_texture_dimension(dim@) {
                    Ok(dimension) => match spec_str_field(config, "component_type"@) {
                        Ok(comp) => match spec_component_type(comp@) {
                            Ok(component_type) => match spec_str_field(config, "format"@) {
                                Ok(fmt) => match spec_color_format(fmt@, swap_chain_format) {
                                    Ok(format) => match spec_bool_field(config, "readonly"@) {
                                        Ok(readonly) => Ok(BindingType::StorageTexture {
                                            dimension,
                                            component_type,
                                            format,
                                            readonly,
                                        }),
                                        Err(e) => Err(e),
                                    },
                                    Err(e) => Err(e),
                                },
                                Err(e) => Err(e),
                            },
                            Err(e) => Err(e),
                        },
                        Err(e) => Err(e),
                    },
                    Err(e) => Err(e),
                },
                Err(e) => Err(e),
            },
            None => Err(ConfigError::MissingField),
        }
    } else {
        Err(ConfigError::UnknownBindingType)
    }
}

fn texture_dimension_field(config: &JsonValue) -> (r: Result<TextureViewDimension, ConfigError>)
    ensures
        r == (match spec_str_field(*config, "dimension"@) {
            Ok(dim) => spec_texture_dimension(dim@),
            Err(e) => Err::<TextureViewDimension, ConfigError>(e),
        }),
{
    match str_field(config, "dimension") {
        Ok(dim) => {
            if str_eq(dim.as_str(), "2D") {
                Ok(TextureViewDimension::D2)
            } else {
                Err(ConfigError::UnknownTextureDimension)
            }
        },
        Err(e) => Err(e),
    }
}

fn component_type_field(config: &JsonValue) -> (r: Result<TextureComponentType, ConfigError>)
    ensures
        r == (match spec_str_field(*config, "component_type"@) {
            Ok(comp) => spec_component_type(comp@),
            Err(e) => Err::<TextureComponentType, ConfigError>(e),
        }),
{
    match str_field(config, "component_type") {
        Ok(comp) => {
            if str_eq(comp.as_str(), "uint") {
                Ok(TextureComponentType::Uint)
            } else if str_eq(comp.as_str(), "float") {
                Ok(TextureComponentType::Float)
            } else {
                Err(ConfigError::UnknownComponentType)
            }
        },
        Err(e) => Err(e),
    }
}

/// Resolves a binding entry's `"type"` discriminator and configuration into
/// the closed [`BindingType`] union; unknown discriminators and unsupported
/// enum values are fatal configuration errors.
pub fn get_bind_group_type(
    type_str: &str,
    binding: &JsonValue,
    swap_chain_format: TextureFormat,
) -> (r: Result<BindingType, ConfigError>)
    ensures
        r == spec_bind_group_type(type_str@, *binding, swap_chain_format),
{
    if str_eq(type_str, "uniform") {
        match get_field(binding, "uniform_config") {
            Some(config) => match bool_field(config, "dynamic") {
                Ok(dynamic) => Ok(BindingType::UniformBuffer { dynamic }),
                Err(e) => Err(e),
            },
            None => Err(ConfigError::MissingField),
        }
    } else if str_eq(type_str, "texture") {
        match get_field(binding, "texture_config") {
            Some(config) => match bool_field(config, "multisampled") {
                Ok(multisampled) => match texture_dimension_field(config) {
                    Ok(dimension) => match component_type_field(config) {
                        Ok(component_type) => Ok(BindingType::SampledTexture {
                            multisampled,
                            dimension,
                            component_type,
                        }),
                        Err(e) => Err(e),
                    },
                    Err(e) => Err(e),
                },
                Err(e) => Err(e),
            },
            None => Err(ConfigError::MissingField),
        }
    } else if str_eq(type_str, "sampler") {
        match get_field(binding, "sampler_config") {
            Some(config) => match bool_field(config, "comparison") {
                Ok(comparison) => Ok(BindingType::Sampler { comparison }),
                Err(e) => Err(e),
            },
            None => Err(ConfigError::MissingField),
        }
    } else if str_eq(type_str, "storage_texture") {
        match get_field(binding, "texture_config") {
            Some(config) => match texture_dimension_field(config) {
                Ok(dimension) => match component_type_field(config) {
                    Ok(component_type) => match str_field(config, "format") {
                        Ok(fmt) => match get_color_format(fmt.as_str(), swap_chain_format) {
                            Ok(format) => match bool_field(config, "readonly") {
                                Ok(readonly) => Ok(BindingType::StorageTexture {
                                    dimension,
                                    component_type,
                                    format,
                                    readonly,
                                }),
                                Err(e) => Err(e),
                            },
                            Err(e) => Err(e),
                        },
                        Err(e) => Err(e),
                    },
                    Err(e) => Err(e),
                },
                Err(e) => Err(e),
            },
            None => Err(ConfigError::MissingField),
        }
    } else {
        Err(ConfigError::UnknownBindingType)
    }
}

/// One binding entry: its slot (a `u32`-ranged unsigned number), its
/// visibility list and its binding type.
pub open spec fn spec_binding_entry(
    binding: JsonValue,
    swap_chain_format: TextureFormat,
) -> Result<BindGroupLayoutEntry, ConfigError> {
    match spec_get_field(binding, "slot"@) {
        Some(JsonValue::Num(JsonNumber::UInt(slot))) => if slot <= u32::MAX {
            match spec_get_field(binding, "visibility"@) {
                Some(JsonValue::Arr(items)) => match spec_visibility_mask(items@) {
                    Ok(visibility) => match spec_str_field(binding, "type"@) {
                        Ok(type_str) => match spec_bind_group_type(
                            type_str@,
                            binding,
                            swap_chain_format,
                        ) {
                            Ok(ty) => Ok(BindGroupLayoutEntry {
                                binding: slot as u32,
                                visibility,
                                ty,
                            }),
                            Err(e) => Err(e),
                        },
                        Err(e) => Err(e),
                    },
                    Err(e) => Err(e),
                },
                Some(_) => Err(ConfigError::WrongFieldType),
                None => Err(ConfigError::MissingField),
            }
        } else {
            Err(ConfigError::ValueOutOfRange)
        },
        Some(JsonValue::Num(_)) => Err(ConfigError::WrongFieldType),
        Some(_) => Err(ConfigError::WrongFieldType),
        None => Err(ConfigError::MissingField),
    }
}

/// Executable twin of [`spec_binding_entry`].
pub fn parse_binding_entry(
    binding: &JsonValue,
    swap_chain_format: TextureFormat,
) -> (r: Result<BindGroupLayoutEntry, ConfigError>)
    ensures
        r == spec_binding_entry(*binding, swap_chain_format),
{
    match get_field(binding, "slot") {
        Some(JsonValue::Num(JsonNumber::UInt(slot))) => {
            if *slot <= u32::MAX as u64 {
                match get_field(binding, "visibility") {
                    Some(JsonValue::Arr(items)) => match get_bind_group_visibility(items) {
                        Ok(visibility) => match str_field(binding, "type") {
                            Ok(type_str) => {
                                let owned_type = type_str.clone();
                                match get_bind_group_type(
                                    owned_type.as_str(),
                                    binding,
                                    swap_chain_format,
                                ) {
                                    Ok(ty) => Ok(BindGroupLayoutEntry {
                                        binding: *slot as u32,
                                        visibility,
                                        ty,
                                    }),
                                    Err(e) => Err(e),
                                }
                            },
                            Err(e) => Err(e),
                        },
                        Err(e) => Err(e),
                    },
                    Some(_) => Err(ConfigError::WrongFieldType),
                    None => Err(ConfigError::MissingField),
                }
            } else {
                Err(ConfigError::ValueOutOfRange)
            }
        },
        Some(JsonValue::Num(_)) => Err(ConfigError::WrongFieldType),
        Some(_) => Err(ConfigError::WrongFieldType),
        None => Err(ConfigError::MissingField),
    }
}

/// One binding set: every element of its entry list parsed in order.
pub open spec fn spec_binding_set(
    entries: Seq<JsonValue>,
    swap_chain_format: TextureFormat,
) -> Result<Seq<BindGroupLayoutEntry>, ConfigError>
    decreases entries.len(),
{
    if entries.len() == 0 {
        Ok(Seq::empty())
    } else {
        match spec_binding_entry(entries[0], swap_chain_format) {
            Ok(entry) => match spec_binding_set(entries.drop_first(), swap_chain_format) {
                Ok(rest) => Ok(seq![entry] + rest),
                Err(e) => Err(e),
            },
            Err(e) => Err(e),
        }
    }
}

fn binding_set_from(
    entries: &Vec<JsonValue>,
    i: usize,
    swap_chain_format: TextureFormat,
) -> (r: Result<Vec<BindGroupLayoutEntry>, ConfigError>)
    requires
        i <= entries@.len(),
    ensures
        match r {
            Ok(v) => spec_binding_set(entries@.skip(i as int), swap_chain_format) == Ok::<
                Seq<BindGroupLayoutEntry>,
                ConfigError,
            >(v@),
            Err(e) => spec_binding_set(entries@.skip(i as int), swap_chain_format) == Err::<
                Seq<BindGroupLayoutEntry>,
                ConfigError,
            >(e),
        },
    decreases entries@.len() - i,
{
    if i == entries.len() {
        let empty: Vec<BindGroupLayoutEntry> = Vec::new();
        Ok(empty)
    } else {
        proof {
            assert(entries@.skip(i as int).drop_first() =~= entries@.skip(i as int + 1));
        }
        match parse_binding_entry(&entries[i], swap_chain_format) {
            Ok(entry) => match binding_set_from(entries, i + 1, swap_chain_format) {
                Ok(mut rest) => {
                    let ghost prev = rest@;
                    rest.insert(0, entry);
                    proof {
                        assert(rest@ =~= seq![entry] + prev);
                    }
                    Ok(rest)
                },
                Err(e) => Err(e),
            },
            Err(e) => Err(e),
        }
    }
}

/// Parses one binding set's entry list.
pub fn parse_binding_set(
    entries: &Vec<JsonValue>,
    swap_chain_format: TextureFormat,
) -> (r: Result<Vec<BindGroupLayoutEntry>, ConfigError>)
    ensures
        match r {
            Ok(v) => spec_binding_set(entries@, swap_chain_format) == Ok::<
                Seq<BindGroupLayoutEntry>,
                ConfigError,
            >(v@),
            Err(e) => spec_binding_set(entries@, swap_chain_format) == Err::<
                Seq<BindGroupLayoutEntry>,
                ConfigError,
            >(e),
        },
{
    proof {
        assert(entries@.skip(0) =~= entries@);
    }
    binding_set_from(entries, 0, swap_chain_format)
}

/// All binding sets of a binding-set document: the `"bindings"` field is an
/// array of sets, each itself an array of binding entries.
pub open spec fn spec_binding_sets_list(
    sets: Seq<JsonValue>,
    swap_chain_format: TextureFormat,
) -> Result<Seq<Seq<BindGroupLayoutEntry>>, ConfigError>
    decreases sets.len(),
{
    if sets.len() == 0 {
        Ok(Seq::empty())
    } else {
        match sets[0] {
            JsonValue::Arr(entries) => match spec_binding_set(entries@, swap_chain_format) {
                Ok(set) => match spec_binding_sets_list(sets.drop_first(), swap_chain_format) {
                    Ok(rest) => Ok(seq![set] + rest),
                    Err(e) => Err(e),
                },
                Err(e) => Err(e),
            },
            _ => Err(ConfigError::WrongFieldType),
        }
    }
}

/// The parse of a whole binding-set document.
pub open spec fn spec_binding_sets(
    doc: JsonValue,
    swap_chain_format: TextureFormat,
) -> Result<Seq<Seq<BindGroupLayoutEntry>>, ConfigError> {
    match spec_get_field(doc, "bindings"@) {
        Some(JsonValue::Arr(sets)) => spec_binding_sets_list(sets@, swap_chain_format),
        Some(_) => Err(ConfigError::WrongFieldType),
        None => Err(ConfigError::MissingField),
    }
}

/// The views of the parsed sets, one per element.
pub open spec fn views_of_sets(v: Seq<Vec<BindGroupLayoutEntry>>) -> Seq<Seq<BindGroupLayoutEntry>> {
    v.map_values(|set: Vec<BindGroupLayoutEntry>| set@)
}

fn binding_sets_from(
    sets: &Vec<JsonValue>,
    i: usize,
    swap_chain_format: TextureFormat,
) -> (r: Result<Vec<Vec<BindGroupLayoutEntry>>, ConfigError>)
    requires
        i <= sets@.len(),
    ensures
        match r {
            Ok(v) => spec_binding_sets_list(sets@.skip(i as int), swap_chain_format) == Ok::<
                Seq<Seq<BindGroupLayoutEntry>>,
                ConfigError,
            >(views_of_sets(v@)),
            Err(e) => spec_binding_sets_list(sets@.skip(i as int), swap_chain_format) == Err::<
                Seq<Seq<BindGroupLayoutEntry>>,
                ConfigError,
            >(e),
        },
    decreases sets@.len() - i,
{
    if i == sets.len() {
        let empty: Vec<Vec<BindGroupLayoutEntry>> = Vec::new();
        proof {
            assert(views_of_sets(empty@) =~= Seq::<Seq<BindGroupLayoutEntry>>::empty());
        }
        Ok(empty)
    } else {
        proof {
            assert(sets@.skip(i as int).drop_first() =~= sets@.skip(i as int + 1));
        }
        match &sets[i] {
            JsonValue::Arr(entries) => match parse_binding_set(entries, swap_chain_format) {
                Ok(set) => match binding_sets_from(sets, i + 1, swap_chain_format) {
                    Ok(mut rest) => {
                        let ghost rest_views = views_of_sets(rest@);
                        rest.insert(0, set);
                        proof {
                            assert(views_of_sets(rest@) =~= seq![set@] + rest_views);
                        }
                        Ok(rest)
                    },
                    Err(e) => Err(e),
                },
                Err(e) => Err(e),
            },
            _ => Err(ConfigError::WrongFieldType),
        }
    }
}

/// Parses a binding-set document into its list of typed binding sets.
pub fn parse_binding_sets(
    doc: &JsonValue,
    swap_chain_format: TextureFormat,
) -> (r: Result<Vec<Vec<BindGroupLayoutEntry>>, ConfigError>)
    ensures
        match r {
            Ok(v) => spec_binding_sets(*doc, swap_chain_format) == Ok::<
                Seq<Seq<BindGroupLayoutEntry>>,
                ConfigError,
            >(views_of_sets(v@)),
            Err(e) => spec_binding_sets(*doc, swap_chain_format) == Err::<
                Seq<Seq<BindGroupLayoutEntry>>,
                ConfigError,
            >(e),
        },
{
    match get_field(doc, "bindings") {
        Some(JsonValue::Arr(sets)) => {
            proof {
                assert(sets@.skip(0) =~= sets@);
            }
            binding_sets_from(sets, 0, swap_chain_format)
        },
        Some(_) => Err(ConfigError::WrongFieldType),
        None => Err(ConfigError::MissingField),
    }
}


/// Winding order that counts as front-facing.
#[derive(Clone, Copy, PartialEq, Eq, Structural, Debug)]
pub enum FrontFace {
    Ccw,
    Cw,
}

/// Which faces the rasterizer culls.
#[derive(Clone, Copy, PartialEq, Eq, Structural, Debug)]
pub enum CullMode {
    Disabled,
    Front,
    Back,
}

/// Depth comparison functions the pipeline files may name.
#[derive(Clone, Copy, PartialEq, Eq, Structural, Debug)]
pub enum CompareFunction {
    Undefined,
    Never,
    Less,
    Equal,
    LessEqual,
    Greater,
    NotEqual,
    GreaterEqual,
    Always,
}

/// Fixed-function rasterization state. The two bias scale values are numbers
/// the GPU reads as floats; they cross this crate as [`JsonNumber`]s, unread.
#[derive(PartialEq, Debug)]
pub struct RasterizationState {
    pub front_face: FrontFace,
    pub cull_mode: CullMode,
    pub depth_bias: i32,
    pub depth_bias_slope_scale: JsonNumber,
    pub depth_bias_clamp: JsonNumber,
}

/// Depth/stencil state of a raster pipeline.
#[derive(Clone, Copy, PartialEq, Eq, Structural, Debug)]
pub struct DepthStencilState {
    pub format: TextureFormat,
    pub depth_write_enabled: bool,
    pub depth_compare: CompareFunction,
}

/// Primitive topologies the pipeline files may name.
#[derive(Clone, Copy, PartialEq, Eq, Structural, Debug)]
pub enum PrimitiveTopology {
    PointList,
    LineList,
    LineStrip,
    TriangleList,
    TriangleStrip,
}

/// Blend modes the pipeline files may name.
#[derive(Clone, Copy, PartialEq, Eq, Structural, Debug)]
pub enum BlendMode {
    Replace,
}

/// One color target of a raster pipeline.
#[derive(Clone, Copy, PartialEq, Eq, Structural, Debug)]
pub struct ColorState {
    pub format: TextureFormat,
    pub color_blend: BlendMode,
    pub alpha_blend: BlendMode,
}

/// Vertex attribute formats the presets use.
#[derive(Clone, Copy, PartialEq, Eq, Structural, Debug)]
pub enum VertexFormat {
    Float3,
}

/// One attribute within a vertex buffer stream.
#[derive(Clone, Copy, PartialEq, Eq, Structural, Debug)]
pub struct VertexAttributeDescriptor {
    pub offset: u64,
    pub shader_location: u32,
    pub format: VertexFormat,
}

/// One vertex buffer stream: its stride and its attributes.
#[derive(PartialEq, Debug)]
pub struct VertexBufferDescriptor {
    pub stride: u64,
    pub attributes: Vec<VertexAttributeDescriptor>,
}

/// Width of the elements of an index buffer.
#[derive(Clone, Copy, PartialEq, Eq, Structural, Debug)]
pub enum IndexFormat {
    Uint16,
    Uint32,
}

/// A compare-function token mapped into the closed enum.
pub open spec fn spec_compare_token(s: Seq<char>) -> Result<CompareFunction, ConfigError> {
    if s == "Undefined"@ {
        Ok(CompareFunction::Undefined)
    } else if s == "Never"@ {
        Ok(CompareFunction::Never)
    } else if s == "Less"@ {
        Ok(CompareFunction::Less)
    } else if s == "Equal"@ {
        Ok(CompareFunction::Equal)
    } else if s == "LessEqual"@ {
        Ok(CompareFunction::LessEqual)
    } else if s == "Greater"@ {
        Ok(CompareFunction::Greater)
    } else if s == "NotEqual"@ {
        Ok(CompareFunction::NotEqual)
    } else if s == "GreaterEqual"@ {
        Ok(CompareFunction::GreaterEqual)
    } else if s == "Always"@ {
        Ok(CompareFunction::Always)
    } else {
        Err(ConfigError::UnknownCompareFunction)
    }
}

/// A compare function read from a JSON value that must be a string.
pub open spec fn spec_compare_function(v: JsonValue) -> Result<CompareFunction, ConfigError> {
    match v {
        JsonValue::Str(s) => spec_compare_token(s@),
        _ => Err(ConfigError::WrongFieldType),
    }
}

/// Maps a standard depth-comparison name to the closed enum; any other name
/// is a fatal configuration error.
pub fn get_compare_function(value: &JsonValue) -> (r: Result<CompareFunction, ConfigError>)
    ensures
        r == spec_compare_function(*value),
{
    match value {
        JsonValue::Str(s) => {
            if str_eq(s.as_str(), "Undefined") {
                Ok(CompareFunction::Undefined)
            } else if str_eq(s.as_str(), "Never") {
                Ok(CompareFunction::Never)
            } else if str_eq(s.as_str(), "Less") {
                Ok(CompareFunction::Less)
            } else if str_eq(s.as_str(), "Equal") {
                Ok(CompareFunction::Equal)
            } else if str_eq(s.as_str(), "LessEqual") {
                Ok(CompareFunction::LessEqual)
            } else if str_eq(s.as_str(), "Greater") {
                Ok(CompareFunction::Greater)
            } else if str_eq(s.as_str(), "NotEqual") {
                Ok(CompareFunction::NotEqual)
            } else if str_eq(s.as_str(), "GreaterEqual") {
                Ok(CompareFunction::GreaterEqual)
            } else if str_eq(s.as_str(), "Always") {
                Ok(CompareFunction::Always)
            } else {
                Err(ConfigError::UnknownCompareFunction)
            }
        },
        _ => Err(ConfigError::WrongFieldType),
    }
}

/// The `i32` value of field `key`: an integer number within `i32` range.
pub open spec fn spec_i32_field(config: JsonValue, key: Seq<char>) -> Result<i32, ConfigError> {
    match spec_get_field(config, key) {
        Some(JsonValue::Num(JsonNumber::UInt(u))) => if u <= i32::MAX {
            Ok(u as i32)
        } else {
            Err(ConfigError::ValueOutOfRange)
        },
        Some(JsonValue::Num(JsonNumber::Int(i))) => if i32::MIN <= i && i <= i32::MAX {
            Ok(i as i32)
        } else {
            Err(ConfigError::ValueOutOfRange)
        },
        Some(_) => Err(ConfigError::WrongFieldType),
        None => Err(ConfigError::MissingField),
    }
}

/// Executable twin of [`spec_i32_field`].
pub fn i32_field(config: &JsonValue, key: &str) -> (r: Result<i32, ConfigError>)
    ensures
        r == spec_i32_field(*config, key@),
{
    match get_field(config, key) {
        Some(JsonValue::Num(JsonNumber::UInt(u))) => {
            if *u <= i32::MAX as u64 {
                Ok(*u as i32)
            } else {
                Err(ConfigError::ValueOutOfRange)
            }
        },
        Some(JsonValue::Num(JsonNumber::Int(i))) => {
            if i32::MIN as i64 <= *i && *i <= i32::MAX as i64 {
                Ok(*i as i32)
            } else {
                Err(ConfigError::ValueOutOfRange)
            }
        },
        Some(_) => Err(ConfigError::WrongFieldType),
        None => Err(ConfigError::MissingField),
    }
}

/// The numeric value of field `key`, kept as a [`JsonNumber`].
pub open spec fn spec_num_field(config: JsonValue, key: Seq<char>) -> Result<
    JsonNumber,
    ConfigError,
> {
    match spec_get_field(config, key) {
        Some(JsonValue::Num(n)) => Ok(n),
        Some(_) => Err(ConfigError::WrongFieldType),
        None => Err(ConfigError::MissingField),
    }
}

/// Executable twin of [`spec_num_field`].
pub fn num_field(config: &JsonValue, key: &str) -> (r: Result<JsonNumber, ConfigError>)
    ensures
        r == spec_num_field(*config, key@),
{
    match get_field(config, key) {
        Some(JsonValue::Num(n)) => Ok(n.duplicate()),
        Some(_) => Err(ConfigError::WrongFieldType),
        None => Err(ConfigError::MissingField),
    }
}

/// The front-face winding of an explicit rasterization state.
pub open spec fn spec_raster_facing(raster_value: JsonValue) -> Result<FrontFace, ConfigError> {
    match spec_str_field(raster_value, "front_facing"@) {
        Ok(s) => if s@ == "ccw"@ {
            Ok(FrontFace::Ccw)
        } else if s@ == "cw"@ {
            Ok(FrontFace::Cw)
        } else {
            Err(ConfigError::UnknownFrontFace)
        },
        Err(e) => Err(e),
    }
}

/// Executable twin of [`spec_raster_facing`].
pub fn get_raster_facing(raster_value: &JsonValue) -> (r: Result<FrontFace, ConfigError>)
    ensures
        r == spec_raster_facing(*raster_value),
{
    match str_field(raster_value, "front_facing") {
        Ok(s) => {
            if str_eq(s.as_str(), "ccw") {
                Ok(FrontFace::Ccw)
            } else if str_eq(s.as_str(), "cw") {
                Ok(FrontFace::Cw)
            } else {
                Err(ConfigError::UnknownFrontFace)
            }
        },
        Err(e) => Err(e),
    }
}

/// The cull mode of an explicit rasterization state.
pub open spec fn spec_raster_cull(raster_value: JsonValue) -> Result<CullMode, ConfigError> {
    match spec_str_field(raster_value, "cull_mode"@) {
        Ok(s) => if s@ == "none"@ {
            Ok(CullMode::Disabled)
        } else if s@ == "front"@ {
            Ok(CullMode::Front)
        } else if s@ == "back"@ {
            Ok(CullMode::Back)
        } else {
            Err(ConfigError::UnknownCullMode)
        },
        Err(e) => Err(e),
    }
}

/// Executable twin of [`spec_raster_cull`].
pub fn get_raster_cull(raster_value: &JsonValue) -> (r: Result<CullMode, ConfigError>)
    ensures
        r == spec_raster_cull(*raster_value),
{
    match str_field(raster_value, "cull_mode") {
        Ok(s) => {
            if str_eq(s.as_str(), "none") {
                Ok(CullMode::Disabled)
            } else if str_eq(s.as_str(), "front") {
                Ok(CullMode::Front)
            } else if str_eq(s.as_str(), "back") {
                Ok(CullMode::Back)
            } else {
                Err(ConfigError::UnknownCullMode)
            }
        },
        Err(e) => Err(e),
    }
}

/// The rasterization state the `"default"` preset stands for:
/// counter-clockwise front face, back-face culling, zero depth bias.
pub open spec fn spec_default_raster_state() -> RasterizationState {
    RasterizationState {
        front_face: FrontFace::Ccw,
        cull_mode: CullMode::Back,
        depth_bias: 0,
        depth_bias_slope_scale: JsonNumber::UInt(0),
        depth_bias_clamp: JsonNumber::UInt(0),
    }
}

/// The rasterization state of a pipeline document: the `"default"` preset,
/// or explicit fields; any `"type"` other than `"default"` selects the
/// explicit reading.
pub open spec fn spec_raster_state(doc: JsonValue) -> Result<RasterizationState, ConfigError> {
    match spec_get_field(doc, "rasterization_state"@) {
        Some(raster_value) => match spec_str_field(raster_value, "type"@) {
            Ok(ty) => if ty@ == "default"@ {
                Ok(spec_default_raster_state())
            } else {
                match spec_raster_facing(raster_value) {
                    Ok(front_face) => match spec_raster_cull(raster_value) {
                        Ok(cull_mode) => match spec_i32_field(raster_value, "depth_bias"@) {
                            Ok(depth_bias) => match spec_num_field(raster_value, "slope_scale"@) {
                                Ok(slope) => match spec_num_field(raster_value, "bias_clamp"@) {
                                    Ok(clamp) => Ok(RasterizationState {
                                        front_face,
                                        cull_mode,
                                        depth_bias,
                                        depth_bias_slope_scale: slope,
                                        depth_bias_clamp: clamp,
                                    }),
                                    Err(e) => Err(e),
                                },
                                Err(e) => Err(e),
                            },
                            Err(e) => Err(e),
                        },
                        Err(e) => Err(e),
                    },
                    Err(e) => Err(e),
                }
            },
            Err(e) => Err(e),
        },
        None => Err(ConfigError::MissingField),
    }
}

/// Resolves a pipeline document's rasterization state.
pub fn get_pipeline_raster_state(doc: &JsonValue) -> (r: Result<RasterizationState, ConfigError>)
    ensures
        r == spec_raster_state(*doc),
{
    match get_field(doc, "rasterization_state") {
        Some(raster_value) => match str_field(raster_value, "type") {
            Ok(ty) => {
                if str_eq(ty.as_str(), "default") {
                    Ok(RasterizationState {
                        front_face: FrontFace::Ccw,
                        cull_mode: CullMode::Back,
                        depth_bias: 0,
                        depth_bias_slope_scale: JsonNumber::UInt(0),
                        depth_bias_clamp: JsonNumber::UInt(0),
                    })
                } else {
                    match get_raster_facing(raster_value) {
                        Ok(front_face) => match get_raster_cull(raster_value) {
                            Ok(cull_mode) => match i32_field(raster_value, "depth_bias") {
                                Ok(depth_bias) => match num_field(raster_value, "slope_scale") {
                                    Ok(slope) => match num_field(raster_value, "bias_clamp") {
                                        Ok(clamp) => Ok(RasterizationState {
                                            front_face,
                                            cull_mode,
                                            depth_bias,
                                            depth_bias_slope_scale: slope,
                                            depth_bias_clamp: clamp,
                                        }),
                                        Err(e) => Err(e),
                                    },
                                    Err(e) => Err(e),
                                },
                                Err(e) => Err(e),
                            },
                            Err(e) => Err(e),
                        },
                        Err(e) => Err(e),
                    }
                }
            },
            Err(e) => Err(e),
        },
        None => Err(ConfigError::MissingField),
    }
}

/// The optional depth/stencil state of a pipeline document: absent or null
/// means none; the only supported format token is `"default"`, standing for
/// the session's default depth format.
pub open spec fn spec_depth_state(doc: JsonValue, default_depth_format: TextureFormat) -> Result<
    Option<DepthStencilState>,
    ConfigError,
> {
    match spec_get_field(doc, "depth_state"@) {
        None => Ok(None),
        Some(JsonValue::Null) => Ok(None),
        Some(state_value) => match spec_str_field(state_value, "format"@) {
            Ok(fmt) => if fmt@ == "default"@ {
                match spec_bool_field(state_value, "depth_write_enabled"@) {
                    Ok(depth_write_enabled) => match spec_get_field(state_value, "depth_compare"@) {
                        Some(cmp_value) => match spec_compare_function(cmp_value) {
                            Ok(depth_compare) => Ok(Some(DepthStencilState {
                                format: default_depth_format,
                                depth_write_enabled,
                                depth_compare,
                            })),
                            Err(e) => Err(e),
                        },
                        None => Err(ConfigError::MissingField),
                    },
                    Err(e) => Err(e),
                }
            } else {
                Err(ConfigError::UnknownDepthFormat)
            },
            Err(e) => Err(e),
        },
    }
}

/// Resolves a pipeline document's optional depth/stencil state.
pub fn get_depth_stencil_state(
    doc: &JsonValue,
    default_depth_format: TextureFormat,
) -> (r: Result<Option<DepthStencilState>, ConfigError>)
    ensures
        r == spec_depth_state(*doc, default_depth_format),
{
    match get_field(doc, "depth_state") {
        None => Ok(None),
        Some(JsonValue::Null) => Ok(None),
        Some(state_value) => match str_field(state_value, "format") {
            Ok(fmt) => {
                if str_eq(fmt.as_str(), "default") {
                    match bool_field(state_value, "depth_write_enabled") {
                        Ok(depth_write_enabled) => match get_field(state_value, "depth_compare") {
                            Some(cmp_value) => match get_compare_function(cmp_value) {
                                Ok(depth_compare) => Ok(Some(DepthStencilState {
                                    format: default_depth_format,
                                    depth_write_enabled,
                                    depth_compare,
                                })),
                                Err(e) => Err(e),
                            },
                            None => Err(ConfigError::MissingField),
                        },
                        Err(e) => Err(e),
                    }
                } else {
                    Err(ConfigError::UnknownDepthFormat)
                }
            },
            Err(e) => Err(e),
        },
    }
}

/// A primitive-topology token mapped into the closed enum.
pub open spec fn spec_topology_token(s: Seq<char>) -> Result<PrimitiveTopology, ConfigError> {
    if s == "pointList"@ {
        Ok(PrimitiveTopology::PointList)
    } else if s == "lineList"@ {
        Ok(PrimitiveTopology::LineList)
    } else if s == "lineStrip"@ {
        Ok(PrimitiveTopology::LineStrip)
    } else if s == "triangleList"@ {
        Ok(PrimitiveTopology::TriangleList)
    } else if s == "triangleStrip"@ {
        Ok(PrimitiveTopology::TriangleStrip)
    } else {
        Err(ConfigError::UnknownTopology)
    }
}

/// The primitive topology of a pipeline document.
pub open spec fn spec_topology(doc: JsonValue) -> Result<PrimitiveTopology, ConfigError> {
    match spec_str_field(doc, "primitive_topology"@) {
        Ok(s) => spec_topology_token(s@),
        Err(e) => Err(e),
    }
}

/// Resolves a pipeline document's primitive topology.
pub fn get_primitive_topology(doc: &JsonValue) -> (r: Result<PrimitiveTopology, ConfigError>)
    ensures
        r == spec_topology(*doc),
{
    match str_field(doc, "primitive_topology") {
        Ok(s) => {
            if str_eq(s.as_str(), "pointList") {
                Ok(PrimitiveTopology::PointList)
            } else if str_eq(s.as_str(), "lineList") {
                Ok(PrimitiveTopology::LineList)
            } else if str_eq(s.as_str(), "lineStrip") {
                Ok(PrimitiveTopology::LineStrip)
            } else if str_eq(s.as_str(), "triangleList") {
                Ok(PrimitiveTopology::TriangleList)
            } else if str_eq(s.as_str(), "triangleStrip") {
                Ok(PrimitiveTopology::TriangleStrip)
            } else {
                Err(ConfigError::UnknownTopology)
            }
        },
        Err(e) => Err(e),
    }
}

/// The blend mode named by field `name` of one color target.
pub open spec fn spec_pipeline_blend(color_value: JsonValue, name: Seq<char>) -> Result<
    BlendMode,
    ConfigError,
> {
    match spec_str_field(color_value, name) {
        Ok(s) => if s@ == "replace"@ {
            Ok(BlendMode::Replace)
        } else {
            Err(ConfigError::UnknownBlendMode)
        },
        Err(e) => Err(e),
    }
}

/// Resolves one blend descriptor of a color target.
pub fn get_pipeline_blend(color_value: &JsonValue, name: &str) -> (r: Result<
    BlendMode,
    ConfigError,
>)
    ensures
        r == spec_pipeline_blend(*color_value, name@),
{
    match str_field(color_value, name) {
        Ok(s) => {
            if str_eq(s.as_str(), "replace") {
                Ok(BlendMode::Replace)
            } else {
                Err(ConfigError::UnknownBlendMode)
            }
        },
        Err(e) => Err(e),
    }
}

/// One color target: its format (resolved against the swap chain) and its
/// two blend modes.
pub open spec fn spec_color_state(color_value: JsonValue, swap_chain_format: TextureFormat) -> Result<
    ColorState,
    ConfigError,
> {
    match spec_str_field(color_value, "format"@) {
        Ok(fmt) => match spec_color_format(fmt@, swap_chain_format) {
            Ok(format) => match spec_pipeline_blend(color_value, "color_blend"@) {
                Ok(color_blend) => match spec_pipeline_blend(color_value, "alpha_blend"@) {
                    Ok(alpha_blend) => Ok(ColorState { format, color_blend, alpha_blend }),
                    Err(e) => Err(e),
                },
                Err(e) => Err(e),
            },
            Err(e) => Err(e),
        },
        Err(e) => Err(e),
    }
}

fn parse_color_state(color_value: &JsonValue, swap_chain_format: TextureFormat) -> (r: Result<
    ColorState,
    ConfigError,
>)
    ensures
        r == spec_color_state(*color_value, swap_chain_format),
{
    match str_field(color_value, "format") {
        Ok(fmt) => match get_color_format(fmt.as_str(), swap_chain_format) {
            Ok(format) => match get_pipeline_blend(color_value, "color_blend") {
                Ok(color_blend) => match get_pipeline_blend(color_value, "alpha_blend") {
                    Ok(alpha_blend) => Ok(ColorState { format, color_blend, alpha_blend }),
                    Err(e) => Err(e),
                },
                Err(e) => Err(e),
            },
            Err(e) => Err(e),
        },
        Err(e) => Err(e),
    }
}

/// The color targets of a list of color-state values, in order.
pub open spec fn spec_color_states_list(
    items: Seq<JsonValue>,
    swap_chain_format: TextureFormat,
) -> Result<Seq<ColorState>, ConfigError>
    decreases items.len(),
{
    if items.len() == 0 {
        Ok(Seq::empty())
    } else {
        match spec_color_state(items[0], swap_chain_format) {
            Ok(state) => match spec_color_states_list(items.drop_first(), swap_chain_format) {
                Ok(rest) => Ok(seq![state] + rest),
                Err(e) => Err(e),
            },
            Err(e) => Err(e),
        }
    }
}

/// The color targets of a pipeline document: absent or null means none.
pub open spec fn spec_color_states(doc: JsonValue, swap_chain_format: TextureFormat) -> Result<
    Seq<ColorState>,
    ConfigError,
> {
    match spec_get_field(doc, "color_states"@) {
        None => Ok(Seq::empty()),
        Some(JsonValue::Null) => Ok(Seq::empty()),
        Some(JsonValue::Arr(items)) => spec_color_states_list(items@, swap_chain_format),
        Some(_) => Err(ConfigError::WrongFieldType),
    }
}

fn color_states_from(
    items: &Vec<JsonValue>,
    i: usize,
    swap_chain_format: TextureFormat,
) -> (r: Result<Vec<ColorState>, ConfigError>)
    requires
        i <= items@.len(),
    ensures
        match r {
            Ok(v) => spec_color_states_list(items@.skip(i as int), swap_chain_format) == Ok::<
                Seq<ColorState>,
                ConfigError,
            >(v@),
            Err(e) => spec_color_states_list(items@.skip(i as int), swap_chain_format) == Err::<
                Seq<ColorState>,
                ConfigError,
            >(e),
        },
    decreases items@.len() - i,
{
    if i == items.len() {
        let empty: Vec<ColorState> = Vec::new();
        Ok(empty)
    } else {
        proof {
            assert(items@.skip(i as int).drop_first() =~= items@.skip(i as int + 1));
        }
        match parse_color_state(&items[i], swap_chain_format) {
            Ok(state) => match color_states_from(items, i + 1, swap_chain_format) {
                Ok(mut rest) => {
                    let ghost prev = rest@;
                    rest.insert(0, state);
                    proof {
                        assert(rest@ =~= seq![state] + prev);
                    }
                    Ok(rest)
                },
                Err(e) => Err(e),
            },
            Err(e) => Err(e),
        }
    }
}

/// Resolves a pipeline document's color targets.
pub fn get_pipeline_color_states(
    doc: &JsonValue,
    swap_chain_format: TextureFormat,
) -> (r: Result<Vec<ColorState>, ConfigError>)
    ensures
        match r {
            Ok(v) => spec_color_states(*doc, swap_chain_format) == Ok::<
                Seq<ColorState>,
                ConfigError,
            >(v@),
            Err(e) => spec_color_states(*doc, swap_chain_format) == Err::<
                Seq<ColorState>,
                ConfigError,
            >(e),
        },
{
    match get_field(doc, "color_states") {
        None => {
            let empty: Vec<ColorState> = Vec::new();
            Ok(empty)
        },
        Some(JsonValue::Null) => {
            let empty: Vec<ColorState> = Vec::new();
            Ok(empty)
        },
        Some(JsonValue::Arr(items)) => {
            proof {
                assert(items@.skip(0) =~= items@);
            }
            color_states_from(items, 0, swap_chain_format)
        },
        Some(_) => Err(ConfigError::WrongFieldType),
    }
}



/// Shape of one preset vertex buffer stream: its stride and its attributes.
pub open spec fn spec_vertex_preset(name: Seq<char>) -> Result<
    Seq<(u64, Seq<VertexAttributeDescriptor>)>,
    ConfigError,
> {
    if name == "position_normal"@ {
        Ok(
            seq![
                (
                    12u64,
                    seq![
                        VertexAttributeDescriptor {
                            offset: 0,
                            shader_location: 0,
                            format: VertexFormat::Float3,
                        },
                    ],
                ),
                (
                    12u64,
                    seq![
                        VertexAttributeDescriptor {
                            offset: 0,
                            shader_location: 1,
                            format: VertexFormat::Float3,
                        },
                    ],
                ),
            ],
        )
    } else if name == "position"@ {
        Ok(
            seq![
                (
                    12u64,
                    seq![
                        VertexAttributeDescriptor {
                            offset: 0,
                            shader_location: 0,
                            format: VertexFormat::Float3,
                        },
                    ],
                ),
            ],
        )
    } else if name == "none"@ {
        Ok(Seq::empty())
    } else {
        Err(ConfigError::UnknownVertexLayout)
    }
}

/// Whether a list of vertex buffer descriptors has exactly the shape a
/// preset prescribes.
pub open spec fn vertex_buffers_match(
    v: Seq<VertexBufferDescriptor>,
    shape: Seq<(u64, Seq<VertexAttributeDescriptor>)>,
) -> bool {
    &&& v.len() == shape.len()
    &&& forall|i: int|
        0 <= i < v.len() ==> #[trigger] v[i].stride == shape[i].0 && v[i].attributes@ == shape[i].1
}

/// Builds the vertex buffer layout a preset names: `"position_normal"` is two
/// single-attribute streams, `"position"` one, `"none"` no stream at all.
pub fn get_vertex_attribute_descriptors(name: &str) -> (r: Result<
    Vec<VertexBufferDescriptor>,
    ConfigError,
>)
    ensures
        match r {
            Ok(v) => spec_vertex_preset(name@) matches Ok(shape) && vertex_buffers_match(
                v@,
                shape,
            ),
            Err(e) => spec_vertex_preset(name@) == Err::<
                Seq<(u64, Seq<VertexAttributeDescriptor>)>,
                ConfigError,
            >(e),
        },
{
    if str_eq(name, "position_normal") {
        let first = VertexBufferDescriptor {
            stride: 12,
            attributes: vec![
                VertexAttributeDescriptor {
                    offset: 0,
                    shader_location: 0,
                    format: VertexFormat::Float3,
                },
            ],
        };
        let second = VertexBufferDescriptor {
            stride: 12,
            attributes: vec![
                VertexAttributeDescriptor {
                    offset: 0,
                    shader_location: 1,
                    format: VertexFormat::Float3,
                },
            ],
        };
        let buffers = vec![first, second];
        proof {
            let shape = spec_vertex_preset(name@)->Ok_0;
            assert(buffers@[0].attributes@ =~= shape[0].1);
            assert(buffers@[1].attributes@ =~= shape[1].1);
        }
        Ok(buffers)
    } else if str_eq(name, "position") {
        let first = VertexBufferDescriptor {
            stride: 12,
            attributes: vec![
                VertexAttributeDescriptor {
                    offset: 0,
                    shader_location: 0,
                    format: VertexFormat::Float3,
                },
            ],
        };
        let buffers = vec![first];
        proof {
            let shape = spec_vertex_preset(name@)->Ok_0;
            assert(buffers@[0].attributes@ =~= shape[0].1);
        }
        Ok(buffers)
    } else if str_eq(name, "none") {
        let buffers: Vec<VertexBufferDescriptor> = Vec::new();
        Ok(buffers)
    } else {
        Err(ConfigError::UnknownVertexLayout)
    }
}

/// The shader name of stage object `stage` (`"vertex"` or `"compute"`) of a
/// pipeline document.
pub open spec fn spec_stage_shader_name(doc: JsonValue, stage: Seq<char>) -> Result<
    String,
    ConfigError,
> {
    match spec_get_field(doc, stage) {
        Some(stage_value) => spec_str_field(stage_value, "shader_name"@),
        None => Err(ConfigError::MissingField),
    }
}

/// Executable twin of [`spec_stage_shader_name`]; clones the name out of the
/// document.
pub fn stage_shader_name(doc: &JsonValue, stage: &str) -> (r: Result<String, ConfigError>)
    ensures
        r == spec_stage_shader_name(*doc, stage@),
{
    match get_field(doc, stage) {
        Some(stage_value) => match str_field(stage_value, "shader_name") {
            Ok(s) => Ok(s.clone()),
            Err(e) => Err(e),
        },
        None => Err(ConfigError::MissingField),
    }
}

/// The optional fragment shader name: an absent or null `"fragment"` field
/// means the pipeline has no fragment stage.
pub open spec fn spec_fragment_shader_name(doc: JsonValue) -> Result<Option<String>, ConfigError> {
    match spec_get_field(doc, "fragment"@) {
        None => Ok(None),
        Some(JsonValue::Null) => Ok(None),
        Some(fragment_value) => match spec_str_field(fragment_value, "shader_name"@) {
            Ok(s) => Ok(Some(s)),
            Err(e) => Err(e),
        },
    }
}

/// Executable twin of [`spec_fragment_shader_name`].
pub fn fragment_shader_name(doc: &JsonValue) -> (r: Result<Option<String>, ConfigError>)
    ensures
        r == spec_fragment_shader_name(*doc),
{
    match get_field(doc, "fragment") {
        None => Ok(None),
        Some(JsonValue::Null) => Ok(None),
        Some(fragment_value) => match str_field(fragment_value, "shader_name") {
            Ok(s) => Ok(Some(s.clone())),
            Err(e) => Err(e),
        },
    }
}

/// The vertex-state preset name of a pipeline document.
pub open spec fn spec_vertex_state_name(doc: JsonValue) -> Result<String, ConfigError> {
    match spec_get_field(doc, "vertex_state"@) {
        Some(state_value) => spec_str_field(state_value, "type"@),
        None => Err(ConfigError::MissingField),
    }
}

/// Everything a raster pipeline needs before its shader stages and layouts
/// are resolved against the managers.
#[derive(PartialEq, Debug)]
pub struct RasterPipelineDescriptor {
    pub vertex_shader_name: String,
    pub fragment_shader_name: Option<String>,
    pub rasterization_state: RasterizationState,
    pub primitive_topology: PrimitiveTopology,
    pub color_states: Vec<ColorState>,
    pub depth_state: Option<DepthStencilState>,
    pub vertex_buffers: Vec<VertexBufferDescriptor>,
    pub layout_path: String,
}

/// Everything a compute pipeline needs before resolution.
#[derive(PartialEq, Debug)]
pub struct ComputePipelineDescriptor {
    pub compute_shader_name: String,
    pub layout_path: String,
}

/// A parsed pipeline document.
#[derive(PartialEq, Debug)]
pub enum PipelineDescriptor {
    Raster(RasterPipelineDescriptor),
    Compute(ComputePipelineDescriptor),
}

/// The first error a raster pipeline document yields, in the order the
/// fields are read; `None` when the document parses.
pub open spec fn spec_raster_parse_error(
    doc: JsonValue,
    swap_chain_format: TextureFormat,
    default_depth_format: TextureFormat,
) -> Option<ConfigError> {
    match spec_stage_shader_name(doc, "vertex"@) {
        Err(e) => Some(e),
        Ok(_) => match spec_fragment_shader_name(doc) {
            Err(e) => Some(e),
            Ok(_) => match spec_raster_state(doc) {
                Err(e) => Some(e),
                Ok(_) => match spec_depth_state(doc, default_depth_format) {
                    Err(e) => Some(e),
                    Ok(_) => match spec_topology(doc) {
                        Err(e) => Some(e),
                        Ok(_) => match spec_color_states(doc, swap_chain_format) {
                            Err(e) => Some(e),
                            Ok(_) => match spec_str_field(doc, "layout"@) {
                                Err(e) => Some(e),
                                Ok(_) => match spec_vertex_state_name(doc) {
                                    Err(e) => Some(e),
                                    Ok(name) => match spec_vertex_preset(name@) {
                                        Err(e) => Some(e),
                                        Ok(_) => None,
                                    },
                                },
                            },
                        },
                    },
                },
            },
        },
    }
}

/// Whether a raster descriptor is exactly what the document describes.
pub open spec fn raster_descriptor_matches(
    doc: JsonValue,
    swap_chain_format: TextureFormat,
    default_depth_format: TextureFormat,
    d: RasterPipelineDescriptor,
) -> bool {
    &&& spec_stage_shader_name(doc, "vertex"@) == Ok::<String, ConfigError>(d.vertex_shader_name)
    &&& spec_fragment_shader_name(doc) == Ok::<Option<String>, ConfigError>(
        d.fragment_shader_name,
    )
    &&& spec_raster_state(doc) == Ok::<RasterizationState, ConfigError>(d.rasterization_state)
    &&& spec_depth_state(doc, default_depth_format) == Ok::<Option<DepthStencilState>, ConfigError>(
        d.depth_state,
    )
    &&& spec_topology(doc) == Ok::<PrimitiveTopology, ConfigError>(d.primitive_topology)
    &&& spec_color_states(doc, swap_chain_format) == Ok::<Seq<ColorState>, ConfigError>(
        d.color_states@,
    )
    &&& spec_str_field(doc, "layout"@) == Ok::<String, ConfigError>(d.layout_path)
    &&& (spec_vertex_state_name(doc) matches Ok(name) && spec_vertex_preset(name@) matches Ok(
        shape,
    ) && vertex_buffers_match(d.vertex_buffers@, shape))
}

/// Parses the raster variant of a pipeline document into its typed
/// descriptor, reading the fields in the order the original file format
/// defines them and stopping at the first error.
pub fn parse_raster_pipeline_descriptor(
    doc: &JsonValue,
    swap_chain_format: TextureFormat,
    default_depth_format: TextureFormat,
) -> (r: Result<RasterPipelineDescriptor, ConfigError>)
    ensures
        match r {
            Ok(d) => raster_descriptor_matches(
                *doc,
                swap_chain_format,
                default_depth_format,
                d,
            ) && (spec_raster_parse_error(*doc, swap_chain_format, default_depth_format) is None),
            Err(e) => spec_raster_parse_error(*doc, swap_chain_format, default_depth_format)
                == Some(e),
        },
{
    let vertex_shader_name = match stage_shader_name(doc, "vertex") {
        Ok(s) => s,
        Err(e) => {
            return Err(e);
        },
    };
    let fragment_shader_name = match fragment_shader_name(doc) {
        Ok(s) => s,
        Err(e) => {
            return Err(e);
        },
    };
    let rasterization_state = match get_pipeline_raster_state(doc) {
        Ok(s) => s,
        Err(e) => {
            return Err(e);
        },
    };
    let depth_state = match get_depth_stencil_state(doc, default_depth_format) {
        Ok(s) => s,
        Err(e) => {
            return Err(e);
        },
    };
    let primitive_topology = match get_primitive_topology(doc) {
        Ok(s) => s,
        Err(e) => {
            return Err(e);
        },
    };
    let color_states = match get_pipeline_color_states(doc, swap_chain_format) {
        Ok(s) => s,
        Err(e) => {
            return Err(e);
        },
    };
    let layout_path = match str_field(doc, "layout") {
        Ok(s) => s.clone(),
        Err(e) => {
            return Err(e);
        },
    };
    let vertex_state_name = match get_field(doc, "vertex_state") {
        Some(state_value) => match str_field(state_value, "type") {
            Ok(s) => s.clone(),
            Err(e) => {
                return Err(e);
            },
        },
        None => {
            return Err(ConfigError::MissingField);
        },
    };
    let vertex_buffers = match get_vertex_attribute_descriptors(vertex_state_name.as_str()) {
        Ok(v) => v,
        Err(e) => {
            return Err(e);
        },
    };
    Ok(RasterPipelineDescriptor {
        vertex_shader_name,
        fragment_shader_name,
        rasterization_state,
        primitive_topology,
        color_states,
        depth_state,
        vertex_buffers,
        layout_path,
    })
}

/// The first error a compute pipeline document yields; `None` when it parses.
pub open spec fn spec_compute_parse_error(doc: JsonValue) -> Option<ConfigError> {
    match spec_stage_shader_name(doc, "compute"@) {
        Err(e) => Some(e),
        Ok(_) => match spec_str_field(doc, "layout"@) {
            Err(e) => Some(e),
            Ok(_) => None,
        },
    }
}

/// Whether a compute descriptor is exactly what the document describes.
pub open spec fn compute_descriptor_matches(doc: JsonValue, d: ComputePipelineDescriptor) -> bool {
    &&& spec_stage_shader_name(doc, "compute"@) == Ok::<String, ConfigError>(
        d.compute_shader_name,
    )
    &&& spec_str_field(doc, "layout"@) == Ok::<String, ConfigError>(d.layout_path)
}

/// Parses the compute variant of a pipeline document.
pub fn parse_compute_pipeline_descriptor(doc: &JsonValue) -> (r: Result<
    ComputePipelineDescriptor,
    ConfigError,
>)
    ensures
        match r {
            Ok(d) => compute_descriptor_matches(*doc, d) && (spec_compute_parse_error(*doc) is None),
            Err(e) => spec_compute_parse_error(*doc) == Some(e),
        },
{
    let compute_shader_name = match stage_shader_name(doc, "compute") {
        Ok(s) => s,
        Err(e) => {
            return Err(e);
        },
    };
    let layout_path = match str_field(doc, "layout") {
        Ok(s) => s.clone(),
        Err(e) => {
            return Err(e);
        },
    };
    Ok(ComputePipelineDescriptor { compute_shader_name, layout_path })
}

/// The `"type"` discriminator of a pipeline document.
pub open spec fn spec_pipeline_type(doc: JsonValue) -> Result<String, ConfigError> {
    spec_str_field(doc, "type"@)
}

/// The first error a pipeline document yields; `None` when it parses.
pub open spec fn spec_pipeline_parse_error(
    doc: JsonValue,
    swap_chain_format: TextureFormat,
    default_depth_format: TextureFormat,
) -> Option<ConfigError> {
    match spec_pipeline_type(doc) {
        Err(e) => Some(e),
        Ok(ty) => if ty@ == "raster"@ {
            spec_raster_parse_error(doc, swap_chain_format, default_depth_format)
        } else if ty@ == "compute"@ {
            spec_compute_parse_error(doc)
        } else {
            Some(ConfigError::UnknownPipelineType)
        },
    }
}

/// Whether a parsed pipeline descriptor is exactly what the document
/// describes, variant included.
pub open spec fn pipeline_descriptor_matches(
    doc: JsonValue,
    swap_chain_format: TextureFormat,
    default_depth_format: TextureFormat,
    d: PipelineDescriptor,
) -> bool {
    match d {
        PipelineDescriptor::Raster(raster) => spec_pipeline_type(doc) matches Ok(ty) && ty@
            == "raster"@ && raster_descriptor_matches(
            doc,
            swap_chain_format,
            default_depth_format,
            raster,
        ),
        PipelineDescriptor::Compute(compute) => spec_pipeline_type(doc) matches Ok(ty) && ty@
            == "compute"@ && compute_descriptor_matches(doc, compute),
    }
}

/// What parsing a pipeline document must return: a descriptor matching the
/// document exactly, or the first error the document yields.
pub open spec fn pipeline_parse_post(
    doc: JsonValue,
    swap_chain_format: TextureFormat,
    default_depth_format: TextureFormat,
    r: Result<PipelineDescriptor, ConfigError>,
) -> bool {
    match r {
        Ok(d) => pipeline_descriptor_matches(doc, swap_chain_format, default_depth_format, d) && (
        spec_pipeline_parse_error(doc, swap_chain_format, default_depth_format) is None),
        Err(e) => spec_pipeline_parse_error(doc, swap_chain_format, default_depth_format) == Some(
            e,
        ),
    }
}

/// Parses a pipeline document, dispatching on its `"type"` discriminator;
/// `"raster"` and `"compute"` are the only pipeline types there are.
pub fn parse_pipeline_descriptor(
    doc: &JsonValue,
    swap_chain_format: TextureFormat,
    default_depth_format: TextureFormat,
) -> (r: Result<PipelineDescriptor, ConfigError>)
    ensures
        pipeline_parse_post(*doc, swap_chain_format, default_depth_format, r),
{
    let pipe_type = match str_field(doc, "type") {
        Ok(s) => s,
        Err(e) => {
            return Err(e);
        },
    };
    if str_eq(pipe_type.as_str(), "raster") {
        match parse_raster_pipeline_descriptor(doc, swap_chain_format, default_depth_format) {
            Ok(d) => Ok(PipelineDescriptor::Raster(d)),
            Err(e) => Err(e),
        }
    } else if str_eq(pipe_type.as_str(), "compute") {
        match parse_compute_pipeline_descriptor(doc) {
            Ok(d) => Ok(PipelineDescriptor::Compute(d)),
            Err(e) => Err(e),
        }
    } else {
        Err(ConfigError::UnknownPipelineType)
    }
}

} // verus!
