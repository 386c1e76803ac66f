//! Error taxonomy.
//!
//! Configuration errors are fatal to a load and never defaulted over; lookup
//! errors are recoverable results a caller treats as a logic error of its
//! own; nothing is retried.

use vstd::prelude::*;

verus! {

/// A malformed or unsupported declarative file: unknown enum string, missing
/// or mistyped field, unsupported format. Fatal to the load that saw it.
#[derive(Clone, Copy, PartialEq, Eq, Structural, Debug)]
pub enum ConfigError {
    /// A required field is absent.
    MissingField,
    /// A field holds a value of the wrong JSON type.
    WrongFieldType,
    /// The `"type"` discriminator of a pipeline file is not `"raster"` or
    /// `"compute"`.
    UnknownPipelineType,
    /// A visibility list names an unknown pipeline stage.
    UnknownVisibility,
    /// A binding entry's `"type"` is outside the closed set.
    UnknownBindingType,
    /// A texture dimension outside the supported set.
    UnknownTextureDimension,
    /// A sampled-component type outside the supported set.
    UnknownComponentType,
    /// A color format string outside the closed set.
    UnknownColorFormat,
    /// A blend mode outside the closed set.
    UnknownBlendMode,
    /// A depth comparison function outside the closed set.
    UnknownCompareFunction,
    /// A depth format other than the `"default"` preset.
    UnknownDepthFormat,
    /// A primitive topology outside the closed set.
    UnknownTopology,
    /// A front-face winding outside the closed set.
    UnknownFrontFace,
    /// A cull mode outside the closed set.
    UnknownCullMode,
    /// A vertex-state preset name outside the closed set.
    UnknownVertexLayout,
    /// An in-range JSON number was expected and an out-of-range one found.
    ValueOutOfRange,
}

/// A handle that a cache cannot serve.
#[derive(Clone, Copy, PartialEq, Eq, Structural, Debug)]
pub enum LookupError {
    /// The handle's value is absent from the cache: a stale or foreign
    /// handle.
    NotFound,
    /// The handle's kind tag (or pipeline sub-tag) is not the one this
    /// resolver serves: a bug in the caller.
    WrongKind,
}

/// Failure of a manager load.
#[derive(Clone, Copy, PartialEq, Eq, Structural, Debug)]
pub enum LoadError {
    /// The declarative file is malformed or unsupported.
    Config(ConfigError),
    /// A shader stage the descriptor requires was not supplied.
    MissingShader,
    /// The manager's counter namespace cannot issue enough fresh handles.
    HandleSpaceExhausted,
}

/// Failure of scene ingestion.
#[derive(Clone, Copy, PartialEq, Eq, Structural, Debug)]
pub enum SceneError {
    /// An index accessor's component type is neither 16-bit nor 32-bit.
    UnsupportedIndexType,
    /// A kept vertex attribute's component type is not the 32-bit float its
    /// format expects.
    UnsupportedAttributeType,
    /// An accessor points at a buffer index the document does not define.
    MissingBuffer,
    /// An index accessor reaches outside its raw buffer.
    IndexDataOutOfBounds,
    /// A vertex attribute's slice reaches outside its raw buffer.
    AttributeOutOfBounds,
    /// An offset, length or count does not fit the mapper's 32-bit fields.
    ValueOutOfRange,
    /// The buffer manager's counter namespace is exhausted.
    HandleSpaceExhausted,
}

} // verus!
