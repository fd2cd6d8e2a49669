pub mod device;
pub mod display;
pub mod guard;

use vstd::prelude::*;

use crate::native_enum::NativeParsingError;

pub use device::{
    GraphicsDevice, GraphicsEffect, GraphicsEffectParam, GraphicsEffectTextureParam,
    GraphicsEffectVec2Param, GraphicsSamplerState, GraphicsTexture, MappedTexture,
};
pub use display::{
    draw_callback, Color, DisplayRef, DrawCallback, DrawCallbackId, RenderMainTexture,
};
pub use guard::{GraphicsGuard, GraphicsLock};

verus! {

/// The type of a parameter of an effect.
#[derive(Debug, Clone, Copy, PartialEq, Eq, Structural)]
pub enum ShaderParamType {
    Unknown,
    Bool,
    Float,
    Int,
    String,
    Vec2,
    Vec3,
    Vec4,
    Int2,
    Int3,
    Int4,
    Mat4,
    Texture,
}

impl ShaderParamType {
    /// The host's number for the variant.
    pub open spec fn native(&self) -> u32 {
        match self {
            ShaderParamType::Unknown => 0,
            ShaderParamType::Bool => 1,
            ShaderParamType::Float => 2,
            ShaderParamType::Int => 3,
            ShaderParamType::String => 4,
            ShaderParamType::Vec2 => 5,
            ShaderParamType::Vec3 => 6,
            ShaderParamType::Vec4 => 7,
            ShaderParamType::Int2 => 8,
            ShaderParamType::Int3 => 9,
            ShaderParamType::Int4 => 10,
            ShaderParamType::Mat4 => 11,
            ShaderParamType::Texture => 12,
        }
    }

    /// The variant that the host numbers `value`, if there is one.
    pub open spec fn of_native(value: u32) -> Option<ShaderParamType> {
        if value == 0 {
            Some(ShaderParamType::Unknown)
        } else if value == 1 {
            Some(ShaderParamType::Bool)
        } else if value == 2 {
            Some(ShaderParamType::Float)
        } else if value == 3 {
            Some(ShaderParamType::Int)
        } else if value == 4 {
            Some(ShaderParamType::String)
        } else if value == 5 {
            Some(ShaderParamType::Vec2)
        } else if value == 6 {
            Some(ShaderParamType::Vec3)
        } else if value == 7 {
            Some(ShaderParamType::Vec4)
        } else if value == 8 {
            Some(ShaderParamType::Int2)
        } else if value == 9 {
            Some(ShaderParamType::Int3)
        } else if value == 10 {
            Some(ShaderParamType::Int4)
        } else if value == 11 {
            Some(ShaderParamType::Mat4)
        } else if value == 12 {
            Some(ShaderParamType::Texture)
        } else {
            None
        }
    }

    #[verifier::when_used_as_spec(native)]
    pub fn as_raw(&self) -> (r: u32)
        ensures
            r == self.native(),
            ShaderParamType::of_native(r) == Some(*self),
    {
        match self {
            ShaderParamType::Unknown => 0,
            ShaderParamType::Bool => 1,
            ShaderParamType::Float => 2,
            ShaderParamType::Int => 3,
            ShaderParamType::String => 4,
            ShaderParamType::Vec2 => 5,
            ShaderParamType::Vec3 => 6,
            ShaderParamType::Vec4 => 7,
            ShaderParamType::Int2 => 8,
            ShaderParamType::Int3 => 9,
            ShaderParamType::Int4 => 10,
            ShaderParamType::Mat4 => 11,
            ShaderParamType::Texture => 12,
        }
    }

    /// Reads the host's number; the error carries a number that names no variant.
    pub fn from_raw(value: u32) -> (r: Result<Self, NativeParsingError>)
        ensures
            r is Ok <==> ShaderParamType::of_native(value) is Some,
            r matches Ok(v) ==> Some(v) == ShaderParamType::of_native(value) && v.native() == value,
            r matches Err(e) ==> e.spec_value() == value as i64 && e.spec_struct_name()
                == "ShaderParamType",
    {
        match value {
            0 => Ok(ShaderParamType::Unknown),
            1 => Ok(ShaderParamType::Bool),
            2 => Ok(ShaderParamType::Float),
            3 => Ok(ShaderParamType::Int),
            4 => Ok(ShaderParamType::String),
            5 => Ok(ShaderParamType::Vec2),
            6 => Ok(ShaderParamType::Vec3),
            7 => Ok(ShaderParamType::Vec4),
            8 => Ok(ShaderParamType::Int2),
            9 => Ok(ShaderParamType::Int3),
            10 => Ok(ShaderParamType::Int4),
            11 => Ok(ShaderParamType::Mat4),
            12 => Ok(ShaderParamType::Texture),
            _ => Err(NativeParsingError::new("ShaderParamType", value as i64)),
        }
    }
}

/// How a sampler treats coordinates outside the texture.
#[derive(Debug, Clone, Copy, PartialEq, Eq, Structural)]
pub enum GraphicsAddressMode {
    Clamp,
    Wrap,
    Mirror,
    Border,
    MirrorOnce,
}

impl GraphicsAddressMode {
    /// The host's number for the variant.
    pub open spec fn native(&self) -> u32 {
        match self {
            GraphicsAddressMode::Clamp => 0,
            GraphicsAddressMode::Wrap => 1,
            GraphicsAddressMode::Mirror => 2,
            GraphicsAddressMode::Border => 3,
            GraphicsAddressMode::MirrorOnce => 4,
        }
    }

    /// The variant that the host numbers `value`, if there is one.
    pub open spec fn of_native(value: u32) -> Option<GraphicsAddressMode> {
        if value == 0 {
            Some(GraphicsAddressMode::Clamp)
        } else if value == 1 {
            Some(GraphicsAddressMode::Wrap)
        } else if value == 2 {
            Some(GraphicsAddressMode::Mirror)
        } else if value == 3 {
            Some(GraphicsAddressMode::Border)
        } else if value == 4 {
            Some(GraphicsAddressMode::MirrorOnce)
        } else {
            None
        }
    }

    #[verifier::when_used_as_spec(native)]
    pub fn as_raw(&self) -> (r: u32)
        ensures
            r == self.native(),
            GraphicsAddressMode::of_native(r) == Some(*self),
    {
        match self {
            GraphicsAddressMode::Clamp => 0,
            GraphicsAddressMode::Wrap => 1,
            GraphicsAddressMode::Mirror => 2,
            GraphicsAddressMode::Border => 3,
            GraphicsAddressMode::MirrorOnce => 4,
        }
    }

    /// Reads the host's number; the error carries a number that names no variant.
    pub fn from_raw(value: u32) -> (r: Result<Self, NativeParsingError>)
        ensures
            r is Ok <==> GraphicsAddressMode::of_native(value) is Some,
            r matches Ok(v) ==> Some(v) == GraphicsAddressMode::of_native(value)
                && v.native() == value,
            r matches Err(e) ==> e.spec_value() == value as i64 && e.spec_struct_name()
                == "GraphicsAddressMode",
    {
        match value {
            0 => Ok(GraphicsAddressMode::Clamp),
            1 => Ok(GraphicsAddressMode::Wrap),
            2 => Ok(GraphicsAddressMode::Mirror),
            3 => Ok(GraphicsAddressMode::Border),
            4 => Ok(GraphicsAddressMode::MirrorOnce),
            _ => Err(NativeParsingError::new("GraphicsAddressMode", value as i64)),
        }
    }
}

/// How a sampler filters when the texture is scaled.
#[derive(Debug, Clone, Copy, PartialEq, Eq, Structural)]
pub enum GraphicsSampleFilter {
    Point,
    Linear,
    Anisotropic,
    MinMagPointMipLinear,
    MinPointMagLinearMipPoint,
    MinPointMagMipLinear,
    MinLinearMapMipPoint,
    MinLinearMagPointMipLinear,
    MinMagLinearMipPoint,
}

impl GraphicsSampleFilter {
    /// The host's number for the variant.
    pub open spec fn native(&self) -> u32 {
        match self {
            GraphicsSampleFilter::Point => 0,
            GraphicsSampleFilter::Linear => 1,
            GraphicsSampleFilter::Anisotropic => 2,
            GraphicsSampleFilter::MinMagPointMipLinear => 3,
            GraphicsSampleFilter::MinPointMagLinearMipPoint => 4,
            GraphicsSampleFilter::MinPointMagMipLinear => 5,
            GraphicsSampleFilter::MinLinearMapMipPoint => 6,
            GraphicsSampleFilter::MinLinearMagPointMipLinear => 7,
            GraphicsSampleFilter::MinMagLinearMipPoint => 8,
        }
    }

    /// The variant that the host numbers `value`, if there is one.
    pub open spec fn of_native(value: u32) -> Option<GraphicsSampleFilter> {
        if value == 0 {
            Some(GraphicsSampleFilter::Point)
        } else if value == 1 {
            Some(GraphicsSampleFilter::Linear)
        } else if value == 2 {
            Some(GraphicsSampleFilter::Anisotropic)
        } else if value == 3 {
            Some(GraphicsSampleFilter::MinMagPointMipLinear)
        } else if value == 4 {
            Some(GraphicsSampleFilter::MinPointMagLinearMipPoint)
        } else if value == 5 {
            Some(GraphicsSampleFilter::MinPointMagMipLinear)
        } else if value == 6 {
            Some(GraphicsSampleFilter::MinLinearMapMipPoint)
        } else if value == 7 {
            Some(GraphicsSampleFilter::MinLinearMagPointMipLinear)
        } else if value == 8 {
            Some(GraphicsSampleFilter::MinMagLinearMipPoint)
        } else {
            None
        }
    }

    #[verifier::when_used_as_spec(native)]
    pub fn as_raw(&self) -> (r: u32)
        ensures
            r == self.native(),
            GraphicsSampleFilter::of_native(r) == Some(*self),
    {
        match self {
            GraphicsSampleFilter::Point => 0,
            GraphicsSampleFilter::Linear => 1,
            GraphicsSampleFilter::Anisotropic => 2,
            GraphicsSampleFilter::MinMagPointMipLinear => 3,
            GraphicsSampleFilter::MinPointMagLinearMipPoint => 4,
            GraphicsSampleFilter::MinPointMagMipLinear => 5,
            GraphicsSampleFilter::MinLinearMapMipPoint => 6,
            GraphicsSampleFilter::MinLinearMagPointMipLinear => 7,
            GraphicsSampleFilter::MinMagLinearMipPoint => 8,
        }
    }

    /// Reads the host's number; the error carries a number that names no variant.
    pub fn from_raw(value: u32) -> (r: Result<Self, NativeParsingError>)
        ensures
            r is Ok <==> GraphicsSampleFilter::of_native(value) is Some,
            r matches Ok(v) ==> Some(v) == GraphicsSampleFilter::of_native(value)
                && v.native() == value,
            r matches Err(e) ==> e.spec_value() == value as i64 && e.spec_struct_name()
                == "GraphicsSampleFilter",
    {
        match value {
            0 => Ok(GraphicsSampleFilter::Point),
            1 => Ok(GraphicsSampleFilter::Linear),
            2 => Ok(GraphicsSampleFilter::Anisotropic),
            3 => Ok(GraphicsSampleFilter::MinMagPointMipLinear),
            4 => Ok(GraphicsSampleFilter::MinPointMagLinearMipPoint),
            5 => Ok(GraphicsSampleFilter::MinPointMagMipLinear),
            6 => Ok(GraphicsSampleFilter::MinLinearMapMipPoint),
            7 => Ok(GraphicsSampleFilter::MinLinearMagPointMipLinear),
            8 => Ok(GraphicsSampleFilter::MinMagLinearMipPoint),
            _ => Err(NativeParsingError::new("GraphicsSampleFilter", value as i64)),
        }
    }
}

/// The pixel layout of a texture.
#[derive(Debug, Clone, Copy, PartialEq, Eq, Structural)]
pub enum GraphicsColorFormat {
    UNKNOWN,
    A8,
    R8,
    RGBA,
    BGRX,
    BGRA,
    R10G10B10A2,
    RGBA16,
    R16,
    RGBA16F,
    RGBA32F,
    RG16F,
    RG32F,
    R16F,
    R32F,
    DXT1,
    DXT3,
    DXT5,
    R8G8,
}

impl GraphicsColorFormat {
    /// The host's number for the variant.
    pub open spec fn native(&self) -> u32 {
        match self {
            GraphicsColorFormat::UNKNOWN => 0,
            GraphicsColorFormat::A8 => 1,
            GraphicsColorFormat::R8 => 2,
            GraphicsColorFormat::RGBA => 3,
            GraphicsColorFormat::BGRX => 4,
            GraphicsColorFormat::BGRA => 5,
            GraphicsColorFormat::R10G10B10A2 => 6,
            GraphicsColorFormat::RGBA16 => 7,
            GraphicsColorFormat::R16 => 8,
            GraphicsColorFormat::RGBA16F => 9,
            GraphicsColorFormat::RGBA32F => 10,
            GraphicsColorFormat::RG16F => 11,
            GraphicsColorFormat::RG32F => 12,
            GraphicsColorFormat::R16F => 13,
            GraphicsColorFormat::R32F => 14,
            GraphicsColorFormat::DXT1 => 15,
            GraphicsColorFormat::DXT3 => 16,
            GraphicsColorFormat::DXT5 => 17,
            GraphicsColorFormat::R8G8 => 18,
        }
    }

    /// The variant that the host numbers `value`, if there is one.
    pub open spec fn of_native(value: u32) -> Option<GraphicsColorFormat> {
        if value == 0 {
            Some(GraphicsColorFormat::UNKNOWN)
        } else if value == 1 {
            Some(GraphicsColorFormat::A8)
        } else if value == 2 {
            Some(GraphicsColorFormat::R8)
        } else if value == 3 {
            Some(GraphicsColorFormat::RGBA)
        } else if value == 4 {
            Some(GraphicsColorFormat::BGRX)
        } else if value == 5 {
            Some(GraphicsColorFormat::BGRA)
        } else if value == 6 {
            Some(GraphicsColorFormat::R10G10B10A2)
        } else if value == 7 {
            Some(GraphicsColorFormat::RGBA16)
        } else if value == 8 {
            Some(GraphicsColorFormat::R16)
        } else if value == 9 {
            Some(GraphicsColorFormat::RGBA16F)
        } else if value == 10 {
            Some(GraphicsColorFormat::RGBA32F)
        } else if value == 11 {
            Some(GraphicsColorFormat::RG16F)
        } else if value == 12 {
            Some(GraphicsColorFormat::RG32F)
        } else if value == 13 {
            Some(GraphicsColorFormat::R16F)
        } else if value == 14 {
            Some(GraphicsColorFormat::R32F)
        } else if value == 15 {
            Some(GraphicsColorFormat::DXT1)
        } else if value == 16 {
            Some(GraphicsColorFormat::DXT3)
        } else if value == 17 {
            Some(GraphicsColorFormat::DXT5)
        } else if value == 18 {
            Some(GraphicsColorFormat::R8G8)
        } else {
            None
        }
    }

    #[verifier::when_used_as_spec(native)]
    pub fn as_raw(&self) -> (r: u32)
        ensures
            r == self.native(),
            GraphicsColorFormat::of_native(r) == Some(*self),
    {
        match self {
            GraphicsColorFormat::UNKNOWN => 0,
            GraphicsColorFormat::A8 => 1,
            GraphicsColorFormat::R8 => 2,
            GraphicsColorFormat::RGBA => 3,
            GraphicsColorFormat::BGRX => 4,
            GraphicsColorFormat::BGRA => 5,
            GraphicsColorFormat::R10G10B10A2 => 6,
            GraphicsColorFormat::RGBA16 => 7,
            GraphicsColorFormat::R16 => 8,
            GraphicsColorFormat::RGBA16F => 9,
            GraphicsColorFormat::RGBA32F => 10,
            GraphicsColorFormat::RG16F => 11,
            GraphicsColorFormat::RG32F => 12,
            GraphicsColorFormat::R16F => 13,
            GraphicsColorFormat::R32F => 14,
            GraphicsColorFormat::DXT1 => 15,
            GraphicsColorFormat::DXT3 => 16,
            GraphicsColorFormat::DXT5 => 17,
            GraphicsColorFormat::R8G8 => 18,
        }
    }

    /// Reads the host's number; the error carries a number that names no variant.
    pub fn from_raw(value: u32) -> (r: Result<Self, NativeParsingError>)
        ensures
            r is Ok <==> GraphicsColorFormat::of_native(value) is Some,
            r matches Ok(v) ==> Some(v) == GraphicsColorFormat::of_native(value)
                && v.native() == value,
            r matches Err(e) ==> e.spec_value() == value as i64 && e.spec_struct_name()
                == "GraphicsColorFormat",
    {
        match value {
            0 => Ok(GraphicsColorFormat::UNKNOWN),
            1 => Ok(GraphicsColorFormat::A8),
            2 => Ok(GraphicsColorFormat::R8),
            3 => Ok(GraphicsColorFormat::RGBA),
            4 => Ok(GraphicsColorFormat::BGRX),
            5 => Ok(GraphicsColorFormat::BGRA),
            6 => Ok(GraphicsColorFormat::R10G10B10A2),
            7 => Ok(GraphicsColorFormat::RGBA16),
            8 => Ok(GraphicsColorFormat::R16),
            9 => Ok(GraphicsColorFormat::RGBA16F),
            10 => Ok(GraphicsColorFormat::RGBA32F),
            11 => Ok(GraphicsColorFormat::RG16F),
            12 => Ok(GraphicsColorFormat::RG32F),
            13 => Ok(GraphicsColorFormat::R16F),
            14 => Ok(GraphicsColorFormat::R32F),
            15 => Ok(GraphicsColorFormat::DXT1),
            16 => Ok(GraphicsColorFormat::DXT3),
            17 => Ok(GraphicsColorFormat::DXT5),
            18 => Ok(GraphicsColorFormat::R8G8),
            _ => Err(NativeParsingError::new("GraphicsColorFormat", value as i64)),
        }
    }
}

/// Whether a filter may draw its target directly when nothing needs processing.
#[derive(Debug, Clone, Copy, PartialEq, Eq, Structural)]
pub enum GraphicsAllowDirectRendering {
    NoDirectRendering,
    AllowDirectRendering,
}

impl GraphicsAllowDirectRendering {
    /// The host's number for the variant.
    pub open spec fn native(&self) -> u32 {
        match self {
            GraphicsAllowDirectRendering::NoDirectRendering => 0,
            GraphicsAllowDirectRendering::AllowDirectRendering => 1,
        }
    }

    /// The variant that the host numbers `value`, if there is one.
    pub open spec fn of_native(value: u32) -> Option<GraphicsAllowDirectRendering> {
        if value == 0 {
            Some(GraphicsAllowDirectRendering::NoDirectRendering)
        } else if value == 1 {
            Some(GraphicsAllowDirectRendering::AllowDirectRendering)
        } else {
            None
        }
    }

    #[verifier::when_used_as_spec(native)]
    pub fn as_raw(&self) -> (r: u32)
        ensures
            r == self.native(),
            GraphicsAllowDirectRendering::of_native(r) == Some(*self),
    {
        match self {
            GraphicsAllowDirectRendering::NoDirectRendering => 0,
            GraphicsAllowDirectRendering::AllowDirectRendering => 1,
        }
    }

    /// Reads the host's number; the error carries a number that names no variant.
    pub fn from_raw(value: u32) -> (r: Result<Self, NativeParsingError>)
        ensures
            r is Ok <==> GraphicsAllowDirectRendering::of_native(value) is Some,
            r matches Ok(v) ==> Some(v) == GraphicsAllowDirectRendering::of_native(value)
                && v.native() == value,
            r matches Err(e) ==> e.spec_value() == value as i64 && e.spec_struct_name()
                == "GraphicsAllowDirectRendering",
    {
        match value {
            0 => Ok(GraphicsAllowDirectRendering::NoDirectRendering),
            1 => Ok(GraphicsAllowDirectRendering::AllowDirectRendering),
            _ => Err(NativeParsingError::new("GraphicsAllowDirectRendering", value as i64)),
        }
    }
}
/// Proof of being inside the drawing of an effect. Only the bridge makes one.
#[derive(Debug)]
pub struct GraphicsEffectContext {}

impl GraphicsEffectContext {
    pub(crate) fn new() -> Self {
        Self {  }
    }
}

/// Why an effect parameter could not be taken as the type that was asked for.
#[derive(Debug, Clone, Copy, PartialEq, Eq, Structural)]
pub enum GraphicsEffectParamConversionError {
    InvalidType,
}

/// How a sampler reads a texture.
#[derive(Debug, Clone, Copy, PartialEq, Eq, Structural)]
pub struct GraphicsSamplerInfo {
    pub address_u: GraphicsAddressMode,
    pub address_v: GraphicsAddressMode,
    pub address_w: GraphicsAddressMode,
    pub max_anisotropy: i32,
    pub border_color: u32,
    pub filter: GraphicsSampleFilter,
}

impl GraphicsSamplerInfo {
    /// A sampler that clamps on all three axes and filters by point.
    pub fn new() -> (r: Self)
        ensures
            r == (GraphicsSamplerInfo {
                address_u: GraphicsAddressMode::Clamp,
                address_v: GraphicsAddressMode::Clamp,
                address_w: GraphicsAddressMode::Clamp,
                max_anisotropy: 0,
                border_color: 0,
                filter: GraphicsSampleFilter::Point,
            }),
    {
        Self {
            address_u: GraphicsAddressMode::Clamp,
            address_v: GraphicsAddressMode::Clamp,
            address_w: GraphicsAddressMode::Clamp,
            max_anisotropy: 0,
            border_color: 0,
            filter: GraphicsSampleFilter::Point,
        }
    }

    pub fn with_address_u(self, mode: GraphicsAddressMode) -> (r: Self)
        ensures
            r == (GraphicsSamplerInfo { address_u: mode, ..self }),
    {
        let mut info = self;
        info.address_u = mode;
        info
    }

    pub fn with_address_v(self, mode: GraphicsAddressMode) -> (r: Self)
        ensures
            r == (GraphicsSamplerInfo { address_v: mode, ..self }),
    {
        let mut info = self;
        info.address_v = mode;
        info
    }

    pub fn with_address_w(self, mode: GraphicsAddressMode) -> (r: Self)
        ensures
            r == (GraphicsSamplerInfo { address_w: mode, ..self }),
    {
        let mut info = self;
        info.address_w = mode;
        info
    }

    pub fn with_filter(self, mode: GraphicsSampleFilter) -> (r: Self)
        ensures
            r == (GraphicsSamplerInfo { filter: mode, ..self }),
    {
        let mut info = self;
        info.filter = mode;
        info
    }
}

} // verus!
