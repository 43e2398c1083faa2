//! The format mapper: pure translation of abstract descriptor enumerations
//! into native Direct3D 11 codes.
//!
//! Every function here is a stateless lookup.  The numeric codes are the
//! native API's own values (DXGI format numbers, `D3D11_BIND_*`,
//! `D3D11_USAGE`, `D3D11_FILTER`, and so on); the library treats them as an
//! opaque vocabulary and proves only that the translation is the stated
//! table.

use vstd::prelude::*;

use crate::types::{
    AaMode, BindFlags, BufferRole, ChannelType, Comparison, FilterMethod, MapAccess, Primitive,
    SurfaceType, Usage, WrapMode,
};

verus! {

/// `D3D11_BIND_VERTEX_BUFFER`.
pub const BIND_VERTEX_BUFFER: u32 = 0x1;

/// `D3D11_BIND_INDEX_BUFFER`.
pub const BIND_INDEX_BUFFER: u32 = 0x2;

/// `D3D11_BIND_CONSTANT_BUFFER`.
pub const BIND_CONSTANT_BUFFER: u32 = 0x4;

/// `D3D11_BIND_SHADER_RESOURCE`.
pub const BIND_SHADER_RESOURCE: u32 = 0x8;

/// `D3D11_BIND_RENDER_TARGET`.
pub const BIND_RENDER_TARGET: u32 = 0x20;

/// `D3D11_BIND_DEPTH_STENCIL`.
pub const BIND_DEPTH_STENCIL: u32 = 0x40;

/// `D3D11_BIND_UNORDERED_ACCESS`.
pub const BIND_UNORDERED_ACCESS: u32 = 0x80;

/// `D3D11_USAGE` values.
pub const USAGE_DEFAULT: u32 = 0;

pub const USAGE_IMMUTABLE: u32 = 1;

pub const USAGE_DYNAMIC: u32 = 2;

pub const USAGE_STAGING: u32 = 3;

/// `D3D11_CPU_ACCESS_FLAG` values.
pub const CPU_ACCESS_WRITE: u32 = 0x10000;

pub const CPU_ACCESS_READ: u32 = 0x20000;

/// `D3D11_RESOURCE_MISC_GENERATE_MIPS`.
pub const MISC_GENERATE_MIPS: u32 = 0x1;

/// `D3D11_RESOURCE_MISC_TEXTURECUBE`.
pub const MISC_TEXTURECUBE: u32 = 0x4;

/// `D3D11_DSV_READ_ONLY_DEPTH`.
pub const DSV_READ_ONLY_DEPTH: u32 = 0x1;

/// `D3D11_DSV_READ_ONLY_STENCIL`.
pub const DSV_READ_ONLY_STENCIL: u32 = 0x2;

/// Native bind-flag word for an abstract bind set (without the
/// role-specific buffer flag).
pub open spec fn spec_map_bind(bind: BindFlags) -> u32 {
    (if bind.render_target {
        BIND_RENDER_TARGET
    } else {
        0
    }) | (if bind.depth_stencil {
        BIND_DEPTH_STENCIL
    } else {
        0
    }) | (if bind.shader_resource {
        BIND_SHADER_RESOURCE
    } else {
        0
    }) | (if bind.unordered_access {
        BIND_UNORDERED_ACCESS
    } else {
        0
    })
}

pub fn map_bind(bind: BindFlags) -> (r: u32)
    ensures
        r == spec_map_bind(bind),
{
    (if bind.render_target {
        BIND_RENDER_TARGET
    } else {
        0
    }) | (if bind.depth_stencil {
        BIND_DEPTH_STENCIL
    } else {
        0
    }) | (if bind.shader_resource {
        BIND_SHADER_RESOURCE
    } else {
        0
    }) | (if bind.unordered_access {
        BIND_UNORDERED_ACCESS
    } else {
        0
    })
}

/// The role-specific native bind flag of a buffer.
pub open spec fn spec_role_bind(role: BufferRole) -> u32 {
    match role {
        BufferRole::Vertex => BIND_VERTEX_BUFFER,
        BufferRole::Index => BIND_INDEX_BUFFER,
        BufferRole::Uniform => BIND_CONSTANT_BUFFER,
    }
}

pub fn role_bind(role: BufferRole) -> (r: u32)
    ensures
        r == spec_role_bind(role),
{
    match role {
        BufferRole::Vertex => BIND_VERTEX_BUFFER,
        BufferRole::Index => BIND_INDEX_BUFFER,
        BufferRole::Uniform => BIND_CONSTANT_BUFFER,
    }
}

/// Native usage class and CPU-access word of an abstract usage.
pub open spec fn spec_map_usage(usage: Usage) -> (u32, u32) {
    match usage {
        Usage::Const => (USAGE_IMMUTABLE, 0u32),
        Usage::GpuOnly => (USAGE_DEFAULT, 0u32),
        Usage::Dynamic => (USAGE_DYNAMIC, CPU_ACCESS_WRITE),
        Usage::CpuOnly(MapAccess::Readable) => (USAGE_STAGING, CPU_ACCESS_READ),
        Usage::CpuOnly(MapAccess::Writable) => (USAGE_STAGING, CPU_ACCESS_WRITE),
        Usage::CpuOnly(MapAccess::ReadWrite) => (
            USAGE_STAGING,
            CPU_ACCESS_READ | CPU_ACCESS_WRITE,
        ),
    }
}

pub fn map_usage(usage: Usage) -> (r: (u32, u32))
    ensures
        r == spec_map_usage(usage),
{
    match usage {
        Usage::Const => (USAGE_IMMUTABLE, 0u32),
        Usage::GpuOnly => (USAGE_DEFAULT, 0u32),
        Usage::Dynamic => (USAGE_DYNAMIC, CPU_ACCESS_WRITE),
        Usage::CpuOnly(MapAccess::Readable) => (USAGE_STAGING, CPU_ACCESS_READ),
        Usage::CpuOnly(MapAccess::Writable) => (USAGE_STAGING, CPU_ACCESS_WRITE),
        Usage::CpuOnly(MapAccess::ReadWrite) => (
            USAGE_STAGING,
            CPU_ACCESS_READ | CPU_ACCESS_WRITE,
        ),
    }
}

/// Total bit width of one texel of a surface.
pub open spec fn spec_surface_bits(s: SurfaceType) -> u16 {
    match s {
        SurfaceType::R4G4B4A4 => 16,
        SurfaceType::R5G5B5A1 => 16,
        SurfaceType::R5G6B5 => 16,
        SurfaceType::R8 => 8,
        SurfaceType::R8G8 => 16,
        SurfaceType::R8G8B8A8 => 32,
        SurfaceType::R10G10B10A2 => 32,
        SurfaceType::R11G11B10 => 32,
        SurfaceType::R16 => 16,
        SurfaceType::R16G16 => 32,
        SurfaceType::R16G16B16A16 => 64,
        SurfaceType::R32 => 32,
        SurfaceType::R32G32 => 64,
        SurfaceType::R32G32B32 => 96,
        SurfaceType::R32G32B32A32 => 128,
        SurfaceType::D16 => 16,
        SurfaceType::D24 => 32,
        SurfaceType::D24S8 => 32,
        SurfaceType::D32 => 32,
    }
}

pub fn surface_bits(s: SurfaceType) -> (r: u16)
    ensures
        r == spec_surface_bits(s),
{
    match s {
        SurfaceType::R4G4B4A4 => 16,
        SurfaceType::R5G5B5A1 => 16,
        SurfaceType::R5G6B5 => 16,
        SurfaceType::R8 => 8,
        SurfaceType::R8G8 => 16,
        SurfaceType::R8G8B8A8 => 32,
        SurfaceType::R10G10B10A2 => 32,
        SurfaceType::R11G11B10 => 32,
        SurfaceType::R16 => 16,
        SurfaceType::R16G16 => 32,
        SurfaceType::R16G16B16A16 => 64,
        SurfaceType::R32 => 32,
        SurfaceType::R32G32 => 64,
        SurfaceType::R32G32B32 => 96,
        SurfaceType::R32G32B32A32 => 128,
        SurfaceType::D16 => 16,
        SurfaceType::D24 => 32,
        SurfaceType::D24S8 => 32,
        SurfaceType::D32 => 32,
    }
}

/// Untyped (typeless where the native API has one) surface format code,
/// used when no channel interpretation is requested at texture creation.
/// Total over the surface domain.
pub open spec fn spec_map_surface(s: SurfaceType) -> u32 {
    match s {
        SurfaceType::R4G4B4A4 => 115,  // B4G4R4A4_UNORM: no typeless variant
        SurfaceType::R5G5B5A1 => 86,  // B5G5R5A1_UNORM: no typeless variant
        SurfaceType::R5G6B5 => 85,  // B5G6R5_UNORM: no typeless variant
        SurfaceType::R8 => 60,  // R8_TYPELESS
        SurfaceType::R8G8 => 48,  // R8G8_TYPELESS
        SurfaceType::R8G8B8A8 => 27,  // R8G8B8A8_TYPELESS
        SurfaceType::R10G10B10A2 => 23,  // R10G10B10A2_TYPELESS
        SurfaceType::R11G11B10 => 26,  // R11G11B10_FLOAT: no typeless variant
        SurfaceType::R16 => 53,  // R16_TYPELESS
        SurfaceType::R16G16 => 33,  // R16G16_TYPELESS
        SurfaceType::R16G16B16A16 => 9,  // R16G16B16A16_TYPELESS
        SurfaceType::R32 => 39,  // R32_TYPELESS
        SurfaceType::R32G32 => 15,  // R32G32_TYPELESS
        SurfaceType::R32G32B32 => 5,  // R32G32B32_TYPELESS
        SurfaceType::R32G32B32A32 => 1,  // R32G32B32A32_TYPELESS
        SurfaceType::D16 => 53,  // R16_TYPELESS
        SurfaceType::D24 => 44,  // R24G8_TYPELESS
        SurfaceType::D24S8 => 44,  // R24G8_TYPELESS
        SurfaceType::D32 => 39,  // R32_TYPELESS
    }
}

pub fn map_surface(s: SurfaceType) -> (r: u32)
    ensures
        r == spec_map_surface(s),
{
    match s {
        SurfaceType::R4G4B4A4 => 115,
        SurfaceType::R5G5B5A1 => 86,
        SurfaceType::R5G6B5 => 85,
        SurfaceType::R8 => 60,
        SurfaceType::R8G8 => 48,
        SurfaceType::R8G8B8A8 => 27,
        SurfaceType::R10G10B10A2 => 23,
        SurfaceType::R11G11B10 => 26,
        SurfaceType::R16 => 53,
        SurfaceType::R16G16 => 33,
        SurfaceType::R16G16B16A16 => 9,
        SurfaceType::R32 => 39,
        SurfaceType::R32G32 => 15,
        SurfaceType::R32G32B32 => 5,
        SurfaceType::R32G32B32A32 => 1,
        SurfaceType::D16 => 53,
        SurfaceType::D24 => 44,
        SurfaceType::D24S8 => 44,
        SurfaceType::D32 => 39,
    }
}

/// Concrete native format for a (surface, channel) pair, or `None` where the
/// pair has no native representation.
///
/// `target` selects the variant a write-capable view (render target or
/// depth-stencil) needs: for depth surfaces that is the depth format itself,
/// while shader-resource views read them through the color-readable
/// equivalent.  Color surfaces resolve the same code either way.  Depth
/// surfaces ignore the channel interpretation.
pub open spec fn spec_map_format(s: SurfaceType, c: ChannelType, target: bool) -> Option<u32> {
    match s {
        SurfaceType::R4G4B4A4 => match c {
            ChannelType::Unorm => Some(115u32),  // B4G4R4A4_UNORM
            _ => None,
        },
        SurfaceType::R5G5B5A1 => match c {
            ChannelType::Unorm => Some(86u32),  // B5G5R5A1_UNORM
            _ => None,
        },
        SurfaceType::R5G6B5 => match c {
            ChannelType::Unorm => Some(85u32),  // B5G6R5_UNORM
            _ => None,
        },
        SurfaceType::R8 => match c {
            ChannelType::Int => Some(64u32),  // R8_SINT
            ChannelType::Uint => Some(62u32),  // R8_UINT
            ChannelType::Inorm => Some(63u32),  // R8_SNORM
            ChannelType::Unorm => Some(61u32),  // R8_UNORM
            _ => None,
        },
        SurfaceType::R8G8 => match c {
            ChannelType::Int => Some(52u32),  // R8G8_SINT
            ChannelType::Uint => Some(50u32),  // R8G8_UINT
            ChannelType::Inorm => Some(51u32),  // R8G8_SNORM
            ChannelType::Unorm => Some(49u32),  // R8G8_UNORM
            _ => None,
        },
        SurfaceType::R8G8B8A8 => match c {
            ChannelType::Int => Some(32u32),  // R8G8B8A8_SINT
            ChannelType::Uint => Some(30u32),  // R8G8B8A8_UINT
            ChannelType::Inorm => Some(31u32),  // R8G8B8A8_SNORM
            ChannelType::Unorm => Some(28u32),  // R8G8B8A8_UNORM
            ChannelType::Srgb => Some(29u32),  // R8G8B8A8_UNORM_SRGB
            _ => None,
        },
        SurfaceType::R10G10B10A2 => match c {
            ChannelType::Uint => Some(25u32),  // R10G10B10A2_UINT
            ChannelType::Unorm => Some(24u32),  // R10G10B10A2_UNORM
            _ => None,
        },
        SurfaceType::R11G11B10 => match c {
            ChannelType::Float => Some(26u32),  // R11G11B10_FLOAT
            _ => None,
        },
        SurfaceType::R16 => match c {
            ChannelType::Int => Some(59u32),  // R16_SINT
            ChannelType::Uint => Some(57u32),  // R16_UINT
            ChannelType::Inorm => Some(58u32),  // R16_SNORM
            ChannelType::Unorm => Some(56u32),  // R16_UNORM
            ChannelType::Float => Some(54u32),  // R16_FLOAT
            _ => None,
        },
        SurfaceType::R16G16 => match c {
            ChannelType::Int => Some(38u32),  // R16G16_SINT
            ChannelType::Uint => Some(36u32),  // R16G16_UINT
            ChannelType::Inorm => Some(37u32),  // R16G16_SNORM
            ChannelType::Unorm => Some(35u32),  // R16G16_UNORM
            ChannelType::Float => Some(34u32),  // R16G16_FLOAT
            _ => None,
        },
        SurfaceType::R16G16B16A16 => match c {
            ChannelType::Int => Some(14u32),  // R16G16B16A16_SINT
            ChannelType::Uint => Some(12u32),  // R16G16B16A16_UINT
            ChannelType::Inorm => Some(13u32),  // R16G16B16A16_SNORM
            ChannelType::Unorm => Some(11u32),  // R16G16B16A16_UNORM
            ChannelType::Float => Some(10u32),  // R16G16B16A16_FLOAT
            _ => None,
        },
        SurfaceType::R32 => match c {
            ChannelType::Int => Some(43u32),  // R32_SINT
            ChannelType::Uint => Some(42u32),  // R32_UINT
            ChannelType::Float => Some(41u32),  // R32_FLOAT
            _ => None,
        },
        SurfaceType::R32G32 => match c {
            ChannelType::Int => Some(18u32),  // R32G32_SINT
            ChannelType::Uint => Some(17u32),  // R32G32_UINT
            ChannelType::Float => Some(16u32),  // R32G32_FLOAT
            _ => None,
        },
        SurfaceType::R32G32B32 => match c {
            ChannelType::Int => Some(8u32),  // R32G32B32_SINT
            ChannelType::Uint => Some(7u32),  // R32G32B32_UINT
            ChannelType::Float => Some(6u32),  // R32G32B32_FLOAT
            _ => None,
        },
        SurfaceType::R32G32B32A32 => match c {
            ChannelType::Int => Some(4u32),  // R32G32B32A32_SINT
            ChannelType::Uint => Some(3u32),  // R32G32B32A32_UINT
            ChannelType::Float => Some(2u32),  // R32G32B32A32_FLOAT
            _ => None,
        },
        SurfaceType::D16 => if target {
            Some(55u32)  // D16_UNORM
        } else {
            Some(56u32)  // R16_UNORM
        },
        SurfaceType::D24 => if target {
            Some(45u32)  // D24_UNORM_S8_UINT
        } else {
            Some(46u32)  // R24_UNORM_X8_TYPELESS
        },
        SurfaceType::D24S8 => if target {
            Some(45u32)  // D24_UNORM_S8_UINT
        } else {
            Some(46u32)  // R24_UNORM_X8_TYPELESS
        },
        SurfaceType::D32 => if target {
            Some(40u32)  // D32_FLOAT
        } else {
            Some(41u32)  // R32_FLOAT
        },
    }
}

pub fn map_format(s: SurfaceType, c: ChannelType, target: bool) -> (r: Option<u32>)
    ensures
        r == spec_map_format(s, c, target),
{
    match s {
        SurfaceType::R4G4B4A4 => match c {
            ChannelType::Unorm => Some(115u32),
            _ => None,
        },
        SurfaceType::R5G5B5A1 => match c {
            ChannelType::Unorm => Some(86u32),
            _ => None,
        },
        SurfaceType::R5G6B5 => match c {
            ChannelType::Unorm => Some(85u32),
            _ => None,
        },
        SurfaceType::R8 => match c {
            ChannelType::Int => Some(64u32),
            ChannelType::Uint => Some(62u32),
            ChannelType::Inorm => Some(63u32),
            ChannelType::Unorm => Some(61u32),
            _ => None,
        },
        SurfaceType::R8G8 => match c {
            ChannelType::Int => Some(52u32),
            ChannelType::Uint => Some(50u32),
            ChannelType::Inorm => Some(51u32),
            ChannelType::Unorm => Some(49u32),
            _ => None,
        },
        SurfaceType::R8G8B8A8 => match c {
            ChannelType::Int => Some(32u32),
            ChannelType::Uint => Some(30u32),
            ChannelType::Inorm => Some(31u32),
            ChannelType::Unorm => Some(28u32),
            ChannelType::Srgb => Some(29u32),
            _ => None,
        },
        SurfaceType::R10G10B10A2 => match c {
            ChannelType::Uint => Some(25u32),
            ChannelType::Unorm => Some(24u32),
            _ => None,
        },
        SurfaceType::R11G11B10 => match c {
            ChannelType::Float => Some(26u32),
            _ => None,
        },
        SurfaceType::R16 => match c {
            ChannelType::Int => Some(59u32),
            ChannelType::Uint => Some(57u32),
            ChannelType::Inorm => Some(58u32),
            ChannelType::Unorm => Some(56u32),
            ChannelType::Float => Some(54u32),
            _ => None,
        },
        SurfaceType::R16G16 => match c {
            ChannelType::Int => Some(38u32),
            ChannelType::Uint => Some(36u32),
            ChannelType::Inorm => Some(37u32),
            ChannelType::Unorm => Some(35u32),
            ChannelType::Float => Some(34u32),
            _ => None,
        },
        SurfaceType::R16G16B16A16 => match c {
            ChannelType::Int => Some(14u32),
            ChannelType::Uint => Some(12u32),
            ChannelType::Inorm => Some(13u32),
            ChannelType::Unorm => Some(11u32),
            ChannelType::Float => Some(10u32),
            _ => None,
        },
        SurfaceType::R32 => match c {
            ChannelType::Int => Some(43u32),
            ChannelType::Uint => Some(42u32),
            ChannelType::Float => Some(41u32),
            _ => None,
        },
        SurfaceType::R32G32 => match c {
            ChannelType::Int => Some(18u32),
            ChannelType::Uint => Some(17u32),
            ChannelType::Float => Some(16u32),
            _ => None,
        },
        SurfaceType::R32G32B32 => match c {
            ChannelType::Int => Some(8u32),
            ChannelType::Uint => Some(7u32),
            ChannelType::Float => Some(6u32),
            _ => None,
        },
        SurfaceType::R32G32B32A32 => match c {
            ChannelType::Int => Some(4u32),
            ChannelType::Uint => Some(3u32),
            ChannelType::Float => Some(2u32),
            _ => None,
        },
        SurfaceType::D16 => if target {
            Some(55u32)
        } else {
            Some(56u32)
        },
        SurfaceType::D24 => if target {
            Some(45u32)
        } else {
            Some(46u32)
        },
        SurfaceType::D24S8 => if target {
            Some(45u32)
        } else {
            Some(46u32)
        },
        SurfaceType::D32 => if target {
            Some(40u32)
        } else {
            Some(41u32)
        },
    }
}

/// A native multisampling descriptor: sample count and quality word.
#[derive(Clone, Copy, Debug, PartialEq, Eq, Structural)]
pub struct SampleDesc {
    pub count: u32,
    pub quality: u32,
}

/// Native multisampling descriptor of an anti-aliasing mode.  Coverage
/// sampling encodes the coverage sample count in the quality word.
pub open spec fn spec_map_anti_alias(aa: AaMode) -> SampleDesc {
    match aa {
        AaMode::Single => SampleDesc { count: 1u32, quality: 0u32 },
        AaMode::Multi(s) => SampleDesc { count: s as u32, quality: 0u32 },
        AaMode::Coverage(s, f) => SampleDesc { count: s as u32, quality: f as u32 },
    }
}

pub fn map_anti_alias(aa: AaMode) -> (r: SampleDesc)
    ensures
        r == spec_map_anti_alias(aa),
{
    match aa {
        AaMode::Single => SampleDesc { count: 1u32, quality: 0u32 },
        AaMode::Multi(s) => SampleDesc { count: s as u32, quality: 0u32 },
        AaMode::Coverage(s, f) => SampleDesc { count: s as u32, quality: f as u32 },
    }
}

/// Whether a sampler filters plainly or compares against a reference value.
#[derive(Clone, Copy, Debug, PartialEq, Eq, Structural)]
pub enum FilterOp {
    Product,
    Comparison,
}

/// Native filter code.  The comparison variants sit `0x80` above the plain
/// ones, as in the native encoding.
pub open spec fn spec_map_filter(filter: FilterMethod, op: FilterOp) -> u32 {
    let base: u32 = match filter {
        FilterMethod::Scale => 0x00u32,  // MIN_MAG_MIP_POINT
        FilterMethod::Mipmap => 0x01u32,  // MIN_MAG_POINT_MIP_LINEAR
        FilterMethod::Bilinear => 0x14u32,  // MIN_MAG_LINEAR_MIP_POINT
        FilterMethod::Trilinear => 0x15u32,  // MIN_MAG_MIP_LINEAR
        FilterMethod::Anisotropic(_) => 0x55u32,  // ANISOTROPIC
    };
    if op is Comparison {
        (base + 0x80) as u32
    } else {
        base
    }
}

pub fn map_filter(filter: FilterMethod, op: FilterOp) -> (r: u32)
    ensures
        r == spec_map_filter(filter, op),
{
    let base: u32 = match filter {
        FilterMethod::Scale => 0x00u32,
        FilterMethod::Mipmap => 0x01u32,
        FilterMethod::Bilinear => 0x14u32,
        FilterMethod::Trilinear => 0x15u32,
        FilterMethod::Anisotropic(_) => 0x55u32,
    };
    if matches!(op, FilterOp::Comparison) {
        base + 0x80
    } else {
        base
    }
}

/// Native texture-address mode.
pub open spec fn spec_map_wrap(w: WrapMode) -> u32 {
    match w {
        WrapMode::Tile => 1u32,  // D3D11_TEXTURE_ADDRESS_WRAP
        WrapMode::Mirror => 2u32,  // D3D11_TEXTURE_ADDRESS_MIRROR
        WrapMode::Clamp => 3u32,  // D3D11_TEXTURE_ADDRESS_CLAMP
        WrapMode::Border => 4u32,  // D3D11_TEXTURE_ADDRESS_BORDER
    }
}

pub fn map_wrap(w: WrapMode) -> (r: u32)
    ensures
        r == spec_map_wrap(w),
{
    match w {
        WrapMode::Tile => 1u32,
        WrapMode::Mirror => 2u32,
        WrapMode::Clamp => 3u32,
        WrapMode::Border => 4u32,
    }
}

/// Native comparison-function code.
pub open spec fn spec_map_function(f: Comparison) -> u32 {
    match f {
        Comparison::Never => 1u32,
        Comparison::Less => 2u32,
        Comparison::Equal => 3u32,
        Comparison::LessEqual => 4u32,
        Comparison::Greater => 5u32,
        Comparison::NotEqual => 6u32,
        Comparison::GreaterEqual => 7u32,
        Comparison::Always => 8u32,
    }
}

pub fn map_function(f: Comparison) -> (r: u32)
    ensures
        r == spec_map_function(f),
{
    match f {
        Comparison::Never => 1u32,
        Comparison::Less => 2u32,
        Comparison::Equal => 3u32,
        Comparison::LessEqual => 4u32,
        Comparison::Greater => 5u32,
        Comparison::NotEqual => 6u32,
        Comparison::GreaterEqual => 7u32,
        Comparison::Always => 8u32,
    }
}

/// Native primitive-topology code.  The mapping is exhaustive: there is no
/// default fallback.
pub open spec fn spec_map_topology(p: Primitive) -> u32 {
    match p {
        Primitive::PointList => 1u32,
        Primitive::LineList => 2u32,
        Primitive::LineStrip => 3u32,
        Primitive::TriangleList => 4u32,
        Primitive::TriangleStrip => 5u32,
    }
}

pub fn map_topology(p: Primitive) -> (r: u32)
    ensures
        r == spec_map_topology(p),
{
    match p {
        Primitive::PointList => 1u32,
        Primitive::LineList => 2u32,
        Primitive::LineStrip => 3u32,
        Primitive::TriangleList => 4u32,
        Primitive::TriangleStrip => 5u32,
    }
}

/// Native read-only flag word of a depth-stencil view.
pub open spec fn spec_map_dsv_flags(read_only_depth: bool, read_only_stencil: bool) -> u32 {
    (if read_only_depth {
        DSV_READ_ONLY_DEPTH
    } else {
        0
    }) | (if read_only_stencil {
        DSV_READ_ONLY_STENCIL
    } else {
        0
    })
}

pub fn map_dsv_flags(read_only_depth: bool, read_only_stencil: bool) -> (r: u32)
    ensures
        r == spec_map_dsv_flags(read_only_depth, read_only_stencil),
{
    (if read_only_depth {
        DSV_READ_ONLY_DEPTH
    } else {
        0
    }) | (if read_only_stencil {
        DSV_READ_ONLY_STENCIL
    } else {
        0
    })
}

} // verus!
