//! Hardware-agnostic resource descriptors and the error taxonomy of the
//! factory.
//!
//! Descriptors are transient: they are consumed at a creation call and, for
//! textures, retained beside the native object so that view creation can
//! consult the original kind later.

use vstd::prelude::*;

verus! {

/// What a buffer is used for.  The role picks the role-specific native bind
/// flag and, for uniform buffers, the allocation alignment.
#[derive(Clone, Copy, Debug, PartialEq, Eq, Structural)]
pub enum BufferRole {
    Vertex,
    Index,
    Uniform,
}

/// How the CPU intends to access a mapped buffer.
#[derive(Clone, Copy, Debug, PartialEq, Eq, Structural)]
pub enum MapAccess {
    Readable,
    Writable,
    ReadWrite,
}

/// The update class of a resource: immutable, GPU-internal, frequently
/// rewritten by the CPU, or a CPU-side staging resource.
#[derive(Clone, Copy, Debug, PartialEq, Eq, Structural)]
pub enum Usage {
    Const,
    GpuOnly,
    Dynamic,
    CpuOnly(MapAccess),
}

/// The set of pipeline stages a resource may be bound to.
#[derive(Clone, Copy, Debug, PartialEq, Eq, Structural)]
pub struct BindFlags {
    pub render_target: bool,
    pub depth_stencil: bool,
    pub shader_resource: bool,
    pub unordered_access: bool,
}

impl BindFlags {
    /// No bind flag set.
    pub fn none() -> (r: BindFlags)
        ensures
            r == (BindFlags {
                render_target: false,
                depth_stencil: false,
                shader_resource: false,
                unordered_access: false,
            }),
    {
        BindFlags {
            render_target: false,
            depth_stencil: false,
            shader_resource: false,
            unordered_access: false,
        }
    }
}

/// A full buffer description, consumed by buffer creation.
#[derive(Clone, Copy, Debug, PartialEq, Eq, Structural)]
pub struct BufferInfo {
    pub role: BufferRole,
    pub usage: Usage,
    pub bind: BindFlags,
    /// Requested byte size.
    pub size: usize,
    /// Byte stride of one element; index buffers accept only 2 or 4.
    pub stride: usize,
}

/// Why buffer creation failed.
#[derive(Clone, Copy, Debug, PartialEq, Eq, Structural)]
pub enum BufferError {
    /// Render-target or depth-stencil binding was requested on a buffer.
    UnsupportedBind(BindFlags),
    /// Any other failure: a bad index stride, or the device refusing the
    /// allocation.
    Other,
}

/// Anti-aliasing mode of a two-dimensional texture.
#[derive(Clone, Copy, Debug, PartialEq, Eq, Structural)]
pub enum AaMode {
    Single,
    /// Multi-sampled with the given sample count.
    Multi(u8),
    /// Coverage-sample anti-aliasing: (color samples, coverage samples).
    Coverage(u8, u8),
}

impl AaMode {
    /// Whether the mode stores more than one sample per texel.
    pub open spec fn spec_is_multi(self) -> bool {
        !(self is Single)
    }

    /// Whether the mode stores more than one sample per texel.
    pub fn is_multi(self) -> (r: bool)
        ensures
            r == self.spec_is_multi(),
    {
        !matches!(self, AaMode::Single)
    }
}

/// Dimensionality, array shape and sampling of a texture.
#[derive(Clone, Copy, Debug, PartialEq, Eq, Structural)]
pub enum TextureKind {
    /// One-dimensional: width.
    D1(u16),
    /// One-dimensional array: width, layers.
    D1Array(u16, u16),
    /// Two-dimensional: width, height, sampling.
    D2(u16, u16, AaMode),
    /// Two-dimensional array: width, height, layers, sampling.
    D2Array(u16, u16, u16, AaMode),
    /// Three-dimensional: width, height, depth.
    D3(u16, u16, u16),
    /// Cube map: edge size; six faces.
    Cube(u16),
    /// Array of cube maps: edge size, cubes; six faces per cube.
    CubeArray(u16, u16),
}

/// Abstract pixel layout: bit widths per channel, independent of how the
/// bits are interpreted.
#[derive(Clone, Copy, Debug, PartialEq, Eq, Structural)]
pub enum SurfaceType {
    R4G4B4A4,
    R5G5B5A1,
    R5G6B5,
    R8,
    R8G8,
    R8G8B8A8,
    R10G10B10A2,
    R11G11B10,
    R16,
    R16G16,
    R16G16B16A16,
    R32,
    R32G32,
    R32G32B32,
    R32G32B32A32,
    D16,
    D24,
    D24S8,
    D32,
}

/// Interpretation of a surface's bits.
#[derive(Clone, Copy, Debug, PartialEq, Eq, Structural)]
pub enum ChannelType {
    Int,
    Uint,
    Inorm,
    Unorm,
    Iscaled,
    Uscaled,
    Srgb,
    Float,
}

/// A full texture description; retained by the handle manager because view
/// resolution later needs the kind and level count.
#[derive(Clone, Copy, Debug, PartialEq, Eq, Structural)]
pub struct TextureDesc {
    pub kind: TextureKind,
    /// Number of mip levels; at least one.
    pub levels: u8,
    pub format: SurfaceType,
    pub usage: Usage,
    pub bind: BindFlags,
}

/// Why texture creation failed.
#[derive(Clone, Copy, Debug, PartialEq, Eq, Structural)]
pub enum TextureError {
    /// The surface format, with the channel hint that was in effect, has no
    /// native format.
    Format(SurfaceType, Option<ChannelType>),
    /// The device refused the dimensionality-specific creation call.
    Kind,
}

/// A shader pipeline stage.
#[derive(Clone, Copy, Debug, PartialEq, Eq, Structural)]
pub enum Stage {
    Vertex,
    Geometry,
    Pixel,
}

/// Why shader creation failed.
#[derive(Clone, Copy, Debug, PartialEq, Eq, Structural)]
pub enum ShaderError {
    /// Native compilation failed; carries the native diagnostic code.
    CompilationFailed(i32),
}

/// Why pipeline-state creation failed.
#[derive(Clone, Copy, Debug, PartialEq, Eq, Structural)]
pub enum PipelineError {
    /// A bound vertex attribute has a byte offset that is not two-byte
    /// aligned; carries the offset.
    Misaligned(u32),
    /// A bound vertex attribute's abstract format has no native format.
    UnmappableFormat(SurfaceType, ChannelType),
    /// The program's vertex-shader hash has no retained bytecode in the
    /// shader cache: an internal invariant violation, not a user error.
    MissingBytecode(u64),
    /// The device refused to build the input layout.
    DeviceFailure(i32),
}

/// Why view creation failed.  One taxonomy serves shader-resource,
/// render-target and depth-stencil views.
#[derive(Clone, Copy, Debug, PartialEq, Eq, Structural)]
pub enum ViewError {
    /// The (surface, channel) pair has no native view format.
    Channel(ChannelType),
    /// A mip level is absent where required or out of range.
    BadLevel(u8),
    /// A layer index is at or beyond the texture's layer or face count, or a
    /// layer was selected on a kind without layers.
    BadLayer(u16),
    /// The view kind is not supported on this texture kind, or the device
    /// refused the view.
    Unsupported,
}

/// Why sampler creation failed.  The only failure the device reports is its
/// own refusal; it is surfaced as a typed error instead of aborting.
#[derive(Clone, Copy, Debug, PartialEq, Eq, Structural)]
pub enum SamplerError {
    /// The device refused the sampler; carries the native diagnostic code.
    DeviceFailure(i32),
}

/// Why a buffer mapping request failed.  Mapping is deliberately
/// unsupported by this factory.
#[derive(Clone, Copy, Debug, PartialEq, Eq, Structural)]
pub enum MappingError {
    Unsupported,
}

/// Texture filtering method of a sampler.
#[derive(Clone, Copy, Debug, PartialEq, Eq, Structural)]
pub enum FilterMethod {
    /// Point sampling within a level, point between levels.
    Scale,
    /// Point sampling within a level, linear between levels.
    Mipmap,
    /// Linear within a level, point between levels.
    Bilinear,
    /// Linear within and between levels.
    Trilinear,
    /// Anisotropic filtering with the given maximum anisotropy.
    Anisotropic(u8),
}

/// Texture coordinate wrapping of a sampler.
#[derive(Clone, Copy, Debug, PartialEq, Eq, Structural)]
pub enum WrapMode {
    Tile,
    Mirror,
    Clamp,
    Border,
}

/// Comparison function for depth tests and comparison samplers.
#[derive(Clone, Copy, Debug, PartialEq, Eq, Structural)]
pub enum Comparison {
    Never,
    Less,
    LessEqual,
    Equal,
    GreaterEqual,
    Greater,
    NotEqual,
    Always,
}

/// A full sampler description.  Level-of-detail values are fixed-point
/// numbers (eight fractional bits); the border color is packed RGBA8.
#[derive(Clone, Copy, Debug, PartialEq, Eq, Structural)]
pub struct SamplerInfo {
    pub filter: FilterMethod,
    pub wrap_u: WrapMode,
    pub wrap_v: WrapMode,
    pub wrap_w: WrapMode,
    pub lod_bias: i16,
    pub lod_min: i16,
    pub lod_max: i16,
    pub comparison: Option<Comparison>,
    pub border: u32,
}

/// One face of a cube texture.
#[derive(Clone, Copy, Debug, PartialEq, Eq, Structural)]
pub enum CubeFace {
    PosX,
    NegX,
    PosY,
    NegY,
    PosZ,
    NegZ,
}

/// The depth and stencil tests of a pipeline: the comparison each side
/// runs, or `None` where the test is not configured.
#[derive(Clone, Copy, Debug, PartialEq, Eq, Structural)]
pub struct DepthStencilInfo {
    pub depth: Option<Comparison>,
    pub front: Option<Comparison>,
    pub back: Option<Comparison>,
}

/// Primitive topology of a pipeline.
#[derive(Clone, Copy, Debug, PartialEq, Eq, Structural)]
pub enum Primitive {
    PointList,
    LineList,
    LineStrip,
    TriangleList,
    TriangleStrip,
}

} // verus!
