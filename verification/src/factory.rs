//! The resource factory: orchestrates creation of every resource kind,
//! consulting the format mapper and depositing results in the handle
//! manager.
//!
//! The native device is an external collaborator.  For every operation that
//! needs it, the factory exposes a `..._request` function that computes the
//! exact native creation request (after all validation), and a `create_...`
//! function that takes the device's answer to that request as a plain
//! `Result` value and finishes the operation: a success is registered in
//! the handle manager and returns a fresh handle, a refusal is surfaced as
//! the typed error the operation defines.  The contracts state the outcome
//! for every possible device answer.

use vstd::prelude::*;

use crate::cache::ShaderCache;
use crate::handles::{
    BufferData, BufferHandle, DsvHandle, HandleManager, PipelineData, PipelineHandle, ProgramData,
    ProgramHandle, Resource, RtvHandle, SamplerData, SamplerHandle, ShaderData, ShaderHandle,
    Slot, SrvHandle, TargetViewData, TextureData, TextureHandle, ViewData,
};
use crate::hashing::{content_hash, spec_content_hash};
use crate::layout::{build_input_layout, spec_build_layout, AttributeBinding, InputElement};
use crate::reflect::{aggregate_info, spec_info_matches, ProgramInfo, StageReflection};
use crate::round_up_16;
use crate::spec_round_up_16;
use crate::translate::{
    map_anti_alias, map_bind, map_filter, map_format, map_function, map_surface, map_topology,
    map_usage, map_wrap, role_bind, spec_map_anti_alias, spec_map_bind, spec_map_filter,
    spec_map_format, spec_map_function, spec_map_surface, spec_map_topology, spec_map_usage,
    spec_map_wrap, spec_role_bind, spec_surface_bits, surface_bits, FilterOp, SampleDesc,
    MISC_GENERATE_MIPS, MISC_TEXTURECUBE,
};
use crate::types::{
    AaMode, BindFlags, BufferError, BufferInfo, BufferRole, ChannelType, Comparison, CubeFace,
    DepthStencilInfo, FilterMethod, MapAccess, MappingError, PipelineError, Primitive,
    SamplerError, SamplerInfo, ShaderError, Stage, SurfaceType, TextureDesc, TextureError,
    TextureKind, Usage, ViewError,
};
use crate::views::{
    dsv_params, level_dims, rtv_params, spec_dsv_params, spec_level_dims, spec_rtv_params,
    spec_srv_params, srv_params, DsvDesc, RtvDesc, SrvDesc,
};
use vstd::slice::slice_to_vec;

verus! {

/// A native buffer-creation request: the fields of the native buffer
/// descriptor, fully resolved.
#[derive(Clone, Copy, Debug, PartialEq, Eq, Structural)]
pub struct NativeBufferDesc {
    /// Allocation size in bytes; for uniform-role buffers the requested
    /// size rounded up to a sixteen-byte boundary.
    pub byte_width: usize,
    /// Native usage class.
    pub usage: u32,
    /// Native bind-flag word, including the role-specific flag.
    pub bind_flags: u32,
    /// Native CPU-access word.
    pub cpu_access: u32,
    /// Native miscellaneous-flag word; buffers use none.
    pub misc_flags: u32,
    /// Structure stride; unused by this factory.
    pub structure_stride: u32,
}

/// The buffer-creation decision: the native request, or the error that
/// rejects the descriptor before any device call.
///
/// - An index-role buffer whose stride is neither two nor four is `Other`,
///   whatever the other fields hold.
/// - Otherwise, a render-target or depth-stencil bind flag on a buffer is
///   `UnsupportedBind`.
/// - A uniform-role buffer is allocated at the requested size rounded up to
///   the next sixteen-byte boundary; every other role allocates the
///   requested size exactly.
pub open spec fn spec_buffer_request(info: BufferInfo) -> Result<NativeBufferDesc, BufferError> {
    if info.role is Index && !(info.stride == 2 || info.stride == 4) {
        Err(BufferError::Other)
    } else if info.bind.render_target || info.bind.depth_stencil {
        Err(BufferError::UnsupportedBind(info.bind))
    } else {
        let size = if info.role is Uniform {
            spec_round_up_16(info.size as int)
        } else {
            info.size as int
        };
        Ok(
            NativeBufferDesc {
                byte_width: size as usize,
                usage: spec_map_usage(info.usage).0,
                bind_flags: spec_map_bind(info.bind) | spec_role_bind(info.role),
                cpu_access: spec_map_usage(info.usage).1,
                misc_flags: 0u32,
                structure_stride: 0u32,
            },
        )
    }
}

/// Which native texture-creation entry point a request goes to, with its
/// dimension-specific parameters.
#[derive(Clone, Copy, Debug, PartialEq, Eq, Structural)]
pub enum TexClass {
    /// One-dimensional: width and array size.
    Tex1D { width: u16, array: u32 },
    /// Two-dimensional: extent, array size and multisampling.  Cube maps go
    /// here, as arrays of six faces per cube.
    Tex2D { width: u16, height: u16, array: u32, sample: SampleDesc },
    /// Three-dimensional: full extent, no array concept.
    Tex3D { width: u16, height: u16, depth: u16 },
}

/// Row and slice pitches of the initial data, in bytes, with the
/// mip-generation wish.
#[derive(Clone, Copy, Debug, PartialEq, Eq, Structural)]
pub struct InitPitches {
    pub row_pitch: u64,
    pub slice_pitch: u64,
    pub generate_mips: bool,
}

/// The caller's side of initial texture contents: whether mip levels should
/// be generated from them.  The bytes themselves go straight to the device.
#[derive(Clone, Copy, Debug, PartialEq, Eq, Structural)]
pub struct TextureInit {
    pub generate_mips: bool,
}

/// A native texture-creation request, fully resolved.
#[derive(Clone, Copy, Debug, PartialEq, Eq, Structural)]
pub struct TextureRequest {
    pub class: TexClass,
    pub levels: u8,
    /// Native surface format code.
    pub format: u32,
    /// Bytes per texel: the abstract format's bit width shifted down by
    /// three.
    pub bytes_per_texel: u32,
    /// Native bind-flag word.
    pub bind: u32,
    /// Native usage class.
    pub usage: u32,
    /// Native CPU-access word.
    pub cpu_access: u32,
    /// Native miscellaneous flags: mip generation, cube marking.
    pub misc: u32,
    /// Pitches of the initial data, when initial data is supplied.
    pub init: Option<InitPitches>,
}

/// The channel hint that is actually in effect: hints are honored only when
/// the typed-format mode is on and the descriptor carries no depth-stencil
/// bind flag (typed formats cannot represent depth-stencil views).
pub open spec fn spec_effective_hint(
    desc: TextureDesc,
    hint: Option<ChannelType>,
    hint_enabled: bool,
) -> Option<ChannelType> {
    if !hint_enabled || desc.bind.depth_stencil {
        None
    } else {
        hint
    }
}

/// The dimension class of a texture kind, and whether it is cube-marked.
pub open spec fn spec_tex_class(kind: TextureKind) -> (TexClass, bool) {
    match kind {
        TextureKind::D1(w) => (TexClass::Tex1D { width: w, array: 1u32 }, false),
        TextureKind::D1Array(w, d) => (TexClass::Tex1D { width: w, array: d as u32 }, false),
        TextureKind::D2(w, h, aa) => (
            TexClass::Tex2D { width: w, height: h, array: 1u32, sample: spec_map_anti_alias(aa) },
            false,
        ),
        TextureKind::D2Array(w, h, d, aa) => (
            TexClass::Tex2D {
                width: w,
                height: h,
                array: d as u32,
                sample: spec_map_anti_alias(aa),
            },
            false,
        ),
        TextureKind::D3(w, h, d) => (TexClass::Tex3D { width: w, height: h, depth: d }, false),
        TextureKind::Cube(w) => (
            TexClass::Tex2D {
                width: w,
                height: w,
                array: 6u32,
                sample: spec_map_anti_alias(AaMode::Single),
            },
            true,
        ),
        TextureKind::CubeArray(w, d) => (
            TexClass::Tex2D {
                width: w,
                height: w,
                array: (6 * d) as u32,
                sample: spec_map_anti_alias(AaMode::Single),
            },
            true,
        ),
    }
}

/// Initial-data pitches for a dimension class: a row is `width` texels; a
/// slice is a full two-dimensional plane, and zero for one-dimensional
/// textures, which have none.
pub open spec fn spec_init_pitches(class: TexClass, bpt: u32) -> (int, int) {
    match class {
        TexClass::Tex1D { width, .. } => (width * bpt, 0),
        TexClass::Tex2D { width, height, .. } => (width * bpt, width * height * bpt),
        TexClass::Tex3D { width, height, .. } => (width * bpt, width * height * bpt),
    }
}

/// The texture-creation decision: the native request, or the `Format` error
/// naming the surface and the hint in effect.
///
/// With a hint in effect the (surface, channel) pair must map to a concrete
/// typed format; without one the untyped surface format is used, which is
/// total.
pub open spec fn spec_texture_request(
    desc: TextureDesc,
    hint: Option<ChannelType>,
    init: Option<TextureInit>,
    hint_enabled: bool,
) -> Result<TextureRequest, TextureError> {
    let eff = spec_effective_hint(desc, hint, hint_enabled);
    let fmt_opt = match eff {
        Some(c) => spec_map_format(desc.format, c, true),
        None => Some(spec_map_surface(desc.format)),
    };
    match fmt_opt {
        None => Err(TextureError::Format(desc.format, eff)),
        Some(fmt) => {
            let bpt = (spec_surface_bits(desc.format) / 8) as u32;
            let (class, cube) = spec_tex_class(desc.kind);
            let mip_misc: u32 = match init {
                Some(i) => if i.generate_mips {
                    MISC_GENERATE_MIPS
                } else {
                    0u32
                },
                None => 0u32,
            };
            let misc: u32 = mip_misc | (if cube {
                MISC_TEXTURECUBE
            } else {
                0u32
            });
            Ok(
                TextureRequest {
                    class,
                    levels: desc.levels,
                    format: fmt,
                    bytes_per_texel: bpt,
                    bind: spec_map_bind(desc.bind),
                    usage: spec_map_usage(desc.usage).0,
                    cpu_access: spec_map_usage(desc.usage).1,
                    misc,
                    init: match init {
                        Some(i) => Some(
                            InitPitches {
                                row_pitch: spec_init_pitches(class, bpt).0 as u64,
                                slice_pitch: spec_init_pitches(class, bpt).1 as u64,
                                generate_mips: i.generate_mips,
                            },
                        ),
                        None => None,
                    },
                },
            )
        },
    }
}

/// A pipeline descriptor: the primitive topology, one optional attribute
/// binding per input slot (zipped against the program's reflected vertex
/// attributes), and the optional depth-stencil configuration.
pub struct PipelineDesc {
    pub primitive: Primitive,
    pub attributes: Vec<Option<AttributeBinding>>,
    pub depth_stencil: Option<DepthStencilInfo>,
}

/// The depth-stencil configuration handed to the state-translation
/// collaborator: the descriptor's own when it has one, else one with no
/// depth, front or back test configured.
pub open spec fn spec_effective_depth_stencil(ds: Option<DepthStencilInfo>) -> DepthStencilInfo {
    match ds {
        Some(info) => info,
        None => DepthStencilInfo { depth: None, front: None, back: None },
    }
}

pub fn effective_depth_stencil(ds: Option<DepthStencilInfo>) -> (r: DepthStencilInfo)
    ensures
        r == spec_effective_depth_stencil(ds),
{
    match ds {
        Some(info) => info,
        None => DepthStencilInfo { depth: None, front: None, back: None },
    }
}

/// A native box: the half-open region `[left, right) x [top, bottom) x
/// [front, back)` a partial update writes.
#[derive(Clone, Copy, Debug, PartialEq, Eq, Structural)]
pub struct SubBox {
    pub left: u32,
    pub top: u32,
    pub front: u32,
    pub right: u32,
    pub bottom: u32,
    pub back: u32,
}

/// Where a partial texture update lands: offsets, extent and mip level
/// within the destination texture, with the data's format.
#[derive(Clone, Copy, Debug, PartialEq, Eq, Structural)]
pub struct RawImageInfo {
    pub xoffset: u16,
    pub yoffset: u16,
    pub zoffset: u16,
    pub width: u16,
    pub height: u16,
    pub depth: u16,
    pub mipmap: u8,
    pub surface: SurfaceType,
    pub channel: ChannelType,
}

/// What a partial texture update would submit to the device.
#[derive(Clone, Copy, Debug, PartialEq, Eq, Structural)]
pub struct TextureUpdate {
    /// Native subresource index: array slice times level count, plus the
    /// mip level.
    pub subresource: u32,
    /// Destination box.
    pub dst: SubBox,
    /// Bytes per row of the addressed mip level.
    pub row_pitch: u64,
    /// Bytes per plane of the addressed mip level.
    pub depth_pitch: u64,
}

/// A native sampler descriptor, fully resolved.
#[derive(Clone, Copy, Debug, PartialEq, Eq, Structural)]
pub struct NativeSamplerDesc {
    /// Native filter code; the comparison variant when a comparison
    /// function is present, the plain product variant otherwise.
    pub filter: u32,
    pub address_u: u32,
    pub address_v: u32,
    pub address_w: u32,
    /// Fixed-point level-of-detail bias.
    pub mip_lod_bias: i16,
    /// Taken from the filter only when it is the anisotropic variant;
    /// otherwise zero.
    pub max_anisotropy: u32,
    /// Native comparison function; `Always` when the descriptor sets none.
    pub comparison: u32,
    /// Packed border color.
    pub border: u32,
    pub min_lod: i16,
    pub max_lod: i16,
}

/// The sampler translation, which cannot fail.
pub open spec fn spec_sampler_request(info: SamplerInfo) -> NativeSamplerDesc {
    let op = if info.comparison is Some {
        FilterOp::Comparison
    } else {
        FilterOp::Product
    };
    NativeSamplerDesc {
        filter: spec_map_filter(info.filter, op),
        address_u: spec_map_wrap(info.wrap_u),
        address_v: spec_map_wrap(info.wrap_v),
        address_w: spec_map_wrap(info.wrap_w),
        mip_lod_bias: info.lod_bias,
        max_anisotropy: match info.filter {
            FilterMethod::Anisotropic(max) => max as u32,
            _ => 0u32,
        },
        comparison: spec_map_function(
            match info.comparison {
                Some(f) => f,
                None => Comparison::Always,
            },
        ),
        border: info.border,
        min_lod: info.lod_min,
        max_lod: info.lod_max,
    }
}

/// Translate a sampler descriptor into its native form.
pub fn sampler_request(info: SamplerInfo) -> (r: NativeSamplerDesc)
    ensures
        r == spec_sampler_request(info),
{
    let op = if info.comparison.is_some() {
        FilterOp::Comparison
    } else {
        FilterOp::Product
    };
    NativeSamplerDesc {
        filter: map_filter(info.filter, op),
        address_u: map_wrap(info.wrap_u),
        address_v: map_wrap(info.wrap_v),
        address_w: map_wrap(info.wrap_w),
        mip_lod_bias: info.lod_bias,
        max_anisotropy: match info.filter {
            FilterMethod::Anisotropic(max) => max as u32,
            _ => 0u32,
        },
        comparison: map_function(
            match info.comparison {
                Some(f) => f,
                None => Comparison::Always,
            },
        ),
        border: info.border,
        min_lod: info.lod_min,
        max_lod: info.lod_max,
    }
}

/// The shaders a program is linked from: vertex and pixel, with an optional
/// geometry stage between them.
#[derive(Clone, Copy, Debug, PartialEq, Eq, Structural)]
pub enum ShaderSet {
    Simple(ShaderHandle, ShaderHandle),
    Geometry(ShaderHandle, ShaderHandle, ShaderHandle),
}

/// The vertex shader of a set.
pub open spec fn spec_set_vs(set: ShaderSet) -> ShaderHandle {
    match set {
        ShaderSet::Simple(vs, _) => vs,
        ShaderSet::Geometry(vs, _, _) => vs,
    }
}

/// The geometry shader of a set, when the set has one.
pub open spec fn spec_set_gs(set: ShaderSet) -> Option<ShaderHandle> {
    match set {
        ShaderSet::Simple(_, _) => None,
        ShaderSet::Geometry(_, gs, _) => Some(gs),
    }
}

/// The pixel shader of a set.
pub open spec fn spec_set_ps(set: ShaderSet) -> ShaderHandle {
    match set {
        ShaderSet::Simple(_, ps) => ps,
        ShaderSet::Geometry(_, _, ps) => ps,
    }
}

/// How many references program creation takes on slot `j`: one for each
/// stage handle of the set that points at it.
pub open spec fn spec_ref_bumps(set: ShaderSet, j: int) -> int {
    (if spec_set_vs(set).id() == j {
        1int
    } else {
        0int
    }) + (match spec_set_gs(set) {
        Some(g) => if g.id() == j {
            1int
        } else {
            0int
        },
        None => 0int,
    }) + (if spec_set_ps(set).id() == j {
        1int
    } else {
        0int
    })
}

/// The factory.  One instance owns one handle store and one shader cache
/// and assumes exclusive, synchronous access to one native device.
pub struct Factory {
    handles: HandleManager,
    vs_cache: ShaderCache,
    /// Create typed surface formats for textures when a channel hint is
    /// given.  Useful for graphics debuggers that do not understand
    /// typeless formats; may prevent some reinterpreting views.
    use_texture_format_hint: bool,
}

impl Factory {
    /// The handle store.
    pub closed spec fn store(self) -> Seq<Slot> {
        self.handles@
    }

    /// The shader cache: retained vertex bytecode by content hash.
    pub closed spec fn cache(self) -> Map<u64, Seq<u8>> {
        self.vs_cache@
    }

    /// Whether texture creation honors channel hints with typed formats.
    pub closed spec fn hint_enabled(self) -> bool {
        self.use_texture_format_hint
    }

    /// Whether bytecode is retained in the shader cache under a hash.
    pub open spec fn cached(self, hash: u64) -> bool {
        self.cache().contains_key(hash)
    }

    /// The handle store is internally consistent: every slot's
    /// back-references point at earlier slots of the right kind.
    pub open spec fn wf(self) -> bool {
        forall|i: int|
            0 <= i < self.store().len() ==> #[trigger] crate::handles::slot_wf(self.store(), i)
    }

    /// Handle validity, by resource kind.
    pub open spec fn valid_buffer(self, h: BufferHandle) -> bool {
        0 <= h.id() < self.store().len() && self.store()[h.id()].res is Buffer
    }

    pub open spec fn valid_texture(self, h: TextureHandle) -> bool {
        0 <= h.id() < self.store().len() && self.store()[h.id()].res is Texture
    }

    pub open spec fn valid_shader(self, h: ShaderHandle) -> bool {
        0 <= h.id() < self.store().len() && self.store()[h.id()].res is Shader
    }

    pub open spec fn valid_program(self, h: ProgramHandle) -> bool {
        0 <= h.id() < self.store().len() && self.store()[h.id()].res is Program
    }

    pub open spec fn valid_srv(self, h: SrvHandle) -> bool {
        0 <= h.id() < self.store().len() && self.store()[h.id()].res is ShaderResourceView
    }

    pub open spec fn valid_rtv(self, h: RtvHandle) -> bool {
        0 <= h.id() < self.store().len() && self.store()[h.id()].res is RenderTargetView
    }

    pub open spec fn valid_dsv(self, h: DsvHandle) -> bool {
        0 <= h.id() < self.store().len() && self.store()[h.id()].res is DepthStencilView
    }

    pub open spec fn valid_sampler(self, h: SamplerHandle) -> bool {
        0 <= h.id() < self.store().len() && self.store()[h.id()].res is Sampler
    }

    /// Every handle in a shader set is a valid shader.
    pub open spec fn valid_shader_set(self, set: ShaderSet) -> bool {
        &&& self.valid_shader(spec_set_vs(set))
        &&& self.valid_shader(spec_set_ps(set))
        &&& match spec_set_gs(set) {
            Some(g) => self.valid_shader(g),
            None => true,
        }
    }

    /// The factory's consistency and the store's agree: they quantify over
    /// the same slot sequence.
    proof fn lemma_wf_store(self)
        ensures
            self.wf() == self.handles.wf(),
    {
        assert forall|i: int| 0 <= i < self.handles@.len() && self.wf() implies #[trigger] crate::handles::slot_wf(
            self.handles@,
            i,
        ) by {
            assert(crate::handles::slot_wf(self.store(), i));
        }
        assert forall|i: int|
            0 <= i < self.store().len() && self.handles.wf() implies #[trigger] crate::handles::slot_wf(
            self.store(),
            i,
        ) by {
            assert(crate::handles::slot_wf(self.handles@, i));
        }
    }

    /// A fresh factory: empty store, empty cache, channel hints ignored.
    pub fn new() -> (f: Factory)
        ensures
            f.store() == Seq::<Slot>::empty(),
            f.cache() == Map::<u64, Seq<u8>>::empty(),
            !f.hint_enabled(),
            f.wf(),
    {
        Factory {
            handles: HandleManager::new(),
            vs_cache: ShaderCache::new(),
            use_texture_format_hint: false,
        }
    }

    /// Turn the typed-format channel-hint mode on or off.
    pub fn set_format_hint(&mut self, enabled: bool)
        ensures
            final(self).store() == old(self).store(),
            final(self).cache() == old(self).cache(),
            final(self).hint_enabled() == enabled,
    {
        self.use_texture_format_hint = enabled;
    }

    /// Number of slots in the handle store.
    pub fn store_len(&self) -> (n: usize)
        ensures
            n == self.store().len(),
    {
        self.handles.len()
    }

    /// Validate a buffer descriptor and compute the native creation
    /// request, without touching the store.
    pub fn buffer_request(&self, info: BufferInfo) -> (r: Result<NativeBufferDesc, BufferError>)
        requires
            info.role is Uniform ==> info.size + 0xF <= usize::MAX,
        ensures
            r == spec_buffer_request(info),
    {
        let stride_ok = info.stride == 2 || info.stride == 4;
        if matches!(info.role, BufferRole::Index) && !stride_ok {
            return Err(BufferError::Other);
        }
        if info.bind.render_target || info.bind.depth_stencil {
            return Err(BufferError::UnsupportedBind(info.bind));
        }
        let size: usize = if matches!(info.role, BufferRole::Uniform) {
            round_up_16(info.size)
        } else {
            info.size
        };
        let (usage, cpu_access) = map_usage(info.usage);
        Ok(
            NativeBufferDesc {
                byte_width: size,
                usage,
                bind_flags: map_bind(info.bind) | role_bind(info.role),
                cpu_access,
                misc_flags: 0u32,
                structure_stride: 0u32,
            },
        )
    }

    /// Create a buffer: validate the descriptor, and finish with the
    /// device's answer to the request `buffer_request` computes.
    ///
    /// A descriptor the validation rejects keeps its own error whatever the
    /// device answered; after successful validation a device refusal is
    /// `Other`, and a device success registers the native buffer with the
    /// caller's descriptor and returns its fresh handle.
    pub fn create_buffer_raw(&mut self, info: BufferInfo, device_reply: Result<u64, i32>) -> (r:
        Result<BufferHandle, BufferError>)
        requires
            old(self).wf(),
            info.role is Uniform ==> info.size + 0xF <= usize::MAX,
        ensures
            final(self).wf(),
            final(self).cache() == old(self).cache(),
            final(self).hint_enabled() == old(self).hint_enabled(),
            match spec_buffer_request(info) {
                Err(e) => r == Err::<BufferHandle, BufferError>(e)
                    && final(self).store() == old(self).store(),
                Ok(_) => match device_reply {
                    Err(_) => r == Err::<BufferHandle, BufferError>(BufferError::Other)
                        && final(self).store() == old(self).store(),
                    Ok(native) => {
                        &&& r matches Ok(h) && h.id() == old(self).store().len()
                        &&& final(self).store() == old(self).store().push(
                            (Slot {
                                refs: 1u64,
                                res: Resource::Buffer((BufferData { native, info })),
                            }),
                        )
                    },
                },
            },
    {
        match self.buffer_request(info) {
            Err(e) => Err(e),
            Ok(_desc) => match device_reply {
                Err(_code) => Err(BufferError::Other),
                Ok(native) => {
                    proof {
                        self.lemma_wf_store();
                    }
                    let h = self.handles.make_buffer(native, info);
                    Ok(h)
                },
            },
        }
    }

    /// Create a buffer from constant initial contents: the descriptor is
    /// derived from the data length and the given role, stride and bind
    /// set, with the immutable usage class.
    pub fn create_buffer_const_raw(
        &mut self,
        data: &[u8],
        stride: usize,
        role: BufferRole,
        bind: BindFlags,
        device_reply: Result<u64, i32>,
    ) -> (r: Result<BufferHandle, BufferError>)
        requires
            old(self).wf(),
            role is Uniform ==> data@.len() + 0xF <= usize::MAX,
        ensures
            final(self).wf(),
            final(self).cache() == old(self).cache(),
            final(self).hint_enabled() == old(self).hint_enabled(),
            ({
                let info = BufferInfo {
                    role,
                    usage: Usage::Const,
                    bind,
                    size: data@.len() as usize,
                    stride,
                };
                match spec_buffer_request(info) {
                    Err(e) => r == Err::<BufferHandle, BufferError>(e) && final(self).store()
                        == old(self).store(),
                    Ok(_) => match device_reply {
                        Err(_) => r == Err::<BufferHandle, BufferError>(BufferError::Other)
                            && final(self).store() == old(self).store(),
                        Ok(native) => {
                            &&& r matches Ok(h) && h.id() == old(self).store().len()
                            &&& final(self).store() == old(self).store().push(
                                (Slot {
                                    refs: 1u64,
                                    res: Resource::Buffer((BufferData { native, info })),
                                }),
                            )
                        },
                    },
                }
            }),
    {
        let info = BufferInfo { role, usage: Usage::Const, bind, size: data.len(), stride };
        self.create_buffer_raw(info, device_reply)
    }

    /// The descriptor a registered buffer was created from.
    pub fn buffer_info(&self, h: BufferHandle) -> (info: BufferInfo)
        requires
            self.valid_buffer(h),
        ensures
            info == self.store()[h.id()].res->Buffer_0.info,
    {
        self.handles.buffer_info(h)
    }

    /// Validate a texture descriptor and compute the native creation
    /// request, without touching the store.
    pub fn texture_request(
        &self,
        desc: TextureDesc,
        hint: Option<ChannelType>,
        init: Option<TextureInit>,
    ) -> (r: Result<TextureRequest, TextureError>)
        ensures
            r == spec_texture_request(desc, hint, init, self.hint_enabled()),
    {
        let eff: Option<ChannelType> = if !self.use_texture_format_hint
            || desc.bind.depth_stencil {
            None
        } else {
            hint
        };
        let fmt_opt: Option<u32> = match eff {
            Some(c) => map_format(desc.format, c, true),
            None => Some(map_surface(desc.format)),
        };
        match fmt_opt {
            None => Err(TextureError::Format(desc.format, eff)),
            Some(fmt) => {
                let bits: u16 = surface_bits(desc.format);
                proof {
                    assert(bits >> 3u16 == bits / 8) by (bit_vector);
                }
                let bpt: u32 = (bits >> 3) as u32;
                let (class, cube) = tex_class(desc.kind);
                let (row, slice): (u64, u64) = match class {
                    TexClass::Tex1D { width, .. } => {
                        proof {
                            assert((width as int) * (bpt as int) <= 65535 * 8191)
                                by (nonlinear_arith)
                                requires
                                    width as int <= 65535,
                                    bpt as int <= 8191,
                            ;
                        }
                        ((width as u64) * (bpt as u64), 0u64)
                    },
                    TexClass::Tex2D { width, height, .. } => {
                        proof {
                            assert((width as int) * (bpt as int) <= 65535 * 8191
                                && (width as int) * (height as int) <= 65535 * 65535
                                && (width as int) * (height as int) * (bpt as int) <= 65535 * 65535
                                * 8191) by (nonlinear_arith)
                                requires
                                    width as int <= 65535,
                                    height as int <= 65535,
                                    bpt as int <= 8191,
                            ;
                        }
                        (
                            (width as u64) * (bpt as u64),
                            (width as u64) * (height as u64) * (bpt as u64),
                        )
                    },
                    TexClass::Tex3D { width, height, .. } => {
                        proof {
                            assert((width as int) * (bpt as int) <= 65535 * 8191
                                && (width as int) * (height as int) <= 65535 * 65535
                                && (width as int) * (height as int) * (bpt as int) <= 65535 * 65535
                                * 8191) by (nonlinear_arith)
                                requires
                                    width as int <= 65535,
                                    height as int <= 65535,
                                    bpt as int <= 8191,
                            ;
                        }
                        (
                            (width as u64) * (bpt as u64),
                            (width as u64) * (height as u64) * (bpt as u64),
                        )
                    },
                };
                let mip_misc: u32 = match init {
                    Some(i) => if i.generate_mips {
                        MISC_GENERATE_MIPS
                    } else {
                        0u32
                    },
                    None => 0u32,
                };
                let misc: u32 = mip_misc | (if cube {
                    MISC_TEXTURECUBE
                } else {
                    0u32
                });
                Ok(
                    TextureRequest {
                        class,
                        levels: desc.levels,
                        format: fmt,
                        bytes_per_texel: bpt,
                        bind: map_bind(desc.bind),
                        usage: map_usage(desc.usage).0,
                        cpu_access: map_usage(desc.usage).1,
                        misc,
                        init: match init {
                            Some(i) => Some(
                                InitPitches {
                                    row_pitch: row,
                                    slice_pitch: slice,
                                    generate_mips: i.generate_mips,
                                },
                            ),
                            None => None,
                        },
                    },
                )
            },
        }
    }

    /// Create a texture: validate and translate the descriptor, and finish
    /// with the device's answer to the request `texture_request` computes.
    fn create_texture_internal(
        &mut self,
        desc: TextureDesc,
        hint: Option<ChannelType>,
        init: Option<TextureInit>,
        device_reply: Result<u64, i32>,
    ) -> (r: Result<TextureHandle, TextureError>)
        requires
            old(self).wf(),
        ensures
            final(self).wf(),
            final(self).cache() == old(self).cache(),
            final(self).hint_enabled() == old(self).hint_enabled(),
            match spec_texture_request(desc, hint, init, old(self).hint_enabled()) {
                Err(e) => r == Err::<TextureHandle, TextureError>(e)
                    && final(self).store() == old(self).store(),
                Ok(_) => match device_reply {
                    Err(_) => r == Err::<TextureHandle, TextureError>(TextureError::Kind)
                        && final(self).store() == old(self).store(),
                    Ok(native) => {
                        &&& r matches Ok(h) && h.id() == old(self).store().len()
                        &&& final(self).store() == old(self).store().push(
                            (Slot {
                                refs: 1u64,
                                res: Resource::Texture((TextureData { native, desc })),
                            }),
                        )
                    },
                },
            },
    {
        match self.texture_request(desc, hint, init) {
            Err(e) => Err(e),
            Ok(_req) => match device_reply {
                Err(_code) => Err(TextureError::Kind),
                Ok(native) => {
                    proof {
                        self.lemma_wf_store();
                    }
                    let h = self.handles.make_texture(native, desc);
                    Ok(h)
                },
            },
        }
    }

    /// Create a texture without initial contents.
    pub fn create_texture_raw(
        &mut self,
        desc: TextureDesc,
        hint: Option<ChannelType>,
        device_reply: Result<u64, i32>,
    ) -> (r: Result<TextureHandle, TextureError>)
        requires
            old(self).wf(),
        ensures
            final(self).wf(),
            final(self).cache() == old(self).cache(),
            final(self).hint_enabled() == old(self).hint_enabled(),
            match spec_texture_request(desc, hint, None, old(self).hint_enabled()) {
                Err(e) => r == Err::<TextureHandle, TextureError>(e)
                    && final(self).store() == old(self).store(),
                Ok(_) => match device_reply {
                    Err(_) => r == Err::<TextureHandle, TextureError>(TextureError::Kind)
                        && final(self).store() == old(self).store(),
                    Ok(native) => {
                        &&& r matches Ok(h) && h.id() == old(self).store().len()
                        &&& final(self).store() == old(self).store().push(
                            (Slot {
                                refs: 1u64,
                                res: Resource::Texture((TextureData { native, desc })),
                            }),
                        )
                    },
                },
            },
    {
        self.create_texture_internal(desc, hint, None, device_reply)
    }

    /// Create a texture from initial contents: the channel hint is the
    /// data's interpretation, and mip generation may be requested.  The
    /// bytes themselves go to the device beside the request.
    pub fn create_texture_with_data(
        &mut self,
        desc: TextureDesc,
        channel: ChannelType,
        _data: &[u8],
        mipmap: bool,
        device_reply: Result<u64, i32>,
    ) -> (r: Result<TextureHandle, TextureError>)
        requires
            old(self).wf(),
        ensures
            final(self).wf(),
            final(self).cache() == old(self).cache(),
            final(self).hint_enabled() == old(self).hint_enabled(),
            match spec_texture_request(
                desc,
                Some(channel),
                Some(TextureInit { generate_mips: mipmap }),
                old(self).hint_enabled(),
            ) {
                Err(e) => r == Err::<TextureHandle, TextureError>(e)
                    && final(self).store() == old(self).store(),
                Ok(_) => match device_reply {
                    Err(_) => r == Err::<TextureHandle, TextureError>(TextureError::Kind)
                        && final(self).store() == old(self).store(),
                    Ok(native) => {
                        &&& r matches Ok(h) && h.id() == old(self).store().len()
                        &&& final(self).store() == old(self).store().push(
                            (Slot {
                                refs: 1u64,
                                res: Resource::Texture((TextureData { native, desc })),
                            }),
                        )
                    },
                },
            },
    {
        self.create_texture_internal(
            desc,
            Some(channel),
            Some(TextureInit { generate_mips: mipmap }),
            device_reply,
        )
    }

    /// Compile a shader: finish stage-dispatched native compilation with
    /// the device's answer, digest and reflect the bytecode, and register
    /// the result.
    ///
    /// A compilation refusal is `CompilationFailed` carrying the native
    /// diagnostic code.  On success the bytecode's content hash is stored
    /// with the shader, and — only for the vertex stage — the bytecode is
    /// retained in the shader cache under that hash, for input-layout
    /// construction at pipeline-creation time.  The reflection metadata is
    /// the external reflection collaborator's finding over the bytecode.
    pub fn create_shader(
        &mut self,
        stage: Stage,
        code: &[u8],
        compile_reply: Result<u64, i32>,
        reflection: StageReflection,
    ) -> (r: Result<ShaderHandle, ShaderError>)
        requires
            old(self).wf(),
        ensures
            final(self).wf(),
            final(self).hint_enabled() == old(self).hint_enabled(),
            match compile_reply {
                Err(hr) => r == Err::<ShaderHandle, ShaderError>(
                    ShaderError::CompilationFailed(hr),
                ) && final(self).store() == old(self).store() && final(self).cache() == old(
                    self,
                ).cache(),
                Ok(native) => {
                    let hash = spec_content_hash(code@);
                    &&& r matches Ok(h) && h.id() == old(self).store().len()
                    &&& final(self).store() == old(self).store().push(
                        (Slot {
                            refs: 1u64,
                            res: Resource::Shader(
                                (ShaderData { native, stage, code_hash: hash, reflection }),
                            ),
                        }),
                    )
                    &&& stage is Vertex ==> final(self).cache() == old(self).cache().insert(
                        hash,
                        code@,
                    )
                    &&& !(stage is Vertex) ==> final(self).cache() == old(self).cache()
                },
            },
    {
        match compile_reply {
            Err(hr) => Err(ShaderError::CompilationFailed(hr)),
            Ok(native) => {
                let hash = content_hash(code);
                if matches!(stage, Stage::Vertex) {
                    let retained: Vec<u8> = slice_to_vec(code);
                    self.vs_cache.insert(hash, retained);
                }
                proof {
                    assert(self.store() == old(self).store());
                    assert(self.wf());
                    self.lemma_wf_store();
                }
                let h = self.handles.make_shader(
                    ShaderData { native, stage, code_hash: hash, reflection },
                );
                Ok(h)
            },
        }
    }

    /// A registered shader's bytecode content hash.
    pub fn shader_hash(&self, h: ShaderHandle) -> (r: u64)
        requires
            self.valid_shader(h),
        ensures
            r == self.store()[h.id()].res->Shader_0.code_hash,
    {
        self.handles.shader_hash(h)
    }

    /// The reference count of a store slot.
    pub fn slot_refs(&self, i: usize) -> (r: u64)
        requires
            i < self.store().len(),
        ensures
            r == self.store()[i as int].refs,
    {
        self.handles.slot_refs(i)
    }

    /// Link a program from a shader set.
    ///
    /// Reflection from each stage is aggregated in stage order; the vertex
    /// shader's content hash is stored on the program as the join key back
    /// into the shader cache; and each stage shader's reference count is
    /// incremented, since programs share compiled shader objects.  Linking
    /// itself cannot fail: every shader in the set is already compiled.
    pub fn create_program(&mut self, set: ShaderSet) -> (h: ProgramHandle)
        requires
            old(self).wf(),
            old(self).valid_shader_set(set),
            forall|j: int|
                0 <= j < old(self).store().len() ==> #[trigger] old(self).store()[j].refs + 3
                    <= u64::MAX,
        ensures
            final(self).wf(),
            final(self).cache() == old(self).cache(),
            final(self).hint_enabled() == old(self).hint_enabled(),
            final(self).store().len() == old(self).store().len() + 1,
            h.id() == old(self).store().len(),
            forall|j: int|
                0 <= j < old(self).store().len() ==> #[trigger] final(self).store()[j].res == old(
                    self,
                ).store()[j].res && final(self).store()[j].refs == old(self).store()[j].refs
                    + spec_ref_bumps(set, j),
            final(self).store().last().refs == 1,
            final(self).store().last().res is Program,
            ({
                let pd = final(self).store().last().res->Program_0;
                &&& pd.vs == spec_set_vs(set)
                &&& pd.gs == spec_set_gs(set)
                &&& pd.ps == spec_set_ps(set)
                &&& pd.vs_hash == old(self).store()[spec_set_vs(set).id()].res->Shader_0.code_hash
                &&& spec_info_matches(
                    pd.info,
                    old(self).store()[spec_set_vs(set).id()].res->Shader_0.reflection,
                    match spec_set_gs(set) {
                        Some(g) => Some(old(self).store()[g.id()].res->Shader_0.reflection),
                        None => None,
                    },
                    old(self).store()[spec_set_ps(set).id()].res->Shader_0.reflection,
                )
            }),
    {
        proof {
            self.lemma_wf_store();
        }
        match set {
            ShaderSet::Simple(vs, ps) => {
                let info = aggregate_info(
                    self.handles.shader_reflection(vs),
                    None,
                    self.handles.shader_reflection(ps),
                );
                let vs_hash = self.handles.shader_hash(vs);
                self.handles.add_shader_ref(vs);
                self.handles.add_shader_ref(ps);
                let h = self.handles.make_program(
                    ProgramData { vs, gs: None, ps, vs_hash, info },
                );
                h
            },
            ShaderSet::Geometry(vs, gs, ps) => {
                let info = aggregate_info(
                    self.handles.shader_reflection(vs),
                    Some(self.handles.shader_reflection(gs)),
                    self.handles.shader_reflection(ps),
                );
                let vs_hash = self.handles.shader_hash(vs);
                self.handles.add_shader_ref(vs);
                self.handles.add_shader_ref(gs);
                self.handles.add_shader_ref(ps);
                let h = self.handles.make_program(
                    ProgramData { vs, gs: Some(gs), ps, vs_hash, info },
                );
                h
            },
        }
    }

    /// Compute everything a native input-layout call needs: the validated
    /// input-element list and the retained vertex bytecode, without
    /// touching the store.
    ///
    /// Fails exactly as pipeline creation would before its device call: a
    /// layout-building error keeps its own error, and a missing cache entry
    /// for the program's vertex-shader hash is `MissingBytecode` — an
    /// internal invariant violation, since a program must never outlive or
    /// bypass its shader's cache entry.
    pub fn pipeline_request<'a>(&'a self, program: ProgramHandle, desc: &PipelineDesc) -> (r:
        Result<(Vec<InputElement>, &'a Vec<u8>), PipelineError>)
        requires
            self.valid_program(program),
        ensures
            ({
                let pd = self.store()[program.id()].res->Program_0;
                match spec_build_layout(pd.info.vertex_attributes@, desc.attributes@) {
                    Err(e) => r == Err::<(Vec<InputElement>, &'a Vec<u8>), PipelineError>(e),
                    Ok(elems) => if !self.cached(pd.vs_hash) {
                        r == Err::<(Vec<InputElement>, &'a Vec<u8>), PipelineError>(
                            PipelineError::MissingBytecode(pd.vs_hash),
                        )
                    } else {
                        r matches Ok((v, code)) && v@ == elems && code@ == self.cache()[pd.vs_hash]
                    },
                }
            }),
    {
        let elems = match build_input_layout(
            &self.handles.program_info(program).vertex_attributes,
            &desc.attributes,
        ) {
            Ok(v) => v,
            Err(e) => {
                return Err(e);
            },
        };
        let vs_hash = self.handles.program_vs_hash(program);
        match self.vs_cache.get(vs_hash) {
            Some(code) => Ok((elems, code)),
            None => Err(PipelineError::MissingBytecode(vs_hash)),
        }
    }

    /// Create a pipeline state: build and validate the input-element list,
    /// look the program's vertex bytecode up in the shader cache, and
    /// finish with the device's answer to the input-layout request
    /// `pipeline_request` computes.  The rasterizer, depth-stencil and
    /// blend parameters are the native state objects the external
    /// state-translation collaborator built for this descriptor.
    ///
    /// Creation never succeeds unless the program's vertex-shader hash has
    /// a live entry in the shader cache.
    ///
    /// State objects are not cached across calls: repeated identical
    /// descriptors pay the full native creation cost each time.  That is a
    /// performance gap, not a correctness requirement.
    pub fn create_pipeline_state_raw(
        &mut self,
        program: ProgramHandle,
        desc: &PipelineDesc,
        layout_reply: Result<u64, i32>,
        rasterizer: u64,
        depth_stencil: u64,
        blend: u64,
    ) -> (r: Result<PipelineHandle, PipelineError>)
        requires
            old(self).wf(),
            old(self).valid_program(program),
        ensures
            final(self).wf(),
            final(self).cache() == old(self).cache(),
            final(self).hint_enabled() == old(self).hint_enabled(),
            ({
                let pd = old(self).store()[program.id()].res->Program_0;
                match spec_build_layout(pd.info.vertex_attributes@, desc.attributes@) {
                    Err(e) => r == Err::<PipelineHandle, PipelineError>(e)
                        && final(self).store() == old(self).store(),
                    Ok(_) => if !old(self).cached(pd.vs_hash) {
                        r == Err::<PipelineHandle, PipelineError>(
                            PipelineError::MissingBytecode(pd.vs_hash),
                        ) && final(self).store() == old(self).store()
                    } else {
                        match layout_reply {
                            Err(hr) => r == Err::<PipelineHandle, PipelineError>(
                                PipelineError::DeviceFailure(hr),
                            ) && final(self).store() == old(self).store(),
                            Ok(native) => {
                                &&& r matches Ok(h) && h.id() == old(self).store().len()
                                &&& final(self).store() == old(self).store().push(
                                    (Slot {
                                        refs: 1u64,
                                        res: Resource::Pipeline(
                                            (PipelineData {
                                                layout: native,
                                                topology: spec_map_topology(desc.primitive),
                                                program,
                                                rasterizer,
                                                depth_stencil,
                                                blend,
                                            }),
                                        ),
                                    }),
                                )
                            },
                        }
                    },
                }
            }),
            r is Ok ==> old(self).cached(
                old(self).store()[program.id()].res->Program_0.vs_hash,
            ),
    {
        match build_input_layout(
            &self.handles.program_info(program).vertex_attributes,
            &desc.attributes,
        ) {
            Ok(_elems) => (),
            Err(e) => {
                return Err(e);
            },
        }
        let vs_hash = self.handles.program_vs_hash(program);
        if !self.vs_cache.contains(vs_hash) {
            return Err(PipelineError::MissingBytecode(vs_hash));
        }
        match layout_reply {
            Err(hr) => Err(PipelineError::DeviceFailure(hr)),
            Ok(native) => {
                let topology = map_topology(desc.primitive);
                proof {
                    self.lemma_wf_store();
                }
                let h = self.handles.make_pipeline(
                    PipelineData {
                        layout: native,
                        topology,
                        program,
                        rasterizer,
                        depth_stencil,
                        blend,
                    },
                );
                Ok(h)
            },
        }
    }

    /// A registered program's aggregated reflection.
    pub fn program_info(&self, h: ProgramHandle) -> (r: &ProgramInfo)
        requires
            self.valid_program(h),
        ensures
            *r == self.store()[h.id()].res->Program_0.info,
    {
        self.handles.program_info(h)
    }

    /// A registered pipeline state's recorded data.
    pub fn pipeline_data(&self, h: PipelineHandle) -> (d: PipelineData)
        requires
            0 <= h.id() < self.store().len() && self.store()[h.id()].res is Pipeline,
        ensures
            d == self.store()[h.id()].res->Pipeline_0,
    {
        self.handles.pipeline_data(h)
    }

    /// A registered program's vertex-shader content hash.
    pub fn program_vs_hash(&self, h: ProgramHandle) -> (r: u64)
        requires
            self.valid_program(h),
        ensures
            r == self.store()[h.id()].res->Program_0.vs_hash,
    {
        self.handles.program_vs_hash(h)
    }

    /// The descriptor a registered texture was created from.
    pub fn texture_desc(&self, h: TextureHandle) -> (d: TextureDesc)
        requires
            self.valid_texture(h),
        ensures
            d == self.store()[h.id()].res->Texture_0.desc,
    {
        self.handles.texture_desc(h)
    }

    /// View a texture as a shader resource: resolve dimension, addressing
    /// and format from the texture's stored descriptor and the request, and
    /// finish with the device's answer.
    ///
    /// Resolution failures keep their own error whatever the device
    /// answered; after successful resolution a device refusal is
    /// `Unsupported`, and a device success registers the view with its
    /// back-reference to the texture.
    pub fn view_texture_as_shader_resource_raw(
        &mut self,
        htex: TextureHandle,
        desc: SrvDesc,
        device_reply: Result<u64, i32>,
    ) -> (r: Result<SrvHandle, ViewError>)
        requires
            old(self).wf(),
            old(self).valid_texture(htex),
            desc.min <= desc.max,
        ensures
            final(self).wf(),
            final(self).cache() == old(self).cache(),
            final(self).hint_enabled() == old(self).hint_enabled(),
            match spec_srv_params(old(self).store()[htex.id()].res->Texture_0.desc, desc) {
                Err(e) => r == Err::<SrvHandle, ViewError>(e)
                    && final(self).store() == old(self).store(),
                Ok(p) => match device_reply {
                    Err(_) => r == Err::<SrvHandle, ViewError>(ViewError::Unsupported)
                        && final(self).store() == old(self).store(),
                    Ok(native) => {
                        &&& r matches Ok(h) && h.id() == old(self).store().len()
                        &&& final(self).store() == old(self).store().push(
                            (Slot {
                                refs: 1u64,
                                res: Resource::ShaderResourceView(
                                    (ViewData {
                                        native,
                                        texture: htex,
                                        format: p.format,
                                        resolved: p.resolved,
                                    }),
                                ),
                            }),
                        )
                    },
                },
            },
    {
        let tex = self.handles.texture_desc(htex);
        match srv_params(tex, desc) {
            Err(e) => Err(e),
            Ok(p) => match device_reply {
                Err(_code) => Err(ViewError::Unsupported),
                Ok(native) => {
                    proof {
                        self.lemma_wf_store();
                    }
                    let h = self.handles.make_texture_srv(
                        ViewData { native, texture: htex, format: p.format, resolved: p.resolved },
                    );
                    Ok(h)
                },
            },
        }
    }

    /// View a texture as a render target.  Beside the resolved view, the
    /// registration records the pixel dimensions of the addressed mip
    /// level.
    pub fn view_texture_as_render_target_raw(
        &mut self,
        htex: TextureHandle,
        desc: RtvDesc,
        device_reply: Result<u64, i32>,
    ) -> (r: Result<RtvHandle, ViewError>)
        requires
            old(self).wf(),
            old(self).valid_texture(htex),
        ensures
            final(self).wf(),
            final(self).cache() == old(self).cache(),
            final(self).hint_enabled() == old(self).hint_enabled(),
            ({
                let tex = old(self).store()[htex.id()].res->Texture_0.desc;
                match spec_rtv_params(tex, desc) {
                    Err(e) => r == Err::<RtvHandle, ViewError>(e)
                        && final(self).store() == old(self).store(),
                    Ok(p) => match device_reply {
                        Err(_) => r == Err::<RtvHandle, ViewError>(ViewError::Unsupported)
                            && final(self).store() == old(self).store(),
                        Ok(native) => {
                            &&& r matches Ok(h) && h.id() == old(self).store().len()
                            &&& final(self).store() == old(self).store().push(
                                (Slot {
                                    refs: 1u64,
                                    res: Resource::RenderTargetView(
                                        (TargetViewData {
                                            view: ViewData {
                                                native,
                                                texture: htex,
                                                format: p.format,
                                                resolved: p.resolved,
                                            },
                                            dims: spec_level_dims(tex.kind, desc.level),
                                        }),
                                    ),
                                }),
                            )
                        },
                    },
                }
            }),
    {
        let tex = self.handles.texture_desc(htex);
        match rtv_params(tex, desc) {
            Err(e) => Err(e),
            Ok(p) => match device_reply {
                Err(_code) => Err(ViewError::Unsupported),
                Ok(native) => {
                    let dims = level_dims(tex.kind, desc.level);
                    proof {
                        self.lemma_wf_store();
                    }
                    let h = self.handles.make_rtv(
                        TargetViewData {
                            view: ViewData {
                                native,
                                texture: htex,
                                format: p.format,
                                resolved: p.resolved,
                            },
                            dims,
                        },
                    );
                    Ok(h)
                },
            },
        }
    }

    /// View a texture as a depth-stencil target.  A three-dimensional
    /// texture is `Unsupported` before any other field is looked at; the
    /// format is the typed depth variant, with the channel interpretation
    /// fixed to an unsigned-integer placeholder the device ignores.
    pub fn view_texture_as_depth_stencil_raw(
        &mut self,
        htex: TextureHandle,
        desc: DsvDesc,
        device_reply: Result<u64, i32>,
    ) -> (r: Result<DsvHandle, ViewError>)
        requires
            old(self).wf(),
            old(self).valid_texture(htex),
        ensures
            final(self).wf(),
            final(self).cache() == old(self).cache(),
            final(self).hint_enabled() == old(self).hint_enabled(),
            ({
                let tex = old(self).store()[htex.id()].res->Texture_0.desc;
                match spec_dsv_params(tex, desc) {
                    Err(e) => r == Err::<DsvHandle, ViewError>(e)
                        && final(self).store() == old(self).store(),
                    Ok(p) => match device_reply {
                        Err(_) => r == Err::<DsvHandle, ViewError>(ViewError::Unsupported)
                            && final(self).store() == old(self).store(),
                        Ok(native) => {
                            &&& r matches Ok(h) && h.id() == old(self).store().len()
                            &&& final(self).store() == old(self).store().push(
                                (Slot {
                                    refs: 1u64,
                                    res: Resource::DepthStencilView(
                                        (TargetViewData {
                                            view: ViewData {
                                                native,
                                                texture: htex,
                                                format: p.format,
                                                resolved: p.resolved,
                                            },
                                            dims: spec_level_dims(tex.kind, desc.level),
                                        }),
                                    ),
                                }),
                            )
                        },
                    },
                }
            }),
    {
        let tex = self.handles.texture_desc(htex);
        match dsv_params(tex, desc) {
            Err(e) => Err(e),
            Ok(p) => match device_reply {
                Err(_code) => Err(ViewError::Unsupported),
                Ok(native) => {
                    let dims = level_dims(tex.kind, desc.level);
                    proof {
                        self.lemma_wf_store();
                    }
                    let h = self.handles.make_dsv(
                        TargetViewData {
                            view: ViewData {
                                native,
                                texture: htex,
                                format: p.format,
                                resolved: p.resolved,
                            },
                            dims,
                        },
                    );
                    Ok(h)
                },
            },
        }
    }

    /// Buffer shader-resource views are not supported by this factory.
    pub fn view_buffer_as_shader_resource_raw(&mut self, _hbuf: BufferHandle) -> (r: Result<
        SrvHandle,
        ViewError,
    >)
        ensures
            *final(self) == *old(self),
            r == Err::<SrvHandle, ViewError>(ViewError::Unsupported),
    {
        Err(ViewError::Unsupported)
    }

    /// Buffer unordered-access views are not supported by this factory.
    pub fn view_buffer_as_unordered_access_raw(&mut self, _hbuf: BufferHandle) -> (r: Result<
        SrvHandle,
        ViewError,
    >)
        ensures
            *final(self) == *old(self),
            r == Err::<SrvHandle, ViewError>(ViewError::Unsupported),
    {
        Err(ViewError::Unsupported)
    }

    /// Texture unordered-access views are not supported by this factory.
    pub fn view_texture_as_unordered_access_raw(&mut self, _htex: TextureHandle) -> (r: Result<
        SrvHandle,
        ViewError,
    >)
        ensures
            *final(self) == *old(self),
            r == Err::<SrvHandle, ViewError>(ViewError::Unsupported),
    {
        Err(ViewError::Unsupported)
    }

    /// A registered shader-resource view's recorded data.
    pub fn srv_data(&self, h: SrvHandle) -> (d: ViewData)
        requires
            self.valid_srv(h),
        ensures
            d == self.store()[h.id()].res->ShaderResourceView_0,
    {
        self.handles.srv_data(h)
    }

    /// A registered render-target view's recorded data.
    pub fn rtv_data(&self, h: RtvHandle) -> (d: TargetViewData)
        requires
            self.valid_rtv(h),
        ensures
            d == self.store()[h.id()].res->RenderTargetView_0,
    {
        self.handles.rtv_data(h)
    }

    /// A registered depth-stencil view's recorded data.
    pub fn dsv_data(&self, h: DsvHandle) -> (d: TargetViewData)
        requires
            self.valid_dsv(h),
        ensures
            d == self.store()[h.id()].res->DepthStencilView_0,
    {
        self.handles.dsv_data(h)
    }

    /// Create a sampler: translate the descriptor and finish with the
    /// device's answer to the request `sampler_request` computes.  A device
    /// refusal is surfaced as a typed error rather than aborting.
    pub fn create_sampler(&mut self, info: SamplerInfo, device_reply: Result<u64, i32>) -> (r:
        Result<SamplerHandle, SamplerError>)
        requires
            old(self).wf(),
        ensures
            final(self).wf(),
            final(self).cache() == old(self).cache(),
            final(self).hint_enabled() == old(self).hint_enabled(),
            match device_reply {
                Err(hr) => r == Err::<SamplerHandle, SamplerError>(
                    SamplerError::DeviceFailure(hr),
                ) && final(self).store() == old(self).store(),
                Ok(native) => {
                    &&& r matches Ok(h) && h.id() == old(self).store().len()
                    &&& final(self).store() == old(self).store().push(
                        (Slot { refs: 1u64, res: Resource::Sampler((SamplerData { native, info })) }),
                    )
                },
            },
    {
        match device_reply {
            Err(hr) => Err(SamplerError::DeviceFailure(hr)),
            Ok(native) => {
                proof {
                    self.lemma_wf_store();
                }
                let h = self.handles.make_sampler(native, info);
                Ok(h)
            },
        }
    }

    /// The descriptor a registered sampler was created from.
    pub fn sampler_info(&self, h: SamplerHandle) -> (info: SamplerInfo)
        requires
            self.valid_sampler(h),
        ensures
            info == self.store()[h.id()].res->Sampler_0.info,
    {
        self.handles.sampler_info(h)
    }

    /// Compute the sub-region a partial buffer update covers.  The update
    /// itself is deliberately withheld: issuing it needs device-context
    /// support this factory does not have, so the store is untouched and
    /// the caller receives the region that would be written.
    pub fn update_buffer_raw(&self, hbuf: BufferHandle, data: &[u8], offset_bytes: usize) -> (r:
        Result<SubBox, BufferError>)
        requires
            self.valid_buffer(hbuf),
            offset_bytes + data@.len() <= u32::MAX,
        ensures
            r == Ok::<SubBox, BufferError>(
                (SubBox {
                    left: offset_bytes as u32,
                    top: 0u32,
                    front: 0u32,
                    right: (offset_bytes + data@.len()) as u32,
                    bottom: 1u32,
                    back: 1u32,
                }),
            ),
    {
        Ok(
            SubBox {
                left: offset_bytes as u32,
                top: 0,
                front: 0,
                right: (offset_bytes + data.len()) as u32,
                bottom: 1,
                back: 1,
            },
        )
    }

    /// Compute the destination box, subresource index and pitches of a
    /// partial texture update.  As with buffer updates, the device call is
    /// deliberately withheld; the caller receives exactly what would be
    /// submitted.
    pub fn update_texture_raw(
        &self,
        htex: TextureHandle,
        image: &RawImageInfo,
        _data: &[u8],
        face: Option<CubeFace>,
    ) -> (r: Result<TextureUpdate, TextureError>)
        requires
            self.valid_texture(htex),
        ensures
            r == Ok::<TextureUpdate, TextureError>(
                spec_texture_update(
                    self.store()[htex.id()].res->Texture_0.desc,
                    *image,
                    face,
                ),
            ),
    {
        let tex = self.handles.texture_desc(htex);
        let dims = level_dims(tex.kind, image.mipmap);
        let bits: u16 = surface_bits(image.surface);
        proof {
            assert(bits >> 3u16 == bits / 8) by (bit_vector);
        }
        let bpt: u32 = (bits >> 3) as u32;
        proof {
            assert((dims.width as int) * (bpt as int) <= 65535 * 8191
                && (dims.width as int) * (bpt as int) * (dims.height as int) <= 65535 * 8191
                * 65535) by (nonlinear_arith)
                requires
                    dims.width as int <= 65535,
                    dims.height as int <= 65535,
                    bpt as int <= 8191,
            ;
        }
        let row_pitch: u64 = (dims.width as u64) * (bpt as u64);
        let depth_pitch: u64 = row_pitch * (dims.height as u64);
        let array_slice: u32 = face_slice(face);
        let subresource: u32 = array_slice * (tex.levels as u32) + (image.mipmap as u32);
        Ok(
            TextureUpdate {
                subresource,
                dst: SubBox {
                    left: image.xoffset as u32,
                    top: image.yoffset as u32,
                    front: image.zoffset as u32,
                    right: image.xoffset as u32 + image.width as u32,
                    bottom: image.yoffset as u32 + image.height as u32,
                    back: image.zoffset as u32 + image.depth as u32,
                },
                row_pitch,
                depth_pitch,
            },
        )
    }

    /// Mapping buffers into CPU memory is not supported by this factory.
    pub fn map_buffer_raw(&self, _hbuf: BufferHandle, _access: MapAccess) -> (r: Result<
        (),
        MappingError,
    >)
        ensures
            r == Err::<(), MappingError>(MappingError::Unsupported),
    {
        Err(MappingError::Unsupported)
    }

    /// Whether vertex bytecode is retained in the shader cache under a
    /// hash.
    pub fn is_cached(&self, hash: u64) -> (r: bool)
        ensures
            r == self.cached(hash),
    {
        self.vs_cache.contains(hash)
    }

    /// Evict the vertex bytecode retained under a hash; reports whether an
    /// entry was there.  Pipelines created from a program whose hash was
    /// evicted fail with `MissingBytecode` from then on.
    pub fn evict_vertex_bytecode(&mut self, hash: u64) -> (r: bool)
        ensures
            final(self).store() == old(self).store(),
            final(self).hint_enabled() == old(self).hint_enabled(),
            final(self).cache() == old(self).cache().remove(hash),
            r == old(self).cached(hash),
            old(self).wf() ==> final(self).wf(),
    {
        let r = self.vs_cache.evict(hash);
        proof {
            if old(self).wf() {
                assert forall|i: int|
                    0 <= i < self.store().len() implies #[trigger] crate::handles::slot_wf(
                    self.store(),
                    i,
                ) by {
                    assert(crate::handles::slot_wf(old(self).store(), i));
                }
            }
        }
        r
    }
}

/// The array slice a cube-face selection addresses; faces count from
/// positive X to negative Z, and no selection means the first slice.
pub open spec fn spec_face_slice(face: Option<CubeFace>) -> u32 {
    match face {
        Some(CubeFace::PosX) => 0u32,
        Some(CubeFace::NegX) => 1u32,
        Some(CubeFace::PosY) => 2u32,
        Some(CubeFace::NegY) => 3u32,
        Some(CubeFace::PosZ) => 4u32,
        Some(CubeFace::NegZ) => 5u32,
        None => 0u32,
    }
}

pub fn face_slice(face: Option<CubeFace>) -> (r: u32)
    ensures
        r == spec_face_slice(face),
{
    match face {
        Some(CubeFace::PosX) => 0u32,
        Some(CubeFace::NegX) => 1u32,
        Some(CubeFace::PosY) => 2u32,
        Some(CubeFace::NegY) => 3u32,
        Some(CubeFace::PosZ) => 4u32,
        Some(CubeFace::NegZ) => 5u32,
        None => 0u32,
    }
}

/// What a partial texture update would submit, for a texture with the given
/// stored descriptor: the subresource index `slice * levels + mip`, the
/// destination box spanned by the image's offsets and extent, and the
/// byte pitches of one row and one plane at the addressed mip level.
pub open spec fn spec_texture_update(
    tex: TextureDesc,
    image: RawImageInfo,
    face: Option<CubeFace>,
) -> TextureUpdate {
    let dims = spec_level_dims(tex.kind, image.mipmap);
    let bpt = (spec_surface_bits(image.surface) / 8) as u32;
    TextureUpdate {
        subresource: (spec_face_slice(face) * tex.levels + image.mipmap) as u32,
        dst: SubBox {
            left: image.xoffset as u32,
            top: image.yoffset as u32,
            front: image.zoffset as u32,
            right: (image.xoffset + image.width) as u32,
            bottom: (image.yoffset + image.height) as u32,
            back: (image.zoffset + image.depth) as u32,
        },
        row_pitch: (dims.width * bpt) as u64,
        depth_pitch: (dims.width * bpt * dims.height) as u64,
    }
}

/// The dimension class of a texture kind, and whether it is cube-marked.
pub fn tex_class(kind: TextureKind) -> (r: (TexClass, bool))
    ensures
        r == spec_tex_class(kind),
{
    match kind {
        TextureKind::D1(w) => (TexClass::Tex1D { width: w, array: 1u32 }, false),
        TextureKind::D1Array(w, d) => (TexClass::Tex1D { width: w, array: d as u32 }, false),
        TextureKind::D2(w, h, aa) => (
            TexClass::Tex2D { width: w, height: h, array: 1u32, sample: map_anti_alias(aa) },
            false,
        ),
        TextureKind::D2Array(w, h, d, aa) => (
            TexClass::Tex2D { width: w, height: h, array: d as u32, sample: map_anti_alias(aa) },
            false,
        ),
        TextureKind::D3(w, h, d) => (TexClass::Tex3D { width: w, height: h, depth: d }, false),
        TextureKind::Cube(w) => (
            TexClass::Tex2D {
                width: w,
                height: w,
                array: 6u32,
                sample: map_anti_alias(AaMode::Single),
            },
            true,
        ),
        TextureKind::CubeArray(w, d) => (
            TexClass::Tex2D {
                width: w,
                height: w,
                array: 6u32 * (d as u32),
                sample: map_anti_alias(AaMode::Single),
            },
            true,
        ),
    }
}

/// Uniform-role buffers allocate the smallest sixteen-byte multiple that
/// holds the requested size; every other accepted role allocates the
/// requested size exactly.
pub proof fn lemma_uniform_allocation_minimal(info: BufferInfo)
    requires
        info.size + 0xF <= usize::MAX,
        spec_buffer_request(info) is Ok,
    ensures
        ({
            let w = spec_buffer_request(info)->Ok_0.byte_width;
            if info.role is Uniform {
                &&& w % 16 == 0
                &&& w >= info.size
                &&& forall|m: int| #[trigger] (m % 16) == 0 && m >= info.size ==> m >= w
            } else {
                w == info.size
            }
        }),
{
    if info.role is Uniform {
        crate::lemma_round_up_16_minimal(info.size as int);
        assert(spec_round_up_16(info.size as int) <= usize::MAX);
        assert(spec_buffer_request(info)->Ok_0.byte_width == spec_round_up_16(info.size as int));
    }
}

/// An index-role buffer whose stride is neither two nor four always fails
/// with `Other`, for every combination of the other fields.
pub proof fn lemma_bad_index_stride_rejected(info: BufferInfo)
    requires
        info.role is Index,
        info.stride != 2,
        info.stride != 4,
    ensures
        spec_buffer_request(info) == Err::<NativeBufferDesc, BufferError>(BufferError::Other),
{
}

/// A render-target or depth-stencil bind flag on a buffer always fails with
/// `UnsupportedBind`, regardless of role and usage — except where a bad
/// index stride already rejected the descriptor with `Other`.
pub proof fn lemma_target_bind_rejected(info: BufferInfo)
    requires
        info.bind.render_target || info.bind.depth_stencil,
        !(info.role is Index && !(info.stride == 2 || info.stride == 4)),
    ensures
        spec_buffer_request(info) == Err::<NativeBufferDesc, BufferError>(
            BufferError::UnsupportedBind(info.bind),
        ),
{
}

} // verus!
