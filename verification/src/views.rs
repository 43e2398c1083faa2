//! The view resolver: from a texture's stored kind and a caller's optional
//! layer and level selection to the native view dimension and addressing
//! tuple.
//!
//! One resolution table serves shader-resource, render-target and
//! depth-stencil views; the classes differ only in how mip levels are
//! addressed (a range for shader-resource views, a single level for the
//! target classes) and in that depth-stencil views refuse three-dimensional
//! textures.

use vstd::prelude::*;

use crate::translate::{map_dsv_flags, map_format, spec_map_dsv_flags, spec_map_format};
use crate::types::{AaMode, ChannelType, TextureDesc, TextureKind, ViewError};

verus! {

/// Native view dimensionality.  Cube textures resolve to the
/// two-dimensional array dimension with their faces as slices.
#[derive(Clone, Copy, Debug, PartialEq, Eq, Structural)]
pub enum ViewDimension {
    D1,
    D1Array,
    D2,
    D2Multi,
    D2Array,
    D2MultiArray,
    D3,
}

impl ViewDimension {
    /// Whether the dimension is multisampled; multisampled views have no
    /// mip-level addressing.
    pub open spec fn spec_is_multi(self) -> bool {
        self is D2Multi || self is D2MultiArray
    }

    /// Whether the dimension is multisampled.
    pub fn is_multi(self) -> (r: bool)
        ensures
            r == self.spec_is_multi(),
    {
        matches!(self, ViewDimension::D2Multi | ViewDimension::D2MultiArray)
    }
}

/// A half-open range of array slices: `first` inclusive, `end` exclusive.
#[derive(Clone, Copy, Debug, PartialEq, Eq, Structural)]
pub struct SliceRange {
    pub first: u32,
    pub end: u32,
}

/// Mip-level addressing of a resolved view.
#[derive(Clone, Copy, Debug, PartialEq, Eq, Structural)]
pub enum LevelPart {
    /// Render-target and depth-stencil views address one level.
    Single(u8),
    /// Shader-resource views address `count` levels starting at `first`.
    Range { first: u8, count: u8 },
    /// Multisampled dimensions have no mip concept.
    Absent,
}

/// A fully resolved view: native dimension, array-slice addressing (absent
/// on dimensions without slices), and mip-level addressing.
#[derive(Clone, Copy, Debug, PartialEq, Eq, Structural)]
pub struct ResolvedView {
    pub dim: ViewDimension,
    pub slices: Option<SliceRange>,
    pub levels: LevelPart,
}

/// How many layers (or faces, or depth slices) of a kind a layer selector
/// may index; `None` for kinds that accept no selector.
pub open spec fn spec_layer_capacity(kind: TextureKind) -> Option<u16> {
    match kind {
        TextureKind::D1(_) => None,
        TextureKind::D1Array(_, n) => Some(n),
        TextureKind::D2(_, _, _) => None,
        TextureKind::D2Array(_, _, n, _) => Some(n),
        TextureKind::D3(_, _, d) => Some(d),
        TextureKind::Cube(_) => Some(6u16),
        TextureKind::CubeArray(_, n) => Some(n),
    }
}

/// The dimension-and-slices half of the resolution table: for each texture
/// kind and layer selector, the native view dimension and the half-open
/// slice range the view covers.
///
/// - A selector on a kind without layers is `BadLayer`.
/// - A selector at or beyond the layer capacity is `BadLayer`.
/// - An absent selector covers every slice of the kind.
/// - A cube counts six faces; an array of `n` cubes counts `6 n` slices,
///   and selecting cube `i` covers its six faces.
/// - A three-dimensional texture's depth extent acts as its slice count.
pub open spec fn spec_resolve_slices(kind: TextureKind, layer: Option<u16>) -> Result<
    (ViewDimension, Option<SliceRange>),
    ViewError,
> {
    match kind {
        TextureKind::D1(_) => match layer {
            None => Ok((ViewDimension::D1, None::<SliceRange>)),
            Some(i) => Err(ViewError::BadLayer(i)),
        },
        TextureKind::D1Array(_, n) => match layer {
            None => Ok(
                (ViewDimension::D1Array, Some(SliceRange { first: 0u32, end: n as u32 })),
            ),
            Some(i) => if i < n {
                Ok(
                    (
                        ViewDimension::D1Array,
                        Some(SliceRange { first: i as u32, end: (i + 1) as u32 }),
                    ),
                )
            } else {
                Err(ViewError::BadLayer(i))
            },
        },
        TextureKind::D2(_, _, aa) => match layer {
            None => Ok(
                (
                    if aa.spec_is_multi() {
                        ViewDimension::D2Multi
                    } else {
                        ViewDimension::D2
                    },
                    None::<SliceRange>,
                ),
            ),
            Some(i) => Err(ViewError::BadLayer(i)),
        },
        TextureKind::D2Array(_, _, n, aa) => {
            let dim = if aa.spec_is_multi() {
                ViewDimension::D2MultiArray
            } else {
                ViewDimension::D2Array
            };
            match layer {
                None => Ok((dim, Some(SliceRange { first: 0u32, end: n as u32 }))),
                Some(i) => if i < n {
                    Ok((dim, Some(SliceRange { first: i as u32, end: (i + 1) as u32 })))
                } else {
                    Err(ViewError::BadLayer(i))
                },
            }
        },
        TextureKind::D3(_, _, d) => match layer {
            None => Ok((ViewDimension::D3, Some(SliceRange { first: 0u32, end: d as u32 }))),
            Some(i) => if i < d {
                Ok((ViewDimension::D3, Some(SliceRange { first: i as u32, end: (i + 1) as u32 })))
            } else {
                Err(ViewError::BadLayer(i))
            },
        },
        TextureKind::Cube(_) => match layer {
            None => Ok((ViewDimension::D2Array, Some(SliceRange { first: 0u32, end: 6u32 }))),
            Some(i) => if i < 6 {
                Ok(
                    (
                        ViewDimension::D2Array,
                        Some(SliceRange { first: i as u32, end: (i + 1) as u32 }),
                    ),
                )
            } else {
                Err(ViewError::BadLayer(i))
            },
        },
        TextureKind::CubeArray(_, n) => match layer {
            None => Ok(
                (ViewDimension::D2Array, Some(SliceRange { first: 0u32, end: (6 * n) as u32 })),
            ),
            Some(i) => if i < n {
                Ok(
                    (
                        ViewDimension::D2Array,
                        Some(SliceRange { first: (6 * i) as u32, end: (6 * (i + 1)) as u32 }),
                    ),
                )
            } else {
                Err(ViewError::BadLayer(i))
            },
        },
    }
}

pub fn resolve_slices(kind: TextureKind, layer: Option<u16>) -> (r: Result<
    (ViewDimension, Option<SliceRange>),
    ViewError,
>)
    ensures
        r == spec_resolve_slices(kind, layer),
{
    match kind {
        TextureKind::D1(_) => match layer {
            None => Ok((ViewDimension::D1, None)),
            Some(i) => Err(ViewError::BadLayer(i)),
        },
        TextureKind::D1Array(_, n) => match layer {
            None => Ok((ViewDimension::D1Array, Some(SliceRange { first: 0u32, end: n as u32 }))),
            Some(i) => if i < n {
                Ok(
                    (
                        ViewDimension::D1Array,
                        Some(SliceRange { first: i as u32, end: i as u32 + 1 }),
                    ),
                )
            } else {
                Err(ViewError::BadLayer(i))
            },
        },
        TextureKind::D2(_, _, aa) => match layer {
            None => Ok(
                (
                    if aa.is_multi() {
                        ViewDimension::D2Multi
                    } else {
                        ViewDimension::D2
                    },
                    None,
                ),
            ),
            Some(i) => Err(ViewError::BadLayer(i)),
        },
        TextureKind::D2Array(_, _, n, aa) => {
            let dim = if aa.is_multi() {
                ViewDimension::D2MultiArray
            } else {
                ViewDimension::D2Array
            };
            match layer {
                None => Ok((dim, Some(SliceRange { first: 0u32, end: n as u32 }))),
                Some(i) => if i < n {
                    Ok((dim, Some(SliceRange { first: i as u32, end: i as u32 + 1 })))
                } else {
                    Err(ViewError::BadLayer(i))
                },
            }
        },
        TextureKind::D3(_, _, d) => match layer {
            None => Ok((ViewDimension::D3, Some(SliceRange { first: 0u32, end: d as u32 }))),
            Some(i) => if i < d {
                Ok((ViewDimension::D3, Some(SliceRange { first: i as u32, end: i as u32 + 1 })))
            } else {
                Err(ViewError::BadLayer(i))
            },
        },
        TextureKind::Cube(_) => match layer {
            None => Ok((ViewDimension::D2Array, Some(SliceRange { first: 0u32, end: 6u32 }))),
            Some(i) => if i < 6 {
                Ok(
                    (
                        ViewDimension::D2Array,
                        Some(SliceRange { first: i as u32, end: i as u32 + 1 }),
                    ),
                )
            } else {
                Err(ViewError::BadLayer(i))
            },
        },
        TextureKind::CubeArray(_, n) => match layer {
            None => Ok(
                (ViewDimension::D2Array, Some(SliceRange { first: 0u32, end: 6 * (n as u32) })),
            ),
            Some(i) => if i < n {
                Ok(
                    (
                        ViewDimension::D2Array,
                        Some(SliceRange { first: 6 * (i as u32), end: 6 * (i as u32 + 1) }),
                    ),
                )
            } else {
                Err(ViewError::BadLayer(i))
            },
        },
    }
}

/// Full resolution for a shader-resource view: dimension, slices, and the
/// mip range `(min, max - min + 1)`.  Multisampled dimensions carry no
/// level addressing; on the others a `max` at or beyond the texture's level
/// count is `BadLevel`.
pub open spec fn spec_resolve_srv(
    kind: TextureKind,
    tex_levels: u8,
    layer: Option<u16>,
    min: u8,
    max: u8,
) -> Result<ResolvedView, ViewError> {
    match spec_resolve_slices(kind, layer) {
        Err(e) => Err(e),
        Ok((dim, slices)) => if dim.spec_is_multi() {
            Ok(ResolvedView { dim, slices, levels: LevelPart::Absent })
        } else if max >= tex_levels {
            Err(ViewError::BadLevel(max))
        } else {
            Ok(
                ResolvedView {
                    dim,
                    slices,
                    levels: LevelPart::Range { first: min, count: (max - min + 1) as u8 },
                },
            )
        },
    }
}

/// Resolve a shader-resource view over a texture of the given kind and
/// level count.
pub fn resolve_srv(kind: TextureKind, tex_levels: u8, layer: Option<u16>, min: u8, max: u8) -> (r:
    Result<ResolvedView, ViewError>)
    requires
        min <= max,
    ensures
        r == spec_resolve_srv(kind, tex_levels, layer, min, max),
{
    match resolve_slices(kind, layer) {
        Err(e) => Err(e),
        Ok((dim, slices)) => if dim.is_multi() {
            Ok(ResolvedView { dim, slices, levels: LevelPart::Absent })
        } else if max >= tex_levels {
            Err(ViewError::BadLevel(max))
        } else {
            Ok(
                ResolvedView {
                    dim,
                    slices,
                    levels: LevelPart::Range { first: min, count: max - min + 1 },
                },
            )
        },
    }
}

/// Full resolution for a render-target or depth-stencil view.
///
/// - A depth-stencil view on a three-dimensional texture is `Unsupported`,
///   before any other field is looked at.
/// - Multisampled dimensions accept level zero only; any other level is
///   `BadLevel`.
/// - On the other dimensions, a level at or beyond the texture's level
///   count is `BadLevel`.
pub open spec fn spec_resolve_target(
    kind: TextureKind,
    tex_levels: u8,
    layer: Option<u16>,
    level: u8,
    depth_class: bool,
) -> Result<ResolvedView, ViewError> {
    if depth_class && kind is D3 {
        Err(ViewError::Unsupported)
    } else {
        match spec_resolve_slices(kind, layer) {
            Err(e) => Err(e),
            Ok((dim, slices)) => if dim.spec_is_multi() {
                if level == 0 {
                    Ok(ResolvedView { dim, slices, levels: LevelPart::Absent })
                } else {
                    Err(ViewError::BadLevel(level))
                }
            } else if level >= tex_levels {
                Err(ViewError::BadLevel(level))
            } else {
                Ok(ResolvedView { dim, slices, levels: LevelPart::Single(level) })
            },
        }
    }
}

/// Resolve a render-target (`depth_class == false`) or depth-stencil
/// (`depth_class == true`) view.
pub fn resolve_target(
    kind: TextureKind,
    tex_levels: u8,
    layer: Option<u16>,
    level: u8,
    depth_class: bool,
) -> (r: Result<ResolvedView, ViewError>)
    ensures
        r == spec_resolve_target(kind, tex_levels, layer, level, depth_class),
{
    if depth_class && matches!(kind, TextureKind::D3(_, _, _)) {
        return Err(ViewError::Unsupported);
    }
    match resolve_slices(kind, layer) {
        Err(e) => Err(e),
        Ok((dim, slices)) => if dim.is_multi() {
            if level == 0 {
                Ok(ResolvedView { dim, slices, levels: LevelPart::Absent })
            } else {
                Err(ViewError::BadLevel(level))
            }
        } else if level >= tex_levels {
            Err(ViewError::BadLevel(level))
        } else {
            Ok(ResolvedView { dim, slices, levels: LevelPart::Single(level) })
        },
    }
}

/// Pixel extent of one mip level.
#[derive(Clone, Copy, Debug, PartialEq, Eq, Structural)]
pub struct LevelDims {
    pub width: u16,
    pub height: u16,
    pub depth: u16,
}

/// One extent halved `level` times, but never below one texel.
pub open spec fn spec_level_size(s: u16, level: u8) -> u16 {
    if level >= 16 {
        1u16
    } else if s >> level == 0 {
        1u16
    } else {
        s >> level
    }
}

pub fn level_size(s: u16, level: u8) -> (r: u16)
    ensures
        r == spec_level_size(s, level),
{
    if level >= 16 {
        1
    } else {
        let shifted: u16 = s >> level;
        if shifted == 0 {
            1
        } else {
            shifted
        }
    }
}

/// Pixel dimensions of one mip level of a texture kind.  Width, height and
/// depth halve per level; layer counts do not.  A cube's faces are square.
pub open spec fn spec_level_dims(kind: TextureKind, level: u8) -> LevelDims {
    match kind {
        TextureKind::D1(w) => LevelDims {
            width: spec_level_size(w, level),
            height: 1u16,
            depth: 1u16,
        },
        TextureKind::D1Array(w, _) => LevelDims {
            width: spec_level_size(w, level),
            height: 1u16,
            depth: 1u16,
        },
        TextureKind::D2(w, h, _) => LevelDims {
            width: spec_level_size(w, level),
            height: spec_level_size(h, level),
            depth: 1u16,
        },
        TextureKind::D2Array(w, h, _, _) => LevelDims {
            width: spec_level_size(w, level),
            height: spec_level_size(h, level),
            depth: 1u16,
        },
        TextureKind::D3(w, h, d) => LevelDims {
            width: spec_level_size(w, level),
            height: spec_level_size(h, level),
            depth: spec_level_size(d, level),
        },
        TextureKind::Cube(w) => LevelDims {
            width: spec_level_size(w, level),
            height: spec_level_size(w, level),
            depth: 1u16,
        },
        TextureKind::CubeArray(w, _) => LevelDims {
            width: spec_level_size(w, level),
            height: spec_level_size(w, level),
            depth: 1u16,
        },
    }
}

pub fn level_dims(kind: TextureKind, level: u8) -> (r: LevelDims)
    ensures
        r == spec_level_dims(kind, level),
{
    match kind {
        TextureKind::D1(w) => LevelDims { width: level_size(w, level), height: 1u16, depth: 1u16 },
        TextureKind::D1Array(w, _) => LevelDims {
            width: level_size(w, level),
            height: 1u16,
            depth: 1u16,
        },
        TextureKind::D2(w, h, _) => LevelDims {
            width: level_size(w, level),
            height: level_size(h, level),
            depth: 1u16,
        },
        TextureKind::D2Array(w, h, _, _) => LevelDims {
            width: level_size(w, level),
            height: level_size(h, level),
            depth: 1u16,
        },
        TextureKind::D3(w, h, d) => LevelDims {
            width: level_size(w, level),
            height: level_size(h, level),
            depth: level_size(d, level),
        },
        TextureKind::Cube(w) => LevelDims {
            width: level_size(w, level),
            height: level_size(w, level),
            depth: 1u16,
        },
        TextureKind::CubeArray(w, _) => LevelDims {
            width: level_size(w, level),
            height: level_size(w, level),
            depth: 1u16,
        },
    }
}

/// A shader-resource view request: the channel interpretation, the optional
/// layer selection, and the mip range `[min, max]`.
#[derive(Clone, Copy, Debug, PartialEq, Eq, Structural)]
pub struct SrvDesc {
    pub channel: ChannelType,
    pub layer: Option<u16>,
    pub min: u8,
    pub max: u8,
}

/// A render-target view request: one mip level and an optional layer
/// selection.
#[derive(Clone, Copy, Debug, PartialEq, Eq, Structural)]
pub struct RtvDesc {
    pub channel: ChannelType,
    pub level: u8,
    pub layer: Option<u16>,
}

/// A depth-stencil view request: one mip level, an optional layer
/// selection, and the read-only flags.  The channel interpretation is
/// irrelevant to the device for depth-stencil views.
#[derive(Clone, Copy, Debug, PartialEq, Eq, Structural)]
pub struct DsvDesc {
    pub level: u8,
    pub layer: Option<u16>,
    pub read_only_depth: bool,
    pub read_only_stencil: bool,
}

/// A fully resolved native view request: the format code and the resolved
/// dimension and addressing; depth-stencil views add their flag word.
#[derive(Clone, Copy, Debug, PartialEq, Eq, Structural)]
pub struct ViewParams {
    pub format: u32,
    pub resolved: ResolvedView,
}

#[derive(Clone, Copy, Debug, PartialEq, Eq, Structural)]
pub struct DsvParams {
    pub format: u32,
    pub resolved: ResolvedView,
    pub flags: u32,
}

/// The shader-resource view decision over a texture's stored descriptor:
/// resolution per the table, then the format; shader-resource views request
/// the non-target format variant.  An unmappable (surface, channel) pair is
/// `Channel` carrying the requested channel.
pub open spec fn spec_srv_params(tex: TextureDesc, desc: SrvDesc) -> Result<ViewParams, ViewError> {
    match spec_resolve_srv(tex.kind, tex.levels, desc.layer, desc.min, desc.max) {
        Err(e) => Err(e),
        Ok(rv) => match spec_map_format(tex.format, desc.channel, false) {
            None => Err(ViewError::Channel(desc.channel)),
            Some(f) => Ok(ViewParams { format: f, resolved: rv }),
        },
    }
}

pub fn srv_params(tex: TextureDesc, desc: SrvDesc) -> (r: Result<ViewParams, ViewError>)
    requires
        desc.min <= desc.max,
    ensures
        r == spec_srv_params(tex, desc),
{
    match resolve_srv(tex.kind, tex.levels, desc.layer, desc.min, desc.max) {
        Err(e) => Err(e),
        Ok(rv) => match map_format(tex.format, desc.channel, false) {
            None => Err(ViewError::Channel(desc.channel)),
            Some(f) => Ok(ViewParams { format: f, resolved: rv }),
        },
    }
}

/// The render-target view decision: resolution per the table, then the
/// typed (target) format variant.
pub open spec fn spec_rtv_params(tex: TextureDesc, desc: RtvDesc) -> Result<ViewParams, ViewError> {
    match spec_resolve_target(tex.kind, tex.levels, desc.layer, desc.level, false) {
        Err(e) => Err(e),
        Ok(rv) => match spec_map_format(tex.format, desc.channel, true) {
            None => Err(ViewError::Channel(desc.channel)),
            Some(f) => Ok(ViewParams { format: f, resolved: rv }),
        },
    }
}

pub fn rtv_params(tex: TextureDesc, desc: RtvDesc) -> (r: Result<ViewParams, ViewError>)
    ensures
        r == spec_rtv_params(tex, desc),
{
    match resolve_target(tex.kind, tex.levels, desc.layer, desc.level, false) {
        Err(e) => Err(e),
        Ok(rv) => match map_format(tex.format, desc.channel, true) {
            None => Err(ViewError::Channel(desc.channel)),
            Some(f) => Ok(ViewParams { format: f, resolved: rv }),
        },
    }
}

/// The depth-stencil view decision: resolution per the table (a
/// three-dimensional texture is `Unsupported` outright), then the typed
/// format with an unsigned-integer channel placeholder, then the read-only
/// flag word.
pub open spec fn spec_dsv_params(tex: TextureDesc, desc: DsvDesc) -> Result<DsvParams, ViewError> {
    match spec_resolve_target(tex.kind, tex.levels, desc.layer, desc.level, true) {
        Err(e) => Err(e),
        Ok(rv) => match spec_map_format(tex.format, ChannelType::Uint, true) {
            None => Err(ViewError::Channel(ChannelType::Uint)),
            Some(f) => Ok(
                DsvParams {
                    format: f,
                    resolved: rv,
                    flags: spec_map_dsv_flags(desc.read_only_depth, desc.read_only_stencil),
                },
            ),
        },
    }
}

pub fn dsv_params(tex: TextureDesc, desc: DsvDesc) -> (r: Result<DsvParams, ViewError>)
    ensures
        r == spec_dsv_params(tex, desc),
{
    match resolve_target(tex.kind, tex.levels, desc.layer, desc.level, true) {
        Err(e) => Err(e),
        Ok(rv) => match map_format(tex.format, ChannelType::Uint, true) {
            None => Err(ViewError::Channel(ChannelType::Uint)),
            Some(f) => Ok(
                DsvParams {
                    format: f,
                    resolved: rv,
                    flags: map_dsv_flags(desc.read_only_depth, desc.read_only_stencil),
                },
            ),
        },
    }
}

/// Every out-of-range layer selector resolves to `BadLayer` carrying that
/// index, whatever the texture kind: a selector on a kind without layers,
/// or one at or beyond the kind's layer capacity.
pub proof fn lemma_bad_layer_rejected(kind: TextureKind, i: u16)
    requires
        match spec_layer_capacity(kind) {
            None => true,
            Some(n) => i >= n,
        },
    ensures
        spec_resolve_slices(kind, Some(i)) == Err::<
            (ViewDimension, Option<SliceRange>),
            ViewError,
        >(ViewError::BadLayer(i)),
{
}

/// Out-of-range layers fail every view class with `BadLayer`, and
/// depth-stencil views on three-dimensional textures are `Unsupported`
/// independent of every other field.
pub proof fn lemma_bad_layer_fails_views(
    kind: TextureKind,
    tex_levels: u8,
    i: u16,
    min: u8,
    max: u8,
    level: u8,
    depth_class: bool,
)
    requires
        match spec_layer_capacity(kind) {
            None => true,
            Some(n) => i >= n,
        },
    ensures
        spec_resolve_srv(kind, tex_levels, Some(i), min, max) == Err::<ResolvedView, ViewError>(
            ViewError::BadLayer(i),
        ),
        !(depth_class && kind is D3) ==> spec_resolve_target(
            kind,
            tex_levels,
            Some(i),
            level,
            depth_class,
        ) == Err::<ResolvedView, ViewError>(ViewError::BadLayer(i)),
{
    lemma_bad_layer_rejected(kind, i);
}

/// Every out-of-range level fails a render-target or depth-stencil view
/// with `BadLevel` carrying that level, once the layer selection itself is
/// in order: on a multisampled dimension any level but zero is out of
/// range (multisampling has no mips), on the others any level at or beyond
/// the texture's level count.
pub proof fn lemma_bad_level_rejected(
    kind: TextureKind,
    tex_levels: u8,
    layer: Option<u16>,
    level: u8,
    depth_class: bool,
)
    requires
        !(depth_class && kind is D3),
        spec_resolve_slices(kind, layer) is Ok,
        if spec_resolve_slices(kind, layer)->Ok_0.0.spec_is_multi() {
            level != 0
        } else {
            level >= tex_levels
        },
    ensures
        spec_resolve_target(kind, tex_levels, layer, level, depth_class) == Err::<
            ResolvedView,
            ViewError,
        >(ViewError::BadLevel(level)),
{
}

/// The same, for the mip range of a shader-resource view: on a dimension
/// with mip addressing, a `max` at or beyond the texture's level count is
/// `BadLevel(max)`.
pub proof fn lemma_bad_srv_level_rejected(
    kind: TextureKind,
    tex_levels: u8,
    layer: Option<u16>,
    min: u8,
    max: u8,
)
    requires
        spec_resolve_slices(kind, layer) is Ok,
        !spec_resolve_slices(kind, layer)->Ok_0.0.spec_is_multi(),
        max >= tex_levels,
    ensures
        spec_resolve_srv(kind, tex_levels, layer, min, max) == Err::<ResolvedView, ViewError>(
            ViewError::BadLevel(max),
        ),
{
}

/// A depth-stencil view on a three-dimensional texture always fails with
/// `Unsupported`, independent of the layer selector, the level, and the
/// texture's level count.
pub proof fn lemma_dsv_d3_unsupported(
    width: u16,
    height: u16,
    depth: u16,
    tex_levels: u8,
    layer: Option<u16>,
    level: u8,
)
    ensures
        spec_resolve_target(TextureKind::D3(width, height, depth), tex_levels, layer, level, true)
            == Err::<ResolvedView, ViewError>(ViewError::Unsupported),
{
}

} // verus!
