use dx11_factory::factory::{sampler_request, Factory, RawImageInfo, TexClass, TextureInit};
use dx11_factory::translate::{map_format, map_surface, surface_bits};
use dx11_factory::types::{
    AaMode, BindFlags, ChannelType, Comparison, CubeFace, FilterMethod, SamplerError, SamplerInfo,
    SurfaceType, TextureDesc, TextureError, TextureKind, Usage, WrapMode,
};

fn desc(kind: TextureKind, format: SurfaceType, bind: BindFlags) -> TextureDesc {
    TextureDesc { kind, levels: 1, format, usage: Usage::GpuOnly, bind }
}

#[test]
fn cube_textures_are_six_layer_arrays() {
    let f = Factory::new();
    let r = f
        .texture_request(desc(TextureKind::Cube(64), SurfaceType::R8G8B8A8, BindFlags::none()), None, None)
        .unwrap();
    match r.class {
        TexClass::Tex2D { width, height, array, sample } => {
            assert_eq!((width, height, array), (64, 64, 6));
            assert_eq!((sample.count, sample.quality), (1, 0));
        }
        other => panic!("wrong class: {other:?}"),
    }
    // Cube-marked in the miscellaneous flags.
    assert_eq!(r.misc & 0x4, 0x4);
}

#[test]
fn cube_array_multiplies_layers_by_six() {
    let f = Factory::new();
    let r = f
        .texture_request(
            desc(TextureKind::CubeArray(32, 3), SurfaceType::R8G8B8A8, BindFlags::none()),
            None,
            None,
        )
        .unwrap();
    match r.class {
        TexClass::Tex2D { array, .. } => assert_eq!(array, 18),
        other => panic!("wrong class: {other:?}"),
    }
    assert_eq!(r.misc & 0x4, 0x4);
}

#[test]
fn dimension_dispatch_matches_kind() {
    let f = Factory::new();
    let one = f
        .texture_request(desc(TextureKind::D1Array(128, 5), SurfaceType::R8, BindFlags::none()), None, None)
        .unwrap();
    assert_eq!(one.class, TexClass::Tex1D { width: 128, array: 5 });
    let three = f
        .texture_request(desc(TextureKind::D3(16, 8, 4), SurfaceType::R8, BindFlags::none()), None, None)
        .unwrap();
    assert_eq!(three.class, TexClass::Tex3D { width: 16, height: 8, depth: 4 });
}

#[test]
fn multisample_descriptor_carried_through() {
    let f = Factory::new();
    let r = f
        .texture_request(
            desc(TextureKind::D2(64, 64, AaMode::Multi(8)), SurfaceType::R8G8B8A8, BindFlags::none()),
            None,
            None,
        )
        .unwrap();
    match r.class {
        TexClass::Tex2D { sample, .. } => assert_eq!((sample.count, sample.quality), (8, 0)),
        other => panic!("wrong class: {other:?}"),
    }
}

#[test]
fn bytes_per_texel_from_format_bits() {
    let f = Factory::new();
    for (fmt, bpt) in [
        (SurfaceType::R8, 1u32),
        (SurfaceType::R8G8B8A8, 4),
        (SurfaceType::R16G16B16A16, 8),
        (SurfaceType::R32G32B32A32, 16),
        (SurfaceType::D24S8, 4),
    ] {
        let r = f
            .texture_request(desc(TextureKind::D1(4), fmt, BindFlags::none()), None, None)
            .unwrap();
        assert_eq!(r.bytes_per_texel, bpt, "{fmt:?}");
    }
}

#[test]
fn hint_ignored_unless_mode_enabled() {
    let mut f = Factory::new();
    let d = desc(TextureKind::D2(4, 4, AaMode::Single), SurfaceType::R8, BindFlags::none());
    // Hint mode off: the unmappable (R8, Float) pair is never consulted.
    assert!(f.texture_request(d, Some(ChannelType::Float), None).is_ok());
    // Hint mode on: the pair decides, and fails with both inputs reported.
    f.set_format_hint(true);
    assert_eq!(
        f.texture_request(d, Some(ChannelType::Float), None),
        Err(TextureError::Format(SurfaceType::R8, Some(ChannelType::Float)))
    );
    // A mappable pair resolves to the typed format.
    let r = f.texture_request(d, Some(ChannelType::Unorm), None).unwrap();
    assert_eq!(r.format, 61); // R8_UNORM
}

#[test]
fn depth_stencil_bind_drops_the_hint() {
    let mut f = Factory::new();
    f.set_format_hint(true);
    let d = desc(
        TextureKind::D2(4, 4, AaMode::Single),
        SurfaceType::D24S8,
        BindFlags { depth_stencil: true, ..BindFlags::none() },
    );
    // Typed formats cannot represent depth-stencil views, so the hint is
    // dropped and the untyped surface format is used.
    let r = f.texture_request(d, Some(ChannelType::Unorm), None).unwrap();
    assert_eq!(r.format, 44); // R24G8_TYPELESS
}

#[test]
fn initial_data_pitches() {
    let f = Factory::new();
    let d = desc(TextureKind::D2(64, 32, AaMode::Single), SurfaceType::R8G8B8A8, BindFlags::none());
    let r = f.texture_request(d, None, Some(TextureInit { generate_mips: false })).unwrap();
    let p = r.init.unwrap();
    assert_eq!(p.row_pitch, 64 * 4);
    assert_eq!(p.slice_pitch, 64 * 32 * 4);
    // One-dimensional textures have no slice pitch.
    let d1 = desc(TextureKind::D1(64), SurfaceType::R8G8B8A8, BindFlags::none());
    let r1 = f.texture_request(d1, None, Some(TextureInit { generate_mips: false })).unwrap();
    assert_eq!(r1.init.unwrap().slice_pitch, 0);
}

#[test]
fn mip_generation_sets_misc_flag() {
    let f = Factory::new();
    let d = desc(TextureKind::D2(64, 64, AaMode::Single), SurfaceType::R8G8B8A8, BindFlags::none());
    let with = f.texture_request(d, None, Some(TextureInit { generate_mips: true })).unwrap();
    assert_eq!(with.misc & 0x1, 0x1);
    let without = f.texture_request(d, None, Some(TextureInit { generate_mips: false })).unwrap();
    assert_eq!(without.misc & 0x1, 0);
}

#[test]
fn texture_device_failure_is_kind_error() {
    let mut f = Factory::new();
    let d = desc(TextureKind::D2(64, 64, AaMode::Single), SurfaceType::R8G8B8A8, BindFlags::none());
    assert_eq!(f.create_texture_raw(d, None, Err(-1)), Err(TextureError::Kind));
    assert_eq!(f.store_len(), 0);
    let h = f.create_texture_raw(d, None, Ok(5)).unwrap();
    assert_eq!(f.texture_desc(h), d);
    assert_eq!(f.store_len(), 1);
}

#[test]
fn create_texture_with_data_registers_descriptor() {
    let mut f = Factory::new();
    let d = desc(TextureKind::D2(2, 2, AaMode::Single), SurfaceType::R8G8B8A8, BindFlags::none());
    let bytes = [0u8; 16];
    let h = f
        .create_texture_with_data(d, ChannelType::Unorm, &bytes, true, Ok(9))
        .unwrap();
    assert_eq!(f.texture_desc(h), d);
}

#[test]
fn texture_update_subresource_and_box() {
    let mut f = Factory::new();
    let d = TextureDesc {
        kind: TextureKind::Cube(64),
        levels: 4,
        format: SurfaceType::R8G8B8A8,
        usage: Usage::GpuOnly,
        bind: BindFlags::none(),
    };
    let t = f.create_texture_raw(d, None, Ok(1)).unwrap();
    let image = RawImageInfo {
        xoffset: 2,
        yoffset: 3,
        zoffset: 0,
        width: 8,
        height: 4,
        depth: 1,
        mipmap: 1,
        surface: SurfaceType::R8G8B8A8,
        channel: ChannelType::Unorm,
    };
    let u = f.update_texture_raw(t, &image, &[0u8; 128], Some(CubeFace::PosY)).unwrap();
    // Face PosY is slice 2; subresource = slice * levels + mip.
    assert_eq!(u.subresource, 2 * 4 + 1);
    assert_eq!((u.dst.left, u.dst.right), (2, 10));
    assert_eq!((u.dst.top, u.dst.bottom), (3, 7));
    assert_eq!((u.dst.front, u.dst.back), (0, 1));
    // Mip one of a 64-texel cube edge is 32 texels wide.
    assert_eq!(u.row_pitch, 32 * 4);
    assert_eq!(u.depth_pitch, 32 * 4 * 32);
}

#[test]
fn sampler_translation_rules() {
    // Filter is the comparison variant exactly when a comparison function
    // is present; anisotropy is taken only from the anisotropic filter; the
    // comparison function defaults to always.
    let base = SamplerInfo {
        filter: FilterMethod::Trilinear,
        wrap_u: WrapMode::Tile,
        wrap_v: WrapMode::Clamp,
        wrap_w: WrapMode::Border,
        lod_bias: 0,
        lod_min: 0,
        lod_max: 1000,
        comparison: None,
        border: 0xFF00FF00,
    };
    let d = sampler_request(base);
    assert_eq!(d.filter, 0x15); // plain trilinear
    assert_eq!(d.max_anisotropy, 0);
    assert_eq!(d.comparison, 8); // always
    assert_eq!((d.address_u, d.address_v, d.address_w), (1, 3, 4));
    assert_eq!(d.border, 0xFF00FF00);

    let mut cmp = base;
    cmp.comparison = Some(Comparison::LessEqual);
    let d = sampler_request(cmp);
    assert_eq!(d.filter, 0x95); // comparison variant: 0x15 + 0x80
    assert_eq!(d.comparison, 4);

    let mut aniso = base;
    aniso.filter = FilterMethod::Anisotropic(16);
    let d = sampler_request(aniso);
    assert_eq!(d.filter, 0x55);
    assert_eq!(d.max_anisotropy, 16);
}

#[test]
fn sampler_creation_is_fallible() {
    let mut f = Factory::new();
    let info = SamplerInfo {
        filter: FilterMethod::Bilinear,
        wrap_u: WrapMode::Tile,
        wrap_v: WrapMode::Tile,
        wrap_w: WrapMode::Tile,
        lod_bias: 0,
        lod_min: 0,
        lod_max: 0,
        comparison: None,
        border: 0,
    };
    assert_eq!(f.create_sampler(info, Err(-3)), Err(SamplerError::DeviceFailure(-3)));
    let h = f.create_sampler(info, Ok(4)).unwrap();
    assert_eq!(f.sampler_info(h), info);
}

#[test]
fn format_mapper_reference_values() {
    assert_eq!(map_format(SurfaceType::R8G8B8A8, ChannelType::Unorm, true), Some(28));
    assert_eq!(map_format(SurfaceType::R8G8B8A8, ChannelType::Srgb, true), Some(29));
    assert_eq!(map_format(SurfaceType::R32G32B32, ChannelType::Float, false), Some(6));
    assert_eq!(map_format(SurfaceType::R16, ChannelType::Iscaled, false), None);
    // Depth surfaces resolve by view class, ignoring the channel.
    assert_eq!(map_format(SurfaceType::D32, ChannelType::Uint, true), Some(40));
    assert_eq!(map_format(SurfaceType::D32, ChannelType::Uint, false), Some(41));
    assert_eq!(map_surface(SurfaceType::R8G8B8A8), 27);
    assert_eq!(surface_bits(SurfaceType::R32G32B32), 96);
}
