use dx11_factory::factory::Factory;
use dx11_factory::handles::TextureHandle;
use dx11_factory::types::{
    AaMode, BindFlags, ChannelType, SurfaceType, TextureDesc, TextureKind, Usage, ViewError,
};
use dx11_factory::views::{
    DsvDesc, LevelPart, ResolvedView, RtvDesc, SliceRange, SrvDesc, ViewDimension,
};

fn tex(f: &mut Factory, kind: TextureKind, levels: u8) -> TextureHandle {
    let desc = TextureDesc {
        kind,
        levels,
        format: SurfaceType::R8G8B8A8,
        usage: Usage::GpuOnly,
        bind: BindFlags { shader_resource: true, render_target: true, ..BindFlags::none() },
    };
    f.create_texture_raw(desc, None, Ok(1)).expect("texture creation")
}

fn srv(channel: ChannelType, layer: Option<u16>, min: u8, max: u8) -> SrvDesc {
    SrvDesc { channel, layer, min, max }
}

fn rtv(level: u8, layer: Option<u16>) -> RtvDesc {
    RtvDesc { channel: ChannelType::Unorm, level, layer }
}

fn dsv(level: u8, layer: Option<u16>) -> DsvDesc {
    DsvDesc { level, layer, read_only_depth: false, read_only_stencil: false }
}

#[test]
fn srv_d1_level_range_only() {
    let mut f = Factory::new();
    let t = tex(&mut f, TextureKind::D1(64), 4);
    let h = f
        .view_texture_as_shader_resource_raw(t, srv(ChannelType::Unorm, None, 1, 3), Ok(2))
        .unwrap();
    let v = f.srv_data(h);
    assert_eq!(
        v.resolved,
        ResolvedView {
            dim: ViewDimension::D1,
            slices: None,
            levels: LevelPart::Range { first: 1, count: 3 },
        }
    );
}

#[test]
fn srv_layer_selector_on_flat_kinds_is_bad_layer() {
    let mut f = Factory::new();
    let t1 = tex(&mut f, TextureKind::D1(64), 1);
    let t2 = tex(&mut f, TextureKind::D2(64, 64, AaMode::Single), 1);
    let d = srv(ChannelType::Unorm, Some(0), 0, 0);
    assert_eq!(
        f.view_texture_as_shader_resource_raw(t1, d, Ok(1)),
        Err(ViewError::BadLayer(0))
    );
    assert_eq!(
        f.view_texture_as_shader_resource_raw(t2, d, Ok(1)),
        Err(ViewError::BadLayer(0))
    );
}

#[test]
fn srv_d1_array_single_and_all_slices() {
    let mut f = Factory::new();
    let t = tex(&mut f, TextureKind::D1Array(64, 4), 1);
    let one = f
        .view_texture_as_shader_resource_raw(t, srv(ChannelType::Unorm, Some(1), 0, 0), Ok(1))
        .unwrap();
    assert_eq!(f.srv_data(one).resolved.dim, ViewDimension::D1Array);
    assert_eq!(f.srv_data(one).resolved.slices, Some(SliceRange { first: 1, end: 2 }));
    let all = f
        .view_texture_as_shader_resource_raw(t, srv(ChannelType::Unorm, None, 0, 0), Ok(2))
        .unwrap();
    assert_eq!(f.srv_data(all).resolved.slices, Some(SliceRange { first: 0, end: 4 }));
    assert_eq!(
        f.view_texture_as_shader_resource_raw(t, srv(ChannelType::Unorm, Some(4), 0, 0), Ok(3)),
        Err(ViewError::BadLayer(4))
    );
}

#[test]
fn srv_d2_array_layer_two_of_four() {
    // A four-layer, single-sample two-dimensional array with layer selector
    // two resolves to the array dimension covering slices two to three.
    let mut f = Factory::new();
    let t = tex(&mut f, TextureKind::D2Array(128, 128, 4, AaMode::Single), 1);
    let h = f
        .view_texture_as_shader_resource_raw(t, srv(ChannelType::Unorm, Some(2), 0, 0), Ok(9))
        .unwrap();
    let v = f.srv_data(h);
    assert_eq!(v.resolved.dim, ViewDimension::D2Array);
    assert_eq!(v.resolved.slices, Some(SliceRange { first: 2, end: 3 }));
}

#[test]
fn srv_multisample_omits_levels() {
    let mut f = Factory::new();
    let t = tex(&mut f, TextureKind::D2(64, 64, AaMode::Multi(4)), 1);
    let h = f
        .view_texture_as_shader_resource_raw(t, srv(ChannelType::Unorm, None, 0, 0), Ok(1))
        .unwrap();
    let v = f.srv_data(h);
    assert_eq!(v.resolved.dim, ViewDimension::D2Multi);
    assert_eq!(v.resolved.levels, LevelPart::Absent);
    let ta = tex(&mut f, TextureKind::D2Array(64, 64, 3, AaMode::Multi(4)), 1);
    let ha = f
        .view_texture_as_shader_resource_raw(ta, srv(ChannelType::Unorm, Some(1), 0, 0), Ok(2))
        .unwrap();
    let va = f.srv_data(ha);
    assert_eq!(va.resolved.dim, ViewDimension::D2MultiArray);
    assert_eq!(va.resolved.slices, Some(SliceRange { first: 1, end: 2 }));
}

#[test]
fn srv_level_beyond_count_is_bad_level() {
    let mut f = Factory::new();
    let t = tex(&mut f, TextureKind::D2(64, 64, AaMode::Single), 3);
    assert_eq!(
        f.view_texture_as_shader_resource_raw(t, srv(ChannelType::Unorm, None, 0, 3), Ok(1)),
        Err(ViewError::BadLevel(3))
    );
}

#[test]
fn srv_unmappable_channel_is_channel_error() {
    let mut f = Factory::new();
    let desc = TextureDesc {
        kind: TextureKind::D2(64, 64, AaMode::Single),
        levels: 1,
        format: SurfaceType::R32,
        usage: Usage::GpuOnly,
        bind: BindFlags { shader_resource: true, ..BindFlags::none() },
    };
    let t = f.create_texture_raw(desc, None, Ok(1)).unwrap();
    assert_eq!(
        f.view_texture_as_shader_resource_raw(t, srv(ChannelType::Unorm, None, 0, 0), Ok(1)),
        Err(ViewError::Channel(ChannelType::Unorm))
    );
}

#[test]
fn srv_device_refusal_is_unsupported() {
    let mut f = Factory::new();
    let t = tex(&mut f, TextureKind::D2(64, 64, AaMode::Single), 1);
    assert_eq!(
        f.view_texture_as_shader_resource_raw(t, srv(ChannelType::Unorm, None, 0, 0), Err(-7)),
        Err(ViewError::Unsupported)
    );
}

#[test]
fn rtv_cube_covers_all_six_faces() {
    // A cube's render-target view with no layer selector at level zero is a
    // two-dimensional array over slices zero to six.
    let mut f = Factory::new();
    let t = tex(&mut f, TextureKind::Cube(64), 2);
    let h = f.view_texture_as_render_target_raw(t, rtv(0, None), Ok(1)).unwrap();
    let v = f.rtv_data(h);
    assert_eq!(v.view.resolved.dim, ViewDimension::D2Array);
    assert_eq!(v.view.resolved.slices, Some(SliceRange { first: 0, end: 6 }));
    assert_eq!(v.view.resolved.levels, LevelPart::Single(0));
}

#[test]
fn rtv_cube_single_face_and_out_of_range() {
    let mut f = Factory::new();
    let t = tex(&mut f, TextureKind::Cube(64), 1);
    let h = f.view_texture_as_render_target_raw(t, rtv(0, Some(2)), Ok(1)).unwrap();
    assert_eq!(f.rtv_data(h).view.resolved.slices, Some(SliceRange { first: 2, end: 3 }));
    assert_eq!(
        f.view_texture_as_render_target_raw(t, rtv(0, Some(6)), Ok(1)),
        Err(ViewError::BadLayer(6))
    );
}

#[test]
fn rtv_cube_array_slices() {
    let mut f = Factory::new();
    let t = tex(&mut f, TextureKind::CubeArray(64, 3), 1);
    let all = f.view_texture_as_render_target_raw(t, rtv(0, None), Ok(1)).unwrap();
    assert_eq!(f.rtv_data(all).view.resolved.slices, Some(SliceRange { first: 0, end: 18 }));
    let one = f.view_texture_as_render_target_raw(t, rtv(0, Some(1)), Ok(2)).unwrap();
    assert_eq!(f.rtv_data(one).view.resolved.slices, Some(SliceRange { first: 6, end: 12 }));
    assert_eq!(
        f.view_texture_as_render_target_raw(t, rtv(0, Some(3)), Ok(3)),
        Err(ViewError::BadLayer(3))
    );
}

#[test]
fn rtv_d3_depth_extent_as_slices() {
    let mut f = Factory::new();
    let t = tex(&mut f, TextureKind::D3(32, 32, 8), 1);
    let h = f.view_texture_as_render_target_raw(t, rtv(0, None), Ok(1)).unwrap();
    let v = f.rtv_data(h);
    assert_eq!(v.view.resolved.dim, ViewDimension::D3);
    assert_eq!(v.view.resolved.slices, Some(SliceRange { first: 0, end: 8 }));
}

#[test]
fn rtv_multisample_requires_level_zero() {
    let mut f = Factory::new();
    let t = tex(&mut f, TextureKind::D2(64, 64, AaMode::Multi(4)), 1);
    let h = f.view_texture_as_render_target_raw(t, rtv(0, None), Ok(1)).unwrap();
    assert_eq!(f.rtv_data(h).view.resolved.dim, ViewDimension::D2Multi);
    assert_eq!(f.rtv_data(h).view.resolved.levels, LevelPart::Absent);
    assert_eq!(
        f.view_texture_as_render_target_raw(t, rtv(1, None), Ok(1)),
        Err(ViewError::BadLevel(1))
    );
}

#[test]
fn rtv_level_beyond_count_is_bad_level() {
    let mut f = Factory::new();
    let t = tex(&mut f, TextureKind::D2(64, 64, AaMode::Single), 2);
    assert_eq!(
        f.view_texture_as_render_target_raw(t, rtv(2, None), Ok(1)),
        Err(ViewError::BadLevel(2))
    );
}

#[test]
fn rtv_records_level_dimensions() {
    let mut f = Factory::new();
    let t = tex(&mut f, TextureKind::D2(64, 32, AaMode::Single), 8);
    let h = f.view_texture_as_render_target_raw(t, rtv(2, None), Ok(1)).unwrap();
    let d = f.rtv_data(h).dims;
    assert_eq!((d.width, d.height, d.depth), (16, 8, 1));
    // Halving saturates at one texel.
    let h = f.view_texture_as_render_target_raw(t, rtv(7, None), Ok(2)).unwrap();
    let d = f.rtv_data(h).dims;
    assert_eq!((d.width, d.height, d.depth), (1, 1, 1));
}

#[test]
fn dsv_on_d3_always_unsupported() {
    // Independent of layer selector, level and level count.
    let mut f = Factory::new();
    let desc = TextureDesc {
        kind: TextureKind::D3(32, 32, 8),
        levels: 4,
        format: SurfaceType::D24S8,
        usage: Usage::GpuOnly,
        bind: BindFlags { depth_stencil: true, ..BindFlags::none() },
    };
    let t = f.create_texture_raw(desc, None, Ok(1)).unwrap();
    for layer in [None, Some(0u16), Some(7u16), Some(100u16)] {
        for level in [0u8, 1, 3, 200] {
            assert_eq!(
                f.view_texture_as_depth_stencil_raw(t, dsv(level, layer), Ok(1)),
                Err(ViewError::Unsupported)
            );
        }
    }
}

#[test]
fn dsv_d2_array_resolves_like_rtv() {
    let mut f = Factory::new();
    let desc = TextureDesc {
        kind: TextureKind::D2Array(64, 64, 4, AaMode::Single),
        levels: 1,
        format: SurfaceType::D24S8,
        usage: Usage::GpuOnly,
        bind: BindFlags { depth_stencil: true, ..BindFlags::none() },
    };
    let t = f.create_texture_raw(desc, None, Ok(1)).unwrap();
    let h = f.view_texture_as_depth_stencil_raw(t, dsv(0, Some(3)), Ok(1)).unwrap();
    let v = f.dsv_data(h);
    assert_eq!(v.view.resolved.dim, ViewDimension::D2Array);
    assert_eq!(v.view.resolved.slices, Some(SliceRange { first: 3, end: 4 }));
    // The typed depth format backs the view.
    assert_eq!(v.view.format, 45);
}

#[test]
fn dsv_read_only_flags_do_not_change_resolution() {
    let mut f = Factory::new();
    let desc = TextureDesc {
        kind: TextureKind::D2(64, 64, AaMode::Single),
        levels: 1,
        format: SurfaceType::D32,
        usage: Usage::GpuOnly,
        bind: BindFlags { depth_stencil: true, ..BindFlags::none() },
    };
    let t = f.create_texture_raw(desc, None, Ok(1)).unwrap();
    let plain = f.view_texture_as_depth_stencil_raw(t, dsv(0, None), Ok(1)).unwrap();
    let ro = f
        .view_texture_as_depth_stencil_raw(
            t,
            DsvDesc { level: 0, layer: None, read_only_depth: true, read_only_stencil: true },
            Ok(2),
        )
        .unwrap();
    assert_eq!(f.dsv_data(plain).view.resolved, f.dsv_data(ro).view.resolved);
}

#[test]
fn srv_remaining_dimension_rows() {
    // The rows of the resolution table not exercised elsewhere: flat
    // two-dimensional, array without selector, cubes, and the multisampled
    // array without selector.
    let mut f = Factory::new();
    let d = srv(ChannelType::Unorm, None, 0, 0);

    let flat = tex(&mut f, TextureKind::D2(64, 64, AaMode::Single), 1);
    let h = f.view_texture_as_shader_resource_raw(flat, d, Ok(1)).unwrap();
    assert_eq!(f.srv_data(h).resolved.dim, ViewDimension::D2);
    assert_eq!(f.srv_data(h).resolved.slices, None);

    let arr = tex(&mut f, TextureKind::D2Array(64, 64, 5, AaMode::Single), 1);
    let h = f.view_texture_as_shader_resource_raw(arr, d, Ok(2)).unwrap();
    assert_eq!(f.srv_data(h).resolved.dim, ViewDimension::D2Array);
    assert_eq!(f.srv_data(h).resolved.slices, Some(SliceRange { first: 0, end: 5 }));

    // Cubes resolve to the two-dimensional array dimension, all six faces.
    let cube = tex(&mut f, TextureKind::Cube(32), 1);
    let h = f.view_texture_as_shader_resource_raw(cube, d, Ok(3)).unwrap();
    assert_eq!(f.srv_data(h).resolved.dim, ViewDimension::D2Array);
    assert_eq!(f.srv_data(h).resolved.slices, Some(SliceRange { first: 0, end: 6 }));

    let cubes = tex(&mut f, TextureKind::CubeArray(32, 2), 1);
    let h = f
        .view_texture_as_shader_resource_raw(cubes, srv(ChannelType::Unorm, Some(1), 0, 0), Ok(4))
        .unwrap();
    assert_eq!(f.srv_data(h).resolved.slices, Some(SliceRange { first: 6, end: 12 }));

    let msarr = tex(&mut f, TextureKind::D2Array(64, 64, 3, AaMode::Multi(2)), 1);
    let h = f.view_texture_as_shader_resource_raw(msarr, d, Ok(5)).unwrap();
    assert_eq!(f.srv_data(h).resolved.dim, ViewDimension::D2MultiArray);
    assert_eq!(f.srv_data(h).resolved.slices, Some(SliceRange { first: 0, end: 3 }));
    assert_eq!(f.srv_data(h).resolved.levels, LevelPart::Absent);
}

#[test]
fn rtv_d2_array_all_and_ms_rows() {
    let mut f = Factory::new();
    let arr = tex(&mut f, TextureKind::D2Array(64, 64, 5, AaMode::Single), 2);
    let h = f.view_texture_as_render_target_raw(arr, rtv(1, None), Ok(1)).unwrap();
    assert_eq!(f.rtv_data(h).view.resolved.dim, ViewDimension::D2Array);
    assert_eq!(f.rtv_data(h).view.resolved.slices, Some(SliceRange { first: 0, end: 5 }));
    assert_eq!(f.rtv_data(h).view.resolved.levels, LevelPart::Single(1));

    let ms = tex(&mut f, TextureKind::D2Array(64, 64, 3, AaMode::Multi(4)), 1);
    let h = f.view_texture_as_render_target_raw(ms, rtv(0, Some(2)), Ok(2)).unwrap();
    assert_eq!(f.rtv_data(h).view.resolved.dim, ViewDimension::D2MultiArray);
    assert_eq!(f.rtv_data(h).view.resolved.slices, Some(SliceRange { first: 2, end: 3 }));
    // A multisampled array accepts level zero only.
    assert_eq!(
        f.view_texture_as_render_target_raw(ms, rtv(1, Some(2)), Ok(3)),
        Err(ViewError::BadLevel(1))
    );
}

#[test]
fn view_failure_registers_nothing() {
    let mut f = Factory::new();
    let t = tex(&mut f, TextureKind::D1(64), 1);
    let before = f.store_len();
    let _ = f.view_texture_as_shader_resource_raw(t, srv(ChannelType::Unorm, Some(9), 0, 0), Ok(1));
    let _ = f.view_texture_as_render_target_raw(t, rtv(0, None), Err(-1));
    assert_eq!(f.store_len(), before);
}
