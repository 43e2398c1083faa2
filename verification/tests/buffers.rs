use dx11_factory::factory::Factory;
use dx11_factory::types::{
    BindFlags, BufferError, BufferInfo, BufferRole, MapAccess, MappingError, Usage, ViewError,
};

fn info(role: BufferRole, size: usize, stride: usize) -> BufferInfo {
    BufferInfo { role, usage: Usage::GpuOnly, bind: BindFlags::none(), size, stride }
}

#[test]
fn uniform_size_rounds_to_sixteen() {
    let f = Factory::new();
    for (req, alloc) in [(0usize, 0usize), (1, 16), (15, 16), (16, 16), (17, 32), (100, 112)] {
        let d = f
            .buffer_request(info(BufferRole::Uniform, req, 0))
            .expect("uniform request must pass");
        assert_eq!(d.byte_width, alloc, "requested {req}");
        assert_eq!(d.byte_width % 16, 0);
        assert!(d.byte_width >= req);
        assert!(d.byte_width < req + 16);
    }
}

#[test]
fn vertex_and_index_sizes_unchanged() {
    let f = Factory::new();
    let d = f.buffer_request(info(BufferRole::Vertex, 37, 12)).unwrap();
    assert_eq!(d.byte_width, 37);
    let d = f.buffer_request(info(BufferRole::Index, 38, 2)).unwrap();
    assert_eq!(d.byte_width, 38);
}

#[test]
fn index_stride_must_be_two_or_four() {
    let f = Factory::new();
    for stride in [0usize, 1, 3, 5, 8, 100] {
        assert_eq!(
            f.buffer_request(info(BufferRole::Index, 64, stride)),
            Err(BufferError::Other),
            "stride {stride}"
        );
    }
    assert!(f.buffer_request(info(BufferRole::Index, 64, 2)).is_ok());
    assert!(f.buffer_request(info(BufferRole::Index, 64, 4)).is_ok());
}

#[test]
fn bad_index_stride_wins_over_bad_bind() {
    // The stride check runs before the bind check, so an index buffer that
    // violates both reports the stride error.
    let f = Factory::new();
    let bind = BindFlags { render_target: true, ..BindFlags::none() };
    let mut i = info(BufferRole::Index, 64, 3);
    i.bind = bind;
    assert_eq!(f.buffer_request(i), Err(BufferError::Other));
}

#[test]
fn render_target_bind_rejected_on_buffers() {
    let f = Factory::new();
    let bind = BindFlags { render_target: true, ..BindFlags::none() };
    for role in [BufferRole::Vertex, BufferRole::Index, BufferRole::Uniform] {
        for usage in [
            Usage::Const,
            Usage::GpuOnly,
            Usage::Dynamic,
            Usage::CpuOnly(MapAccess::Readable),
        ] {
            let mut i = info(role, 64, 4);
            i.bind = bind;
            i.usage = usage;
            assert_eq!(f.buffer_request(i), Err(BufferError::UnsupportedBind(bind)));
        }
    }
}

#[test]
fn depth_stencil_bind_rejected_on_buffers() {
    let f = Factory::new();
    let bind = BindFlags { depth_stencil: true, ..BindFlags::none() };
    let mut i = info(BufferRole::Vertex, 16, 0);
    i.bind = bind;
    assert_eq!(f.buffer_request(i), Err(BufferError::UnsupportedBind(bind)));
}

#[test]
fn buffer_bind_word_includes_role_flag() {
    let f = Factory::new();
    let sr = BindFlags { shader_resource: true, ..BindFlags::none() };
    let mut i = info(BufferRole::Vertex, 16, 0);
    i.bind = sr;
    // shader-resource 0x8 | vertex 0x1
    assert_eq!(f.buffer_request(i).unwrap().bind_flags, 0x9);
    let d = f.buffer_request(info(BufferRole::Uniform, 16, 0)).unwrap();
    assert_eq!(d.bind_flags, 0x4);
    let d = f.buffer_request(info(BufferRole::Index, 16, 2)).unwrap();
    assert_eq!(d.bind_flags, 0x2);
}

#[test]
fn buffer_usage_translation() {
    let f = Factory::new();
    let mut i = info(BufferRole::Vertex, 16, 0);
    i.usage = Usage::Const;
    let d = f.buffer_request(i).unwrap();
    assert_eq!((d.usage, d.cpu_access), (1, 0));
    i.usage = Usage::Dynamic;
    let d = f.buffer_request(i).unwrap();
    assert_eq!((d.usage, d.cpu_access), (2, 0x10000));
    i.usage = Usage::CpuOnly(MapAccess::ReadWrite);
    let d = f.buffer_request(i).unwrap();
    assert_eq!((d.usage, d.cpu_access), (3, 0x30000));
}

#[test]
fn create_buffer_registers_on_device_success() {
    let mut f = Factory::new();
    let i = info(BufferRole::Vertex, 64, 16);
    let h = f.create_buffer_raw(i, Ok(0xAB)).expect("device accepted");
    assert_eq!(f.store_len(), 1);
    assert_eq!(f.buffer_info(h), i);
}

#[test]
fn create_buffer_device_failure_is_other() {
    let mut f = Factory::new();
    let i = info(BufferRole::Vertex, 64, 16);
    assert_eq!(f.create_buffer_raw(i, Err(-100)), Err(BufferError::Other));
    assert_eq!(f.store_len(), 0);
}

#[test]
fn create_buffer_validation_precedes_device() {
    let mut f = Factory::new();
    // Even a successful device answer cannot rescue a rejected descriptor.
    let r = f.create_buffer_raw(info(BufferRole::Index, 64, 3), Ok(1));
    assert_eq!(r, Err(BufferError::Other));
    assert_eq!(f.store_len(), 0);
}

#[test]
fn const_buffer_takes_size_from_data() {
    let mut f = Factory::new();
    let data = [0u8; 24];
    let h = f
        .create_buffer_const_raw(&data, 12, BufferRole::Vertex, BindFlags::none(), Ok(7))
        .unwrap();
    let i = f.buffer_info(h);
    assert_eq!(i.size, 24);
    assert_eq!(i.stride, 12);
    assert_eq!(i.usage, Usage::Const);
}

#[test]
fn update_buffer_computes_region_only() {
    let mut f = Factory::new();
    let h = f.create_buffer_raw(info(BufferRole::Vertex, 64, 16), Ok(1)).unwrap();
    let data = [0u8; 8];
    let b = f.update_buffer_raw(h, &data, 16).unwrap();
    assert_eq!((b.left, b.right), (16, 24));
    assert_eq!((b.top, b.bottom), (0, 1));
    assert_eq!((b.front, b.back), (0, 1));
    assert_eq!(f.store_len(), 1);
}

#[test]
fn mapping_and_buffer_views_unsupported() {
    let mut f = Factory::new();
    let h = f.create_buffer_raw(info(BufferRole::Vertex, 64, 16), Ok(1)).unwrap();
    assert_eq!(f.map_buffer_raw(h, MapAccess::Readable), Err(MappingError::Unsupported));
    assert_eq!(f.view_buffer_as_shader_resource_raw(h), Err(ViewError::Unsupported));
    assert_eq!(f.view_buffer_as_unordered_access_raw(h), Err(ViewError::Unsupported));
}
