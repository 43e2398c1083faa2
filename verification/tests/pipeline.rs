use dx11_factory::factory::{Factory, PipelineDesc, ShaderSet};
use dx11_factory::layout::{AttributeBinding, VertexElement};
use dx11_factory::reflect::{AttributeVar, StageReflection};
use dx11_factory::hashing::content_hash;
use dx11_factory::types::{
    ChannelType, Comparison, DepthStencilInfo, PipelineError, Primitive, ShaderError, Stage,
    SurfaceType,
};
use dx11_factory::factory::effective_depth_stencil;

const VS_CODE: &[u8] = b"vertex shader bytecode";
const PS_CODE: &[u8] = b"pixel shader bytecode";

fn vs_reflection() -> StageReflection {
    let mut r = StageReflection::empty();
    r.vertex_attributes = vec![AttributeVar { name: 10, slot: 0 }, AttributeVar { name: 11, slot: 1 }];
    r.constant_buffers = vec![100];
    r.textures = vec![200];
    r
}

fn ps_reflection() -> StageReflection {
    let mut r = StageReflection::empty();
    r.constant_buffers = vec![101];
    r.textures = vec![201, 202];
    r.outputs = vec![300];
    r
}

fn binding(offset: u32) -> Option<AttributeBinding> {
    Some(AttributeBinding {
        element: VertexElement {
            surface: SurfaceType::R32G32B32,
            channel: ChannelType::Float,
            offset,
        },
        instance_rate: 0,
    })
}

fn desc(offsets: &[Option<u32>]) -> PipelineDesc {
    PipelineDesc {
        primitive: Primitive::TriangleList,
        attributes: offsets.iter().map(|o| o.and_then(binding)).collect(),
        depth_stencil: None,
    }
}

#[test]
fn same_bytecode_same_hash_two_entries() {
    // Two sequential vertex-shader creations from the same bytecode produce
    // the same content hash and register two independent shader entries.
    let mut f = Factory::new();
    let a = f.create_shader(Stage::Vertex, VS_CODE, Ok(1), vs_reflection()).unwrap();
    let b = f.create_shader(Stage::Vertex, VS_CODE, Ok(2), vs_reflection()).unwrap();
    assert_eq!(f.shader_hash(a), f.shader_hash(b));
    assert_ne!(a, b);
    assert_eq!(f.store_len(), 2);
    assert!(f.is_cached(f.shader_hash(a)));
}

#[test]
fn different_bytecode_different_hash() {
    let mut f = Factory::new();
    let a = f.create_shader(Stage::Vertex, VS_CODE, Ok(1), vs_reflection()).unwrap();
    let b = f.create_shader(Stage::Vertex, PS_CODE, Ok(2), vs_reflection()).unwrap();
    assert_ne!(f.shader_hash(a), f.shader_hash(b));
}

#[test]
fn content_hash_exact_values() {
    // Fowler-Noll-Vo 64: the empty digest is the offset basis, and the
    // digest of "abc" is a fixed reference value.
    assert_eq!(content_hash(&[]), 0xcbf29ce484222325);
    assert_eq!(content_hash(b"abc"), 0xe71fa2190541574b);
}

#[test]
fn only_vertex_stage_fills_the_cache() {
    let mut f = Factory::new();
    let p = f.create_shader(Stage::Pixel, PS_CODE, Ok(1), ps_reflection()).unwrap();
    assert!(!f.is_cached(f.shader_hash(p)));
    let g = f.create_shader(Stage::Geometry, PS_CODE, Ok(2), ps_reflection()).unwrap();
    assert!(!f.is_cached(f.shader_hash(g)));
    let v = f.create_shader(Stage::Vertex, VS_CODE, Ok(3), vs_reflection()).unwrap();
    assert!(f.is_cached(f.shader_hash(v)));
}

#[test]
fn failed_compilation_carries_diagnostic() {
    let mut f = Factory::new();
    assert_eq!(
        f.create_shader(Stage::Vertex, VS_CODE, Err(-2005270524), vs_reflection()),
        Err(ShaderError::CompilationFailed(-2005270524))
    );
    assert_eq!(f.store_len(), 0);
    assert!(!f.is_cached(content_hash(VS_CODE)));
}

#[test]
fn program_aggregates_reflection_in_stage_order() {
    let mut f = Factory::new();
    let vs = f.create_shader(Stage::Vertex, VS_CODE, Ok(1), vs_reflection()).unwrap();
    let ps = f.create_shader(Stage::Pixel, PS_CODE, Ok(2), ps_reflection()).unwrap();
    let prog = f.create_program(ShaderSet::Simple(vs, ps));
    let info = f.program_info(prog);
    assert_eq!(info.constant_buffers, vec![100, 101]);
    assert_eq!(info.textures, vec![200, 201, 202]);
    assert_eq!(info.outputs, vec![300]);
    assert_eq!(info.vertex_attributes.len(), 2);
    assert_eq!(f.program_vs_hash(prog), f.shader_hash(vs));
}

#[test]
fn duplicate_names_across_stages_are_preserved() {
    let mut f = Factory::new();
    let mut vr = StageReflection::empty();
    vr.textures = vec![7, 7];
    let mut pr = StageReflection::empty();
    pr.textures = vec![7];
    let vs = f.create_shader(Stage::Vertex, VS_CODE, Ok(1), vr).unwrap();
    let ps = f.create_shader(Stage::Pixel, PS_CODE, Ok(2), pr).unwrap();
    let prog = f.create_program(ShaderSet::Simple(vs, ps));
    assert_eq!(f.program_info(prog).textures, vec![7, 7, 7]);
}

#[test]
fn program_increments_shader_references() {
    let mut f = Factory::new();
    let vs = f.create_shader(Stage::Vertex, VS_CODE, Ok(1), vs_reflection()).unwrap();
    let ps = f.create_shader(Stage::Pixel, PS_CODE, Ok(2), ps_reflection()).unwrap();
    assert_eq!(f.slot_refs(0), 1);
    assert_eq!(f.slot_refs(1), 1);
    let _prog = f.create_program(ShaderSet::Simple(vs, ps));
    assert_eq!(f.slot_refs(0), 2);
    assert_eq!(f.slot_refs(1), 2);
    let _prog2 = f.create_program(ShaderSet::Simple(vs, ps));
    assert_eq!(f.slot_refs(0), 3);
}

#[test]
fn geometry_program_aggregates_three_stages() {
    let mut f = Factory::new();
    let mut gr = StageReflection::empty();
    gr.constant_buffers = vec![150];
    let vs = f.create_shader(Stage::Vertex, VS_CODE, Ok(1), vs_reflection()).unwrap();
    let gs = f.create_shader(Stage::Geometry, b"geometry bytecode", Ok(2), gr).unwrap();
    let ps = f.create_shader(Stage::Pixel, PS_CODE, Ok(3), ps_reflection()).unwrap();
    let prog = f.create_program(ShaderSet::Geometry(vs, gs, ps));
    assert_eq!(f.program_info(prog).constant_buffers, vec![100, 150, 101]);
}

fn linked_program(f: &mut Factory) -> dx11_factory::handles::ProgramHandle {
    let vs = f.create_shader(Stage::Vertex, VS_CODE, Ok(1), vs_reflection()).unwrap();
    let ps = f.create_shader(Stage::Pixel, PS_CODE, Ok(2), ps_reflection()).unwrap();
    f.create_program(ShaderSet::Simple(vs, ps))
}

#[test]
fn pipeline_round_trip_succeeds_then_fails_after_eviction() {
    // Create vertex shader, program referencing it, pipeline: succeeds.
    // Evict the cache entry: the same pipeline creation now reports the
    // invariant-violation error.
    let mut f = Factory::new();
    let prog = linked_program(&mut f);
    let d = desc(&[Some(0), Some(12)]);
    let h = f.create_pipeline_state_raw(prog, &d, Ok(77), 1, 2, 3).expect("round trip");
    let pd = f.pipeline_data(h);
    assert_eq!(pd.layout, 77);
    assert_eq!(pd.topology, 4); // triangle list
    assert_eq!((pd.rasterizer, pd.depth_stencil, pd.blend), (1, 2, 3));

    let hash = f.program_vs_hash(prog);
    assert!(f.evict_vertex_bytecode(hash));
    assert_eq!(
        f.create_pipeline_state_raw(prog, &d, Ok(78), 1, 2, 3),
        Err(PipelineError::MissingBytecode(hash))
    );
}

#[test]
fn pipeline_needs_cached_bytecode() {
    // A program whose vertex stage never deposited bytecode (here: a pixel
    // shader standing in the vertex slot) cannot create a pipeline.
    let mut f = Factory::new();
    let ps1 = f.create_shader(Stage::Pixel, PS_CODE, Ok(1), vs_reflection()).unwrap();
    let ps2 = f.create_shader(Stage::Pixel, PS_CODE, Ok(2), ps_reflection()).unwrap();
    let prog = f.create_program(ShaderSet::Simple(ps1, ps2));
    let hash = f.program_vs_hash(prog);
    assert_eq!(
        f.create_pipeline_state_raw(prog, &desc(&[Some(0)]), Ok(1), 1, 2, 3),
        Err(PipelineError::MissingBytecode(hash))
    );
}

#[test]
fn odd_attribute_offset_fails_pipeline() {
    let mut f = Factory::new();
    let prog = linked_program(&mut f);
    assert_eq!(
        f.create_pipeline_state_raw(prog, &desc(&[Some(0), Some(13)]), Ok(1), 1, 2, 3),
        Err(PipelineError::Misaligned(13))
    );
    assert_eq!(
        f.create_pipeline_state_raw(prog, &desc(&[Some(1)]), Ok(1), 1, 2, 3),
        Err(PipelineError::Misaligned(1))
    );
}

#[test]
fn even_offsets_including_zero_pass_alignment() {
    let mut f = Factory::new();
    let prog = linked_program(&mut f);
    assert!(f.create_pipeline_state_raw(prog, &desc(&[Some(0), Some(24)]), Ok(1), 1, 2, 3).is_ok());
}

#[test]
fn unbound_slots_are_skipped() {
    let mut f = Factory::new();
    let prog = linked_program(&mut f);
    // Slot 0 unbound: its attribute contributes nothing, and an odd offset
    // never reaches the check.
    let (elems, _code) = f.pipeline_request(prog, &desc(&[None, Some(4)])).unwrap();
    assert_eq!(elems.len(), 1);
    assert_eq!(elems[0].name, 11);
    assert_eq!(elems[0].slot, 1);
    assert_eq!(elems[0].offset, 4);
}

#[test]
fn unmappable_attribute_format_fails_pipeline() {
    let mut f = Factory::new();
    let prog = linked_program(&mut f);
    let d = PipelineDesc {
        primitive: Primitive::TriangleList,
        attributes: vec![Some(AttributeBinding {
            element: VertexElement {
                surface: SurfaceType::R32,
                channel: ChannelType::Unorm,
                offset: 0,
            },
            instance_rate: 0,
        })],
        depth_stencil: None,
    };
    assert_eq!(
        f.create_pipeline_state_raw(prog, &d, Ok(1), 1, 2, 3),
        Err(PipelineError::UnmappableFormat(SurfaceType::R32, ChannelType::Unorm))
    );
}

#[test]
fn pipeline_device_failure_reported() {
    let mut f = Factory::new();
    let prog = linked_program(&mut f);
    assert_eq!(
        f.create_pipeline_state_raw(prog, &desc(&[Some(0)]), Err(-42), 1, 2, 3),
        Err(PipelineError::DeviceFailure(-42))
    );
}

#[test]
fn pipeline_request_hands_out_retained_bytecode() {
    let mut f = Factory::new();
    let prog = linked_program(&mut f);
    let (_elems, code) = f.pipeline_request(prog, &desc(&[Some(0)])).unwrap();
    assert_eq!(code.as_slice(), VS_CODE);
}

#[test]
fn effective_depth_stencil_substitutes_empty() {
    let d = effective_depth_stencil(None);
    assert_eq!((d.depth, d.front, d.back), (None, None, None));
    let given = DepthStencilInfo { depth: Some(Comparison::Less), front: None, back: None };
    assert_eq!(effective_depth_stencil(Some(given)), given);
}

#[test]
fn topology_mapping_is_exhaustive() {
    let mut f = Factory::new();
    for (prim, code) in [
        (Primitive::PointList, 1u32),
        (Primitive::LineList, 2),
        (Primitive::LineStrip, 3),
        (Primitive::TriangleList, 4),
        (Primitive::TriangleStrip, 5),
    ] {
        let prog = linked_program(&mut f);
        let d = PipelineDesc { primitive: prim, attributes: vec![], depth_stencil: None };
        let h = f.create_pipeline_state_raw(prog, &d, Ok(1), 0, 0, 0).unwrap();
        assert_eq!(f.pipeline_data(h).topology, code);
    }
}
