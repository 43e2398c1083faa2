//! The handle manager: an arena that owns every native object the factory
//! creates, behind typed, opaque handles.
//!
//! Native objects are plain identifiers here; the device that minted them
//! holds the real references.  Each slot carries a reference count that
//! starts at one when the object is registered and is incremented whenever
//! another registered object shares the native reference (a program sharing
//! a compiled shader).  A handle is a stable index: once issued it resolves
//! to the same slot for the manager's whole lifetime, since slots are never
//! removed.

use vstd::prelude::*;

use crate::reflect::{ProgramInfo, StageReflection};
use crate::types::{BufferInfo, SamplerInfo, Stage, TextureDesc};
use crate::views::{LevelDims, ResolvedView};

verus! {

/// Handle to a buffer.
#[derive(Clone, Copy, Debug, PartialEq, Eq, Structural)]
pub struct BufferHandle {
    idx: usize,
}

/// Handle to a texture.
#[derive(Clone, Copy, Debug, PartialEq, Eq, Structural)]
pub struct TextureHandle {
    idx: usize,
}

/// Handle to a compiled shader.
#[derive(Clone, Copy, Debug, PartialEq, Eq, Structural)]
pub struct ShaderHandle {
    idx: usize,
}

/// Handle to a linked program.
#[derive(Clone, Copy, Debug, PartialEq, Eq, Structural)]
pub struct ProgramHandle {
    idx: usize,
}

/// Handle to a pipeline state.
#[derive(Clone, Copy, Debug, PartialEq, Eq, Structural)]
pub struct PipelineHandle {
    idx: usize,
}

/// Handle to a shader-resource view.
#[derive(Clone, Copy, Debug, PartialEq, Eq, Structural)]
pub struct SrvHandle {
    idx: usize,
}

/// Handle to a render-target view.
#[derive(Clone, Copy, Debug, PartialEq, Eq, Structural)]
pub struct RtvHandle {
    idx: usize,
}

/// Handle to a depth-stencil view.
#[derive(Clone, Copy, Debug, PartialEq, Eq, Structural)]
pub struct DsvHandle {
    idx: usize,
}

/// Handle to a sampler.
#[derive(Clone, Copy, Debug, PartialEq, Eq, Structural)]
pub struct SamplerHandle {
    idx: usize,
}

/// A registered buffer: the native object and the descriptor it was created
/// from.
#[derive(Clone, Copy)]
pub struct BufferData {
    pub native: u64,
    pub info: BufferInfo,
}

/// A registered texture.  The original descriptor is retained because view
/// resolution later needs the kind and level count.
#[derive(Clone, Copy)]
pub struct TextureData {
    pub native: u64,
    pub desc: TextureDesc,
}

/// A registered shader: the native compiled object, its stage, the content
/// hash of its bytecode, and the reflection metadata found in it.
pub struct ShaderData {
    pub native: u64,
    pub stage: Stage,
    pub code_hash: u64,
    pub reflection: StageReflection,
}

/// A registered program: its stage shaders, the vertex shader's content
/// hash (the join key into the shader cache at pipeline creation), and the
/// aggregated reflection.
pub struct ProgramData {
    pub vs: ShaderHandle,
    pub gs: Option<ShaderHandle>,
    pub ps: ShaderHandle,
    pub vs_hash: u64,
    pub info: ProgramInfo,
}

/// A registered pipeline state.
#[derive(Clone, Copy)]
pub struct PipelineData {
    /// Native input-layout object.
    pub layout: u64,
    /// Native primitive-topology code.
    pub topology: u32,
    pub program: ProgramHandle,
    /// Native rasterizer, depth-stencil and blend state objects, built by
    /// the external state-translation collaborator.
    pub rasterizer: u64,
    pub depth_stencil: u64,
    pub blend: u64,
}

/// A registered texture view: the native view object, a non-owning
/// back-reference to the source texture, the native format code, and the
/// resolved dimension and addressing.
#[derive(Clone, Copy)]
pub struct ViewData {
    pub native: u64,
    pub texture: TextureHandle,
    pub format: u32,
    pub resolved: ResolvedView,
}

/// A registered render-target or depth-stencil view; additionally carries
/// the pixel dimensions of the addressed mip level.
#[derive(Clone, Copy)]
pub struct TargetViewData {
    pub view: ViewData,
    pub dims: LevelDims,
}

/// A registered sampler.
#[derive(Clone, Copy)]
pub struct SamplerData {
    pub native: u64,
    pub info: SamplerInfo,
}

/// One owned native object.
pub enum Resource {
    Buffer(BufferData),
    Texture(TextureData),
    Shader(ShaderData),
    Program(ProgramData),
    Pipeline(PipelineData),
    ShaderResourceView(ViewData),
    RenderTargetView(TargetViewData),
    DepthStencilView(TargetViewData),
    Sampler(SamplerData),
}

/// An arena slot: a reference count and the resource it owns.
pub struct Slot {
    pub refs: u64,
    pub res: Resource,
}

/// The arena of native objects.
pub struct HandleManager {
    slots: Vec<Slot>,
}

impl BufferHandle {
    /// The slot index behind the handle.
    pub closed spec fn id(self) -> int {
        self.idx as int
    }
}

impl TextureHandle {
    /// The slot index behind the handle.
    pub closed spec fn id(self) -> int {
        self.idx as int
    }
}

impl ShaderHandle {
    /// The slot index behind the handle.
    pub closed spec fn id(self) -> int {
        self.idx as int
    }
}

impl ProgramHandle {
    /// The slot index behind the handle.
    pub closed spec fn id(self) -> int {
        self.idx as int
    }
}

impl PipelineHandle {
    /// The slot index behind the handle.
    pub closed spec fn id(self) -> int {
        self.idx as int
    }
}

impl SrvHandle {
    /// The slot index behind the handle.
    pub closed spec fn id(self) -> int {
        self.idx as int
    }
}

impl RtvHandle {
    /// The slot index behind the handle.
    pub closed spec fn id(self) -> int {
        self.idx as int
    }
}

impl DsvHandle {
    /// The slot index behind the handle.
    pub closed spec fn id(self) -> int {
        self.idx as int
    }
}

impl SamplerHandle {
    /// The slot index behind the handle.
    pub closed spec fn id(self) -> int {
        self.idx as int
    }
}

impl View for HandleManager {
    type V = Seq<Slot>;

    closed spec fn view(&self) -> Seq<Slot> {
        self.slots@
    }
}

/// Internal consistency of one slot: every back-reference points at an
/// earlier slot of the right kind.
pub open spec fn slot_wf(slots: Seq<Slot>, i: int) -> bool {
    match slots[i].res {
        Resource::Program(p) => {
            &&& 0 <= p.vs.id() < i
            &&& slots[p.vs.id()].res is Shader
            &&& 0 <= p.ps.id() < i
            &&& slots[p.ps.id()].res is Shader
            &&& match p.gs {
                Some(g) => 0 <= g.id() < i && slots[g.id()].res is Shader,
                None => true,
            }
        },
        Resource::Pipeline(pl) => {
            &&& 0 <= pl.program.id() < i
            &&& slots[pl.program.id()].res is Program
        },
        Resource::ShaderResourceView(v) => {
            &&& 0 <= v.texture.id() < i
            &&& slots[v.texture.id()].res is Texture
        },
        Resource::RenderTargetView(v) => {
            &&& 0 <= v.view.texture.id() < i
            &&& slots[v.view.texture.id()].res is Texture
        },
        Resource::DepthStencilView(v) => {
            &&& 0 <= v.view.texture.id() < i
            &&& slots[v.view.texture.id()].res is Texture
        },
        _ => true,
    }
}

impl HandleManager {
    /// Every slot is internally consistent: views point back at live
    /// textures, programs at live shaders, pipelines at live programs.
    pub open spec fn wf(self) -> bool {
        forall|i: int| 0 <= i < self@.len() ==> #[trigger] slot_wf(self@, i)
    }

    /// Handle validity, by resource kind.
    pub open spec fn valid_buffer(self, h: BufferHandle) -> bool {
        0 <= h.id() < self@.len() && self@[h.id()].res is Buffer
    }

    pub open spec fn valid_texture(self, h: TextureHandle) -> bool {
        0 <= h.id() < self@.len() && self@[h.id()].res is Texture
    }

    pub open spec fn valid_shader(self, h: ShaderHandle) -> bool {
        0 <= h.id() < self@.len() && self@[h.id()].res is Shader
    }

    pub open spec fn valid_program(self, h: ProgramHandle) -> bool {
        0 <= h.id() < self@.len() && self@[h.id()].res is Program
    }

    /// The shader data in a slot.
    pub open spec fn spec_shader(self, i: int) -> ShaderData
        recommends
            0 <= i < self@.len(),
            self@[i].res is Shader,
    {
        self@[i].res->Shader_0
    }

    /// The texture data in a slot.
    pub open spec fn spec_texture(self, i: int) -> TextureData
        recommends
            0 <= i < self@.len(),
            self@[i].res is Texture,
    {
        self@[i].res->Texture_0
    }

    /// The program data in a slot.
    pub open spec fn spec_program(self, i: int) -> ProgramData
        recommends
            0 <= i < self@.len(),
            self@[i].res is Program,
    {
        self@[i].res->Program_0
    }

    /// An empty arena.
    pub fn new() -> (m: HandleManager)
        ensures
            m@ == Seq::<Slot>::empty(),
            m.wf(),
    {
        HandleManager { slots: Vec::new() }
    }

    /// Number of slots.
    pub fn len(&self) -> (n: usize)
        ensures
            n == self@.len(),
    {
        self.slots.len()
    }

    /// Append a slot with one reference; shared by all `make_` operations.
    fn push_slot(&mut self, res: Resource) -> (i: usize)
        requires
            old(self).wf(),
            slot_wf(old(self)@.push(Slot { refs: 1u64, res: res }), old(self)@.len() as int),
        ensures
            final(self)@ == old(self)@.push((Slot { refs: 1u64, res: res })),
            i == old(self)@.len(),
            final(self).wf(),
    {
        let i = self.slots.len();
        self.slots.push(Slot { refs: 1u64, res });
        proof {
            assert forall|j: int| 0 <= j < self@.len() implies #[trigger] slot_wf(self@, j) by {
                if j < old(self)@.len() {
                    assert(slot_wf(old(self)@, j));
                    assert(self@[j] == old(self)@[j]);
                }
            }
        }
        i
    }

    /// Register a native buffer with its descriptor.
    pub fn make_buffer(&mut self, native: u64, info: BufferInfo) -> (h: BufferHandle)
        requires
            old(self).wf(),
        ensures
            final(self)@ == old(self)@.push(
                (Slot { refs: 1u64, res: Resource::Buffer(BufferData { native, info }) }),
            ),
            h.id() == old(self)@.len(),
            final(self).wf(),
    {
        let i = self.push_slot(Resource::Buffer(BufferData { native, info }));
        BufferHandle { idx: i }
    }

    /// Register a native texture with its original descriptor.
    pub fn make_texture(&mut self, native: u64, desc: TextureDesc) -> (h: TextureHandle)
        requires
            old(self).wf(),
        ensures
            final(self)@ == old(self)@.push(
                (Slot { refs: 1u64, res: Resource::Texture(TextureData { native, desc }) }),
            ),
            h.id() == old(self)@.len(),
            final(self).wf(),
    {
        let i = self.push_slot(Resource::Texture(TextureData { native, desc }));
        TextureHandle { idx: i }
    }

    /// Register a compiled shader.
    pub fn make_shader(&mut self, data: ShaderData) -> (h: ShaderHandle)
        requires
            old(self).wf(),
        ensures
            final(self)@ == old(self)@.push((Slot { refs: 1u64, res: Resource::Shader(data) })),
            h.id() == old(self)@.len(),
            final(self).wf(),
    {
        let i = self.push_slot(Resource::Shader(data));
        ShaderHandle { idx: i }
    }

    /// Register a linked program.  Its stage handles must be valid shaders.
    pub fn make_program(&mut self, data: ProgramData) -> (h: ProgramHandle)
        requires
            old(self).wf(),
            old(self).valid_shader(data.vs),
            old(self).valid_shader(data.ps),
            match data.gs {
                Some(g) => old(self).valid_shader(g),
                None => true,
            },
        ensures
            final(self)@ == old(self)@.push((Slot { refs: 1u64, res: Resource::Program(data) })),
            h.id() == old(self)@.len(),
            final(self).wf(),
    {
        let i = self.push_slot(Resource::Program(data));
        ProgramHandle { idx: i }
    }

    /// Register a pipeline state.  Its program handle must be valid.
    pub fn make_pipeline(&mut self, data: PipelineData) -> (h: PipelineHandle)
        requires
            old(self).wf(),
            old(self).valid_program(data.program),
        ensures
            final(self)@ == old(self)@.push((Slot { refs: 1u64, res: Resource::Pipeline(data) })),
            h.id() == old(self)@.len(),
            final(self).wf(),
    {
        let i = self.push_slot(Resource::Pipeline(data));
        PipelineHandle { idx: i }
    }

    /// Register a shader-resource view over a valid texture.
    pub fn make_texture_srv(&mut self, data: ViewData) -> (h: SrvHandle)
        requires
            old(self).wf(),
            old(self).valid_texture(data.texture),
        ensures
            final(self)@ == old(self)@.push(
                (Slot { refs: 1u64, res: Resource::ShaderResourceView(data) }),
            ),
            h.id() == old(self)@.len(),
            final(self).wf(),
    {
        let i = self.push_slot(Resource::ShaderResourceView(data));
        SrvHandle { idx: i }
    }

    /// Register a render-target view over a valid texture.
    pub fn make_rtv(&mut self, data: TargetViewData) -> (h: RtvHandle)
        requires
            old(self).wf(),
            old(self).valid_texture(data.view.texture),
        ensures
            final(self)@ == old(self)@.push(
                (Slot { refs: 1u64, res: Resource::RenderTargetView(data) }),
            ),
            h.id() == old(self)@.len(),
            final(self).wf(),
    {
        let i = self.push_slot(Resource::RenderTargetView(data));
        RtvHandle { idx: i }
    }

    /// Register a depth-stencil view over a valid texture.
    pub fn make_dsv(&mut self, data: TargetViewData) -> (h: DsvHandle)
        requires
            old(self).wf(),
            old(self).valid_texture(data.view.texture),
        ensures
            final(self)@ == old(self)@.push(
                (Slot { refs: 1u64, res: Resource::DepthStencilView(data) }),
            ),
            h.id() == old(self)@.len(),
            final(self).wf(),
    {
        let i = self.push_slot(Resource::DepthStencilView(data));
        DsvHandle { idx: i }
    }

    /// Register a native sampler with its descriptor.
    pub fn make_sampler(&mut self, native: u64, info: SamplerInfo) -> (h: SamplerHandle)
        requires
            old(self).wf(),
        ensures
            final(self)@ == old(self)@.push(
                (Slot { refs: 1u64, res: Resource::Sampler(SamplerData { native, info }) }),
            ),
            h.id() == old(self)@.len(),
            final(self).wf(),
    {
        let i = self.push_slot(Resource::Sampler(SamplerData { native, info }));
        SamplerHandle { idx: i }
    }

    /// Take one more reference on the shader behind a handle: programs share
    /// compiled shader objects.
    pub fn add_shader_ref(&mut self, h: ShaderHandle)
        requires
            old(self).wf(),
            old(self).valid_shader(h),
            old(self)@[h.id()].refs < u64::MAX,
        ensures
            final(self)@ == old(self)@.update(
                h.id(),
                (Slot { refs: (old(self)@[h.id()].refs + 1) as u64, res: old(self)@[h.id()].res }),
            ),
            final(self).wf(),
    {
        let slot = &mut self.slots[h.idx];
        slot.refs = slot.refs + 1;
        proof {
            assert forall|j: int| 0 <= j < self@.len() implies #[trigger] slot_wf(self@, j) by {
                assert(slot_wf(old(self)@, j));
                assert forall|k: int| 0 <= k < self@.len() implies self@[k].res == old(
                    self,
                )@[k].res by {}
            }
        }
    }

    /// The descriptor a texture was created from.
    pub fn texture_desc(&self, h: TextureHandle) -> (d: TextureDesc)
        requires
            self.valid_texture(h),
        ensures
            d == self.spec_texture(h.id()).desc,
    {
        match &self.slots[h.idx].res {
            Resource::Texture(t) => t.desc,
            _ => unreached(),
        }
    }

    /// A shader's stage.
    pub fn shader_stage(&self, h: ShaderHandle) -> (s: Stage)
        requires
            self.valid_shader(h),
        ensures
            s == self.spec_shader(h.id()).stage,
    {
        match &self.slots[h.idx].res {
            Resource::Shader(sd) => sd.stage,
            _ => unreached(),
        }
    }

    /// A shader's bytecode content hash.
    pub fn shader_hash(&self, h: ShaderHandle) -> (r: u64)
        requires
            self.valid_shader(h),
        ensures
            r == self.spec_shader(h.id()).code_hash,
    {
        match &self.slots[h.idx].res {
            Resource::Shader(sd) => sd.code_hash,
            _ => unreached(),
        }
    }

    /// A shader's reflection metadata.
    pub fn shader_reflection(&self, h: ShaderHandle) -> (r: &StageReflection)
        requires
            self.valid_shader(h),
        ensures
            *r == self.spec_shader(h.id()).reflection,
    {
        match &self.slots[h.idx].res {
            Resource::Shader(sd) => &sd.reflection,
            _ => unreached(),
        }
    }

    /// A program's vertex-shader content hash.
    pub fn program_vs_hash(&self, h: ProgramHandle) -> (r: u64)
        requires
            self.valid_program(h),
        ensures
            r == self.spec_program(h.id()).vs_hash,
    {
        match &self.slots[h.idx].res {
            Resource::Program(pd) => pd.vs_hash,
            _ => unreached(),
        }
    }

    /// A program's aggregated reflection.
    pub fn program_info(&self, h: ProgramHandle) -> (r: &ProgramInfo)
        requires
            self.valid_program(h),
        ensures
            *r == self.spec_program(h.id()).info,
    {
        match &self.slots[h.idx].res {
            Resource::Program(pd) => &pd.info,
            _ => unreached(),
        }
    }

    /// Validity of view and sampler handles.
    pub open spec fn valid_srv(self, h: SrvHandle) -> bool {
        0 <= h.id() < self@.len() && self@[h.id()].res is ShaderResourceView
    }

    pub open spec fn valid_rtv(self, h: RtvHandle) -> bool {
        0 <= h.id() < self@.len() && self@[h.id()].res is RenderTargetView
    }

    pub open spec fn valid_dsv(self, h: DsvHandle) -> bool {
        0 <= h.id() < self@.len() && self@[h.id()].res is DepthStencilView
    }

    pub open spec fn valid_pipeline(self, h: PipelineHandle) -> bool {
        0 <= h.id() < self@.len() && self@[h.id()].res is Pipeline
    }

    pub open spec fn valid_sampler(self, h: SamplerHandle) -> bool {
        0 <= h.id() < self@.len() && self@[h.id()].res is Sampler
    }

    /// A registered shader-resource view.
    pub fn srv_data(&self, h: SrvHandle) -> (d: ViewData)
        requires
            self.valid_srv(h),
        ensures
            d == self@[h.id()].res->ShaderResourceView_0,
    {
        match &self.slots[h.idx].res {
            Resource::ShaderResourceView(v) => *v,
            _ => unreached(),
        }
    }

    /// A registered render-target view.
    pub fn rtv_data(&self, h: RtvHandle) -> (d: TargetViewData)
        requires
            self.valid_rtv(h),
        ensures
            d == self@[h.id()].res->RenderTargetView_0,
    {
        match &self.slots[h.idx].res {
            Resource::RenderTargetView(v) => *v,
            _ => unreached(),
        }
    }

    /// A registered depth-stencil view.
    pub fn dsv_data(&self, h: DsvHandle) -> (d: TargetViewData)
        requires
            self.valid_dsv(h),
        ensures
            d == self@[h.id()].res->DepthStencilView_0,
    {
        match &self.slots[h.idx].res {
            Resource::DepthStencilView(v) => *v,
            _ => unreached(),
        }
    }

    /// A registered pipeline state.
    pub fn pipeline_data(&self, h: PipelineHandle) -> (d: PipelineData)
        requires
            self.valid_pipeline(h),
        ensures
            d == self@[h.id()].res->Pipeline_0,
    {
        match &self.slots[h.idx].res {
            Resource::Pipeline(p) => *p,
            _ => unreached(),
        }
    }

    /// The descriptor a sampler was created from.
    pub fn sampler_info(&self, h: SamplerHandle) -> (info: SamplerInfo)
        requires
            self.valid_sampler(h),
        ensures
            info == self@[h.id()].res->Sampler_0.info,
    {
        match &self.slots[h.idx].res {
            Resource::Sampler(s) => s.info,
            _ => unreached(),
        }
    }

    /// The descriptor a buffer was created from.
    pub fn buffer_info(&self, h: BufferHandle) -> (info: BufferInfo)
        requires
            self.valid_buffer(h),
        ensures
            info == self@[h.id()].res->Buffer_0.info,
    {
        match &self.slots[h.idx].res {
            Resource::Buffer(b) => b.info,
            _ => unreached(),
        }
    }

    /// The reference count of a slot.
    pub fn slot_refs(&self, i: usize) -> (r: u64)
        requires
            i < self@.len(),
        ensures
            r == self@[i as int].refs,
    {
        self.slots[i].refs
    }
}

} // verus!
