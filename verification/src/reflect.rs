//! Reflection metadata over compiled shader bytecode, and its aggregation
//! into program-wide information.
//!
//! Reflection itself is the work of an external collaborator that inspects
//! the bytecode; the factory consumes its output as plain values.  Resource
//! names are interned identifiers; the byte strings behind them stay with
//! the collaborator.

use vstd::prelude::*;

verus! {

/// One vertex attribute found by reflection: its interned semantic name and
/// the input slot it binds to.
#[derive(Clone, Copy, Debug, PartialEq, Eq, Structural)]
pub struct AttributeVar {
    pub name: u64,
    pub slot: u8,
}

/// What reflection found in one stage's bytecode: bound resources by
/// category, as interned names, in the order the bytecode declares them.
pub struct StageReflection {
    pub vertex_attributes: Vec<AttributeVar>,
    pub globals: Vec<u64>,
    pub constant_buffers: Vec<u64>,
    pub textures: Vec<u64>,
    pub unordereds: Vec<u64>,
    pub samplers: Vec<u64>,
    pub outputs: Vec<u64>,
}

impl StageReflection {
    /// Reflection of a stage that binds nothing.
    pub fn empty() -> (r: StageReflection)
        ensures
            r.vertex_attributes@ == Seq::<AttributeVar>::empty(),
            r.globals@ == Seq::<u64>::empty(),
            r.constant_buffers@ == Seq::<u64>::empty(),
            r.textures@ == Seq::<u64>::empty(),
            r.unordereds@ == Seq::<u64>::empty(),
            r.samplers@ == Seq::<u64>::empty(),
            r.outputs@ == Seq::<u64>::empty(),
    {
        StageReflection {
            vertex_attributes: Vec::new(),
            globals: Vec::new(),
            constant_buffers: Vec::new(),
            textures: Vec::new(),
            unordereds: Vec::new(),
            samplers: Vec::new(),
            outputs: Vec::new(),
        }
    }
}

/// Aggregated reflection of a whole program.
pub struct ProgramInfo {
    pub vertex_attributes: Vec<AttributeVar>,
    pub globals: Vec<u64>,
    pub constant_buffers: Vec<u64>,
    pub textures: Vec<u64>,
    pub unordereds: Vec<u64>,
    pub samplers: Vec<u64>,
    pub outputs: Vec<u64>,
    pub knows_outputs: bool,
}

/// Copy a vector of plain values.
fn copy_vec<T: Copy>(v: &Vec<T>) -> (out: Vec<T>)
    ensures
        out@ == v@,
{
    let mut out: Vec<T> = Vec::new();
    let mut i: usize = 0;
    while i < v.len()
        invariant
            i <= v@.len(),
            out@ == v@.take(i as int),
        decreases v@.len() - i,
    {
        out.push(v[i]);
        i = i + 1;
        proof {
            assert(v@.take(i as int) =~= v@.take(i as int - 1).push(v@[i as int - 1]));
        }
    }
    proof {
        assert(v@.take(v@.len() as int) =~= v@);
    }
    out
}

/// Concatenate three vectors of plain values, left to right.
fn concat3<T: Copy>(a: &Vec<T>, b: &Vec<T>, c: &Vec<T>) -> (out: Vec<T>)
    ensures
        out@ == a@ + b@ + c@,
{
    let mut out: Vec<T> = copy_vec(a);
    let mut bb: Vec<T> = copy_vec(b);
    let mut cc: Vec<T> = copy_vec(c);
    out.append(&mut bb);
    out.append(&mut cc);
    out
}

/// Program-wide reflection is exactly the stages' reflection concatenated
/// in stage order — vertex, then geometry when present, then pixel — in
/// every category, with duplicates across stages preserved as they are.
pub open spec fn spec_info_matches(
    info: ProgramInfo,
    vs: StageReflection,
    gs: Option<StageReflection>,
    ps: StageReflection,
) -> bool {
    &&& info.vertex_attributes@ == vs.vertex_attributes@ + (match gs {
        Some(g) => g.vertex_attributes@,
        None => Seq::<AttributeVar>::empty(),
    }) + ps.vertex_attributes@
    &&& info.globals@ == vs.globals@ + (match gs {
        Some(g) => g.globals@,
        None => Seq::<u64>::empty(),
    }) + ps.globals@
    &&& info.constant_buffers@ == vs.constant_buffers@ + (match gs {
        Some(g) => g.constant_buffers@,
        None => Seq::<u64>::empty(),
    }) + ps.constant_buffers@
    &&& info.textures@ == vs.textures@ + (match gs {
        Some(g) => g.textures@,
        None => Seq::<u64>::empty(),
    }) + ps.textures@
    &&& info.unordereds@ == vs.unordereds@ + (match gs {
        Some(g) => g.unordereds@,
        None => Seq::<u64>::empty(),
    }) + ps.unordereds@
    &&& info.samplers@ == vs.samplers@ + (match gs {
        Some(g) => g.samplers@,
        None => Seq::<u64>::empty(),
    }) + ps.samplers@
    &&& info.outputs@ == vs.outputs@ + (match gs {
        Some(g) => g.outputs@,
        None => Seq::<u64>::empty(),
    }) + ps.outputs@
    &&& info.knows_outputs == true
}

/// Aggregate per-stage reflection into one program-wide structure.
///
/// Every category is the concatenation of the stages' lists in stage order:
/// vertex, then geometry when present, then pixel.  Duplicate names across
/// stages are preserved as they are; callers must not expect merging.
pub fn aggregate_info(vs: &StageReflection, gs: Option<&StageReflection>, ps: &StageReflection) -> (
    info: ProgramInfo)
    ensures
        spec_info_matches(
            info,
            *vs,
            match gs {
                Some(g) => Some(*g),
                None => None,
            },
            *ps,
        ),
{
    let empty = StageReflection::empty();
    let mid: &StageReflection = match gs {
        Some(g) => g,
        None => &empty,
    };
    ProgramInfo {
        vertex_attributes: concat3(&vs.vertex_attributes, &mid.vertex_attributes, &ps.vertex_attributes),
        globals: concat3(&vs.globals, &mid.globals, &ps.globals),
        constant_buffers: concat3(&vs.constant_buffers, &mid.constant_buffers, &ps.constant_buffers),
        textures: concat3(&vs.textures, &mid.textures, &ps.textures),
        unordereds: concat3(&vs.unordereds, &mid.unordereds, &ps.unordereds),
        samplers: concat3(&vs.samplers, &mid.samplers, &ps.samplers),
        outputs: concat3(&vs.outputs, &mid.outputs, &ps.outputs),
        knows_outputs: true,
    }
}

} // verus!
