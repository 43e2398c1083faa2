//! Building the native input-element list of a pipeline: the program's
//! reflected vertex attributes zipped with the descriptor's per-slot
//! bindings.
//!
//! A slot with no binding is skipped — the slot is simply unused by the
//! pipeline.  A bound attribute must have a two-byte-aligned offset and an
//! abstract format the format mapper can resolve; either violation is a
//! hard error, reported for the first offending slot in order.

use vstd::prelude::*;

use crate::reflect::AttributeVar;
use crate::translate::{map_format, spec_map_format};
use crate::types::{ChannelType, PipelineError, SurfaceType};

verus! {

/// One vertex attribute of a pipeline descriptor: its abstract format and
/// byte offset within the vertex.
#[derive(Clone, Copy, Debug, PartialEq, Eq, Structural)]
pub struct VertexElement {
    pub surface: SurfaceType,
    pub channel: ChannelType,
    pub offset: u32,
}

/// A per-slot attribute binding: the element and its instance rate (zero
/// for per-vertex data).
#[derive(Clone, Copy, Debug, PartialEq, Eq, Structural)]
pub struct AttributeBinding {
    pub element: VertexElement,
    pub instance_rate: u8,
}

/// One entry of the native input-element list.
#[derive(Clone, Copy, Debug, PartialEq, Eq, Structural)]
pub struct InputElement {
    /// Interned semantic name of the attribute.
    pub name: u64,
    /// Input slot.
    pub slot: u8,
    /// Native format code.
    pub format: u32,
    /// Aligned byte offset.
    pub offset: u32,
    /// Per-instance rather than per-vertex data.
    pub per_instance: bool,
    /// Instance step rate.
    pub step_rate: u8,
}

/// The layout built from the first `n` zipped (attribute, binding) pairs,
/// or the first error among them: an odd offset reports `Misaligned`, an
/// unmappable format `UnmappableFormat`, the offset checked first.
pub open spec fn spec_layout_prefix(
    attrs: Seq<AttributeVar>,
    binds: Seq<Option<AttributeBinding>>,
    n: int,
) -> Result<Seq<InputElement>, PipelineError>
    decreases n,
{
    if n <= 0 {
        Ok(Seq::<InputElement>::empty())
    } else {
        match spec_layout_prefix(attrs, binds, n - 1) {
            Err(e) => Err(e),
            Ok(s) => match binds[n - 1] {
                None => Ok(s),
                Some(b) => if b.element.offset % 2 != 0 {
                    Err(PipelineError::Misaligned(b.element.offset))
                } else {
                    match spec_map_format(b.element.surface, b.element.channel, false) {
                        None => Err(
                            PipelineError::UnmappableFormat(b.element.surface, b.element.channel),
                        ),
                        Some(fmt) => Ok(
                            s.push(
                                InputElement {
                                    name: attrs[n - 1].name,
                                    slot: attrs[n - 1].slot,
                                    format: fmt,
                                    offset: b.element.offset,
                                    per_instance: b.instance_rate != 0,
                                    step_rate: b.instance_rate,
                                },
                            ),
                        ),
                    }
                },
            },
        }
    }
}

/// How many (attribute, binding) pairs the zip walks: the shorter length.
pub open spec fn spec_zip_len(attrs: Seq<AttributeVar>, binds: Seq<Option<AttributeBinding>>) -> int {
    if attrs.len() <= binds.len() {
        attrs.len() as int
    } else {
        binds.len() as int
    }
}

/// The input-element list of a whole descriptor, or its first error.
pub open spec fn spec_build_layout(
    attrs: Seq<AttributeVar>,
    binds: Seq<Option<AttributeBinding>>,
) -> Result<Seq<InputElement>, PipelineError> {
    spec_layout_prefix(attrs, binds, spec_zip_len(attrs, binds))
}

/// Once a prefix fails, every longer prefix fails the same way.
proof fn lemma_layout_prefix_err(
    attrs: Seq<AttributeVar>,
    binds: Seq<Option<AttributeBinding>>,
    i: int,
    n: int,
)
    requires
        0 <= i <= n,
        spec_layout_prefix(attrs, binds, i) is Err,
    ensures
        spec_layout_prefix(attrs, binds, n) == spec_layout_prefix(attrs, binds, i),
    decreases n - i,
{
    if n > i {
        lemma_layout_prefix_err(attrs, binds, i, n - 1);
    }
}

/// Build the native input-element list.
pub fn build_input_layout(attrs: &Vec<AttributeVar>, binds: &Vec<Option<AttributeBinding>>) -> (r:
    Result<Vec<InputElement>, PipelineError>)
    ensures
        match r {
            Ok(v) => spec_build_layout(attrs@, binds@) == Ok::<Seq<InputElement>, PipelineError>(
                v@,
            ),
            Err(e) => spec_build_layout(attrs@, binds@) == Err::<Seq<InputElement>, PipelineError>(
                e,
            ),
        },
{
    let n: usize = if attrs.len() <= binds.len() {
        attrs.len()
    } else {
        binds.len()
    };
    let mut out: Vec<InputElement> = Vec::new();
    let mut i: usize = 0;
    while i < n
        invariant
            i <= n,
            n == spec_zip_len(attrs@, binds@),
            n <= attrs@.len(),
            n <= binds@.len(),
            spec_layout_prefix(attrs@, binds@, i as int) == Ok::<Seq<InputElement>, PipelineError>(
                out@,
            ),
        decreases n - i,
    {
        match binds[i] {
            None => (),
            Some(b) => {
                if b.element.offset % 2 != 0 {
                    proof {
                        lemma_layout_prefix_err(attrs@, binds@, i as int + 1, n as int);
                    }
                    return Err(PipelineError::Misaligned(b.element.offset));
                }
                match map_format(b.element.surface, b.element.channel, false) {
                    None => {
                        proof {
                            lemma_layout_prefix_err(attrs@, binds@, i as int + 1, n as int);
                        }
                        return Err(
                            PipelineError::UnmappableFormat(b.element.surface, b.element.channel),
                        );
                    },
                    Some(fmt) => {
                        let a = attrs[i];
                        out.push(
                            InputElement {
                                name: a.name,
                                slot: a.slot,
                                format: fmt,
                                offset: b.element.offset,
                                per_instance: b.instance_rate != 0,
                                step_rate: b.instance_rate,
                            },
                        );
                    },
                }
            },
        }
        i = i + 1;
    }
    Ok(out)
}

/// When every bound element in reach of the zip has an even offset, the
/// layout never fails for misalignment — whatever else it may fail for.
pub proof fn lemma_even_offsets_never_misaligned(
    attrs: Seq<AttributeVar>,
    binds: Seq<Option<AttributeBinding>>,
)
    requires
        forall|j: int|
            0 <= j < spec_zip_len(attrs, binds) && #[trigger] binds[j] is Some
                ==> binds[j]->0.element.offset % 2 == 0,
    ensures
        !(spec_build_layout(attrs, binds) matches Err(PipelineError::Misaligned(_))),
{
    lemma_even_offsets_prefix(attrs, binds, spec_zip_len(attrs, binds));
}

proof fn lemma_even_offsets_prefix(
    attrs: Seq<AttributeVar>,
    binds: Seq<Option<AttributeBinding>>,
    n: int,
)
    requires
        n <= spec_zip_len(attrs, binds),
        forall|j: int|
            0 <= j < spec_zip_len(attrs, binds) && #[trigger] binds[j] is Some
                ==> binds[j]->0.element.offset % 2 == 0,
    ensures
        !(spec_layout_prefix(attrs, binds, n) matches Err(PipelineError::Misaligned(_))),
    decreases n,
{
    if n > 0 {
        lemma_even_offsets_prefix(attrs, binds, n - 1);
    }
}

/// A bound element with an odd offset fails the layout with `Misaligned`
/// carrying that offset, when every earlier bound element is even and
/// mappable (so that no earlier error preempts it).
pub proof fn lemma_odd_offset_misaligned(
    attrs: Seq<AttributeVar>,
    binds: Seq<Option<AttributeBinding>>,
    j: int,
)
    requires
        0 <= j < spec_zip_len(attrs, binds),
        binds[j] is Some,
        binds[j]->0.element.offset % 2 != 0,
        forall|k: int|
            0 <= k < j && #[trigger] binds[k] is Some ==> binds[k]->0.element.offset % 2 == 0
                && spec_map_format(binds[k]->0.element.surface, binds[k]->0.element.channel, false)
                is Some,
    ensures
        spec_build_layout(attrs, binds) == Err::<Seq<InputElement>, PipelineError>(
            PipelineError::Misaligned(binds[j]->0.element.offset),
        ),
{
    lemma_clean_prefix_ok(attrs, binds, j);
    lemma_layout_prefix_err(attrs, binds, j + 1, spec_zip_len(attrs, binds));
}

/// A prefix whose bound elements are all even and mappable builds cleanly.
proof fn lemma_clean_prefix_ok(
    attrs: Seq<AttributeVar>,
    binds: Seq<Option<AttributeBinding>>,
    n: int,
)
    requires
        n <= spec_zip_len(attrs, binds),
        forall|k: int|
            0 <= k < n && #[trigger] binds[k] is Some ==> binds[k]->0.element.offset % 2 == 0
                && spec_map_format(binds[k]->0.element.surface, binds[k]->0.element.channel, false)
                is Some,
    ensures
        spec_layout_prefix(attrs, binds, n) is Ok,
    decreases n,
{
    if n > 0 {
        lemma_clean_prefix_ok(attrs, binds, n - 1);
    }
}

} // verus!
