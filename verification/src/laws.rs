//! The general laws of the walker and the engine, each proved from the
//! public specification functions alone.

use vstd::prelude::*;
use crate::CauseTag;
use crate::resolve::{
    field_outcome, recognized, resolve_spec, scan_annotations, scan_fields, scan_variants,
    tagged, variant_error, variant_outcome, VariantIssue,
};
use crate::schema::{
    AnnotationView, CauseSelection, FieldDeclView, SynthesisError, TypeSchemaView, TypeShapeView,
    VariantKind, VariantShapeView,
};
use crate::synth::{
    arm_spec, binding_name, bindings_spec, body_spec, placeholder, synthesize_spec, BindingsView,
    CauseExprView, DispatchBodyView, MatchArmView,
};

verus! {

/// Scanning annotations none of which is recognized leaves the parsed tag as
/// it was.
proof fn lemma_scan_annotations_untagged(anns: Seq<AnnotationView>, i: int, found: Option<CauseTag>)
    requires
        forall|k: int| i <= k < anns.len() ==> !recognized(#[trigger] anns[k]),
    ensures
        scan_annotations(anns, i, found) == Ok::<Option<CauseTag>, ()>(found),
    decreases anns.len() - i,
{
    if 0 <= i < anns.len() {
        lemma_scan_annotations_untagged(anns, i + 1, found);
    }
}

/// A field with no recognized annotation contributes nothing to cause
/// selection.
pub proof fn lemma_untagged_field(f: FieldDeclView)
    requires
        !tagged(f),
    ensures
        field_outcome(f) == Ok::<Option<CauseTag>, ()>(None),
{
    lemma_scan_annotations_untagged(f.annotations, 0, None);
}

/// Walking a stretch of fields that contribute nothing leaves the walk's
/// state as it was.
proof fn lemma_scan_fields_inert_range(
    fields: Seq<FieldDeclView>,
    i: int,
    j: int,
    found: Option<(usize, CauseTag)>,
)
    requires
        0 <= i <= j <= fields.len(),
        forall|k: int| i <= k < j ==> field_outcome(#[trigger] fields[k]) == Ok::<
            Option<CauseTag>,
            (),
        >(None),
    ensures
        scan_fields(fields, i, found) == scan_fields(fields, j, found),
    decreases j - i,
{
    if i < j {
        lemma_scan_fields_inert_range(fields, i + 1, j, found);
    }
}

/// For a variant with no tagged field, the resolved selection is the no-cause
/// selection and the generated arm yields the no-cause sentinel.
pub proof fn lemma_no_tagged_field(v: VariantShapeView)
    requires
        forall|i: int| 0 <= i < v.fields.len() ==> !tagged(#[trigger] v.fields[i]),
    ensures
        variant_outcome(v) == Ok::<CauseSelection, VariantIssue>(CauseSelection::NoCause),
        arm_spec(v, CauseSelection::NoCause).expr == CauseExprView::NoCause,
{
    assert forall|k: int| 0 <= k < v.fields.len() implies field_outcome(#[trigger] v.fields[k])
        == Ok::<Option<CauseTag>, ()>(None) by {
        lemma_untagged_field(v.fields[k]);
    }
    lemma_scan_fields_inert_range(v.fields, 0, v.fields.len() as int, None);
}

/// For a variant whose single tagged field is at position `j` and parses to
/// `tag`, the resolved selection points at that field with that tag, and the
/// generated arm yields that field's binding — directly for a direct tag, and
/// through the binding's own cause lookup for a deferred one.
pub proof fn lemma_single_tagged_field(v: VariantShapeView, j: usize, tag: CauseTag)
    requires
        j < v.fields.len(),
        field_outcome(v.fields[j as int]) == Ok::<Option<CauseTag>, ()>(Some(tag)),
        forall|i: int| 0 <= i < v.fields.len() && i != j ==> !tagged(#[trigger] v.fields[i]),
    ensures
        variant_outcome(v) == Ok::<CauseSelection, VariantIssue>(
            CauseSelection::CauseAt { field: j, tag },
        ),
        arm_spec(v, CauseSelection::CauseAt { field: j, tag }).expr == (match tag {
            CauseTag::Direct => CauseExprView::Direct(binding_name(v.fields[j as int], j as int)),
            CauseTag::Deferred => CauseExprView::Deferred(
                binding_name(v.fields[j as int], j as int),
            ),
        }),
{
    assert forall|k: int| 0 <= k < v.fields.len() && k != j implies field_outcome(
        #[trigger] v.fields[k],
    ) == Ok::<Option<CauseTag>, ()>(None) by {
        lemma_untagged_field(v.fields[k]);
    }
    lemma_scan_fields_inert_range(v.fields, 0, j as int, None);
    lemma_scan_fields_inert_range(v.fields, j + 1, v.fields.len() as int, Some((j, tag)));
}

/// For a variant whose first two tagged fields are at positions `j1 < j2`,
/// both with well-formed payloads, resolution fails as a duplicate-cause
/// failure attributed to the second tagged field.
pub proof fn lemma_duplicate_cause(
    v: VariantShapeView,
    j1: usize,
    j2: usize,
    t1: CauseTag,
    t2: CauseTag,
)
    requires
        j1 < j2 < v.fields.len(),
        field_outcome(v.fields[j1 as int]) == Ok::<Option<CauseTag>, ()>(Some(t1)),
        field_outcome(v.fields[j2 as int]) == Ok::<Option<CauseTag>, ()>(Some(t2)),
        forall|i: int| 0 <= i < j2 && i != j1 ==> !tagged(#[trigger] v.fields[i]),
    ensures
        variant_outcome(v) == Err::<CauseSelection, VariantIssue>(
            VariantIssue::Duplicate { field: j2 },
        ),
{
    assert forall|k: int| 0 <= k < j2 && k != j1 implies field_outcome(#[trigger] v.fields[k])
        == Ok::<Option<CauseTag>, ()>(None) by {
        lemma_untagged_field(v.fields[k]);
    }
    lemma_scan_fields_inert_range(v.fields, 0, j1 as int, None);
    lemma_scan_fields_inert_range(v.fields, j1 + 1, j2 as int, Some((j1, t1)));
}

/// Resolving a list of variants surfaces the first failing variant's
/// failure, attributed to that variant.
proof fn lemma_scan_variants_first_err(
    vs: Seq<VariantShapeView>,
    i: int,
    k: int,
    acc: Seq<CauseSelection>,
    issue: VariantIssue,
)
    requires
        0 <= i <= k < vs.len(),
        forall|m: int| i <= m < k ==> (variant_outcome(#[trigger] vs[m]) matches Ok(_)),
        variant_outcome(vs[k]) == Err::<CauseSelection, VariantIssue>(issue),
    ensures
        scan_variants(vs, i, acc) == Err::<Seq<CauseSelection>, SynthesisError>(
            variant_error(issue, k as usize),
        ),
    decreases k - i,
{
    if i < k {
        match variant_outcome(vs[i]) {
            Ok(sel) => {
                lemma_scan_variants_first_err(vs, i + 1, k, acc.push(sel), issue);
            },
            Err(_) => {},
        }
    }
}

/// For a schema one of whose variants carries two tagged fields (its earlier
/// variants all resolving), resolution of the whole schema fails with the
/// duplicate-cause failure, attributed to that variant and to its second
/// tagged field, and produces no output.
pub proof fn lemma_duplicate_cause_resolution(
    s: TypeSchemaView,
    vs: Seq<VariantShapeView>,
    k: usize,
    j1: usize,
    j2: usize,
    t1: CauseTag,
    t2: CauseTag,
)
    requires
        s.shape == TypeShapeView::Variants(vs),
        k < vs.len(),
        forall|m: int| 0 <= m < k ==> (variant_outcome(#[trigger] vs[m]) matches Ok(_)),
        j1 < j2 < vs[k as int].fields.len(),
        field_outcome(vs[k as int].fields[j1 as int]) == Ok::<Option<CauseTag>, ()>(Some(t1)),
        field_outcome(vs[k as int].fields[j2 as int]) == Ok::<Option<CauseTag>, ()>(Some(t2)),
        forall|i: int| 0 <= i < j2 && i != j1 ==> !tagged(#[trigger] vs[k as int].fields[i]),
    ensures
        resolve_spec(s) == Err::<Seq<CauseSelection>, SynthesisError>(
            SynthesisError::DuplicateCauseField { variant: k, field: j2 },
        ),
        synthesize_spec(s) == Err::<crate::synth::GeneratedImplView, SynthesisError>(
            SynthesisError::DuplicateCauseField { variant: k, field: j2 },
        ),
{
    lemma_duplicate_cause(vs[k as int], j1, j2, t1, t2);
    lemma_scan_variants_first_err(
        vs,
        0,
        k as int,
        Seq::empty(),
        VariantIssue::Duplicate { field: j2 },
    );
}

/// For a well-formed variant the synthesized pattern follows its kind: a unit
/// variant captures nothing, a positional variant binds the deterministic
/// placeholder of each field position, and a named variant binds each field's
/// declared name.
pub proof fn lemma_bindings_follow_kind(v: VariantShapeView)
    requires
        v.wf(),
    ensures
        v.kind == VariantKind::Unit ==> bindings_spec(v) == BindingsView::Unit,
        v.kind == VariantKind::Positional ==> bindings_spec(v) == BindingsView::Positional(
            Seq::new(v.fields.len(), |i: int| placeholder(i)),
        ),
        v.kind == VariantKind::Named ==> bindings_spec(v) == BindingsView::Named(
            Seq::new(v.fields.len(), |i: int| v.fields[i].name->Some_0),
        ),
{
    if v.kind == VariantKind::Named {
        assert(Seq::new(v.fields.len(), |i: int| binding_name(v.fields[i], i)) =~= Seq::new(
            v.fields.len(),
            |i: int| v.fields[i].name->Some_0,
        ));
    }
}

/// An uninhabited schema resolves to the empty sequence, and the synthesized
/// dispatch body has no arms at all.
pub proof fn lemma_uninhabited(s: TypeSchemaView)
    requires
        s.shape == TypeShapeView::Variants(Seq::<VariantShapeView>::empty()),
    ensures
        resolve_spec(s) == Ok::<Seq<CauseSelection>, SynthesisError>(Seq::empty()),
        synthesize_spec(s) matches Ok(g) && g.body == DispatchBodyView::Arms(
            Seq::<MatchArmView>::empty(),
        ),
{
    let g = synthesize_spec(s)->Ok_0;
    assert(g.body == body_spec(s, Seq::empty()));
    assert(Seq::new(0, |i: int| arm_spec(Seq::<VariantShapeView>::empty()[i], Seq::<
        CauseSelection,
    >::empty()[i])) =~= Seq::<MatchArmView>::empty());
}

} // verus!
