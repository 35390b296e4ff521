//! The schema walker: scans each variant's fields in declaration order,
//! parses the recognized annotation on a tagged field, and resolves the
//! variant's cause selection, rejecting malformed payloads and duplicate
//! tagged fields.

use vstd::prelude::*;
use vstd::string::*;
use crate::CauseTag;
use crate::schema::{
    Annotation, AnnotationView, CauseSelection, FieldDecl, FieldDeclView, SynthesisError,
    TypeSchema, TypeSchemaView, TypeShape, TypeShapeView, VariantShape, VariantShapeView,
};

verus! {

/// A failure local to one variant, attributed to the offending field.
#[derive(Clone, Copy, PartialEq, Eq, Structural, Debug)]
pub enum VariantIssue {
    Malformed { field: usize },
    Duplicate { field: usize },
}

/// An annotation participates in cause selection exactly when it carries the
/// recognized tag.
pub open spec fn recognized(a: AnnotationView) -> bool {
    a.tag == "error"@
}

/// The payload word that marks the tagged field itself as the cause.
pub open spec fn word_direct() -> Seq<char> {
    "source"@
}

/// The payload word that defers to the tagged field's own cause.
pub open spec fn word_deferred() -> Seq<char> {
    "defer"@
}

/// Walks one field's annotations from position `i` on, `found` holding the
/// tag parsed so far: a second recognized annotation on the same field, a
/// payload that is not exactly one word, and a word other than the two
/// recognized ones are all malformed.
pub open spec fn scan_annotations(
    anns: Seq<AnnotationView>,
    i: int,
    found: Option<CauseTag>,
) -> Result<Option<CauseTag>, ()>
    decreases anns.len() - i,
{
    if i < 0 || i >= anns.len() {
        Ok(found)
    } else if !recognized(anns[i]) {
        scan_annotations(anns, i + 1, found)
    } else if found is Some {
        Err(())
    } else if anns[i].words.len() != 1 {
        Err(())
    } else if anns[i].words[0] == word_direct() {
        scan_annotations(anns, i + 1, Some(CauseTag::Direct))
    } else if anns[i].words[0] == word_deferred() {
        scan_annotations(anns, i + 1, Some(CauseTag::Deferred))
    } else {
        Err(())
    }
}

/// What one field contributes to cause selection: nothing, a tag, or a
/// malformed-annotation failure.
pub open spec fn field_outcome(f: FieldDeclView) -> Result<Option<CauseTag>, ()> {
    scan_annotations(f.annotations, 0, None)
}

/// A field is tagged when at least one of its annotations is recognized.
pub open spec fn tagged(f: FieldDeclView) -> bool {
    exists|i: int| 0 <= i < f.annotations.len() && recognized(#[trigger] f.annotations[i])
}

/// Walks a variant's fields from position `i` on, `found` holding the tagged
/// field seen so far: a malformed field fails at that field, a second tagged
/// field is a duplicate-cause failure at that field.
pub open spec fn scan_fields(
    fields: Seq<FieldDeclView>,
    i: int,
    found: Option<(usize, CauseTag)>,
) -> Result<CauseSelection, VariantIssue>
    decreases fields.len() - i,
{
    if i < 0 || i >= fields.len() {
        Ok(
            match found {
                None => CauseSelection::NoCause,
                Some((j, t)) => CauseSelection::CauseAt { field: j, tag: t },
            },
        )
    } else {
        match field_outcome(fields[i]) {
            Err(_) => Err(VariantIssue::Malformed { field: i as usize }),
            Ok(None) => scan_fields(fields, i + 1, found),
            Ok(Some(t)) => if found is Some {
                Err(VariantIssue::Duplicate { field: i as usize })
            } else {
                scan_fields(fields, i + 1, Some((i as usize, t)))
            },
        }
    }
}

/// The resolved cause selection of one variant, or its first failure in
/// field order.
pub open spec fn variant_outcome(v: VariantShapeView) -> Result<CauseSelection, VariantIssue> {
    scan_fields(v.fields, 0, None)
}

/// Attributes a variant-local failure to the variant's position in the
/// schema.
pub open spec fn variant_error(issue: VariantIssue, variant: usize) -> SynthesisError {
    match issue {
        VariantIssue::Malformed { field } => SynthesisError::MalformedAnnotation {
            variant,
            field,
        },
        VariantIssue::Duplicate { field } => SynthesisError::DuplicateCauseField {
            variant,
            field,
        },
    }
}

/// Resolves the variants from position `i` on, in order, stopping at the
/// first failing variant.
pub open spec fn scan_variants(
    vs: Seq<VariantShapeView>,
    i: int,
    acc: Seq<CauseSelection>,
) -> Result<Seq<CauseSelection>, SynthesisError>
    decreases vs.len() - i,
{
    if i < 0 || i >= vs.len() {
        Ok(acc)
    } else {
        match variant_outcome(vs[i]) {
            Err(issue) => Err(variant_error(issue, i as usize)),
            Ok(sel) => scan_variants(vs, i + 1, acc.push(sel)),
        }
    }
}

/// What [`resolve`] returns: one cause selection per variant, in variant
/// order (a product shape counts as one variant; an uninhabited shape
/// yields the empty sequence), or the first synthesis failure. An
/// overlapping-storage shape is categorically rejected.
pub open spec fn resolve_spec(s: TypeSchemaView) -> Result<Seq<CauseSelection>, SynthesisError> {
    match s.shape {
        TypeShapeView::Product(v) => match variant_outcome(v) {
            Err(issue) => Err(variant_error(issue, 0)),
            Ok(sel) => Ok(seq![sel]),
        },
        TypeShapeView::Variants(vs) => scan_variants(vs, 0, Seq::empty()),
        TypeShapeView::Union => Err(SynthesisError::UnsupportedShape),
    }
}

/// The mathematical value of a resolution result.
pub open spec fn selections_view(
    r: Result<Vec<CauseSelection>, SynthesisError>,
) -> Result<Seq<CauseSelection>, SynthesisError> {
    match r {
        Ok(sels) => Ok(sels@),
        Err(e) => Err(e),
    }
}

/// Compares a string against a literal word.
fn word_eq(a: &String, lit: &str) -> (r: bool)
    ensures
        r == (a@ == lit@),
{
    let other = String::from_str(lit);
    a.eq(&other)
}

/// Parses one field's annotations into its contribution to cause selection.
fn resolve_field(f: &FieldDecl) -> (r: Result<Option<CauseTag>, ()>)
    ensures
        r == field_outcome(f@),
{
    let mut found: Option<CauseTag> = None;
    let mut i: usize = 0;
    while i < f.annotations.len()
        invariant
            i <= f.annotations.len(),
            scan_annotations(f@.annotations, i as int, found) == field_outcome(f@),
        decreases f.annotations.len() - i,
    {
        let a = &f.annotations[i];
        if word_eq(&a.tag, "error") {
            if found.is_some() {
                return Err(());
            }
            if a.words.len() != 1 {
                return Err(());
            }
            if word_eq(&a.words[0], "source") {
                found = Some(CauseTag::Direct);
            } else if word_eq(&a.words[0], "defer") {
                found = Some(CauseTag::Deferred);
            } else {
                return Err(());
            }
        }
        i = i + 1;
    }
    Ok(found)
}

/// Resolves one variant: at most one tagged field, with a well-formed
/// payload.
fn resolve_variant(v: &VariantShape) -> (r: Result<CauseSelection, VariantIssue>)
    ensures
        r == variant_outcome(v@),
{
    let mut found: Option<(usize, CauseTag)> = None;
    let mut i: usize = 0;
    while i < v.fields.len()
        invariant
            i <= v.fields.len(),
            scan_fields(v@.fields, i as int, found) == variant_outcome(v@),
        decreases v.fields.len() - i,
    {
        match resolve_field(&v.fields[i]) {
            Err(_) => {
                return Err(VariantIssue::Malformed { field: i });
            },
            Ok(None) => {},
            Ok(Some(t)) => {
                if found.is_some() {
                    return Err(VariantIssue::Duplicate { field: i });
                }
                found = Some((i, t));
            },
        }
        i = i + 1;
    }
    Ok(
        match found {
            None => CauseSelection::NoCause,
            Some((j, t)) => CauseSelection::CauseAt { field: j, tag: t },
        },
    )
}

/// Resolves a whole schema: one cause selection per variant, in declaration
/// order, or the first failure, attributed to its variant and field. A type
/// with zero variants resolves to an empty sequence; an overlapping-storage
/// shape is rejected outright.
pub fn resolve(schema: &TypeSchema) -> (r: Result<Vec<CauseSelection>, SynthesisError>)
    ensures
        selections_view(r) == resolve_spec(schema@),
{
    match &schema.shape {
        TypeShape::Union => Err(SynthesisError::UnsupportedShape),
        TypeShape::Product(v) => match resolve_variant(v) {
            Err(issue) => Err(variant_error_exec(issue, 0)),
            Ok(sel) => {
                let mut sels: Vec<CauseSelection> = Vec::new();
                sels.push(sel);
                assert(sels@ =~= seq![sel]);
                Ok(sels)
            },
        },
        TypeShape::Variants(vs) => {
            let mut sels: Vec<CauseSelection> = Vec::new();
            let mut i: usize = 0;
            while i < vs.len()
                invariant
                    i <= vs.len(),
                    schema@.shape == TypeShapeView::Variants(vs.deep_view()),
                    scan_variants(vs.deep_view(), i as int, sels@) == scan_variants(
                        vs.deep_view(),
                        0,
                        Seq::empty(),
                    ),
                decreases vs.len() - i,
            {
                match resolve_variant(&vs[i]) {
                    Err(issue) => {
                        return Err(variant_error_exec(issue, i));
                    },
                    Ok(sel) => {
                        sels.push(sel);
                    },
                }
                i = i + 1;
            }
            Ok(sels)
        },
    }
}

/// Executable counterpart of [`variant_error`].
fn variant_error_exec(issue: VariantIssue, variant: usize) -> (r: SynthesisError)
    ensures
        r == variant_error(issue, variant),
{
    match issue {
        VariantIssue::Malformed { field } => SynthesisError::MalformedAnnotation {
            variant,
            field,
        },
        VariantIssue::Duplicate { field } => SynthesisError::DuplicateCauseField {
            variant,
            field,
        },
    }
}

} // verus!
