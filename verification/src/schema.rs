//! The data model of the synthesis engine: the shape of the type being
//! processed, the per-field annotations, and the resolved cause selection.

use vstd::prelude::*;
use crate::CauseTag;

verus! {

/// One raw annotation attached to a field: a tag (only the recognized tag
/// participates in cause selection) and its payload, a list of words.
#[derive(Debug)]
pub struct Annotation {
    pub tag: String,
    pub words: Vec<String>,
}

/// The mathematical value of an [`Annotation`].
pub struct AnnotationView {
    pub tag: Seq<char>,
    pub words: Seq<Seq<char>>,
}

impl View for Annotation {
    type V = AnnotationView;

    open spec fn view(&self) -> AnnotationView {
        AnnotationView { tag: self.tag@, words: self.words.deep_view() }
    }
}

impl DeepView for Annotation {
    type V = AnnotationView;

    open spec fn deep_view(&self) -> AnnotationView {
        self.view()
    }
}

/// One field of a variant: an optional declared name (positional fields have
/// none; their position index stands in for it) and the raw annotations the
/// front end collected on it.
#[derive(Debug)]
pub struct FieldDecl {
    pub name: Option<String>,
    pub annotations: Vec<Annotation>,
}

/// The mathematical value of a [`FieldDecl`].
pub struct FieldDeclView {
    pub name: Option<Seq<char>>,
    pub annotations: Seq<AnnotationView>,
}

impl View for FieldDecl {
    type V = FieldDeclView;

    open spec fn view(&self) -> FieldDeclView {
        FieldDeclView { name: self.name.deep_view(), annotations: self.annotations.deep_view() }
    }
}

impl DeepView for FieldDecl {
    type V = FieldDeclView;

    open spec fn deep_view(&self) -> FieldDeclView {
        self.view()
    }
}

/// The kind of one variant: no fields, ordered unnamed fields, or named
/// fields.
#[derive(Clone, Copy, PartialEq, Eq, Structural, Debug)]
pub enum VariantKind {
    Unit,
    Positional,
    Named,
}

/// One arm of a type schema: its name, its kind, and its fields in
/// declaration order.
#[derive(Debug)]
pub struct VariantShape {
    pub name: String,
    pub kind: VariantKind,
    pub fields: Vec<FieldDecl>,
}

/// The mathematical value of a [`VariantShape`].
pub struct VariantShapeView {
    pub name: Seq<char>,
    pub kind: VariantKind,
    pub fields: Seq<FieldDeclView>,
}

impl View for VariantShape {
    type V = VariantShapeView;

    open spec fn view(&self) -> VariantShapeView {
        VariantShapeView {
            name: self.name@,
            kind: self.kind,
            fields: self.fields.deep_view(),
        }
    }
}

impl DeepView for VariantShape {
    type V = VariantShapeView;

    open spec fn deep_view(&self) -> VariantShapeView {
        self.view()
    }
}

impl VariantShapeView {
    /// A variant is well formed when its field list is consistent with its
    /// kind: unit variants have no fields, named fields all carry a name,
    /// positional fields carry none.
    pub open spec fn wf(self) -> bool {
        match self.kind {
            VariantKind::Unit => self.fields.len() == 0,
            VariantKind::Positional => forall|i: int|
                0 <= i < self.fields.len() ==> (#[trigger] self.fields[i].name) is None,
            VariantKind::Named => forall|i: int|
                0 <= i < self.fields.len() ==> (#[trigger] self.fields[i].name) is Some,
        }
    }
}

/// The generic-parameter list of a schema, opaque to this system beyond being
/// threaded through unchanged: the parameters themselves and any constraints
/// already declared on them.
#[derive(Debug)]
pub struct Generics {
    pub params: Vec<String>,
    pub predicates: Vec<String>,
}

/// The mathematical value of a [`Generics`].
pub struct GenericsView {
    pub params: Seq<Seq<char>>,
    pub predicates: Seq<Seq<char>>,
}

impl View for Generics {
    type V = GenericsView;

    open spec fn view(&self) -> GenericsView {
        GenericsView { params: self.params.deep_view(), predicates: self.predicates.deep_view() }
    }
}

/// The overall shape of the type being processed: a single product shape, an
/// ordered list of variants (possibly empty, for an uninhabited type), or an
/// overlapping-storage shape, which the engine categorically rejects.
#[derive(Debug)]
pub enum TypeShape {
    Product(VariantShape),
    Variants(Vec<VariantShape>),
    Union,
}

/// The mathematical value of a [`TypeShape`].
pub enum TypeShapeView {
    Product(VariantShapeView),
    Variants(Seq<VariantShapeView>),
    Union,
}

impl View for TypeShape {
    type V = TypeShapeView;

    open spec fn view(&self) -> TypeShapeView {
        match self {
            TypeShape::Product(v) => TypeShapeView::Product(v.view()),
            TypeShape::Variants(vs) => TypeShapeView::Variants(vs.deep_view()),
            TypeShape::Union => TypeShapeView::Union,
        }
    }
}

/// The type being processed: its name, its generic parameters, and its shape.
#[derive(Debug)]
pub struct TypeSchema {
    pub name: String,
    pub generics: Generics,
    pub shape: TypeShape,
}

/// The mathematical value of a [`TypeSchema`].
pub struct TypeSchemaView {
    pub name: Seq<char>,
    pub generics: GenericsView,
    pub shape: TypeShapeView,
}

impl View for TypeSchema {
    type V = TypeSchemaView;

    open spec fn view(&self) -> TypeSchemaView {
        TypeSchemaView { name: self.name@, generics: self.generics@, shape: self.shape@ }
    }
}

/// The resolved outcome for one variant: either no field designates a cause,
/// or exactly one field (identified by its position) does, directly or
/// deferred.
#[derive(Clone, Copy, PartialEq, Eq, Structural, Debug)]
pub enum CauseSelection {
    NoCause,
    CauseAt { field: usize, tag: CauseTag },
}

/// A synthesis failure, attributed to the offending variant and field so the
/// caller can report it at the right source location. For a product shape the
/// variant index is zero.
#[derive(Clone, Copy, PartialEq, Eq, Structural, Debug)]
pub enum SynthesisError {
    /// An annotation payload was not exactly one of the recognized words, or
    /// one field carried the recognized tag more than once.
    MalformedAnnotation { variant: usize, field: usize },
    /// A second field of the same variant carried the recognized tag; the
    /// index names that second field.
    DuplicateCauseField { variant: usize, field: usize },
    /// The schema has an overlapping-storage shape, for which the capability
    /// cannot be derived.
    UnsupportedShape,
}

} // verus!
