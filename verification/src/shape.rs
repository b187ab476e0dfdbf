//! The input side of the transformation: a structural description of a
//! record, with per-field names, type text, visibility, documentation and
//! pass-through attributes.

use vstd::prelude::*;

verus! {

/// Visibility of a record, a field, or a generated item.
///
/// A field with no explicit visibility in the source record is `Private`.
#[derive(Clone, Copy, PartialEq, Eq, Structural, Debug)]
pub enum Visibility {
    Private,
    CrateVisible,
    Public,
}

/// One field of a record shape.
///
/// `ty` is the field's type as opaque text: the transformer copies it, it
/// never interprets it. `docs` are the documentation lines and `attrs` the
/// remaining attributes, both ordered and passed through verbatim.
pub struct FieldDescriptor {
    pub name: String,
    pub ty: String,
    pub vis: Visibility,
    pub docs: Vec<String>,
    pub attrs: Vec<String>,
}

/// A named, ordered sequence of fields plus record-level visibility,
/// documentation and pass-through attributes.
pub struct RecordShape {
    pub name: String,
    pub vis: Visibility,
    pub docs: Vec<String>,
    pub attrs: Vec<String>,
    pub fields: Vec<FieldDescriptor>,
}

/// Mathematical model of a field: every piece of text as a sequence of
/// characters.
#[verifier::ext_equal]
pub struct FieldModel {
    pub name: Seq<char>,
    pub ty: Seq<char>,
    pub vis: Visibility,
    pub docs: Seq<Seq<char>>,
    pub attrs: Seq<Seq<char>>,
}

/// Mathematical model of a record shape.
#[verifier::ext_equal]
pub struct ShapeModel {
    pub name: Seq<char>,
    pub vis: Visibility,
    pub docs: Seq<Seq<char>>,
    pub attrs: Seq<Seq<char>>,
    pub fields: Seq<FieldModel>,
}

impl View for FieldDescriptor {
    type V = FieldModel;

    open spec fn view(&self) -> FieldModel {
        FieldModel {
            name: self.name@,
            ty: self.ty@,
            vis: self.vis,
            docs: self.docs.deep_view(),
            attrs: self.attrs.deep_view(),
        }
    }
}

impl View for RecordShape {
    type V = ShapeModel;

    open spec fn view(&self) -> ShapeModel {
        ShapeModel {
            name: self.name@,
            vis: self.vis,
            docs: self.docs.deep_view(),
            attrs: self.attrs.deep_view(),
            fields: self.fields@.map_values(|f: FieldDescriptor| f@),
        }
    }
}

/// Field `i` of the shape is acceptable given everything before it: it has a
/// name, and the name repeats no earlier field's name.
pub open spec fn field_ok(s: ShapeModel, i: int) -> bool {
    &&& s.fields[i].name.len() > 0
    &&& forall|j: int| 0 <= j < i ==> s.fields[j].name != s.fields[i].name
}

/// A shape is well formed when every field is named and the names are
/// pairwise distinct. A shape with zero fields is well formed.
pub open spec fn shape_wf(s: ShapeModel) -> bool {
    forall|i: int| 0 <= i < s.fields.len() ==> field_ok(s, i)
}

} // verus!
