//! The output side of the transformation: the full description of the
//! generated record type, and the specification-level transformer that the
//! executable one is proved against.
//!
//! For a shape with fields `f1 .. fn` the generated record has, in this
//! order: one storage field per `fi`, holding a cell of the field's original
//! type; one constructor parameter per `fi`, taking the original unwrapped
//! value; and per `fi` a getter named `get_fi` followed by a setter named
//! `set_fi`, each with the field's visibility and documentation.

use vstd::prelude::*;

use crate::shape::{FieldModel, ShapeModel, Visibility};

verus! {

/// A storage field of the generated record. Its declared type is the cell
/// applied to `value_ty`, the field's original type text; name, visibility,
/// documentation and attributes are the source field's, verbatim.
pub struct GeneratedField {
    pub name: String,
    pub value_ty: String,
    pub vis: Visibility,
    pub docs: Vec<String>,
    pub attrs: Vec<String>,
}

/// One parameter of the generated constructor: the source field's name and
/// its original, unwrapped type text. The constructor wraps each parameter
/// into a fresh cell for the storage field of the same name.
pub struct ConstructorParam {
    pub name: String,
    pub ty: String,
}

/// Whether an accessor reads the field or replaces its value.
#[derive(Clone, Copy, PartialEq, Eq, Structural, Debug)]
pub enum AccessorKind {
    Getter,
    Setter,
}

/// One generated accessor operation. A getter for field `f` is named
/// `get_f` and returns a clone of the cell's current value; a setter is
/// named `set_f` and takes the new value by move. Both delegate to the
/// field's cell and are asynchronous in the rendered code.
pub struct Accessor {
    pub kind: AccessorKind,
    pub name: String,
    pub field: String,
    pub vis: Visibility,
    pub docs: Vec<String>,
}

/// The generated record: storage fields, constructor parameters and
/// accessors, all in the source shape's field order, under the source
/// record's name, visibility, documentation and attributes.
pub struct GeneratedRecord {
    pub name: String,
    pub vis: Visibility,
    pub docs: Vec<String>,
    pub attrs: Vec<String>,
    pub fields: Vec<GeneratedField>,
    pub ctor_params: Vec<ConstructorParam>,
    pub accessors: Vec<Accessor>,
}

/// Mathematical model of a storage field.
#[verifier::ext_equal]
pub struct GeneratedFieldModel {
    pub name: Seq<char>,
    pub value_ty: Seq<char>,
    pub vis: Visibility,
    pub docs: Seq<Seq<char>>,
    pub attrs: Seq<Seq<char>>,
}

/// Mathematical model of a constructor parameter.
#[verifier::ext_equal]
pub struct ConstructorParamModel {
    pub name: Seq<char>,
    pub ty: Seq<char>,
}

/// Mathematical model of an accessor.
#[verifier::ext_equal]
pub struct AccessorModel {
    pub kind: AccessorKind,
    pub name: Seq<char>,
    pub field: Seq<char>,
    pub vis: Visibility,
    pub docs: Seq<Seq<char>>,
}

/// Mathematical model of the generated record.
#[verifier::ext_equal]
pub struct GeneratedRecordModel {
    pub name: Seq<char>,
    pub vis: Visibility,
    pub docs: Seq<Seq<char>>,
    pub attrs: Seq<Seq<char>>,
    pub fields: Seq<GeneratedFieldModel>,
    pub ctor_params: Seq<ConstructorParamModel>,
    pub accessors: Seq<AccessorModel>,
}

impl View for GeneratedField {
    type V = GeneratedFieldModel;

    open spec fn view(&self) -> GeneratedFieldModel {
        GeneratedFieldModel {
            name: self.name@,
            value_ty: self.value_ty@,
            vis: self.vis,
            docs: self.docs.deep_view(),
            attrs: self.attrs.deep_view(),
        }
    }
}

impl View for ConstructorParam {
    type V = ConstructorParamModel;

    open spec fn view(&self) -> ConstructorParamModel {
        ConstructorParamModel { name: self.name@, ty: self.ty@ }
    }
}

impl View for Accessor {
    type V = AccessorModel;

    open spec fn view(&self) -> AccessorModel {
        AccessorModel {
            kind: self.kind,
            name: self.name@,
            field: self.field@,
            vis: self.vis,
            docs: self.docs.deep_view(),
        }
    }
}

impl View for GeneratedRecord {
    type V = GeneratedRecordModel;

    open spec fn view(&self) -> GeneratedRecordModel {
        GeneratedRecordModel {
            name: self.name@,
            vis: self.vis,
            docs: self.docs.deep_view(),
            attrs: self.attrs.deep_view(),
            fields: self.fields@.map_values(|f: GeneratedField| f@),
            ctor_params: self.ctor_params@.map_values(|p: ConstructorParam| p@),
            accessors: self.accessors@.map_values(|a: Accessor| a@),
        }
    }
}

/// The storage field generated for a source field: same name, same
/// visibility, documentation and attributes verbatim, and the original type
/// text kept as the value type under the cell.
pub open spec fn wrapped_field(f: FieldModel) -> GeneratedFieldModel {
    GeneratedFieldModel {
        name: f.name,
        value_ty: f.ty,
        vis: f.vis,
        docs: f.docs,
        attrs: f.attrs,
    }
}

/// The constructor parameter generated for a source field: same name, the
/// original unwrapped type text.
pub open spec fn param_of(f: FieldModel) -> ConstructorParamModel {
    ConstructorParamModel { name: f.name, ty: f.ty }
}

/// The fixed naming convention for accessors: `get_` or `set_` prefixed to
/// the field name.
pub open spec fn accessor_name(kind: AccessorKind, field: Seq<char>) -> Seq<char> {
    match kind {
        AccessorKind::Getter => "get_"@ + field,
        AccessorKind::Setter => "set_"@ + field,
    }
}

/// The accessor generated for a source field: named by the fixed convention,
/// with the field's visibility and its documentation lines verbatim.
pub open spec fn accessor_of(kind: AccessorKind, f: FieldModel) -> AccessorModel {
    AccessorModel {
        kind: kind,
        name: accessor_name(kind, f.name),
        field: f.name,
        vis: f.vis,
        docs: f.docs,
    }
}

/// The specification-level transformer: the one generated record that a
/// well-formed shape maps to. Field order is preserved everywhere; the
/// accessor at position `2 * i` is field `i`'s getter and the one at
/// `2 * i + 1` its setter.
pub open spec fn generated_of(s: ShapeModel) -> GeneratedRecordModel {
    GeneratedRecordModel {
        name: s.name,
        vis: s.vis,
        docs: s.docs,
        attrs: s.attrs,
        fields: s.fields.map_values(|f: FieldModel| wrapped_field(f)),
        ctor_params: s.fields.map_values(|f: FieldModel| param_of(f)),
        accessors: Seq::new(
            2 * s.fields.len(),
            |i: int|
                if i % 2 == 0 {
                    accessor_of(AccessorKind::Getter, s.fields[i / 2])
                } else {
                    accessor_of(AccessorKind::Setter, s.fields[i / 2])
                },
        ),
    }
}

} // verus!
