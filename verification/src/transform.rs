//! The record transformer: from a [`RecordShape`] to the one
//! [`GeneratedRecord`] that [`generated_of`] describes, or a
//! definition-time error when the shape is malformed. No partial record is
//! ever produced.

use vstd::prelude::*;

use crate::generated::{
    Accessor, AccessorKind, ConstructorParam, GeneratedField, GeneratedRecord, accessor_of,
    generated_of, param_of, wrapped_field,
};
use crate::shape::{FieldDescriptor, RecordShape, field_ok, shape_wf};

verus! {

/// Why a transformation failed. Both variants name the offending field by
/// its position in the shape, and in both the index is the first position
/// at which the shape breaks its invariant.
#[derive(Clone, Copy, PartialEq, Eq, Structural, Debug)]
pub enum TransformError {
    /// The field at `index` has an empty name.
    UnnamedField { index: usize },
    /// The field at `index` repeats the name of an earlier field.
    DuplicateField { index: usize },
}

/// A verbatim copy of a sequence of text lines.
fn clone_lines(v: &Vec<String>) -> (r: Vec<String>)
    ensures
        r@ == v@,
{
    let mut r: Vec<String> = Vec::new();
    let mut i: usize = 0;
    while i < v.len()
        invariant
            i <= v.len(),
            r@ == v@.take(i as int),
        decreases v.len() - i,
    {
        r.push(v[i].clone());
        i = i + 1;
        proof {
            assert(r@ =~= v@.take(i as int));
        }
    }
    proof {
        assert(v@.take(v.len() as int) =~= v@);
    }
    r
}

/// The accessor generated for one field: `get_` or `set_` prefixed to the
/// field's name, the field's visibility, its documentation verbatim.
fn make_accessor(kind: AccessorKind, f: &FieldDescriptor) -> (a: Accessor)
    ensures
        a@ == accessor_of(kind, f@),
{
    let prefix: &str = match kind {
        AccessorKind::Getter => "get_",
        AccessorKind::Setter => "set_",
    };
    let mut name = String::from_str(prefix);
    name.append(f.name.as_str());
    let a = Accessor {
        kind: kind,
        name: name,
        field: f.name.clone(),
        vis: f.vis,
        docs: clone_lines(&f.docs),
    };
    proof {
        assert(a@ =~= accessor_of(kind, f@));
    }
    a
}

/// Turns a record shape into the description of its concurrency-safe
/// counterpart.
///
/// On a well-formed shape — every field named, names pairwise distinct —
/// the result is exactly [`generated_of`] applied to the shape's model:
/// one storage field per source field, the constructor parameter list in
/// declaration order, and a getter/setter pair per field, with visibility,
/// documentation and attributes carried over verbatim. On a malformed
/// shape the transformation fails as a whole, naming the first offending
/// field.
pub fn atomic_struct(shape: &RecordShape) -> (r: Result<GeneratedRecord, TransformError>)
    ensures
        r is Ok <==> shape_wf(shape@),
        match r {
            Ok(g) => g@ == generated_of(shape@),
            Err(TransformError::UnnamedField { index }) => {
                &&& index < shape@.fields.len()
                &&& shape@.fields[index as int].name.len() == 0
                &&& forall|k: int| 0 <= k < index ==> field_ok(shape@, k)
            },
            Err(TransformError::DuplicateField { index }) => {
                &&& index < shape@.fields.len()
                &&& shape@.fields[index as int].name.len() > 0
                &&& exists|j: int|
                    0 <= j < index && shape@.fields[j].name == shape@.fields[index as int].name
                &&& forall|k: int| 0 <= k < index ==> field_ok(shape@, k)
            },
        },
{
    let n = shape.fields.len();
    let mut i: usize = 0;
    while i < n
        invariant
            i <= n == shape.fields.len(),
            forall|k: int| 0 <= k < i ==> field_ok(shape@, k),
        decreases n - i,
    {
        if shape.fields[i].name.as_str().is_empty() {
            proof {
                assert(!field_ok(shape@, i as int));
            }
            return Err(TransformError::UnnamedField { index: i });
        }
        let mut j: usize = 0;
        while j < i
            invariant
                j <= i < n == shape.fields.len(),
                shape@.fields[i as int].name.len() > 0,
                forall|k: int| 0 <= k < i ==> field_ok(shape@, k),
                forall|k: int| 0 <= k < j ==> shape@.fields[k].name != shape@.fields[i as int].name,
            decreases i - j,
        {
            if shape.fields[j].name == shape.fields[i].name {
                proof {
                    assert(shape@.fields[j as int].name == shape@.fields[i as int].name);
                    assert(!field_ok(shape@, i as int));
                }
                return Err(TransformError::DuplicateField { index: i });
            }
            j = j + 1;
        }
        i = i + 1;
    }
    let mut gfields: Vec<GeneratedField> = Vec::new();
    let mut params: Vec<ConstructorParam> = Vec::new();
    let mut accs: Vec<Accessor> = Vec::new();
    i = 0;
    while i < n
        invariant
            i <= n == shape.fields.len(),
            gfields@.len() == i,
            params@.len() == i,
            accs@.len() == 2 * i,
            forall|k: int| 0 <= k < i ==> gfields@[k]@ == wrapped_field(shape@.fields[k]),
            forall|k: int| 0 <= k < i ==> params@[k]@ == param_of(shape@.fields[k]),
            forall|k: int|
                0 <= k < i ==> accs@[2 * k]@ == accessor_of(
                    AccessorKind::Getter,
                    shape@.fields[k],
                ) && accs@[2 * k + 1]@ == accessor_of(AccessorKind::Setter, shape@.fields[k]),
        decreases n - i,
    {
        let f = &shape.fields[i];
        let gf = GeneratedField {
            name: f.name.clone(),
            value_ty: f.ty.clone(),
            vis: f.vis,
            docs: clone_lines(&f.docs),
            attrs: clone_lines(&f.attrs),
        };
        proof {
            assert(gf@ =~= wrapped_field(shape@.fields[i as int]));
        }
        gfields.push(gf);
        let p = ConstructorParam { name: f.name.clone(), ty: f.ty.clone() };
        proof {
            assert(p@ =~= param_of(shape@.fields[i as int]));
        }
        params.push(p);
        accs.push(make_accessor(AccessorKind::Getter, f));
        accs.push(make_accessor(AccessorKind::Setter, f));
        i = i + 1;
    }
    let g = GeneratedRecord {
        name: shape.name.clone(),
        vis: shape.vis,
        docs: clone_lines(&shape.docs),
        attrs: clone_lines(&shape.attrs),
        fields: gfields,
        ctor_params: params,
        accessors: accs,
    };
    proof {
        let s = shape@;
        let m = generated_of(s);
        assert(g@.fields =~= m.fields);
        assert(g@.ctor_params =~= m.ctor_params);
        assert forall|a: int| 0 <= a < 2 * s.fields.len() implies g@.accessors[a]
            == m.accessors[a] by {
            let k = a / 2;
            if a % 2 == 0 {
                assert(a == 2 * k);
            } else {
                assert(a == 2 * k + 1);
            }
        }
        assert(g@.accessors =~= m.accessors);
        assert(g@ =~~= m);
    }
    Ok(g)
}

} // verus!
