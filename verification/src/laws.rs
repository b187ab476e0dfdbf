//! The transformer's laws, stated over the specification-level transformer
//! [`generated_of`] that [`crate::transform::atomic_struct`]'s contract pins
//! its result to.

use vstd::prelude::*;

use crate::generated::{AccessorKind, accessor_of, generated_of, param_of, wrapped_field};
use crate::shape::ShapeModel;

verus! {

/// For every shape with N fields, the generated constructor accepts exactly
/// N arguments: one per field, in declaration order, under the field's name
/// and with the field's original unwrapped type.
pub proof fn lemma_constructor_mirrors_fields(s: ShapeModel)
    ensures
        generated_of(s).ctor_params.len() == s.fields.len(),
        forall|i: int|
            0 <= i < s.fields.len() ==> generated_of(s).ctor_params[i] == param_of(s.fields[i]),
{
}

/// Every field yields exactly one getter and one setter, in field order:
/// the accessor at position `2 * i` reads field `i` and the one at
/// `2 * i + 1` replaces it.
pub proof fn lemma_accessor_pair(s: ShapeModel, i: int)
    requires
        0 <= i < s.fields.len(),
    ensures
        generated_of(s).accessors.len() == 2 * s.fields.len(),
        generated_of(s).accessors[2 * i] == accessor_of(AccessorKind::Getter, s.fields[i]),
        generated_of(s).accessors[2 * i + 1] == accessor_of(AccessorKind::Setter, s.fields[i]),
{
}

/// Accessors follow the fixed naming convention — `get_` or `set_` prefixed
/// to the field's name — and inherit the field's visibility and its
/// documentation lines verbatim.
pub proof fn lemma_accessor_convention(s: ShapeModel, i: int)
    requires
        0 <= i < s.fields.len(),
    ensures
        generated_of(s).accessors[2 * i].name == "get_"@ + s.fields[i].name,
        generated_of(s).accessors[2 * i].field == s.fields[i].name,
        generated_of(s).accessors[2 * i].vis == s.fields[i].vis,
        generated_of(s).accessors[2 * i].docs == s.fields[i].docs,
        generated_of(s).accessors[2 * i + 1].name == "set_"@ + s.fields[i].name,
        generated_of(s).accessors[2 * i + 1].field == s.fields[i].name,
        generated_of(s).accessors[2 * i + 1].vis == s.fields[i].vis,
        generated_of(s).accessors[2 * i + 1].docs == s.fields[i].docs,
{
    lemma_accessor_pair(s, i);
}

/// Metadata passes through verbatim: the generated record keeps the
/// shape's name, visibility, documentation and attributes, and storage
/// field `i` keeps field `i`'s name, visibility, documentation, attributes
/// and original type text as the value type under the cell.
pub proof fn lemma_metadata_preserved(s: ShapeModel, i: int)
    requires
        0 <= i < s.fields.len(),
    ensures
        generated_of(s).name == s.name,
        generated_of(s).vis == s.vis,
        generated_of(s).docs == s.docs,
        generated_of(s).attrs == s.attrs,
        generated_of(s).fields.len() == s.fields.len(),
        generated_of(s).fields[i] == wrapped_field(s.fields[i]),
        generated_of(s).fields[i].name == s.fields[i].name,
        generated_of(s).fields[i].value_ty == s.fields[i].ty,
        generated_of(s).fields[i].vis == s.fields[i].vis,
        generated_of(s).fields[i].docs == s.fields[i].docs,
        generated_of(s).fields[i].attrs == s.fields[i].attrs,
{
}

/// A shape with zero fields is legal: it is well formed and produces a
/// record with no storage fields, a zero-argument constructor and no
/// accessors.
pub proof fn lemma_empty_shape(s: ShapeModel)
    requires
        s.fields.len() == 0,
    ensures
        crate::shape::shape_wf(s),
        generated_of(s).fields.len() == 0,
        generated_of(s).ctor_params.len() == 0,
        generated_of(s).accessors.len() == 0,
{
}

} // verus!
