use atomic_struct::generated::AccessorKind;
use atomic_struct::shape::{FieldDescriptor, RecordShape, Visibility};
use atomic_struct::transform::{TransformError, atomic_struct};

fn field(name: &str, ty: &str, vis: Visibility) -> FieldDescriptor {
    FieldDescriptor {
        name: name.to_string(),
        ty: ty.to_string(),
        vis,
        docs: Vec::new(),
        attrs: Vec::new(),
    }
}

#[test]
fn constructor_mirrors_three_fields() {
    let shape = RecordShape {
        name: "Config".to_string(),
        vis: Visibility::Public,
        docs: Vec::new(),
        attrs: Vec::new(),
        fields: vec![
            field("counter", "i32", Visibility::Public),
            field("name", "String", Visibility::CrateVisible),
            field("ratio", "u64", Visibility::Private),
        ],
    };
    let g = atomic_struct(&shape).unwrap();
    assert_eq!(g.name, "Config");
    assert_eq!(g.ctor_params.len(), 3);
    assert_eq!(g.ctor_params[0].name, "counter");
    assert_eq!(g.ctor_params[0].ty, "i32");
    assert_eq!(g.ctor_params[1].name, "name");
    assert_eq!(g.ctor_params[1].ty, "String");
    assert_eq!(g.ctor_params[2].name, "ratio");
    assert_eq!(g.ctor_params[2].ty, "u64");
    assert_eq!(g.fields.len(), 3);
    assert_eq!(g.fields[0].name, "counter");
    assert_eq!(g.fields[0].value_ty, "i32");
    assert_eq!(g.accessors.len(), 6);
    assert_eq!(g.accessors[0].name, "get_counter");
    assert_eq!(g.accessors[0].kind, AccessorKind::Getter);
    assert_eq!(g.accessors[0].field, "counter");
    assert_eq!(g.accessors[1].name, "set_counter");
    assert_eq!(g.accessors[1].kind, AccessorKind::Setter);
    assert_eq!(g.accessors[2].name, "get_name");
    assert_eq!(g.accessors[3].name, "set_name");
    assert_eq!(g.accessors[4].name, "get_ratio");
    assert_eq!(g.accessors[5].name, "set_ratio");
}

#[test]
fn single_field_gets_full_constructor_and_pair() {
    let shape = RecordShape {
        name: "One".to_string(),
        vis: Visibility::Private,
        docs: Vec::new(),
        attrs: Vec::new(),
        fields: vec![field("value", "bool", Visibility::Private)],
    };
    let g = atomic_struct(&shape).unwrap();
    assert_eq!(g.ctor_params.len(), 1);
    assert_eq!(g.fields.len(), 1);
    assert_eq!(g.accessors.len(), 2);
    assert_eq!(g.accessors[0].name, "get_value");
    assert_eq!(g.accessors[1].name, "set_value");
}

#[test]
fn empty_shape_generates_trivial_record() {
    let shape = RecordShape {
        name: "Empty".to_string(),
        vis: Visibility::Public,
        docs: vec!["an empty record".to_string()],
        attrs: Vec::new(),
        fields: Vec::new(),
    };
    let g = atomic_struct(&shape).unwrap();
    assert_eq!(g.name, "Empty");
    assert_eq!(g.vis, Visibility::Public);
    assert_eq!(g.docs, vec!["an empty record".to_string()]);
    assert_eq!(g.fields.len(), 0);
    assert_eq!(g.ctor_params.len(), 0);
    assert_eq!(g.accessors.len(), 0);
}

#[test]
fn metadata_passes_through_verbatim() {
    let shape = RecordShape {
        name: "AppState".to_string(),
        vis: Visibility::Public,
        docs: vec!["application state".to_string()],
        attrs: vec!["derive(Debug)".to_string()],
        fields: vec![FieldDescriptor {
            name: "counter".to_string(),
            ty: "i32".to_string(),
            vis: Visibility::Public,
            docs: vec!["a public counter".to_string()],
            attrs: vec!["serde(default)".to_string()],
        }],
    };
    let g = atomic_struct(&shape).unwrap();
    assert_eq!(g.docs, vec!["application state".to_string()]);
    assert_eq!(g.attrs, vec!["derive(Debug)".to_string()]);
    assert_eq!(g.fields[0].docs, vec!["a public counter".to_string()]);
    assert_eq!(g.fields[0].attrs, vec!["serde(default)".to_string()]);
    assert_eq!(g.fields[0].vis, Visibility::Public);
    // accessors carry the documentation lines, not the other attributes
    assert_eq!(g.accessors[0].docs, vec!["a public counter".to_string()]);
    assert_eq!(g.accessors[0].vis, Visibility::Public);
    assert_eq!(g.accessors[1].docs, vec!["a public counter".to_string()]);
}

#[test]
fn unnamed_field_fails_whole_transformation() {
    let shape = RecordShape {
        name: "Bad".to_string(),
        vis: Visibility::Private,
        docs: Vec::new(),
        attrs: Vec::new(),
        fields: vec![
            field("ok", "u8", Visibility::Private),
            field("", "u8", Visibility::Private),
        ],
    };
    let r = atomic_struct(&shape);
    assert_eq!(r.err().unwrap(), TransformError::UnnamedField { index: 1 });
}

#[test]
fn duplicate_field_fails_whole_transformation() {
    let shape = RecordShape {
        name: "Bad".to_string(),
        vis: Visibility::Private,
        docs: Vec::new(),
        attrs: Vec::new(),
        fields: vec![
            field("a", "u8", Visibility::Private),
            field("b", "u8", Visibility::Private),
            field("a", "u16", Visibility::Private),
        ],
    };
    let r = atomic_struct(&shape);
    assert_eq!(r.err().unwrap(), TransformError::DuplicateField { index: 2 });
}

#[test]
fn first_offending_field_is_reported() {
    let shape = RecordShape {
        name: "Bad".to_string(),
        vis: Visibility::Private,
        docs: Vec::new(),
        attrs: Vec::new(),
        fields: vec![
            field("", "u8", Visibility::Private),
            field("x", "u8", Visibility::Private),
            field("x", "u8", Visibility::Private),
        ],
    };
    let r = atomic_struct(&shape);
    assert_eq!(r.err().unwrap(), TransformError::UnnamedField { index: 0 });
}
