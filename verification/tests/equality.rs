use component_core::items::{PropsField, PropsRecord};
use component_core::signature::{
    GenericParam, GenericParamKind, Generics, ParamPattern, SourceAttr, Span, Visibility,
};

fn field(name: &str, ty: &str) -> PropsField {
    PropsField {
        attrs: vec![SourceAttr::Doc("\" A field.\"".to_string())],
        vis: Visibility::Public,
        name: ParamPattern::Ident { by_ref: false, mutable: false, name: name.to_string() },
        ty: ty.to_string(),
    }
}

fn record() -> PropsRecord {
    PropsRecord {
        attrs: vec![SourceAttr::Derive(vec!["Clone".to_string(), "PartialEq".to_string()])],
        vis: Visibility::Public,
        ident: "GreetingProps".to_string(),
        generics: Generics {
            params: vec![GenericParam {
                kind: GenericParamKind::Type,
                name: "T".to_string(),
                declaration: "T: Clone".to_string(),
            }],
            where_clause: None,
            span: Span { start: 3, end: 6 },
        },
        fields: vec![field("name", "String"), field("excited", "bool")],
    }
}

#[test]
fn records_with_the_same_values_are_equal() {
    assert!(record() == record());
    let copy = record().clone();
    assert!(copy == record());
    assert_eq!(copy, record());
}

#[test]
fn any_changed_field_makes_records_unequal() {
    let base = record();
    let mut changed = record();
    changed.fields[1].ty = "u8".to_string();
    assert!(base != changed);
    let mut changed = record();
    changed.fields[0].name =
        ParamPattern::Ident { by_ref: false, mutable: false, name: "title".to_string() };
    assert!(base != changed);
    let mut changed = record();
    changed.fields[0].vis = Visibility::Inherited;
    assert!(base != changed);
    let mut changed = record();
    changed.fields[0].attrs.clear();
    assert!(base != changed);
    let mut changed = record();
    changed.fields.pop();
    assert!(base != changed);
    let mut changed = record();
    changed.fields.swap(0, 1);
    assert!(base != changed);
}

#[test]
fn any_changed_part_makes_records_unequal() {
    let base = record();
    let mut changed = record();
    changed.ident = "OtherProps".to_string();
    assert!(base != changed);
    let mut changed = record();
    changed.vis = Visibility::Restricted("crate".to_string());
    assert!(base != changed);
    let mut changed = record();
    changed.attrs.push(SourceAttr::Allow("dead_code".to_string()));
    assert!(base != changed);
    let mut changed = record();
    changed.generics.where_clause = Some("T: Copy".to_string());
    assert!(base != changed);
    let mut changed = record();
    changed.generics.params[0].kind = GenericParamKind::Const;
    assert!(base != changed);
    let mut changed = record();
    changed.generics.span = Span { start: 3, end: 7 };
    assert!(base != changed);
}
