use bon_setters::error::BuilderError;
use bon_setters::field::{normalized_ident, Field, FieldOrigin, Optionality};
use bon_setters::setters::{BuilderGenCtx, SetterKind, StateMarker};
use bon_setters::ty::{type_qualifies_for_into, PathSegment, TypeExpr};

fn seg(name: &str, has_args: bool) -> PathSegment {
    PathSegment { ident: name.to_string(), has_args }
}

fn path(names: &[&str]) -> TypeExpr {
    TypeExpr::Path {
        qself: false,
        leading_colon: false,
        segments: names.iter().map(|n| seg(n, false)).collect(),
    }
}

fn field(name: &str, assoc: &str, ty: TypeExpr, optional: Option<TypeExpr>, into: Option<bool>) -> Field {
    Field {
        ident: name.to_string(),
        state_assoc_ident: assoc.to_string(),
        ty,
        optionality: match optional {
            Some(inner) => Optionality::Optional(inner),
            None => Optionality::Required,
        },
        into_override: into,
        docs: vec!["The doc line.".to_string()],
        origin: FieldOrigin::FnArg,
    }
}

/// `Option<...>`: a path whose segment carries generic arguments.
fn option_of() -> TypeExpr {
    TypeExpr::Path { qself: false, leading_colon: false, segments: vec![seg("Option", true)] }
}

fn ctx(fields: Vec<Field>, type_params: &[&str]) -> BuilderGenCtx {
    match BuilderGenCtx::new(
        "UserBuilder".to_string(),
        type_params.iter().map(|s| s.to_string()).collect(),
        fields,
    ) {
        Ok(c) => c,
        Err(_) => panic!("unexpected duplicate field"),
    }
}

#[test]
fn vec_of_u32_is_not_eligible() {
    let ty = TypeExpr::Path { qself: false, leading_colon: false, segments: vec![seg("Vec", true)] };
    assert!(!type_qualifies_for_into(&ty, &vec![]));
}

#[test]
fn string_is_eligible() {
    assert!(type_qualifies_for_into(&path(&["String"]), &vec![]));
    assert!(type_qualifies_for_into(&path(&["std", "string", "String"]), &vec![]));
}

#[test]
fn primitives_are_not_eligible() {
    for p in ["bool", "char", "f32", "f64", "i8", "i16", "i32", "i64", "i128", "isize", "u8", "u16", "u32", "u64", "u128", "usize"] {
        assert!(!type_qualifies_for_into(&path(&[p]), &vec![]), "{p}");
    }
    assert!(!type_qualifies_for_into(&path(&["std", "primitive", "u32"]), &vec![]));
    assert!(type_qualifies_for_into(&path(&["u33"]), &vec![]));
}

#[test]
fn bare_type_param_is_not_eligible() {
    let params = vec!["T".to_string()];
    assert!(!type_qualifies_for_into(&path(&["T"]), &params));
    assert!(type_qualifies_for_into(&path(&["T"]), &vec![]));
    assert!(type_qualifies_for_into(&path(&["crate", "T"]), &params));
}

#[test]
fn projections_and_other_forms_are_not_eligible() {
    let proj = TypeExpr::Path { qself: true, leading_colon: false, segments: vec![seg("Item", false)] };
    assert!(!type_qualifies_for_into(&proj, &vec![]));
    assert!(!type_qualifies_for_into(&TypeExpr::Other, &vec![]));
}

#[test]
fn redundant_into_true_on_string_fails() {
    let f = field("name", "Name", path(&["String"]), None, Some(true));
    let c = ctx(vec![f], &[]);
    match c.setter_methods_impls_for_field(&c.fields[0]) {
        Err(BuilderError::RedundantInto { field, origin, already_qualifies }) => {
            assert_eq!(field, "name");
            assert_eq!(origin, FieldOrigin::FnArg);
            assert!(already_qualifies);
        }
        _ => panic!("expected a redundant-configuration error"),
    }
    let e = c.field_qualifies_for_into(&c.fields[0], &c.fields[0].ty).err().unwrap();
    assert_eq!(
        e.message(),
        "This attribute is redundant and can be removed. By default the type of this function argument already qualifies for `impl Into`."
    );
}

#[test]
fn into_false_on_string_disables_conversion() {
    let f = field("name", "Name", path(&["String"]), None, Some(false));
    let c = ctx(vec![f], &[]);
    let imp = c.setter_methods_impls_for_field(&c.fields[0]).ok().unwrap();
    assert_eq!(imp.methods.len(), 1);
    assert!(!imp.methods[0].into);
}

#[test]
fn into_true_on_u32_forces_conversion() {
    let f = field("age", "Age", path(&["u32"]), None, Some(true));
    let c = ctx(vec![f], &[]);
    assert!(c.field_qualifies_for_into(&c.fields[0], &c.fields[0].ty).ok().unwrap());
    let f = field("age", "Age", path(&["u32"]), None, Some(false));
    let c = ctx(vec![f], &[]);
    let e = c.field_qualifies_for_into(&c.fields[0], &c.fields[0].ty).err().unwrap();
    assert_eq!(
        e.message(),
        "This attribute is redundant and can be removed. By default the type of this function argument already doesn't qualify for `impl Into`."
    );
}

#[test]
fn end_to_end_name_and_optional_age() {
    let name = field("name", "Name", path(&["String"]), None, None);
    let age = field("age", "Age", option_of(), Some(path(&["u32"])), None);
    let c = ctx(vec![name, age], &[]);

    let name_impl = c.setter_methods_impls_for_field(&c.fields[0]).ok().unwrap();
    assert_eq!(name_impl.alias_ident, "__UserBuilderSetName");
    assert!(name_impl.alias_has_state_param);
    assert_eq!(name_impl.output_states, vec![StateMarker::Supplied, StateMarker::Current]);
    assert_eq!(name_impl.methods.len(), 1);
    assert_eq!(name_impl.methods[0].name, "name");
    assert_eq!(name_impl.methods[0].kind, SetterKind::Required);
    assert!(name_impl.methods[0].into);
    assert_eq!(name_impl.methods[0].docs, vec!["The doc line.".to_string()]);

    let age_impl = c.setter_methods_impls_for_field(&c.fields[1]).ok().unwrap();
    assert_eq!(age_impl.alias_ident, "__UserBuilderSetAge");
    assert_eq!(age_impl.output_states, vec![StateMarker::Current, StateMarker::Supplied]);
    assert_eq!(age_impl.methods.len(), 2);
    assert_eq!(age_impl.methods[0].name, "maybe_age");
    assert_eq!(age_impl.methods[0].kind, SetterKind::OptionalMaybe);
    assert!(!age_impl.methods[0].into);
    assert_eq!(
        age_impl.methods[0].docs,
        vec!["Same as [`Self::age`], but accepts an `Option` as input. See that method's documentation for more details.".to_string()]
    );
    assert_eq!(age_impl.methods[1].name, "age");
    assert_eq!(age_impl.methods[1].kind, SetterKind::OptionalValue);
    assert!(!age_impl.methods[1].into);
    assert_eq!(age_impl.methods[1].docs, vec!["The doc line.".to_string()]);
}

#[test]
fn optional_string_field_converts_inner_type() {
    let f = field("nick", "Nick", option_of(), Some(path(&["String"])), None);
    let c = ctx(vec![f], &[]);
    let imp = c.setter_methods_impls_for_field(&c.fields[0]).ok().unwrap();
    assert!(!imp.alias_has_state_param);
    assert_eq!(imp.output_states, vec![StateMarker::Supplied]);
    assert_eq!(imp.methods.len(), 2);
    assert!(imp.methods[0].into && imp.methods[1].into);
    assert_eq!(imp.methods[1].kind, SetterKind::OptionalValue);
}

#[test]
fn finish_only_after_every_field_is_set() {
    let fields = vec![
        field("a", "A", path(&["String"]), None, None),
        field("b", "B", path(&["u8"]), None, None),
        field("c", "C", option_of(), Some(path(&["u8"])), None),
    ];
    let c = ctx(fields, &[]);
    let mut state = vec![false; 3];
    for (step, k) in [2usize, 0, 1].iter().enumerate() {
        assert!(!state.iter().all(|s| *s));
        let imp = c.setter_methods_impls_for_field(&c.fields[*k]).ok().unwrap();
        let changed: Vec<usize> = (0..3).filter(|i| imp.output_states[*i] == StateMarker::Supplied).collect();
        assert_eq!(changed, vec![*k]);
        for i in 0..3 {
            state[i] = state[i] || imp.output_states[i] == StateMarker::Supplied;
        }
        assert_eq!(state.iter().filter(|s| **s).count(), step + 1);
    }
    assert!(state.iter().all(|s| *s));
}

#[test]
fn leading_underscore_is_dropped_from_setter_names() {
    assert_eq!(normalized_ident(&"_unused".to_string()), "unused");
    assert_eq!(normalized_ident(&"__two".to_string()), "_two");
    assert_eq!(normalized_ident(&"plain".to_string()), "plain");
    assert_eq!(normalized_ident(&"".to_string()), "");
    let f = field("_id", "Id", option_of(), Some(path(&["u64"])), None);
    let c = ctx(vec![f], &[]);
    let imp = c.setter_methods_impls_for_field(&c.fields[0]).ok().unwrap();
    assert_eq!(imp.methods[0].name, "maybe_id");
    assert_eq!(imp.methods[1].name, "id");
}

#[test]
fn colliding_field_names_are_refused() {
    let fields = vec![
        field("_a", "A", path(&["String"]), None, None),
        field("a", "A2", path(&["String"]), None, None),
    ];
    match BuilderGenCtx::new("B".to_string(), vec![], fields) {
        Err(BuilderError::DuplicateField { name }) => assert_eq!(name, "a"),
        _ => panic!("expected a duplicate-field error"),
    }
}

#[test]
fn builder_setters_covers_every_field_in_order() {
    let fields = vec![
        field("name", "Name", path(&["String"]), None, None),
        field("age", "Age", option_of(), Some(path(&["u32"])), None),
    ];
    let imps = bon_setters::setters::builder_setters("UserBuilder".to_string(), vec![], fields).ok().unwrap();
    assert_eq!(imps.len(), 2);
    assert_eq!(imps[0].alias_ident, "__UserBuilderSetName");
    assert_eq!(imps[1].methods.len(), 2);
    assert_eq!(imps[1].methods[0].name, "maybe_age");
}

#[test]
fn builder_setters_refuses_collisions_and_redundant_into() {
    let fields = vec![
        field("_a", "A", path(&["String"]), None, None),
        field("a", "A2", path(&["String"]), None, None),
    ];
    match bon_setters::setters::builder_setters("B".to_string(), vec![], fields) {
        Err(BuilderError::DuplicateField { name }) => assert_eq!(name, "a"),
        _ => panic!("expected a duplicate-field error"),
    }
    let fields = vec![
        field("ok", "Ok", path(&["u8"]), None, None),
        field("s", "S", path(&["String"]), None, Some(true)),
        field("t", "T", path(&["u8"]), None, Some(false)),
    ];
    match bon_setters::setters::builder_setters("B".to_string(), vec![], fields) {
        Err(BuilderError::RedundantInto { field, .. }) => assert_eq!(field, "s"),
        _ => panic!("expected a redundant-configuration error"),
    }
}
