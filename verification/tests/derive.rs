use property::attr::{AttrEntry, ErrorKind, ScopeEntry};
use property::derive_property;
use property::policy::{ClrMethod, ReadShape, WriteConv};
use property::conf::{SetTypeConf, Visibility};
use property::synth::MethodKind;
use property::ty::{GenericArg, PathSeg, TypeExpr};
use property::{ContainerInput, FieldInput};

fn bare(loc: u64, key: &str) -> ScopeEntry {
    ScopeEntry { loc, key: key.to_string(), value: None }
}

fn kv(loc: u64, key: &str, value: &str) -> ScopeEntry {
    ScopeEntry { loc, key: key.to_string(), value: Some(value.to_string()) }
}

fn scope(loc: u64, name: &str, entries: Vec<ScopeEntry>) -> AttrEntry {
    AttrEntry::Scope { loc, name: name.to_string(), entries }
}

fn path(ident: &str) -> TypeExpr {
    TypeExpr::Path(vec![PathSeg { ident: ident.to_string(), args: None }])
}

fn wrapped(outer: &str, inner: TypeExpr) -> TypeExpr {
    TypeExpr::Path(vec![PathSeg {
        ident: outer.to_string(),
        args: Some(vec![GenericArg::TypeArg(inner)]),
    }])
}

fn field(ident: &str, ty: TypeExpr, attrs: Vec<AttrEntry>) -> FieldInput {
    FieldInput { ident: ident.to_string(), ty, attrs }
}

fn record(fields: Vec<FieldInput>) -> ContainerInput {
    ContainerInput {
        name: "Sample".to_string(),
        generics: vec![],
        attrs: vec![],
        fields,
        loc: 0,
    }
}

#[test]
fn a_plain_unsigned_field_yields_exactly_a_getter_and_a_setter() {
    let out = derive_property(&record(vec![field("count", path("u32"), vec![])])).unwrap();
    assert_eq!(out.name, "Sample");
    assert_eq!(out.methods.len(), 2);

    let getter = &out.methods[0];
    assert_eq!(getter.vis, Visibility::Crate);
    assert_eq!(getter.field, "count");
    assert_eq!(getter.name, "count");
    assert!(matches!(getter.kind, MethodKind::Read(ReadShape::Copied)));

    let setter = &out.methods[1];
    assert_eq!(setter.vis, Visibility::Crate);
    assert_eq!(setter.name, "set_count");
    match &setter.kind {
        MethodKind::Write { conv, typ } => {
            assert!(matches!(conv, WriteConv::Direct));
            assert_eq!(*typ, SetTypeConf::Ref);
        }
        _ => panic!("expected a write descriptor"),
    }
}

#[test]
fn a_number_field_reads_by_copy_and_clears_to_zero() {
    let out = derive_property(&record(vec![field(
        "n",
        path("u64"),
        vec![scope(1, "clr", vec![bare(2, "public"), kv(3, "scope", "auto")])],
    )]))
    .unwrap();
    assert_eq!(out.methods.len(), 3);
    assert!(matches!(out.methods[0].kind, MethodKind::Read(ReadShape::Copied)));
    let clr = &out.methods[2];
    assert_eq!(clr.vis, Visibility::Public);
    assert_eq!(clr.name, "clear_n");
    assert!(matches!(clr.kind, MethodKind::Clear(ClrMethod::SetZero)));
}

#[test]
fn an_optional_field_wraps_a_bare_value_unless_full_option_is_set() {
    let out = derive_property(&record(vec![field(
        "tag",
        wrapped("Option", path("String")),
        vec![],
    )]))
    .unwrap();
    match &out.methods[1].kind {
        MethodKind::Write { conv, typ } => {
            assert!(matches!(conv, WriteConv::WrapOptional(_)));
            assert_eq!(*typ, SetTypeConf::Ref);
        }
        _ => panic!("expected a write descriptor"),
    }

    let out = derive_property(&record(vec![field(
        "tag",
        wrapped("Option", path("String")),
        vec![scope(1, "set", vec![bare(2, "full_option")])],
    )]))
    .unwrap();
    match &out.methods[1].kind {
        MethodKind::Write { conv, .. } => assert!(matches!(conv, WriteConv::Direct)),
        _ => panic!("expected a write descriptor"),
    }
}

#[test]
fn a_vector_field_reads_as_a_slice_and_clears_in_place() {
    let out = derive_property(&record(vec![field(
        "items",
        wrapped("Vec", path("u8")),
        vec![scope(1, "clr", vec![bare(2, "crate"), kv(3, "scope", "auto")])],
    )]))
    .unwrap();
    match &out.methods[0].kind {
        MethodKind::Read(ReadShape::ElemSlice(TypeExpr::Path(segs))) => {
            assert_eq!(segs[0].ident, "u8");
        }
        _ => panic!("expected an element-slice read"),
    }
    match &out.methods[1].kind {
        MethodKind::Write { conv, .. } => match conv {
            WriteConv::Sequence(TypeExpr::Path(segs)) => assert_eq!(segs[0].ident, "u8"),
            _ => panic!("expected a sequence conversion"),
        },
        _ => panic!("expected a write descriptor"),
    }
    assert!(matches!(
        out.methods[2].kind,
        MethodKind::Clear(ClrMethod::CallClear)
    ));
}

#[test]
fn disabled_operations_yield_no_descriptor() {
    let out = derive_property(&record(vec![field(
        "x",
        path("u8"),
        vec![scope(1, "get", vec![bare(2, "disable")])],
    )]))
    .unwrap();
    assert_eq!(out.methods.len(), 1);
    assert!(matches!(out.methods[0].kind, MethodKind::Write { .. }));

    let out = derive_property(&record(vec![field(
        "x",
        path("u8"),
        vec![
            scope(1, "get", vec![bare(2, "disable")]),
            scope(3, "set", vec![bare(4, "disable")]),
        ],
    )]))
    .unwrap();
    assert_eq!(out.methods.len(), 0);
}

#[test]
fn the_mutable_accessor_is_opt_in() {
    let out = derive_property(&record(vec![field(
        "x",
        path("String"),
        vec![scope(1, "mut", vec![bare(2, "public")])],
    )]))
    .unwrap();
    assert_eq!(out.methods.len(), 3);
    let m = &out.methods[2];
    assert_eq!(m.vis, Visibility::Public);
    assert_eq!(m.name, "mut_x");
    assert!(matches!(m.kind, MethodKind::MutBorrow));
}

#[test]
fn the_default_clear_scope_keeps_only_the_assign_absent_action() {
    let out = derive_property(&record(vec![field(
        "opt",
        wrapped("Option", path("u8")),
        vec![scope(1, "clr", vec![bare(2, "public")])],
    )]))
    .unwrap();
    assert!(matches!(
        out.methods[2].kind,
        MethodKind::Clear(ClrMethod::SetAbsent)
    ));

    let out = derive_property(&record(vec![field(
        "n",
        path("u8"),
        vec![scope(1, "clr", vec![bare(2, "public")])],
    )]))
    .unwrap();
    assert_eq!(out.methods.len(), 2);
}

#[test]
fn the_all_clear_scope_upgrades_a_missing_action_to_a_default() {
    let out = derive_property(&record(vec![field(
        "conn",
        path("Connection"),
        vec![scope(1, "clr", vec![bare(2, "public"), kv(3, "scope", "all")])],
    )]))
    .unwrap();
    assert!(matches!(
        out.methods.last().unwrap().kind,
        MethodKind::Clear(ClrMethod::SetDefault)
    ));
}

#[test]
fn a_record_without_fields_is_an_unsupported_shape() {
    let mut input = record(vec![]);
    input.loc = 77;
    let e = derive_property(&input).unwrap_err();
    assert_eq!(e.kind, ErrorKind::UnsupportedShape);
    assert_eq!(e.loc, 77);
}

#[test]
fn a_skipped_field_contributes_nothing() {
    let out = derive_property(&record(vec![
        field("a", path("u8"), vec![AttrEntry::Flag { loc: 1, name: "skip".to_string() }]),
        field("b", path("u8"), vec![]),
    ]))
    .unwrap();
    assert_eq!(out.methods.len(), 2);
    assert_eq!(out.methods[0].field, "b");
}

#[test]
fn descriptors_keep_field_order_then_operation_order() {
    let out = derive_property(&record(vec![
        field("a", path("u8"), vec![scope(1, "mut", vec![bare(2, "public")])]),
        field("b", path("u8"), vec![]),
    ]))
    .unwrap();
    let names: Vec<&str> = out.methods.iter().map(|m| m.name.as_str()).collect();
    assert_eq!(names, vec!["a", "set_a", "mut_a", "b", "set_b"]);
}

#[test]
fn record_level_attributes_seed_every_field_and_fields_override() {
    let mut input = record(vec![
        field("a", path("u8"), vec![]),
        field("b", path("u8"), vec![scope(5, "set", vec![bare(6, "crate")])]),
    ]);
    input.attrs = vec![scope(1, "set", vec![bare(2, "disable")])];
    let out = derive_property(&input).unwrap();
    let names: Vec<&str> = out.methods.iter().map(|m| m.name.as_str()).collect();
    assert_eq!(names, vec!["a", "b", "set_b"]);
}

#[test]
fn a_field_error_fails_the_whole_record() {
    let e = derive_property(&record(vec![
        field("a", path("u8"), vec![]),
        field(
            "b",
            path("u8"),
            vec![scope(1, "get", vec![bare(2, "public"), bare(3, "public")])],
        ),
    ]))
    .unwrap_err();
    assert_eq!(e.kind, ErrorKind::DuplicateOption);
    assert_eq!(e.loc, 3);
}

#[test]
fn explicit_names_and_affixes_shape_method_names() {
    let out = derive_property(&record(vec![field(
        "x",
        path("u8"),
        vec![scope(
            1,
            "get",
            vec![kv(2, "name", "fetch")],
        ), scope(3, "set", vec![kv(4, "prefix", "put_"), kv(5, "suffix", "_now")])],
    )]))
    .unwrap();
    assert_eq!(out.methods[0].name, "fetch");
    assert_eq!(out.methods[1].name, "put_x_now");
}

#[test]
fn forced_read_shapes_override_the_taxonomy() {
    let out = derive_property(&record(vec![field(
        "v",
        wrapped("Vec", path("u8")),
        vec![scope(1, "get", vec![kv(2, "type", "ref")])],
    )]))
    .unwrap();
    assert!(matches!(out.methods[0].kind, MethodKind::Read(ReadShape::Borrowed)));

    let out = derive_property(&record(vec![field(
        "v",
        path("String"),
        vec![scope(1, "get", vec![kv(2, "type", "clone")])],
    )]))
    .unwrap();
    assert!(matches!(out.methods[0].kind, MethodKind::Read(ReadShape::Cloned)));
}

#[test]
fn every_write_behavior_variant_is_carried_through() {
    for (value, expected) in [
        ("ref", SetTypeConf::Ref),
        ("own", SetTypeConf::Own),
        ("none", SetTypeConf::Unit),
        ("replace", SetTypeConf::Replace),
    ] {
        let out = derive_property(&record(vec![field(
            "x",
            path("u8"),
            vec![scope(1, "set", vec![kv(2, "type", value)])],
        )]))
        .unwrap();
        match &out.methods[1].kind {
            MethodKind::Write { typ, .. } => assert_eq!(*typ, expected),
            _ => panic!("expected a write descriptor"),
        }
    }
}

#[test]
fn a_boxed_text_field_reads_as_a_borrowed_string_view() {
    let out = derive_property(&record(vec![field(
        "label",
        wrapped("Box", path("str")),
        vec![],
    )]))
    .unwrap();
    assert!(matches!(
        out.methods[0].kind,
        MethodKind::Read(ReadShape::BorrowedText)
    ));

    let out = derive_property(&record(vec![field(
        "label",
        wrapped("Box", path("u8")),
        vec![],
    )]))
    .unwrap();
    assert!(matches!(
        out.methods[0].kind,
        MethodKind::Read(ReadShape::Borrowed)
    ));
}

#[test]
fn a_forced_copy_overrides_an_optional_taxonomy() {
    let out = derive_property(&record(vec![field(
        "x",
        wrapped("Option", path("String")),
        vec![scope(1, "get", vec![kv(2, "type", "copy")])],
    )]))
    .unwrap();
    assert!(matches!(out.methods[0].kind, MethodKind::Read(ReadShape::Copied)));
}

#[test]
fn generics_and_identity_are_carried_to_the_output() {
    let mut input = record(vec![field("x", path("u8"), vec![])]);
    input.name = "Pair".to_string();
    input.generics = vec!["T".to_string(), "'a".to_string()];
    let out = derive_property(&input).unwrap();
    assert_eq!(out.name, "Pair");
    assert_eq!(out.generics, vec!["T".to_string(), "'a".to_string()]);
}
