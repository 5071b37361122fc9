use property::attr::{
    parse_attrs, AttrEntry, ErrorKind, ScopeEntry,
};
use property::conf::{
    ClrScopeConf, FieldConf, GetTypeConf, MethodNameConf, SetTypeConf, Visibility,
};

fn bare(loc: u64, key: &str) -> ScopeEntry {
    ScopeEntry { loc, key: key.to_string(), value: None }
}

fn kv(loc: u64, key: &str, value: &str) -> ScopeEntry {
    ScopeEntry { loc, key: key.to_string(), value: Some(value.to_string()) }
}

fn scope(loc: u64, name: &str, entries: Vec<ScopeEntry>) -> AttrEntry {
    AttrEntry::Scope { loc, name: name.to_string(), entries }
}

fn parse_default(entries: Vec<AttrEntry>) -> Result<FieldConf, property::attr::ParseError> {
    parse_attrs(FieldConf::default_conf(), &entries)
}

#[test]
fn the_default_configuration_is_the_documented_one() {
    let c = FieldConf::default_conf();
    assert_eq!(c.get.vis, Visibility::Crate);
    assert_eq!(c.get.typ, GetTypeConf::Auto);
    assert_eq!(c.set.vis, Visibility::Crate);
    assert_eq!(c.set.typ, SetTypeConf::Ref);
    assert!(!c.set.full_option);
    assert_eq!(c.mut_.vis, Visibility::Disable);
    assert_eq!(c.clr.vis, Visibility::Disable);
    assert_eq!(c.clr.scope, ClrScopeConf::OptionOnly);
    assert!(!c.skip);
    match &c.set.name {
        MethodNameConf::Format { prefix, suffix } => {
            assert_eq!(prefix, "set_");
            assert_eq!(suffix, "");
        }
        _ => panic!("expected a formatted default setter name"),
    }
}

#[test]
fn the_default_trait_gives_the_same_configuration() {
    let d: FieldConf = Default::default();
    assert_eq!(d.get.vis, Visibility::Crate);
    assert_eq!(d.set.typ, SetTypeConf::Ref);
    assert_eq!(d.mut_.vis, Visibility::Disable);
    match &d.get.name {
        MethodNameConf::Format { prefix, suffix } => {
            assert_eq!(prefix, "");
            assert_eq!(suffix, "");
        }
        _ => panic!("expected a formatted default getter name"),
    }
}

#[test]
fn visibility_flags_set_each_scope() {
    let c = parse_default(vec![
        scope(1, "get", vec![bare(2, "public")]),
        scope(3, "set", vec![bare(4, "disable")]),
        scope(5, "mut", vec![bare(6, "private")]),
        scope(7, "clr", vec![bare(8, "crate")]),
    ])
    .unwrap();
    assert_eq!(c.get.vis, Visibility::Public);
    assert_eq!(c.set.vis, Visibility::Disable);
    assert_eq!(c.mut_.vis, Visibility::Private);
    assert_eq!(c.clr.vis, Visibility::Crate);
}

#[test]
fn two_public_flags_fail_with_duplicate_option() {
    let e = parse_default(vec![scope(1, "get", vec![bare(2, "public"), bare(3, "public")])])
        .unwrap_err();
    assert_eq!(e.kind, ErrorKind::DuplicateOption);
    assert_eq!(e.loc, 3);
}

#[test]
fn two_visibility_flags_fail_whatever_stands_between_them() {
    let e = parse_default(vec![scope(
        1,
        "get",
        vec![bare(2, "public"), kv(3, "name", "x"), bare(4, "private")],
    )])
    .unwrap_err();
    assert_eq!(e.kind, ErrorKind::DuplicateOption);
    assert_eq!(e.loc, 4);
}

#[test]
fn two_name_entries_fail_in_either_order() {
    let e1 = parse_default(vec![scope(
        1,
        "get",
        vec![kv(2, "name", "a"), kv(3, "name", "b")],
    )])
    .unwrap_err();
    assert_eq!(e1.kind, ErrorKind::DuplicateOption);
    assert_eq!(e1.loc, 3);
    let e2 = parse_default(vec![scope(
        1,
        "get",
        vec![kv(2, "name", "b"), kv(3, "name", "a")],
    )])
    .unwrap_err();
    assert_eq!(e2.kind, ErrorKind::DuplicateOption);
    assert_eq!(e2.loc, 3);
}

#[test]
fn duplicates_are_tracked_across_lists_of_the_same_scope() {
    let e = parse_default(vec![
        scope(1, "set", vec![bare(2, "public")]),
        scope(3, "set", vec![bare(4, "crate")]),
    ])
    .unwrap_err();
    assert_eq!(e.kind, ErrorKind::DuplicateOption);
    assert_eq!(e.loc, 4);
}

#[test]
fn a_name_beside_a_prefix_conflicts_either_way_round() {
    let e1 = parse_default(vec![scope(
        1,
        "get",
        vec![kv(2, "name", "x"), kv(3, "prefix", "p_")],
    )])
    .unwrap_err();
    assert_eq!(e1.kind, ErrorKind::ConflictingNaming);
    assert_eq!(e1.loc, 3);
    let e2 = parse_default(vec![scope(
        1,
        "get",
        vec![kv(2, "suffix", "_s"), kv(3, "name", "x")],
    )])
    .unwrap_err();
    assert_eq!(e2.kind, ErrorKind::ConflictingNaming);
    assert_eq!(e2.loc, 3);
}

#[test]
fn a_prefix_and_a_suffix_combine_in_either_order() {
    let c1 = parse_default(vec![scope(
        1,
        "get",
        vec![kv(2, "prefix", "aa_"), kv(3, "suffix", "_bb")],
    )])
    .unwrap();
    match &c1.get.name {
        MethodNameConf::Format { prefix, suffix } => {
            assert_eq!(prefix, "aa_");
            assert_eq!(suffix, "_bb");
        }
        _ => panic!("expected a formatted name"),
    }
    let c2 = parse_default(vec![scope(
        1,
        "get",
        vec![kv(2, "suffix", "_bb"), kv(3, "prefix", "aa_")],
    )])
    .unwrap();
    match &c2.get.name {
        MethodNameConf::Format { prefix, suffix } => {
            assert_eq!(prefix, "aa_");
            assert_eq!(suffix, "_bb");
        }
        _ => panic!("expected a formatted name"),
    }
}

#[test]
fn a_suffix_alone_replaces_the_default_prefix() {
    let c = parse_default(vec![scope(1, "set", vec![kv(2, "suffix", "_w")])]).unwrap();
    match &c.set.name {
        MethodNameConf::Format { prefix, suffix } => {
            assert_eq!(prefix, "");
            assert_eq!(suffix, "_w");
        }
        _ => panic!("expected a formatted name"),
    }
}

#[test]
fn type_values_are_validated_per_scope() {
    let c = parse_default(vec![
        scope(1, "get", vec![kv(2, "type", "clone")]),
        scope(3, "set", vec![kv(4, "type", "replace")]),
        scope(5, "clr", vec![kv(6, "scope", "all")]),
    ])
    .unwrap();
    assert_eq!(c.get.typ, GetTypeConf::Cloned);
    assert_eq!(c.set.typ, SetTypeConf::Replace);
    assert_eq!(c.clr.scope, ClrScopeConf::All);

    let e = parse_default(vec![scope(1, "get", vec![kv(2, "type", "borrow")])]).unwrap_err();
    assert_eq!(e.kind, ErrorKind::UnknownOption);
    assert_eq!(e.loc, 2);
    let e = parse_default(vec![scope(1, "set", vec![kv(2, "type", "auto")])]).unwrap_err();
    assert_eq!(e.kind, ErrorKind::UnknownOption);
    let e = parse_default(vec![scope(1, "clr", vec![kv(2, "scope", "most")])]).unwrap_err();
    assert_eq!(e.kind, ErrorKind::UnknownOption);
}

#[test]
fn keys_outside_their_scope_are_unknown() {
    let e = parse_default(vec![scope(1, "mut", vec![kv(2, "type", "ref")])]).unwrap_err();
    assert_eq!(e.kind, ErrorKind::UnknownOption);
    let e = parse_default(vec![scope(1, "get", vec![bare(2, "full_option")])]).unwrap_err();
    assert_eq!(e.kind, ErrorKind::UnknownOption);
    let e = parse_default(vec![scope(1, "get", vec![kv(2, "scope", "auto")])]).unwrap_err();
    assert_eq!(e.kind, ErrorKind::UnknownOption);
}

#[test]
fn an_unknown_scope_or_flag_is_rejected_at_its_location() {
    let e = parse_default(vec![scope(9, "fetch", vec![bare(10, "public")])]).unwrap_err();
    assert_eq!(e.kind, ErrorKind::UnknownOption);
    assert_eq!(e.loc, 9);
    let e = parse_default(vec![AttrEntry::Flag { loc: 11, name: "hidden".to_string() }])
        .unwrap_err();
    assert_eq!(e.kind, ErrorKind::UnknownOption);
    assert_eq!(e.loc, 11);
    let e = parse_default(vec![AttrEntry::Unsupported { loc: 12 }]).unwrap_err();
    assert_eq!(e.kind, ErrorKind::UnknownOption);
    assert_eq!(e.loc, 12);
}

#[test]
fn a_valued_key_without_a_value_is_missing_value() {
    let e = parse_default(vec![scope(1, "get", vec![bare(2, "name")])]).unwrap_err();
    assert_eq!(e.kind, ErrorKind::MissingValue);
    assert_eq!(e.loc, 2);
    let e = parse_default(vec![scope(1, "set", vec![bare(2, "type")])]).unwrap_err();
    assert_eq!(e.kind, ErrorKind::MissingValue);
    let e = parse_default(vec![scope(1, "clr", vec![bare(2, "scope")])]).unwrap_err();
    assert_eq!(e.kind, ErrorKind::MissingValue);
}

#[test]
fn a_bare_flag_given_a_value_is_unknown() {
    let e = parse_default(vec![scope(1, "get", vec![kv(2, "public", "yes")])]).unwrap_err();
    assert_eq!(e.kind, ErrorKind::UnknownOption);
    let e = parse_default(vec![scope(1, "set", vec![kv(2, "full_option", "yes")])])
        .unwrap_err();
    assert_eq!(e.kind, ErrorKind::UnknownOption);
}

#[test]
fn full_option_is_a_bare_set_flag() {
    let c = parse_default(vec![scope(1, "set", vec![bare(2, "full_option")])]).unwrap();
    assert!(c.set.full_option);
    let e = parse_default(vec![scope(
        1,
        "set",
        vec![bare(2, "full_option"), bare(3, "full_option")],
    )])
    .unwrap_err();
    assert_eq!(e.kind, ErrorKind::DuplicateOption);
    assert_eq!(e.loc, 3);
}

#[test]
fn skip_stops_all_further_processing_of_the_list() {
    let c = parse_default(vec![
        AttrEntry::Flag { loc: 1, name: "skip".to_string() },
        scope(2, "nonsense", vec![bare(3, "broken")]),
    ])
    .unwrap();
    assert!(c.skip);
    assert_eq!(c.get.vis, Visibility::Crate);
}
