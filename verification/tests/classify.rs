use property::policy::{auto_clear, auto_read, is_bare_str, ClrMethod, ReadShape};
use property::ty::{classify, FieldType, GenericArg, PathSeg, TypeExpr};

fn seg(ident: &str) -> PathSeg {
    PathSeg { ident: ident.to_string(), args: None }
}

fn seg_with(ident: &str, args: Vec<GenericArg>) -> PathSeg {
    PathSeg { ident: ident.to_string(), args: Some(args) }
}

fn path(ident: &str) -> TypeExpr {
    TypeExpr::Path(vec![seg(ident)])
}

fn wrapped(outer: &str, inner: TypeExpr) -> TypeExpr {
    TypeExpr::Path(vec![seg_with(outer, vec![GenericArg::TypeArg(inner)])])
}

#[test]
fn numbers_classify_as_number() {
    for name in [
        "f32", "f64", "i8", "i16", "i32", "i64", "i128", "isize", "u8", "u16", "u32", "u64",
        "u128", "usize",
    ] {
        assert!(matches!(classify(&path(name)), FieldType::Number));
    }
}

#[test]
fn primitives_classify_by_name() {
    assert!(matches!(classify(&path("bool")), FieldType::Boolean));
    assert!(matches!(classify(&path("char")), FieldType::Character));
    assert!(matches!(classify(&path("String")), FieldType::TextString));
}

#[test]
fn vector_with_one_type_argument_classifies_as_vector() {
    let t = wrapped("Vec", path("u8"));
    match classify(&t) {
        FieldType::Vector(TypeExpr::Path(segs)) => {
            assert_eq!(segs.len(), 1);
            assert_eq!(segs[0].ident, "u8");
        }
        _ => panic!("expected a vector taxonomy"),
    }
}

#[test]
fn vector_without_exactly_one_type_argument_is_unrecognized() {
    let two = TypeExpr::Path(vec![seg_with(
        "Vec",
        vec![
            GenericArg::TypeArg(path("u8")),
            GenericArg::TypeArg(path("u16")),
        ],
    )]);
    match classify(&two) {
        FieldType::Unrecognized(Some(name)) => assert_eq!(name, "Vec"),
        _ => panic!("expected an unrecognized taxonomy named Vec"),
    }
    let bare = path("Vec");
    match classify(&bare) {
        FieldType::Unrecognized(Some(name)) => assert_eq!(name, "Vec"),
        _ => panic!("expected an unrecognized taxonomy named Vec"),
    }
}

#[test]
fn wrappers_with_argument_lists_classify_as_boxed_and_optional() {
    assert!(matches!(
        classify(&wrapped("Box", path("u8"))),
        FieldType::Boxed(_)
    ));
    assert!(matches!(
        classify(&wrapped("Option", path("u8"))),
        FieldType::Optional(_)
    ));
    assert!(matches!(
        classify(&path("Option")),
        FieldType::Unrecognized(Some(_))
    ));
}

#[test]
fn trailing_name_of_a_long_path_is_kept() {
    let t = TypeExpr::Path(vec![seg("std"), seg("collections"), seg("HashMap")]);
    match classify(&t) {
        FieldType::Unrecognized(Some(name)) => assert_eq!(name, "HashMap"),
        _ => panic!("expected an unrecognized taxonomy named HashMap"),
    }
}

#[test]
fn array_classifies_as_fixed_array() {
    let t = TypeExpr::Array(Box::new(path("u8")), "4".to_string());
    match classify(&t) {
        FieldType::FixedArray(TypeExpr::Path(segs), len) => {
            assert_eq!(segs[0].ident, "u8");
            assert_eq!(len, "4");
        }
        _ => panic!("expected a fixed-array taxonomy"),
    }
}

#[test]
fn non_path_expressions_are_unrecognized_without_a_name() {
    assert!(matches!(
        classify(&TypeExpr::Other("(u8, u8)".to_string())),
        FieldType::Unrecognized(None)
    ));
    assert!(matches!(
        classify(&TypeExpr::Path(vec![])),
        FieldType::Unrecognized(None)
    ));
}

#[test]
fn auto_read_copies_numbers_and_views_text() {
    assert!(matches!(auto_read(&path("u32")), ReadShape::Copied));
    assert!(matches!(auto_read(&path("bool")), ReadShape::Copied));
    assert!(matches!(auto_read(&path("char")), ReadShape::Copied));
    assert!(matches!(auto_read(&path("String")), ReadShape::TextView));
}

#[test]
fn auto_read_views_sequences_as_element_slices() {
    match auto_read(&wrapped("Vec", path("u16"))) {
        ReadShape::ElemSlice(TypeExpr::Path(segs)) => assert_eq!(segs[0].ident, "u16"),
        _ => panic!("expected an element-slice shape"),
    }
    let arr = TypeExpr::Array(Box::new(path("bool")), "8".to_string());
    assert!(matches!(auto_read(&arr), ReadShape::ElemSlice(_)));
}

#[test]
fn auto_read_borrows_boxes_except_boxed_text() {
    assert!(matches!(auto_read(&wrapped("Box", path("u8"))), ReadShape::Borrowed));
    assert!(is_bare_str(&path("str")));
    assert!(!is_bare_str(&path("u8")));
    assert!(matches!(
        auto_read(&wrapped("Box", path("str"))),
        ReadShape::BorrowedText
    ));
}

#[test]
fn auto_read_copies_optionals_of_copyable_values() {
    assert!(matches!(
        auto_read(&wrapped("Option", path("u8"))),
        ReadShape::Copied
    ));
    assert!(matches!(
        auto_read(&wrapped("Option", wrapped("Option", path("i64")))),
        ReadShape::Copied
    ));
    assert!(matches!(
        auto_read(&wrapped("Option", path("String"))),
        ReadShape::OptionalRef(_)
    ));
    assert!(matches!(auto_read(&path("Unknown")), ReadShape::Borrowed));
}

#[test]
fn natural_clear_actions_follow_the_taxonomy() {
    assert_eq!(auto_clear(&classify(&path("u8"))), ClrMethod::SetZero);
    assert_eq!(
        auto_clear(&classify(&wrapped("Option", path("u8")))),
        ClrMethod::SetAbsent
    );
    assert_eq!(auto_clear(&classify(&path("bool"))), ClrMethod::SetDefault);
    assert_eq!(auto_clear(&classify(&path("char"))), ClrMethod::SetDefault);
    assert_eq!(auto_clear(&classify(&path("String"))), ClrMethod::CallClear);
    assert_eq!(
        auto_clear(&classify(&wrapped("Vec", path("u8")))),
        ClrMethod::CallClear
    );
    let arr = TypeExpr::Array(Box::new(path("u8")), "4".to_string());
    assert_eq!(auto_clear(&classify(&arr)), ClrMethod::FillDefault);
    assert_eq!(
        auto_clear(&classify(&wrapped("Box", path("u8")))),
        ClrMethod::NoAction
    );
}

#[test]
fn well_known_containers_clear_in_place_by_trailing_name() {
    for name in [
        "Vec", "VecDeque", "LinkedList", "HashMap", "BTreeMap", "HashSet", "BTreeSet",
        "BinaryHeap",
    ] {
        let t = TypeExpr::Path(vec![seg("std"), seg("collections"), seg(name)]);
        assert_eq!(auto_clear(&classify(&t)), ClrMethod::CallClear);
    }
    assert_eq!(
        auto_clear(&classify(&path("PathBuf"))),
        ClrMethod::NoAction
    );
    assert_eq!(
        auto_clear(&classify(&path("Mystery"))),
        ClrMethod::NoAction
    );
}

#[test]
fn classification_ignores_everything_but_the_type_expression() {
    let a = auto_read(&wrapped("Vec", path("u16")));
    let b = auto_read(&wrapped("Vec", path("u16")));
    match (a, b) {
        (ReadShape::ElemSlice(x), ReadShape::ElemSlice(y)) => {
            match (x, y) {
                (TypeExpr::Path(sx), TypeExpr::Path(sy)) => {
                    assert_eq!(sx[0].ident, sy[0].ident);
                }
                _ => panic!("expected path elements"),
            }
        }
        _ => panic!("expected identical element-slice shapes"),
    }
}
