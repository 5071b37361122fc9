use vstd::prelude::*;
use crate::conf::{ClrScopeConf, GetTypeConf};
use crate::text::str_eq;
use crate::ty::{
    dup_args, is_number_ident, is_number_name, lemma_view_arg_seq_props, lemma_view_seg_seq_props,
    FieldType, FieldTypeV, GenericArg, GenericArgV, PathSegV, TypeExpr, TypeExprV,
    view_arg_seq, view_path_seg, view_seg_seq,
};

verus! {

/// The shape of a read method: what it returns and how the body obtains it.
///
/// `Borrowed` returns a reference to the field, `Copied` a bitwise copy,
/// `Cloned` a deep duplicate, `TextView` a borrowed string view of a text
/// field, `BorrowedText` a borrowed string view of a boxed text pointee,
/// `ElemSlice` a borrowed element-slice view, and `OptionalRef` a borrowed
/// optional of a reference to the wrapped value.
#[derive(Debug)]
pub enum ReadShape {
    Borrowed,
    Copied,
    Cloned,
    TextView,
    BorrowedText,
    ElemSlice(TypeExpr),
    OptionalRef(Vec<GenericArg>),
}

/// Mathematical value of a [`ReadShape`].
pub ghost enum ReadShapeV {
    Borrowed,
    Copied,
    Cloned,
    TextView,
    BorrowedText,
    ElemSlice(TypeExprV),
    OptionalRef(Seq<GenericArgV>),
}

impl View for ReadShape {
    type V = ReadShapeV;

    open spec fn view(&self) -> ReadShapeV {
        match self {
            ReadShape::Borrowed => ReadShapeV::Borrowed,
            ReadShape::Copied => ReadShapeV::Copied,
            ReadShape::Cloned => ReadShapeV::Cloned,
            ReadShape::TextView => ReadShapeV::TextView,
            ReadShape::BorrowedText => ReadShapeV::BorrowedText,
            ReadShape::ElemSlice(e) => ReadShapeV::ElemSlice(crate::ty::view_type_expr(*e)),
            ReadShape::OptionalRef(args) => ReadShapeV::OptionalRef(view_arg_seq(args@)),
        }
    }
}

/// The bare text-string slice type, the pointee shape that turns a borrowed
/// indirection wrapper into a borrowed string view.
pub open spec fn spec_bare_str() -> TypeExprV {
    TypeExprV::Path(seq![PathSegV { ident: "str"@, args: Option::None }])
}

/// Whether a type expression is the bare text-string slice type.
pub fn is_bare_str(t: &TypeExpr) -> (r: bool)
    ensures
        r == (t@ == spec_bare_str()),
{
    match t {
        TypeExpr::Path(segs) => {
            proof {
                lemma_view_seg_seq_props(segs@);
            }
            if segs.len() == 1 {
                let head = &segs[0];
                let named = str_eq(&head.ident, "str");
                let bare = match &head.args {
                    Option::Some(_) => false,
                    Option::None => true,
                };
                proof {
                    let v = view_seg_seq(segs@);
                    let b = spec_bare_str()->Path_0;
                    assert(b == Seq::empty().push(
                        PathSegV { ident: "str"@, args: Option::None },
                    ));
                    assert(b.len() == 1);
                    assert(b[0] == PathSegV { ident: "str"@, args: Option::None });
                    assert(v[0] == view_path_seg(segs@[0]));
                    if named && bare {
                        assert(v =~= b);
                    } else {
                        assert(v[0] != b[0]);
                    }
                }
                named && bare
            } else {
                proof {
                    assert(view_seg_seq(segs@).len() != 1);
                    assert(spec_bare_str()->Path_0.len() == 1);
                }
                false
            }
        },
        TypeExpr::Array(_, _) => false,
        TypeExpr::Other(_) => false,
    }
}

/// The read shape the `Auto` rule picks from a type expression alone:
/// numbers, booleans and characters are copied; text strings are viewed;
/// growable sequences and fixed-length arrays are viewed as element slices;
/// an indirection wrapper is borrowed, as a string view when its single
/// pointee is the bare text-string slice; an optional whose single type
/// argument itself resolves to a copy is copied whole, any other optional
/// is returned as a borrowed optional of a reference; everything else is
/// borrowed.
pub open spec fn spec_auto_read(t: TypeExprV) -> ReadShapeV
    decreases t,
{
    match t {
        TypeExprV::Path(segs) => {
            if segs.len() == 0 {
                ReadShapeV::Borrowed
            } else if is_number_name(segs[0].ident) || segs[0].ident == "bool"@ || segs[0].ident
                == "char"@ {
                ReadShapeV::Copied
            } else if segs[0].ident == "String"@ {
                ReadShapeV::TextView
            } else if segs[0].ident == "Vec"@ {
                match segs[0].args {
                    Option::Some(list) => if list.len() == 1 && list[0] is TypeArg {
                        ReadShapeV::ElemSlice(list[0]->TypeArg_0)
                    } else {
                        ReadShapeV::Borrowed
                    },
                    Option::None => ReadShapeV::Borrowed,
                }
            } else if segs[0].ident == "Box"@ {
                match segs[0].args {
                    Option::Some(list) => if list.len() == 1 && list[0] is TypeArg && list[0]
                        ->TypeArg_0 == spec_bare_str() {
                        ReadShapeV::BorrowedText
                    } else {
                        ReadShapeV::Borrowed
                    },
                    Option::None => ReadShapeV::Borrowed,
                }
            } else if segs[0].ident == "Option"@ {
                match segs[0].args {
                    Option::Some(list) => if list.len() == 1 && list[0] is TypeArg
                        && spec_auto_read(list[0]->TypeArg_0) == ReadShapeV::Copied {
                        ReadShapeV::Copied
                    } else {
                        ReadShapeV::OptionalRef(list)
                    },
                    Option::None => ReadShapeV::Borrowed,
                }
            } else {
                ReadShapeV::Borrowed
            }
        },
        TypeExprV::Array(elem, _) => ReadShapeV::ElemSlice(*elem),
        TypeExprV::Other(_) => ReadShapeV::Borrowed,
    }
}

/// Compute the `Auto` read shape of a type expression.
pub fn auto_read(t: &TypeExpr) -> (r: ReadShape)
    ensures
        r@ == spec_auto_read(t@),
    decreases *t,
{
    match t {
        TypeExpr::Path(segs) => {
            proof {
                lemma_view_seg_seq_props(segs@);
            }
            if segs.len() == 0 {
                ReadShape::Borrowed
            } else {
                let head = &segs[0];
                if is_number_ident(&head.ident) || str_eq(&head.ident, "bool") || str_eq(
                    &head.ident,
                    "char",
                ) {
                    ReadShape::Copied
                } else if str_eq(&head.ident, "String") {
                    ReadShape::TextView
                } else if str_eq(&head.ident, "Vec") {
                    match &head.args {
                        Option::Some(list) => {
                            proof {
                                lemma_view_arg_seq_props(list@);
                            }
                            if list.len() == 1 {
                                match &list[0] {
                                    GenericArg::TypeArg(inner) => ReadShape::ElemSlice(
                                        inner.dup(),
                                    ),
                                    GenericArg::OtherArg(_) => ReadShape::Borrowed,
                                }
                            } else {
                                ReadShape::Borrowed
                            }
                        },
                        Option::None => ReadShape::Borrowed,
                    }
                } else if str_eq(&head.ident, "Box") {
                    match &head.args {
                        Option::Some(list) => {
                            proof {
                                lemma_view_arg_seq_props(list@);
                            }
                            if list.len() == 1 {
                                match &list[0] {
                                    GenericArg::TypeArg(inner) => {
                                        if is_bare_str(inner) {
                                            ReadShape::BorrowedText
                                        } else {
                                            ReadShape::Borrowed
                                        }
                                    },
                                    GenericArg::OtherArg(_) => ReadShape::Borrowed,
                                }
                            } else {
                                ReadShape::Borrowed
                            }
                        },
                        Option::None => ReadShape::Borrowed,
                    }
                } else if str_eq(&head.ident, "Option") {
                    match &head.args {
                        Option::Some(list) => {
                            proof {
                                lemma_view_arg_seq_props(list@);
                            }
                            if list.len() == 1 {
                                let copied = match &list[0] {
                                    GenericArg::TypeArg(inner) => {
                                        proof {
                                            assert(decreases_to!(*t => *segs));
                                            assert(decreases_to!(*segs => segs@));
                                            assert(decreases_to!(segs@ => segs@[0]));
                                        }
                                        let ri = auto_read(inner);
                                        match ri {
                                            ReadShape::Copied => true,
                                            _ => false,
                                        }
                                    },
                                    GenericArg::OtherArg(_) => false,
                                };
                                if copied {
                                    ReadShape::Copied
                                } else {
                                    ReadShape::OptionalRef(dup_args(list))
                                }
                            } else {
                                ReadShape::OptionalRef(dup_args(list))
                            }
                        },
                        Option::None => ReadShape::Borrowed,
                    }
                } else {
                    ReadShape::Borrowed
                }
            }
        },
        TypeExpr::Array(elem, _) => ReadShape::ElemSlice((**elem).dup()),
        TypeExpr::Other(_) => ReadShape::Borrowed,
    }
}

/// The shape of a read method once the configured read type is applied:
/// `Auto` defers to the type-driven rule, the other settings force one
/// shape for every taxonomy.
pub open spec fn spec_read_shape(t: TypeExprV, typ: GetTypeConf) -> ReadShapeV {
    match typ {
        GetTypeConf::Auto => spec_auto_read(t),
        GetTypeConf::Ref => ReadShapeV::Borrowed,
        GetTypeConf::Copied => ReadShapeV::Copied,
        GetTypeConf::Cloned => ReadShapeV::Cloned,
    }
}

/// Compute the read shape for a type expression and a configured read type.
pub fn read_shape(t: &TypeExpr, typ: GetTypeConf) -> (r: ReadShape)
    ensures
        r@ == spec_read_shape(t@, typ),
{
    match typ {
        GetTypeConf::Auto => auto_read(t),
        GetTypeConf::Ref => ReadShape::Borrowed,
        GetTypeConf::Copied => ReadShape::Copied,
        GetTypeConf::Cloned => ReadShape::Cloned,
    }
}

/// How a write method converts its argument before assigning the field:
/// a sequence of values convertible to the element type, a single value
/// convertible to the optional's wrapped type, or a single value
/// convertible to the field's literal declared type.
#[derive(Debug)]
pub enum WriteConv {
    Sequence(TypeExpr),
    WrapOptional(Vec<GenericArg>),
    Direct,
}

/// Mathematical value of a [`WriteConv`].
pub ghost enum WriteConvV {
    Sequence(TypeExprV),
    WrapOptional(Seq<GenericArgV>),
    Direct,
}

impl View for WriteConv {
    type V = WriteConvV;

    open spec fn view(&self) -> WriteConvV {
        match self {
            WriteConv::Sequence(e) => WriteConvV::Sequence(crate::ty::view_type_expr(*e)),
            WriteConv::WrapOptional(args) => WriteConvV::WrapOptional(view_arg_seq(args@)),
            WriteConv::Direct => WriteConvV::Direct,
        }
    }
}

/// The write conversion for a taxonomy: growable sequences take any
/// sequence of convertible values, an optional field takes the bare wrapped
/// value unless `full_option` asks for the literal optional, and every
/// other taxonomy takes a value convertible to the declared type.
pub open spec fn spec_write_conv(t: FieldTypeV, full_option: bool) -> WriteConvV {
    match t {
        FieldTypeV::Vector(e) => WriteConvV::Sequence(e),
        FieldTypeV::Optional(args) => if full_option {
            WriteConvV::Direct
        } else {
            WriteConvV::WrapOptional(args)
        },
        _ => WriteConvV::Direct,
    }
}

/// Compute the write conversion for a classified field.
pub fn write_conv(t: FieldType, full_option: bool) -> (r: WriteConv)
    ensures
        r@ == spec_write_conv(t@, full_option),
{
    match t {
        FieldType::Vector(e) => WriteConv::Sequence(e),
        FieldType::Optional(args) => if full_option {
            WriteConv::Direct
        } else {
            WriteConv::WrapOptional(args)
        },
        _ => WriteConv::Direct,
    }
}

/// The body of a clear method: assign numeric zero, assign the absent
/// optional, assign the type's default value, invoke the built-in clear
/// operation, fill every slot with the element default, or nothing.
#[derive(Clone, Copy, PartialEq, Eq, Debug, Structural)]
pub enum ClrMethod {
    SetZero,
    SetAbsent,
    SetDefault,
    CallClear,
    FillDefault,
    NoAction,
}

/// Whether a trailing type name is on the allow-list of well-known owning
/// containers whose built-in clear operation the clear method may invoke.
pub open spec fn is_clearable_name(s: Seq<char>) -> bool {
    ||| s == "Vec"@
    ||| s == "VecDeque"@
    ||| s == "LinkedList"@
    ||| s == "HashMap"@
    ||| s == "BTreeMap"@
    ||| s == "HashSet"@
    ||| s == "BTreeSet"@
    ||| s == "BinaryHeap"@
}

/// Whether a trailing type name is on the allow-list of well-known owning
/// containers whose built-in clear operation the clear method may invoke.
pub fn is_clearable_ident(s: &String) -> (r: bool)
    ensures
        r == is_clearable_name(s@),
{
    str_eq(s, "Vec") || str_eq(s, "VecDeque") || str_eq(s, "LinkedList") || str_eq(s, "HashMap")
        || str_eq(s, "BTreeMap") || str_eq(s, "HashSet") || str_eq(s, "BTreeSet") || str_eq(
        s,
        "BinaryHeap",
    )
}

/// The natural clear action of a taxonomy: numbers are zeroed, optionals
/// are set absent, booleans and characters take their default, text strings
/// and growable sequences are cleared in place, fixed-length arrays are
/// filled with element defaults, and an unrecognized type whose trailing
/// name is a well-known owning container is cleared in place; anything else
/// has no action.
pub open spec fn spec_auto_clear(t: FieldTypeV) -> ClrMethod {
    match t {
        FieldTypeV::Number => ClrMethod::SetZero,
        FieldTypeV::Optional(_) => ClrMethod::SetAbsent,
        FieldTypeV::Boolean => ClrMethod::SetDefault,
        FieldTypeV::Character => ClrMethod::SetDefault,
        FieldTypeV::TextString => ClrMethod::CallClear,
        FieldTypeV::Vector(_) => ClrMethod::CallClear,
        FieldTypeV::FixedArray(_, _) => ClrMethod::FillDefault,
        FieldTypeV::Unrecognized(n) => match n {
            Option::Some(name) => if is_clearable_name(name) {
                ClrMethod::CallClear
            } else {
                ClrMethod::NoAction
            },
            Option::None => ClrMethod::NoAction,
        },
        FieldTypeV::Boxed(_) => ClrMethod::NoAction,
    }
}

/// Compute the natural clear action of a classified field.
pub fn auto_clear(t: &FieldType) -> (r: ClrMethod)
    ensures
        r == spec_auto_clear(t@),
{
    match t {
        FieldType::Number => ClrMethod::SetZero,
        FieldType::Optional(_) => ClrMethod::SetAbsent,
        FieldType::Boolean => ClrMethod::SetDefault,
        FieldType::Character => ClrMethod::SetDefault,
        FieldType::TextString => ClrMethod::CallClear,
        FieldType::Vector(_) => ClrMethod::CallClear,
        FieldType::FixedArray(_, _) => ClrMethod::FillDefault,
        FieldType::Unrecognized(n) => match n {
            Option::Some(name) => if is_clearable_ident(name) {
                ClrMethod::CallClear
            } else {
                ClrMethod::NoAction
            },
            Option::None => ClrMethod::NoAction,
        },
        FieldType::Boxed(_) => ClrMethod::NoAction,
    }
}

/// The clear action once the configured clear scope is applied: `Auto`
/// keeps the natural action, `OptionOnly` keeps only the assign-absent
/// action, and `All` upgrades a missing action to assigning the default.
pub open spec fn spec_resolve_clear(scope: ClrScopeConf, natural: ClrMethod) -> ClrMethod {
    match scope {
        ClrScopeConf::Auto => natural,
        ClrScopeConf::OptionOnly => if natural == ClrMethod::SetAbsent {
            natural
        } else {
            ClrMethod::NoAction
        },
        ClrScopeConf::All => if natural == ClrMethod::NoAction {
            ClrMethod::SetDefault
        } else {
            natural
        },
    }
}

/// Apply the configured clear scope to the natural clear action.
pub fn resolve_clear(scope: ClrScopeConf, natural: ClrMethod) -> (r: ClrMethod)
    ensures
        r == spec_resolve_clear(scope, natural),
{
    match scope {
        ClrScopeConf::Auto => natural,
        ClrScopeConf::OptionOnly => if natural == ClrMethod::SetAbsent {
            natural
        } else {
            ClrMethod::NoAction
        },
        ClrScopeConf::All => if natural == ClrMethod::NoAction {
            ClrMethod::SetDefault
        } else {
            natural
        },
    }
}

} // verus!
