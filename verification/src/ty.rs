use vstd::prelude::*;
use crate::text::str_eq;

verus! {

/// One segment of a path-shaped type expression: an identifier plus, when
/// the segment carries an angle-bracketed list, its generic arguments.
#[derive(Debug)]
pub struct PathSeg {
    pub ident: String,
    pub args: Option<Vec<GenericArg>>,
}

/// One generic argument of a path segment: a nested type expression, or a
/// non-type argument (a lifetime or a const expression) kept as raw text.
#[derive(Debug)]
pub enum GenericArg {
    TypeArg(TypeExpr),
    OtherArg(String),
}

/// A field's raw type expression, reduced to the syntactic shapes the
/// classifier distinguishes: a path, a fixed-length array (element type
/// plus the raw length text), or any other expression kept as raw text.
#[derive(Debug)]
pub enum TypeExpr {
    Path(Vec<PathSeg>),
    Array(Box<TypeExpr>, String),
    Other(String),
}

/// Mathematical value of a [`PathSeg`].
pub ghost struct PathSegV {
    pub ident: Seq<char>,
    pub args: Option<Seq<GenericArgV>>,
}

/// Mathematical value of a [`GenericArg`].
pub ghost enum GenericArgV {
    TypeArg(TypeExprV),
    OtherArg(Seq<char>),
}

/// Mathematical value of a [`TypeExpr`].
pub ghost enum TypeExprV {
    Path(Seq<PathSegV>),
    Array(Box<TypeExprV>, Seq<char>),
    Other(Seq<char>),
}

/// Mathematical value of a type expression.
pub open spec fn view_type_expr(t: TypeExpr) -> TypeExprV
    decreases t,
{
    match t {
        TypeExpr::Path(segs) => TypeExprV::Path(view_seg_seq(segs@)),
        TypeExpr::Array(elem, len) => TypeExprV::Array(Box::new(view_type_expr(*elem)), len@),
        TypeExpr::Other(raw) => TypeExprV::Other(raw@),
    }
}

/// Mathematical value of a sequence of path segments.
pub open spec fn view_seg_seq(segs: Seq<PathSeg>) -> Seq<PathSegV>
    decreases segs,
{
    if segs.len() == 0 {
        Seq::empty()
    } else {
        view_seg_seq(segs.subrange(0, segs.len() - 1)).push(view_path_seg(segs[segs.len() - 1]))
    }
}

/// Mathematical value of a path segment.
pub open spec fn view_path_seg(s: PathSeg) -> PathSegV
    decreases s,
{
    PathSegV {
        ident: s.ident@,
        args: match s.args {
            Option::Some(v) => Option::Some(view_arg_seq(v@)),
            Option::None => Option::None,
        },
    }
}

/// Mathematical value of a sequence of generic arguments.
pub open spec fn view_arg_seq(args: Seq<GenericArg>) -> Seq<GenericArgV>
    decreases args,
{
    if args.len() == 0 {
        Seq::empty()
    } else {
        view_arg_seq(args.subrange(0, args.len() - 1)).push(
            view_generic_arg(args[args.len() - 1]),
        )
    }
}

/// Mathematical value of a generic argument.
pub open spec fn view_generic_arg(a: GenericArg) -> GenericArgV
    decreases a,
{
    match a {
        GenericArg::TypeArg(t) => GenericArgV::TypeArg(view_type_expr(t)),
        GenericArg::OtherArg(raw) => GenericArgV::OtherArg(raw@),
    }
}

impl View for TypeExpr {
    type V = TypeExprV;

    open spec fn view(&self) -> TypeExprV {
        view_type_expr(*self)
    }
}

/// Appending a segment appends its value to the sequence's value.
pub proof fn lemma_view_seg_seq_push(s: Seq<PathSeg>, x: PathSeg)
    ensures
        view_seg_seq(s.push(x)) == view_seg_seq(s).push(view_path_seg(x)),
{
    assert(s.push(x).subrange(0, s.push(x).len() - 1) =~= s);
}

/// Appending an argument appends its value to the sequence's value.
pub proof fn lemma_view_arg_seq_push(s: Seq<GenericArg>, x: GenericArg)
    ensures
        view_arg_seq(s.push(x)) == view_arg_seq(s).push(view_generic_arg(x)),
{
    assert(s.push(x).subrange(0, s.push(x).len() - 1) =~= s);
}

impl TypeExpr {
    /// An owned structural copy of this type expression.
    pub fn dup(&self) -> (r: TypeExpr)
        ensures
            r@ == self@,
        decreases *self,
    {
        match self {
            TypeExpr::Path(segs) => {
                let mut out: Vec<PathSeg> = Vec::new();
                let mut j: usize = 0;
                while j < segs.len()
                    invariant
                        *self == TypeExpr::Path(*segs),
                        j <= segs.len(),
                        view_seg_seq(out@) == view_seg_seq(segs@.subrange(0, j as int)),
                    decreases segs.len() - j,
                {
                    proof {
                        assert(*self == TypeExpr::Path(*segs));
                        assert(decreases_to!(*self => self->Path_0));
                        assert(decreases_to!(*segs => segs@));
                        assert(decreases_to!(segs@ => segs@[j as int]));
                        assert(decreases_to!(*self => segs@[j as int]));
                    }
                    let s2 = segs[j].dup();
                    proof {
                        lemma_view_seg_seq_push(out@, s2);
                        lemma_view_seg_seq_push(segs@.subrange(0, j as int), segs@[j as int]);
                        assert(segs@.subrange(0, j as int).push(segs@[j as int]) =~= segs@.subrange(
                            0,
                            j + 1,
                        ));
                    }
                    out.push(s2);
                    j += 1;
                }
                proof {
                    assert(segs@.subrange(0, segs@.len() as int) =~= segs@);
                }
                TypeExpr::Path(out)
            },
            TypeExpr::Array(elem, len) => TypeExpr::Array(
                Box::new((**elem).dup()),
                len.clone(),
            ),
            TypeExpr::Other(raw) => TypeExpr::Other(raw.clone()),
        }
    }
}

impl PathSeg {
    /// An owned structural copy of this path segment.
    pub fn dup(&self) -> (r: PathSeg)
        ensures
            r@ == self@,
        decreases *self,
    {
        let args = match &self.args {
            Option::Some(v) => Option::Some(dup_args(v)),
            Option::None => Option::None,
        };
        PathSeg { ident: self.ident.clone(), args }
    }
}

impl GenericArg {
    /// An owned structural copy of this generic argument.
    pub fn dup(&self) -> (r: GenericArg)
        ensures
            r@ == self@,
        decreases *self,
    {
        match self {
            GenericArg::TypeArg(t) => GenericArg::TypeArg(t.dup()),
            GenericArg::OtherArg(raw) => GenericArg::OtherArg(raw.clone()),
        }
    }
}

/// An owned structural copy of a generic-argument list.
pub fn dup_args(args: &Vec<GenericArg>) -> (r: Vec<GenericArg>)
    ensures
        view_arg_seq(r@) == view_arg_seq(args@),
    decreases *args,
{
    let mut out: Vec<GenericArg> = Vec::new();
    let mut j: usize = 0;
    while j < args.len()
        invariant
            j <= args.len(),
            view_arg_seq(out@) == view_arg_seq(args@.subrange(0, j as int)),
        decreases args.len() - j,
    {
        let a2 = args[j].dup();
        proof {
            lemma_view_arg_seq_push(out@, a2);
            lemma_view_arg_seq_push(args@.subrange(0, j as int), args@[j as int]);
            assert(args@.subrange(0, j as int).push(args@[j as int]) =~= args@.subrange(
                0,
                j + 1,
            ));
        }
        out.push(a2);
        j += 1;
    }
    proof {
        assert(args@.subrange(0, args@.len() as int) =~= args@);
    }
    out
}

impl View for PathSeg {
    type V = PathSegV;

    open spec fn view(&self) -> PathSegV {
        view_path_seg(*self)
    }
}

impl View for GenericArg {
    type V = GenericArgV;

    open spec fn view(&self) -> GenericArgV {
        view_generic_arg(*self)
    }
}

/// A segment sequence's value has the same length, element by element.
pub proof fn lemma_view_seg_seq_props(s: Seq<PathSeg>)
    ensures
        view_seg_seq(s).len() == s.len(),
        forall|i: int| 0 <= i < s.len() ==> #[trigger] view_seg_seq(s)[i] == view_path_seg(s[i]),
    decreases s.len(),
{
    if s.len() > 0 {
        lemma_view_seg_seq_props(s.subrange(0, s.len() - 1));
    }
}

/// An argument sequence's value has the same length, element by element.
pub proof fn lemma_view_arg_seq_props(s: Seq<GenericArg>)
    ensures
        view_arg_seq(s).len() == s.len(),
        forall|i: int| 0 <= i < s.len() ==> #[trigger] view_arg_seq(s)[i] == view_generic_arg(s[i]),
    decreases s.len(),
{
    if s.len() > 0 {
        lemma_view_arg_seq_props(s.subrange(0, s.len() - 1));
    }
}

/// The taxonomy of a field's type, derived from the type expression by
/// shallow, purely syntactic name matching.
#[derive(Debug)]
pub enum FieldType {
    Number,
    Boolean,
    Character,
    TextString,
    Vector(TypeExpr),
    FixedArray(TypeExpr, String),
    Boxed(Vec<GenericArg>),
    Optional(Vec<GenericArg>),
    Unrecognized(Option<String>),
}

/// Mathematical value of a [`FieldType`].
pub ghost enum FieldTypeV {
    Number,
    Boolean,
    Character,
    TextString,
    Vector(TypeExprV),
    FixedArray(TypeExprV, Seq<char>),
    Boxed(Seq<GenericArgV>),
    Optional(Seq<GenericArgV>),
    Unrecognized(Option<Seq<char>>),
}

impl View for FieldType {
    type V = FieldTypeV;

    open spec fn view(&self) -> FieldTypeV {
        match self {
            FieldType::Number => FieldTypeV::Number,
            FieldType::Boolean => FieldTypeV::Boolean,
            FieldType::Character => FieldTypeV::Character,
            FieldType::TextString => FieldTypeV::TextString,
            FieldType::Vector(e) => FieldTypeV::Vector(view_type_expr(*e)),
            FieldType::FixedArray(e, l) => FieldTypeV::FixedArray(view_type_expr(*e), l@),
            FieldType::Boxed(args) => FieldTypeV::Boxed(view_arg_seq(args@)),
            FieldType::Optional(args) => FieldTypeV::Optional(view_arg_seq(args@)),
            FieldType::Unrecognized(n) => FieldTypeV::Unrecognized(
                match n {
                    Option::Some(s) => Option::Some(s@),
                    Option::None => Option::None,
                },
            ),
        }
    }
}

/// Whether an identifier is one of the primitive numeric type names.
pub open spec fn is_number_name(s: Seq<char>) -> bool {
    ||| s == "f32"@
    ||| s == "f64"@
    ||| s == "i8"@
    ||| s == "i16"@
    ||| s == "i32"@
    ||| s == "i64"@
    ||| s == "i128"@
    ||| s == "isize"@
    ||| s == "u8"@
    ||| s == "u16"@
    ||| s == "u32"@
    ||| s == "u64"@
    ||| s == "u128"@
    ||| s == "usize"@
}

/// Whether an identifier is one of the primitive numeric type names.
pub fn is_number_ident(s: &String) -> (r: bool)
    ensures
        r == is_number_name(s@),
{
    str_eq(s, "f32") || str_eq(s, "f64") || str_eq(s, "i8") || str_eq(s, "i16") || str_eq(
        s,
        "i32",
    ) || str_eq(s, "i64") || str_eq(s, "i128") || str_eq(s, "isize") || str_eq(s, "u8") || str_eq(
        s,
        "u16",
    ) || str_eq(s, "u32") || str_eq(s, "u64") || str_eq(s, "u128") || str_eq(s, "usize")
}

/// The taxonomy of a type expression: known primitive numeric names come
/// first, then the boolean and character names, the text-string name, the
/// growable-sequence name with exactly one type argument, the single-owner
/// indirection wrapper and the optional wrapper with an argument list, then
/// fixed-length array syntax; any other path with a trailing name is
/// unrecognized by that name, anything else is unrecognized without a name.
pub open spec fn spec_classify(t: TypeExprV) -> FieldTypeV {
    match t {
        TypeExprV::Path(segs) => {
            if segs.len() == 0 {
                FieldTypeV::Unrecognized(Option::None)
            } else if is_number_name(segs[0].ident) {
                FieldTypeV::Number
            } else if segs[0].ident == "bool"@ {
                FieldTypeV::Boolean
            } else if segs[0].ident == "char"@ {
                FieldTypeV::Character
            } else if segs[0].ident == "String"@ {
                FieldTypeV::TextString
            } else if segs[0].ident == "Vec"@ {
                match segs[0].args {
                    Option::Some(list) => if list.len() == 1 && list[0] is TypeArg {
                        FieldTypeV::Vector(list[0]->TypeArg_0)
                    } else {
                        FieldTypeV::Unrecognized(Option::Some(segs.last().ident))
                    },
                    Option::None => FieldTypeV::Unrecognized(Option::Some(segs.last().ident)),
                }
            } else if segs[0].ident == "Box"@ {
                match segs[0].args {
                    Option::Some(list) => FieldTypeV::Boxed(list),
                    Option::None => FieldTypeV::Unrecognized(Option::Some(segs.last().ident)),
                }
            } else if segs[0].ident == "Option"@ {
                match segs[0].args {
                    Option::Some(list) => FieldTypeV::Optional(list),
                    Option::None => FieldTypeV::Unrecognized(Option::Some(segs.last().ident)),
                }
            } else {
                FieldTypeV::Unrecognized(Option::Some(segs.last().ident))
            }
        },
        TypeExprV::Array(elem, len) => FieldTypeV::FixedArray(*elem, len),
        TypeExprV::Other(_) => FieldTypeV::Unrecognized(Option::None),
    }
}

/// An unrecognized taxonomy tag naming the path's trailing identifier.
fn unrec_trailing(segs: &Vec<PathSeg>) -> (r: FieldType)
    requires
        segs@.len() > 0,
    ensures
        r@ == FieldTypeV::Unrecognized(
            Option::Some(view_seg_seq(segs@).last().ident),
        ),
{
    proof {
        lemma_view_seg_seq_props(segs@);
    }
    let last = &segs[segs.len() - 1];
    FieldType::Unrecognized(Option::Some(last.ident.clone()))
}

/// Classify a type expression into its taxonomy tag.
pub fn classify(t: &TypeExpr) -> (r: FieldType)
    ensures
        r@ == spec_classify(t@),
{
    match t {
        TypeExpr::Path(segs) => {
            proof {
                lemma_view_seg_seq_props(segs@);
            }
            if segs.len() == 0 {
                FieldType::Unrecognized(Option::None)
            } else {
                let head = &segs[0];
                if is_number_ident(&head.ident) {
                    FieldType::Number
                } else if str_eq(&head.ident, "bool") {
                    FieldType::Boolean
                } else if str_eq(&head.ident, "char") {
                    FieldType::Character
                } else if str_eq(&head.ident, "String") {
                    FieldType::TextString
                } else if str_eq(&head.ident, "Vec") {
                    match &head.args {
                        Option::Some(list) => {
                            proof {
                                lemma_view_arg_seq_props(list@);
                            }
                            if list.len() == 1 {
                                match &list[0] {
                                    GenericArg::TypeArg(inner) => FieldType::Vector(inner.dup()),
                                    GenericArg::OtherArg(_) => unrec_trailing(segs),
                                }
                            } else {
                                unrec_trailing(segs)
                            }
                        },
                        Option::None => unrec_trailing(segs),
                    }
                } else if str_eq(&head.ident, "Box") {
                    match &head.args {
                        Option::Some(list) => FieldType::Boxed(dup_args(list)),
                        Option::None => unrec_trailing(segs),
                    }
                } else if str_eq(&head.ident, "Option") {
                    match &head.args {
                        Option::Some(list) => FieldType::Optional(dup_args(list)),
                        Option::None => unrec_trailing(segs),
                    }
                } else {
                    unrec_trailing(segs)
                }
            }
        },
        TypeExpr::Array(elem, len) => FieldType::FixedArray((**elem).dup(), len.clone()),
        TypeExpr::Other(_) => FieldType::Unrecognized(Option::None),
    }
}

} // verus!
