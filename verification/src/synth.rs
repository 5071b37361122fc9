use vstd::prelude::*;
use crate::conf::{
    spec_complete_name, FieldConf, FieldConfV, SetTypeConf, Visibility,
};
use crate::policy::{
    auto_clear, read_shape, resolve_clear, spec_auto_clear, spec_read_shape, spec_resolve_clear,
    spec_write_conv, write_conv, ClrMethod, ReadShape, ReadShapeV, WriteConv, WriteConvV,
};
use crate::ty::{classify, spec_classify, TypeExpr, TypeExprV};

verus! {

/// What a generated method is and does: a read method of a given shape, a
/// write method with a conversion and a behavior variant, a method handing
/// out an exclusive mutable reference, or a clear method with its action.
#[derive(Debug)]
pub enum MethodKind {
    Read(ReadShape),
    Write { conv: WriteConv, typ: SetTypeConf },
    MutBorrow,
    Clear(ClrMethod),
}

/// Mathematical value of a [`MethodKind`].
pub ghost enum MethodKindV {
    Read(ReadShapeV),
    Write { conv: WriteConvV, typ: SetTypeConf },
    MutBorrow,
    Clear(ClrMethod),
}

impl View for MethodKind {
    type V = MethodKindV;

    open spec fn view(&self) -> MethodKindV {
        match self {
            MethodKind::Read(s) => MethodKindV::Read(s@),
            MethodKind::Write { conv, typ } => MethodKindV::Write { conv: conv@, typ: *typ },
            MethodKind::MutBorrow => MethodKindV::MutBorrow,
            MethodKind::Clear(m) => MethodKindV::Clear(*m),
        }
    }
}

/// One synthesized accessor method: its visibility, the field it serves,
/// its completed name, and its kind.
#[derive(Debug)]
pub struct MethodDescriptor {
    pub vis: Visibility,
    pub field: String,
    pub name: String,
    pub kind: MethodKind,
}

/// Mathematical value of a [`MethodDescriptor`].
pub ghost struct MethodDescriptorV {
    pub vis: Visibility,
    pub field: Seq<char>,
    pub name: Seq<char>,
    pub kind: MethodKindV,
}

impl View for MethodDescriptor {
    type V = MethodDescriptorV;

    open spec fn view(&self) -> MethodDescriptorV {
        MethodDescriptorV { vis: self.vis, field: self.field@, name: self.name@, kind: self.kind@ }
    }
}

/// Mathematical value of a sequence of method descriptors.
pub open spec fn view_desc_seq(s: Seq<MethodDescriptor>) -> Seq<MethodDescriptorV> {
    Seq::new(s.len(), |i: int| s[i]@)
}

/// The read descriptor of a field, when its visibility allows one.
pub open spec fn spec_get_descs(ident: Seq<char>, ty: TypeExprV, conf: FieldConfV) -> Seq<
    MethodDescriptorV,
> {
    if conf.get.vis != Visibility::Disable {
        seq![
            MethodDescriptorV {
                vis: conf.get.vis,
                field: ident,
                name: spec_complete_name(conf.get.name, ident),
                kind: MethodKindV::Read(spec_read_shape(ty, conf.get.typ)),
            },
        ]
    } else {
        Seq::empty()
    }
}

/// The write descriptor of a field, when its visibility allows one.
pub open spec fn spec_set_descs(ident: Seq<char>, ty: TypeExprV, conf: FieldConfV) -> Seq<
    MethodDescriptorV,
> {
    if conf.set.vis != Visibility::Disable {
        seq![
            MethodDescriptorV {
                vis: conf.set.vis,
                field: ident,
                name: spec_complete_name(conf.set.name, ident),
                kind: MethodKindV::Write {
                    conv: spec_write_conv(spec_classify(ty), conf.set.full_option),
                    typ: conf.set.typ,
                },
            },
        ]
    } else {
        Seq::empty()
    }
}

/// The mutable-reference descriptor of a field, when its visibility allows
/// one.
pub open spec fn spec_mut_descs(ident: Seq<char>, conf: FieldConfV) -> Seq<MethodDescriptorV> {
    if conf.mut_.vis != Visibility::Disable {
        seq![
            MethodDescriptorV {
                vis: conf.mut_.vis,
                field: ident,
                name: spec_complete_name(conf.mut_.name, ident),
                kind: MethodKindV::MutBorrow,
            },
        ]
    } else {
        Seq::empty()
    }
}

/// The clear descriptor of a field, when its visibility allows one and the
/// resolved clear action is an action at all.
pub open spec fn spec_clr_descs(ident: Seq<char>, ty: TypeExprV, conf: FieldConfV) -> Seq<
    MethodDescriptorV,
> {
    let resolved = spec_resolve_clear(conf.clr.scope, spec_auto_clear(spec_classify(ty)));
    if conf.clr.vis != Visibility::Disable && resolved != ClrMethod::NoAction {
        seq![
            MethodDescriptorV {
                vis: conf.clr.vis,
                field: ident,
                name: spec_complete_name(conf.clr.name, ident),
                kind: MethodKindV::Clear(resolved),
            },
        ]
    } else {
        Seq::empty()
    }
}

/// All descriptors of one field, in operation order: read, write, mutable
/// reference, clear.
pub open spec fn spec_field_descriptors(
    ident: Seq<char>,
    ty: TypeExprV,
    conf: FieldConfV,
) -> Seq<MethodDescriptorV> {
    spec_get_descs(ident, ty, conf) + spec_set_descs(ident, ty, conf) + spec_mut_descs(
        ident,
        conf,
    ) + spec_clr_descs(ident, ty, conf)
}

/// Synthesize all descriptors of one non-skipped field, in operation order.
pub fn field_descriptors(ident: &String, ty: &TypeExpr, conf: &FieldConf) -> (r: Vec<
    MethodDescriptor,
>)
    ensures
        view_desc_seq(r@) == spec_field_descriptors(ident@, ty@, conf@),
{
    let mut out: Vec<MethodDescriptor> = Vec::new();
    if conf.get.vis.emits() {
        let shape = read_shape(ty, conf.get.typ);
        out.push(
            MethodDescriptor {
                vis: conf.get.vis,
                field: ident.clone(),
                name: conf.get.name.complete(ident),
                kind: MethodKind::Read(shape),
            },
        );
    }
    if conf.set.vis.emits() {
        let ft = classify(ty);
        let conv = write_conv(ft, conf.set.full_option);
        out.push(
            MethodDescriptor {
                vis: conf.set.vis,
                field: ident.clone(),
                name: conf.set.name.complete(ident),
                kind: MethodKind::Write { conv, typ: conf.set.typ },
            },
        );
    }
    if conf.mut_.vis.emits() {
        out.push(
            MethodDescriptor {
                vis: conf.mut_.vis,
                field: ident.clone(),
                name: conf.mut_.name.complete(ident),
                kind: MethodKind::MutBorrow,
            },
        );
    }
    if conf.clr.vis.emits() {
        let ft = classify(ty);
        let natural = auto_clear(&ft);
        let resolved = resolve_clear(conf.clr.scope, natural);
        if !(resolved == ClrMethod::NoAction) {
            out.push(
                MethodDescriptor {
                    vis: conf.clr.vis,
                    field: ident.clone(),
                    name: conf.clr.name.complete(ident),
                    kind: MethodKind::Clear(resolved),
                },
            );
        }
    }
    proof {
        assert(view_desc_seq(out@) =~= spec_field_descriptors(ident@, ty@, conf@));
    }
    out
}

} // verus!
