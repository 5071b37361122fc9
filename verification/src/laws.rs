use vstd::prelude::*;
use crate::attr::{
    spec_apply_scope_entry, spec_fold_scope, spec_vis_of_key, ErrorKind, ParseError, ScopeEntryV,
    ScopeId, ScopeSeen,
};
use crate::conf::{FieldConfV, GetTypeConf, Visibility};
use crate::policy::{spec_auto_read, spec_read_shape, ReadShapeV};
use crate::synth::spec_field_descriptors;
use crate::ty::{spec_classify, FieldTypeV, TypeExprV};

verus! {

/// An operation whose visibility is `Disable` yields no descriptor: a
/// field with a disabled read configuration contributes no read method,
/// whatever its taxonomy.
pub proof fn lemma_disabled_get_emits_no_read(ident: Seq<char>, ty: TypeExprV, conf: FieldConfV)
    requires
        conf.get.vis == Visibility::Disable,
    ensures
        forall|i: int|
            0 <= i < spec_field_descriptors(ident, ty, conf).len() ==> !((
            #[trigger] spec_field_descriptors(ident, ty, conf)[i]).kind is Read),
{
}

/// An operation whose visibility is `Disable` yields no descriptor: a
/// field with a disabled write configuration contributes no write method,
/// whatever its taxonomy.
pub proof fn lemma_disabled_set_emits_no_write(ident: Seq<char>, ty: TypeExprV, conf: FieldConfV)
    requires
        conf.set.vis == Visibility::Disable,
    ensures
        forall|i: int|
            0 <= i < spec_field_descriptors(ident, ty, conf).len() ==> !((
            #[trigger] spec_field_descriptors(ident, ty, conf)[i]).kind is Write),
{
}

/// An operation whose visibility is `Disable` yields no descriptor: a
/// field with a disabled mutable-reference configuration contributes no
/// such method, whatever its taxonomy.
pub proof fn lemma_disabled_mut_emits_no_borrow(ident: Seq<char>, ty: TypeExprV, conf: FieldConfV)
    requires
        conf.mut_.vis == Visibility::Disable,
    ensures
        forall|i: int|
            0 <= i < spec_field_descriptors(ident, ty, conf).len() ==> !((
            #[trigger] spec_field_descriptors(ident, ty, conf)[i]).kind is MutBorrow),
{
}

/// An operation whose visibility is `Disable` yields no descriptor: a
/// field with a disabled clear configuration contributes no clear method,
/// whatever its taxonomy.
pub proof fn lemma_disabled_clr_emits_no_clear(ident: Seq<char>, ty: TypeExprV, conf: FieldConfV)
    requires
        conf.clr.vis == Visibility::Disable,
    ensures
        forall|i: int|
            0 <= i < spec_field_descriptors(ident, ty, conf).len() ==> !((
            #[trigger] spec_field_descriptors(ident, ty, conf)[i]).kind is Clear),
{
}

/// No emitted descriptor carries the `Disable` visibility: whatever the
/// taxonomy and configuration, every descriptor of a field comes from an
/// operation whose visibility was enabled.
pub proof fn lemma_no_disabled_descriptor(ident: Seq<char>, ty: TypeExprV, conf: FieldConfV)
    ensures
        forall|i: int|
            0 <= i < spec_field_descriptors(ident, ty, conf).len() ==> (
            #[trigger] spec_field_descriptors(ident, ty, conf)[i]).vis != Visibility::Disable,
{
}

/// Classifying a type expression and computing its read shape depend on
/// the type expression and the configured read type alone: two fields with
/// the same type expression classify alike and read alike, whatever their
/// identifiers, visibilities, naming rules, or declaration order.
pub proof fn lemma_classification_deterministic(
    ty1: TypeExprV,
    ty2: TypeExprV,
    typ1: GetTypeConf,
    typ2: GetTypeConf,
)
    requires
        ty1 == ty2,
        typ1 == typ2,
    ensures
        spec_classify(ty1) == spec_classify(ty2),
        spec_read_shape(ty1, typ1) == spec_read_shape(ty2, typ2),
{
}

/// The `Auto` read rule follows the taxonomy: copied primitives, viewed
/// text, element slices for sequences and arrays, a borrowed reference for
/// a wrapper or an unrecognized type, and, for an optional, either a whole
/// copy or a borrowed optional of a reference to its arguments.
pub proof fn lemma_auto_read_follows_taxonomy(t: TypeExprV)
    ensures
        spec_classify(t) is Number ==> spec_auto_read(t) == ReadShapeV::Copied,
        spec_classify(t) is Boolean ==> spec_auto_read(t) == ReadShapeV::Copied,
        spec_classify(t) is Character ==> spec_auto_read(t) == ReadShapeV::Copied,
        spec_classify(t) is TextString ==> spec_auto_read(t) == ReadShapeV::TextView,
        spec_classify(t) matches FieldTypeV::Vector(e) ==> spec_auto_read(t)
            == ReadShapeV::ElemSlice(e),
        spec_classify(t) matches FieldTypeV::FixedArray(e, l) ==> spec_auto_read(t)
            == ReadShapeV::ElemSlice(e),
        spec_classify(t) is Unrecognized ==> spec_auto_read(t) == ReadShapeV::Borrowed,
        spec_classify(t) is Boxed ==> (spec_auto_read(t) == ReadShapeV::BorrowedText
            || spec_auto_read(t) == ReadShapeV::Borrowed),
        spec_classify(t) matches FieldTypeV::Optional(args) ==> (spec_auto_read(t)
            == ReadShapeV::Copied || spec_auto_read(t) == ReadShapeV::OptionalRef(args)),
{
}

/// Whether a scope entry is one of the four bare visibility flags.
pub open spec fn is_vis_flag(e: ScopeEntryV) -> bool {
    spec_vis_of_key(e.key) is Some
}

/// Whether a scope entry is an explicit-name entry.
pub open spec fn is_name_entry(e: ScopeEntryV) -> bool {
    e.key == "name"@
}

/// The explicit-name key is not one of the four visibility flags.
proof fn lemma_name_key_is_no_vis_flag()
    ensures
        spec_vis_of_key("name"@) is None,
{
    reveal_strlit("name");
    reveal_strlit("disable");
    reveal_strlit("public");
    reveal_strlit("crate");
    reveal_strlit("private");
    assert("name"@.len() == 4);
    assert("disable"@.len() == 7);
    assert("public"@.len() == 6);
    assert("crate"@.len() == 5);
    assert("private"@.len() == 7);
}

/// Applying one scope entry never clears the visibility or name slots of
/// the tracking state, and a successfully applied visibility flag or name
/// entry sets its slot.
proof fn lemma_apply_tracks_slots(sc: ScopeId, c: FieldConfV, seen: ScopeSeen, e: ScopeEntryV)
    ensures
        spec_apply_scope_entry(sc, c, seen, e) matches Result::Ok(p) ==> {
            &&& seen.vis ==> p.1.vis
            &&& seen.name ==> p.1.name
            &&& is_vis_flag(e) ==> p.1.vis
            &&& is_name_entry(e) ==> p.1.name
        },
{
    lemma_name_key_is_no_vis_flag();
}

/// Once a visibility flag has been seen in a scope, a list holding one
/// more visibility flag can never fold successfully.
proof fn lemma_vis_seen_fails(
    sc: ScopeId,
    c: FieldConfV,
    seen: ScopeSeen,
    es: Seq<ScopeEntryV>,
    j: int,
)
    requires
        seen.vis,
        0 <= j < es.len(),
        is_vis_flag(es[j]),
    ensures
        spec_fold_scope(sc, c, seen, es) is Err,
    decreases es.len(),
{
    match spec_apply_scope_entry(sc, c, seen, es[0]) {
        Result::Err(_) => {},
        Result::Ok(p) => {
            lemma_apply_tracks_slots(sc, c, seen, es[0]);
            if j == 0 {
            } else {
                lemma_vis_seen_fails(sc, p.0, p.1, es.subrange(1, es.len() as int), j - 1);
            }
        },
    }
}

/// Once an explicit name has been seen in a scope, a list holding one more
/// name entry can never fold successfully.
proof fn lemma_name_seen_fails(
    sc: ScopeId,
    c: FieldConfV,
    seen: ScopeSeen,
    es: Seq<ScopeEntryV>,
    j: int,
)
    requires
        seen.name,
        0 <= j < es.len(),
        is_name_entry(es[j]),
    ensures
        spec_fold_scope(sc, c, seen, es) is Err,
    decreases es.len(),
{
    match spec_apply_scope_entry(sc, c, seen, es[0]) {
        Result::Err(_) => {},
        Result::Ok(p) => {
            lemma_apply_tracks_slots(sc, c, seen, es[0]);
            lemma_name_key_is_no_vis_flag();
            if j > 0 {
                lemma_name_seen_fails(sc, p.0, p.1, es.subrange(1, es.len() as int), j - 1);
            }
        },
    }
}

/// Two visibility flags in one scope always make the scope fail, wherever
/// the two stand in the list and whatever stands between them.
pub proof fn lemma_two_vis_flags_fail(
    sc: ScopeId,
    c: FieldConfV,
    seen: ScopeSeen,
    es: Seq<ScopeEntryV>,
    i: int,
    j: int,
)
    requires
        0 <= i < j < es.len(),
        is_vis_flag(es[i]),
        is_vis_flag(es[j]),
    ensures
        spec_fold_scope(sc, c, seen, es) is Err,
    decreases es.len(),
{
    match spec_apply_scope_entry(sc, c, seen, es[0]) {
        Result::Err(_) => {},
        Result::Ok(p) => {
            lemma_apply_tracks_slots(sc, c, seen, es[0]);
            if i == 0 {
                lemma_vis_seen_fails(sc, p.0, p.1, es.subrange(1, es.len() as int), j - 1);
            } else {
                lemma_two_vis_flags_fail(
                    sc,
                    p.0,
                    p.1,
                    es.subrange(1, es.len() as int),
                    i - 1,
                    j - 1,
                );
            }
        },
    }
}

/// Two explicit-name entries in one scope always make the scope fail,
/// wherever the two stand in the list and whatever stands between them.
pub proof fn lemma_two_name_entries_fail(
    sc: ScopeId,
    c: FieldConfV,
    seen: ScopeSeen,
    es: Seq<ScopeEntryV>,
    i: int,
    j: int,
)
    requires
        0 <= i < j < es.len(),
        is_name_entry(es[i]),
        is_name_entry(es[j]),
    ensures
        spec_fold_scope(sc, c, seen, es) is Err,
    decreases es.len(),
{
    match spec_apply_scope_entry(sc, c, seen, es[0]) {
        Result::Err(_) => {},
        Result::Ok(p) => {
            lemma_apply_tracks_slots(sc, c, seen, es[0]);
            if i == 0 {
                lemma_name_seen_fails(sc, p.0, p.1, es.subrange(1, es.len() as int), j - 1);
            } else {
                lemma_two_name_entries_fail(
                    sc,
                    p.0,
                    p.1,
                    es.subrange(1, es.len() as int),
                    i - 1,
                    j - 1,
                );
            }
        },
    }
}

/// A tracking bit, once set, survives folding any further entries.
proof fn lemma_fold_keeps_slots(sc: ScopeId, c: FieldConfV, seen: ScopeSeen, es: Seq<ScopeEntryV>)
    ensures
        spec_fold_scope(sc, c, seen, es) matches Result::Ok(p) ==> {
            &&& seen.vis ==> p.1.vis
            &&& seen.name ==> p.1.name
        },
    decreases es.len(),
{
    if es.len() > 0 {
        match spec_apply_scope_entry(sc, c, seen, es[0]) {
            Result::Err(_) => {},
            Result::Ok(p) => {
                lemma_apply_tracks_slots(sc, c, seen, es[0]);
                lemma_fold_keeps_slots(sc, p.0, p.1, es.subrange(1, es.len() as int));
            },
        }
    }
}

/// A list holding a visibility flag folds, when it folds at all, into a
/// state whose visibility slot is set; likewise for an explicit name.
proof fn lemma_fold_ok_sets_slots(
    sc: ScopeId,
    c: FieldConfV,
    seen: ScopeSeen,
    es: Seq<ScopeEntryV>,
    i: int,
)
    requires
        0 <= i < es.len(),
    ensures
        spec_fold_scope(sc, c, seen, es) matches Result::Ok(p) ==> {
            &&& is_vis_flag(es[i]) ==> p.1.vis
            &&& is_name_entry(es[i]) ==> p.1.name
        },
    decreases es.len(),
{
    match spec_apply_scope_entry(sc, c, seen, es[0]) {
        Result::Err(_) => {},
        Result::Ok(p) => {
            lemma_apply_tracks_slots(sc, c, seen, es[0]);
            if i == 0 {
                lemma_fold_keeps_slots(sc, p.0, p.1, es.subrange(1, es.len() as int));
            } else {
                lemma_fold_ok_sets_slots(sc, p.0, p.1, es.subrange(1, es.len() as int), i - 1);
            }
        },
    }
}

/// Folding a scope list is folding a prefix, then folding the rest from
/// the state the prefix reached; an error in the prefix is the error of
/// the whole list.
pub proof fn lemma_fold_scope_split(
    sc: ScopeId,
    c: FieldConfV,
    seen: ScopeSeen,
    es: Seq<ScopeEntryV>,
    k: int,
)
    requires
        0 <= k <= es.len(),
    ensures
        match spec_fold_scope(sc, c, seen, es.subrange(0, k)) {
            Result::Ok(p) => spec_fold_scope(sc, c, seen, es) == spec_fold_scope(
                sc,
                p.0,
                p.1,
                es.subrange(k, es.len() as int),
            ),
            Result::Err(e) => spec_fold_scope(sc, c, seen, es) == Result::<
                (FieldConfV, ScopeSeen),
                ParseError,
            >::Err(e),
        },
    decreases k,
{
    if k == 0 {
        assert(es.subrange(0, 0) =~= Seq::<ScopeEntryV>::empty());
        assert(es.subrange(0, es.len() as int) =~= es);
    } else {
        let pre = es.subrange(0, k);
        assert(pre[0] == es[0]);
        match spec_apply_scope_entry(sc, c, seen, es[0]) {
            Result::Err(_) => {},
            Result::Ok(p) => {
                let tail = es.subrange(1, es.len() as int);
                assert(pre.subrange(1, k) =~= tail.subrange(0, k - 1));
                lemma_fold_scope_split(sc, p.0, p.1, tail, k - 1);
                assert(tail.subrange(k - 1, tail.len() as int) =~= es.subrange(
                    k,
                    es.len() as int,
                ));
            },
        }
    }
}

/// Two visibility flags in one scope fail the scope, and, when no entry
/// before the second flag is itself at fault, they fail it with a
/// `DuplicateOption` located at the second flag, whatever stands between
/// the two and in whatever order the two visibility levels appear.
pub proof fn lemma_second_vis_flag_is_duplicate(
    sc: ScopeId,
    c: FieldConfV,
    seen: ScopeSeen,
    es: Seq<ScopeEntryV>,
    i: int,
    j: int,
)
    requires
        0 <= i < j < es.len(),
        is_vis_flag(es[i]),
        is_vis_flag(es[j]),
        es[j].value is None,
    ensures
        spec_fold_scope(sc, c, seen, es) is Err,
        spec_fold_scope(sc, c, seen, es.subrange(0, j)) is Ok ==> spec_fold_scope(
            sc,
            c,
            seen,
            es,
        ) == Result::<(FieldConfV, ScopeSeen), ParseError>::Err(
            ParseError { kind: ErrorKind::DuplicateOption, loc: es[j].loc },
        ),
{
    lemma_two_vis_flags_fail(sc, c, seen, es, i, j);
    lemma_fold_scope_split(sc, c, seen, es, j);
    let pre = es.subrange(0, j);
    assert(pre[i] == es[i]);
    lemma_fold_ok_sets_slots(sc, c, seen, pre, i);
    let suf = es.subrange(j, es.len() as int);
    assert(suf[0] == es[j]);
}

/// Two explicit-name entries in one scope fail the scope, and, when no
/// entry before the second one is itself at fault, they fail it with a
/// `DuplicateOption` located at the second entry, whatever stands between
/// the two and in whatever order their values appear.
pub proof fn lemma_second_name_entry_is_duplicate(
    sc: ScopeId,
    c: FieldConfV,
    seen: ScopeSeen,
    es: Seq<ScopeEntryV>,
    i: int,
    j: int,
)
    requires
        0 <= i < j < es.len(),
        is_name_entry(es[i]),
        is_name_entry(es[j]),
        es[j].value is Some,
    ensures
        spec_fold_scope(sc, c, seen, es) is Err,
        spec_fold_scope(sc, c, seen, es.subrange(0, j)) is Ok ==> spec_fold_scope(
            sc,
            c,
            seen,
            es,
        ) == Result::<(FieldConfV, ScopeSeen), ParseError>::Err(
            ParseError { kind: ErrorKind::DuplicateOption, loc: es[j].loc },
        ),
{
    lemma_two_name_entries_fail(sc, c, seen, es, i, j);
    lemma_fold_scope_split(sc, c, seen, es, j);
    lemma_name_key_is_no_vis_flag();
    let pre = es.subrange(0, j);
    assert(pre[i] == es[i]);
    lemma_fold_ok_sets_slots(sc, c, seen, pre, i);
    let suf = es.subrange(j, es.len() as int);
    assert(suf[0] == es[j]);
}

} // verus!
