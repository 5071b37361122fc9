use vstd::prelude::*;
use crate::conf::{
    ClrScopeConf, FieldConf, FieldConfV, GetTypeConf, MethodNameConf, MethodNameConfV,
    SetTypeConf, Visibility,
};
use crate::text::str_eq;

verus! {

/// The kind of a configuration error.
///
/// `UnknownOption` is an unrecognized key, scope, or value; `DuplicateOption`
/// a key set twice within one scope; `ConflictingNaming` an explicit name
/// combined with a prefix or suffix; `MissingValue` a key that expects a
/// literal value but has none (or a bare flag given one); `UnsupportedShape`
/// a record that offers no named fields to work on.
#[derive(Clone, Copy, PartialEq, Eq, Debug, Structural)]
pub enum ErrorKind {
    UnknownOption,
    DuplicateOption,
    ConflictingNaming,
    MissingValue,
    UnsupportedShape,
}

/// A configuration error, located at the offending entry.
#[derive(Clone, Copy, PartialEq, Eq, Debug, Structural)]
pub struct ParseError {
    pub kind: ErrorKind,
    pub loc: u64,
}

/// One entry inside a scoped list: a key, its optional literal value, and
/// an opaque location tag for error reporting.
#[derive(Debug)]
pub struct ScopeEntry {
    pub loc: u64,
    pub key: String,
    pub value: Option<String>,
}

/// Mathematical value of a [`ScopeEntry`].
pub ghost struct ScopeEntryV {
    pub loc: u64,
    pub key: Seq<char>,
    pub value: Option<Seq<char>>,
}

impl View for ScopeEntry {
    type V = ScopeEntryV;

    open spec fn view(&self) -> ScopeEntryV {
        ScopeEntryV {
            loc: self.loc,
            key: self.key@,
            value: match self.value {
                Option::Some(v) => Option::Some(v@),
                Option::None => Option::None,
            },
        }
    }
}

/// One entry of the outer attribute marker: a bare flag, a scoped list of
/// entries, or an entry shape the configuration language does not have.
#[derive(Debug)]
pub enum AttrEntry {
    Flag { loc: u64, name: String },
    Scope { loc: u64, name: String, entries: Vec<ScopeEntry> },
    Unsupported { loc: u64 },
}

/// Mathematical value of an [`AttrEntry`].
pub ghost enum AttrEntryV {
    Flag { loc: u64, name: Seq<char> },
    Scope { loc: u64, name: Seq<char>, entries: Seq<ScopeEntryV> },
    Unsupported { loc: u64 },
}

/// Mathematical value of a sequence of scope entries.
pub open spec fn view_scope_entries(s: Seq<ScopeEntry>) -> Seq<ScopeEntryV> {
    Seq::new(s.len(), |i: int| s[i]@)
}

impl View for AttrEntry {
    type V = AttrEntryV;

    open spec fn view(&self) -> AttrEntryV {
        match self {
            AttrEntry::Flag { loc, name } => AttrEntryV::Flag { loc: *loc, name: name@ },
            AttrEntry::Scope { loc, name, entries } => AttrEntryV::Scope {
                loc: *loc,
                name: name@,
                entries: view_scope_entries(entries@),
            },
            AttrEntry::Unsupported { loc } => AttrEntryV::Unsupported { loc: *loc },
        }
    }
}

/// Mathematical value of a sequence of attribute entries.
pub open spec fn view_attr_entries(s: Seq<AttrEntry>) -> Seq<AttrEntryV> {
    Seq::new(s.len(), |i: int| s[i]@)
}

/// One of the four operation scopes an attribute list configures.
#[derive(Clone, Copy, PartialEq, Eq, Debug, Structural)]
pub enum ScopeId {
    GetScope,
    SetScope,
    MutScope,
    ClrScope,
}

/// Which keys have already been set within one scope, for duplicate
/// detection. The four visibility flags share the single `vis` slot.
#[derive(Clone, Copy, PartialEq, Eq, Debug, Structural)]
pub struct ScopeSeen {
    pub vis: bool,
    pub name: bool,
    pub prefix: bool,
    pub suffix: bool,
    pub typ: bool,
    pub scope: bool,
    pub full_option: bool,
}

/// The fresh tracking state with no key seen yet.
pub open spec fn spec_seen_none() -> ScopeSeen {
    ScopeSeen {
        vis: false,
        name: false,
        prefix: false,
        suffix: false,
        typ: false,
        scope: false,
        full_option: false,
    }
}

impl ScopeSeen {
    /// The fresh tracking state with no key seen yet.
    pub fn none() -> (r: ScopeSeen)
        ensures
            r == spec_seen_none(),
    {
        ScopeSeen {
            vis: false,
            name: false,
            prefix: false,
            suffix: false,
            typ: false,
            scope: false,
            full_option: false,
        }
    }
}

/// Per-scope duplicate tracking for one attribute list.
#[derive(Clone, Copy, PartialEq, Eq, Debug, Structural)]
pub struct AttrSeen {
    pub get: ScopeSeen,
    pub set: ScopeSeen,
    pub mut_: ScopeSeen,
    pub clr: ScopeSeen,
}

/// The fresh tracking state with no key seen in any scope.
pub open spec fn spec_attr_seen_none() -> AttrSeen {
    AttrSeen {
        get: spec_seen_none(),
        set: spec_seen_none(),
        mut_: spec_seen_none(),
        clr: spec_seen_none(),
    }
}

impl AttrSeen {
    /// The fresh tracking state with no key seen in any scope.
    pub fn none() -> (r: AttrSeen)
        ensures
            r == spec_attr_seen_none(),
    {
        AttrSeen {
            get: ScopeSeen::none(),
            set: ScopeSeen::none(),
            mut_: ScopeSeen::none(),
            clr: ScopeSeen::none(),
        }
    }

    /// The tracking state of one scope.
    pub fn of_scope(&self, sc: ScopeId) -> (r: ScopeSeen)
        ensures
            r == spec_seen_of(*self, sc),
    {
        match sc {
            ScopeId::GetScope => self.get,
            ScopeId::SetScope => self.set,
            ScopeId::MutScope => self.mut_,
            ScopeId::ClrScope => self.clr,
        }
    }

    /// This tracking state with one scope's slot replaced.
    pub fn with_scope(self, sc: ScopeId, s: ScopeSeen) -> (r: AttrSeen)
        ensures
            r == spec_seen_with(self, sc, s),
    {
        let mut r = self;
        match sc {
            ScopeId::GetScope => r.get = s,
            ScopeId::SetScope => r.set = s,
            ScopeId::MutScope => r.mut_ = s,
            ScopeId::ClrScope => r.clr = s,
        }
        r
    }
}

/// The tracking state of one scope.
pub open spec fn spec_seen_of(a: AttrSeen, sc: ScopeId) -> ScopeSeen {
    match sc {
        ScopeId::GetScope => a.get,
        ScopeId::SetScope => a.set,
        ScopeId::MutScope => a.mut_,
        ScopeId::ClrScope => a.clr,
    }
}

/// A tracking state with one scope's slot replaced.
pub open spec fn spec_seen_with(a: AttrSeen, sc: ScopeId, s: ScopeSeen) -> AttrSeen {
    match sc {
        ScopeId::GetScope => AttrSeen { get: s, ..a },
        ScopeId::SetScope => AttrSeen { set: s, ..a },
        ScopeId::MutScope => AttrSeen { mut_: s, ..a },
        ScopeId::ClrScope => AttrSeen { clr: s, ..a },
    }
}

/// The visibility selected by a bare visibility flag, if the key is one.
pub open spec fn spec_vis_of_key(k: Seq<char>) -> Option<Visibility> {
    if k == "disable"@ {
        Option::Some(Visibility::Disable)
    } else if k == "public"@ {
        Option::Some(Visibility::Public)
    } else if k == "crate"@ {
        Option::Some(Visibility::Crate)
    } else if k == "private"@ {
        Option::Some(Visibility::Private)
    } else {
        Option::None
    }
}

/// The visibility selected by a bare visibility flag, if the key is one.
pub fn vis_of_key(k: &String) -> (r: Option<Visibility>)
    ensures
        r == spec_vis_of_key(k@),
{
    if str_eq(k, "disable") {
        Option::Some(Visibility::Disable)
    } else if str_eq(k, "public") {
        Option::Some(Visibility::Public)
    } else if str_eq(k, "crate") {
        Option::Some(Visibility::Crate)
    } else if str_eq(k, "private") {
        Option::Some(Visibility::Private)
    } else {
        Option::None
    }
}

/// The read type selected by a `type` value in the `get` scope, if valid.
pub open spec fn spec_get_typ_of_value(v: Seq<char>) -> Option<GetTypeConf> {
    if v == "auto"@ {
        Option::Some(GetTypeConf::Auto)
    } else if v == "ref"@ {
        Option::Some(GetTypeConf::Ref)
    } else if v == "copy"@ {
        Option::Some(GetTypeConf::Copied)
    } else if v == "clone"@ {
        Option::Some(GetTypeConf::Cloned)
    } else {
        Option::None
    }
}

/// The read type selected by a `type` value in the `get` scope, if valid.
pub fn get_typ_of_value(v: &String) -> (r: Option<GetTypeConf>)
    ensures
        r == spec_get_typ_of_value(v@),
{
    if str_eq(v, "auto") {
        Option::Some(GetTypeConf::Auto)
    } else if str_eq(v, "ref") {
        Option::Some(GetTypeConf::Ref)
    } else if str_eq(v, "copy") {
        Option::Some(GetTypeConf::Copied)
    } else if str_eq(v, "clone") {
        Option::Some(GetTypeConf::Cloned)
    } else {
        Option::None
    }
}

/// The write behavior selected by a `type` value in the `set` scope, if valid.
pub open spec fn spec_set_typ_of_value(v: Seq<char>) -> Option<SetTypeConf> {
    if v == "ref"@ {
        Option::Some(SetTypeConf::Ref)
    } else if v == "own"@ {
        Option::Some(SetTypeConf::Own)
    } else if v == "none"@ {
        Option::Some(SetTypeConf::Unit)
    } else if v == "replace"@ {
        Option::Some(SetTypeConf::Replace)
    } else {
        Option::None
    }
}

/// The write behavior selected by a `type` value in the `set` scope, if valid.
pub fn set_typ_of_value(v: &String) -> (r: Option<SetTypeConf>)
    ensures
        r == spec_set_typ_of_value(v@),
{
    if str_eq(v, "ref") {
        Option::Some(SetTypeConf::Ref)
    } else if str_eq(v, "own") {
        Option::Some(SetTypeConf::Own)
    } else if str_eq(v, "none") {
        Option::Some(SetTypeConf::Unit)
    } else if str_eq(v, "replace") {
        Option::Some(SetTypeConf::Replace)
    } else {
        Option::None
    }
}

/// The clear scope selected by a `scope` value in the `clr` scope, if valid.
pub open spec fn spec_clr_scope_of_value(v: Seq<char>) -> Option<ClrScopeConf> {
    if v == "auto"@ {
        Option::Some(ClrScopeConf::Auto)
    } else if v == "option"@ {
        Option::Some(ClrScopeConf::OptionOnly)
    } else if v == "all"@ {
        Option::Some(ClrScopeConf::All)
    } else {
        Option::None
    }
}

/// The clear scope selected by a `scope` value in the `clr` scope, if valid.
pub fn clr_scope_of_value(v: &String) -> (r: Option<ClrScopeConf>)
    ensures
        r == spec_clr_scope_of_value(v@),
{
    if str_eq(v, "auto") {
        Option::Some(ClrScopeConf::Auto)
    } else if str_eq(v, "option") {
        Option::Some(ClrScopeConf::OptionOnly)
    } else if str_eq(v, "all") {
        Option::Some(ClrScopeConf::All)
    } else {
        Option::None
    }
}

/// A configuration with one scope's visibility replaced.
pub open spec fn spec_set_vis(sc: ScopeId, c: FieldConfV, v: Visibility) -> FieldConfV {
    match sc {
        ScopeId::GetScope => FieldConfV { get: crate::conf::GetFieldConfV { vis: v, ..c.get }, ..c },
        ScopeId::SetScope => FieldConfV { set: crate::conf::SetFieldConfV { vis: v, ..c.set }, ..c },
        ScopeId::MutScope => FieldConfV { mut_: crate::conf::MutFieldConfV { vis: v, ..c.mut_ }, ..c },
        ScopeId::ClrScope => FieldConfV { clr: crate::conf::ClrFieldConfV { vis: v, ..c.clr }, ..c },
    }
}

/// A configuration with one scope's naming rule replaced.
pub open spec fn spec_set_name(sc: ScopeId, c: FieldConfV, n: MethodNameConfV) -> FieldConfV {
    match sc {
        ScopeId::GetScope => FieldConfV { get: crate::conf::GetFieldConfV { name: n, ..c.get }, ..c },
        ScopeId::SetScope => FieldConfV { set: crate::conf::SetFieldConfV { name: n, ..c.set }, ..c },
        ScopeId::MutScope => FieldConfV {
            mut_: crate::conf::MutFieldConfV { name: n, ..c.mut_ },
            ..c
        },
        ScopeId::ClrScope => FieldConfV { clr: crate::conf::ClrFieldConfV { name: n, ..c.clr }, ..c },
    }
}

/// The naming rule currently configured for one scope.
pub open spec fn spec_scope_name(sc: ScopeId, c: FieldConfV) -> MethodNameConfV {
    match sc {
        ScopeId::GetScope => c.get.name,
        ScopeId::SetScope => c.set.name,
        ScopeId::MutScope => c.mut_.name,
        ScopeId::ClrScope => c.clr.name,
    }
}

/// The prefix of a formatted naming rule; an explicit name has none.
pub open spec fn spec_prefix_of(n: MethodNameConfV) -> Seq<char> {
    match n {
        MethodNameConfV::Format { prefix, .. } => prefix,
        MethodNameConfV::Name(_) => Seq::empty(),
    }
}

/// The suffix of a formatted naming rule; an explicit name has none.
pub open spec fn spec_suffix_of(n: MethodNameConfV) -> Seq<char> {
    match n {
        MethodNameConfV::Format { suffix, .. } => suffix,
        MethodNameConfV::Name(_) => Seq::empty(),
    }
}

/// Replace one scope's visibility.
pub fn set_vis(sc: ScopeId, c: FieldConf, v: Visibility) -> (r: FieldConf)
    ensures
        r@ == spec_set_vis(sc, c@, v),
{
    let mut r = c;
    match sc {
        ScopeId::GetScope => r.get.vis = v,
        ScopeId::SetScope => r.set.vis = v,
        ScopeId::MutScope => r.mut_.vis = v,
        ScopeId::ClrScope => r.clr.vis = v,
    }
    r
}

/// Replace one scope's naming rule.
pub fn set_name(sc: ScopeId, c: FieldConf, n: MethodNameConf) -> (r: FieldConf)
    ensures
        r@ == spec_set_name(sc, c@, n@),
{
    let mut r = c;
    match sc {
        ScopeId::GetScope => r.get.name = n,
        ScopeId::SetScope => r.set.name = n,
        ScopeId::MutScope => r.mut_.name = n,
        ScopeId::ClrScope => r.clr.name = n,
    }
    r
}

/// The prefix of the naming rule currently configured for one scope.
pub fn scope_name_prefix(sc: ScopeId, c: &FieldConf) -> (r: String)
    ensures
        r@ == spec_prefix_of(spec_scope_name(sc, c@)),
{
    let n = match sc {
        ScopeId::GetScope => &c.get.name,
        ScopeId::SetScope => &c.set.name,
        ScopeId::MutScope => &c.mut_.name,
        ScopeId::ClrScope => &c.clr.name,
    };
    match n {
        MethodNameConf::Format { prefix, .. } => prefix.clone(),
        MethodNameConf::Name(_) => String::new(),
    }
}

/// The suffix of the naming rule currently configured for one scope.
pub fn scope_name_suffix(sc: ScopeId, c: &FieldConf) -> (r: String)
    ensures
        r@ == spec_suffix_of(spec_scope_name(sc, c@)),
{
    let n = match sc {
        ScopeId::GetScope => &c.get.name,
        ScopeId::SetScope => &c.set.name,
        ScopeId::MutScope => &c.mut_.name,
        ScopeId::ClrScope => &c.clr.name,
    };
    match n {
        MethodNameConf::Format { suffix, .. } => suffix.clone(),
        MethodNameConf::Name(_) => String::new(),
    }
}

/// The outcome of one scope entry: the updated configuration and tracking
/// state, or the error it raises.
///
/// One entry is handled in this order: an unknown key for the scope is an
/// `UnknownOption`; a bare flag given a value is an `UnknownOption`, a
/// valued key given none is a `MissingValue`; a key whose slot was already
/// set in this scope is a `DuplicateOption` (the four visibility flags
/// share one slot); an explicit name meeting a prefix or suffix, either
/// way round, is a `ConflictingNaming`; a `type` or `scope` value outside
/// its fixed enumeration is an `UnknownOption`. A prefix and a suffix in
/// the same scope combine into one formatted name.
pub open spec fn spec_apply_scope_entry(
    sc: ScopeId,
    c: FieldConfV,
    seen: ScopeSeen,
    e: ScopeEntryV,
) -> Result<(FieldConfV, ScopeSeen), ParseError> {
    let has_value = e.value is Some;
    if spec_vis_of_key(e.key) is Some {
        if has_value {
            Result::Err(ParseError { kind: ErrorKind::UnknownOption, loc: e.loc })
        } else if seen.vis {
            Result::Err(ParseError { kind: ErrorKind::DuplicateOption, loc: e.loc })
        } else {
            Result::Ok(
                (
                    spec_set_vis(sc, c, spec_vis_of_key(e.key)->0),
                    ScopeSeen { vis: true, ..seen },
                ),
            )
        }
    } else if e.key == "name"@ {
        if !has_value {
            Result::Err(ParseError { kind: ErrorKind::MissingValue, loc: e.loc })
        } else if seen.name {
            Result::Err(ParseError { kind: ErrorKind::DuplicateOption, loc: e.loc })
        } else if seen.prefix || seen.suffix {
            Result::Err(ParseError { kind: ErrorKind::ConflictingNaming, loc: e.loc })
        } else {
            Result::Ok(
                (
                    spec_set_name(sc, c, MethodNameConfV::Name(e.value->0)),
                    ScopeSeen { name: true, ..seen },
                ),
            )
        }
    } else if e.key == "prefix"@ {
        if !has_value {
            Result::Err(ParseError { kind: ErrorKind::MissingValue, loc: e.loc })
        } else if seen.prefix {
            Result::Err(ParseError { kind: ErrorKind::DuplicateOption, loc: e.loc })
        } else if seen.name {
            Result::Err(ParseError { kind: ErrorKind::ConflictingNaming, loc: e.loc })
        } else {
            let suffix = if seen.suffix {
                spec_suffix_of(spec_scope_name(sc, c))
            } else {
                Seq::empty()
            };
            Result::Ok(
                (
                    spec_set_name(
                        sc,
                        c,
                        MethodNameConfV::Format { prefix: e.value->0, suffix },
                    ),
                    ScopeSeen { prefix: true, ..seen },
                ),
            )
        }
    } else if e.key == "suffix"@ {
        if !has_value {
            Result::Err(ParseError { kind: ErrorKind::MissingValue, loc: e.loc })
        } else if seen.suffix {
            Result::Err(ParseError { kind: ErrorKind::DuplicateOption, loc: e.loc })
        } else if seen.name {
            Result::Err(ParseError { kind: ErrorKind::ConflictingNaming, loc: e.loc })
        } else {
            let prefix = if seen.prefix {
                spec_prefix_of(spec_scope_name(sc, c))
            } else {
                Seq::empty()
            };
            Result::Ok(
                (
                    spec_set_name(
                        sc,
                        c,
                        MethodNameConfV::Format { prefix, suffix: e.value->0 },
                    ),
                    ScopeSeen { suffix: true, ..seen },
                ),
            )
        }
    } else if e.key == "type"@ && (sc == ScopeId::GetScope || sc == ScopeId::SetScope) {
        if !has_value {
            Result::Err(ParseError { kind: ErrorKind::MissingValue, loc: e.loc })
        } else if seen.typ {
            Result::Err(ParseError { kind: ErrorKind::DuplicateOption, loc: e.loc })
        } else if sc == ScopeId::GetScope {
            match spec_get_typ_of_value(e.value->0) {
                Option::Some(t) => Result::Ok(
                    (
                        FieldConfV {
                            get: crate::conf::GetFieldConfV { typ: t, ..c.get },
                            ..c
                        },
                        ScopeSeen { typ: true, ..seen },
                    ),
                ),
                Option::None => Result::Err(
                    ParseError { kind: ErrorKind::UnknownOption, loc: e.loc },
                ),
            }
        } else {
            match spec_set_typ_of_value(e.value->0) {
                Option::Some(t) => Result::Ok(
                    (
                        FieldConfV {
                            set: crate::conf::SetFieldConfV { typ: t, ..c.set },
                            ..c
                        },
                        ScopeSeen { typ: true, ..seen },
                    ),
                ),
                Option::None => Result::Err(
                    ParseError { kind: ErrorKind::UnknownOption, loc: e.loc },
                ),
            }
        }
    } else if e.key == "scope"@ && sc == ScopeId::ClrScope {
        if !has_value {
            Result::Err(ParseError { kind: ErrorKind::MissingValue, loc: e.loc })
        } else if seen.scope {
            Result::Err(ParseError { kind: ErrorKind::DuplicateOption, loc: e.loc })
        } else {
            match spec_clr_scope_of_value(e.value->0) {
                Option::Some(s) => Result::Ok(
                    (
                        FieldConfV {
                            clr: crate::conf::ClrFieldConfV { scope: s, ..c.clr },
                            ..c
                        },
                        ScopeSeen { scope: true, ..seen },
                    ),
                ),
                Option::None => Result::Err(
                    ParseError { kind: ErrorKind::UnknownOption, loc: e.loc },
                ),
            }
        }
    } else if e.key == "full_option"@ && sc == ScopeId::SetScope {
        if has_value {
            Result::Err(ParseError { kind: ErrorKind::UnknownOption, loc: e.loc })
        } else if seen.full_option {
            Result::Err(ParseError { kind: ErrorKind::DuplicateOption, loc: e.loc })
        } else {
            Result::Ok(
                (
                    FieldConfV {
                        set: crate::conf::SetFieldConfV { full_option: true, ..c.set },
                        ..c
                    },
                    ScopeSeen { full_option: true, ..seen },
                ),
            )
        }
    } else {
        Result::Err(ParseError { kind: ErrorKind::UnknownOption, loc: e.loc })
    }
}

/// Whether an executable scope-entry outcome carries the same value as its
/// specification-level outcome.
pub open spec fn scope_step_matches(
    r: Result<(FieldConf, ScopeSeen), ParseError>,
    s: Result<(FieldConfV, ScopeSeen), ParseError>,
) -> bool {
    match r {
        Result::Ok(p) => s matches Result::Ok(q) && p.0@ == q.0 && p.1 == q.1,
        Result::Err(e) => s matches Result::Err(e2) && e == e2,
    }
}

/// Apply one scope entry to the configuration.
pub fn apply_scope_entry(sc: ScopeId, c: FieldConf, seen: ScopeSeen, e: &ScopeEntry) -> (r:
    Result<(FieldConf, ScopeSeen), ParseError>)
    ensures
        scope_step_matches(r, spec_apply_scope_entry(sc, c@, seen, e@)),
{
    let has_value = match &e.value {
        Option::Some(_) => true,
        Option::None => false,
    };
    let vis = vis_of_key(&e.key);
    match vis {
        Option::Some(v) => {
            if has_value {
                return Result::Err(ParseError { kind: ErrorKind::UnknownOption, loc: e.loc });
            }
            if seen.vis {
                return Result::Err(ParseError { kind: ErrorKind::DuplicateOption, loc: e.loc });
            }
            return Result::Ok((set_vis(sc, c, v), ScopeSeen { vis: true, ..seen }));
        },
        Option::None => {},
    }
    if str_eq(&e.key, "name") {
        match &e.value {
            Option::None => Result::Err(ParseError { kind: ErrorKind::MissingValue, loc: e.loc }),
            Option::Some(v) => {
                if seen.name {
                    Result::Err(ParseError { kind: ErrorKind::DuplicateOption, loc: e.loc })
                } else if seen.prefix || seen.suffix {
                    Result::Err(ParseError { kind: ErrorKind::ConflictingNaming, loc: e.loc })
                } else {
                    Result::Ok(
                        (
                            set_name(sc, c, MethodNameConf::Name(v.clone())),
                            ScopeSeen { name: true, ..seen },
                        ),
                    )
                }
            },
        }
    } else if str_eq(&e.key, "prefix") {
        match &e.value {
            Option::None => Result::Err(ParseError { kind: ErrorKind::MissingValue, loc: e.loc }),
            Option::Some(v) => {
                if seen.prefix {
                    Result::Err(ParseError { kind: ErrorKind::DuplicateOption, loc: e.loc })
                } else if seen.name {
                    Result::Err(ParseError { kind: ErrorKind::ConflictingNaming, loc: e.loc })
                } else {
                    let suffix = if seen.suffix {
                        scope_name_suffix(sc, &c)
                    } else {
                        String::new()
                    };
                    Result::Ok(
                        (
                            set_name(
                                sc,
                                c,
                                MethodNameConf::Format { prefix: v.clone(), suffix },
                            ),
                            ScopeSeen { prefix: true, ..seen },
                        ),
                    )
                }
            },
        }
    } else if str_eq(&e.key, "suffix") {
        match &e.value {
            Option::None => Result::Err(ParseError { kind: ErrorKind::MissingValue, loc: e.loc }),
            Option::Some(v) => {
                if seen.suffix {
                    Result::Err(ParseError { kind: ErrorKind::DuplicateOption, loc: e.loc })
                } else if seen.name {
                    Result::Err(ParseError { kind: ErrorKind::ConflictingNaming, loc: e.loc })
                } else {
                    let prefix = if seen.prefix {
                        scope_name_prefix(sc, &c)
                    } else {
                        String::new()
                    };
                    Result::Ok(
                        (
                            set_name(
                                sc,
                                c,
                                MethodNameConf::Format { prefix, suffix: v.clone() },
                            ),
                            ScopeSeen { suffix: true, ..seen },
                        ),
                    )
                }
            },
        }
    } else if str_eq(&e.key, "type") && (matches!(sc, ScopeId::GetScope) || matches!(sc, ScopeId::SetScope)) {
        match &e.value {
            Option::None => Result::Err(ParseError { kind: ErrorKind::MissingValue, loc: e.loc }),
            Option::Some(v) => {
                if seen.typ {
                    Result::Err(ParseError { kind: ErrorKind::DuplicateOption, loc: e.loc })
                } else if matches!(sc, ScopeId::GetScope) {
                    match get_typ_of_value(v) {
                        Option::Some(t) => {
                            let mut c2 = c;
                            c2.get.typ = t;
                            Result::Ok((c2, ScopeSeen { typ: true, ..seen }))
                        },
                        Option::None => Result::Err(
                            ParseError { kind: ErrorKind::UnknownOption, loc: e.loc },
                        ),
                    }
                } else {
                    match set_typ_of_value(v) {
                        Option::Some(t) => {
                            let mut c2 = c;
                            c2.set.typ = t;
                            Result::Ok((c2, ScopeSeen { typ: true, ..seen }))
                        },
                        Option::None => Result::Err(
                            ParseError { kind: ErrorKind::UnknownOption, loc: e.loc },
                        ),
                    }
                }
            },
        }
    } else if str_eq(&e.key, "scope") && matches!(sc, ScopeId::ClrScope) {
        match &e.value {
            Option::None => Result::Err(ParseError { kind: ErrorKind::MissingValue, loc: e.loc }),
            Option::Some(v) => {
                if seen.scope {
                    Result::Err(ParseError { kind: ErrorKind::DuplicateOption, loc: e.loc })
                } else {
                    match clr_scope_of_value(v) {
                        Option::Some(s) => {
                            let mut c2 = c;
                            c2.clr.scope = s;
                            Result::Ok((c2, ScopeSeen { scope: true, ..seen }))
                        },
                        Option::None => Result::Err(
                            ParseError { kind: ErrorKind::UnknownOption, loc: e.loc },
                        ),
                    }
                }
            },
        }
    } else if str_eq(&e.key, "full_option") && matches!(sc, ScopeId::SetScope) {
        if has_value {
            Result::Err(ParseError { kind: ErrorKind::UnknownOption, loc: e.loc })
        } else if seen.full_option {
            Result::Err(ParseError { kind: ErrorKind::DuplicateOption, loc: e.loc })
        } else {
            let mut c2 = c;
            c2.set.full_option = true;
            Result::Ok((c2, ScopeSeen { full_option: true, ..seen }))
        }
    } else {
        Result::Err(ParseError { kind: ErrorKind::UnknownOption, loc: e.loc })
    }
}

/// Outcome of folding a whole scope list, entry by entry, left to right.
pub open spec fn spec_fold_scope(
    sc: ScopeId,
    c: FieldConfV,
    seen: ScopeSeen,
    es: Seq<ScopeEntryV>,
) -> Result<(FieldConfV, ScopeSeen), ParseError>
    decreases es.len(),
{
    if es.len() == 0 {
        Result::Ok((c, seen))
    } else {
        match spec_apply_scope_entry(sc, c, seen, es[0]) {
            Result::Ok(p) => spec_fold_scope(sc, p.0, p.1, es.subrange(1, es.len() as int)),
            Result::Err(e) => Result::Err(e),
        }
    }
}

/// Fold a whole scope list into the configuration, entry by entry.
pub fn fold_scope(sc: ScopeId, c: FieldConf, seen: ScopeSeen, entries: &Vec<ScopeEntry>) -> (r:
    Result<(FieldConf, ScopeSeen), ParseError>)
    ensures
        scope_step_matches(r, spec_fold_scope(sc, c@, seen, view_scope_entries(entries@))),
{
    let ghost vs = view_scope_entries(entries@);
    let ghost c0 = c@;
    let ghost s0 = seen;
    let mut cc = c;
    let mut ss = seen;
    let mut i: usize = 0;
    proof {
        assert(vs.subrange(0, vs.len() as int) =~= vs);
    }
    while i < entries.len()
        invariant
            i <= entries.len(),
            vs == view_scope_entries(entries@),
            vs.len() == entries@.len(),
            c0 == c@,
            s0 == seen,
            spec_fold_scope(sc, cc@, ss, vs.subrange(i as int, vs.len() as int))
                == spec_fold_scope(sc, c0, s0, vs),
        decreases entries.len() - i,
    {
        let ghost cin = cc@;
        let ghost sin = ss;
        proof {
            assert(vs.subrange(i as int, vs.len() as int)[0] == vs[i as int]);
            assert(vs[i as int] == entries@[i as int]@);
            assert(vs.subrange(i as int, vs.len() as int).subrange(
                1,
                vs.len() - i,
            ) =~= vs.subrange(i as int + 1, vs.len() as int));
        }
        let step = apply_scope_entry(sc, cc, ss, &entries[i]);
        match step {
            Result::Ok(p) => {
                cc = p.0;
                ss = p.1;
            },
            Result::Err(e) => {
                return Result::Err(e);
            },
        }
        i += 1;
    }
    proof {
        assert(vs.subrange(vs.len() as int, vs.len() as int) =~= Seq::<ScopeEntryV>::empty());
    }
    Result::Ok((cc, ss))
}

/// The scope a scoped list configures, if its name is one of the four.
pub open spec fn spec_scope_of_name(n: Seq<char>) -> Option<ScopeId> {
    if n == "get"@ {
        Option::Some(ScopeId::GetScope)
    } else if n == "set"@ {
        Option::Some(ScopeId::SetScope)
    } else if n == "mut"@ {
        Option::Some(ScopeId::MutScope)
    } else if n == "clr"@ {
        Option::Some(ScopeId::ClrScope)
    } else {
        Option::None
    }
}

/// The scope a scoped list configures, if its name is one of the four.
pub fn scope_of_name(n: &String) -> (r: Option<ScopeId>)
    ensures
        r == spec_scope_of_name(n@),
{
    if str_eq(n, "get") {
        Option::Some(ScopeId::GetScope)
    } else if str_eq(n, "set") {
        Option::Some(ScopeId::SetScope)
    } else if str_eq(n, "mut") {
        Option::Some(ScopeId::MutScope)
    } else if str_eq(n, "clr") {
        Option::Some(ScopeId::ClrScope)
    } else {
        Option::None
    }
}

/// Outcome of one outer attribute entry: carry on with an updated state,
/// stop early after a bare `skip`, or fail.
pub ghost enum AttrStepV {
    Continue(FieldConfV, AttrSeen),
    Stop(FieldConfV),
}

/// The outcome of one outer attribute entry. A bare `skip` flag marks the
/// configuration as skipped and stops all further processing of this
/// attribute list; a scoped list folds into its scope; any other entry is
/// an `UnknownOption` error at its location.
pub open spec fn spec_apply_attr_entry(
    c: FieldConfV,
    seen: AttrSeen,
    e: AttrEntryV,
) -> Result<AttrStepV, ParseError> {
    match e {
        AttrEntryV::Flag { loc, name } => if name == "skip"@ {
            Result::Ok(AttrStepV::Stop(FieldConfV { skip: true, ..c }))
        } else {
            Result::Err(ParseError { kind: ErrorKind::UnknownOption, loc })
        },
        AttrEntryV::Scope { loc, name, entries } => match spec_scope_of_name(name) {
            Option::Some(sc) => match spec_fold_scope(sc, c, spec_seen_of(seen, sc), entries) {
                Result::Ok(p) => Result::Ok(
                    AttrStepV::Continue(p.0, spec_seen_with(seen, sc, p.1)),
                ),
                Result::Err(err) => Result::Err(err),
            },
            Option::None => Result::Err(ParseError { kind: ErrorKind::UnknownOption, loc }),
        },
        AttrEntryV::Unsupported { loc } => Result::Err(
            ParseError { kind: ErrorKind::UnknownOption, loc },
        ),
    }
}

/// Outcome of parsing a whole attribute list from a starting configuration
/// and tracking state, entry by entry, left to right.
pub open spec fn spec_parse_entries(
    c: FieldConfV,
    seen: AttrSeen,
    es: Seq<AttrEntryV>,
) -> Result<FieldConfV, ParseError>
    decreases es.len(),
{
    if es.len() == 0 {
        Result::Ok(c)
    } else {
        match spec_apply_attr_entry(c, seen, es[0]) {
            Result::Ok(AttrStepV::Stop(c2)) => Result::Ok(c2),
            Result::Ok(AttrStepV::Continue(c2, s2)) => spec_parse_entries(
                c2,
                s2,
                es.subrange(1, es.len() as int),
            ),
            Result::Err(e) => Result::Err(e),
        }
    }
}

/// Outcome of parsing a whole attribute list: the configuration built from
/// the starting one by the entries, or the first error raised. Duplicate
/// tracking starts fresh for each list, so a field-level list may override
/// what a container-level list set.
pub open spec fn spec_parse_attrs(c: FieldConfV, es: Seq<AttrEntryV>) -> Result<
    FieldConfV,
    ParseError,
> {
    spec_parse_entries(c, spec_attr_seen_none(), es)
}

/// Whether an executable parse outcome carries the same value as its
/// specification-level outcome.
pub open spec fn conf_res_matches(
    r: Result<FieldConf, ParseError>,
    s: Result<FieldConfV, ParseError>,
) -> bool {
    match r {
        Result::Ok(c) => s matches Result::Ok(cv) && c@ == cv,
        Result::Err(e) => s matches Result::Err(e2) && e == e2,
    }
}

/// Parse one attribute list on top of a starting configuration, validating
/// every entry and failing fast at the first offending one.
pub fn parse_attrs(c: FieldConf, entries: &Vec<AttrEntry>) -> (r: Result<FieldConf, ParseError>)
    ensures
        conf_res_matches(r, spec_parse_attrs(c@, view_attr_entries(entries@))),
{
    let ghost vs = view_attr_entries(entries@);
    let ghost c0 = c@;
    let mut cc = c;
    let mut seen = AttrSeen::none();
    let mut i: usize = 0;
    proof {
        assert(vs.subrange(0, vs.len() as int) =~= vs);
    }
    while i < entries.len()
        invariant
            i <= entries.len(),
            vs == view_attr_entries(entries@),
            vs.len() == entries@.len(),
            c0 == c@,
            spec_parse_entries(cc@, seen, vs.subrange(i as int, vs.len() as int))
                == spec_parse_entries(c0, spec_attr_seen_none(), vs),
        decreases entries.len() - i,
    {
        let ghost cin = cc@;
        let ghost sin = seen;
        proof {
            assert(vs.subrange(i as int, vs.len() as int)[0] == vs[i as int]);
            assert(vs[i as int] == entries@[i as int]@);
            assert(vs.subrange(i as int, vs.len() as int).subrange(
                1,
                vs.len() - i,
            ) =~= vs.subrange(i as int + 1, vs.len() as int));
        }
        match &entries[i] {
            AttrEntry::Flag { loc, name } => {
                if str_eq(name, "skip") {
                    cc.skip = true;
                    return Result::Ok(cc);
                } else {
                    return Result::Err(
                        ParseError { kind: ErrorKind::UnknownOption, loc: *loc },
                    );
                }
            },
            AttrEntry::Scope { loc, name, entries: sentries } => {
                let osc = scope_of_name(name);
                match osc {
                    Option::Some(sc) => {
                        let sseen = seen.of_scope(sc);
                        let res = fold_scope(sc, cc, sseen, sentries);
                        match res {
                            Result::Ok(p) => {
                                cc = p.0;
                                seen = seen.with_scope(sc, p.1);
                            },
                            Result::Err(e) => {
                                return Result::Err(e);
                            },
                        }
                    },
                    Option::None => {
                        return Result::Err(
                            ParseError { kind: ErrorKind::UnknownOption, loc: *loc },
                        );
                    },
                }
            },
            AttrEntry::Unsupported { loc } => {
                return Result::Err(ParseError { kind: ErrorKind::UnknownOption, loc: *loc });
            },
        }
        i += 1;
    }
    proof {
        assert(vs.subrange(vs.len() as int, vs.len() as int) =~= Seq::<AttrEntryV>::empty());
    }
    Result::Ok(cc)
}

} // verus!
