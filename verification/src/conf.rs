use vstd::prelude::*;

verus! {

/// Visibility level requested for one generated accessor method.
///
/// `Disable` suppresses the method entirely; the other three levels
/// select the visibility the emitted method carries.
#[derive(Clone, Copy, PartialEq, Eq, Debug, Structural)]
pub enum Visibility {
    Disable,
    Public,
    Crate,
    Private,
}

impl Visibility {
    /// A method is emitted exactly when its visibility is not `Disable`.
    pub open spec fn spec_emits(self) -> bool {
        self != Visibility::Disable
    }

    /// Whether a method with this visibility is emitted at all.
    pub fn emits(self) -> (r: bool)
        ensures
            r == self.spec_emits(),
    {
        !(self == Visibility::Disable)
    }
}

/// Read-method shape requested by the `type` key of the `get` scope.
///
/// `Auto` picks a shape from the field's type taxonomy; the others force
/// a borrowed reference, a bitwise copy, or a deep clone.
#[derive(Clone, Copy, PartialEq, Eq, Debug, Structural)]
pub enum GetTypeConf {
    Auto,
    Ref,
    Copied,
    Cloned,
}

/// Write-method behavior requested by the `type` key of the `set` scope.
///
/// `Ref` mutates in place and returns a mutable reference to the owner,
/// `Own` consumes and returns the owner by value, `Unit` (attribute value
/// `none`) mutates in place and returns nothing, and `Replace` mutates in
/// place and returns the previous field value by move.
#[derive(Clone, Copy, PartialEq, Eq, Debug, Structural)]
pub enum SetTypeConf {
    Ref,
    Own,
    Unit,
    Replace,
}

/// Scope rule for the clear method, set by the `scope` key of the `clr` scope.
///
/// `Auto` keeps the natural action derived from the taxonomy, `OptionOnly`
/// (attribute value `option`) keeps only the assign-absent action, and `All`
/// upgrades a missing action to assigning the type's default value.
#[derive(Clone, Copy, PartialEq, Eq, Debug, Structural)]
pub enum ClrScopeConf {
    Auto,
    OptionOnly,
    All,
}

/// Naming rule for a generated method: either an explicit literal name, or
/// a prefix and suffix concatenated around the field identifier.
#[derive(Debug)]
pub enum MethodNameConf {
    Name(String),
    Format { prefix: String, suffix: String },
}

/// Mathematical value of a [`MethodNameConf`].
pub ghost enum MethodNameConfV {
    Name(Seq<char>),
    Format { prefix: Seq<char>, suffix: Seq<char> },
}

impl View for MethodNameConf {
    type V = MethodNameConfV;

    open spec fn view(&self) -> MethodNameConfV {
        match self {
            MethodNameConf::Name(n) => MethodNameConfV::Name(n@),
            MethodNameConf::Format { prefix, suffix } => MethodNameConfV::Format {
                prefix: prefix@,
                suffix: suffix@,
            },
        }
    }
}

/// The method name that a naming rule yields for a given field identifier.
pub open spec fn spec_complete_name(rule: MethodNameConfV, field: Seq<char>) -> Seq<char> {
    match rule {
        MethodNameConfV::Name(n) => n,
        MethodNameConfV::Format { prefix, suffix } => prefix + field + suffix,
    }
}

impl MethodNameConf {
    /// An owned copy of this naming rule.
    pub fn dup(&self) -> (r: MethodNameConf)
        ensures
            r == *self,
    {
        match self {
            MethodNameConf::Name(n) => MethodNameConf::Name(n.clone()),
            MethodNameConf::Format { prefix, suffix } => MethodNameConf::Format {
                prefix: prefix.clone(),
                suffix: suffix.clone(),
            },
        }
    }

    /// Apply the naming rule to a field identifier to obtain the method name.
    pub fn complete(&self, field: &String) -> (r: String)
        ensures
            r@ == spec_complete_name(self@, field@),
    {
        match self {
            MethodNameConf::Name(n) => n.clone(),
            MethodNameConf::Format { prefix, suffix } => {
                let mut s = prefix.clone();
                s.append(field.as_str());
                s.append(suffix.as_str());
                s
            },
        }
    }
}

/// Configuration of the read method for one field.
#[derive(Debug)]
pub struct GetFieldConf {
    pub vis: Visibility,
    pub name: MethodNameConf,
    pub typ: GetTypeConf,
}

/// Mathematical value of a [`GetFieldConf`].
pub ghost struct GetFieldConfV {
    pub vis: Visibility,
    pub name: MethodNameConfV,
    pub typ: GetTypeConf,
}

impl View for GetFieldConf {
    type V = GetFieldConfV;

    open spec fn view(&self) -> GetFieldConfV {
        GetFieldConfV { vis: self.vis, name: self.name@, typ: self.typ }
    }
}

/// Configuration of the write method for one field.
#[derive(Debug)]
pub struct SetFieldConf {
    pub vis: Visibility,
    pub name: MethodNameConf,
    pub typ: SetTypeConf,
    pub full_option: bool,
}

/// Mathematical value of a [`SetFieldConf`].
pub ghost struct SetFieldConfV {
    pub vis: Visibility,
    pub name: MethodNameConfV,
    pub typ: SetTypeConf,
    pub full_option: bool,
}

impl View for SetFieldConf {
    type V = SetFieldConfV;

    open spec fn view(&self) -> SetFieldConfV {
        SetFieldConfV {
            vis: self.vis,
            name: self.name@,
            typ: self.typ,
            full_option: self.full_option,
        }
    }
}

/// Configuration of the mutable-reference method for one field.
#[derive(Debug)]
pub struct MutFieldConf {
    pub vis: Visibility,
    pub name: MethodNameConf,
}

/// Mathematical value of a [`MutFieldConf`].
pub ghost struct MutFieldConfV {
    pub vis: Visibility,
    pub name: MethodNameConfV,
}

impl View for MutFieldConf {
    type V = MutFieldConfV;

    open spec fn view(&self) -> MutFieldConfV {
        MutFieldConfV { vis: self.vis, name: self.name@ }
    }
}

/// Configuration of the clear method for one field.
#[derive(Debug)]
pub struct ClrFieldConf {
    pub vis: Visibility,
    pub name: MethodNameConf,
    pub scope: ClrScopeConf,
}

/// Mathematical value of a [`ClrFieldConf`].
pub ghost struct ClrFieldConfV {
    pub vis: Visibility,
    pub name: MethodNameConfV,
    pub scope: ClrScopeConf,
}

impl View for ClrFieldConf {
    type V = ClrFieldConfV;

    open spec fn view(&self) -> ClrFieldConfV {
        ClrFieldConfV { vis: self.vis, name: self.name@, scope: self.scope }
    }
}

/// The full per-field configuration: one config per operation plus the
/// `skip` flag. Immutable once built by the attribute parser.
#[derive(Debug)]
pub struct FieldConf {
    pub get: GetFieldConf,
    pub set: SetFieldConf,
    pub mut_: MutFieldConf,
    pub clr: ClrFieldConf,
    pub skip: bool,
}

/// Mathematical value of a [`FieldConf`].
pub ghost struct FieldConfV {
    pub get: GetFieldConfV,
    pub set: SetFieldConfV,
    pub mut_: MutFieldConfV,
    pub clr: ClrFieldConfV,
    pub skip: bool,
}

impl View for FieldConf {
    type V = FieldConfV;

    open spec fn view(&self) -> FieldConfV {
        FieldConfV {
            get: self.get@,
            set: self.set@,
            mut_: self.mut_@,
            clr: self.clr@,
            skip: self.skip,
        }
    }
}

/// The built-in default configuration: a crate-visible getter named after
/// the field, a crate-visible `set_` setter of the `Ref` behavior, and
/// disabled mutable-reference and clear methods.
pub open spec fn spec_default_conf() -> FieldConfV {
    FieldConfV {
        get: GetFieldConfV {
            vis: Visibility::Crate,
            name: MethodNameConfV::Format { prefix: Seq::<char>::empty(), suffix: Seq::<char>::empty() },
            typ: GetTypeConf::Auto,
        },
        set: SetFieldConfV {
            vis: Visibility::Crate,
            name: MethodNameConfV::Format { prefix: "set_"@, suffix: Seq::<char>::empty() },
            typ: SetTypeConf::Ref,
            full_option: false,
        },
        mut_: MutFieldConfV {
            vis: Visibility::Disable,
            name: MethodNameConfV::Format { prefix: "mut_"@, suffix: Seq::<char>::empty() },
        },
        clr: ClrFieldConfV {
            vis: Visibility::Disable,
            name: MethodNameConfV::Format { prefix: "clear_"@, suffix: Seq::<char>::empty() },
            scope: ClrScopeConf::OptionOnly,
        },
        skip: false,
    }
}

impl FieldConf {
    /// An owned copy of this configuration, used to seed each field of a
    /// container with the container-level configuration.
    pub fn dup(&self) -> (r: FieldConf)
        ensures
            r == *self,
    {
        FieldConf {
            get: GetFieldConf {
                vis: self.get.vis,
                name: self.get.name.dup(),
                typ: self.get.typ,
            },
            set: SetFieldConf {
                vis: self.set.vis,
                name: self.set.name.dup(),
                typ: self.set.typ,
                full_option: self.set.full_option,
            },
            mut_: MutFieldConf { vis: self.mut_.vis, name: self.mut_.name.dup() },
            clr: ClrFieldConf {
                vis: self.clr.vis,
                name: self.clr.name.dup(),
                scope: self.clr.scope,
            },
            skip: self.skip,
        }
    }

    /// The built-in default configuration, the base of the two-level cascade.
    pub fn default_conf() -> (r: FieldConf)
        ensures
            r@ == spec_default_conf(),
    {
        FieldConf {
            get: GetFieldConf {
                vis: Visibility::Crate,
                name: MethodNameConf::Format {
                    prefix: String::new(),
                    suffix: String::new(),
                },
                typ: GetTypeConf::Auto,
            },
            set: SetFieldConf {
                vis: Visibility::Crate,
                name: MethodNameConf::Format {
                    prefix: String::from_str("set_"),
                    suffix: String::new(),
                },
                typ: SetTypeConf::Ref,
                full_option: false,
            },
            mut_: MutFieldConf {
                vis: Visibility::Disable,
                name: MethodNameConf::Format {
                    prefix: String::from_str("mut_"),
                    suffix: String::new(),
                },
            },
            clr: ClrFieldConf {
                vis: Visibility::Disable,
                name: MethodNameConf::Format {
                    prefix: String::from_str("clear_"),
                    suffix: String::new(),
                },
                scope: ClrScopeConf::OptionOnly,
            },
            skip: false,
        }
    }
}

impl Default for FieldConf {
    /// The built-in default configuration, the base of the two-level cascade.
    fn default() -> (r: FieldConf)
        ensures
            r@ == spec_default_conf(),
    {
        FieldConf::default_conf()
    }
}

} // verus!
