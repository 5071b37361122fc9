pub mod attr;
pub mod conf;
pub mod laws;
pub mod policy;
pub mod synth;
pub mod text;
pub mod ty;

use vstd::prelude::*;

use crate::attr::{
    parse_attrs, spec_parse_attrs, view_attr_entries, AttrEntry, AttrEntryV, ErrorKind,
    ParseError,
};
use crate::conf::{spec_default_conf, FieldConf, FieldConfV};
use crate::synth::{
    field_descriptors, spec_field_descriptors, view_desc_seq, MethodDescriptor,
    MethodDescriptorV,
};
use crate::ty::{TypeExpr, TypeExprV};

verus! {

/// One named field of the record handed in for generation: its identifier,
/// its raw type expression, and its own attribute entries.
#[derive(Debug)]
pub struct FieldInput {
    pub ident: String,
    pub ty: TypeExpr,
    pub attrs: Vec<AttrEntry>,
}

/// Mathematical value of a [`FieldInput`].
pub ghost struct FieldInputV {
    pub ident: Seq<char>,
    pub ty: TypeExprV,
    pub attrs: Seq<AttrEntryV>,
}

impl View for FieldInput {
    type V = FieldInputV;

    open spec fn view(&self) -> FieldInputV {
        FieldInputV {
            ident: self.ident@,
            ty: self.ty@,
            attrs: view_attr_entries(self.attrs@),
        }
    }
}

/// Mathematical value of a sequence of field inputs.
pub open spec fn view_field_inputs(s: Seq<FieldInput>) -> Seq<FieldInputV> {
    Seq::new(s.len(), |i: int| s[i]@)
}

/// Mathematical value of a sequence of strings.
pub open spec fn view_strings(s: Seq<String>) -> Seq<Seq<char>> {
    Seq::new(s.len(), |i: int| s[i]@)
}

/// A record declaration handed in for generation: its identifier, the raw
/// text of its generic parameters, its record-level attribute entries, its
/// named fields in order, and a location tag for whole-record errors.
#[derive(Debug)]
pub struct ContainerInput {
    pub name: String,
    pub generics: Vec<String>,
    pub attrs: Vec<AttrEntry>,
    pub fields: Vec<FieldInput>,
    pub loc: u64,
}

/// Mathematical value of a [`ContainerInput`].
pub ghost struct ContainerInputV {
    pub name: Seq<char>,
    pub generics: Seq<Seq<char>>,
    pub attrs: Seq<AttrEntryV>,
    pub fields: Seq<FieldInputV>,
    pub loc: u64,
}

impl View for ContainerInput {
    type V = ContainerInputV;

    open spec fn view(&self) -> ContainerInputV {
        ContainerInputV {
            name: self.name@,
            generics: view_strings(self.generics@),
            attrs: view_attr_entries(self.attrs@),
            fields: view_field_inputs(self.fields@),
            loc: self.loc,
        }
    }
}

/// The generated output: every method descriptor of the record, in field
/// order and, within one field, in operation order, scoped to the record's
/// identity and generic parameters.
#[derive(Debug)]
pub struct ContainerOutput {
    pub name: String,
    pub generics: Vec<String>,
    pub methods: Vec<MethodDescriptor>,
}

/// Mathematical value of a [`ContainerOutput`].
pub ghost struct ContainerOutputV {
    pub name: Seq<char>,
    pub generics: Seq<Seq<char>>,
    pub methods: Seq<MethodDescriptorV>,
}

impl View for ContainerOutput {
    type V = ContainerOutputV;

    open spec fn view(&self) -> ContainerOutputV {
        ContainerOutputV {
            name: self.name@,
            generics: view_strings(self.generics@),
            methods: view_desc_seq(self.methods@),
        }
    }
}

/// The descriptors of a run of fields, each configured by the seed
/// configuration overridden by its own attribute entries, concatenated in
/// field order; a skipped field contributes nothing; the first field whose
/// attribute entries are invalid fails the whole run.
pub open spec fn spec_fields_fold(base: FieldConfV, fields: Seq<FieldInputV>) -> Result<
    Seq<MethodDescriptorV>,
    ParseError,
>
    decreases fields.len(),
{
    if fields.len() == 0 {
        Result::Ok(Seq::empty())
    } else {
        match spec_parse_attrs(base, fields[0].attrs) {
            Result::Err(e) => Result::Err(e),
            Result::Ok(conf) => match spec_fields_fold(
                base,
                fields.subrange(1, fields.len() as int),
            ) {
                Result::Err(e) => Result::Err(e),
                Result::Ok(rest) => Result::Ok(
                    (if conf.skip {
                        Seq::empty()
                    } else {
                        spec_field_descriptors(fields[0].ident, fields[0].ty, conf)
                    }) + rest,
                ),
            },
        }
    }
}

/// The outcome of one whole generation run. The record-level attribute
/// entries override the built-in default configuration; a record without
/// fields is an `UnsupportedShape` error at the record's location; each
/// field then yields its descriptors under the seed configuration
/// overridden by its own entries.
pub open spec fn spec_derive(input: ContainerInputV) -> Result<ContainerOutputV, ParseError> {
    match spec_parse_attrs(spec_default_conf(), input.attrs) {
        Result::Err(e) => Result::Err(e),
        Result::Ok(base) => if input.fields.len() == 0 {
            Result::Err(ParseError { kind: ErrorKind::UnsupportedShape, loc: input.loc })
        } else {
            match spec_fields_fold(base, input.fields) {
                Result::Err(e) => Result::Err(e),
                Result::Ok(methods) => Result::Ok(
                    ContainerOutputV { name: input.name, generics: input.generics, methods },
                ),
            }
        },
    }
}

/// Whether an executable generation outcome carries the same value as its
/// specification-level outcome.
pub open spec fn derive_res_matches(
    r: Result<ContainerOutput, ParseError>,
    s: Result<ContainerOutputV, ParseError>,
) -> bool {
    match r {
        Result::Ok(o) => s matches Result::Ok(ov) && o@ == ov,
        Result::Err(e) => s matches Result::Err(e2) && e == e2,
    }
}

/// Relation between the fold of the remaining fields, the descriptors
/// accumulated so far, and the fold of the whole field list.
pub open spec fn spec_fold_link(
    base: FieldConfV,
    sub: Seq<FieldInputV>,
    acc: Seq<MethodDescriptorV>,
    total: Result<Seq<MethodDescriptorV>, ParseError>,
) -> bool {
    match spec_fields_fold(base, sub) {
        Result::Ok(rest) => total == Result::<Seq<MethodDescriptorV>, ParseError>::Ok(acc + rest),
        Result::Err(e) => total == Result::<Seq<MethodDescriptorV>, ParseError>::Err(e),
    }
}

/// An owned copy of a list of strings.
fn dup_strings(s: &Vec<String>) -> (r: Vec<String>)
    ensures
        r@ == s@,
{
    let mut out: Vec<String> = Vec::new();
    let mut i: usize = 0;
    while i < s.len()
        invariant
            i <= s.len(),
            out@ =~= s@.subrange(0, i as int),
        decreases s.len() - i,
    {
        out.push(s[i].clone());
        i += 1;
    }
    proof {
        assert(s@.subrange(0, s@.len() as int) =~= s@);
    }
    out
}

/// Generate the accessor-method descriptors for one record declaration.
///
/// The record-level attribute entries override the built-in default
/// configuration; each field starts from that seed, applies its own
/// entries, and, unless skipped, yields one descriptor per operation whose
/// visibility is enabled and whose shape is defined, in the order read,
/// write, mutable reference, clear. The first invalid entry, or a record
/// without fields, fails the whole run with a located error and no output.
pub fn derive_property(input: &ContainerInput) -> (r: Result<ContainerOutput, ParseError>)
    ensures
        derive_res_matches(r, spec_derive(input@)),
{
    let base = match parse_attrs(FieldConf::default_conf(), &input.attrs) {
        Result::Ok(c) => c,
        Result::Err(e) => {
            return Result::Err(e);
        },
    };
    if input.fields.len() == 0 {
        return Result::Err(ParseError { kind: ErrorKind::UnsupportedShape, loc: input.loc });
    }
    let ghost vf = view_field_inputs(input.fields@);
    let ghost basev = base@;
    let ghost total = spec_fields_fold(basev, vf);
    let mut methods: Vec<MethodDescriptor> = Vec::new();
    let mut i: usize = 0;
    proof {
        assert(vf.subrange(0, vf.len() as int) =~= vf);
        assert(view_desc_seq(methods@) =~= Seq::empty());
        match spec_fields_fold(basev, vf) {
            Result::Ok(rest) => {
                assert(Seq::<MethodDescriptorV>::empty() + rest =~= rest);
            },
            Result::Err(_) => {},
        }
    }
    while i < input.fields.len()
        invariant
            i <= input.fields.len(),
            vf == view_field_inputs(input.fields@),
            vf.len() == input.fields@.len(),
            vf.len() > 0,
            basev == base@,
            total == spec_fields_fold(basev, vf),
            spec_parse_attrs(spec_default_conf(), view_attr_entries(input.attrs@))
                == Result::<FieldConfV, ParseError>::Ok(basev),
            spec_fold_link(
                basev,
                vf.subrange(i as int, vf.len() as int),
                view_desc_seq(methods@),
                total,
            ),
        decreases input.fields.len() - i,
    {
        proof {
            assert(vf.subrange(i as int, vf.len() as int)[0] == vf[i as int]);
            assert(vf[i as int] == input.fields@[i as int]@);
            assert(vf.subrange(i as int, vf.len() as int).subrange(
                1,
                vf.len() - i,
            ) =~= vf.subrange(i as int + 1, vf.len() as int));
        }
        let f = &input.fields[i];
        let conf = match parse_attrs(base.dup(), &f.attrs) {
            Result::Ok(c) => c,
            Result::Err(e) => {
                return Result::Err(e);
            },
        };
        let ghost acc0 = view_desc_seq(methods@);
        if !conf.skip {
            let mut descs = field_descriptors(&f.ident, &f.ty, &conf);
            let ghost dv = view_desc_seq(descs@);
            methods.append(&mut descs);
            proof {
                assert(view_desc_seq(methods@) =~= acc0 + dv);
                match spec_fields_fold(basev, vf.subrange(i as int + 1, vf.len() as int)) {
                    Result::Ok(rest) => {
                        assert((acc0 + dv) + rest =~= acc0 + (dv + rest));
                    },
                    Result::Err(_) => {},
                }
            }
        } else {
            proof {
                match spec_fields_fold(basev, vf.subrange(i as int + 1, vf.len() as int)) {
                    Result::Ok(rest) => {
                        assert(Seq::<MethodDescriptorV>::empty() + rest =~= rest);
                    },
                    Result::Err(_) => {},
                }
            }
        }
        i += 1;
    }
    proof {
        assert(vf.subrange(vf.len() as int, vf.len() as int) =~= Seq::<FieldInputV>::empty());
        match spec_fields_fold(basev, vf) {
            Result::Ok(all) => {
                assert(view_desc_seq(methods@) + Seq::<MethodDescriptorV>::empty()
                    =~= view_desc_seq(methods@));
            },
            Result::Err(_) => {},
        }
    }
    Result::Ok(
        ContainerOutput {
            name: input.name.clone(),
            generics: dup_strings(&input.generics),
            methods,
        },
    )
}

} // verus!
