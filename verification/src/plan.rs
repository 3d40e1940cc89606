//! Builder schema synthesizer: combines a field's shape and its validated
//! directive into a builder field plan, and assembles the whole record's
//! builder description, collecting every schema error before giving up.

use vstd::prelude::*;

use crate::annotations::Diagnostic;
use crate::annotations::DiagnosticV;
use crate::annotations::EachDirective;
use crate::annotations::EachDirectiveV;
use crate::annotations::parse_each;
use crate::annotations::spec_parse_each;
use crate::classify::FieldShape;
use crate::classify::FieldShapeV;
use crate::classify::classify;
use crate::classify::repeated_wrapper;
use crate::classify::spec_classify;
use crate::schema::FieldSchema;
use crate::schema::FieldSchemaV;
use crate::schema::RecordSchema;
use crate::schema::RecordSchemaV;
use crate::schema::TypeRef;
use crate::schema::TypeRefV;
use crate::schema::type_ref_clone;
use vstd::string::StringExecFns;

verus! {

/// How a setter treats the field's storage slot: `Replace` installs its whole
/// argument, `Append` pushes one element onto the collection.
#[derive(Clone, Copy, PartialEq, Eq, Structural, Debug)]
pub enum SetterKind {
    Replace,
    Append,
}

/// One setter of the synthesized builder: its name, how it acts on the slot,
/// and the type of the value it takes.
pub struct Setter {
    pub name: String,
    pub kind: SetterKind,
    pub param: TypeRef,
}

/// Model of a `Setter`.
pub struct SetterV {
    pub name: Seq<char>,
    pub kind: SetterKind,
    pub param: TypeRefV,
}

impl View for Setter {
    type V = SetterV;

    open spec fn view(&self) -> SetterV {
        SetterV { name: self.name@, kind: self.kind, param: self.param@ }
    }
}

/// The storage slot a builder keeps for one field. Storage is always
/// optional-at-rest; only for `OptionDirect` does the slot itself stand for
/// the field's value, so that "unset" and the final `Optional` value
/// coincide.
pub enum StorageKind {
    /// Required field: absent until set, then holds one value of the type.
    AbsentOrScalar(TypeRef),
    /// Optional field: the slot holds the `Optional` value directly; unset is
    /// the empty value.
    OptionDirect(TypeRef),
    /// Repeated field: absent until set, then holds a collection of the type.
    AbsentOrList(TypeRef),
}

/// Model of a `StorageKind`.
pub enum StorageKindV {
    AbsentOrScalar(TypeRefV),
    OptionDirect(TypeRefV),
    AbsentOrList(TypeRefV),
}

impl View for StorageKind {
    type V = StorageKindV;

    open spec fn view(&self) -> StorageKindV {
        match self {
            StorageKind::AbsentOrScalar(t) => StorageKindV::AbsentOrScalar(t@),
            StorageKind::OptionDirect(t) => StorageKindV::OptionDirect(t@),
            StorageKind::AbsentOrList(t) => StorageKindV::AbsentOrList(t@),
        }
    }
}

/// How the field is read out of the builder at finalize time.
#[derive(Clone, Copy, PartialEq, Eq, Structural, Debug)]
pub enum Finalizer {
    /// Required field: fail with `MissingField` when the slot is absent.
    FailIfAbsent,
    /// Optional field: pass the slot through verbatim; never fails.
    PassThrough,
    /// Repeated field: default to an empty collection when absent; never
    /// fails.
    EmptyIfAbsent,
}

/// The synthesized plan for one field: storage slot, setter surface, and
/// finalization rule.
pub struct BuilderFieldPlan {
    pub field_name: String,
    pub storage: StorageKind,
    pub setters: Vec<Setter>,
    pub finalizer: Finalizer,
}

/// Model of a `BuilderFieldPlan`.
pub struct BuilderFieldPlanV {
    pub field_name: Seq<char>,
    pub storage: StorageKindV,
    pub setters: Seq<SetterV>,
    pub finalizer: Finalizer,
}

impl View for BuilderFieldPlan {
    type V = BuilderFieldPlanV;

    open spec fn view(&self) -> BuilderFieldPlanV {
        BuilderFieldPlanV {
            field_name: self.field_name@,
            storage: self.storage@,
            setters: self.setters@.map_values(|s: Setter| s@),
            finalizer: self.finalizer,
        }
    }
}

/// The synthesized builder description for a whole record.
pub struct BuilderPlan {
    pub record_name: String,
    pub builder_name: String,
    pub fields: Vec<BuilderFieldPlan>,
}

/// Model of a `BuilderPlan`.
pub struct BuilderPlanV {
    pub record_name: Seq<char>,
    pub builder_name: Seq<char>,
    pub fields: Seq<BuilderFieldPlanV>,
}

impl View for BuilderPlan {
    type V = BuilderPlanV;

    open spec fn view(&self) -> BuilderPlanV {
        BuilderPlanV {
            record_name: self.record_name@,
            builder_name: self.builder_name@,
            fields: self.fields@.map_values(|f: BuilderFieldPlan| f@),
        }
    }
}

/// The fixed suffix appended to the record name to name the builder type.
pub open spec fn builder_suffix() -> Seq<char> {
    "Builder"@
}

/// The collection type over an element type, as the bulk-replace setter takes
/// it.
pub open spec fn spec_collection_of(elem: TypeRefV) -> TypeRefV {
    TypeRefV { name: repeated_wrapper(), args: seq![elem] }
}

/// What `synthesize` returns, by shape:
/// - `Required(T)`: absent-until-set storage, one replacing setter named
///   after the field taking `T`, fail-if-absent finalizer.
/// - `Optional(T)`: direct storage, one replacing setter named after the
///   field taking `T` (the built value wraps it), pass-through finalizer.
/// - `Repeated(T)` without a directive: absent-until-set list storage, one
///   bulk-replace setter named after the field taking the whole collection,
///   empty-if-absent finalizer.
/// - `Repeated(T)` with alias equal to the field name: the accumulating
///   setter alone, so that no two setters share the name.
/// - `Repeated(T)` with a different alias: the accumulating setter under the
///   alias plus the bulk-replace setter named after the field.
pub open spec fn spec_synthesize(
    name: Seq<char>,
    shape: FieldShapeV,
    each: Option<EachDirectiveV>,
) -> BuilderFieldPlanV {
    match shape {
        FieldShapeV::Required(t) => BuilderFieldPlanV {
            field_name: name,
            storage: StorageKindV::AbsentOrScalar(t),
            setters: seq![SetterV { name, kind: SetterKind::Replace, param: t }],
            finalizer: Finalizer::FailIfAbsent,
        },
        FieldShapeV::Optional(t) => BuilderFieldPlanV {
            field_name: name,
            storage: StorageKindV::OptionDirect(t),
            setters: seq![SetterV { name, kind: SetterKind::Replace, param: t }],
            finalizer: Finalizer::PassThrough,
        },
        FieldShapeV::Repeated(t) => {
            let bulk = SetterV {
                name,
                kind: SetterKind::Replace,
                param: spec_collection_of(t),
            };
            let setters = match each {
                None => seq![bulk],
                Some(d) => {
                    let accumulating = SetterV {
                        name: d.alias,
                        kind: SetterKind::Append,
                        param: t,
                    };
                    if d.alias == name {
                        seq![accumulating]
                    } else {
                        seq![accumulating, bulk]
                    }
                },
            };
            BuilderFieldPlanV {
                field_name: name,
                storage: StorageKindV::AbsentOrList(t),
                setters,
                finalizer: Finalizer::EmptyIfAbsent,
            }
        },
    }
}

/// Model of an optional directive.
pub open spec fn option_each_view(each: Option<EachDirective>) -> Option<EachDirectiveV> {
    match each {
        None => None,
        Some(d) => Some(d@),
    }
}

/// Synthesizes the builder plan for one field from its shape and validated
/// directive. Total: every well-formed input has a plan.
pub fn synthesize(name: &String, shape: FieldShape, each: Option<EachDirective>) -> (p:
    BuilderFieldPlan)
    ensures
        p@ == spec_synthesize(name@, shape@, option_each_view(each)),
{
    let ghost shape_v = shape@;
    let ghost each_v = option_each_view(each);
    match shape {
        FieldShape::Required(t) => {
            let param = type_ref_clone(&t);
            let p = BuilderFieldPlan {
                field_name: name.clone(),
                storage: StorageKind::AbsentOrScalar(t),
                setters: vec![Setter { name: name.clone(), kind: SetterKind::Replace, param }],
                finalizer: Finalizer::FailIfAbsent,
            };
            proof {
                assert(p@.setters =~= spec_synthesize(name@, shape_v, each_v).setters);
            }
            p
        },
        FieldShape::Optional(t) => {
            let param = type_ref_clone(&t);
            let p = BuilderFieldPlan {
                field_name: name.clone(),
                storage: StorageKind::OptionDirect(t),
                setters: vec![Setter { name: name.clone(), kind: SetterKind::Replace, param }],
                finalizer: Finalizer::PassThrough,
            };
            proof {
                assert(p@.setters =~= spec_synthesize(name@, shape_v, each_v).setters);
            }
            p
        },
        FieldShape::Repeated(t) => {
            let collection = TypeRef { name: "Repeated".to_owned(), args: vec![type_ref_clone(&t)] };
            proof {
                crate::schema::lemma_type_ref_seq_view(collection.args@);
                assert(collection@.args =~= seq![t@]);
            }
            let setters: Vec<Setter> = match each {
                None => {
                    vec![Setter { name: name.clone(), kind: SetterKind::Replace, param: collection }]
                },
                Some(d) => {
                    let accumulating = Setter {
                        name: d.alias,
                        kind: SetterKind::Append,
                        param: type_ref_clone(&t),
                    };
                    if accumulating.name == *name {
                        vec![accumulating]
                    } else {
                        vec![
                            accumulating,
                            Setter { name: name.clone(), kind: SetterKind::Replace, param: collection },
                        ]
                    }
                },
            };
            let p = BuilderFieldPlan {
                field_name: name.clone(),
                storage: StorageKind::AbsentOrList(t),
                setters,
                finalizer: Finalizer::EmptyIfAbsent,
            };
            proof {
                assert(p@.setters =~= spec_synthesize(name@, shape_v, each_v).setters);
            }
            p
        },
    }
}

/// The whole pipeline for one field: parse its annotations, classify its
/// type, synthesize its plan; a parser failure fails the field with the
/// parser's diagnostic.
pub open spec fn spec_field_plan(f: FieldSchemaV) -> Result<BuilderFieldPlanV, DiagnosticV> {
    match spec_parse_each(f.annotations) {
        Err(d) => Err(d),
        Ok(each) => Ok(spec_synthesize(f.name, spec_classify(f.ty), each)),
    }
}

/// Every diagnostic of a field sequence, in field declaration order: schema
/// errors are collected across all fields, not cut off at the first.
pub open spec fn spec_field_diags(fields: Seq<FieldSchemaV>) -> Seq<DiagnosticV>
    decreases fields,
{
    if fields.len() == 0 {
        Seq::empty()
    } else {
        spec_field_diags(fields.drop_last()) + (match spec_field_plan(fields.last()) {
            Err(d) => seq![d],
            Ok(_) => Seq::empty(),
        })
    }
}

/// The plans of the fields whose pipeline succeeded, in declaration order.
pub open spec fn spec_field_plans(fields: Seq<FieldSchemaV>) -> Seq<BuilderFieldPlanV>
    decreases fields,
{
    if fields.len() == 0 {
        Seq::empty()
    } else {
        spec_field_plans(fields.drop_last()) + (match spec_field_plan(fields.last()) {
            Ok(p) => seq![p],
            Err(_) => Seq::empty(),
        })
    }
}

/// What `generate` returns: the full builder description when no field
/// failed, else every diagnostic in the order produced. The unit of failure
/// is the whole record: no partial generation.
pub open spec fn spec_generate(s: RecordSchemaV) -> Result<BuilderPlanV, Seq<DiagnosticV>> {
    if spec_field_diags(s.fields).len() == 0 {
        Ok(
            BuilderPlanV {
                record_name: s.name,
                builder_name: s.name + builder_suffix(),
                fields: spec_field_plans(s.fields),
            },
        )
    } else {
        Err(spec_field_diags(s.fields))
    }
}

/// Model of a concrete per-field result.
pub open spec fn plan_result_view(r: Result<BuilderFieldPlan, Diagnostic>) -> Result<
    BuilderFieldPlanV,
    DiagnosticV,
> {
    match r {
        Ok(p) => Ok(p@),
        Err(d) => Err(d@),
    }
}

/// Runs the pipeline for one field.
pub fn plan_field(field: &FieldSchema) -> (r: Result<BuilderFieldPlan, Diagnostic>)
    ensures
        plan_result_view(r) == spec_field_plan(field@),
{
    match parse_each(&field.annotations) {
        Err(d) => Err(d),
        Ok(each) => {
            let shape = classify(type_ref_clone(&field.ty));
            Ok(synthesize(&field.name, shape, each))
        },
    }
}

/// Model of a concrete `generate` result.
pub open spec fn generate_result_view(r: Result<BuilderPlan, Vec<Diagnostic>>) -> Result<
    BuilderPlanV,
    Seq<DiagnosticV>,
> {
    match r {
        Ok(p) => Ok(p@),
        Err(ds) => Err(ds@.map_values(|d: Diagnostic| d@)),
    }
}

/// Transforms a whole record schema into its builder description, or into
/// the ordered list of every schema error found.
pub fn generate(schema: &RecordSchema) -> (r: Result<BuilderPlan, Vec<Diagnostic>>)
    ensures
        generate_result_view(r) == spec_generate(schema@),
{
    let ghost fields_v = schema@.fields;
    let mut plans: Vec<BuilderFieldPlan> = Vec::new();
    let mut diags: Vec<Diagnostic> = Vec::new();
    let mut i: usize = 0;
    while i < schema.fields.len()
        invariant
            i <= schema.fields.len(),
            fields_v == schema.fields@.map_values(|f: FieldSchema| f@),
            plans@.map_values(|p: BuilderFieldPlan| p@) == spec_field_plans(
                fields_v.take(i as int),
            ),
            diags@.map_values(|d: Diagnostic| d@) == spec_field_diags(fields_v.take(i as int)),
        decreases schema.fields.len() - i,
    {
        let ghost old_plans = plans@.map_values(|p: BuilderFieldPlan| p@);
        let ghost old_diags = diags@.map_values(|d: Diagnostic| d@);
        match plan_field(&schema.fields[i]) {
            Ok(p) => plans.push(p),
            Err(d) => diags.push(d),
        }
        proof {
            let j = i as int;
            assert(fields_v.take(j + 1).drop_last() =~= fields_v.take(j));
            assert(fields_v.take(j + 1).last() == fields_v[j]);
            assert(plans@.map_values(|p: BuilderFieldPlan| p@) =~= spec_field_plans(
                fields_v.take(j + 1),
            ));
            assert(diags@.map_values(|d: Diagnostic| d@) =~= spec_field_diags(
                fields_v.take(j + 1),
            ));
        }
        i += 1;
    }
    proof {
        assert(fields_v.take(schema.fields@.len() as int) =~= fields_v);
    }
    if diags.len() == 0 {
        let mut builder_name = schema.name.clone();
        builder_name.append("Builder");
        Ok(BuilderPlan { record_name: schema.name.clone(), builder_name, fields: plans })
    } else {
        Err(diags)
    }
}

} // verus!
