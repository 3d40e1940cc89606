//! The engine's laws: properties that hold of classification, synthesis,
//! diagnostics, and the builder's runtime behaviour, stated over the spec
//! model and proved once for all inputs.

use vstd::prelude::*;

use crate::builder::BuilderV;
use crate::builder::FieldValueV;
use crate::builder::SlotV;
use crate::plan::SetterKind;
use crate::builder::builder_wf;
use crate::builder::field_has_bulk;
use crate::builder::find_bulk;
use crate::builder::find_single;
use crate::builder::bulk_from;
use crate::builder::lemma_bulk_storage;
use crate::builder::lemma_find_bulk_facts;
use crate::builder::lemma_find_single_facts;
use crate::builder::lemma_first_missing_facts;
use crate::builder::lemma_no_missing_from;
use crate::builder::lemma_single_kind_storage;
use crate::builder::plan_field_wf;
use crate::builder::plan_wf;
use crate::builder::spec_finalize_values;
use crate::builder::spec_first_missing;
use crate::builder::spec_set_all;
use crate::builder::spec_set_one;
use crate::classify::FieldShapeV;
use crate::plan::spec_field_diags;
use crate::plan::spec_field_plan;
use crate::plan::spec_generate;
use crate::plan::spec_synthesize;
use crate::schema::FieldSchemaV;
use crate::schema::RecordSchemaV;
use crate::schema::TypeRefV;
use crate::annotations::EachDirectiveV;

verus! {

/// Round trip for an optional field, set: after calling its (replacing)
/// setter with `v`, finalize yields `Some(v)` for that field.
pub proof fn law_optional_set_round_trip<V>(b: BuilderV<V>, name: Seq<char>, v: V, i: int)
    requires
        builder_wf(b),
        find_single(b.plan.fields, name) == Some((i, SetterKind::Replace)),
        b.plan.fields[i].finalizer is PassThrough,
    ensures
        spec_finalize_values(spec_set_one(b, name, v))[i] == FieldValueV::Opt(Some(v)),
        spec_first_missing(spec_set_one(b, name, v)) != Some(i),
{
    lemma_find_single_facts(b.plan.fields, name, 0);
    let b2 = spec_set_one(b, name, v);
    lemma_first_missing_facts(b2.plan.fields, b2.slots, 0);
}

/// Round trip for an optional field, unset: a never-set optional field
/// finalizes to the absent value, and finalize never fails on its account.
pub proof fn law_optional_unset_round_trip<V>(b: BuilderV<V>, i: int)
    requires
        builder_wf(b),
        0 <= i < b.plan.fields.len(),
        b.plan.fields[i].finalizer is PassThrough,
        b.slots[i] is Vacant,
    ensures
        spec_finalize_values(b)[i] == FieldValueV::Opt(None::<V>),
        spec_first_missing(b) != Some(i),
{
    lemma_first_missing_facts(b.plan.fields, b.slots, 0);
}

/// Round trip for a repeated field under its accumulating setter: starting
/// from the absent slot, pushing `v1` then `v2` leaves exactly `[v1, v2]`,
/// in call order, and finalize hands that collection out.
pub proof fn law_repeated_accumulation_round_trip<V>(
    b: BuilderV<V>,
    name: Seq<char>,
    v1: V,
    v2: V,
    i: int,
)
    requires
        builder_wf(b),
        find_single(b.plan.fields, name) == Some((i, SetterKind::Append)),
        b.slots[i] is Vacant,
    ensures
        spec_set_one(spec_set_one(b, name, v1), name, v2).slots[i] == SlotV::List(seq![v1, v2]),
        spec_finalize_values(spec_set_one(spec_set_one(b, name, v1), name, v2))[i]
            == FieldValueV::List(seq![v1, v2]),
{
    lemma_find_single_facts(b.plan.fields, name, 0);
    lemma_single_kind_storage(b.plan.fields[i], name, 0);
    let b1 = spec_set_one(b, name, v1);
    let b2 = spec_set_one(b1, name, v2);
    assert(b1.slots[i] == SlotV::List(seq![v1]));
    assert(b2.slots[i] == SlotV::List(seq![v1].push(v2)));
    assert(seq![v1].push(v2) =~= seq![v1, v2]);
    assert(plan_field_wf(b.plan.fields[i]));
    assert(b.plan.fields[i].finalizer is EmptyIfAbsent);
}

/// The bulk-replace setter, where present, fully overwrites whatever was
/// accumulated before: the slot afterwards holds exactly the given
/// collection, and finalize hands it out.
pub proof fn law_bulk_setter_overwrites<V>(b: BuilderV<V>, name: Seq<char>, vs: Seq<V>, i: int)
    requires
        builder_wf(b),
        find_bulk(b.plan.fields, name) == Some(i),
    ensures
        spec_set_all(b, name, vs).slots[i] == SlotV::List(vs),
        spec_finalize_values(spec_set_all(b, name, vs))[i] == FieldValueV::List(vs),
{
    lemma_find_bulk_facts(b.plan.fields, name, 0);
    lemma_bulk_storage(b.plan.fields[i], name, 0);
    assert(plan_field_wf(b.plan.fields[i]));
    assert(b.plan.fields[i].finalizer is EmptyIfAbsent);
}

/// Required enforcement: finalize fails exactly when some required field's
/// slot is still absent, and what it reports is the first such field in
/// declaration order.
pub proof fn law_required_enforcement<V>(b: BuilderV<V>)
    requires
        builder_wf(b),
    ensures
        (spec_first_missing(b) is Some) <==> (exists|i: int|
            0 <= i < b.plan.fields.len() && (#[trigger] b.plan.fields[i].finalizer)
                is FailIfAbsent && b.slots[i] is Vacant),
        spec_first_missing(b) matches Some(m) ==> (0 <= m < b.plan.fields.len()
            && b.plan.fields[m].finalizer is FailIfAbsent && b.slots[m] is Vacant
            && (forall|j: int|
                0 <= j < m ==> !((#[trigger] b.plan.fields[j].finalizer) is FailIfAbsent
                    && b.slots[j] is Vacant))),
{
    lemma_first_missing_facts(b.plan.fields, b.slots, 0);
    if spec_first_missing(b) is None {
        lemma_no_missing_from(b.plan.fields, b.slots, 0);
    }
}

/// Setting a required field with any value, a default-like one included,
/// takes it out of the missing set: finalize no longer fails on its account.
pub proof fn law_set_required_succeeds<V>(b: BuilderV<V>, name: Seq<char>, v: V, i: int)
    requires
        builder_wf(b),
        find_single(b.plan.fields, name) == Some((i, SetterKind::Replace)),
    ensures
        spec_set_one(b, name, v).slots[i] is Scalar,
        spec_first_missing(spec_set_one(b, name, v)) != Some(i),
{
    lemma_find_single_facts(b.plan.fields, name, 0);
    let b2 = spec_set_one(b, name, v);
    lemma_first_missing_facts(b2.plan.fields, b2.slots, 0);
}

/// Alias collision suppression: when the accumulating alias equals the
/// field's own name, the plan holds exactly one setter, named after the
/// field, with accumulating semantics; no bulk-replace setter exists under
/// any name.
pub proof fn law_alias_collision_suppression(
    name: Seq<char>,
    t: TypeRefV,
    d: EachDirectiveV,
)
    requires
        d.alias == name,
    ensures
        ({
            let p = spec_synthesize(name, FieldShapeV::Repeated(t), Some(d));
            &&& p.setters.len() == 1
            &&& p.setters[0].name == name
            &&& p.setters[0].kind is Append
            &&& forall|x: Seq<char>| !field_has_bulk(p, x)
        }),
{
    let p = spec_synthesize(name, FieldShapeV::Repeated(t), Some(d));
    assert forall|x: Seq<char>| !field_has_bulk(p, x) by {
        assert(bulk_from(p, x, 1) == false);
    }
}

/// Every malformed field's diagnostic is reported: a field whose pipeline
/// fails contributes its diagnostic to the record's collected list.
pub proof fn law_diagnostic_reported(fields: Seq<FieldSchemaV>, i: int)
    requires
        0 <= i < fields.len(),
        spec_field_plan(fields[i]) is Err,
    ensures
        spec_field_diags(fields).contains(spec_field_plan(fields[i])->Err_0),
        spec_field_diags(fields).len() >= 1,
    decreases fields,
{
    let d = spec_field_plan(fields[i])->Err_0;
    if i == fields.len() - 1 {
        let prefix = spec_field_diags(fields.drop_last());
        assert(spec_field_diags(fields)[prefix.len() as int] == d);
    } else {
        law_diagnostic_reported(fields.drop_last(), i);
        let prefix = spec_field_diags(fields.drop_last());
        let k = choose|k: int| 0 <= k < prefix.len() && prefix[k] == d;
        assert(spec_field_diags(fields)[k] == d);
    }
}

/// Diagnostic completeness: two independently malformed fields both have
/// their diagnostics reported, in declaration order — never only the first.
pub proof fn law_diagnostic_completeness(fields: Seq<FieldSchemaV>, i: int, j: int)
    requires
        0 <= i < j < fields.len(),
        spec_field_plan(fields[i]) is Err,
        spec_field_plan(fields[j]) is Err,
    ensures
        ({
            let ds = spec_field_diags(fields);
            exists|k: int, l: int|
                0 <= k < l < ds.len() && ds[k] == spec_field_plan(fields[i])->Err_0 && ds[l]
                    == spec_field_plan(fields[j])->Err_0
        }),
    decreases fields,
{
    let ds = spec_field_diags(fields);
    let di = spec_field_plan(fields[i])->Err_0;
    let dj = spec_field_plan(fields[j])->Err_0;
    let prefix = spec_field_diags(fields.drop_last());
    if j == fields.len() - 1 {
        law_diagnostic_reported(fields.drop_last(), i);
        let k = choose|k: int| 0 <= k < prefix.len() && prefix[k] == di;
        assert(ds[k] == di);
        assert(ds[prefix.len() as int] == dj);
    } else {
        law_diagnostic_completeness(fields.drop_last(), i, j);
        let (k, l) = choose|k: int, l: int|
            0 <= k < l < prefix.len() && prefix[k] == di && prefix[l] == dj;
        assert(ds[k] == di);
        assert(ds[l] == dj);
    }
}

/// The unit of failure is the whole record: generation fails exactly when
/// some field's pipeline failed, and then the collected diagnostics are
/// handed out unmodified.
pub proof fn law_generate_err_iff_diags(s: RecordSchemaV)
    ensures
        spec_generate(s) is Err <==> spec_field_diags(s.fields).len() > 0,
        spec_generate(s) matches Err(ds) ==> ds == spec_field_diags(s.fields),
{
}

/// Every plan that generation hands out is coherent, so a builder started on
/// it is well-formed.
pub proof fn law_generate_plan_wf(s: RecordSchemaV)
    ensures
        spec_generate(s) matches Ok(p) ==> plan_wf(p.fields),
{
    crate::builder::lemma_field_plans_wf(s.fields);
}

} // verus!
