//! Runtime model of a synthesized builder: one storage slot per field,
//! setter dispatch by name, and a finalize operation that either assembles
//! every field's value or reports the first missing required field.

use vstd::prelude::*;

use crate::annotations::EachDirectiveV;
use crate::classify::FieldShapeV;
use crate::plan::BuilderFieldPlan;
use crate::plan::BuilderFieldPlanV;
use crate::plan::BuilderPlan;
use crate::plan::BuilderPlanV;
use crate::plan::Finalizer;
use crate::plan::SetterKind;
use crate::plan::StorageKind;
use crate::plan::spec_field_plan;
use crate::plan::spec_field_plans;
use crate::plan::spec_synthesize;
use crate::schema::FieldSchemaV;
use crate::schema::string_eq_str;

verus! {

/// One storage slot of a running builder, over the element value type `V`.
pub enum Slot<V> {
    /// Nothing was stored yet.
    Vacant,
    /// A single value: a required field that was set, or an optional field
    /// whose value is present.
    Scalar(V),
    /// The collection accumulated or installed for a repeated field.
    List(Vec<V>),
}

/// Model of a `Slot`.
pub enum SlotV<V> {
    Vacant,
    Scalar(V),
    List(Seq<V>),
}

impl<V> View for Slot<V> {
    type V = SlotV<V>;

    open spec fn view(&self) -> SlotV<V> {
        match self {
            Slot::Vacant => SlotV::Vacant,
            Slot::Scalar(v) => SlotV::Scalar(*v),
            Slot::List(vs) => SlotV::List(vs@),
        }
    }
}

/// One field of the finished record, as finalize hands it out.
pub enum FieldValue<V> {
    /// A required field's value.
    Scalar(V),
    /// An optional field's value, verbatim from the slot.
    Opt(Option<V>),
    /// A repeated field's collection, empty when never set.
    List(Vec<V>),
}

/// Model of a `FieldValue`.
pub enum FieldValueV<V> {
    Scalar(V),
    Opt(Option<V>),
    List(Seq<V>),
}

impl<V> View for FieldValue<V> {
    type V = FieldValueV<V>;

    open spec fn view(&self) -> FieldValueV<V> {
        match self {
            FieldValue::Scalar(v) => FieldValueV::Scalar(*v),
            FieldValue::Opt(o) => FieldValueV::Opt(*o),
            FieldValue::List(vs) => FieldValueV::List(vs@),
        }
    }
}

/// A construction-time failure: a required field was never set. Recoverable:
/// the builder is left unchanged, so the caller may supply the field and
/// finalize again.
pub enum BuildError {
    MissingField(String),
}

/// Model of a `BuildError`.
pub enum BuildErrorV {
    MissingField(Seq<char>),
}

impl View for BuildError {
    type V = BuildErrorV;

    open spec fn view(&self) -> BuildErrorV {
        match self {
            BuildError::MissingField(n) => BuildErrorV::MissingField(n@),
        }
    }
}

/// A running builder: the plan it interprets and one slot per planned field.
pub struct Builder<V> {
    pub plan: BuilderPlan,
    pub slots: Vec<Slot<V>>,
}

/// Model of a `Builder`.
pub struct BuilderV<V> {
    pub plan: BuilderPlanV,
    pub slots: Seq<SlotV<V>>,
}

impl<V> View for Builder<V> {
    type V = BuilderV<V>;

    open spec fn view(&self) -> BuilderV<V> {
        BuilderV { plan: self.plan@, slots: self.slots@.map_values(|s: Slot<V>| s@) }
    }
}

/// The field's storage is the repeated-collection kind.
pub open spec fn storage_is_list(p: BuilderFieldPlanV) -> bool {
    p.storage is AbsentOrList
}

/// The slot holds what the field's storage kind allows.
pub open spec fn slot_compatible<V>(p: BuilderFieldPlanV, s: SlotV<V>) -> bool {
    if storage_is_list(p) {
        s is Vacant || s is List
    } else {
        s is Vacant || s is Scalar
    }
}

/// A field plan is internally coherent: the finalizer matches the storage
/// kind, and accumulating setters stand only on repeated storage.
pub open spec fn plan_field_wf(p: BuilderFieldPlanV) -> bool {
    &&& (p.finalizer is FailIfAbsent <==> p.storage is AbsentOrScalar)
    &&& (p.finalizer is PassThrough <==> p.storage is OptionDirect)
    &&& (p.finalizer is EmptyIfAbsent <==> p.storage is AbsentOrList)
    &&& forall|j: int|
        0 <= j < p.setters.len() ==> ((#[trigger] p.setters[j].kind) is Append
            ==> storage_is_list(p))
}

/// Every field plan of the sequence is coherent.
pub open spec fn plan_wf(fields: Seq<BuilderFieldPlanV>) -> bool {
    forall|i: int| 0 <= i < fields.len() ==> plan_field_wf(#[trigger] fields[i])
}

/// Builder well-formedness: one slot per field, a coherent plan, and each
/// slot compatible with its field's storage kind. Established by `start`,
/// preserved by every operation.
pub open spec fn builder_wf<V>(b: BuilderV<V>) -> bool {
    &&& b.slots.len() == b.plan.fields.len()
    &&& plan_wf(b.plan.fields)
    &&& forall|i: int|
        0 <= i < b.slots.len() ==> slot_compatible(#[trigger] b.plan.fields[i], b.slots[i])
}

/// Everything `synthesize` returns is a coherent field plan.
pub proof fn lemma_synthesize_wf(
    name: Seq<char>,
    shape: FieldShapeV,
    each: Option<EachDirectiveV>,
)
    ensures
        plan_field_wf(spec_synthesize(name, shape, each)),
{
}

/// Every plan sequence produced by the generation pipeline is coherent.
pub proof fn lemma_field_plans_wf(fields: Seq<FieldSchemaV>)
    ensures
        plan_wf(spec_field_plans(fields)),
    decreases fields,
{
    if fields.len() > 0 {
        lemma_field_plans_wf(fields.drop_last());
        match spec_field_plan(fields.last()) {
            Ok(p) => {
                assert(plan_field_wf(p)) by {
                    match crate::annotations::spec_parse_each(fields.last().annotations) {
                        Ok(each) => {
                            lemma_synthesize_wf(
                                fields.last().name,
                                crate::classify::spec_classify(fields.last().ty),
                                each,
                            );
                        },
                        Err(_) => {},
                    }
                }
            },
            Err(_) => {},
        }
    }
}

/// The setter takes one element value: an accumulating setter always does, a
/// replacing setter does when the storage holds a single value.
pub open spec fn setter_accepts_single(p: BuilderFieldPlanV, j: int) -> bool {
    p.setters[j].kind is Append || !storage_is_list(p)
}

/// The setter takes the whole collection: a replacing setter on repeated
/// storage.
pub open spec fn setter_accepts_bulk(p: BuilderFieldPlanV, j: int) -> bool {
    p.setters[j].kind is Replace && storage_is_list(p)
}

pub open spec fn single_kind_from(p: BuilderFieldPlanV, name: Seq<char>, j: int) -> Option<
    SetterKind,
>
    decreases p.setters.len() - j,
{
    if j < 0 || j >= p.setters.len() {
        None
    } else if p.setters[j].name == name && setter_accepts_single(p, j) {
        Some(p.setters[j].kind)
    } else {
        single_kind_from(p, name, j + 1)
    }
}

/// The kind of the first setter of this field that is named `name` and takes
/// one element value, if any.
pub open spec fn field_single_kind(p: BuilderFieldPlanV, name: Seq<char>) -> Option<SetterKind> {
    single_kind_from(p, name, 0)
}

pub open spec fn find_single_from(
    fields: Seq<BuilderFieldPlanV>,
    name: Seq<char>,
    i: int,
) -> Option<(int, SetterKind)>
    decreases fields.len() - i,
{
    if i < 0 || i >= fields.len() {
        None
    } else {
        match field_single_kind(fields[i], name) {
            Some(k) => Some((i, k)),
            None => find_single_from(fields, name, i + 1),
        }
    }
}

/// The first field, in declaration order, with a single-value setter named
/// `name`, together with that setter's kind.
pub open spec fn find_single(fields: Seq<BuilderFieldPlanV>, name: Seq<char>) -> Option<
    (int, SetterKind),
> {
    find_single_from(fields, name, 0)
}

pub open spec fn bulk_from(p: BuilderFieldPlanV, name: Seq<char>, j: int) -> bool
    decreases p.setters.len() - j,
{
    if j < 0 || j >= p.setters.len() {
        false
    } else if p.setters[j].name == name && setter_accepts_bulk(p, j) {
        true
    } else {
        bulk_from(p, name, j + 1)
    }
}

/// This field has a bulk-replace setter named `name`.
pub open spec fn field_has_bulk(p: BuilderFieldPlanV, name: Seq<char>) -> bool {
    bulk_from(p, name, 0)
}

pub open spec fn find_bulk_from(
    fields: Seq<BuilderFieldPlanV>,
    name: Seq<char>,
    i: int,
) -> Option<int>
    decreases fields.len() - i,
{
    if i < 0 || i >= fields.len() {
        None
    } else if field_has_bulk(fields[i], name) {
        Some(i)
    } else {
        find_bulk_from(fields, name, i + 1)
    }
}

/// The first field, in declaration order, with a bulk-replace setter named
/// `name`.
pub open spec fn find_bulk(fields: Seq<BuilderFieldPlanV>, name: Seq<char>) -> Option<int> {
    find_bulk_from(fields, name, 0)
}

/// What one single-value setter call does to the targeted slot: a replacing
/// setter installs the value; an accumulating setter appends it, starting a
/// one-element collection when the slot was absent.
pub open spec fn apply_single<V>(slot: SlotV<V>, kind: SetterKind, v: V) -> SlotV<V> {
    match kind {
        SetterKind::Replace => SlotV::Scalar(v),
        SetterKind::Append => match slot {
            SlotV::List(xs) => SlotV::List(xs.push(v)),
            _ => SlotV::List(seq![v]),
        },
    }
}

/// What a single-value setter call named `name` does to the whole builder:
/// nothing when no setter matches, else the matched slot is transformed.
pub open spec fn spec_set_one<V>(b: BuilderV<V>, name: Seq<char>, v: V) -> BuilderV<V> {
    match find_single(b.plan.fields, name) {
        None => b,
        Some((i, k)) => BuilderV {
            plan: b.plan,
            slots: b.slots.update(i, apply_single(b.slots[i], k, v)),
        },
    }
}

/// What a bulk setter call named `name` does to the whole builder: nothing
/// when no setter matches, else the matched slot is overwritten with the
/// collection, whatever it held before.
pub open spec fn spec_set_all<V>(b: BuilderV<V>, name: Seq<char>, vs: Seq<V>) -> BuilderV<V> {
    match find_bulk(b.plan.fields, name) {
        None => b,
        Some(i) => BuilderV { plan: b.plan, slots: b.slots.update(i, SlotV::List(vs)) },
    }
}

pub open spec fn first_missing_from<V>(
    fields: Seq<BuilderFieldPlanV>,
    slots: Seq<SlotV<V>>,
    i: int,
) -> Option<int>
    decreases fields.len() - i,
{
    if i < 0 || i >= fields.len() {
        None
    } else if fields[i].finalizer is FailIfAbsent && slots[i] is Vacant {
        Some(i)
    } else {
        first_missing_from(fields, slots, i + 1)
    }
}

/// The first field, in declaration order, whose finalizer fails on an absent
/// slot and whose slot is absent; finalize fails exactly on this field.
pub open spec fn spec_first_missing<V>(b: BuilderV<V>) -> Option<int> {
    first_missing_from(b.plan.fields, b.slots, 0)
}

/// The value finalize reads out of one slot. The fail-if-absent arm is
/// meaningful only when the slot holds a value; finalize reads it only then.
pub open spec fn spec_field_value<V>(p: BuilderFieldPlanV, s: SlotV<V>) -> FieldValueV<V> {
    match p.finalizer {
        Finalizer::FailIfAbsent => match s {
            SlotV::Scalar(v) => FieldValueV::Scalar(v),
            _ => FieldValueV::Opt(None),
        },
        Finalizer::PassThrough => match s {
            SlotV::Scalar(v) => FieldValueV::Opt(Some(v)),
            _ => FieldValueV::Opt(None),
        },
        Finalizer::EmptyIfAbsent => match s {
            SlotV::List(xs) => FieldValueV::List(xs),
            _ => FieldValueV::List(Seq::empty()),
        },
    }
}

/// The record finalize assembles when no required field is missing, one
/// value per field in declaration order.
pub open spec fn spec_finalize_values<V>(b: BuilderV<V>) -> Seq<FieldValueV<V>> {
    Seq::new(b.plan.fields.len(), |i: int| spec_field_value(b.plan.fields[i], b.slots[i]))
}

/// A found single-value setter constrains the storage kind: a replacing one
/// stands on scalar storage, an accumulating one (in a coherent plan) on
/// repeated storage.
pub proof fn lemma_single_kind_storage(p: BuilderFieldPlanV, name: Seq<char>, j: int)
    ensures
        single_kind_from(p, name, j) matches Some(k) ==> ((k is Replace ==> !storage_is_list(p))
            && (plan_field_wf(p) ==> (k is Append ==> storage_is_list(p)))),
    decreases p.setters.len() - j,
{
    if 0 <= j < p.setters.len() {
        if !(p.setters[j].name == name && setter_accepts_single(p, j)) {
            lemma_single_kind_storage(p, name, j + 1);
        }
    }
}

/// A found bulk setter stands on repeated storage.
pub proof fn lemma_bulk_storage(p: BuilderFieldPlanV, name: Seq<char>, j: int)
    ensures
        bulk_from(p, name, j) ==> storage_is_list(p),
    decreases p.setters.len() - j,
{
    if 0 <= j < p.setters.len() {
        if !(p.setters[j].name == name && setter_accepts_bulk(p, j)) {
            lemma_bulk_storage(p, name, j + 1);
        }
    }
}

/// A found single-value setter target lies in range and matches at the field
/// level.
pub proof fn lemma_find_single_facts(fields: Seq<BuilderFieldPlanV>, name: Seq<char>, i: int)
    ensures
        find_single_from(fields, name, i) matches Some((m, k)) ==> (i <= m < fields.len()
            && field_single_kind(fields[m], name) == Some(k)),
    decreases fields.len() - i,
{
    if 0 <= i < fields.len() {
        if field_single_kind(fields[i], name) is None {
            lemma_find_single_facts(fields, name, i + 1);
        }
    }
}

/// A found bulk setter target lies in range and matches at the field level.
pub proof fn lemma_find_bulk_facts(fields: Seq<BuilderFieldPlanV>, name: Seq<char>, i: int)
    ensures
        find_bulk_from(fields, name, i) matches Some(m) ==> (i <= m < fields.len()
            && field_has_bulk(fields[m], name)),
    decreases fields.len() - i,
{
    if 0 <= i < fields.len() {
        if !field_has_bulk(fields[i], name) {
            lemma_find_bulk_facts(fields, name, i + 1);
        }
    }
}

/// When nothing is missing from `i` on, no later field is a missing required
/// one.
pub proof fn lemma_no_missing_from<V>(
    fields: Seq<BuilderFieldPlanV>,
    slots: Seq<SlotV<V>>,
    i: int,
)
    requires
        0 <= i,
        first_missing_from(fields, slots, i) is None,
    ensures
        forall|j: int|
            i <= j < fields.len() ==> !((#[trigger] fields[j].finalizer) is FailIfAbsent
                && slots[j] is Vacant),
    decreases fields.len() - i,
{
    if 0 <= i < fields.len() {
        lemma_no_missing_from(fields, slots, i + 1);
    }
}

/// The reported missing field is a missing required field, and the first.
pub proof fn lemma_first_missing_facts<V>(
    fields: Seq<BuilderFieldPlanV>,
    slots: Seq<SlotV<V>>,
    i: int,
)
    ensures
        first_missing_from(fields, slots, i) matches Some(m) ==> (i <= m < fields.len()
            && fields[m].finalizer is FailIfAbsent && slots[m] is Vacant && (forall|j: int|
            i <= j < m ==> !((#[trigger] fields[j].finalizer) is FailIfAbsent
                && slots[j] is Vacant))),
    decreases fields.len() - i,
{
    if 0 <= i < fields.len() {
        lemma_first_missing_facts(fields, slots, i + 1);
    }
}

fn setter_kind_is_append(k: &SetterKind) -> (r: bool)
    ensures
        r == (*k is Append),
{
    match k {
        SetterKind::Append => true,
        SetterKind::Replace => false,
    }
}

fn storage_kind_is_list(s: &StorageKind) -> (r: bool)
    ensures
        r == (s@ is AbsentOrList),
{
    match s {
        StorageKind::AbsentOrList(_) => true,
        _ => false,
    }
}

/// Looks this field's setters up for the first single-value setter named
/// `name`.
fn field_single_setter(p: &BuilderFieldPlan, name: &str) -> (r: Option<SetterKind>)
    ensures
        r == field_single_kind(p@, name@),
{
    let is_list = storage_kind_is_list(&p.storage);
    let mut j: usize = 0;
    while j < p.setters.len()
        invariant
            j <= p.setters.len(),
            is_list == storage_is_list(p@),
            field_single_kind(p@, name@) == single_kind_from(p@, name@, j as int),
        decreases p.setters.len() - j,
    {
        let s = &p.setters[j];
        let accepts = setter_kind_is_append(&s.kind) || !is_list;
        if accepts && string_eq_str(&s.name, name) {
            return Some(s.kind);
        }
        j += 1;
    }
    None
}

/// Looks this field's setters up for a bulk-replace setter named `name`.
fn field_bulk_setter(p: &BuilderFieldPlan, name: &str) -> (r: bool)
    ensures
        r == field_has_bulk(p@, name@),
{
    let is_list = storage_kind_is_list(&p.storage);
    let mut j: usize = 0;
    while j < p.setters.len()
        invariant
            j <= p.setters.len(),
            is_list == storage_is_list(p@),
            field_has_bulk(p@, name@) == bulk_from(p@, name@, j as int),
        decreases p.setters.len() - j,
    {
        let s = &p.setters[j];
        let accepts = !setter_kind_is_append(&s.kind) && is_list;
        if accepts && string_eq_str(&s.name, name) {
            return true;
        }
        j += 1;
    }
    false
}

/// Finds the field targeted by a single-value setter call named `name`.
fn find_single_setter(fields: &Vec<BuilderFieldPlan>, name: &str) -> (r: Option<
    (usize, SetterKind),
>)
    ensures
        ({
            let fv = fields@.map_values(|f: BuilderFieldPlan| f@);
            match r {
                None => find_single(fv, name@) is None,
                Some((i, k)) => i < fields@.len() && find_single(fv, name@) == Some((i as int, k)),
            }
        }),
{
    let ghost fv = fields@.map_values(|f: BuilderFieldPlan| f@);
    let mut i: usize = 0;
    while i < fields.len()
        invariant
            i <= fields.len(),
            fv == fields@.map_values(|f: BuilderFieldPlan| f@),
            find_single(fv, name@) == find_single_from(fv, name@, i as int),
        decreases fields.len() - i,
    {
        match field_single_setter(&fields[i], name) {
            Some(k) => {
                return Some((i, k));
            },
            None => {},
        }
        i += 1;
    }
    None
}

/// Finds the field targeted by a bulk setter call named `name`.
fn find_bulk_setter(fields: &Vec<BuilderFieldPlan>, name: &str) -> (r: Option<usize>)
    ensures
        ({
            let fv = fields@.map_values(|f: BuilderFieldPlan| f@);
            match r {
                None => find_bulk(fv, name@) is None,
                Some(i) => i < fields@.len() && find_bulk(fv, name@) == Some(i as int),
            }
        }),
{
    let ghost fv = fields@.map_values(|f: BuilderFieldPlan| f@);
    let mut i: usize = 0;
    while i < fields.len()
        invariant
            i <= fields.len(),
            fv == fields@.map_values(|f: BuilderFieldPlan| f@),
            find_bulk(fv, name@) == find_bulk_from(fv, name@, i as int),
        decreases fields.len() - i,
    {
        if field_bulk_setter(&fields[i], name) {
            return Some(i);
        }
        i += 1;
    }
    None
}

impl<V> Builder<V> {
    /// Builder well-formedness, as callers state it.
    pub open spec fn wf(&self) -> bool {
        builder_wf(self@)
    }

    /// Creates the builder for `plan`: every slot starts absent.
    pub fn start(plan: BuilderPlan) -> (b: Builder<V>)
        ensures
            b@.plan == plan@,
            b@.slots.len() == plan@.fields.len(),
            forall|i: int| 0 <= i < b@.slots.len() ==> b@.slots[i] is Vacant,
            plan_wf(plan@.fields) ==> b.wf(),
    {
        let n = plan.fields.len();
        let mut slots: Vec<Slot<V>> = Vec::new();
        let mut i: usize = 0;
        while i < n
            invariant
                i <= n,
                slots@.len() == i as int,
                forall|j: int| 0 <= j < i as int ==> slots@[j] is Vacant,
            decreases n - i,
        {
            slots.push(Slot::Vacant);
            i += 1;
        }
        Builder { plan, slots }
    }

    /// Calls the single-value setter named `name` with `value`. When a setter
    /// of that name and arity exists, the first one in plan order acts on its
    /// field's slot and nothing is returned; otherwise the builder is
    /// unchanged and the value is handed back.
    pub fn set_one(&mut self, name: &str, value: V) -> (rejected: Option<V>)
        requires
            old(self).wf(),
        ensures
            final(self).wf(),
            final(self)@ == spec_set_one(old(self)@, name@, value),
            rejected == (if find_single(old(self)@.plan.fields, name@) is Some {
                Option::<V>::None
            } else {
                Some(value)
            }),
    {
        let ghost v0 = value;
        match find_single_setter(&self.plan.fields, name) {
            None => Some(value),
            Some((i, kind)) => {
                proof {
                    lemma_find_single_facts(old(self)@.plan.fields, name@, 0);
                    lemma_single_kind_storage(old(self)@.plan.fields[i as int], name@, 0);
                }
                let slot = self.slots.remove(i);
                let new_slot = match kind {
                    SetterKind::Replace => Slot::Scalar(value),
                    SetterKind::Append => match slot {
                        Slot::List(mut xs) => {
                            xs.push(value);
                            Slot::List(xs)
                        },
                        _ => {
                            let mut xs: Vec<V> = Vec::new();
                            xs.push(value);
                            Slot::List(xs)
                        },
                    },
                };
                let ghost ns = new_slot@;
                self.slots.insert(i, new_slot);
                proof {
                    assert(ns == apply_single(old(self)@.slots[i as int], kind, v0));
                    assert(self@.slots =~= old(self)@.slots.update(i as int, ns));
                }
                None
            },
        }
    }

    /// Calls the bulk-replace setter named `name` with the whole collection.
    /// When a setter of that name and arity exists, the first one in plan
    /// order overwrites its field's slot, whatever was accumulated before;
    /// otherwise the builder is unchanged and the collection is handed back.
    pub fn set_all(&mut self, name: &str, values: Vec<V>) -> (rejected: Option<Vec<V>>)
        requires
            old(self).wf(),
        ensures
            final(self).wf(),
            final(self)@ == spec_set_all(old(self)@, name@, values@),
            (rejected matches Some(vs) ==> vs == values),
            (rejected is None <==> find_bulk(old(self)@.plan.fields, name@) is Some),
    {
        let ghost vs0 = values@;
        match find_bulk_setter(&self.plan.fields, name) {
            None => Some(values),
            Some(i) => {
                proof {
                    lemma_find_bulk_facts(old(self)@.plan.fields, name@, 0);
                    lemma_bulk_storage(old(self)@.plan.fields[i as int], name@, 0);
                }
                let _ = self.slots.remove(i);
                self.slots.insert(i, Slot::List(values));
                proof {
                    assert(self@.slots =~= old(self)@.slots.update(i as int, SlotV::List(vs0)));
                }
                None
            },
        }
    }

    /// Converts the builder's state into the record's field values, in
    /// declaration order, or fails with the first missing required field, in
    /// which case the builder is left unchanged so that the caller may set
    /// the field and finalize again. On success every slot is reset to
    /// absent.
    pub fn finalize(&mut self) -> (r: Result<Vec<FieldValue<V>>, BuildError>)
        requires
            old(self).wf(),
        ensures
            final(self).wf(),
            final(self)@.plan == old(self)@.plan,
            (match spec_first_missing(old(self)@) {
                Some(m) => r matches Err(e) && e@ == BuildErrorV::MissingField(
                    old(self)@.plan.fields[m].field_name,
                ) && final(self)@ == old(self)@,
                None => r matches Ok(vs) && vs@.map_values(|fv: FieldValue<V>| fv@)
                    == spec_finalize_values(old(self)@) && (forall|i: int|
                    0 <= i < final(self)@.slots.len() ==> final(self)@.slots[i] is Vacant),
            }),
    {
        let ghost bv = old(self)@;
        let n = self.plan.fields.len();
        let mut i: usize = 0;
        while i < n
            invariant
                i <= n,
                n == self.plan.fields@.len(),
                *self == *old(self),
                self.wf(),
                bv == old(self)@,
                spec_first_missing(bv) == first_missing_from(bv.plan.fields, bv.slots, i as int),
            decreases n - i,
        {
            let required = match self.plan.fields[i].finalizer {
                Finalizer::FailIfAbsent => true,
                _ => false,
            };
            let vacant = match &self.slots[i] {
                Slot::Vacant => true,
                _ => false,
            };
            if required && vacant {
                return Err(BuildError::MissingField(self.plan.fields[i].field_name.clone()));
            }
            i += 1;
        }
        proof {
            lemma_no_missing_from(bv.plan.fields, bv.slots, 0);
        }
        let mut out: Vec<FieldValue<V>> = Vec::new();
        let mut i: usize = 0;
        while i < n
            invariant
                i <= n,
                n == self.plan.fields@.len(),
                n == self.slots@.len(),
                self.plan == old(self).plan,
                bv == old(self)@,
                builder_wf(bv),
                spec_first_missing(bv) is None,
                out@.len() == i as int,
                forall|j: int| 0 <= j < i as int ==> self.slots@[j]@ is Vacant,
                forall|j: int| i as int <= j < n ==> self.slots@[j] == old(self).slots@[j],
                forall|j: int|
                    0 <= j < i as int ==> (#[trigger] out@[j])@ == spec_field_value(
                        bv.plan.fields[j],
                        bv.slots[j],
                    ),
            decreases n - i,
        {
            proof {
                lemma_no_missing_from(bv.plan.fields, bv.slots, 0);
                assert(bv.slots[i as int] == self.slots@[i as int]@);
            }
            let ghost prev = self.slots@;
            let f = self.plan.fields[i].finalizer;
            proof {
                assert(f == bv.plan.fields[i as int].finalizer);
            }
            let slot = self.slots.remove(i);
            let ghost slot_v = slot@;
            self.slots.insert(i, Slot::Vacant);
            proof {
                assert(self.slots@ =~= prev.update(i as int, Slot::Vacant));
                assert(slot_v == bv.slots[i as int]);
            }
            let fv = match f {
                Finalizer::FailIfAbsent => match slot {
                    Slot::Scalar(v) => FieldValue::Scalar(v),
                    _ => {
                        proof {
                            assert(plan_field_wf(bv.plan.fields[i as int]));
                            assert(slot_compatible(bv.plan.fields[i as int], bv.slots[i as int]));
                            assert(!(bv.plan.fields[i as int].finalizer is FailIfAbsent
                                && bv.slots[i as int] is Vacant));
                            assert(false);
                        }
                        FieldValue::Opt(None)
                    },
                },
                Finalizer::PassThrough => match slot {
                    Slot::Scalar(v) => FieldValue::Opt(Some(v)),
                    _ => FieldValue::Opt(None),
                },
                Finalizer::EmptyIfAbsent => match slot {
                    Slot::List(xs) => FieldValue::List(xs),
                    _ => FieldValue::List(Vec::new()),
                },
            };
            out.push(fv);
            i += 1;
        }
        proof {
            assert(out@.map_values(|fv: FieldValue<V>| fv@) =~= spec_finalize_values(bv));
            assert(forall|j: int|
                0 <= j < self@.slots.len() ==> (#[trigger] self@.slots[j]) is Vacant);
        }
        Ok(out)
    }
}

} // verus!
