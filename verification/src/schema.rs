//! Input side of the engine: source spans, type references, annotations and
//! field schemas, together with their mathematical models.

use vstd::prelude::*;

verus! {

/// A source location, carried by annotations and diagnostics so that a
/// schema error can be attributed to the offending declaration.
#[derive(Clone, Copy, PartialEq, Eq, Structural, Debug)]
pub struct Span {
    pub lo: u64,
    pub hi: u64,
}

/// A syntactic reference to a declared type: a head identifier plus the
/// generic arguments it is applied to (empty for a plain type). Type aliases
/// are deliberately not resolved: classification sees only this shape.
pub struct TypeRef {
    pub name: String,
    pub args: Vec<TypeRef>,
}

/// Mathematical model of a `TypeRef`.
pub struct TypeRefV {
    pub name: Seq<char>,
    pub args: Seq<TypeRefV>,
}

pub open spec fn type_ref_view(t: TypeRef) -> TypeRefV
    decreases t,
{
    TypeRefV { name: t.name@, args: type_ref_seq_view(t.args@) }
}

pub open spec fn type_ref_seq_view(ts: Seq<TypeRef>) -> Seq<TypeRefV>
    decreases ts,
{
    if ts.len() == 0 {
        Seq::empty()
    } else {
        seq![type_ref_view(ts[0])] + type_ref_seq_view(ts.drop_first())
    }
}

impl View for TypeRef {
    type V = TypeRefV;

    open spec fn view(&self) -> TypeRefV {
        type_ref_view(*self)
    }
}

pub proof fn lemma_type_ref_seq_view(ts: Seq<TypeRef>)
    ensures
        type_ref_seq_view(ts).len() == ts.len(),
        forall|i: int|
            0 <= i < ts.len() ==> type_ref_seq_view(ts)[i] == type_ref_view(ts[i]),
    decreases ts,
{
    if ts.len() > 0 {
        lemma_type_ref_seq_view(ts.drop_first());
    }
}

/// Clones a type reference; the copy has the same model.
pub fn type_ref_clone(t: &TypeRef) -> (r: TypeRef)
    ensures
        r@ == t@,
    decreases *t,
{
    let mut args: Vec<TypeRef> = Vec::new();
    let mut i: usize = 0;
    while i < t.args.len()
        invariant
            i <= t.args.len(),
            args@.len() == i as int,
            forall|j: int| 0 <= j < i as int ==> args@[j]@ == t.args@[j]@,
        decreases t.args.len() - i,
    {
        let a = type_ref_clone(&t.args[i]);
        args.push(a);
        i += 1;
    }
    let r = TypeRef { name: t.name.clone(), args };
    proof {
        lemma_type_ref_seq_view(r.args@);
        lemma_type_ref_seq_view(t.args@);
        assert(type_ref_seq_view(r.args@) =~= type_ref_seq_view(t.args@));
    }
    r
}

impl Clone for TypeRef {
    fn clone(&self) -> (r: Self)
        ensures
            r@ == self@,
    {
        type_ref_clone(self)
    }
}

/// The value part of a key/value annotation payload: either a quoted string
/// literal or some other expression form.
pub enum PayloadValue {
    Str(String),
    NonStr,
}

/// Model of a `PayloadValue`.
pub enum PayloadValueV {
    Str(Seq<char>),
    NonStr,
}

impl View for PayloadValue {
    type V = PayloadValueV;

    open spec fn view(&self) -> PayloadValueV {
        match self {
            PayloadValue::Str(s) => PayloadValueV::Str(s@),
            PayloadValue::NonStr => PayloadValueV::NonStr,
        }
    }
}

/// The payload of an annotation, parsed eagerly into a closed grammar:
/// either a single `key = value` pair, or any other shape (no pair,
/// several pairs, ...).
pub enum Payload {
    Pair { key: String, value: PayloadValue },
    Other,
}

/// Model of a `Payload`.
pub enum PayloadV {
    Pair { key: Seq<char>, value: PayloadValueV },
    Other,
}

impl View for Payload {
    type V = PayloadV;

    open spec fn view(&self) -> PayloadV {
        match self {
            Payload::Pair { key, value } => PayloadV::Pair { key: key@, value: value@ },
            Payload::Other => PayloadV::Other,
        }
    }
}

/// One raw customization directive attached to a field: the annotation group
/// it stands under, its payload, and its source span.
pub struct Annotation {
    pub group: String,
    pub payload: Payload,
    pub span: Span,
}

/// Model of an `Annotation`.
pub struct AnnotationV {
    pub group: Seq<char>,
    pub payload: PayloadV,
    pub span: Span,
}

impl View for Annotation {
    type V = AnnotationV;

    open spec fn view(&self) -> AnnotationV {
        AnnotationV { group: self.group@, payload: self.payload@, span: self.span }
    }
}

/// One record field as handed over by the declaration source: its name, its
/// declared type, and its annotations in declaration order.
pub struct FieldSchema {
    pub name: String,
    pub ty: TypeRef,
    pub annotations: Vec<Annotation>,
}

/// Model of a `FieldSchema`.
pub struct FieldSchemaV {
    pub name: Seq<char>,
    pub ty: TypeRefV,
    pub annotations: Seq<AnnotationV>,
}

impl View for FieldSchema {
    type V = FieldSchemaV;

    open spec fn view(&self) -> FieldSchemaV {
        FieldSchemaV {
            name: self.name@,
            ty: self.ty@,
            annotations: self.annotations@.map_values(|a: Annotation| a@),
        }
    }
}

/// A whole record declaration: the record's name and its ordered fields.
/// Field names are guaranteed unique and syntactically valid by the
/// declaration source and are not re-validated here.
pub struct RecordSchema {
    pub name: String,
    pub fields: Vec<FieldSchema>,
}

/// Model of a `RecordSchema`.
pub struct RecordSchemaV {
    pub name: Seq<char>,
    pub fields: Seq<FieldSchemaV>,
}

impl View for RecordSchema {
    type V = RecordSchemaV;

    open spec fn view(&self) -> RecordSchemaV {
        RecordSchemaV {
            name: self.name@,
            fields: self.fields@.map_values(|f: FieldSchema| f@),
        }
    }
}

/// `c` may start an identifier: an underscore or an ASCII letter.
pub open spec fn spec_is_ident_start(c: char) -> bool {
    let u = c as u32;
    u == 95 || (97 <= u && u <= 122) || (65 <= u && u <= 90)
}

/// `c` may continue an identifier: a start character or an ASCII digit.
pub open spec fn spec_is_ident_char(c: char) -> bool {
    spec_is_ident_start(c) || (48 <= (c as u32) && (c as u32) <= 57)
}

/// `s` is a syntactically valid identifier.
pub open spec fn spec_is_identifier(s: Seq<char>) -> bool {
    &&& s.len() > 0
    &&& spec_is_ident_start(s[0])
    &&& forall|i: int| 1 <= i < s.len() ==> spec_is_ident_char(#[trigger] s[i])
}

pub fn is_ident_start(c: char) -> (r: bool)
    ensures
        r == spec_is_ident_start(c),
{
    let u = c as u32;
    u == 95 || (97 <= u && u <= 122) || (65 <= u && u <= 90)
}

pub fn is_ident_char(c: char) -> (r: bool)
    ensures
        r == spec_is_ident_char(c),
{
    let u = c as u32;
    is_ident_start(c) || (48 <= u && u <= 57)
}

/// Decides whether `s` is a syntactically valid identifier.
pub fn is_identifier(s: &str) -> (r: bool)
    ensures
        r == spec_is_identifier(s@),
{
    let n = s.unicode_len();
    if n == 0 {
        return false;
    }
    if !is_ident_start(s.get_char(0)) {
        return false;
    }
    let mut i: usize = 1;
    while i < n
        invariant
            1 <= i <= n,
            n == s@.len(),
            spec_is_ident_start(s@[0]),
            forall|j: int| 1 <= j < i as int ==> spec_is_ident_char(#[trigger] s@[j]),
        decreases n - i,
    {
        if !is_ident_char(s.get_char(i)) {
            return false;
        }
        i += 1;
    }
    true
}

/// String equality against a literal, with the views compared.
pub fn string_eq_str(a: &String, b: &str) -> (r: bool)
    ensures
        r == (a@ == b@),
{
    let bs: String = b.to_owned();
    *a == bs
}

} // verus!
