//! Annotation parser: reads a field's customization directives and yields
//! either a validated `each` directive or a located diagnostic.

use vstd::prelude::*;

use crate::schema::Annotation;
use crate::schema::AnnotationV;
use crate::schema::Payload;
use crate::schema::PayloadV;
use crate::schema::PayloadValue;
use crate::schema::PayloadValueV;
use crate::schema::Span;
use crate::schema::is_identifier;
use crate::schema::spec_is_identifier;
use crate::schema::string_eq_str;

verus! {

/// The kind of a schema-time error.
#[derive(Clone, Copy, PartialEq, Eq, Structural, Debug)]
pub enum DiagnosticKind {
    MalformedAnnotation,
}

/// A located, human-readable report of a schema-time error.
pub struct Diagnostic {
    pub kind: DiagnosticKind,
    pub span: Span,
    pub message: String,
}

/// Model of a `Diagnostic`.
pub struct DiagnosticV {
    pub kind: DiagnosticKind,
    pub span: Span,
    pub message: Seq<char>,
}

impl View for Diagnostic {
    type V = DiagnosticV;

    open spec fn view(&self) -> DiagnosticV {
        DiagnosticV { kind: self.kind, span: self.span, message: self.message@ }
    }
}

/// A validated "push one element under this alias" directive. Its alias is a
/// syntactically valid identifier; it is honored only for `Repeated` fields.
pub struct EachDirective {
    pub alias: String,
    pub span: Span,
}

/// Model of an `EachDirective`.
pub struct EachDirectiveV {
    pub alias: Seq<char>,
    pub span: Span,
}

impl View for EachDirective {
    type V = EachDirectiveV;

    open spec fn view(&self) -> EachDirectiveV {
        EachDirectiveV { alias: self.alias@, span: self.span }
    }
}

/// The recognized annotation group: only annotations under this group are
/// read; any other group is left to other consumers.
pub open spec fn recognized_group() -> Seq<char> {
    "builder"@
}

/// The one directive key recognized under the group.
pub open spec fn recognized_key() -> Seq<char> {
    "each"@
}

/// The message of every malformed-annotation diagnostic: it names the
/// expected grammar.
pub open spec fn malformed_message() -> Seq<char> {
    "expected `each = \"...\"`"@
}

/// The diagnostic reported for a malformed annotation at `span`.
pub open spec fn spec_malformed_diagnostic(span: Span) -> DiagnosticV {
    DiagnosticV { kind: DiagnosticKind::MalformedAnnotation, span, message: malformed_message() }
}

/// An annotation under the recognized group matches the `each = "<identifier>"`
/// grammar: a single key/value pair, key `each`, a string-literal value that
/// is a valid identifier.
pub open spec fn spec_payload_well_formed(p: PayloadV) -> bool {
    &&& p matches PayloadV::Pair { key, value }
    &&& key == recognized_key()
    &&& value matches PayloadValueV::Str(s)
    &&& spec_is_identifier(s)
}

/// The directive carried by a well-formed annotation.
pub open spec fn spec_directive_of(a: AnnotationV) -> EachDirectiveV
    recommends
        spec_payload_well_formed(a.payload),
{
    EachDirectiveV {
        alias: match a.payload {
            PayloadV::Pair { key: _, value: PayloadValueV::Str(s) } => s,
            _ => Seq::empty(),
        },
        span: a.span,
    }
}

pub open spec fn spec_parse_each_from(annos: Seq<AnnotationV>, i: int) -> Result<
    Option<EachDirectiveV>,
    DiagnosticV,
>
    decreases annos.len() - i,
{
    if i < 0 || i >= annos.len() {
        Ok(None)
    } else if annos[i].group == recognized_group() {
        if spec_payload_well_formed(annos[i].payload) {
            Ok(Some(spec_directive_of(annos[i])))
        } else {
            Err(spec_malformed_diagnostic(annos[i].span))
        }
    } else {
        spec_parse_each_from(annos, i + 1)
    }
}

/// What `parse_each` returns: the first annotation under the recognized group
/// decides. None at all: `Ok(None)`. A well-formed one: its directive. A
/// malformed one: a `MalformedAnnotation` diagnostic at its span. Later
/// matching annotations are taken by no one: the first match wins, a known
/// looseness kept deliberately.
pub open spec fn spec_parse_each(annos: Seq<AnnotationV>) -> Result<
    Option<EachDirectiveV>,
    DiagnosticV,
> {
    spec_parse_each_from(annos, 0)
}

/// Model of a concrete `parse_each` result.
pub open spec fn parse_result_view(r: Result<Option<EachDirective>, Diagnostic>) -> Result<
    Option<EachDirectiveV>,
    DiagnosticV,
> {
    match r {
        Ok(None) => Ok(None),
        Ok(Some(d)) => Ok(Some(d@)),
        Err(e) => Err(e@),
    }
}

fn malformed_diagnostic(span: Span) -> (d: Diagnostic)
    ensures
        d@ == spec_malformed_diagnostic(span),
{
    Diagnostic {
        kind: DiagnosticKind::MalformedAnnotation,
        span,
        message: "expected `each = \"...\"`".to_owned(),
    }
}

/// Scans a field's annotations for the recognized group and validates the
/// first match against the `each = "<identifier>"` grammar.
pub fn parse_each(annotations: &Vec<Annotation>) -> (r: Result<Option<EachDirective>, Diagnostic>)
    ensures
        parse_result_view(r) == spec_parse_each(annotations@.map_values(|a: Annotation| a@)),
{
    let ghost annos = annotations@.map_values(|a: Annotation| a@);
    let mut i: usize = 0;
    while i < annotations.len()
        invariant
            i <= annotations.len(),
            annos == annotations@.map_values(|a: Annotation| a@),
            spec_parse_each_from(annos, 0) == spec_parse_each_from(annos, i as int),
        decreases annotations.len() - i,
    {
        let a = &annotations[i];
        if string_eq_str(&a.group, "builder") {
            match &a.payload {
                Payload::Pair { key, value } => {
                    if string_eq_str(key, "each") {
                        match value {
                            PayloadValue::Str(s) => {
                                if is_identifier(s.as_str()) {
                                    return Ok(Some(EachDirective { alias: s.clone(), span: a.span }));
                                }
                            },
                            PayloadValue::NonStr => {},
                        }
                    }
                },
                Payload::Other => {},
            }
            return Err(malformed_diagnostic(a.span));
        }
        i += 1;
    }
    Ok(None)
}

} // verus!
