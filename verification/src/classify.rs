//! Field classifier: derives a field's shape from the syntactic form of its
//! declared type.

use vstd::prelude::*;

use crate::schema::TypeRef;
use crate::schema::TypeRefV;
use crate::schema::lemma_type_ref_seq_view;
use crate::schema::string_eq_str;

verus! {

/// The shape of a field, holding the element type: the unwrapped inner type
/// for `Optional` and `Repeated`, the declared type itself for `Required`.
pub enum FieldShape {
    Required(TypeRef),
    Optional(TypeRef),
    Repeated(TypeRef),
}

/// Model of a `FieldShape`.
pub enum FieldShapeV {
    Required(TypeRefV),
    Optional(TypeRefV),
    Repeated(TypeRefV),
}

impl View for FieldShape {
    type V = FieldShapeV;

    open spec fn view(&self) -> FieldShapeV {
        match self {
            FieldShape::Required(t) => FieldShapeV::Required(t@),
            FieldShape::Optional(t) => FieldShapeV::Optional(t@),
            FieldShape::Repeated(t) => FieldShapeV::Repeated(t@),
        }
    }
}

/// The wrapper name recognized as an optional scalar.
pub open spec fn optional_wrapper() -> Seq<char> {
    "Optional"@
}

/// The wrapper name recognized as a repeatable collection.
pub open spec fn repeated_wrapper() -> Seq<char> {
    "Repeated"@
}

/// What `classify` returns: a single-argument wrapper named `Optional` or
/// `Repeated` is unwrapped; every other type reference is `Required` as it
/// stands. Total: unrecognized wrappers fall back to `Required`.
pub open spec fn spec_classify(t: TypeRefV) -> FieldShapeV {
    if t.args.len() == 1 && t.name == optional_wrapper() {
        FieldShapeV::Optional(t.args[0])
    } else if t.args.len() == 1 && t.name == repeated_wrapper() {
        FieldShapeV::Repeated(t.args[0])
    } else {
        FieldShapeV::Required(t)
    }
}

/// Classifies a declared type by its syntactic shape alone; type aliases are
/// not resolved, so an alias for a recognized wrapper is `Required`.
pub fn classify(t: TypeRef) -> (r: FieldShape)
    ensures
        r@ == spec_classify(t@),
{
    proof {
        lemma_type_ref_seq_view(t.args@);
    }
    if t.args.len() == 1 {
        let is_optional = string_eq_str(&t.name, "Optional");
        let is_repeated = string_eq_str(&t.name, "Repeated");
        if is_optional || is_repeated {
            let TypeRef { name: _, mut args } = t;
            let inner = args.pop().unwrap();
            if is_optional {
                FieldShape::Optional(inner)
            } else {
                FieldShape::Repeated(inner)
            }
        } else {
            FieldShape::Required(t)
        }
    } else {
        FieldShape::Required(t)
    }
}

/// Classification totality: every type reference is given exactly one of the
/// three shapes; classification never fails.
pub proof fn lemma_classify_total(t: TypeRefV)
    ensures
        spec_classify(t) is Required || spec_classify(t) is Optional || spec_classify(
            t,
        ) is Repeated,
        !(spec_classify(t) is Required && spec_classify(t) is Optional),
        !(spec_classify(t) is Required && spec_classify(t) is Repeated),
        !(spec_classify(t) is Optional && spec_classify(t) is Repeated),
{
}

} // verus!
