//! Schema-to-builder transformation engine.
//!
//! Given the declarative schema of a record type (field names, declared
//! types, and per-field annotations), this library classifies each field by
//! shape, parses customization annotations, synthesizes a builder plan
//! (storage layout, setter surface, finalization rules), and models the
//! runtime behaviour of the synthesized builder: chained setter calls and a
//! finalize operation that fails exactly when a required field is absent.

mod annotations;
mod builder;
mod classify;
mod laws;
mod plan;
mod schema;

pub use laws::law_alias_collision_suppression;
pub use laws::law_bulk_setter_overwrites;
pub use laws::law_diagnostic_completeness;
pub use laws::law_diagnostic_reported;
pub use laws::law_generate_err_iff_diags;
pub use laws::law_generate_plan_wf;
pub use laws::law_optional_set_round_trip;
pub use laws::law_optional_unset_round_trip;
pub use laws::law_repeated_accumulation_round_trip;
pub use laws::law_required_enforcement;
pub use laws::law_set_required_succeeds;

pub use builder::BuildError;
pub use builder::BuildErrorV;
pub use builder::Builder;
pub use builder::BuilderV;
pub use builder::FieldValue;
pub use builder::FieldValueV;
pub use builder::Slot;
pub use builder::SlotV;
pub use builder::apply_single;
pub use builder::builder_wf;
pub use builder::field_has_bulk;
pub use builder::field_single_kind;
pub use builder::find_bulk;
pub use builder::find_single;
pub use builder::lemma_field_plans_wf;
pub use builder::lemma_synthesize_wf;
pub use builder::plan_field_wf;
pub use builder::plan_wf;
pub use builder::slot_compatible;
pub use builder::spec_field_value;
pub use builder::spec_finalize_values;
pub use builder::spec_first_missing;
pub use builder::spec_set_all;
pub use builder::spec_set_one;
pub use builder::storage_is_list;

pub use plan::BuilderFieldPlan;
pub use plan::BuilderFieldPlanV;
pub use plan::BuilderPlan;
pub use plan::BuilderPlanV;
pub use plan::Finalizer;
pub use plan::Setter;
pub use plan::SetterKind;
pub use plan::SetterV;
pub use plan::StorageKind;
pub use plan::StorageKindV;
pub use plan::builder_suffix;
pub use plan::generate;
pub use plan::generate_result_view;
pub use plan::plan_field;
pub use plan::plan_result_view;
pub use plan::spec_field_diags;
pub use plan::spec_field_plan;
pub use plan::spec_field_plans;
pub use plan::spec_generate;
pub use plan::option_each_view;
pub use plan::spec_collection_of;
pub use plan::spec_synthesize;
pub use plan::synthesize;

pub use annotations::Diagnostic;
pub use annotations::DiagnosticKind;
pub use annotations::DiagnosticV;
pub use annotations::EachDirective;
pub use annotations::EachDirectiveV;
pub use annotations::malformed_message;
pub use annotations::parse_each;
pub use annotations::parse_result_view;
pub use annotations::recognized_group;
pub use annotations::recognized_key;
pub use annotations::spec_malformed_diagnostic;
pub use annotations::spec_parse_each;
pub use annotations::spec_payload_well_formed;

pub use classify::FieldShape;
pub use classify::FieldShapeV;
pub use classify::classify;
pub use classify::lemma_classify_total;
pub use classify::optional_wrapper;
pub use classify::repeated_wrapper;
pub use classify::spec_classify;

pub use schema::Annotation;
pub use schema::AnnotationV;
pub use schema::FieldSchema;
pub use schema::FieldSchemaV;
pub use schema::Payload;
pub use schema::PayloadV;
pub use schema::PayloadValue;
pub use schema::PayloadValueV;
pub use schema::RecordSchema;
pub use schema::RecordSchemaV;
pub use schema::Span;
pub use schema::TypeRef;
pub use schema::TypeRefV;
pub use schema::is_identifier;
pub use schema::spec_is_ident_char;
pub use schema::spec_is_ident_start;
pub use schema::spec_is_identifier;
pub use schema::lemma_type_ref_seq_view;
pub use schema::type_ref_clone;
pub use schema::type_ref_seq_view;
pub use schema::type_ref_view;
