use builder::Annotation;
use builder::DiagnosticKind;
use builder::EachDirective;
use builder::FieldSchema;
use builder::Finalizer;
use builder::Payload;
use builder::PayloadValue;
use builder::RecordSchema;
use builder::SetterKind;
use builder::Span;
use builder::StorageKind;
use builder::TypeRef;
use builder::classify;
use builder::generate;
use builder::synthesize;

fn plain(name: &str) -> TypeRef {
    TypeRef { name: name.to_string(), args: Vec::new() }
}

fn wrapped(name: &str, inner: TypeRef) -> TypeRef {
    TypeRef { name: name.to_string(), args: vec![inner] }
}

fn field(name: &str, ty: TypeRef) -> FieldSchema {
    FieldSchema { name: name.to_string(), ty, annotations: Vec::new() }
}

fn each_anno(alias: &str, sp: Span) -> Annotation {
    Annotation {
        group: "builder".to_string(),
        payload: Payload::Pair {
            key: "each".to_string(),
            value: PayloadValue::Str(alias.to_string()),
        },
        span: sp,
    }
}

fn directive(alias: &str) -> EachDirective {
    EachDirective { alias: alias.to_string(), span: Span { lo: 0, hi: 0 } }
}

#[test]
fn synthesize_required_field() {
    let name = "executable".to_string();
    let p = synthesize(&name, classify(plain("String")), None);
    assert_eq!(p.field_name, "executable");
    assert!(matches!(&p.storage, StorageKind::AbsentOrScalar(t) if t.name == "String"));
    assert!(matches!(p.finalizer, Finalizer::FailIfAbsent));
    assert_eq!(p.setters.len(), 1);
    assert_eq!(p.setters[0].name, "executable");
    assert!(matches!(p.setters[0].kind, SetterKind::Replace));
    assert_eq!(p.setters[0].param.name, "String");
}

#[test]
fn synthesize_optional_field() {
    let name = "current_dir".to_string();
    let p = synthesize(&name, classify(wrapped("Optional", plain("String"))), None);
    assert!(matches!(&p.storage, StorageKind::OptionDirect(t) if t.name == "String"));
    assert!(matches!(p.finalizer, Finalizer::PassThrough));
    assert_eq!(p.setters.len(), 1);
    assert_eq!(p.setters[0].name, "current_dir");
    assert!(matches!(p.setters[0].kind, SetterKind::Replace));
    // The setter takes the unwrapped element type.
    assert_eq!(p.setters[0].param.name, "String");
}

#[test]
fn synthesize_repeated_without_directive() {
    let name = "args".to_string();
    let p = synthesize(&name, classify(wrapped("Repeated", plain("String"))), None);
    assert!(matches!(&p.storage, StorageKind::AbsentOrList(t) if t.name == "String"));
    assert!(matches!(p.finalizer, Finalizer::EmptyIfAbsent));
    assert_eq!(p.setters.len(), 1);
    assert_eq!(p.setters[0].name, "args");
    assert!(matches!(p.setters[0].kind, SetterKind::Replace));
    // The bulk setter takes the whole collection.
    assert_eq!(p.setters[0].param.name, "Repeated");
    assert_eq!(p.setters[0].param.args[0].name, "String");
}

#[test]
fn synthesize_repeated_with_distinct_alias_has_two_setters() {
    let name = "args".to_string();
    let p = synthesize(
        &name,
        classify(wrapped("Repeated", plain("String"))),
        Some(directive("arg")),
    );
    assert_eq!(p.setters.len(), 2);
    assert_eq!(p.setters[0].name, "arg");
    assert!(matches!(p.setters[0].kind, SetterKind::Append));
    assert_eq!(p.setters[0].param.name, "String");
    assert_eq!(p.setters[1].name, "args");
    assert!(matches!(p.setters[1].kind, SetterKind::Replace));
    assert_eq!(p.setters[1].param.name, "Repeated");
}

#[test]
fn synthesize_alias_collision_suppresses_bulk_setter() {
    let name = "args".to_string();
    let p = synthesize(
        &name,
        classify(wrapped("Repeated", plain("String"))),
        Some(directive("args")),
    );
    // Exactly one setter named after the field, with accumulating semantics.
    assert_eq!(p.setters.len(), 1);
    assert_eq!(p.setters[0].name, "args");
    assert!(matches!(p.setters[0].kind, SetterKind::Append));
}

#[test]
fn generate_names_the_builder_after_the_record() {
    let schema = RecordSchema {
        name: "Command".to_string(),
        fields: vec![field("executable", plain("String"))],
    };
    match generate(&schema) {
        Ok(plan) => {
            assert_eq!(plan.record_name, "Command");
            assert_eq!(plan.builder_name, "CommandBuilder");
            assert_eq!(plan.fields.len(), 1);
            assert_eq!(plan.fields[0].field_name, "executable");
        },
        Err(_) => panic!("expected a plan"),
    }
}

#[test]
fn generate_keeps_field_order() {
    let schema = RecordSchema {
        name: "Command".to_string(),
        fields: vec![
            field("executable", plain("String")),
            field("args", wrapped("Repeated", plain("String"))),
            field("current_dir", wrapped("Optional", plain("String"))),
        ],
    };
    match generate(&schema) {
        Ok(plan) => {
            let names: Vec<&str> = plan.fields.iter().map(|f| f.field_name.as_str()).collect();
            assert_eq!(names, vec!["executable", "args", "current_dir"]);
        },
        Err(_) => panic!("expected a plan"),
    }
}

#[test]
fn generate_of_an_empty_record_succeeds() {
    let schema = RecordSchema { name: "Unit".to_string(), fields: Vec::new() };
    match generate(&schema) {
        Ok(plan) => assert!(plan.fields.is_empty()),
        Err(_) => panic!("expected a plan"),
    }
}

#[test]
fn generate_reports_every_diagnostic_in_order() {
    // Two independently malformed annotations on two different fields.
    let mut f1 = field("args", wrapped("Repeated", plain("String")));
    f1.annotations.push(Annotation {
        group: "builder".to_string(),
        payload: Payload::Pair { key: "each".to_string(), value: PayloadValue::NonStr },
        span: Span { lo: 10, hi: 20 },
    });
    let mut f2 = field("envs", wrapped("Repeated", plain("String")));
    f2.annotations.push(Annotation {
        group: "builder".to_string(),
        payload: Payload::Pair { key: "sort".to_string(), value: PayloadValue::NonStr },
        span: Span { lo: 30, hi: 40 },
    });
    let schema = RecordSchema {
        name: "Command".to_string(),
        fields: vec![f1, field("executable", plain("String")), f2],
    };
    match generate(&schema) {
        Err(diags) => {
            assert_eq!(diags.len(), 2);
            assert_eq!(diags[0].kind, DiagnosticKind::MalformedAnnotation);
            assert_eq!(diags[0].span, Span { lo: 10, hi: 20 });
            assert_eq!(diags[1].span, Span { lo: 30, hi: 40 });
        },
        Ok(_) => panic!("expected diagnostics"),
    }
}

#[test]
fn generate_fails_on_an_unquoted_alias() {
    // `each = arg` without quotes is a malformed annotation.
    let mut f = field("args", wrapped("Repeated", plain("String")));
    f.annotations.push(Annotation {
        group: "builder".to_string(),
        payload: Payload::Pair { key: "each".to_string(), value: PayloadValue::NonStr },
        span: Span { lo: 5, hi: 15 },
    });
    let schema = RecordSchema { name: "Command".to_string(), fields: vec![f] };
    match generate(&schema) {
        Err(diags) => {
            assert_eq!(diags.len(), 1);
            assert_eq!(diags[0].kind, DiagnosticKind::MalformedAnnotation);
            assert_eq!(diags[0].message, "expected `each = \"...\"`");
        },
        Ok(_) => panic!("expected diagnostics"),
    }
}

#[test]
fn a_well_formed_directive_on_a_scalar_field_is_ignored() {
    // The directive is honored only for repeated fields; elsewhere the plan
    // is the plain one.
    let mut f = field("executable", plain("String"));
    f.annotations.push(each_anno("exe", Span { lo: 0, hi: 4 }));
    let schema = RecordSchema { name: "Command".to_string(), fields: vec![f] };
    match generate(&schema) {
        Ok(plan) => {
            assert_eq!(plan.fields[0].setters.len(), 1);
            assert_eq!(plan.fields[0].setters[0].name, "executable");
            assert!(matches!(plan.fields[0].setters[0].kind, SetterKind::Replace));
        },
        Err(_) => panic!("expected a plan"),
    }
}
