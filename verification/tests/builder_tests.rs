use builder::Annotation;
use builder::BuildError;
use builder::Builder;
use builder::BuilderPlan;
use builder::FieldSchema;
use builder::FieldValue;
use builder::Payload;
use builder::PayloadValue;
use builder::RecordSchema;
use builder::Span;
use builder::TypeRef;
use builder::generate;

fn plain(name: &str) -> TypeRef {
    TypeRef { name: name.to_string(), args: Vec::new() }
}

fn wrapped(name: &str, inner: TypeRef) -> TypeRef {
    TypeRef { name: name.to_string(), args: vec![inner] }
}

fn field(name: &str, ty: TypeRef) -> FieldSchema {
    FieldSchema { name: name.to_string(), ty, annotations: Vec::new() }
}

fn each_anno(alias: &str) -> Annotation {
    Annotation {
        group: "builder".to_string(),
        payload: Payload::Pair {
            key: "each".to_string(),
            value: PayloadValue::Str(alias.to_string()),
        },
        span: Span { lo: 0, hi: 0 },
    }
}

/// The record of the scenarios: executable is required, args is repeated
/// with the accumulating alias `arg`, current_dir is optional.
fn command_plan() -> BuilderPlan {
    let mut args = field("args", wrapped("Repeated", plain("String")));
    args.annotations.push(each_anno("arg"));
    let schema = RecordSchema {
        name: "Command".to_string(),
        fields: vec![
            field("executable", plain("String")),
            args,
            field("current_dir", wrapped("Optional", plain("String"))),
        ],
    };
    match generate(&schema) {
        Ok(plan) => plan,
        Err(_) => panic!("the command schema is well-formed"),
    }
}

fn set(b: &mut Builder<String>, name: &str, value: &str) {
    assert!(b.set_one(name, value.to_string()).is_none());
}

#[test]
fn scenario_full_build_succeeds() {
    let mut b: Builder<String> = Builder::start(command_plan());
    set(&mut b, "executable", "cargo");
    set(&mut b, "arg", "build");
    set(&mut b, "arg", "--release");
    let values = match b.finalize() {
        Ok(values) => values,
        Err(_) => panic!("every required field was set"),
    };
    assert_eq!(values.len(), 3);
    assert!(matches!(&values[0], FieldValue::Scalar(v) if v == "cargo"));
    assert!(
        matches!(&values[1], FieldValue::List(vs) if vs == &vec!["build".to_string(), "--release".to_string()])
    );
    assert!(matches!(&values[2], FieldValue::Opt(None)));
}

#[test]
fn scenario_missing_required_field_fails() {
    let mut b: Builder<String> = Builder::start(command_plan());
    set(&mut b, "arg", "build");
    match b.finalize() {
        Err(BuildError::MissingField(name)) => assert_eq!(name, "executable"),
        Ok(_) => panic!("expected a missing-field failure"),
    }
}

#[test]
fn finalize_failure_is_recoverable() {
    let mut b: Builder<String> = Builder::start(command_plan());
    set(&mut b, "arg", "build");
    assert!(b.finalize().is_err());
    // The failed finalize left the builder unchanged: supply the missing
    // field and retry.
    set(&mut b, "executable", "cargo");
    let values = match b.finalize() {
        Ok(values) => values,
        Err(_) => panic!("the missing field was supplied"),
    };
    assert!(matches!(&values[0], FieldValue::Scalar(v) if v == "cargo"));
    assert!(matches!(&values[1], FieldValue::List(vs) if vs == &vec!["build".to_string()]));
}

#[test]
fn optional_round_trip() {
    let mut b: Builder<String> = Builder::start(command_plan());
    set(&mut b, "executable", "ls");
    set(&mut b, "current_dir", "/tmp");
    let values = match b.finalize() {
        Ok(values) => values,
        Err(_) => panic!("every required field was set"),
    };
    assert!(matches!(&values[2], FieldValue::Opt(Some(v)) if v == "/tmp"));
}

#[test]
fn required_accepts_a_default_like_value() {
    let mut b: Builder<String> = Builder::start(command_plan());
    set(&mut b, "executable", "");
    let values = match b.finalize() {
        Ok(values) => values,
        Err(_) => panic!("the required field was set"),
    };
    assert!(matches!(&values[0], FieldValue::Scalar(v) if v.is_empty()));
}

#[test]
fn replacing_setter_overwrites_previous_value() {
    let mut b: Builder<String> = Builder::start(command_plan());
    set(&mut b, "executable", "gcc");
    set(&mut b, "executable", "clang");
    let values = b.finalize().ok().unwrap();
    assert!(matches!(&values[0], FieldValue::Scalar(v) if v == "clang"));
}

#[test]
fn bulk_setter_overwrites_accumulation() {
    let mut b: Builder<String> = Builder::start(command_plan());
    set(&mut b, "executable", "cargo");
    set(&mut b, "arg", "build");
    set(&mut b, "arg", "--release");
    // The bulk-replace setter is named after the field and takes the whole
    // collection.
    assert!(b.set_all("args", vec!["check".to_string()]).is_none());
    let values = b.finalize().ok().unwrap();
    assert!(matches!(&values[1], FieldValue::List(vs) if vs == &vec!["check".to_string()]));
}

#[test]
fn repeated_field_defaults_to_empty() {
    let mut b: Builder<String> = Builder::start(command_plan());
    set(&mut b, "executable", "cargo");
    let values = b.finalize().ok().unwrap();
    assert!(matches!(&values[1], FieldValue::List(vs) if vs.is_empty()));
}

#[test]
fn unknown_setter_hands_the_value_back() {
    let mut b: Builder<String> = Builder::start(command_plan());
    assert_eq!(b.set_one("no_such_setter", "x".to_string()), Some("x".to_string()));
    assert_eq!(b.set_all("arg", vec!["x".to_string()]), Some(vec!["x".to_string()]));
}

#[test]
fn alias_collision_keeps_one_accumulating_setter() {
    let mut args = field("args", wrapped("Repeated", plain("String")));
    args.annotations.push(each_anno("args"));
    let schema = RecordSchema { name: "Command".to_string(), fields: vec![args] };
    let plan = match generate(&schema) {
        Ok(plan) => plan,
        Err(_) => panic!("the schema is well-formed"),
    };
    let mut b: Builder<String> = Builder::start(plan);
    // The one setter named after the field accumulates instead of replacing.
    set(&mut b, "args", "a");
    set(&mut b, "args", "b");
    // The bulk-replace setter was suppressed.
    assert!(b.set_all("args", vec!["c".to_string()]).is_some());
    let values = b.finalize().ok().unwrap();
    assert!(
        matches!(&values[0], FieldValue::List(vs) if vs == &vec!["a".to_string(), "b".to_string()])
    );
}

#[test]
fn finalize_reports_the_first_missing_field() {
    let schema = RecordSchema {
        name: "Pair".to_string(),
        fields: vec![field("first", plain("String")), field("second", plain("String"))],
    };
    let plan = match generate(&schema) {
        Ok(plan) => plan,
        Err(_) => panic!("the schema is well-formed"),
    };
    let mut b: Builder<String> = Builder::start(plan);
    match b.finalize() {
        Err(BuildError::MissingField(name)) => assert_eq!(name, "first"),
        Ok(_) => panic!("expected a missing-field failure"),
    }
    set(&mut b, "first", "x");
    match b.finalize() {
        Err(BuildError::MissingField(name)) => assert_eq!(name, "second"),
        Ok(_) => panic!("expected a missing-field failure"),
    }
}

#[test]
fn empty_record_finalizes_to_no_values() {
    let schema = RecordSchema { name: "Unit".to_string(), fields: Vec::new() };
    let plan = match generate(&schema) {
        Ok(plan) => plan,
        Err(_) => panic!("the schema is well-formed"),
    };
    let mut b: Builder<String> = Builder::start(plan);
    let values = b.finalize().ok().unwrap();
    assert!(values.is_empty());
}
