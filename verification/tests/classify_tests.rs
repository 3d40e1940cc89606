use builder::FieldShape;
use builder::TypeRef;
use builder::classify;
use builder::is_identifier;

fn plain(name: &str) -> TypeRef {
    TypeRef { name: name.to_string(), args: Vec::new() }
}

fn wrapped(name: &str, inner: TypeRef) -> TypeRef {
    TypeRef { name: name.to_string(), args: vec![inner] }
}

#[test]
fn classify_optional_unwraps() {
    let shape = classify(wrapped("Optional", plain("String")));
    match shape {
        FieldShape::Optional(inner) => {
            assert_eq!(inner.name, "String");
            assert!(inner.args.is_empty());
        },
        _ => panic!("expected an optional shape"),
    }
}

#[test]
fn classify_repeated_unwraps() {
    let shape = classify(wrapped("Repeated", plain("u32")));
    match shape {
        FieldShape::Repeated(inner) => assert_eq!(inner.name, "u32"),
        _ => panic!("expected a repeated shape"),
    }
}

#[test]
fn classify_plain_type_is_required() {
    let shape = classify(plain("String"));
    match shape {
        FieldShape::Required(t) => assert_eq!(t.name, "String"),
        _ => panic!("expected a required shape"),
    }
}

#[test]
fn classify_unrecognized_wrapper_falls_back_to_required() {
    let shape = classify(wrapped("Arc", plain("String")));
    match shape {
        FieldShape::Required(t) => {
            assert_eq!(t.name, "Arc");
            assert_eq!(t.args.len(), 1);
        },
        _ => panic!("expected a required shape"),
    }
}

#[test]
fn classify_needs_exactly_one_argument() {
    // A bare `Optional` without an argument is not the recognized wrapper.
    let shape = classify(plain("Optional"));
    assert!(matches!(shape, FieldShape::Required(_)));
    // Two arguments are not the recognized wrapper either.
    let two = TypeRef {
        name: "Optional".to_string(),
        args: vec![plain("String"), plain("u32")],
    };
    assert!(matches!(classify(two), FieldShape::Required(_)));
}

#[test]
fn classify_unwraps_one_level_only() {
    let shape = classify(wrapped("Optional", wrapped("Repeated", plain("String"))));
    match shape {
        FieldShape::Optional(inner) => {
            assert_eq!(inner.name, "Repeated");
            assert_eq!(inner.args.len(), 1);
            assert_eq!(inner.args[0].name, "String");
        },
        _ => panic!("expected an optional shape"),
    }
}

#[test]
fn identifier_syntax() {
    assert!(is_identifier("arg"));
    assert!(is_identifier("_arg9"));
    assert!(is_identifier("A"));
    assert!(!is_identifier(""));
    assert!(!is_identifier("9arg"));
    assert!(!is_identifier("ar-g"));
    assert!(!is_identifier("ar g"));
}
