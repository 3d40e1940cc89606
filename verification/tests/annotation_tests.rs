use builder::Annotation;
use builder::DiagnosticKind;
use builder::Payload;
use builder::PayloadValue;
use builder::Span;

fn span(lo: u64, hi: u64) -> Span {
    Span { lo, hi }
}

fn pair(group: &str, key: &str, value: PayloadValue, sp: Span) -> Annotation {
    Annotation {
        group: group.to_string(),
        payload: Payload::Pair { key: key.to_string(), value },
        span: sp,
    }
}

fn each_str(alias: &str, sp: Span) -> Annotation {
    pair("builder", "each", PayloadValue::Str(alias.to_string()), sp)
}

#[test]
fn parse_each_accepts_the_grammar() {
    let annos = vec![each_str("arg", span(3, 9))];
    let r = builder::parse_each(&annos);
    match r {
        Ok(Some(d)) => {
            assert_eq!(d.alias, "arg");
            assert_eq!(d.span, span(3, 9));
        },
        _ => panic!("expected a directive"),
    }
}

#[test]
fn parse_each_without_match_is_none() {
    assert!(matches!(builder::parse_each(&Vec::new()), Ok(None)));
    // Annotations of other groups are left to their own consumers.
    let foreign = vec![pair("serde", "rename", PayloadValue::Str("x".to_string()), span(0, 5))];
    assert!(matches!(builder::parse_each(&foreign), Ok(None)));
}

#[test]
fn parse_each_rejects_a_wrong_key() {
    let annos = vec![pair("builder", "sort", PayloadValue::Str("arg".to_string()), span(2, 8))];
    match builder::parse_each(&annos) {
        Err(d) => {
            assert_eq!(d.kind, DiagnosticKind::MalformedAnnotation);
            assert_eq!(d.span, span(2, 8));
            assert_eq!(d.message, "expected `each = \"...\"`");
        },
        _ => panic!("expected a diagnostic"),
    }
}

#[test]
fn parse_each_rejects_a_non_string_value() {
    let annos = vec![pair("builder", "each", PayloadValue::NonStr, span(4, 7))];
    match builder::parse_each(&annos) {
        Err(d) => {
            assert_eq!(d.kind, DiagnosticKind::MalformedAnnotation);
            assert_eq!(d.span, span(4, 7));
        },
        _ => panic!("expected a diagnostic"),
    }
}

#[test]
fn parse_each_rejects_another_payload_shape() {
    let annos = vec![Annotation {
        group: "builder".to_string(),
        payload: Payload::Other,
        span: span(1, 6),
    }];
    match builder::parse_each(&annos) {
        Err(d) => assert_eq!(d.kind, DiagnosticKind::MalformedAnnotation),
        _ => panic!("expected a diagnostic"),
    }
}

#[test]
fn parse_each_rejects_an_invalid_alias() {
    let annos = vec![each_str("9lives", span(0, 4))];
    assert!(matches!(builder::parse_each(&annos), Err(_)));
}

#[test]
fn parse_each_takes_the_first_match() {
    let annos = vec![each_str("first", span(0, 1)), each_str("second", span(2, 3))];
    match builder::parse_each(&annos) {
        Ok(Some(d)) => assert_eq!(d.alias, "first"),
        _ => panic!("expected a directive"),
    }
    // The first match also decides when it is the malformed one.
    let annos = vec![
        pair("builder", "each", PayloadValue::NonStr, span(0, 1)),
        each_str("fine", span(2, 3)),
    ];
    assert!(matches!(builder::parse_each(&annos), Err(_)));
}
