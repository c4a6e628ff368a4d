use tedge_plugins::extractor::Extractor;
use tedge_plugins::extractor::Token;

#[test]
fn test_extracting_empty_string() {
    assert!(Extractor::from_str("").is_err());
}

#[test]
fn test_extracting_single_key() {
    let ext = Extractor::from_str("foo").unwrap().0;
    let exp = vec![Token::Key("foo".to_string())];
    assert_eq!(ext, exp);
}

#[test]
fn test_extracting_key_index() {
    let ext = Extractor::from_str("foo.5").unwrap().0;
    let exp = vec![Token::Key("foo".to_string()), Token::Index(5)];
    assert_eq!(ext, exp);
}

#[test]
fn test_extracting_key_index_key() {
    let ext = Extractor::from_str("foo.5.bar").unwrap().0;
    let exp = vec![Token::Key("foo".to_string()), Token::Index(5), Token::Key("bar".to_string())];
    assert_eq!(ext, exp);
}

use tedge_plugins::extractor::Extractable;
use tedge_plugins::measurement::map_insert;
use tedge_plugins::measurement::Measurement;
use tedge_plugins::measurement::MeasurementValue;

#[test]
fn extractor_refuses_leading_dot() {
    let e = Extractor::from_str(".foo").unwrap_err();
    assert_eq!(e, "Empty extractor");
}

#[test]
fn extractor_keeps_empty_inner_pieces() {
    let ext = Extractor::from_str("foo..bar").unwrap().0;
    assert_eq!(
        ext,
        vec![Token::Key("foo".to_string()), Token::Key(String::new()), Token::Key("bar".to_string())]
    );
}

#[test]
fn extractor_reads_numbers_as_usize_does() {
    let ext = Extractor::from_str("a.+7.-1.007.18446744073709551616").unwrap().0;
    assert_eq!(
        ext,
        vec![
            Token::Key("a".to_string()),
            Token::Index(7),
            Token::Key("-1".to_string()),
            Token::Index(7),
            Token::Key("18446744073709551616".to_string()),
        ]
    );
    assert_eq!(Extractor::from_str("5").unwrap().0, vec![Token::Index(5)]);
}

#[test]
fn token_text_roundtrip() {
    for n in [0usize, 9, 10, 12345, usize::MAX] {
        let t = Token::Index(n);
        let s = t.to_string();
        assert_eq!(s, n.to_string());
        assert_eq!(Token::try_from(s.as_str()).unwrap(), t);
    }
    assert_eq!(Token::Key("foo".to_string()).to_string(), "foo");
    assert_eq!(Token::try_from("12").unwrap(), Token::Index(12));
    assert!(Token::Key(String::new()).is_empty());
    assert!(!Token::Key("x".to_string()).is_empty());
    assert!(!Token::Index(0).is_empty());
}

#[test]
fn extractor_into_string_concatenates() {
    let e = Extractor::from_str("foo.5.bar").unwrap();
    assert_eq!(e.into_string(), "foo5bar");
}

fn sample() -> Measurement {
    let mut inner = Vec::new();
    map_insert(&mut inner, "bar".to_string(), MeasurementValue::Bool(true));
    let list = MeasurementValue::List(vec![
        MeasurementValue::Float(1.0f64.to_bits()),
        MeasurementValue::Dict(inner),
    ]);
    let mut top = Vec::new();
    map_insert(&mut top, "foo".to_string(), list);
    Measurement::new("m".to_string(), MeasurementValue::Dict(top))
}

#[test]
fn extract_follows_the_path() {
    let m = sample();
    let e = Extractor::from_str("m.foo.1.bar").unwrap();
    assert_eq!(m.extract(&e.0), Some(&MeasurementValue::Bool(true)));
    let e = Extractor::from_str("m.foo.0").unwrap();
    assert_eq!(m.extract(&e.0), Some(&MeasurementValue::Float(1.0f64.to_bits())));
}

#[test]
fn extract_misses() {
    let m = sample();
    for path in ["other.foo", "m.foo.2", "m.foo.bar", "m.0", "m.foo.0.x", "m.foo.1.baz"] {
        let e = Extractor::from_str(path).unwrap();
        assert_eq!(m.extract(&e.0), None, "{}", path);
    }
    assert_eq!(m.extract(&[]), None);
    assert_eq!(m.value().extract(&[]), Some(m.value()));
}

#[test]
fn extract_concatenated_paths() {
    let m = sample();
    let a = Extractor::from_str("foo.1").unwrap().0;
    let b = Extractor::from_str("bar").unwrap().0;
    let mid = m.value().extract(&a).unwrap();
    let direct = m.value().extract(&Extractor::from_str("foo.1.bar").unwrap().0);
    assert_eq!(mid.extract(&b), direct);
}
