use tedge_plugins::extractor::Extractor;
use tedge_plugins::filter::float_less;
use tedge_plugins::filter::Filter;
use tedge_plugins::filter::Filterable;
use tedge_plugins::measurement::Measurement;
use tedge_plugins::measurement::MeasurementValue;
use tedge_plugins::measurement_filter::MeasurementFilterConfig;
use tedge_plugins::measurement_filter::MeasurementFilterPlugin;
use tedge_plugins::measurement_filter::MeasurementFilterPluginBuilder;
use tedge_plugins::measurement_filter::Route;

fn f(x: f64) -> u64 {
    x.to_bits()
}

#[test]
fn test_filter_msmt_bool() {
    let msmt = MeasurementValue::Bool(false);
    let filt = Filter::Is(false);
    assert!(msmt.apply_filter(&filt));

    let filt = Filter::Is(true);
    assert!(!msmt.apply_filter(&filt));
}

#[test]
fn test_filter_msmt_lt() {
    let msmt = MeasurementValue::Float(f(10.0));
    let filt = Filter::LessThan(f(20.0));
    assert!(msmt.apply_filter(&filt));

    let filt = Filter::LessThan(f(5.0));
    assert!(!msmt.apply_filter(&filt));
}

#[test]
fn test_filter_msmt_gt() {
    let msmt = MeasurementValue::Float(f(10.0));
    let filt = Filter::MoreThan(f(20.0));
    assert!(!msmt.apply_filter(&filt));

    let filt = Filter::MoreThan(f(5.0));
    assert!(msmt.apply_filter(&filt));
}

#[test]
fn test_filter_msmt_contains() {
    let msmt = MeasurementValue::Text("foobar".to_string());
    let filt = Filter::Contains("oob".to_string());
    assert!(msmt.apply_filter(&filt));

    let filt = Filter::Contains("kittens".to_string());
    assert!(!msmt.apply_filter(&filt));
}

#[test]
fn test_filter_msmt_excludes() {
    let msmt = MeasurementValue::Text("foobar".to_string());
    let filt = Filter::Excludes("oob".to_string());
    assert!(!msmt.apply_filter(&filt));

    let filt = Filter::Excludes("kittens".to_string());
    assert!(msmt.apply_filter(&filt));
}

#[test]
fn test_filter_nonmatching_bool() {
    let msmt = MeasurementValue::Bool(false);
    let filt = Filter::Excludes("kittens".to_string());
    assert!(!msmt.apply_filter(&filt));
}

#[test]
fn test_filter_nonmatching_float() {
    let msmt = MeasurementValue::Float(f(1.0));
    let filt = Filter::Excludes("kittens".to_string());
    assert!(!msmt.apply_filter(&filt));
}

#[test]
fn test_filter_nonmatching_string() {
    let msmt = MeasurementValue::Text("foobar".to_string());
    let filt = Filter::Is(true);
    assert!(!msmt.apply_filter(&filt));
}

#[test]
fn float_order_agrees_with_f64() {
    let xs = [
        0.0f64, -0.0, 1.0, -1.0, 0.5, -2.5, 1e300, -1e300, f64::MIN_POSITIVE, -f64::MIN_POSITIVE,
        f64::INFINITY, f64::NEG_INFINITY, f64::NAN, 5e-324, 3.0, 2.9999,
    ];
    for a in xs {
        for b in xs {
            assert_eq!(float_less(a.to_bits(), b.to_bits()), a < b, "{} < {}", a, b);
        }
    }
}

#[test]
fn excludes_is_not_contains() {
    for (t, p) in [("foobar", "oob"), ("foobar", ""), ("", "x"), ("aaa", "aaaa"), ("abcabd", "abd")] {
        let v = MeasurementValue::Text(t.to_string());
        assert_eq!(
            v.apply_filter(&Filter::Excludes(p.to_string())),
            !v.apply_filter(&Filter::Contains(p.to_string()))
        );
        assert_eq!(v.apply_filter(&Filter::Contains(p.to_string())), t.contains(p));
    }
}

#[test]
fn less_and_more_exclusive() {
    let v = MeasurementValue::Float(f(3.0));
    assert!(!v.apply_filter(&Filter::LessThan(f(3.0))));
    assert!(!v.apply_filter(&Filter::MoreThan(f(3.0))));
    let nan = MeasurementValue::Float(f64::NAN.to_bits());
    assert!(!nan.apply_filter(&Filter::LessThan(f(3.0))));
    assert!(!nan.apply_filter(&Filter::MoreThan(f(3.0))));
}

fn plugin(filtered: Option<&str>, filter: Filter) -> MeasurementFilterPlugin {
    MeasurementFilterPluginBuilder::instantiate(MeasurementFilterConfig {
        target: "main".to_string(),
        filtered_target: filtered.map(|s| s.to_string()),
        extractor: Extractor::from_str("temp").unwrap(),
        filter,
    })
}

#[test]
fn filter_plugin_routes() {
    let p = plugin(Some("alarms"), Filter::MoreThan(f(30.0)));
    let hot = Measurement::new("temp".to_string(), MeasurementValue::Float(f(35.0)));
    let cold = Measurement::new("temp".to_string(), MeasurementValue::Float(f(20.0)));
    let other = Measurement::new("humidity".to_string(), MeasurementValue::Float(f(35.0)));
    assert_eq!(p.route(&hot), Route::FilteredTarget);
    assert_eq!(p.destination(&hot), Some(&"alarms".to_string()));
    assert_eq!(p.route(&cold), Route::Target);
    assert_eq!(p.destination(&cold), Some(&"main".to_string()));
    assert_eq!(p.route(&other), Route::Drop);
    assert_eq!(p.destination(&other), None);

    let p = plugin(None, Filter::MoreThan(f(30.0)));
    assert_eq!(p.route(&hot), Route::Drop);
    assert_eq!(p.route(&cold), Route::Target);
    assert_eq!(MeasurementFilterPluginBuilder::kind_name(), "measurement_filter");
    let _ = MeasurementFilterPlugin::new("a".to_string(), None, Extractor::from_str("x").unwrap(), Filter::Is(true));
}
