use coffee_tracker::numeric::valid_float;

#[test]
fn accepts_plain_integers() {
    assert!(valid_float("0"));
    assert!(valid_float("18"));
    assert!(valid_float("007"));
    assert!(valid_float("26"));
}

#[test]
fn accepts_decimals() {
    assert!(valid_float("18.5"));
    assert!(valid_float("45.1"));
    assert!(valid_float(".5"));
    assert!(valid_float("5."));
    assert!(valid_float("0.0"));
}

#[test]
fn accepts_exponents() {
    assert!(valid_float("1e5"));
    assert!(valid_float("1E5"));
    assert!(valid_float("1e+5"));
    assert!(valid_float("1e-5"));
    assert!(valid_float("2.5e10"));
    assert!(valid_float("1.e4"));
    assert!(valid_float(".5e2"));
}

#[test]
fn accepts_signs() {
    assert!(valid_float("+1"));
    assert!(valid_float("-1.5"));
    assert!(valid_float("-.5"));
    assert!(valid_float("-1.5e-3"));
}

#[test]
fn accepts_keywords_any_case() {
    assert!(valid_float("inf"));
    assert!(valid_float("Inf"));
    assert!(valid_float("INF"));
    assert!(valid_float("infinity"));
    assert!(valid_float("Infinity"));
    assert!(valid_float("nan"));
    assert!(valid_float("NaN"));
    assert!(valid_float("-inf"));
    assert!(valid_float("+nan"));
}

#[test]
fn rejects_invalid_text() {
    assert!(!valid_float(""));
    assert!(!valid_float("x"));
    assert!(!valid_float("1x"));
    assert!(!valid_float("18x"));
    assert!(!valid_float("."));
    assert!(!valid_float("+"));
    assert!(!valid_float("-"));
    assert!(!valid_float("e5"));
    assert!(!valid_float("1e"));
    assert!(!valid_float("1e+"));
    assert!(!valid_float("--1"));
    assert!(!valid_float("1.2.3"));
    assert!(!valid_float("1 "));
    assert!(!valid_float(" 1"));
    assert!(!valid_float("1e5.5"));
    assert!(!valid_float("in"));
    assert!(!valid_float("infinit"));
    assert!(!valid_float("1,5"));
}

#[test]
fn agrees_with_float_parsing() {
    let samples = [
        "", "0", "18", "18.5", "45.1", ".5", "5.", ".", "+", "-", "+.", "-.", "1e5", "1E5",
        "1e+5", "1e-5", "1e", "1e+", "e5", "1.e4", ".5e2", "2.5e10", "1e5.5", "inf", "Inf",
        "INF", "iNf", "infinity", "Infinity", "INFINITY", "infinit", "in", "nan", "NaN", "NAN",
        "nAn", "-inf", "+infinity", "-nan", "x", "1x", "x1", "--1", "++1", "+-1", "1.2.3",
        " 1", "1 ", "1_000", "0x10", "007", "-0", "+0.0", "1.", "-.5e-2", "123456789012345678901234567890",
    ];
    for s in samples {
        assert_eq!(
            valid_float(s),
            s.parse::<f64>().is_ok(),
            "grammar and parser disagree on {:?}",
            s
        );
    }
}
