use airports::Airports;

#[test]
fn lhr_lowercase() {
    let db = Airports::new();
    assert_eq!(db.get_tz_name("lhr").map(|s| s.as_str()), Some("Europe/London"));
}

#[test]
fn lhr_uppercase() {
    let db = Airports::new();
    assert_eq!(db.get_tz_name("LHR").map(|s| s.as_str()), Some("Europe/London"));
}

#[test]
fn lhr_mixed_case() {
    let db = Airports::new();
    assert_eq!(db.get_tz_name("Lhr").map(|s| s.as_str()), Some("Europe/London"));
}

#[test]
fn sfo_name() {
    let db = Airports::new();
    assert_eq!(db.get_tz_name("SFO").map(|s| s.as_str()), Some("America/Los_Angeles"));
}

#[test]
fn unknown_code_absent() {
    let db = Airports::new();
    assert_eq!(db.get_tz_name("SOMETHING"), None);
}

#[test]
fn empty_string_absent() {
    let db = Airports::new();
    assert_eq!(db.get_tz_name(""), None);
}

#[test]
fn single_char_unicode_uppercase_folds() {
    let db = Airports::new();
    assert_eq!(db.get_tz_name("\u{131}st").map(|s| s.as_str()), Some("Europe/Istanbul"));
    assert_eq!(db.get_tz_name("\u{17f}fo").map(|s| s.as_str()), Some("America/Los_Angeles"));
}

#[test]
fn non_ascii_input_absent() {
    let db = Airports::new();
    assert_eq!(db.get_tz_name("münchen"), None);
    assert_eq!(db.get_tz_name("東京"), None);
    assert_eq!(db.get_tz_name("l\u{0127}r"), None);
}

#[test]
fn long_input_absent() {
    let db = Airports::new();
    let long = "x".repeat(10_000);
    assert_eq!(db.get_tz_name(&long), None);
    let padded = format!("LHR{}", " ".repeat(1_000));
    assert_eq!(db.get_tz_name(&padded), None);
}

#[test]
fn case_insensitive_agreement() {
    let db = Airports::new();
    assert_eq!(db.get_tz_name("lhr"), db.get_tz_name("LHR"));
    assert_eq!(db.get_tz_name("LHR"), db.get_tz_name("Lhr"));
    assert_eq!(db.get_tz_name("sFo"), db.get_tz_name("SFO"));
}

#[test]
fn repeated_calls_stable() {
    let db = Airports::new();
    let first = db.get_tz_name("JFK").cloned();
    for _ in 0..100 {
        assert_eq!(db.get_tz_name("JFK").cloned(), first);
    }
}

#[test]
fn all_codes_resolve() {
    let db = Airports::new();
    for code in db.codes() {
        assert!(db.get_tz_name(&code).is_some(), "missing code {}", code);
        let lowered = code.to_lowercase();
        assert_eq!(db.get_tz_name(&lowered), db.get_tz_name(&code));
    }
}

#[test]
fn codes_are_all_loaded() {
    let db = Airports::new();
    let codes = db.codes();
    assert_eq!(codes.len(), 331);
    for code in &codes {
        assert_eq!(code.as_str(), code.to_uppercase().as_str());
    }
}

#[test]
fn default_is_the_same_directory() {
    let db: Airports = Default::default();
    let fresh = Airports::new();
    assert_eq!(db.codes(), fresh.codes());
    assert_eq!(db.get_tz_name("LHR"), fresh.get_tz_name("LHR"));
}
