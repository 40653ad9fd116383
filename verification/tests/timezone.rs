use airports::Airports;
use chrono::Offset;
use chrono::TimeZone;
use chrono::Utc;
use chrono_tz::Tz;

#[test]
fn sfo_zone_handle() {
    let db = Airports::new();
    assert_eq!(db.get_tz("SFO"), Some(Tz::America__Los_Angeles));
}

#[test]
fn lhr_zone_handle() {
    let db = Airports::new();
    assert_eq!(db.get_tz("LHR"), Some(Tz::Europe__London));
}

#[test]
fn unknown_code_no_handle() {
    let db = Airports::new();
    assert_eq!(db.get_tz("SOMETHING"), None);
}

#[test]
fn case_insensitive_handle() {
    let db = Airports::new();
    assert_eq!(db.get_tz("sfo"), db.get_tz("SFO"));
    assert_eq!(db.get_tz("lHr"), db.get_tz("LHR"));
}

#[test]
fn handle_matches_name_for_all_codes() {
    let db = Airports::new();
    for code in db.codes() {
        let name = db.get_tz_name(&code).expect("known code").clone();
        let parsed: Tz = name.parse().expect("stored name parses");
        assert_eq!(db.get_tz(&code), Some(parsed), "mismatch for {}", code);
    }
}

#[test]
fn absence_is_consistent() {
    let db = Airports::new();
    for query in ["SOMETHING", "", "xyz", "LHRX", "ZZZ"] {
        assert_eq!(db.get_tz(query).is_none(), db.get_tz_name(query).is_none());
    }
}

#[test]
fn dataset_values_parse() {
    let db = Airports::new();
    for code in db.codes() {
        let name = db.get_tz_name(&code).expect("known code");
        assert!(name.parse::<Tz>().is_ok(), "unparseable zone for {}: {}", code, name);
    }
}

#[test]
fn sfo_instant_conversion() {
    let db = Airports::new();
    let tz = db.get_tz("SFO").expect("SFO is known");
    let utc = Utc.with_ymd_and_hms(2022, 6, 28, 15, 27, 11).unwrap();
    let local = utc.with_timezone(&tz);
    assert_eq!(local.to_string(), "2022-06-28 08:27:11 PDT");
    assert_eq!(local.offset().fix().local_minus_utc(), -7 * 3600);
}

#[test]
fn lhr_instant_conversion() {
    let db = Airports::new();
    let tz = db.get_tz("lhr").expect("LHR is known");
    let utc = Utc.with_ymd_and_hms(2022, 1, 15, 12, 0, 0).unwrap();
    let local = utc.with_timezone(&tz);
    assert_eq!(local.to_string(), "2022-01-15 12:00:00 GMT");
    assert_eq!(local.offset().fix().local_minus_utc(), 0);
}
