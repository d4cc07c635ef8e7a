use manufacturers::failure::Failure;
use manufacturers::listing::{listing, select};
use manufacturers::record::AutoManufacturer;

fn maker<'a>(name: &'a str, common_name: &'a str, country: &'a str) -> AutoManufacturer<'a> {
    AutoManufacturer {
        name: Some(name),
        common_name: Some(common_name),
        country: Some(country),
    }
}

fn fleet() -> Vec<AutoManufacturer<'static>> {
    vec![
        maker("TESLA, INC.", "Tesla", "United States"),
        maker("RIVIAN AUTOMOTIVE, LLC", "Rivian", "United States"),
        maker("TESLA MOTORS CANADA", "Tesla", "Canada"),
        maker("HONDA MOTOR CO., LTD", "Honda", "Japan"),
    ]
}

#[test]
fn contains_finds_text_inside_legal_name() {
    let m = maker("TESLA, INC.", "Tesla", "United States");
    assert!(m.contains("TESLA"));
    assert!(m.contains("LA, I"));
    assert!(m.contains("TESLA, INC."));
    assert!(m.contains("."));
    assert!(!m.contains("TESLA, INC.."));
    assert!(!m.contains("RIVIAN"));
}

#[test]
fn contains_is_case_sensitive() {
    let m = maker("TESLA, INC.", "Tesla", "United States");
    assert!(!m.contains("tesla"));
    assert!(!m.contains("Tesla"));
}

#[test]
fn contains_searches_legal_name_only() {
    let m = maker("TESLA, INC.", "Tesla", "United States");
    assert!(!m.contains("United"));
    assert!(!m.contains("esla"));
}

#[test]
fn contains_ignores_literal_word_in_other_fields() {
    let m = maker("ACME", "needle works", "needleland");
    assert!(!m.contains("TESLA"));
    assert!(!m.contains("needle"));
    assert!(m.contains("ACME"));
}

#[test]
fn contains_empty_filter_is_always_true() {
    assert!(maker("TESLA, INC.", "Tesla", "United States").contains(""));
    let blank = AutoManufacturer { name: None, common_name: None, country: None };
    assert!(blank.contains(""));
}

#[test]
fn contains_absent_legal_name_counts_as_empty() {
    let m = AutoManufacturer { name: None, common_name: Some("Tesla"), country: Some("Canada") };
    assert!(!m.contains("T"));
    assert!(!m.contains("Tesla"));
}

#[test]
fn contains_matches_characters_beyond_ascii() {
    let m = maker("AUTOMOBILES CITROËN", "Citroën", "France");
    assert!(m.contains("OËN"));
    assert!(m.contains("Ë"));
    assert!(!m.contains("OEN"));
    assert!(!m.contains("ë"));
}

#[test]
fn select_keeps_exactly_the_matching_records_in_order() {
    let kept = select(fleet(), "TESLA");
    assert_eq!(
        kept,
        vec![
            maker("TESLA, INC.", "Tesla", "United States"),
            maker("TESLA MOTORS CANADA", "Tesla", "Canada"),
        ]
    );
}

#[test]
fn select_excludes_every_record_without_the_text() {
    let all = fleet();
    let kept = select(all.clone(), "MOTOR");
    for m in &all {
        let inside = m.name.unwrap_or("").contains("MOTOR");
        assert_eq!(kept.contains(m), inside);
    }
    assert_eq!(kept.len(), 2);
}

#[test]
fn select_with_empty_filter_keeps_all() {
    assert_eq!(select(fleet(), ""), fleet());
}

#[test]
fn select_twice_is_select_once() {
    let once = select(fleet(), "TESLA");
    let twice = select(once.clone(), "TESLA");
    assert_eq!(once, twice);
    let none = select(fleet(), "zzz");
    assert_eq!(select(none.clone(), "zzz"), none);
}

#[test]
fn select_can_keep_nothing() {
    assert_eq!(select(fleet(), "FORD"), Vec::new());
    assert_eq!(select(Vec::new(), "FORD"), Vec::new());
    assert_eq!(select(Vec::new(), ""), Vec::new());
}

#[test]
fn listing_fails_when_nothing_is_kept() {
    assert_eq!(listing(fleet(), "FORD"), Err(Failure::NoneFound));
    assert_eq!(listing(Vec::new(), ""), Err(Failure::NoneFound));
    assert_eq!(listing(Vec::new(), "TESLA"), Err(Failure::NoneFound));
}

#[test]
fn listing_shows_the_kept_records_only() {
    let text = listing(fleet(), "HONDA").unwrap();
    assert_eq!(
        text,
        "1 manufacturers found\n\
         Manufacturer #1\n\
         \t Manufacturer Name: HONDA MOTOR CO., LTD\n\
         \t Manufacturer Common Name: Honda\n\
         \t Country: Japan\n\
         \n"
    );
}
