use arsa_backend::error::ArsaError;
use arsa_backend::image::{ensure_image_present, ImageInspectOutcome};
use arsa_backend::scenarios::{scan_scenario_line, scenario_scan_done};
use arsa_backend::text::parse_u32;

#[test]
fn parsing_counts() {
    assert_eq!(parse_u32("0"), Some(0));
    assert_eq!(parse_u32("42"), Some(42));
    assert_eq!(parse_u32("+7"), Some(7));
    assert_eq!(parse_u32("4294967295"), Some(u32::MAX));
    assert_eq!(parse_u32("4294967296"), None);
    assert_eq!(parse_u32(""), None);
    assert_eq!(parse_u32("+"), None);
    assert_eq!(parse_u32("-1"), None);
    assert_eq!(parse_u32("12a"), None);
    for s in ["", "+", "0", "00012", "+99", "99999999999", "4294967295", "x1", " 1"] {
        assert_eq!(parse_u32(s), s.parse::<u32>().ok(), "{s}");
    }
}

#[test]
fn scanning_a_listing_run() {
    let mut found = Vec::new();
    let mut expected = 0;
    expected = scan_scenario_line(expected, &mut found, "ENGINE: starting\n");
    assert_eq!(expected, 0);
    assert!(found.is_empty());
    expected = scan_scenario_line(expected, &mut found, "SCRIPT: Missions found: 2\n");
    assert_eq!(expected, 2);
    assert!(!scenario_scan_done(expected, found.len()));
    expected = scan_scenario_line(
        expected,
        &mut found,
        " {ECC61978EDCC2B5A}Missions/23_Campaign.conf (Conflict - Everon)\n",
    );
    assert_eq!(
        found,
        vec![(
            "{ECC61978EDCC2B5A}Missions/23_Campaign.conf".to_string(),
            "Conflict - Everon".to_string()
        )]
    );
    // A later count does not replace the first one.
    expected = scan_scenario_line(expected, &mut found, "Missions found: 9\n");
    assert_eq!(expected, 2);
    expected = scan_scenario_line(
        expected,
        &mut found,
        "{59AD59368755F41A}Missions/21_GM_Eden.conf (Game Master - Everon)",
    );
    assert_eq!(found.len(), 2);
    assert_eq!(found[1].1, "Game Master - Everon");
    assert!(scenario_scan_done(expected, found.len()));
}

#[test]
fn scan_is_never_done_without_a_count() {
    assert!(!scenario_scan_done(0, 0));
    assert!(!scenario_scan_done(0, 3));
    assert!(!scenario_scan_done(3, 2));
    assert!(scenario_scan_done(3, 3));
}

#[test]
fn listing_needs_the_image() {
    assert!(ensure_image_present(ImageInspectOutcome::Found(vec![])).is_ok());
    assert!(matches!(ensure_image_present(ImageInspectOutcome::Missing), Err(ArsaError::NotFound)));
    match ensure_image_present(ImageInspectOutcome::Failed("boom".to_string())) {
        Err(ArsaError::BollardError(m)) => assert_eq!(m, "boom"),
        other => panic!("unexpected {:?}", other),
    }
}
