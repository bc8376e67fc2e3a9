use ssh_bootstrap::editor_settings::FontFeature;
use ssh_bootstrap::editor_settings::InlineBlameSettings;
use ssh_bootstrap::editor_settings::apply_inline_blame;
use ssh_bootstrap::editor_settings::calt_enabled;
use ssh_bootstrap::editor_settings::set_calt;
use ssh_bootstrap::text::contains_str;

fn feature(tag: &str, value: u32) -> FontFeature {
    FontFeature { tag: String::from(tag), value: value }
}

#[test]
fn ligatures_default_to_enabled() {
    let features: Vec<FontFeature> = Vec::new();
    assert!(calt_enabled(&features));
    let features = vec![feature("liga", 1), feature("ss01", 1)];
    assert!(calt_enabled(&features));
}

#[test]
fn the_first_calt_entry_decides() {
    let features = vec![feature("liga", 1), feature("calt", 0), feature("calt", 1)];
    assert!(!calt_enabled(&features));
    let features = vec![feature("calt", 1)];
    assert!(calt_enabled(&features));
}

#[test]
fn set_calt_overwrites_the_first_entry_in_place() {
    let mut features = vec![feature("liga", 1), feature("calt", 1), feature("ss01", 1)];
    set_calt(&mut features, false);
    assert_eq!(features.len(), 3);
    assert_eq!(features[0].tag, "liga");
    assert_eq!(features[0].value, 1);
    assert_eq!(features[1].tag, "calt");
    assert_eq!(features[1].value, 0);
    assert_eq!(features[2].tag, "ss01");
    assert_eq!(features[2].value, 1);
    assert!(!calt_enabled(&features));
}

#[test]
fn set_calt_appends_when_no_entry_exists() {
    let mut features = vec![feature("liga", 1)];
    set_calt(&mut features, true);
    assert_eq!(features.len(), 2);
    assert_eq!(features[1].tag, "calt");
    assert_eq!(features[1].value, 1);
    assert!(calt_enabled(&features));
}

#[test]
fn inline_blame_updates_an_existing_record() {
    let updated = apply_inline_blame(Some(InlineBlameSettings { enabled: false }), true);
    assert!(updated.enabled);
    let updated = apply_inline_blame(Some(InlineBlameSettings { enabled: true }), false);
    assert!(!updated.enabled);
}

#[test]
fn inline_blame_creates_a_disabled_record_when_none_exists() {
    let created = apply_inline_blame(None, true);
    assert!(!created.enabled);
}

#[test]
fn substring_search_spots_the_confirmation_marker() {
    assert!(contains_str("Continue? (yes/no)", "yes/no"));
    assert!(!contains_str("Enter password:", "yes/no"));
    assert!(contains_str("anything", ""));
    assert!(!contains_str("no", "yes/no"));
    assert!(contains_str("yes/no", "yes/no"));
}
