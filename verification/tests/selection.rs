//! Description selection, whitespace normalization, and name validation.

use pokemon_translator::poke_api::{select_description, FlavorEntry, Language, Version};
use pokemon_translator::text::{clean_flavor_text, validate_name};

fn make_flavor(language: &str, description: &str, ver: &str) -> FlavorEntry {
    FlavorEntry {
        flavor_text: description.to_string(),
        language: Language {
            name: language.to_string(),
        },
        version: Version {
            name: ver.to_string(),
        },
    }
}

#[test]
fn pick_description() {
    let descriptions = vec![
        make_flavor("en", "Description 1", "a"),
        make_flavor("de", "Description 2", "b"),
        make_flavor("en", "Description 3", "a"),
        make_flavor("en", "Description 4", "c"),
        make_flavor("fr", "Description 5", "c"),
    ];

    let selected = select_description(descriptions);

    assert_eq!(selected, Some("Description 4".to_string()));
}

#[test]
fn pick_description_no_match() {
    let descriptions = vec![
        make_flavor("de", "Description 1", "a"),
        make_flavor("fr", "Description 2", "b"),
    ];

    let selected = select_description(descriptions);

    assert_eq!(selected, None);
}

#[test]
fn pick_description_empty() {
    assert_eq!(select_description(Vec::new()), None);
}

#[test]
fn pick_description_normalizes_only_selected() {
    let descriptions = vec![
        make_flavor("en", "first\nentry", "a"),
        make_flavor("en", "chosen\nentry", "b"),
    ];

    let selected = select_description(descriptions);

    assert_eq!(selected, Some("chosen entry".to_string()));
}

#[test]
fn clean_description() {
    let raw = "When several of\nthese POK\u{e9}MON\ngather, their\x0celectricity could\nbuild and cause\nlightning storms.";
    let expected = "When several of these POK\u{e9}MON gather, their electricity could build and cause lightning storms.";

    let cleaned = clean_flavor_text(raw);

    assert_eq!(cleaned, expected);
}

#[test]
fn clean_collapses_all_whitespace_runs() {
    assert_eq!(clean_flavor_text("a\nb\x0cc  d"), "a b c d");
    assert_eq!(clean_flavor_text("  leading and trailing\t"), " leading and trailing ");
    assert_eq!(clean_flavor_text("wide\u{2003}\u{2003}space"), "wide space");
    assert_eq!(clean_flavor_text(""), "");
}

#[test]
fn clean_is_idempotent_on_samples() {
    let samples = ["a\nb\x0cc  d", "  x ", "no runs here", "\t\t", ""];
    for raw in samples {
        let once = clean_flavor_text(raw);
        let twice = clean_flavor_text(&once);
        assert_eq!(once, twice);
    }
}

#[test]
fn check_names() {
    assert!(validate_name("pikachu"));
    assert!(validate_name("Pikachu"));
    assert!(validate_name("two-part"));
    assert!(validate_name("pikachu2"));
}

#[test]
fn check_names_rejected() {
    assert!(!validate_name(""));
    assert!(!validate_name("2pikachu"));
    assert!(!validate_name("-pikachu"));
    assert!(!validate_name("two part"));
    assert!(!validate_name("name!"));
}
