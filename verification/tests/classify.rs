use compressible::classifier::{classify, classify_essence};
use compressible::essence::essence_of;
use compressible::is_compressible;
use compressible::registry::{REFERENCE_ENTRIES, REFERENCE_ENTRY_COUNT};
use compressible::table::ReferenceTable;
use compressible::text::same_text;

#[test]
fn it_works() {
    assert_eq!(is_compressible("text/plain".to_string()), true);
    assert_eq!(
        is_compressible("application/x-web-app-manifest+json".to_string()),
        true
    );

    assert_eq!(is_compressible("image/jpeg; param=1".to_string()), false);
    assert_eq!(
        is_compressible("as;ldfkjas;ldfkja;lsdfj".to_string()),
        false
    );
}

#[test]
fn every_string_gets_an_answer() {
    assert_eq!(is_compressible(String::new()), false);
    assert_eq!(is_compressible("text".to_string()), false);
    assert_eq!(is_compressible("/".to_string()), false);
    assert_eq!(is_compressible("/plain".to_string()), false);
    assert_eq!(is_compressible("text/".to_string()), false);
    assert_eq!(is_compressible("text/\u{0}plain".to_string()), false);
    assert_eq!(is_compressible("text\n/plain".to_string()), false);
    assert_eq!(is_compressible("text/pl\u{e4}in".to_string()), false);
    assert_eq!(is_compressible("\u{1f600}".to_string()), false);
    assert_eq!(is_compressible(";".to_string()), false);
    assert_eq!(is_compressible("text/plain; charset".to_string()), false);
    assert_eq!(is_compressible("text/plain; charset=\"utf-8".to_string()), false);
    let long = "a".repeat(200_000);
    assert_eq!(is_compressible(long), false);
    let long_subtype = format!("text/{}", "x".repeat(200_000));
    assert_eq!(is_compressible(long_subtype), false);
}

#[test]
fn parameters_do_not_change_the_answer() {
    assert_eq!(REFERENCE_ENTRIES.len(), REFERENCE_ENTRY_COUNT);
    for (essence, stored) in REFERENCE_ENTRIES.iter() {
        assert_eq!(is_compressible(essence.to_string()), *stored, "{}", essence);
        let with_charset = format!("{}; charset=utf-8", essence);
        assert_eq!(is_compressible(with_charset), *stored, "{}", essence);
        let with_other = format!("{};q=0.5; boundary=\"a b\"", essence);
        assert_eq!(is_compressible(with_other), *stored, "{}", essence);
    }
    assert_eq!(is_compressible("image/jpeg".to_string()), false);
    assert_eq!(is_compressible("image/jpeg; charset=utf-8".to_string()), false);
}

#[test]
fn letter_case_does_not_change_the_answer() {
    assert_eq!(
        is_compressible("TEXT/PLAIN".to_string()),
        is_compressible("text/plain".to_string())
    );
    assert_eq!(is_compressible("TEXT/PLAIN".to_string()), true);
    assert_eq!(is_compressible("Application/JSON; Charset=UTF-8".to_string()), true);
    assert_eq!(
        is_compressible("IMAGE/JPEG".to_string()),
        is_compressible("image/jpeg".to_string())
    );
    for (essence, stored) in REFERENCE_ENTRIES.iter() {
        assert_eq!(is_compressible(essence.to_uppercase()), *stored, "{}", essence);
    }
}

#[test]
fn repeated_calls_agree() {
    let inputs = ["text/plain", "image/jpeg; param=1", "", "as;ldfkjas;ldfkja;lsdfj"];
    for input in inputs.iter() {
        let first = is_compressible(input.to_string());
        for _ in 0..5 {
            assert_eq!(is_compressible(input.to_string()), first);
        }
    }
}

#[test]
fn essence_is_lower_case_text_before_parameters() {
    assert_eq!(essence_of("text/plain"), Some("text/plain".to_string()));
    assert_eq!(essence_of("TEXT/Plain"), Some("text/plain".to_string()));
    assert_eq!(essence_of("text/plain; charset=utf-8"), Some("text/plain".to_string()));
    assert_eq!(essence_of("text/plain;charset=utf-8"), Some("text/plain".to_string()));
    assert_eq!(essence_of("Text/Plain; Charset=UTF-8; Foo=Bar"), Some("text/plain".to_string()));
    assert_eq!(essence_of("text/plain; charset=\"utf-8\"; a=b"), Some("text/plain".to_string()));
    assert_eq!(essence_of("text/plain;"), Some("text/plain".to_string()));
    assert_eq!(essence_of("text/plain;   "), Some("text/plain".to_string()));
    assert_eq!(essence_of("image/SVG+xml; q=\"\u{e4};\""), Some("image/svg+xml".to_string()));
    assert_eq!(essence_of("*/*"), Some("*/*".to_string()));
    assert_eq!(essence_of("*/*; q=0.8"), Some("*/*".to_string()));
    assert_eq!(essence_of("image/*"), Some("image/*".to_string()));
    assert_eq!(essence_of("a/b"), Some("a/b".to_string()));
    assert_eq!(essence_of(""), None);
    assert_eq!(essence_of("text"), None);
    assert_eq!(essence_of("/plain"), None);
    assert_eq!(essence_of("text/plain ; charset=utf-8"), None);
    assert_eq!(essence_of("text/;charset=utf-8"), None);
    assert_eq!(essence_of("text/plain; charset"), None);
    assert_eq!(essence_of("f o o / bar"), None);
    assert_eq!(essence_of("as;ldfkjas;ldfkja;lsdfj"), None);
}

#[test]
fn essence_matches_its_description_on_accepted_input() {
    let samples = [
        "text/plain",
        "TEXT/HTML;level=1",
        "Application/Vnd.Api+JSON; a=b; c=\"D;E\"",
        "multipart/form-data; boundary=--------FooBar",
        "x/y;",
        "X-Shader/X-Vertex; charset=utf-8; charset=UTF-8",
    ];
    for sample in samples.iter() {
        let head = sample.split(';').next().unwrap().to_ascii_lowercase();
        assert_eq!(essence_of(sample), Some(head), "{}", sample);
    }
}

#[test]
fn lookup_is_exact() {
    let table = ReferenceTable::standard();
    assert_eq!(table.lookup("text/plain"), Some(true));
    assert_eq!(table.lookup("application/json"), Some(true));
    assert_eq!(table.lookup("x-shader/x-vertex"), Some(true));
    assert_eq!(table.lookup("application/3gpdash-qoe-report+xml"), Some(true));
    assert_eq!(table.lookup("image/jpeg"), None);
    assert_eq!(table.lookup("TEXT/PLAIN"), None);
    assert_eq!(table.lookup("text/plain; charset=utf-8"), None);
    assert_eq!(table.lookup("text/plai"), None);
    assert_eq!(table.lookup("text/plain "), None);
    assert_eq!(table.lookup("text/*"), None);
    assert_eq!(table.lookup(""), None);
    for (essence, stored) in REFERENCE_ENTRIES.iter() {
        assert_eq!(table.lookup(essence), Some(*stored));
    }
}

#[test]
fn stored_false_is_not_absent() {
    let rows = [("text/plain", true), ("image/jpeg", false)];
    let table = ReferenceTable::from_entries(&rows).unwrap();
    assert_eq!(table.lookup("image/jpeg"), Some(false));
    assert_eq!(table.lookup("image/png"), None);
    assert_eq!(table.lookup("text/plain"), Some(true));
    assert_eq!(classify_essence(&table, Some("image/jpeg")), false);
    assert_eq!(classify_essence(&table, Some("image/png")), false);
    assert_eq!(classify_essence(&table, Some("text/plain")), true);
    assert_eq!(classify_essence(&table, None), false);
    assert_eq!(classify(&table, "IMAGE/JPEG; q=1"), false);
    assert_eq!(classify(&table, "Text/Plain; q=1"), true);
    assert_eq!(classify(&table, "text"), false);
}

#[test]
fn conflicting_rows_are_refused() {
    let conflict = [("text/plain", true), ("image/jpeg", false), ("text/plain", false)];
    assert!(ReferenceTable::from_entries(&conflict).is_none());
    let neighbours = [("a/b", false), ("a/b", true)];
    assert!(ReferenceTable::from_entries(&neighbours).is_none());
    let repeated = [("text/plain", true), ("image/jpeg", false), ("text/plain", true)];
    let table = ReferenceTable::from_entries(&repeated).unwrap();
    assert_eq!(table.lookup("text/plain"), Some(true));
    let none: [(&str, bool); 0] = [];
    let empty = ReferenceTable::from_entries(&none).unwrap();
    assert_eq!(empty.lookup("text/plain"), None);
    assert_eq!(classify(&empty, "text/plain"), false);
    assert!(ReferenceTable::from_entries(&REFERENCE_ENTRIES).is_some());
}

#[test]
fn reference_data_has_no_duplicate_and_only_plain_keys() {
    for (i, (essence, _)) in REFERENCE_ENTRIES.iter().enumerate() {
        assert!(!essence.contains(';'));
        assert_eq!(essence.to_ascii_lowercase(), *essence);
        assert_eq!(essence.matches('/').count(), 1);
        for (other, _) in REFERENCE_ENTRIES[i + 1..].iter() {
            assert_ne!(essence, other);
        }
    }
}

#[test]
fn classify_essence_on_the_standard_table() {
    let table = ReferenceTable::standard();
    assert_eq!(classify_essence(&table, Some("text/plain")), true);
    assert_eq!(classify_essence(&table, Some("application/x-web-app-manifest+json")), true);
    assert_eq!(classify_essence(&table, Some("image/jpeg")), false);
    assert_eq!(classify_essence(&table, Some("TEXT/PLAIN")), false);
    assert_eq!(classify_essence(&table, Some("")), false);
    assert_eq!(classify_essence(&table, None), false);
}

#[test]
fn same_text_compares_whole_strings() {
    assert!(same_text("", ""));
    assert!(same_text("text/plain", "text/plain"));
    assert!(!same_text("text/plain", "text/plai"));
    assert!(!same_text("text/plain", "text/plaim"));
    assert!(!same_text("text/plain", "Text/plain"));
    assert!(!same_text("", "a"));
    assert!(same_text("gr\u{fc}n/\u{1f600}", "gr\u{fc}n/\u{1f600}"));
    assert!(!same_text("gr\u{fc}n", "gru\u{308}n"));
}
