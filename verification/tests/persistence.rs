//! Tests of the load/save contract: default safety, round-trip
//! durability, forward compatibility and corruption safety.

use class_notes::state::{ClassNotes, Mode, Page, DEFAULT_VALUE_TENTHS};

fn default_state() -> ClassNotes {
    ClassNotes::load(None)
}

#[test]
fn default_on_absent_blob() {
    let s = default_state();
    assert_eq!(s.label, "Hello World!");
    assert_eq!(s.value_tenths, DEFAULT_VALUE_TENTHS);
    assert_eq!(s.value_tenths, 31);
    assert_eq!(s.mode, Mode::NOTES);
    assert_eq!(s.page, Page::NONE);
}

#[test]
fn round_trip_preserves_durable_fields() {
    let mut s = default_state();
    s.set_label("abc".to_owned());
    s.select_mode(Mode::NONE);
    s.set_page(Page::KthSmallestIntro);
    s.set_value_tenths(77);
    let blob = s.save();
    let r = ClassNotes::load(Some(blob));
    assert_eq!(r.label, "abc");
    assert_eq!(r.mode, Mode::NONE);
    assert_eq!(r.page, Page::KthSmallestIntro);
    // The transient value is reset, not restored.
    assert_eq!(r.value_tenths, DEFAULT_VALUE_TENTHS);
}

#[test]
fn round_trip_non_ascii_label() {
    let mut s = default_state();
    s.set_label("h\u{00e9}llo \u{221e} \u{1f600}".to_owned());
    let blob = s.save();
    let r = ClassNotes::load(Some(blob));
    assert_eq!(r.label, "h\u{00e9}llo \u{221e} \u{1f600}");
    assert_eq!(r.mode, Mode::NOTES);
}

#[test]
fn round_trip_empty_label() {
    let mut s = default_state();
    s.set_label(String::new());
    let blob = s.save();
    let r = ClassNotes::load(Some(blob));
    assert_eq!(r.label, "");
}

#[test]
fn missing_records_default_fill() {
    // Only a mode record: the missing label and page records take their
    // defaults instead of failing the decode.
    let r = ClassNotes::load(Some(vec![2, 0]));
    assert_eq!(r.mode, Mode::NONE);
    assert_eq!(r.label, "Hello World!");
    assert_eq!(r.page, Page::NONE);
    assert_eq!(r.value_tenths, DEFAULT_VALUE_TENTHS);

    // Only a page record.
    let r = ClassNotes::load(Some(vec![3, 1]));
    assert_eq!(r.page, Page::KthSmallestIntro);
    assert_eq!(r.mode, Mode::NOTES);
    assert_eq!(r.label, "Hello World!");

    // Only a label record.
    let r = ClassNotes::load(Some(vec![1, b'h', b'i']));
    assert_eq!(r.label, "hi");
    assert_eq!(r.mode, Mode::NOTES);
    assert_eq!(r.page, Page::NONE);

    // An empty blob decodes with every field at its default.
    let r = ClassNotes::load(Some(Vec::new()));
    assert_eq!(r.label, "Hello World!");
    assert_eq!(r.mode, Mode::NOTES);
    assert_eq!(r.page, Page::NONE);
}

fn assert_is_default(r: &ClassNotes) {
    assert_eq!(r.label, "Hello World!");
    assert_eq!(r.value_tenths, DEFAULT_VALUE_TENTHS);
    assert_eq!(r.mode, Mode::NOTES);
    assert_eq!(r.page, Page::NONE);
}

#[test]
fn corrupt_blob_falls_back_to_default() {
    // Unknown record tag.
    assert_is_default(&ClassNotes::load(Some(vec![9, 0])));
    // Truncated record: a tag with no selector byte.
    assert_is_default(&ClassNotes::load(Some(vec![2])));
    assert_is_default(&ClassNotes::load(Some(vec![3])));
    // Selector byte outside its enumeration.
    assert_is_default(&ClassNotes::load(Some(vec![2, 5])));
    assert_is_default(&ClassNotes::load(Some(vec![3, 200])));
    // Label bytes that are not UTF-8.
    assert_is_default(&ClassNotes::load(Some(vec![1, 0xff, 0xfe])));
    // Arbitrary garbage.
    assert_is_default(&ClassNotes::load(Some(vec![255, 1, 2, 3, 4, 5])));
    // A well-formed prefix does not survive a malformed remainder.
    assert_is_default(&ClassNotes::load(Some(vec![2, 0, 9])));
}

#[test]
fn value_is_never_persisted() {
    let mut s = default_state();
    for _ in 0..5 {
        s.increment_value();
    }
    assert_eq!(s.value_tenths, 81);
    let blob = s.save();
    let r = ClassNotes::load(Some(blob));
    assert_eq!(r.value_tenths, DEFAULT_VALUE_TENTHS);
}
