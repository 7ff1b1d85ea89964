use aat_feature_map::feature_mappings::{
    feature_mappings, lookup, FeatureMapping, FeatureMappingTable, FeatureType,
};
use aat_feature_map::feature_selector::{
    COMMON_LIGATURES_OFF, COMMON_LIGATURES_ON, DEFAULT_UPPER_CASE, SLASHED_ZERO_OFF,
    SLASHED_ZERO_ON, UPPER_CASE_SMALL_CAPS, VERTICAL_FRACTIONS,
};
use aat_feature_map::tag::Tag;

#[test]
fn tag_from_bytes_packs_big_endian() {
    assert_eq!(Tag::from_bytes(b"afrc").value, 0x6166_7263);
    assert_eq!(Tag::from_bytes(b"zzzz").value, 0x7A7A_7A7A);
    assert_eq!(Tag::from_bytes(&[0, 0, 0, 0]).value, 0);
    assert_eq!(Tag::from_bytes(&[0xFF, 0xFF, 0xFF, 0xFF]).value, 0xFFFF_FFFF);
}

#[test]
fn new_keeps_its_arguments() {
    let m = FeatureMapping::new(b"liga", FeatureType::Ligatures, 2, 3);
    assert_eq!(m.ot_feature_tag, Tag::from_bytes(b"liga"));
    assert_eq!(m.aat_feature_type, FeatureType::Ligatures);
    assert_eq!(m.selector_to_enable, 2);
    assert_eq!(m.selector_to_disable, 3);
}

#[test]
fn table_tags_strictly_ascend() {
    let entries = feature_mappings();
    assert_eq!(entries.len(), 77);
    for w in entries.windows(2) {
        assert!(w[0].ot_feature_tag.value < w[1].ot_feature_tag.value);
    }
}

#[test]
fn every_entry_round_trips() {
    let entries = feature_mappings();
    for entry in &entries {
        let found = lookup(entry.ot_feature_tag).expect("a table tag must be found");
        assert_eq!(found, *entry);
    }
}

#[test]
fn absent_tag_is_not_found() {
    assert_eq!(lookup(Tag::from_bytes(b"zzzz")), None);
}

#[test]
fn lookup_liga() {
    let m = lookup(Tag::from_bytes(b"liga")).unwrap();
    assert_eq!(m.aat_feature_type, FeatureType::Ligatures);
    assert_eq!(m.selector_to_enable, COMMON_LIGATURES_ON);
    assert_eq!(m.selector_to_disable, COMMON_LIGATURES_OFF);
}

#[test]
fn lookup_c2sc() {
    let m = lookup(Tag::from_bytes(b"c2sc")).unwrap();
    assert_eq!(m.aat_feature_type, FeatureType::UpperCase);
    assert_eq!(m.selector_to_enable, UPPER_CASE_SMALL_CAPS);
    assert_eq!(m.selector_to_disable, DEFAULT_UPPER_CASE);
}

#[test]
fn lookup_xxxx() {
    assert_eq!(lookup(Tag::from_bytes(b"xxxx")), None);
}

#[test]
fn stylistic_sets_follow_their_index() {
    for n in 1u8..=20 {
        let bytes = [b's', b's', b'0' + n / 10, b'0' + n % 10];
        let m = lookup(Tag::from_bytes(&bytes)).unwrap();
        assert_eq!(m.aat_feature_type, FeatureType::StylisticAlternatives);
        assert_eq!(m.selector_to_enable, 2 * n);
        assert_eq!(m.selector_to_disable, 2 * n + 1);
    }
}

#[test]
fn first_and_last_entries_are_found() {
    let first = lookup(Tag::from_bytes(b"afrc")).unwrap();
    assert_eq!(first.aat_feature_type, FeatureType::Fractions);
    assert_eq!(first.selector_to_enable, VERTICAL_FRACTIONS);
    let last = lookup(Tag::from_bytes(b"zero")).unwrap();
    assert_eq!(last.aat_feature_type, FeatureType::TypographicExtras);
    assert_eq!(last.selector_to_enable, SLASHED_ZERO_ON);
    assert_eq!(last.selector_to_disable, SLASHED_ZERO_OFF);
}

#[test]
fn tags_outside_the_table_range_are_not_found() {
    assert_eq!(lookup(Tag::from_bytes(b"aaaa")), None);
    assert_eq!(lookup(Tag { value: 0 }), None);
    assert_eq!(lookup(Tag { value: u32::MAX }), None);
}

#[test]
fn near_misses_between_entries_are_not_found() {
    assert_eq!(lookup(Tag::from_bytes(b"ss00")), None);
    assert_eq!(lookup(Tag::from_bytes(b"ss21")), None);
    assert_eq!(lookup(Tag::from_bytes(b"vrt3")), None);
}

#[test]
fn table_type_answers_like_the_free_function() {
    let table = FeatureMappingTable::new();
    let tags = [*b"liga", *b"smcp", *b"zzzz", *b"vrtr"];
    for bytes in &tags {
        let tag = Tag::from_bytes(bytes);
        assert_eq!(table.lookup(tag), lookup(tag));
    }
}
