use nviq_ime::macos::{get_input_source, SourceTable};
use nviq_ime::typedef::{
    pack, NVIQ_IME_LAYOUT_CHINESE_SIMPLIFIED, NVIQ_IME_LAYOUT_JAPANESE, NVIQ_IME_LAYOUT_NONE,
    NVIQ_IME_LAYOUT_US, NVIQ_IME_METHOD_NONE, NVIQ_IME_METHOD_PINYIN, NVIQ_IME_METHOD_WUBI,
};

#[test]
fn table_is_a_bijection_over_its_entries() {
    let table = SourceTable::new();
    let pairs = [
        ("com.apple.keylayout.ABC", pack(NVIQ_IME_LAYOUT_US, NVIQ_IME_METHOD_NONE)),
        (
            "com.apple.inputmethod.SCIM.ITABC",
            pack(NVIQ_IME_LAYOUT_CHINESE_SIMPLIFIED, NVIQ_IME_METHOD_PINYIN),
        ),
        (
            "com.apple.inputmethod.SCIM.WBX",
            pack(NVIQ_IME_LAYOUT_CHINESE_SIMPLIFIED, NVIQ_IME_METHOD_WUBI),
        ),
    ];
    for (identifier, value) in pairs {
        assert_eq!(table.id_to_source(&identifier.to_string()), value);
        assert_eq!(table.source_to_id(value), Some(&identifier.to_string()));
    }
}

#[test]
fn abc_keylayout_maps_to_us_and_back() {
    let table = SourceTable::new();
    let us = pack(NVIQ_IME_LAYOUT_US, NVIQ_IME_METHOD_NONE);
    let identifier = "com.apple.keylayout.ABC".to_string();
    assert_eq!(table.id_to_source(&identifier), us);
    assert_eq!(table.source_to_id(us), Some(&identifier));
}

#[test]
fn unknown_identifier_degrades_to_none() {
    let table = SourceTable::new();
    let value = table.id_to_source(&"org.example.unknown".to_string());
    assert_eq!(value, NVIQ_IME_LAYOUT_NONE);
}

#[test]
fn set_of_none_or_unmapped_value_has_no_target() {
    let table = SourceTable::new();
    assert_eq!(table.source_to_id(NVIQ_IME_LAYOUT_NONE), None);
    assert_eq!(table.source_to_id(pack(NVIQ_IME_LAYOUT_JAPANESE, NVIQ_IME_METHOD_NONE)), None);
}

#[test]
fn read_without_a_source_handle_yields_the_sentinel() {
    let table = SourceTable::new();
    assert_eq!(get_input_source(&table, None), NVIQ_IME_LAYOUT_NONE);
}

#[test]
fn set_then_read_back_round_trips() {
    let table = SourceTable::new();
    let us = pack(NVIQ_IME_LAYOUT_US, NVIQ_IME_METHOD_NONE);
    let target = table.source_to_id(us).expect("US layout has an entry").clone();
    assert_eq!(get_input_source(&table, Some(&target)), us);
}

#[test]
fn repeated_reads_yield_the_same_value() {
    let table = SourceTable::new();
    let identifier = "com.apple.inputmethod.SCIM.WBX".to_string();
    let first = get_input_source(&table, Some(&identifier));
    for _ in 0..10 {
        assert_eq!(get_input_source(&table, Some(&identifier)), first);
    }
}

#[test]
fn it_gets_current_input_source_multiple_times() {
    let table = SourceTable::new();
    let identifier = "com.apple.keylayout.ABC".to_string();
    for _ in 0..10 {
        get_input_source(&table, Some(&identifier));
    }
}

#[test]
fn it_sets_current_input_source_multiple_times() {
    let table = SourceTable::new();
    for _ in 0..10 {
        table.source_to_id(NVIQ_IME_LAYOUT_US);
    }
}
