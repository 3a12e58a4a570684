use nviq_ime::typedef::{
    pack, unpack_layout, unpack_method, NVIQ_IME_LAYOUT_CHINESE_SIMPLIFIED,
    NVIQ_IME_LAYOUT_CHINESE_TRADITIONAL, NVIQ_IME_LAYOUT_JAPANESE, NVIQ_IME_LAYOUT_KOREAN,
    NVIQ_IME_LAYOUT_NONE, NVIQ_IME_LAYOUT_US, NVIQ_IME_METHOD_NONE, NVIQ_IME_METHOD_PINYIN,
    NVIQ_IME_METHOD_WUBI,
};

#[test]
fn pack_round_trips_every_layout_constant() {
    let layouts = [
        NVIQ_IME_LAYOUT_NONE,
        NVIQ_IME_LAYOUT_US,
        NVIQ_IME_LAYOUT_CHINESE_SIMPLIFIED,
        NVIQ_IME_LAYOUT_CHINESE_TRADITIONAL,
        NVIQ_IME_LAYOUT_JAPANESE,
        NVIQ_IME_LAYOUT_KOREAN,
    ];
    for layout in layouts {
        let packed = pack(layout, NVIQ_IME_METHOD_NONE);
        assert_eq!(unpack_layout(packed), layout);
        assert_eq!(unpack_method(packed), NVIQ_IME_METHOD_NONE);
    }
}

#[test]
fn pack_round_trips_every_method_constant() {
    let methods = [NVIQ_IME_METHOD_NONE, NVIQ_IME_METHOD_PINYIN, NVIQ_IME_METHOD_WUBI];
    for method in methods {
        let packed = pack(NVIQ_IME_LAYOUT_CHINESE_SIMPLIFIED, method);
        assert_eq!(unpack_layout(packed), NVIQ_IME_LAYOUT_CHINESE_SIMPLIFIED);
        assert_eq!(unpack_method(packed), method);
    }
}

#[test]
fn packed_values_are_the_documented_codes() {
    assert_eq!(pack(NVIQ_IME_LAYOUT_US, NVIQ_IME_METHOD_NONE), 0x0409);
    assert_eq!(pack(NVIQ_IME_LAYOUT_CHINESE_SIMPLIFIED, NVIQ_IME_METHOD_PINYIN), 0x0804);
    assert_eq!(pack(NVIQ_IME_LAYOUT_CHINESE_SIMPLIFIED, NVIQ_IME_METHOD_WUBI), 0x00010804);
}
