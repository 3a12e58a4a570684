use nviq_ime::typedef::{NVIQ_IME_LAYOUT_NONE, NVIQ_IME_LAYOUT_US};
use nviq_ime::windows::{get_input_method, set_input_method_param};

#[test]
fn read_masks_the_raw_layout_handle_to_its_low_half() {
    assert_eq!(get_input_method(Some(0x0409_0409)), 0x0409);
    assert_eq!(get_input_method(Some(0xFFFF_0412)), 0x0412);
    assert_eq!(get_input_method(Some(0x0804)), 0x0804);
}

#[test]
fn read_without_a_foreground_window_yields_the_sentinel() {
    assert_eq!(get_input_method(None), NVIQ_IME_LAYOUT_NONE);
}

#[test]
fn change_request_carries_the_layout_as_its_parameter() {
    assert_eq!(set_input_method_param(NVIQ_IME_LAYOUT_US), Some(0x0409));
    assert_eq!(set_input_method_param(NVIQ_IME_LAYOUT_NONE), Some(0));
}
