use fwextract::naming::{fallback_fw_name, strip_symbol_name};

#[test]
fn one_leading_underscore_is_removed() {
    assert_eq!(strip_symbol_name("_fw_blob"), "fw_blob");
    assert_eq!(strip_symbol_name("_a"), "a");
}

#[test]
fn name_without_leading_underscore_is_unchanged() {
    assert_eq!(strip_symbol_name("fw_blob"), "fw_blob");
    assert_eq!(strip_symbol_name("gc_11_0_0_ucode_"), "gc_11_0_0_ucode_");
    assert_eq!(strip_symbol_name("a_"), "a_");
}

#[test]
fn only_the_first_of_several_underscores_is_removed() {
    assert_eq!(strip_symbol_name("__fw_blob"), "_fw_blob");
    assert_eq!(strip_symbol_name("___"), "__");
}

#[test]
fn empty_and_bare_underscore_names() {
    assert_eq!(strip_symbol_name(""), "");
    assert_eq!(strip_symbol_name("_"), "");
}

#[test]
fn names_beyond_ascii_are_kept_whole() {
    assert_eq!(strip_symbol_name("_microcode_\u{e9}\u{4e2d}"), "microcode_\u{e9}\u{4e2d}");
    assert_eq!(strip_symbol_name("\u{e9}_x"), "\u{e9}_x");
}

#[test]
fn fallback_name_is_data_and_upper_case_hex() {
    assert_eq!(fallback_fw_name(0x1000), "data_1000");
    assert_eq!(fallback_fw_name(0xDEAD_BEEF), "data_DEADBEEF");
    assert_eq!(fallback_fw_name(0xabcdef), "data_ABCDEF");
    assert_eq!(fallback_fw_name(255), "data_FF");
}

#[test]
fn fallback_name_has_no_leading_zeros() {
    assert_eq!(fallback_fw_name(0), "data_0");
    assert_eq!(fallback_fw_name(1), "data_1");
    assert_eq!(fallback_fw_name(0xF), "data_F");
    assert_eq!(fallback_fw_name(0x10), "data_10");
    assert_eq!(fallback_fw_name(0x0000_0001_0000_0000), "data_100000000");
}

#[test]
fn fallback_name_of_the_last_address() {
    assert_eq!(fallback_fw_name(u64::MAX), "data_FFFFFFFFFFFFFFFF");
}

#[test]
fn fallback_name_agrees_with_std_formatting() {
    let mut address: u64 = 1;
    for _ in 0..64 {
        assert_eq!(fallback_fw_name(address), format!("data_{:X}", address));
        let before = address.wrapping_sub(1);
        assert_eq!(fallback_fw_name(before), format!("data_{:X}", before));
        address = address.wrapping_mul(3).wrapping_add(0x9E37_79B9_7F4A_7C15);
    }
}
