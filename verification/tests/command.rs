use fwextract::command::{ExtractorCommand, FirmwareHeader, SymbolInfo};
use fwextract::layout::FirmwareType;

fn symbol(name: &str, address: u64) -> Option<SymbolInfo> {
    Some(SymbolInfo { full_name: name.to_string(), address })
}

#[test]
fn command_keeps_its_firmware_type() {
    assert_eq!(ExtractorCommand::new(FirmwareType::Gc).0, FirmwareType::Gc);
    assert_eq!(ExtractorCommand::new(FirmwareType::Sdma).0, FirmwareType::Sdma);
    assert_eq!(ExtractorCommand::new(FirmwareType::Catalyst).0, FirmwareType::Catalyst);
}

#[test]
fn symbol_gives_base_and_stripped_name() {
    let found = symbol("_fw_blob", 0x2000);
    assert_eq!(ExtractorCommand::resolve(&found, 0x2000), ("fw_blob".to_string(), 0x2000));
}

#[test]
fn symbol_base_wins_over_an_address_inside_the_symbol() {
    let found = symbol("_fw_blob", 0x2000);
    assert_eq!(ExtractorCommand::resolve(&found, 0x2010), ("fw_blob".to_string(), 0x2000));
    assert_eq!(ExtractorCommand::fw_info_addr(&found, 0x2010), 0x2000);
}

#[test]
fn symbol_name_without_underscore_is_kept() {
    let found = symbol("sdma_ucode", 0x40);
    assert_eq!(ExtractorCommand::resolve(&found, 0x40), ("sdma_ucode".to_string(), 0x40));
    let found = symbol("__gc", 0x40);
    assert_eq!(ExtractorCommand::resolve(&found, 0x40), ("_gc".to_string(), 0x40));
}

#[test]
fn missing_symbol_falls_back_to_the_raw_address() {
    assert_eq!(ExtractorCommand::resolve(&None, 0x1000), ("data_1000".to_string(), 0x1000));
    assert_eq!(ExtractorCommand::resolve(&None, 0xBEEF), ("data_BEEF".to_string(), 0xBEEF));
    assert_eq!(ExtractorCommand::resolve(&None, 0), ("data_0".to_string(), 0));
    assert_eq!(ExtractorCommand::fw_info_addr(&None, 0x1000), 0x1000);
}

#[test]
fn sym_to_fw_name_strips_one_underscore() {
    let named = |name: &str| SymbolInfo { full_name: name.to_string(), address: 0 };
    assert_eq!(ExtractorCommand::sym_to_fw_name(&named("_fw_blob")), "fw_blob");
    assert_eq!(ExtractorCommand::sym_to_fw_name(&named("fw_blob")), "fw_blob");
    assert_eq!(ExtractorCommand::sym_to_fw_name(&named("__fw_blob")), "_fw_blob");
}

#[test]
fn field_addresses_follow_the_layout() {
    let gc = ExtractorCommand::new(FirmwareType::Gc);
    assert_eq!(gc.size_field_addr(0x1000), Some(0x100C));
    assert_eq!(gc.offset_field_addr(0x1000), Some(0x1020));
    let sdma = ExtractorCommand::new(FirmwareType::Sdma);
    assert_eq!(sdma.size_field_addr(0x1000), Some(0x1008));
    assert_eq!(sdma.offset_field_addr(0x1000), Some(0x1010));
    assert_eq!(sdma.size_field_addr(0), Some(0x8));
}

#[test]
fn field_addresses_stop_at_the_end_of_the_address_space() {
    let gc = ExtractorCommand::new(FirmwareType::Gc);
    assert_eq!(gc.offset_field_addr(u64::MAX - 0x20), Some(u64::MAX));
    assert_eq!(gc.offset_field_addr(u64::MAX - 0x1F), None);
    assert_eq!(gc.size_field_addr(u64::MAX - 0xC), Some(u64::MAX));
    assert_eq!(gc.size_field_addr(u64::MAX - 0xB), None);
    assert_eq!(gc.size_field_addr(u64::MAX), None);
}

#[test]
fn data_end_is_offset_plus_size() {
    let header = FirmwareHeader { base_address: 0x1000, data_offset: 0x1020, data_size: 4 };
    assert_eq!(header.data_end(), Some(0x1024));
    let empty = FirmwareHeader { base_address: 0, data_offset: 7, data_size: 0 };
    assert_eq!(empty.data_end(), Some(7));
}

#[test]
fn data_end_does_not_wrap() {
    let last = FirmwareHeader { base_address: 0, data_offset: u64::MAX - 4, data_size: 4 };
    assert_eq!(last.data_end(), Some(u64::MAX));
    let beyond = FirmwareHeader { base_address: 0, data_offset: u64::MAX - 3, data_size: 4 };
    assert_eq!(beyond.data_end(), None);
    let far = FirmwareHeader { base_address: 0, data_offset: u64::MAX, data_size: u32::MAX };
    assert_eq!(far.data_end(), None);
}
