use fwextract::layout::{FirmwareLayout, FirmwareType};

#[test]
fn gc_fields_lie_at_0xc_and_0x20() {
    assert_eq!(FirmwareType::Gc.size_field_off(), 0xC);
    assert_eq!(FirmwareType::Gc.off_field_off(), 0x20);
}

#[test]
fn sdma_fields_lie_at_0x8_and_0x10() {
    assert_eq!(FirmwareType::Sdma.size_field_off(), 0x8);
    assert_eq!(FirmwareType::Sdma.off_field_off(), 0x10);
}

#[test]
fn catalyst_shares_the_gc_layout() {
    assert_eq!(FirmwareType::Catalyst.size_field_off(), 0xC);
    assert_eq!(FirmwareType::Catalyst.off_field_off(), 0x20);
    assert_eq!(FirmwareType::Catalyst.layout(), FirmwareType::Gc.layout());
}

#[test]
fn layout_holds_both_offsets() {
    assert_eq!(
        FirmwareType::Gc.layout(),
        FirmwareLayout { size_field_offset: 0xC, offset_field_offset: 0x20 }
    );
    assert_eq!(
        FirmwareType::Sdma.layout(),
        FirmwareLayout { size_field_offset: 0x8, offset_field_offset: 0x10 }
    );
}

#[test]
fn layout_agrees_with_the_two_getters() {
    for ty in [FirmwareType::Gc, FirmwareType::Sdma, FirmwareType::Catalyst] {
        assert_eq!(ty.layout().size_field_offset, ty.size_field_off());
        assert_eq!(ty.layout().offset_field_offset, ty.off_field_off());
    }
}

#[test]
fn firmware_types_are_ordered_as_declared() {
    assert!(FirmwareType::Gc < FirmwareType::Sdma);
    assert!(FirmwareType::Sdma < FirmwareType::Catalyst);
    let mut types = vec![FirmwareType::Catalyst, FirmwareType::Gc, FirmwareType::Sdma];
    types.sort();
    assert_eq!(types, vec![FirmwareType::Gc, FirmwareType::Sdma, FirmwareType::Catalyst]);
}
