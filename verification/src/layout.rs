//! The table of firmware header layouts.

use vstd::prelude::*;

verus! {

/// The kinds of firmware whose headers are understood.
#[derive(Clone, Copy, Debug, PartialEq, Eq, PartialOrd, Ord, Hash, Structural)]
pub enum FirmwareType {
    /// Graphics-core microcode.
    Gc,
    /// Microcode of the DMA engine.
    Sdma,
    /// Firmware carried by the Catalyst driver.
    Catalyst,
}

/// Where the two fields of a firmware header lie, as byte displacements from
/// the address at which the header begins.
#[derive(Clone, Copy, Debug, PartialEq, Eq, Structural)]
pub struct FirmwareLayout {
    /// Displacement of the 32-bit size field.
    pub size_field_offset: u64,
    /// Displacement of the pointer field, which is as wide as an address of
    /// the binary.
    pub offset_field_offset: u64,
}

impl FirmwareType {
    /// The layout table.
    pub open spec fn spec_layout(self) -> FirmwareLayout {
        match self {
            FirmwareType::Gc => FirmwareLayout { size_field_offset: 0xC, offset_field_offset: 0x20 },
            FirmwareType::Sdma => FirmwareLayout { size_field_offset: 0x8, offset_field_offset: 0x10 },
            FirmwareType::Catalyst => FirmwareLayout {
                size_field_offset: 0xC,
                offset_field_offset: 0x20,
            },
        }
    }

    /// Both field displacements of this firmware type.
    #[verifier::when_used_as_spec(spec_layout)]
    pub fn layout(self) -> (layout: FirmwareLayout)
        ensures
            layout == self.spec_layout(),
    {
        match self {
            FirmwareType::Gc => FirmwareLayout { size_field_offset: 0xC, offset_field_offset: 0x20 },
            FirmwareType::Sdma => FirmwareLayout { size_field_offset: 0x8, offset_field_offset: 0x10 },
            FirmwareType::Catalyst => FirmwareLayout {
                size_field_offset: 0xC,
                offset_field_offset: 0x20,
            },
        }
    }

    /// Displacement of the size field from the header base.
    pub fn size_field_off(self) -> (off: u64)
        ensures
            off == self.spec_layout().size_field_offset,
    {
        self.layout().size_field_offset
    }

    /// Displacement of the pointer field from the header base.
    pub fn off_field_off(self) -> (off: u64)
        ensures
            off == self.spec_layout().offset_field_offset,
    {
        self.layout().offset_field_offset
    }
}

} // verus!
