//! The extraction command of one firmware type: where its header lies and
//! under which name the firmware is saved.

use crate::layout::FirmwareType;
use crate::naming::{fallback_fw_name, fallback_name, strip_leading_underscore, strip_symbol_name};
use vstd::prelude::*;

verus! {

/// What the host tells of the symbol that encloses an address.
#[derive(Debug, PartialEq, Eq)]
pub struct SymbolInfo {
    /// The fully qualified name of the symbol.
    pub full_name: String,
    /// The address at which the symbol begins.
    pub address: u64,
}

/// A [`SymbolInfo`] with its name as a sequence of characters.
pub struct SymbolView {
    pub full_name: Seq<char>,
    pub address: u64,
}

impl View for SymbolInfo {
    type V = SymbolView;

    open spec fn view(&self) -> SymbolView {
        SymbolView { full_name: self.full_name@, address: self.address }
    }
}

/// The view of the answer to a symbol lookup.
pub open spec fn symbol_view(symbol: Option<SymbolInfo>) -> Option<SymbolView> {
    match symbol {
        Some(found) => Some(found@),
        None => None,
    }
}

/// The name under which firmware is saved: the enclosing symbol's name
/// without its leading underscore, or a name made from the raw address where
/// no symbol encloses it.
pub open spec fn resolved_name(symbol: Option<SymbolView>, raw_address: u64) -> Seq<char> {
    match symbol {
        Some(found) => strip_leading_underscore(found.full_name),
        None => fallback_name(raw_address),
    }
}

/// The address at which the firmware header begins: that of the enclosing
/// symbol, or the raw address where no symbol encloses it.
pub open spec fn resolved_base(symbol: Option<SymbolView>, raw_address: u64) -> u64 {
    match symbol {
        Some(found) => found.address,
        None => raw_address,
    }
}

/// The two fields of a firmware header, as decoded at a header base.
#[derive(Clone, Copy, Debug, PartialEq, Eq, Structural)]
pub struct FirmwareHeader {
    /// The address at which the header begins.
    pub base_address: u64,
    /// The address at which the firmware bytes begin.
    pub data_offset: u64,
    /// The number of firmware bytes.
    pub data_size: u32,
}

impl FirmwareHeader {
    /// The address just behind the firmware bytes, where the address space
    /// holds it.
    pub open spec fn spec_data_end(self) -> Option<u64> {
        if self.data_offset + self.data_size <= u64::MAX {
            Some((self.data_offset + self.data_size) as u64)
        } else {
            None
        }
    }

    /// The address just behind the firmware bytes, or `None` where the sum
    /// of offset and size leaves the address space.
    #[verifier::when_used_as_spec(spec_data_end)]
    pub fn data_end(self) -> (end: Option<u64>)
        ensures
            end == self.spec_data_end(),
    {
        self.data_offset.checked_add(self.data_size as u64)
    }
}

/// The command that extracts firmware of one type.
#[derive(Clone, Copy, Debug, PartialEq, Eq, Structural)]
pub struct ExtractorCommand(pub FirmwareType);

impl ExtractorCommand {
    /// The command for firmware of type `ty`.
    pub fn new(ty: FirmwareType) -> (command: Self)
        ensures
            command.0 == ty,
    {
        Self(ty)
    }

    /// The address of the pointer field of a header that begins at `base`, or
    /// `None` where the address space ends before it.
    pub open spec fn spec_offset_field_addr(&self, base: u64) -> Option<u64> {
        base.checked_add(self.0.spec_layout().offset_field_offset)
    }

    /// The address of the size field of a header that begins at `base`, or
    /// `None` where the address space ends before it.
    pub open spec fn spec_size_field_addr(&self, base: u64) -> Option<u64> {
        base.checked_add(self.0.spec_layout().size_field_offset)
    }

    /// The address of the pointer field of a header that begins at `base`.
    #[verifier::when_used_as_spec(spec_offset_field_addr)]
    pub fn offset_field_addr(&self, base: u64) -> (address: Option<u64>)
        ensures
            address == self.spec_offset_field_addr(base),
    {
        base.checked_add(self.0.off_field_off())
    }

    /// The address of the size field of a header that begins at `base`.
    #[verifier::when_used_as_spec(spec_size_field_addr)]
    pub fn size_field_addr(&self, base: u64) -> (address: Option<u64>)
        ensures
            address == self.spec_size_field_addr(base),
    {
        base.checked_add(self.0.size_field_off())
    }

    /// The name under which the firmware of a symbol is saved.
    pub fn sym_to_fw_name(sym: &SymbolInfo) -> (name: String)
        ensures
            name@ == strip_leading_underscore(sym@.full_name),
    {
        strip_symbol_name(sym.full_name.as_str())
    }

    /// The address at which the firmware header begins, given the symbol
    /// that the host found to enclose `offset`.
    pub fn fw_info_addr(symbol: &Option<SymbolInfo>, offset: u64) -> (base: u64)
        ensures
            base == resolved_base(symbol_view(*symbol), offset),
    {
        match symbol {
            Some(found) => found.address,
            None => offset,
        }
    }

    /// Resolves a raw address to the name under which its firmware is saved
    /// and to the address at which its header begins.
    pub fn resolve(symbol: &Option<SymbolInfo>, raw_address: u64) -> (resolved: (String, u64))
        ensures
            resolved.0@ == resolved_name(symbol_view(*symbol), raw_address),
            resolved.1 == resolved_base(symbol_view(*symbol), raw_address),
    {
        let name = match symbol {
            Some(found) => Self::sym_to_fw_name(found),
            None => fallback_fw_name(raw_address),
        };
        (name, Self::fw_info_addr(symbol, raw_address))
    }
}

} // verus!
