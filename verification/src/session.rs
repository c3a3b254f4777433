//! One run of an extraction command, as a conversation with the host.
//!
//! The library decides and the host works: every step hands the host one
//! [`Action`] to perform and takes the [`Event`] that tells how it went. A
//! run is idle before its first step and after its last one; in between it
//! resolves the selected address (symbol, header fields, both ends of the
//! firmware range), holds a validated header, waits for the user to choose a
//! path, and waits for the file to be written.

use crate::byteorder::{decode_offset, decode_size, spec_decode_offset, spec_decode_size, Endianness};
use crate::command::{
    resolved_base, resolved_name, symbol_view, ExtractorCommand, FirmwareHeader, SymbolInfo,
    SymbolView,
};
use std::path::PathBuf;
use vstd::prelude::*;
use vstd::string::*;

verus! {

/// `std::path::PathBuf`, declared so that a run can hand the path that the
/// user chose from the prompt to the write. Nothing is claimed of it: the
/// library never looks inside a path.
#[verifier::external_type_specification]
#[verifier::external_body]
pub struct ExPathBuf(std::path::PathBuf);

/// What the binary declares about itself.
#[derive(Clone, Copy, Debug, PartialEq, Eq, Structural)]
pub struct ViewFormat {
    /// The byte order of its integers.
    pub endianness: Endianness,
    /// The width of its addresses in bytes.
    pub address_width: usize,
}

/// What a run is for.
#[derive(Clone, Copy, Debug, PartialEq, Eq, Structural)]
pub enum Goal {
    /// To tell whether firmware can be extracted at the address.
    Check,
    /// To extract the firmware at the address and save it.
    Extract,
}

/// What stays the same over a run.
#[derive(Clone, Copy, Debug, PartialEq, Eq, Structural)]
pub struct Task {
    /// The command that runs, and with it the layout of the header.
    pub command: ExtractorCommand,
    /// What the run is for.
    pub goal: Goal,
    /// What the binary declared about itself when the run began.
    pub format: ViewFormat,
}

/// How a run ended.
#[derive(Clone, Copy, Debug, PartialEq, Eq, Structural)]
pub enum Outcome {
    /// A check found a header whose firmware range is mapped.
    Available,
    /// No header could be decoded, or the range it names is not mapped, or
    /// an event did not answer what the run was waiting for.
    Rejected,
    /// The user dismissed the prompt for a path. Nothing was written.
    Aborted,
    /// The firmware was written to the chosen path.
    Written,
    /// Writing failed, and the user has been told.
    WriteFailed,
}

/// Firmware bytes copied out of the binary, with the name to save them under.
#[derive(Debug, PartialEq, Eq)]
pub struct ExtractedFirmware {
    /// The name that the resolver gave the firmware.
    pub suggested_name: String,
    /// The bytes as the host returned them.
    pub bytes: Vec<u8>,
}

/// An [`ExtractedFirmware`] as sequences.
pub struct ExtractedFirmwareView {
    pub suggested_name: Seq<char>,
    pub bytes: Seq<u8>,
}

impl View for ExtractedFirmware {
    type V = ExtractedFirmwareView;

    open spec fn view(&self) -> ExtractedFirmwareView {
        ExtractedFirmwareView { suggested_name: self.suggested_name@, bytes: self.bytes@ }
    }
}

/// What the host is asked to do next.
#[derive(Debug, PartialEq, Eq)]
pub enum Action {
    /// Look up the symbol that encloses `address`.
    LookupSymbol { address: u64 },
    /// Read `length` bytes of the binary, beginning at `address`.
    ReadBytes { address: u64, length: usize },
    /// Tell whether `address` lies in the mapped range of the binary.
    CheckAddress { address: u64 },
    /// Ask the user where to save the firmware.
    PromptSavePath { title: String, extension: String, file_name: String },
    /// Write `bytes` to the file at `path`, all of them or none.
    WriteFile { path: PathBuf, bytes: Vec<u8> },
    /// Tell the user of an error.
    ShowError { title: String, text: String },
    /// Nothing: the run is over.
    Finish { outcome: Outcome },
}

/// An [`Action`] with its texts and bytes as sequences.
pub enum ActionView {
    LookupSymbol { address: u64 },
    ReadBytes { address: u64, length: usize },
    CheckAddress { address: u64 },
    PromptSavePath { title: Seq<char>, extension: Seq<char>, file_name: Seq<char> },
    WriteFile { path: PathBuf, bytes: Seq<u8> },
    ShowError { title: Seq<char>, text: Seq<char> },
    Finish { outcome: Outcome },
}

impl View for Action {
    type V = ActionView;

    open spec fn view(&self) -> ActionView {
        match *self {
            Action::LookupSymbol { address } => ActionView::LookupSymbol { address },
            Action::ReadBytes { address, length } => ActionView::ReadBytes { address, length },
            Action::CheckAddress { address } => ActionView::CheckAddress { address },
            Action::PromptSavePath { title, extension, file_name } => ActionView::PromptSavePath {
                title: title@,
                extension: extension@,
                file_name: file_name@,
            },
            Action::WriteFile { path, bytes } => ActionView::WriteFile { path, bytes: bytes@ },
            Action::ShowError { title, text } => ActionView::ShowError {
                title: title@,
                text: text@,
            },
            Action::Finish { outcome } => ActionView::Finish { outcome },
        }
    }
}

/// How the host's work on the last [`Action`] went.
#[derive(Debug, PartialEq, Eq)]
pub enum Event {
    /// The symbol that encloses the address, if there is one.
    Symbol(Option<SymbolInfo>),
    /// The bytes that could be read.
    Bytes(Vec<u8>),
    /// Whether the address is mapped.
    AddressChecked(bool),
    /// The path that the user chose, or `None` if the prompt was dismissed.
    SavePath(Option<PathBuf>),
    /// Whether the file was written, with the system's description of the
    /// error if it was not.
    WriteFinished(Result<(), String>),
    /// The user has seen the error.
    ErrorShown,
}

/// An [`Event`] with its texts and bytes as sequences.
pub enum EventView {
    Symbol(Option<SymbolView>),
    Bytes(Seq<u8>),
    AddressChecked(bool),
    SavePath(Option<PathBuf>),
    WriteFinished(Result<(), Seq<char>>),
    ErrorShown,
}

impl View for Event {
    type V = EventView;

    open spec fn view(&self) -> EventView {
        match *self {
            Event::Symbol(symbol) => EventView::Symbol(symbol_view(symbol)),
            Event::Bytes(data) => EventView::Bytes(data@),
            Event::AddressChecked(mapped) => EventView::AddressChecked(mapped),
            Event::SavePath(path) => EventView::SavePath(path),
            Event::WriteFinished(result) => EventView::WriteFinished(
                match result {
                    Ok(_) => Ok(()),
                    Err(description) => Err(description@),
                },
            ),
            Event::ErrorShown => EventView::ErrorShown,
        }
    }
}

/// Where a run stands between two steps.
#[derive(Debug, PartialEq, Eq)]
pub enum State {
    /// No run is under way.
    Idle,
    /// Resolving: the symbol that encloses the selected address is awaited.
    AwaitingSymbol { raw_address: u64 },
    /// Resolving: the bytes of the pointer field are awaited.
    AwaitingOffsetField { name: String, base_address: u64 },
    /// Resolving: the bytes of the size field are awaited.
    AwaitingSizeField { name: String, base_address: u64, data_offset: u64 },
    /// Resolving: the host is to say whether the firmware's first address is
    /// mapped.
    AwaitingStartCheck { name: String, header: FirmwareHeader },
    /// Resolving: the host is to say whether the address behind the firmware
    /// is mapped.
    AwaitingEndCheck { name: String, header: FirmwareHeader },
    /// Validated: the firmware bytes are awaited.
    Validated { name: String, header: FirmwareHeader },
    /// The user is choosing the path to save to.
    UserChoosingPath { firmware: ExtractedFirmware },
    /// The file is being written.
    Writing,
    /// Writing failed, and the user is being told.
    WriteFailed,
}

/// A [`State`] with its texts and bytes as sequences.
pub enum StateView {
    Idle,
    AwaitingSymbol { raw_address: u64 },
    AwaitingOffsetField { name: Seq<char>, base_address: u64 },
    AwaitingSizeField { name: Seq<char>, base_address: u64, data_offset: u64 },
    AwaitingStartCheck { name: Seq<char>, header: FirmwareHeader },
    AwaitingEndCheck { name: Seq<char>, header: FirmwareHeader },
    Validated { name: Seq<char>, header: FirmwareHeader },
    UserChoosingPath { firmware: ExtractedFirmwareView },
    Writing,
    WriteFailed,
}

impl View for State {
    type V = StateView;

    open spec fn view(&self) -> StateView {
        match *self {
            State::Idle => StateView::Idle,
            State::AwaitingSymbol { raw_address } => StateView::AwaitingSymbol { raw_address },
            State::AwaitingOffsetField { name, base_address } => StateView::AwaitingOffsetField {
                name: name@,
                base_address,
            },
            State::AwaitingSizeField {
                name,
                base_address,
                data_offset,
            } => StateView::AwaitingSizeField { name: name@, base_address, data_offset },
            State::AwaitingStartCheck { name, header } => StateView::AwaitingStartCheck {
                name: name@,
                header,
            },
            State::AwaitingEndCheck { name, header } => StateView::AwaitingEndCheck {
                name: name@,
                header,
            },
            State::Validated { name, header } => StateView::Validated { name: name@, header },
            State::UserChoosingPath { firmware } => StateView::UserChoosingPath {
                firmware: firmware@,
            },
            State::Writing => StateView::Writing,
            State::WriteFailed => StateView::WriteFailed,
        }
    }
}

/// A run: its task and where it stands.
#[derive(Debug, PartialEq, Eq)]
pub struct Run {
    /// What the run is to do, on which kind of binary.
    pub task: Task,
    /// Where the run stands.
    pub state: State,
}

/// The end of a run: back to idle, with nothing left to do.
pub open spec fn finish(outcome: Outcome) -> (StateView, ActionView) {
    (StateView::Idle, ActionView::Finish { outcome })
}

/// The first step of a run: the symbol at the selected address is looked up.
pub open spec fn begin(raw_address: u64) -> (StateView, ActionView) {
    (StateView::AwaitingSymbol { raw_address }, ActionView::LookupSymbol { address: raw_address })
}

/// The symbol lookup has been answered. The header base and the name follow
/// from it, and the pointer field is read next, if the binary's addresses are
/// four or eight bytes wide and the field lies in the address space.
pub open spec fn on_symbol(task: Task, raw_address: u64, symbol: Option<SymbolView>) -> (
    StateView,
    ActionView,
) {
    let name = resolved_name(symbol, raw_address);
    let base_address = resolved_base(symbol, raw_address);
    let width = task.format.address_width;
    match task.command.spec_offset_field_addr(base_address) {
        Some(address) if width == 4 || width == 8 => (
            StateView::AwaitingOffsetField { name, base_address },
            ActionView::ReadBytes { address, length: width },
        ),
        _ => finish(Outcome::Rejected),
    }
}

/// The bytes of the pointer field have come. If they decode, the size field
/// is read next.
pub open spec fn on_offset_field(task: Task, name: Seq<char>, base_address: u64, data: Seq<u8>) -> (
    StateView,
    ActionView,
) {
    match (
        spec_decode_offset(data, task.format.endianness, task.format.address_width),
        task.command.spec_size_field_addr(base_address),
    ) {
        (Some(data_offset), Some(address)) => (
            StateView::AwaitingSizeField { name, base_address, data_offset },
            ActionView::ReadBytes { address, length: 4 },
        ),
        _ => finish(Outcome::Rejected),
    }
}

/// The bytes of the size field have come. If they decode, the header is
/// complete, and the host is asked whether the firmware's first address is
/// mapped.
pub open spec fn on_size_field(
    task: Task,
    name: Seq<char>,
    base_address: u64,
    data_offset: u64,
    data: Seq<u8>,
) -> (StateView, ActionView) {
    match spec_decode_size(data, task.format.endianness) {
        Some(data_size) => (
            StateView::AwaitingStartCheck {
                name,
                header: FirmwareHeader { base_address, data_offset, data_size },
            },
            ActionView::CheckAddress { address: data_offset },
        ),
        None => finish(Outcome::Rejected),
    }
}

/// The host has said whether the firmware's first address is mapped. If it
/// is, and the address behind the firmware exists, that one is asked about.
pub open spec fn on_start_check(name: Seq<char>, header: FirmwareHeader, mapped: bool) -> (
    StateView,
    ActionView,
) {
    match header.spec_data_end() {
        Some(end) if mapped => (
            StateView::AwaitingEndCheck { name, header },
            ActionView::CheckAddress { address: end },
        ),
        _ => finish(Outcome::Rejected),
    }
}

/// The host has said whether the address behind the firmware is mapped. If it
/// is, a check ends here, and an extraction reads the firmware bytes.
pub open spec fn on_end_check(task: Task, name: Seq<char>, header: FirmwareHeader, mapped: bool) -> (
    StateView,
    ActionView,
) {
    if !mapped {
        finish(Outcome::Rejected)
    } else {
        match task.goal {
            Goal::Check => finish(Outcome::Available),
            Goal::Extract => (
                StateView::Validated { name, header },
                ActionView::ReadBytes {
                    address: header.data_offset,
                    length: header.data_size as usize,
                },
            ),
        }
    }
}

/// The firmware bytes have come. The user is asked for a path, with the
/// firmware's name in the title and in the file name that is offered.
pub open spec fn on_firmware_bytes(name: Seq<char>, data: Seq<u8>) -> (StateView, ActionView) {
    (
        StateView::UserChoosingPath {
            firmware: ExtractedFirmwareView { suggested_name: name, bytes: data },
        },
        ActionView::PromptSavePath {
            title: "Save "@ + name,
            extension: "bin"@,
            file_name: name + ".bin"@,
        },
    )
}

/// The prompt has been answered. The firmware is written to the path chosen;
/// a dismissed prompt ends the run.
pub open spec fn on_save_path(firmware: ExtractedFirmwareView, path: Option<PathBuf>) -> (
    StateView,
    ActionView,
) {
    match path {
        Some(path) => (StateView::Writing, ActionView::WriteFile { path, bytes: firmware.bytes }),
        None => finish(Outcome::Aborted),
    }
}

/// The write has ended. A failure is shown to the user with the system's
/// description of it.
pub open spec fn on_write_finished(result: Result<(), Seq<char>>) -> (StateView, ActionView) {
    match result {
        Ok(_) => finish(Outcome::Written),
        Err(description) => (
            StateView::WriteFailed,
            ActionView::ShowError {
                title: "Whoops"@,
                text: "File was not saved: "@ + description,
            },
        ),
    }
}

/// The step that a run takes from `state` when `event` arrives. An event that
/// does not answer what the state awaits ends the run as rejected.
pub open spec fn transition(task: Task, state: StateView, event: EventView) -> (
    StateView,
    ActionView,
) {
    match (state, event) {
        (StateView::AwaitingSymbol { raw_address }, EventView::Symbol(symbol)) => on_symbol(
            task,
            raw_address,
            symbol,
        ),
        (
            StateView::AwaitingOffsetField { name, base_address },
            EventView::Bytes(data),
        ) => on_offset_field(task, name, base_address, data),
        (
            StateView::AwaitingSizeField { name, base_address, data_offset },
            EventView::Bytes(data),
        ) => on_size_field(task, name, base_address, data_offset, data),
        (
            StateView::AwaitingStartCheck { name, header },
            EventView::AddressChecked(mapped),
        ) => on_start_check(name, header, mapped),
        (
            StateView::AwaitingEndCheck { name, header },
            EventView::AddressChecked(mapped),
        ) => on_end_check(task, name, header, mapped),
        (StateView::Validated { name, header }, EventView::Bytes(data)) => on_firmware_bytes(
            name,
            data,
        ),
        (StateView::UserChoosingPath { firmware }, EventView::SavePath(path)) => on_save_path(
            firmware,
            path,
        ),
        (StateView::Writing, EventView::WriteFinished(result)) => on_write_finished(result),
        (StateView::WriteFailed, EventView::ErrorShown) => finish(Outcome::WriteFailed),
        _ => finish(Outcome::Rejected),
    }
}

/// The end of a run.
fn finished(outcome: Outcome) -> (next: (State, Action))
    ensures
        (next.0@, next.1@) == finish(outcome),
{
    (State::Idle, Action::Finish { outcome })
}

/// Takes the answer to the symbol lookup.
fn symbol_answered(task: Task, raw_address: u64, symbol: Option<SymbolInfo>) -> (next: (
    State,
    Action,
))
    ensures
        (next.0@, next.1@) == on_symbol(task, raw_address, symbol_view(symbol)),
{
    let (name, base_address) = ExtractorCommand::resolve(&symbol, raw_address);
    let width = task.format.address_width;
    match task.command.offset_field_addr(base_address) {
        Some(address) if width == 4 || width == 8 => (
            State::AwaitingOffsetField { name, base_address },
            Action::ReadBytes { address, length: width },
        ),
        _ => finished(Outcome::Rejected),
    }
}

/// Takes the bytes read at the pointer field.
fn offset_field_read(task: Task, name: String, base_address: u64, data: Vec<u8>) -> (next: (
    State,
    Action,
))
    ensures
        (next.0@, next.1@) == on_offset_field(task, name@, base_address, data@),
{
    let decoded = decode_offset(
        data.as_slice(),
        task.format.endianness,
        task.format.address_width,
    );
    match (decoded, task.command.size_field_addr(base_address)) {
        (Some(data_offset), Some(address)) => (
            State::AwaitingSizeField { name, base_address, data_offset },
            Action::ReadBytes { address, length: 4 },
        ),
        _ => finished(Outcome::Rejected),
    }
}

/// Takes the bytes read at the size field.
fn size_field_read(
    task: Task,
    name: String,
    base_address: u64,
    data_offset: u64,
    data: Vec<u8>,
) -> (next: (State, Action))
    ensures
        (next.0@, next.1@) == on_size_field(task, name@, base_address, data_offset, data@),
{
    match decode_size(data.as_slice(), task.format.endianness) {
        Some(data_size) => (
            State::AwaitingStartCheck {
                name,
                header: FirmwareHeader { base_address, data_offset, data_size },
            },
            Action::CheckAddress { address: data_offset },
        ),
        None => finished(Outcome::Rejected),
    }
}

/// Takes the host's word on the firmware's first address.
fn start_checked(name: String, header: FirmwareHeader, mapped: bool) -> (next: (State, Action))
    ensures
        (next.0@, next.1@) == on_start_check(name@, header, mapped),
{
    match header.data_end() {
        Some(end) if mapped => (
            State::AwaitingEndCheck { name, header },
            Action::CheckAddress { address: end },
        ),
        _ => finished(Outcome::Rejected),
    }
}

/// Takes the host's word on the address behind the firmware.
fn end_checked(task: Task, name: String, header: FirmwareHeader, mapped: bool) -> (next: (
    State,
    Action,
))
    ensures
        (next.0@, next.1@) == on_end_check(task, name@, header, mapped),
{
    if !mapped {
        finished(Outcome::Rejected)
    } else {
        match task.goal {
            Goal::Check => finished(Outcome::Available),
            Goal::Extract => (
                State::Validated { name, header },
                Action::ReadBytes {
                    address: header.data_offset,
                    length: header.data_size as usize,
                },
            ),
        }
    }
}

/// Takes the firmware bytes.
fn firmware_read(name: String, data: Vec<u8>) -> (next: (State, Action))
    ensures
        (next.0@, next.1@) == on_firmware_bytes(name@, data@),
{
    let mut title = "Save ".to_owned();
    title.append(name.as_str());
    let mut file_name = name.clone();
    file_name.append(".bin");
    (
        State::UserChoosingPath { firmware: ExtractedFirmware { suggested_name: name, bytes: data } },
        Action::PromptSavePath { title, extension: "bin".to_owned(), file_name },
    )
}

/// Takes the user's answer to the prompt.
fn path_chosen(firmware: ExtractedFirmware, path: Option<PathBuf>) -> (next: (State, Action))
    ensures
        (next.0@, next.1@) == on_save_path(firmware@, path),
{
    match path {
        Some(path) => (State::Writing, Action::WriteFile { path, bytes: firmware.bytes }),
        None => finished(Outcome::Aborted),
    }
}

/// Takes the result of the write.
fn write_finished(result: Result<(), String>) -> (next: (State, Action))
    ensures
        (next.0@, next.1@) == on_write_finished(
            match result {
                Ok(_) => Ok(()),
                Err(description) => Err(description@),
            },
        ),
{
    match result {
        Ok(_) => finished(Outcome::Written),
        Err(description) => {
            let mut text = "File was not saved: ".to_owned();
            text.append(description.as_str());
            (State::WriteFailed, Action::ShowError { title: "Whoops".to_owned(), text })
        },
    }
}

impl Run {
    /// Takes the event that tells how the last action went, and says what
    /// the host does next.
    pub fn step(self, event: Event) -> (next: (Run, Action))
        ensures
            next.0.task == self.task,
            (next.0.state@, next.1@) == transition(self.task, self.state@, event@),
    {
        let task = self.task;
        let (state, action) = match (self.state, event) {
            (State::AwaitingSymbol { raw_address }, Event::Symbol(symbol)) => symbol_answered(
                task,
                raw_address,
                symbol,
            ),
            (State::AwaitingOffsetField { name, base_address }, Event::Bytes(data)) => {
                offset_field_read(task, name, base_address, data)
            },
            (
                State::AwaitingSizeField { name, base_address, data_offset },
                Event::Bytes(data),
            ) => size_field_read(task, name, base_address, data_offset, data),
            (State::AwaitingStartCheck { name, header }, Event::AddressChecked(mapped)) => {
                start_checked(name, header, mapped)
            },
            (State::AwaitingEndCheck { name, header }, Event::AddressChecked(mapped)) => {
                end_checked(task, name, header, mapped)
            },
            (State::Validated { name, header }, Event::Bytes(data)) => firmware_read(name, data),
            (State::UserChoosingPath { firmware }, Event::SavePath(path)) => path_chosen(
                firmware,
                path,
            ),
            (State::Writing, Event::WriteFinished(result)) => write_finished(result),
            (State::WriteFailed, Event::ErrorShown) => finished(Outcome::WriteFailed),
            _ => finished(Outcome::Rejected),
        };
        (Run { task, state }, action)
    }
}

} // verus!
