//! Runs of a command against a host: where they begin, and what they arrive
//! at when the host answers truthfully.
//!
//! A [`HostView`] stands for a loaded binary as the host shows it: its
//! declared format, its symbols, its bytes and its mapped addresses. Nothing
//! is assumed of how these relate, only that the host answers the same
//! question the same way for as long as a run lasts. Against such a host,
//! what a run decides is stated here in one piece, and the steps of
//! [`transition`] are proved to arrive at it.

use crate::byteorder::{
    bytes_of, capacity, lemma_fields_round_trip, spec_decode_offset, spec_decode_size,
};
use crate::command::{resolved_base, resolved_name, ExtractorCommand, FirmwareHeader, SymbolView};
use crate::naming::fallback_name;
use crate::session::{
    begin, finish, on_firmware_bytes, transition, Action, ActionView, EventView, Goal, Outcome,
    Run, State, StateView, Task, ViewFormat,
};
use vstd::prelude::*;

verus! {

/// A loaded binary, as the host answers for it.
pub struct HostView {
    /// The byte order and the address width that the binary declares.
    pub format: ViewFormat,
    /// The symbol that encloses an address, if there is one.
    pub symbol_at: spec_fn(u64) -> Option<SymbolView>,
    /// The bytes that a read of the given length at the given address
    /// returns.
    pub bytes_at: spec_fn(u64, usize) -> Seq<u8>,
    /// Whether an address lies in the mapped range.
    pub is_mapped: spec_fn(u64) -> bool,
}

/// The event with which the host answers an action that asks something of the
/// binary. The user and the file system answer the other actions.
pub open spec fn answer(host: HostView, action: ActionView) -> Option<EventView> {
    match action {
        ActionView::LookupSymbol { address } => Some(EventView::Symbol((host.symbol_at)(address))),
        ActionView::ReadBytes { address, length } => Some(
            EventView::Bytes((host.bytes_at)(address, length)),
        ),
        ActionView::CheckAddress { address } => Some(
            EventView::AddressChecked((host.is_mapped)(address)),
        ),
        _ => None,
    }
}

/// Where a run stands when the host has answered `steps` of its questions, or
/// earlier, when it first asks for something that the binary cannot answer.
pub open spec fn settle(
    task: Task,
    host: HostView,
    state: StateView,
    action: ActionView,
    steps: nat,
) -> (StateView, ActionView)
    decreases steps,
{
    match answer(host, action) {
        Some(event) if steps > 0 => {
            let next = transition(task, state, event);
            settle(task, host, next.0, next.1, (steps - 1) as nat)
        },
        _ => (state, action),
    }
}

/// The firmware header that begins at `base`: both fields must lie in the
/// address space and decode from the bytes that the host returns for them.
pub open spec fn header_at(host: HostView, command: ExtractorCommand, base: u64) -> Option<
    FirmwareHeader,
> {
    let endianness = host.format.endianness;
    let width = host.format.address_width;
    match (command.spec_offset_field_addr(base), command.spec_size_field_addr(base)) {
        (Some(offset_at), Some(size_at)) => match (
            spec_decode_offset((host.bytes_at)(offset_at, width), endianness, width),
            spec_decode_size((host.bytes_at)(size_at, 4), endianness),
        ) {
            (Some(data_offset), Some(data_size)) => Some(
                FirmwareHeader { base_address: base, data_offset, data_size },
            ),
            _ => None,
        },
        _ => None,
    }
}

/// The header that the command finds when it is invoked at `address`: the one
/// at the enclosing symbol, or at `address` itself where no symbol encloses
/// it.
pub open spec fn header_for(host: HostView, command: ExtractorCommand, address: u64) -> Option<
    FirmwareHeader,
> {
    header_at(host, command, resolved_base((host.symbol_at)(address), address))
}

/// Whether the firmware that a header names begins at a mapped address and
/// ends before one, without running past the end of the address space.
pub open spec fn range_is_mapped(host: HostView, header: FirmwareHeader) -> bool {
    &&& (host.is_mapped)(header.data_offset)
    &&& header.spec_data_end() matches Some(end) && (host.is_mapped)(end)
}

/// Whether the command can extract firmware at `address`.
pub open spec fn is_extractable(host: HostView, command: ExtractorCommand, address: u64) -> bool {
    match header_for(host, command, address) {
        Some(header) => range_is_mapped(host, header),
        None => false,
    }
}

/// How a check at `address` ends.
pub open spec fn check_result(host: HostView, command: ExtractorCommand, address: u64) -> (
    StateView,
    ActionView,
) {
    if is_extractable(host, command, address) {
        finish(Outcome::Available)
    } else {
        finish(Outcome::Rejected)
    }
}

/// Where an extraction at `address` stands when the host has done its part:
/// it offers the user the bytes that the header names, under the resolved
/// name, or it has ended as rejected.
pub open spec fn extraction_result(host: HostView, command: ExtractorCommand, address: u64) -> (
    StateView,
    ActionView,
) {
    match header_for(host, command, address) {
        Some(header) if range_is_mapped(host, header) => on_firmware_bytes(
            resolved_name((host.symbol_at)(address), address),
            (host.bytes_at)(header.data_offset, header.data_size as usize),
        ),
        _ => finish(Outcome::Rejected),
    }
}

/// The number of steps after which a run is idle at the latest.
pub open spec fn steps_left(state: StateView) -> nat {
    match state {
        StateView::Idle => 0,
        StateView::WriteFailed => 1,
        StateView::Writing => 2,
        StateView::UserChoosingPath { .. } => 3,
        StateView::Validated { .. } => 4,
        StateView::AwaitingEndCheck { .. } => 5,
        StateView::AwaitingStartCheck { .. } => 6,
        StateView::AwaitingSizeField { .. } => 7,
        StateView::AwaitingOffsetField { .. } => 8,
        StateView::AwaitingSymbol { .. } => 9,
    }
}

/// Every step brings a run nearer to its end, whatever the event: the run is
/// idle exactly when nothing is left to do, and it is so after nine steps at
/// the latest.
pub proof fn lemma_step_advances(task: Task, state: StateView, event: EventView)
    ensures
        ({
            let next = transition(task, state, event);
            &&& next.1 is Finish <==> next.0 is Idle
            &&& steps_left(next.0) < steps_left(state) || (state is Idle && next.0 is Idle)
        }),
{
}

/// A check decides whether the address is extractable: when the host has
/// answered at most five questions the run is over, as available where
/// [`is_extractable`] holds and as rejected where it does not. It asks the
/// user nothing and writes nothing.
pub proof fn lemma_check_decides(host: HostView, command: ExtractorCommand, address: u64)
    ensures
        settle(
            Task { command, goal: Goal::Check, format: host.format },
            host,
            begin(address).0,
            begin(address).1,
            5,
        ) == check_result(host, command, address),
{
    reveal_with_fuel(settle, 6);
}

/// An extraction reads the firmware only where [`is_extractable`] holds.
/// There the read asks for exactly the bytes that the header names, from a
/// mapped address up to a mapped address behind them, and the user is then
/// offered what the host returned. Anywhere else the run ends as rejected
/// before any firmware byte is read.
pub proof fn lemma_extraction_reads_checked_range(
    host: HostView,
    command: ExtractorCommand,
    address: u64,
)
    ensures
        ({
            let task = Task { command, goal: Goal::Extract, format: host.format };
            let start = begin(address);
            match header_for(host, command, address) {
                Some(header) if is_extractable(host, command, address) => {
                    &&& (host.is_mapped)(header.data_offset)
                    &&& header.data_offset + header.data_size <= u64::MAX
                    &&& (host.is_mapped)((header.data_offset + header.data_size) as u64)
                    &&& settle(task, host, start.0, start.1, 5) == (
                        StateView::Validated {
                            name: resolved_name((host.symbol_at)(address), address),
                            header,
                        },
                        ActionView::ReadBytes {
                            address: header.data_offset,
                            length: header.data_size as usize,
                        },
                    )
                },
                _ => settle(task, host, start.0, start.1, 5) == finish(Outcome::Rejected),
            }
        }),
        settle(
            Task { command, goal: Goal::Extract, format: host.format },
            host,
            begin(address).0,
            begin(address).1,
            6,
        ) == extraction_result(host, command, address),
{
    reveal_with_fuel(settle, 7);
}

/// A header whose firmware range leaves the mapped range is not extractable:
/// neither where the first address is unmapped, nor where offset plus size
/// runs past the end of the address space, nor where the address behind the
/// firmware is unmapped.
pub proof fn lemma_unmapped_range_rejected(
    host: HostView,
    command: ExtractorCommand,
    address: u64,
    header: FirmwareHeader,
)
    requires
        header_for(host, command, address) == Some(header),
        !(host.is_mapped)(header.data_offset) || header.data_offset + header.data_size > u64::MAX
            || !(host.is_mapped)((header.data_offset + header.data_size) as u64),
    ensures
        !is_extractable(host, command, address),
        check_result(host, command, address) == finish(Outcome::Rejected),
        extraction_result(host, command, address) == finish(Outcome::Rejected),
{
}

/// A header that was written at `base` in the binary's byte order and address
/// width is read back as it was written.
pub proof fn lemma_header_round_trip(
    host: HostView,
    command: ExtractorCommand,
    base: u64,
    data_offset: u64,
    data_size: u32,
)
    requires
        host.format.address_width == 4 || host.format.address_width == 8,
        data_offset < capacity(host.format.address_width as nat),
        command.spec_offset_field_addr(base) matches Some(offset_at) && (host.bytes_at)(
            offset_at,
            host.format.address_width,
        ) == bytes_of(
            data_offset as nat,
            host.format.address_width as nat,
            host.format.endianness,
        ),
        command.spec_size_field_addr(base) matches Some(size_at) && (host.bytes_at)(size_at, 4)
            == bytes_of(data_size as nat, 4, host.format.endianness),
    ensures
        header_at(host, command, base) == Some(
            FirmwareHeader { base_address: base, data_offset, data_size },
        ),
{
    lemma_fields_round_trip(
        data_offset,
        data_size,
        host.format.endianness,
        host.format.address_width,
    );
}

/// Where no symbol encloses the address, the header is read at the address
/// itself and the firmware is named after it.
pub proof fn lemma_unnamed_address_is_its_own_base(
    host: HostView,
    command: ExtractorCommand,
    address: u64,
)
    requires
        (host.symbol_at)(address) is None,
    ensures
        header_for(host, command, address) == header_at(host, command, address),
        resolved_name((host.symbol_at)(address), address) == fallback_name(address),
{
}

impl ExtractorCommand {
    /// Begins a run that tells whether firmware can be extracted at `addr`.
    ///
    /// The run starts with the symbol lookup. Whatever binary the host stands
    /// for, once it has answered five questions at most the run is over, as
    /// [`Outcome::Available`] where [`is_extractable`] holds and as
    /// [`Outcome::Rejected`] where it does not; the user is asked nothing
    /// and nothing is written.
    pub fn valid(&self, format: ViewFormat, addr: u64) -> (start: (Run, Action))
        ensures
            start.0.task == (Task { command: *self, goal: Goal::Check, format }),
            (start.0.state@, start.1@) == begin(addr),
            forall|host: HostView|
                host.format == format ==> #[trigger] settle(
                    start.0.task,
                    host,
                    start.0.state@,
                    start.1@,
                    5,
                ) == check_result(host, *self, addr),
    {
        let task = Task { command: *self, goal: Goal::Check, format };
        let run = Run { task, state: State::AwaitingSymbol { raw_address: addr } };
        let first = Action::LookupSymbol { address: addr };
        proof {
            assert forall|host: HostView| host.format == format implies #[trigger] settle(
                task,
                host,
                run.state@,
                first@,
                5,
            ) == check_result(host, *self, addr) by {
                lemma_check_decides(host, *self, addr);
            }
        }
        (run, first)
    }

    /// Begins a run that extracts the firmware at `addr` and saves it where
    /// the user chooses.
    ///
    /// The run starts with the symbol lookup. Whatever binary the host stands
    /// for, once it has answered six questions at most the run is over as
    /// [`Outcome::Rejected`] where [`is_extractable`] does not hold, and
    /// where it holds the user is offered the bytes that the host returned
    /// for the range that the header names.
    pub fn action(&self, format: ViewFormat, addr: u64) -> (start: (Run, Action))
        ensures
            start.0.task == (Task { command: *self, goal: Goal::Extract, format }),
            (start.0.state@, start.1@) == begin(addr),
            forall|host: HostView|
                host.format == format ==> #[trigger] settle(
                    start.0.task,
                    host,
                    start.0.state@,
                    start.1@,
                    6,
                ) == extraction_result(host, *self, addr),
    {
        let task = Task { command: *self, goal: Goal::Extract, format };
        let run = Run { task, state: State::AwaitingSymbol { raw_address: addr } };
        let first = Action::LookupSymbol { address: addr };
        proof {
            assert forall|host: HostView| host.format == format implies #[trigger] settle(
                task,
                host,
                run.state@,
                first@,
                6,
            ) == extraction_result(host, *self, addr) by {
                lemma_extraction_reads_checked_range(host, *self, addr);
            }
        }
        (run, first)
    }
}

} // verus!
