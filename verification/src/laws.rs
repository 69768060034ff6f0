//! What holds of every run of the state machine.

use crate::listing::{decimal_digits, list_body, list_record, CatalogEntry};
use crate::model::{
    header_wire, ActionModel, Event, Notice, Phase, ServerModel, HEADER_SIZE,
    MAX_RECONNECT_ATTEMPTS,
};
use crate::progress::ProgressModel;
use crate::protocol::{
    parse_command_header, parse_file_range, BUFFER_SEGMENT_DATA_SIZE, CMD_ID_FILE_RANGE,
    CMD_ID_LIST, CMD_TYPE_ACK, CMD_TYPE_RESPONSE,
};
use crate::range::{actual_size, chunk_len, range_response};
use crate::transport::TimeoutClass;
use vstd::prelude::*;

verus! {

/// An event together with the clock reading at which it arrived.
pub type Input = (Event, u64);

impl ServerModel {
    /// Whether a range has been answered and not yet been finished or
    /// given up.
    pub open spec fn in_transfer(self) -> bool {
        self.phase == Phase::RangeReply || self.phase == Phase::RangeGo || self.phase
            == Phase::RangeFetch || self.phase == Phase::RangeSend
    }

    /// Whether a catalogue has been announced and not yet been sent.
    pub open spec fn in_listing(self) -> bool {
        self.phase == Phase::ListReply || self.phase == Phase::ListAck || self.phase
            == Phase::ListBody
    }

    /// The state is one that a started server can be in.
    pub open spec fn wf(self) -> bool {
        &&& self.phase != Phase::Stopped ==> self.reconnect_attempts < MAX_RECONNECT_ATTEMPTS
        &&& self.progress matches Some(record) ==> record.wf()
        &&& self.in_listing() ==> self.body.len() <= u32::MAX
        &&& self.in_transfer() ==> self.size == actual_size(
            self.range_size,
            self.offset,
            self.file_size,
        )
        &&& self.phase == Phase::RangeReply || self.phase == Phase::RangeGo ==> self.sent == 0
        &&& self.phase == Phase::RangeFetch ==> self.sent < self.size && self.chunk == chunk_len(
            self.size,
            self.sent,
        )
        &&& self.phase == Phase::RangeSend ==> 0 < self.chunk && self.chunk == chunk_len(
            self.size,
            self.sent,
        ) && self.sent + self.chunk <= self.size
    }

    /// How many of the promised bytes have not been handed to the
    /// transport yet.
    pub open spec fn remaining(self) -> int {
        if self.phase == Phase::RangeSend {
            self.size - self.sent - self.chunk
        } else {
            self.size - self.sent
        }
    }
}

/// The number of bytes that an action puts on the OUT endpoint.
pub open spec fn payload(action: ActionModel) -> nat {
    match action {
        ActionModel::Send { data } => data.len(),
        _ => 0,
    }
}

/// The number of bulk writes that an action makes.
pub open spec fn writes(action: ActionModel) -> nat {
    if action is Send {
        1
    } else {
        0
    }
}

/// The length of the next piece when `remaining` bytes have not left yet: a
/// full segment, or all that remains if that is less.
pub open spec fn segment(remaining: int) -> int {
    if remaining < BUFFER_SEGMENT_DATA_SIZE {
        remaining
    } else {
        BUFFER_SEGMENT_DATA_SIZE as int
    }
}

/// The number of pieces that `remaining` bytes leave in: as many full
/// segments as fit, and one more piece for what is left over.
pub open spec fn segments(remaining: int) -> int {
    (remaining + BUFFER_SEGMENT_DATA_SIZE - 1) / (BUFFER_SEGMENT_DATA_SIZE as int)
}

/// The number of bulk writes made while the inputs were answered one by
/// one.
pub open spec fn writes_out(state: ServerModel, inputs: Seq<Input>) -> nat
    decreases inputs.len(),
{
    if inputs.len() == 0 {
        0
    } else {
        let step = state.next(inputs[0].0, inputs[0].1);
        writes(step.action) + writes_out(step.state, inputs.skip(1))
    }
}

/// The number of bytes written to the OUT endpoint while the inputs were
/// answered one by one.
pub open spec fn bytes_out(state: ServerModel, inputs: Seq<Input>) -> nat
    decreases inputs.len(),
{
    if inputs.len() == 0 {
        0
    } else {
        let step = state.next(inputs[0].0, inputs[0].1);
        payload(step.action) + bytes_out(step.state, inputs.skip(1))
    }
}

/// Every input is answered while the range transfer is still under way.
pub open spec fn within_transfer(state: ServerModel, inputs: Seq<Input>) -> bool
    decreases inputs.len(),
{
    inputs.len() == 0 || (state.in_transfer() && within_transfer(
        state.next(inputs[0].0, inputs[0].1).state,
        inputs.skip(1),
    ))
}

/// The inputs carry the range transfer through to its end: every input is
/// answered while the transfer is under way, and the answer to the last one
/// reports that every promised byte has left.
pub open spec fn completes_transfer(state: ServerModel, inputs: Seq<Input>) -> bool
    decreases inputs.len(),
{
    inputs.len() > 0 && state.in_transfer() && {
        let step = state.next(inputs[0].0, inputs[0].1);
        if inputs.len() == 1 {
            step.notice is TransferComplete
        } else {
            completes_transfer(step.state, inputs.skip(1))
        }
    }
}

/// A server that has not been started is in a valid state.
pub proof fn lemma_initial_wf(progress: Option<ProgressModel>)
    requires
        progress matches Some(record) ==> record.wf(),
    ensures
        ServerModel::initial(progress).wf(),
{
}

/// Starting a server leaves it in a valid state.
pub proof fn lemma_start_keeps_wf(state: ServerModel)
    requires
        state.wf(),
    ensures
        state.start().state.wf(),
{
}

/// Telling a server to stop leaves it in a valid state.
pub proof fn lemma_stop_keeps_wf(state: ServerModel)
    requires
        state.wf(),
    ensures
        state.stop().wf(),
{
}

proof fn lemma_wf_stopped(state: ServerModel, event: Event, now: u64)
    requires
        state.wf(),
        state.phase == Phase::Stopped,
    ensures
        state.next(event, now).state.wf(),
{
}

proof fn lemma_wf_connecting(state: ServerModel, event: Event, now: u64)
    requires
        state.wf(),
        state.phase == Phase::Connecting,
    ensures
        state.next(event, now).state.wf(),
{
}

proof fn lemma_wf_reconnecting(state: ServerModel, event: Event, now: u64)
    requires
        state.wf(),
        state.phase == Phase::Reconnecting,
    ensures
        state.next(event, now).state.wf(),
{
}

proof fn lemma_wf_polling(state: ServerModel, event: Event, now: u64)
    requires
        state.wf(),
        state.phase == Phase::Polling,
    ensures
        state.next(event, now).state.wf(),
{
}

proof fn lemma_wf_pausing(state: ServerModel, event: Event, now: u64)
    requires
        state.wf(),
        state.phase == Phase::Pausing,
    ensures
        state.next(event, now).state.wf(),
{
}

proof fn lemma_wf_exitreply(state: ServerModel, event: Event, now: u64)
    requires
        state.wf(),
        state.phase == Phase::ExitReply,
    ensures
        state.next(event, now).state.wf(),
{
}

proof fn lemma_wf_listcatalog(state: ServerModel, event: Event, now: u64)
    requires
        state.wf(),
        state.phase == Phase::ListCatalog,
    ensures
        state.next(event, now).state.wf(),
{
}

proof fn lemma_wf_listreply(state: ServerModel, event: Event, now: u64)
    requires
        state.wf(),
        state.phase == Phase::ListReply,
    ensures
        state.next(event, now).state.wf(),
{
}

proof fn lemma_wf_listack(state: ServerModel, event: Event, now: u64)
    requires
        state.wf(),
        state.phase == Phase::ListAck,
    ensures
        state.next(event, now).state.wf(),
{
}

proof fn lemma_wf_listbody(state: ServerModel, event: Event, now: u64)
    requires
        state.wf(),
        state.phase == Phase::ListBody,
    ensures
        state.next(event, now).state.wf(),
{
}

proof fn lemma_wf_rangeack(state: ServerModel, event: Event, now: u64)
    requires
        state.wf(),
        state.phase == Phase::RangeAck,
    ensures
        state.next(event, now).state.wf(),
{
}

proof fn lemma_wf_rangerequest(state: ServerModel, event: Event, now: u64)
    requires
        state.wf(),
        state.phase == Phase::RangeRequest,
    ensures
        state.next(event, now).state.wf(),
{
}

proof fn lemma_wf_rangelookup(state: ServerModel, event: Event, now: u64)
    requires
        state.wf(),
        state.phase == Phase::RangeLookup,
    ensures
        state.next(event, now).state.wf(),
{
}

proof fn lemma_wf_rangemissing(state: ServerModel, event: Event, now: u64)
    requires
        state.wf(),
        state.phase == Phase::RangeMissing,
    ensures
        state.next(event, now).state.wf(),
{
}

proof fn lemma_wf_rangereply(state: ServerModel, event: Event, now: u64)
    requires
        state.wf(),
        state.phase == Phase::RangeReply,
    ensures
        state.next(event, now).state.wf(),
{
}

proof fn lemma_wf_rangego(state: ServerModel, event: Event, now: u64)
    requires
        state.wf(),
        state.phase == Phase::RangeGo,
    ensures
        state.next(event, now).state.wf(),
{
}

proof fn lemma_wf_rangefetch(state: ServerModel, event: Event, now: u64)
    requires
        state.wf(),
        state.phase == Phase::RangeFetch,
    ensures
        state.next(event, now).state.wf(),
{
}

proof fn lemma_wf_rangesend(state: ServerModel, event: Event, now: u64)
    requires
        state.wf(),
        state.phase == Phase::RangeSend,
    ensures
        state.next(event, now).state.wf(),
{
}

/// Every step leaves the server in a valid state.
pub proof fn lemma_step_keeps_wf(state: ServerModel, event: Event, now: u64)
    requires
        state.wf(),
    ensures
        state.next(event, now).state.wf(),
{
    match state.phase {
        Phase::Stopped => lemma_wf_stopped(state, event, now),
        Phase::Connecting => lemma_wf_connecting(state, event, now),
        Phase::Reconnecting => lemma_wf_reconnecting(state, event, now),
        Phase::Polling => lemma_wf_polling(state, event, now),
        Phase::Pausing => lemma_wf_pausing(state, event, now),
        Phase::ExitReply => lemma_wf_exitreply(state, event, now),
        Phase::ListCatalog => lemma_wf_listcatalog(state, event, now),
        Phase::ListReply => lemma_wf_listreply(state, event, now),
        Phase::ListAck => lemma_wf_listack(state, event, now),
        Phase::ListBody => lemma_wf_listbody(state, event, now),
        Phase::RangeAck => lemma_wf_rangeack(state, event, now),
        Phase::RangeRequest => lemma_wf_rangerequest(state, event, now),
        Phase::RangeLookup => lemma_wf_rangelookup(state, event, now),
        Phase::RangeMissing => lemma_wf_rangemissing(state, event, now),
        Phase::RangeReply => lemma_wf_rangereply(state, event, now),
        Phase::RangeGo => lemma_wf_rangego(state, event, now),
        Phase::RangeFetch => lemma_wf_rangefetch(state, event, now),
        Phase::RangeSend => lemma_wf_rangesend(state, event, now),
    }
}

/// Within one file the count of bytes sent never goes down, and it starts
/// again from zero when the current file changes. This holds of every
/// step, whatever the event.
pub proof fn lemma_bytes_sent_monotonic(state: ServerModel, event: Event, now: u64)
    requires
        state.progress is Some,
    ensures
        ({
            let before = state.progress->0;
            let after = state.next(event, now).state.progress;
            &&& after is Some
            &&& after->0.current_file == before.current_file ==> after->0.bytes_sent
                >= before.bytes_sent
            &&& after->0.current_file != before.current_file ==> after->0.bytes_sent == 0
        }),
{
}

/// What one step of a range transfer does to the count of bytes that have
/// not left yet: a write carries the next piece, a full segment or all that
/// remains, and is counted; any other step carries nothing.
pub open spec fn transfer_step_accounts(state: ServerModel, event: Event, now: u64) -> bool {
    let step = state.next(event, now);
    &&& state.remaining() >= 0
    &&& step.state.in_transfer() ==> payload(step.action) + step.state.remaining()
        == state.remaining()
    &&& step.state.in_transfer() ==> writes(step.action) + segments(step.state.remaining())
        == segments(state.remaining())
    &&& !step.state.in_transfer() ==> payload(step.action) == 0 && writes(step.action) == 0
    &&& step.action is Send ==> payload(step.action) == segment(state.remaining()) && payload(
        step.action,
    ) > 0
    &&& step.notice is TransferComplete ==> !step.state.in_transfer() && state.remaining() == 0
}

proof fn lemma_accounts_rangereply(state: ServerModel, event: Event, now: u64)
    requires
        state.wf(),
        state.phase == Phase::RangeReply,
    ensures
        transfer_step_accounts(state, event, now),
{
}

proof fn lemma_accounts_rangego(state: ServerModel, event: Event, now: u64)
    requires
        state.wf(),
        state.phase == Phase::RangeGo,
    ensures
        transfer_step_accounts(state, event, now),
{
}

proof fn lemma_accounts_rangefetch(state: ServerModel, event: Event, now: u64)
    requires
        state.wf(),
        state.phase == Phase::RangeFetch,
    ensures
        transfer_step_accounts(state, event, now),
{
}

proof fn lemma_accounts_rangesend(state: ServerModel, event: Event, now: u64)
    requires
        state.wf(),
        state.phase == Phase::RangeSend,
    ensures
        transfer_step_accounts(state, event, now),
{
}

/// Every step of a range transfer either hands bytes to the transport and
/// counts them, or hands none.
pub proof fn lemma_transfer_step(state: ServerModel, event: Event, now: u64)
    requires
        state.wf(),
        state.in_transfer(),
    ensures
        transfer_step_accounts(state, event, now),
{
    match state.phase {
        Phase::RangeReply => lemma_accounts_rangereply(state, event, now),
        Phase::RangeGo => lemma_accounts_rangego(state, event, now),
        Phase::RangeFetch => lemma_accounts_rangefetch(state, event, now),
        Phase::RangeSend => lemma_accounts_rangesend(state, event, now),
        _ => {},
    }
}

/// During a range transfer the count of bytes that have not left yet is
/// never negative.
pub proof fn lemma_remaining_nonnegative(state: ServerModel)
    requires
        state.wf(),
        state.in_transfer(),
    ensures
        state.remaining() >= 0,
{
}

/// While a range transfer is under way, no more bytes are written than the
/// RESPONSE header promised and have not left yet.
pub proof fn lemma_transfer_bound(state: ServerModel, inputs: Seq<Input>)
    requires
        state.wf(),
        state.in_transfer(),
        within_transfer(state, inputs),
    ensures
        0 <= bytes_out(state, inputs) <= state.remaining(),
    decreases inputs.len(),
{
    if inputs.len() > 0 {
        let step = state.next(inputs[0].0, inputs[0].1);
        let rest = inputs.skip(1);
        lemma_step_keeps_wf(state, inputs[0].0, inputs[0].1);
        lemma_transfer_step(state, inputs[0].0, inputs[0].1);
        assert(transfer_step_accounts(state, inputs[0].0, inputs[0].1));
        assert(bytes_out(state, inputs) == payload(step.action) + bytes_out(step.state, rest));
        assert(within_transfer(step.state, rest));
        if step.state.in_transfer() {
            lemma_transfer_bound(step.state, rest);
        } else {
            assert(rest.len() == 0) by {
                reveal_with_fuel(within_transfer, 2);
            }
            assert(bytes_out(step.state, rest) == 0);
        }
    } else {
        assert(bytes_out(state, inputs) == 0);
        lemma_remaining_nonnegative(state);
    }
}

/// A range transfer that runs to its end writes exactly the bytes that had
/// not left yet.
pub proof fn lemma_transfer_total(state: ServerModel, inputs: Seq<Input>)
    requires
        state.wf(),
        completes_transfer(state, inputs),
    ensures
        bytes_out(state, inputs) == state.remaining(),
    decreases inputs.len(),
{
    let step = state.next(inputs[0].0, inputs[0].1);
    let rest = inputs.skip(1);
    lemma_step_keeps_wf(state, inputs[0].0, inputs[0].1);
    lemma_transfer_step(state, inputs[0].0, inputs[0].1);
    assert(transfer_step_accounts(state, inputs[0].0, inputs[0].1));
    assert(bytes_out(state, inputs) == payload(step.action) + bytes_out(step.state, rest));
    if rest.len() > 0 {
        assert(completes_transfer(step.state, rest));
        lemma_transfer_total(step.state, rest);
    } else {
        assert(bytes_out(step.state, rest) == 0);
    }
}

/// A range transfer that runs to its end makes as many writes as the bytes
/// that had not left yet fill segments, the last of which may be short.
pub proof fn lemma_transfer_writes(state: ServerModel, inputs: Seq<Input>)
    requires
        state.wf(),
        completes_transfer(state, inputs),
    ensures
        writes_out(state, inputs) == segments(state.remaining()),
    decreases inputs.len(),
{
    let step = state.next(inputs[0].0, inputs[0].1);
    let rest = inputs.skip(1);
    lemma_step_keeps_wf(state, inputs[0].0, inputs[0].1);
    lemma_transfer_step(state, inputs[0].0, inputs[0].1);
    assert(transfer_step_accounts(state, inputs[0].0, inputs[0].1));
    assert(writes_out(state, inputs) == writes(step.action) + writes_out(step.state, rest));
    if rest.len() > 0 {
        assert(completes_transfer(step.state, rest));
        lemma_transfer_writes(step.state, rest);
    } else {
        assert(writes_out(step.state, rest) == 0);
    }
}

/// Every write of a range transfer carries a full segment of 1 MiB, or all
/// that remains of the range where that is less: only the last piece can be
/// shorter than a segment.
pub proof fn lemma_piece_is_full_segment(state: ServerModel, event: Event, now: u64)
    requires
        state.wf(),
        state.in_transfer(),
        state.next(event, now).action is Send,
    ensures
        payload(state.next(event, now).action) == segment(state.remaining()),
        payload(state.next(event, now).action) < BUFFER_SEGMENT_DATA_SIZE ==> state.next(
            event,
            now,
        ).state.remaining() == 0,
{
    lemma_transfer_step(state, event, now);
    lemma_step_keeps_wf(state, event, now);
}

/// For every successful range transfer, the bytes written to the OUT
/// endpoint after the RESPONSE header add up to the header's `data_size`,
/// and they leave in as many writes as that size fills segments.
///
/// `state` waits for the file to be resolved; the file is found with
/// `file_size` bytes, which makes the server send the RESPONSE header; the
/// inputs of `rest` then carry the transfer to its end.
pub proof fn lemma_transfer_delivers_promise(
    state: ServerModel,
    file_size: u64,
    now: u64,
    rest: Seq<Input>,
)
    requires
        state.wf(),
        state.phase == Phase::RangeLookup,
        completes_transfer(state.next(Event::FileFound { size: file_size }, now).state, rest),
    ensures
        state.next(Event::FileFound { size: file_size }, now).action == (ActionModel::Send {
            data: range_response(state.range_size, state.offset, file_size).wire(),
        }),
        bytes_out(state.next(Event::FileFound { size: file_size }, now).state, rest)
            == range_response(state.range_size, state.offset, file_size).data_size,
        writes_out(state.next(Event::FileFound { size: file_size }, now).state, rest)
            == segments(
            range_response(state.range_size, state.offset, file_size).data_size as int,
        ),
{
    let event = Event::FileFound { size: file_size };
    lemma_step_keeps_wf(state, event, now);
    lemma_transfer_total(state.next(event, now).state, rest);
    lemma_transfer_writes(state.next(event, now).state, rest);
}

/// A request at or past the end of the file is answered with a RESPONSE
/// header of `data_size` zero, and no byte is written for it afterwards.
pub proof fn lemma_range_past_end(state: ServerModel, file_size: u64, now: u64, rest: Seq<Input>)
    requires
        state.wf(),
        state.phase == Phase::RangeLookup,
        state.offset >= file_size,
        within_transfer(state.next(Event::FileFound { size: file_size }, now).state, rest),
    ensures
        range_response(state.range_size, state.offset, file_size).data_size == 0,
        state.next(Event::FileFound { size: file_size }, now).action == (ActionModel::Send {
            data: range_response(state.range_size, state.offset, file_size).wire(),
        }),
        bytes_out(state.next(Event::FileFound { size: file_size }, now).state, rest) == 0,
{
    let event = Event::FileFound { size: file_size };
    lemma_step_keeps_wf(state, event, now);
    let answered = state.next(event, now).state;
    assert(answered.in_transfer());
    assert(answered.remaining() == 0);
    lemma_transfer_bound(answered, rest);
}

/// A request that starts inside the file and reaches past its end is
/// answered with a RESPONSE header of `data_size` `file_size - offset`, and
/// a transfer that runs to its end writes exactly that many bytes.
pub proof fn lemma_range_straddling_end(
    state: ServerModel,
    file_size: u64,
    now: u64,
    rest: Seq<Input>,
)
    requires
        state.wf(),
        state.phase == Phase::RangeLookup,
        state.offset < file_size,
        state.offset + state.range_size > file_size,
        completes_transfer(state.next(Event::FileFound { size: file_size }, now).state, rest),
    ensures
        range_response(state.range_size, state.offset, file_size).data_size == file_size
            - state.offset,
        state.next(Event::FileFound { size: file_size }, now).action == (ActionModel::Send {
            data: range_response(state.range_size, state.offset, file_size).wire(),
        }),
        bytes_out(state.next(Event::FileFound { size: file_size }, now).state, rest) == file_size
            - state.offset,
{
    lemma_transfer_delivers_promise(state, file_size, now, rest);
}

/// The server waits for a command and is free to read it: it runs and holds
/// the device.
pub open spec fn ready(state: ServerModel) -> bool {
    state.phase == Phase::Polling && state.running && state.connected
}

/// The step that reads the next command header, with a short timeout.
pub open spec fn polls_again(action: ActionModel, state: ServerModel) -> bool {
    action == (ActionModel::Receive { size: HEADER_SIZE, timeout: TimeoutClass::Short })
        && ready(state)
}

/// A LIST command against an empty catalogue is answered with a RESPONSE
/// header of `data_size` zero. No acknowledgement is waited for and no body
/// follows: once the header has left, the loop goes on with the next short
/// read, the device still held.
pub proof fn lemma_empty_list(
    state: ServerModel,
    command: Vec<u8>,
    entries: Vec<CatalogEntry>,
    t1: u64,
    t2: u64,
    t3: u64,
)
    requires
        ready(state),
        parse_command_header(command@) is Ok,
        parse_command_header(command@)->Ok_0.cmd_id == CMD_ID_LIST,
        entries@.len() == 0,
    ensures
        ({
            let asked = state.next(Event::Received(command), t1);
            let announced = asked.state.next(Event::Catalog(entries), t2);
            let done = announced.state.next(Event::Sent, t3);
            &&& asked.action == ActionModel::ListFiles
            &&& announced.action == (ActionModel::Send {
                data: header_wire(CMD_TYPE_RESPONSE, CMD_ID_LIST, 0),
            })
            &&& polls_again(done.action, done.state)
        }),
{
    let asked = state.next(Event::Received(command), t1);
    assert(asked.state.phase == Phase::ListCatalog);
    assert(list_body(entries@) =~= Seq::<u8>::empty());
    let announced = asked.state.next(Event::Catalog(entries), t2);
    assert(announced.state.phase == Phase::ListReply);
    assert(announced.state.body.len() == 0);
}

/// A LIST command against a catalogue with files is answered in this order:
/// the RESPONSE header with the body's length, a long read for the
/// Switch's acknowledgement, then the body, the records of the files one
/// after the other, in a single write. After that the loop goes on.
pub proof fn lemma_list_of_files(
    state: ServerModel,
    command: Vec<u8>,
    entries: Vec<CatalogEntry>,
    ack: Vec<u8>,
    t1: u64,
    t2: u64,
    t3: u64,
    t4: u64,
    t5: u64,
)
    requires
        ready(state),
        parse_command_header(command@) is Ok,
        parse_command_header(command@)->Ok_0.cmd_id == CMD_ID_LIST,
        0 < list_body(entries@).len() <= u32::MAX,
        parse_command_header(ack@) is Ok,
    ensures
        ({
            let asked = state.next(Event::Received(command), t1);
            let announced = asked.state.next(Event::Catalog(entries), t2);
            let waiting = announced.state.next(Event::Sent, t3);
            let sending = waiting.state.next(Event::Received(ack), t4);
            let done = sending.state.next(Event::Sent, t5);
            &&& asked.action == ActionModel::ListFiles
            &&& announced.action == (ActionModel::Send {
                data: header_wire(
                    CMD_TYPE_RESPONSE,
                    CMD_ID_LIST,
                    list_body(entries@).len() as u32,
                ),
            })
            &&& waiting.action == (ActionModel::Receive {
                size: HEADER_SIZE,
                timeout: TimeoutClass::Long,
            })
            &&& sending.action == (ActionModel::Send { data: list_body(entries@) })
            &&& polls_again(done.action, done.state)
        }),
{
    let asked = state.next(Event::Received(command), t1);
    assert(asked.state.phase == Phase::ListCatalog);
    assert(asked.state.running && asked.state.connected);
    let announced = asked.state.next(Event::Catalog(entries), t2);
    assert(announced.state.phase == Phase::ListReply);
    assert(announced.state.body == list_body(entries@));
    assert(announced.state.running && announced.state.connected);
    let waiting = announced.state.next(Event::Sent, t3);
    assert(waiting.state.phase == Phase::ListAck);
    assert(waiting.state.body == list_body(entries@));
    assert(waiting.state.running && waiting.state.connected);
    let sending = waiting.state.next(Event::Received(ack), t4);
    assert(sending.state.phase == Phase::ListBody);
    assert(sending.state.running && sending.state.connected);
}

/// The body for a catalogue of one file is that file's record: its name in
/// UTF-8, a bar, its size in decimal, a line feed.
pub proof fn lemma_list_body_of_one(entries: Seq<CatalogEntry>)
    requires
        entries.len() == 1,
    ensures
        list_body(entries) == list_record(entries[0].name@, entries[0].size),
{
    assert(entries.drop_last().len() == 0);
    assert(list_body(entries.drop_last()) =~= Seq::<u8>::empty());
    assert(list_body(entries) =~= list_record(entries[0].name@, entries[0].size));
}

/// A size of one thousand bytes is written as the four digits `1000`.
pub proof fn lemma_decimal_of_one_thousand()
    ensures
        decimal_digits(1000) == seq![0x31u8, 0x30u8, 0x30u8, 0x30u8],
{
    reveal_with_fuel(decimal_digits, 5);
    assert(decimal_digits(1000) =~= seq![0x31u8, 0x30u8, 0x30u8, 0x30u8]);
}

/// The first half of a FILE_RANGE transaction: the command is answered with
/// an ACK that repeats the announced length, the request is read with the
/// long timeout, the name it holds is resolved, and the RESPONSE header
/// promises what the file can give.
pub proof fn lemma_range_is_answered(
    state: ServerModel,
    command: Vec<u8>,
    request: Vec<u8>,
    file_size: u64,
    t1: u64,
    t2: u64,
    t3: u64,
    t4: u64,
)
    requires
        ready(state),
        parse_command_header(command@) is Ok,
        parse_command_header(command@)->Ok_0.cmd_id == CMD_ID_FILE_RANGE,
        parse_file_range(request@) is Ok,
    ensures
        ({
            let announced = parse_command_header(command@)->Ok_0.data_size;
            let asked = parse_file_range(request@)->Ok_0;
            let acked = state.next(Event::Received(command), t1);
            let reading = acked.state.next(Event::Sent, t2);
            let resolving = reading.state.next(Event::Received(request), t3);
            let answered = resolving.state.next(Event::FileFound { size: file_size }, t4);
            &&& acked.action == (ActionModel::Send {
                data: header_wire(CMD_TYPE_ACK, CMD_ID_FILE_RANGE, announced),
            })
            &&& reading.action == (ActionModel::Receive {
                size: announced as usize,
                timeout: TimeoutClass::Long,
            })
            &&& resolving.action == (ActionModel::ResolveFile { name: asked.nsp_name })
            &&& answered.action == (ActionModel::Send {
                data: range_response(asked.range_size, asked.range_offset, file_size).wire(),
            })
            &&& answered.state.phase == Phase::RangeReply
            &&& answered.state.running && answered.state.connected
            &&& answered.state.offset == asked.range_offset
            &&& answered.state.size == actual_size(
                asked.range_size,
                asked.range_offset,
                file_size,
            )
            &&& answered.state.sent == 0
        }),
{
    let acked = state.next(Event::Received(command), t1);
    assert(acked.state.phase == Phase::RangeAck);
    assert(acked.state.running && acked.state.connected);
    let reading = acked.state.next(Event::Sent, t2);
    assert(reading.state.phase == Phase::RangeRequest);
    assert(reading.state.running && reading.state.connected);
    let resolving = reading.state.next(Event::Received(request), t3);
    assert(resolving.state.phase == Phase::RangeLookup);
    assert(resolving.state.running && resolving.state.connected);
}

/// The second half of a FILE_RANGE transaction whose range fits into one
/// segment: after the RESPONSE header the Switch's acknowledgement is read
/// with the long timeout, the promised bytes are read from the file at the
/// requested offset and leave in one write, and the loop goes on. Where
/// nothing was promised, nothing is read or written.
pub proof fn lemma_range_is_streamed(
    state: ServerModel,
    ack: Vec<u8>,
    piece: Vec<u8>,
    t1: u64,
    t2: u64,
    t3: u64,
    t4: u64,
)
    requires
        state.phase == Phase::RangeReply,
        state.running,
        state.connected,
        state.sent == 0,
        state.size <= BUFFER_SEGMENT_DATA_SIZE,
        parse_command_header(ack@) is Ok,
        piece@.len() == state.size,
    ensures
        ({
            let waiting = state.next(Event::Sent, t1);
            let started = waiting.state.next(Event::Received(ack), t2);
            let sending = started.state.next(Event::FileData(piece), t3);
            let done = sending.state.next(Event::Sent, t4);
            &&& waiting.action == (ActionModel::Receive {
                size: HEADER_SIZE,
                timeout: TimeoutClass::Long,
            })
            &&& state.size == 0 ==> polls_again(started.action, started.state) && started.notice
                == (Notice::TransferComplete { bytes: 0 })
            &&& state.size > 0 ==> {
                &&& started.action == (ActionModel::ReadFile {
                    offset: state.offset,
                    len: state.size as usize,
                })
                &&& sending.action == (ActionModel::Send { data: piece@ })
                &&& polls_again(done.action, done.state)
                &&& done.notice == (Notice::TransferComplete { bytes: state.size })
            }
        }),
{
    let waiting = state.next(Event::Sent, t1);
    assert(waiting.state.phase == Phase::RangeGo);
    assert(waiting.state.running && waiting.state.connected);
    assert(waiting.state.size == state.size && waiting.state.sent == 0);
    let started = waiting.state.next(Event::Received(ack), t2);
    if state.size > 0 {
        assert(started.state.phase == Phase::RangeFetch);
        assert(started.state.chunk == state.size);
        assert(started.state.running && started.state.connected);
        let sending = started.state.next(Event::FileData(piece), t3);
        assert(sending.state.phase == Phase::RangeSend);
        assert(sending.state.chunk == state.size && sending.state.sent == 0);
        assert(sending.state.running && sending.state.connected);
    }
}

} // verus!
