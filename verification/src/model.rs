//! The server as a state machine: which action follows which event.
//!
//! The machine never touches the bus, the disk or the clock. It hands out
//! one [`Action`] at a time; whoever drives it performs the action and
//! comes back with the [`Event`] that tells how it went. This file defines
//! the machine as a mathematical function, [`ServerModel::next`]; the
//! executable server follows it step for step.

use crate::listing::{list_body, CatalogEntry};
use crate::progress::ProgressModel;
use crate::protocol::{
    parse_command_header, parse_file_range, CommandHeader, ProtocolError, CMD_ID_EXIT,
    CMD_ID_FILE_RANGE, CMD_ID_LIST, CMD_TYPE_ACK, CMD_TYPE_RESPONSE, MAGIC,
};
use crate::range::{actual_size, chunk_len, range_response};
use crate::transport::{recovery_for, Recovery, TimeoutClass, TransportError};
use vstd::prelude::*;

verus! {

/// How many times in a row the device is opened again before the server
/// gives up.
pub const MAX_RECONNECT_ATTEMPTS: u32 = 3;

/// The pause between two attempts to reconnect, in milliseconds.
pub const RECONNECT_DELAY_MILLIS: u64 = 2000;

/// The pause after the device disappeared, in milliseconds.
pub const DISCONNECT_DELAY_MILLIS: u64 = 1000;

/// The pause after a transient failure, in milliseconds.
pub const RETRY_DELAY_MILLIS: u64 = 100;

/// The length of a command header.
pub const HEADER_SIZE: usize = 16;

/// Where the server stands. Each phase but `Stopped` waits for the outcome
/// of the one action that was handed out on entering it.
#[derive(Debug, Clone, Copy, PartialEq, Eq, Structural)]
pub enum Phase {
    /// Not running.
    Stopped,
    /// The device is being opened for the first time.
    Connecting,
    /// The device is being opened again after it was lost.
    Reconnecting,
    /// A short read for the next command header is under way.
    Polling,
    /// Sleeping before the next look at the loop's head.
    Pausing,
    /// The answer to EXIT is on the wire.
    ExitReply,
    /// The catalogue was asked for.
    ListCatalog,
    /// The RESPONSE header of a LIST is on the wire.
    ListReply,
    /// Waiting for the Switch to acknowledge the LIST header.
    ListAck,
    /// The LIST body is on the wire.
    ListBody,
    /// The ACK of a FILE_RANGE command is on the wire.
    RangeAck,
    /// Waiting for the body of the range request.
    RangeRequest,
    /// The requested name is being resolved and the file measured.
    RangeLookup,
    /// The empty RESPONSE for an unknown name is on the wire.
    RangeMissing,
    /// The RESPONSE header of a range is on the wire.
    RangeReply,
    /// Waiting for the Switch to acknowledge the range header.
    RangeGo,
    /// The next piece of the file is being read.
    RangeFetch,
    /// A piece of the file is on the wire.
    RangeSend,
}

/// Why the server ended with a failure.
#[derive(Debug, Clone, Copy, PartialEq, Eq, Structural)]
pub enum ServerError {
    /// The device could not be opened at the start.
    ConnectFailed,
    /// The device stayed away through every attempt to reconnect.
    ReconnectFailed,
    /// An event arrived that answers no action of the current phase.
    UnexpectedEvent,
}

/// What the driver is asked to do next.
#[derive(Debug, Clone, PartialEq, Eq)]
pub enum Action {
    /// Drop the device handle, if there is one, and open the device.
    Connect,
    /// Read up to `size` bytes from the IN endpoint.
    Receive { size: usize, timeout: TimeoutClass },
    /// Write `data` to the OUT endpoint in one bulk transfer.
    Send { data: Vec<u8> },
    /// Wait.
    Sleep { millis: u64 },
    /// Take a snapshot of the registry and measure each file.
    ListFiles,
    /// Look `name` up in the registry and measure the file.
    ResolveFile { name: String },
    /// Read `len` bytes at `offset` of the file resolved last: all of them,
    /// unless the file ends or fails before.
    ReadFile { offset: u64, len: usize },
    /// The loop has ended normally.
    Finish,
    /// The loop has ended with a failure.
    Fail { error: ServerError },
}

/// An action as a mathematical value.
pub enum ActionModel {
    Connect,
    Receive { size: usize, timeout: TimeoutClass },
    Send { data: Seq<u8> },
    Sleep { millis: u64 },
    ListFiles,
    ResolveFile { name: Seq<char> },
    ReadFile { offset: u64, len: usize },
    Finish,
    Fail { error: ServerError },
}

impl View for Action {
    type V = ActionModel;

    open spec fn view(&self) -> ActionModel {
        match self {
            Action::Connect => ActionModel::Connect,
            Action::Receive { size, timeout } => ActionModel::Receive {
                size: *size,
                timeout: *timeout,
            },
            Action::Send { data } => ActionModel::Send { data: data@ },
            Action::Sleep { millis } => ActionModel::Sleep { millis: *millis },
            Action::ListFiles => ActionModel::ListFiles,
            Action::ResolveFile { name } => ActionModel::ResolveFile { name: name@ },
            Action::ReadFile { offset, len } => ActionModel::ReadFile {
                offset: *offset,
                len: *len,
            },
            Action::Finish => ActionModel::Finish,
            Action::Fail { error } => ActionModel::Fail { error: *error },
        }
    }
}

/// How the last action went.
#[derive(Debug, Clone, PartialEq, Eq)]
pub enum Event {
    /// The device was opened.
    Connected,
    /// The device could not be opened.
    ConnectFailed,
    /// A read brought these bytes.
    Received(Vec<u8>),
    /// A write went through.
    Sent,
    /// A read or a write failed.
    TransportFailed(TransportError),
    /// The wait is over.
    Slept,
    /// The registry's files and their sizes.
    Catalog(Vec<CatalogEntry>),
    /// The name is registered and the file has this many bytes.
    FileFound { size: u64 },
    /// The name is not registered.
    FileMissing,
    /// The name is registered but the file could not be measured.
    FileUnreadable,
    /// The bytes read from the file: as many as were asked for, or fewer
    /// where the file ended before.
    FileData(Vec<u8>),
    /// The file could not be opened or read.
    FileFailed,
}

/// What a step decided, for whoever keeps a journal.
#[derive(Debug, Clone, Copy, PartialEq, Eq, Structural)]
pub enum Notice {
    /// Nothing worth a line.
    Quiet,
    /// The server was started.
    Started,
    /// The device was opened and the loop begins.
    Connected,
    /// The device could not be opened at the start.
    ConnectFailed,
    /// The device is back.
    Reconnected,
    /// An attempt to reconnect failed; another follows.
    ReconnectRetry { attempt: u32 },
    /// The last attempt to reconnect failed.
    ReconnectFailed,
    /// No command was waiting.
    Idle,
    /// Polling failed for a reason that may pass.
    PollFailed { error: TransportError },
    /// The device is gone.
    Disconnected,
    /// The transport failed in the middle of a transaction, which is
    /// given up.
    TransactionFailed { error: TransportError },
    /// A frame could not be decoded; its transaction is given up.
    FramingError { cause: ProtocolError },
    /// A command that is not served.
    UnknownCommand { cmd_id: u32 },
    /// The Switch asked to end the session.
    ExitRequested,
    /// The session ended at the Switch's request.
    Exited,
    /// The Switch asked for the catalogue.
    ListRequested,
    /// The catalogue's length was announced.
    ListAnnounced { bytes: u32 },
    /// The catalogue is too long for a header to announce.
    ListTooLong,
    /// The catalogue is empty, so no body follows.
    ListEmpty,
    /// The catalogue was sent.
    ListSent { bytes: u32 },
    /// The Switch announced a range request of this many bytes.
    RangeAnnounced { size: u32 },
    /// The range request was decoded.
    RangeRequested { offset: u64, size: u32 },
    /// The requested name is not registered.
    FileNotFound,
    /// The requested file could not be measured.
    FileUnreadable,
    /// The range was answered with this many bytes to follow.
    RangeGranted { size: u32 },
    /// Every promised byte has left.
    TransferComplete { bytes: u32 },
    /// The file gave out or failed before every promised byte had left:
    /// a read brought fewer bytes than asked for, or none, or failed.
    TransferAborted { sent: u32 },
    /// An event arrived that answers no action of the current phase.
    Unexpected,
}

/// The line that a notice leaves in the progress log, if it leaves one.
/// Failures do; the ordinary course of a session does not.
pub open spec fn notice_line(notice: Notice) -> Option<Seq<char>> {
    match notice {
        Notice::ConnectFailed => Some("[x] Could not connect to the Switch"@),
        Notice::ReconnectFailed => Some("[x] Could not reconnect to the Switch"@),
        Notice::Disconnected => Some("[!] Switch disconnected"@),
        Notice::TransactionFailed { .. } => Some("[!] Transfer interrupted"@),
        Notice::FramingError { .. } => Some("[!] Malformed frame from the Switch"@),
        Notice::UnknownCommand { .. } => Some("[!] Unsupported command"@),
        Notice::ListTooLong => Some("[!] File list too long"@),
        Notice::FileNotFound => Some("[!] File not found"@),
        Notice::FileUnreadable => Some("[!] Could not read the file"@),
        Notice::TransferAborted { .. } => Some("[!] Could not read the file"@),
        _ => None,
    }
}

/// The bytes of a header with the protocol's magic.
pub open spec fn header_wire(cmd_type: u32, cmd_id: u32, data_size: u32) -> Seq<u8> {
    CommandHeader { magic: MAGIC, cmd_type, cmd_id, data_size }.wire()
}

/// The sum of two counts, held at the largest value where it would pass it.
pub open spec fn capped_u32(a: u32, b: u32) -> u32 {
    if a + b > u32::MAX {
        u32::MAX
    } else {
        (a + b) as u32
    }
}

/// The place in the file of byte `sent` of a range that starts at `offset`.
pub open spec fn file_position(offset: u64, sent: u32) -> u64 {
    if offset + sent > u64::MAX {
        u64::MAX
    } else {
        (offset + sent) as u64
    }
}

/// The server's state as a mathematical value.
pub struct ServerModel {
    pub phase: Phase,
    /// Whether a device handle is held.
    pub connected: bool,
    /// Cleared by `stop`; looked at before each poll.
    pub running: bool,
    /// Failed attempts to reconnect since the device was last heard.
    pub reconnect_attempts: u32,
    /// The LIST body that waits for the Switch's acknowledgement.
    pub body: Seq<u8>,
    /// The announced length of the range request.
    pub request_size: u32,
    /// The file that the range in flight is taken from.
    pub file_name: Seq<char>,
    /// The number of bytes that the Switch asked for.
    pub range_size: u32,
    /// Where in the file the range starts.
    pub offset: u64,
    /// The size of the file when the range was answered.
    pub file_size: u64,
    /// The number of bytes that the RESPONSE header promised.
    pub size: u32,
    /// How many of them have left.
    pub sent: u32,
    /// The length of the piece being read or written.
    pub chunk: u32,
    /// The progress record, if the server keeps one.
    pub progress: Option<ProgressModel>,
}

/// The outcome of one step.
pub struct StepModel {
    pub state: ServerModel,
    pub action: ActionModel,
    pub notice: Notice,
}

/// The progress record after the line of `notice`, if any, was logged.
pub open spec fn journal(progress: Option<ProgressModel>, notice: Notice) -> Option<
    ProgressModel,
> {
    match (progress, notice_line(notice)) {
        (Some(record), Some(line)) => Some(record.add_log(line)),
        _ => progress,
    }
}

impl ServerModel {
    /// A server that has not been started.
    pub open spec fn initial(progress: Option<ProgressModel>) -> ServerModel {
        ServerModel {
            phase: Phase::Stopped,
            connected: false,
            running: false,
            reconnect_attempts: 0,
            body: Seq::<u8>::empty(),
            request_size: 0,
            file_name: Seq::<char>::empty(),
            range_size: 0,
            offset: 0,
            file_size: 0,
            size: 0,
            sent: 0,
            chunk: 0,
            progress,
        }
    }

    /// The step that enters `phase` with `action`.
    pub open spec fn enter(self, phase: Phase, action: ActionModel, notice: Notice) -> StepModel {
        StepModel {
            state: ServerModel { phase, progress: journal(self.progress, notice), ..self },
            action,
            notice,
        }
    }

    /// The step that ends the loop.
    pub open spec fn finish(self, notice: Notice) -> StepModel {
        self.enter(Phase::Stopped, ActionModel::Finish, notice)
    }

    /// The step that ends the loop with a failure.
    pub open spec fn fail(self, error: ServerError, notice: Notice) -> StepModel {
        self.enter(Phase::Stopped, ActionModel::Fail { error }, notice)
    }

    /// The step that reads the next command header.
    pub open spec fn listen(self, notice: Notice) -> StepModel {
        self.enter(
            Phase::Polling,
            ActionModel::Receive { size: HEADER_SIZE, timeout: TimeoutClass::Short },
            notice,
        )
    }

    /// The head of the loop: end if stopped, reconnect if the device is
    /// gone, else read the next command header.
    pub open spec fn poll(self, notice: Notice) -> StepModel {
        if !self.running {
            self.finish(notice)
        } else if !self.connected {
            if self.reconnect_attempts >= MAX_RECONNECT_ATTEMPTS {
                self.fail(ServerError::ReconnectFailed, notice)
            } else {
                self.enter(Phase::Reconnecting, ActionModel::Connect, notice)
            }
        } else {
            self.listen(notice)
        }
    }

    /// The step that waits before the loop's head is looked at again.
    pub open spec fn pause(self, millis: u64, notice: Notice) -> StepModel {
        self.enter(Phase::Pausing, ActionModel::Sleep { millis }, notice)
    }

    /// The step that sends a header.
    pub open spec fn send_header(
        self,
        phase: Phase,
        cmd_type: u32,
        cmd_id: u32,
        data_size: u32,
        notice: Notice,
    ) -> StepModel {
        self.enter(
            phase,
            ActionModel::Send { data: header_wire(cmd_type, cmd_id, data_size) },
            notice,
        )
    }

    /// The step that waits for the Switch's acknowledgement.
    pub open spec fn await_ack(self, phase: Phase) -> StepModel {
        self.enter(
            phase,
            ActionModel::Receive { size: HEADER_SIZE, timeout: TimeoutClass::Long },
            Notice::Quiet,
        )
    }

    /// The step that reads the next piece of the file.
    pub open spec fn fetch(self) -> StepModel {
        let len = chunk_len(self.size, self.sent);
        ServerModel { chunk: len as u32, ..self }.enter(
            Phase::RangeFetch,
            ActionModel::ReadFile { offset: file_position(self.offset, self.sent), len },
            Notice::Quiet,
        )
    }

    /// An event that answers no action of the current phase ends the loop.
    pub open spec fn unexpected(self) -> StepModel {
        self.fail(ServerError::UnexpectedEvent, Notice::Unexpected)
    }

    /// After a transport failure: whatever was in flight is given up, and
    /// the kind of failure decides how the loop goes on.
    pub open spec fn transport_failed(self, error: TransportError) -> StepModel {
        let in_transaction = self.phase != Phase::Polling;
        match recovery_for(error) {
            Recovery::Resume => self.poll(
                if in_transaction {
                    Notice::TransactionFailed { error }
                } else {
                    Notice::Idle
                },
            ),
            Recovery::Retry => self.pause(
                RETRY_DELAY_MILLIS,
                if in_transaction {
                    Notice::TransactionFailed { error }
                } else {
                    Notice::PollFailed { error }
                },
            ),
            Recovery::Reconnect => ServerModel { connected: false, ..self }.pause(
                DISCONNECT_DELAY_MILLIS,
                Notice::Disconnected,
            ),
        }
    }

    /// After a frame that does not decode: its transaction is given up and
    /// the loop goes on after a short pause.
    pub open spec fn framing_failed(self, error: ProtocolError) -> StepModel {
        self.pause(RETRY_DELAY_MILLIS, Notice::FramingError { cause: error })
    }

    /// After the bytes of a command header arrived.
    pub open spec fn command_received(self, data: Seq<u8>) -> StepModel {
        match parse_command_header(data) {
            Err(error) => self.framing_failed(error),
            Ok(header) => {
                let heard = ServerModel { reconnect_attempts: 0, ..self };
                if header.cmd_id == CMD_ID_EXIT {
                    heard.send_header(
                        Phase::ExitReply,
                        CMD_TYPE_RESPONSE,
                        CMD_ID_EXIT,
                        0,
                        Notice::ExitRequested,
                    )
                } else if header.cmd_id == CMD_ID_FILE_RANGE {
                    ServerModel { request_size: header.data_size, ..heard }.send_header(
                        Phase::RangeAck,
                        CMD_TYPE_ACK,
                        CMD_ID_FILE_RANGE,
                        header.data_size,
                        Notice::RangeAnnounced { size: header.data_size },
                    )
                } else if header.cmd_id == CMD_ID_LIST {
                    heard.enter(Phase::ListCatalog, ActionModel::ListFiles, Notice::ListRequested)
                } else {
                    heard.poll(Notice::UnknownCommand { cmd_id: header.cmd_id })
                }
            },
        }
    }

    /// After the catalogue arrived: its length is announced.
    pub open spec fn catalog_received(self, entries: Seq<CatalogEntry>) -> StepModel {
        let body = list_body(entries);
        if body.len() > u32::MAX {
            self.poll(Notice::ListTooLong)
        } else {
            ServerModel { body, ..self }.send_header(
                Phase::ListReply,
                CMD_TYPE_RESPONSE,
                CMD_ID_LIST,
                body.len() as u32,
                Notice::ListAnnounced { bytes: body.len() as u32 },
            )
        }
    }

    /// After the LIST header left: an empty catalogue ends the transaction,
    /// any other waits for the acknowledgement.
    pub open spec fn list_announced(self) -> StepModel {
        if self.body.len() > 0 {
            self.await_ack(Phase::ListAck)
        } else {
            self.poll(Notice::ListEmpty)
        }
    }

    /// After the Switch's answer to the LIST header arrived.
    pub open spec fn list_acknowledged(self, data: Seq<u8>) -> StepModel {
        match parse_command_header(data) {
            Err(error) => self.framing_failed(error),
            Ok(_) => self.enter(
                Phase::ListBody,
                ActionModel::Send { data: self.body },
                Notice::Quiet,
            ),
        }
    }

    /// After the LIST body left.
    pub open spec fn list_sent(self) -> StepModel {
        let bytes = self.body.len() as u32;
        ServerModel { body: Seq::<u8>::empty(), ..self }.poll(Notice::ListSent { bytes })
    }

    /// After the ACK of a FILE_RANGE command left: the request is read.
    pub open spec fn range_acknowledged(self) -> StepModel {
        self.enter(
            Phase::RangeRequest,
            ActionModel::Receive { size: self.request_size as usize, timeout: TimeoutClass::Long },
            Notice::Quiet,
        )
    }

    /// After the bytes of a range request arrived.
    pub open spec fn range_requested(self, data: Seq<u8>) -> StepModel {
        match parse_file_range(data) {
            Err(error) => self.framing_failed(error),
            Ok(request) => ServerModel {
                file_name: request.nsp_name,
                range_size: request.range_size,
                offset: request.range_offset,
                ..self
            }.enter(
                Phase::RangeLookup,
                ActionModel::ResolveFile { name: request.nsp_name },
                Notice::RangeRequested { offset: request.range_offset, size: request.range_size },
            ),
        }
    }

    /// After the file was found and measured: the RESPONSE header promises
    /// what the file can give.
    pub open spec fn file_found(self, file_size: u64) -> StepModel {
        let size = actual_size(self.range_size, self.offset, file_size);
        ServerModel { file_size, size, sent: 0, chunk: 0, ..self }.enter(
            Phase::RangeReply,
            ActionModel::Send {
                data: range_response(self.range_size, self.offset, file_size).wire(),
            },
            Notice::RangeGranted { size },
        )
    }

    /// After the name turned out not to be registered: an empty RESPONSE.
    pub open spec fn file_missing(self) -> StepModel {
        self.send_header(
            Phase::RangeMissing,
            CMD_TYPE_RESPONSE,
            CMD_ID_FILE_RANGE,
            0,
            Notice::FileNotFound,
        )
    }

    /// After the Switch's answer to the range header arrived: the progress
    /// record turns to the file, and the first piece is read if any byte
    /// was promised.
    pub open spec fn range_started(self, data: Seq<u8>) -> StepModel {
        match parse_command_header(data) {
            Err(error) => self.framing_failed(error),
            Ok(_) => {
                let turned = ServerModel {
                    progress: match self.progress {
                        Some(record) => Some(record.begin_file(self.file_name, self.file_size)),
                        None => None,
                    },
                    ..self
                };
                if turned.size > 0 {
                    turned.fetch()
                } else {
                    turned.poll(Notice::TransferComplete { bytes: 0 })
                }
            },
        }
    }

    /// After a piece of the file was read: a piece of exactly the length
    /// that was asked for is sent as it is. Any other piece, shorter, longer
    /// or empty, means that the file gave out or failed: the transfer ends
    /// and nothing more is sent.
    pub open spec fn piece_read(self, data: Seq<u8>) -> StepModel {
        if data.len() == 0 || data.len() != self.chunk {
            self.poll(Notice::TransferAborted { sent: self.sent })
        } else {
            self.enter(Phase::RangeSend, ActionModel::Send { data }, Notice::Quiet)
        }
    }

    /// After a piece of the file left: it is counted, and the next one is
    /// read unless every promised byte has left.
    pub open spec fn piece_sent(self, now: u64) -> StepModel {
        let counted = ServerModel {
            sent: capped_u32(self.sent, self.chunk),
            chunk: 0,
            progress: match self.progress {
                Some(record) => Some(record.record_chunk(self.chunk as u64, now)),
                None => None,
            },
            ..self
        };
        if counted.sent < counted.size {
            counted.fetch()
        } else {
            counted.poll(Notice::TransferComplete { bytes: counted.sent })
        }
    }

    /// The state after `start`, and the first action.
    pub open spec fn start(self) -> StepModel {
        let fresh = ServerModel { reconnect_attempts: 0, ..self };
        if fresh.connected {
            ServerModel { running: true, ..fresh }.poll(Notice::Started)
        } else {
            fresh.enter(Phase::Connecting, ActionModel::Connect, Notice::Started)
        }
    }

    /// The state after `stop`.
    pub open spec fn stop(self) -> ServerModel {
        ServerModel { running: false, connected: false, ..self }
    }

    /// The step that answers `event`, which arrived at time `now`.
    pub open spec fn next(self, event: Event, now: u64) -> StepModel {
        match self.phase {
            Phase::Stopped => self.unexpected(),
            Phase::Connecting => match event {
                Event::Connected => ServerModel { connected: true, running: true, ..self }.poll(
                    Notice::Connected,
                ),
                Event::ConnectFailed => self.fail(
                    ServerError::ConnectFailed,
                    Notice::ConnectFailed,
                ),
                _ => self.unexpected(),
            },
            Phase::Reconnecting => match event {
                Event::Connected => ServerModel {
                    connected: true,
                    reconnect_attempts: 0,
                    ..self
                }.listen(Notice::Reconnected),
                Event::ConnectFailed => {
                    let attempt = capped_u32(self.reconnect_attempts, 1);
                    let tried = ServerModel { reconnect_attempts: attempt, ..self };
                    if attempt >= MAX_RECONNECT_ATTEMPTS {
                        tried.fail(ServerError::ReconnectFailed, Notice::ReconnectFailed)
                    } else {
                        tried.pause(RECONNECT_DELAY_MILLIS, Notice::ReconnectRetry { attempt })
                    }
                },
                _ => self.unexpected(),
            },
            Phase::Pausing => match event {
                Event::Slept => self.poll(Notice::Quiet),
                _ => self.unexpected(),
            },
            Phase::Polling => match event {
                Event::Received(data) => self.command_received(data@),
                Event::TransportFailed(error) => self.transport_failed(error),
                _ => self.unexpected(),
            },
            Phase::ExitReply => match event {
                Event::Sent => self.finish(Notice::Exited),
                Event::TransportFailed(error) => self.transport_failed(error),
                _ => self.unexpected(),
            },
            Phase::ListCatalog => match event {
                Event::Catalog(entries) => self.catalog_received(entries@),
                _ => self.unexpected(),
            },
            Phase::ListReply => match event {
                Event::Sent => self.list_announced(),
                Event::TransportFailed(error) => self.transport_failed(error),
                _ => self.unexpected(),
            },
            Phase::ListAck => match event {
                Event::Received(data) => self.list_acknowledged(data@),
                Event::TransportFailed(error) => self.transport_failed(error),
                _ => self.unexpected(),
            },
            Phase::ListBody => match event {
                Event::Sent => self.list_sent(),
                Event::TransportFailed(error) => self.transport_failed(error),
                _ => self.unexpected(),
            },
            Phase::RangeAck => match event {
                Event::Sent => self.range_acknowledged(),
                Event::TransportFailed(error) => self.transport_failed(error),
                _ => self.unexpected(),
            },
            Phase::RangeRequest => match event {
                Event::Received(data) => self.range_requested(data@),
                Event::TransportFailed(error) => self.transport_failed(error),
                _ => self.unexpected(),
            },
            Phase::RangeLookup => match event {
                Event::FileFound { size } => self.file_found(size),
                Event::FileMissing => self.file_missing(),
                Event::FileUnreadable => self.poll(Notice::FileUnreadable),
                _ => self.unexpected(),
            },
            Phase::RangeMissing => match event {
                Event::Sent => self.poll(Notice::Quiet),
                Event::TransportFailed(error) => self.transport_failed(error),
                _ => self.unexpected(),
            },
            Phase::RangeReply => match event {
                Event::Sent => self.await_ack(Phase::RangeGo),
                Event::TransportFailed(error) => self.transport_failed(error),
                _ => self.unexpected(),
            },
            Phase::RangeGo => match event {
                Event::Received(data) => self.range_started(data@),
                Event::TransportFailed(error) => self.transport_failed(error),
                _ => self.unexpected(),
            },
            Phase::RangeFetch => match event {
                Event::FileData(data) => self.piece_read(data@),
                Event::FileFailed => self.poll(Notice::TransferAborted { sent: self.sent }),
                _ => self.unexpected(),
            },
            Phase::RangeSend => match event {
                Event::Sent => self.piece_sent(now),
                Event::TransportFailed(error) => self.transport_failed(error),
                _ => self.unexpected(),
            },
        }
    }
}

} // verus!
