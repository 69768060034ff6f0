//! The executable server: the state machine of [`crate::model`], one step
//! at a time.

use crate::listing::{append_bytes, build_list_body, CatalogEntry};
use crate::model::{
    notice_line, Action, Event, Notice, Phase, ServerError, ServerModel, StepModel,
    DISCONNECT_DELAY_MILLIS, HEADER_SIZE, MAX_RECONNECT_ATTEMPTS, RECONNECT_DELAY_MILLIS,
    RETRY_DELAY_MILLIS,
};
use crate::progress::{ProgressModel, TransferProgress};
use crate::protocol::{
    CommandHeader, FileRangeHeader, ProtocolError, CMD_ID_EXIT, CMD_ID_FILE_RANGE, CMD_ID_LIST,
    CMD_TYPE_ACK, CMD_TYPE_RESPONSE,
};
use crate::range::{clamp_range, next_chunk_len};
use crate::transport::{classify, Recovery, TimeoutClass, TransportError};
use vstd::prelude::*;
use vstd::string::StringExecFns;

verus! {

/// What a step hands to the driver: the action to perform, and a notice of
/// what was decided.
#[derive(Debug, Clone, PartialEq, Eq)]
pub struct Step {
    pub action: Action,
    pub notice: Notice,
}

impl Step {
    /// This step as the outcome that led to `state`.
    pub open spec fn outcome(self, state: ServerModel) -> StepModel {
        StepModel { state, action: self.action@, notice: self.notice }
    }
}

/// The host side of one session with a Switch.
#[derive(Debug)]
pub struct SwitchLinkServer {
    phase: Phase,
    connected: bool,
    running: bool,
    reconnect_attempts: u32,
    body: Vec<u8>,
    request_size: u32,
    file_name: String,
    range_size: u32,
    offset: u64,
    file_size: u64,
    size: u32,
    sent: u32,
    chunk: u32,
    progress: Option<TransferProgress>,
}

/// The progress record of a server as a mathematical value.
pub open spec fn progress_model(progress: Option<TransferProgress>) -> Option<ProgressModel> {
    match progress {
        Some(record) => Some(record@),
        None => None,
    }
}

impl View for SwitchLinkServer {
    type V = ServerModel;

    closed spec fn view(&self) -> ServerModel {
        ServerModel {
            phase: self.phase,
            connected: self.connected,
            running: self.running,
            reconnect_attempts: self.reconnect_attempts,
            body: self.body@,
            request_size: self.request_size,
            file_name: self.file_name@,
            range_size: self.range_size,
            offset: self.offset,
            file_size: self.file_size,
            size: self.size,
            sent: self.sent,
            chunk: self.chunk,
            progress: progress_model(self.progress),
        }
    }
}

/// The text of the line that a notice leaves in the progress log.
fn notice_text(notice: Notice) -> (text: Option<&'static str>)
    ensures
        match text {
            Some(line) => notice_line(notice) == Some(line@),
            None => notice_line(notice) is None,
        },
{
    match notice {
        Notice::ConnectFailed => Some("[x] Could not connect to the Switch"),
        Notice::ReconnectFailed => Some("[x] Could not reconnect to the Switch"),
        Notice::Disconnected => Some("[!] Switch disconnected"),
        Notice::TransactionFailed { .. } => Some("[!] Transfer interrupted"),
        Notice::FramingError { .. } => Some("[!] Malformed frame from the Switch"),
        Notice::UnknownCommand { .. } => Some("[!] Unsupported command"),
        Notice::ListTooLong => Some("[!] File list too long"),
        Notice::FileNotFound => Some("[!] File not found"),
        Notice::FileUnreadable => Some("[!] Could not read the file"),
        Notice::TransferAborted { .. } => Some("[!] Could not read the file"),
        _ => None,
    }
}

/// A copy of `bytes`.
fn copy_bytes(bytes: &Vec<u8>) -> (copy: Vec<u8>)
    ensures
        copy@ == bytes@,
{
    let mut copy: Vec<u8> = Vec::new();
    append_bytes(&mut copy, bytes.as_slice());
    assert(copy@ =~= bytes@);
    copy
}

impl SwitchLinkServer {
    /// A stopped server that keeps no progress record.
    pub fn new() -> (server: Self)
        ensures
            server@ == ServerModel::initial(None),
    {
        SwitchLinkServer {
            phase: Phase::Stopped,
            connected: false,
            running: false,
            reconnect_attempts: 0,
            body: Vec::new(),
            request_size: 0,
            file_name: String::new(),
            range_size: 0,
            offset: 0,
            file_size: 0,
            size: 0,
            sent: 0,
            chunk: 0,
            progress: None,
        }
    }

    /// A stopped server that keeps `progress` up to date.
    pub fn new_with_progress(progress: TransferProgress) -> (server: Self)
        ensures
            server@ == ServerModel::initial(Some(progress@)),
    {
        SwitchLinkServer {
            phase: Phase::Stopped,
            connected: false,
            running: false,
            reconnect_attempts: 0,
            body: Vec::new(),
            request_size: 0,
            file_name: String::new(),
            range_size: 0,
            offset: 0,
            file_size: 0,
            size: 0,
            sent: 0,
            chunk: 0,
            progress: Some(progress),
        }
    }

    /// Records the outcome of opening the device outside the loop: the
    /// server counts as connected if the device was opened, and is left as
    /// it was if not.
    pub fn connect(&mut self, opened: bool) -> (result: Result<(), ServerError>)
        ensures
            opened ==> result is Ok && final(self)@ == (ServerModel {
                connected: true,
                ..old(self)@
            }),
            !opened ==> final(self)@ == old(self)@ && result == Err::<(), ServerError>(
                ServerError::ConnectFailed,
            ),
    {
        if opened {
            self.connected = true;
            Ok(())
        } else {
            Err(ServerError::ConnectFailed)
        }
    }

    pub fn is_connected(&self) -> (connected: bool)
        ensures
            connected == self@.connected,
    {
        self.connected
    }

    /// Whether the server has been started and not been told to stop.
    pub fn is_running(&self) -> (running: bool)
        ensures
            running == self@.running,
    {
        self.running
    }

    /// Where the server stands.
    pub fn phase(&self) -> (phase: Phase)
        ensures
            phase == self@.phase,
    {
        self.phase
    }

    /// The progress record, if the server keeps one.
    pub fn progress(&self) -> (progress: Option<&TransferProgress>)
        ensures
            match progress {
                Some(record) => self@.progress == Some(record@),
                None => self@.progress is None,
            },
    {
        self.progress.as_ref()
    }

    /// Starts the server and hands out the first action: the device is
    /// opened unless the server is connected already, then the loop begins.
    pub fn start(&mut self) -> (step: Step)
        ensures
            step.outcome(final(self)@) == old(self)@.start(),
    {
        self.reconnect_attempts = 0;
        if self.connected {
            self.running = true;
            self.poll(Notice::Started)
        } else {
            self.enter(Phase::Connecting, Action::Connect, Notice::Started)
        }
    }

    /// Tells the server to stop: the running flag is cleared and the device
    /// counts as released. The loop ends the next time it reaches its head.
    pub fn stop(&mut self)
        ensures
            final(self)@ == old(self)@.stop(),
    {
        self.running = false;
        self.connected = false;
    }

    /// Answers `event`, the outcome of the action handed out last, with the
    /// next action. `now_ms` is the reading of a millisecond clock that
    /// does not run backwards; it dates the progress samples.
    pub fn step(&mut self, event: Event, now_ms: u64) -> (step: Step)
        ensures
            step.outcome(final(self)@) == old(self)@.next(event, now_ms),
    {
        match self.phase {
            Phase::Stopped => self.unexpected(),
            Phase::Connecting => match event {
                Event::Connected => {
                    self.connected = true;
                    self.running = true;
                    self.poll(Notice::Connected)
                },
                Event::ConnectFailed => self.fail(
                    ServerError::ConnectFailed,
                    Notice::ConnectFailed,
                ),
                _ => self.unexpected(),
            },
            Phase::Reconnecting => match event {
                Event::Connected => {
                    self.connected = true;
                    self.reconnect_attempts = 0;
                    self.listen(Notice::Reconnected)
                },
                Event::ConnectFailed => {
                    let attempt = self.reconnect_attempts.saturating_add(1);
                    self.reconnect_attempts = attempt;
                    if attempt >= MAX_RECONNECT_ATTEMPTS {
                        self.fail(ServerError::ReconnectFailed, Notice::ReconnectFailed)
                    } else {
                        self.pause(RECONNECT_DELAY_MILLIS, Notice::ReconnectRetry { attempt })
                    }
                },
                _ => self.unexpected(),
            },
            Phase::Pausing => match event {
                Event::Slept => self.poll(Notice::Quiet),
                _ => self.unexpected(),
            },
            Phase::Polling => match event {
                Event::Received(data) => self.command_received(data.as_slice()),
                Event::TransportFailed(error) => self.transport_failed(error),
                _ => self.unexpected(),
            },
            Phase::ExitReply => match event {
                Event::Sent => self.finish(Notice::Exited),
                Event::TransportFailed(error) => self.transport_failed(error),
                _ => self.unexpected(),
            },
            Phase::ListCatalog => match event {
                Event::Catalog(entries) => self.catalog_received(&entries),
                _ => self.unexpected(),
            },
            Phase::ListReply => match event {
                Event::Sent => self.list_announced(),
                Event::TransportFailed(error) => self.transport_failed(error),
                _ => self.unexpected(),
            },
            Phase::ListAck => match event {
                Event::Received(data) => self.list_acknowledged(data.as_slice()),
                Event::TransportFailed(error) => self.transport_failed(error),
                _ => self.unexpected(),
            },
            Phase::ListBody => match event {
                Event::Sent => self.list_sent(),
                Event::TransportFailed(error) => self.transport_failed(error),
                _ => self.unexpected(),
            },
            Phase::RangeAck => match event {
                Event::Sent => self.range_acknowledged(),
                Event::TransportFailed(error) => self.transport_failed(error),
                _ => self.unexpected(),
            },
            Phase::RangeRequest => match event {
                Event::Received(data) => self.range_requested(data.as_slice()),
                Event::TransportFailed(error) => self.transport_failed(error),
                _ => self.unexpected(),
            },
            Phase::RangeLookup => match event {
                Event::FileFound { size } => self.file_found(size),
                Event::FileMissing => self.file_missing(),
                Event::FileUnreadable => self.poll(Notice::FileUnreadable),
                _ => self.unexpected(),
            },
            Phase::RangeMissing => match event {
                Event::Sent => self.poll(Notice::Quiet),
                Event::TransportFailed(error) => self.transport_failed(error),
                _ => self.unexpected(),
            },
            Phase::RangeReply => match event {
                Event::Sent => self.await_ack(Phase::RangeGo),
                Event::TransportFailed(error) => self.transport_failed(error),
                _ => self.unexpected(),
            },
            Phase::RangeGo => match event {
                Event::Received(data) => self.range_started(data.as_slice()),
                Event::TransportFailed(error) => self.transport_failed(error),
                _ => self.unexpected(),
            },
            Phase::RangeFetch => match event {
                Event::FileData(data) => self.piece_read(data),
                Event::FileFailed => {
                    let sent = self.sent;
                    self.poll(Notice::TransferAborted { sent })
                },
                _ => self.unexpected(),
            },
            Phase::RangeSend => match event {
                Event::Sent => self.piece_sent(now_ms),
                Event::TransportFailed(error) => self.transport_failed(error),
                _ => self.unexpected(),
            },
        }
    }

    /// Enters `phase` with `action`, and logs the line of `notice`.
    fn enter(&mut self, phase: Phase, action: Action, notice: Notice) -> (step: Step)
        ensures
            step.outcome(final(self)@) == old(self)@.enter(phase, action@, notice),
    {
        self.phase = phase;
        match notice_text(notice) {
            Some(line) => {
                match &mut self.progress {
                    Some(record) => {
                        record.add_log(String::from_str(line));
                    },
                    None => {},
                }
            },
            None => {},
        }
        Step { action, notice }
    }

    fn finish(&mut self, notice: Notice) -> (step: Step)
        ensures
            step.outcome(final(self)@) == old(self)@.finish(notice),
    {
        self.enter(Phase::Stopped, Action::Finish, notice)
    }

    fn fail(&mut self, error: ServerError, notice: Notice) -> (step: Step)
        ensures
            step.outcome(final(self)@) == old(self)@.fail(error, notice),
    {
        self.enter(Phase::Stopped, Action::Fail { error }, notice)
    }

    fn listen(&mut self, notice: Notice) -> (step: Step)
        ensures
            step.outcome(final(self)@) == old(self)@.listen(notice),
    {
        self.enter(
            Phase::Polling,
            Action::Receive { size: HEADER_SIZE, timeout: TimeoutClass::Short },
            notice,
        )
    }

    fn poll(&mut self, notice: Notice) -> (step: Step)
        ensures
            step.outcome(final(self)@) == old(self)@.poll(notice),
    {
        if !self.running {
            self.finish(notice)
        } else if !self.connected {
            if self.reconnect_attempts >= MAX_RECONNECT_ATTEMPTS {
                self.fail(ServerError::ReconnectFailed, notice)
            } else {
                self.enter(Phase::Reconnecting, Action::Connect, notice)
            }
        } else {
            self.listen(notice)
        }
    }

    fn pause(&mut self, millis: u64, notice: Notice) -> (step: Step)
        ensures
            step.outcome(final(self)@) == old(self)@.pause(millis, notice),
    {
        self.enter(Phase::Pausing, Action::Sleep { millis }, notice)
    }

    fn send_header(
        &mut self,
        phase: Phase,
        cmd_type: u32,
        cmd_id: u32,
        data_size: u32,
        notice: Notice,
    ) -> (step: Step)
        ensures
            step.outcome(final(self)@) == old(self)@.send_header(
                phase,
                cmd_type,
                cmd_id,
                data_size,
                notice,
            ),
    {
        let data = CommandHeader::new(cmd_type, cmd_id, data_size).to_bytes();
        self.enter(phase, Action::Send { data }, notice)
    }

    fn await_ack(&mut self, phase: Phase) -> (step: Step)
        ensures
            step.outcome(final(self)@) == old(self)@.await_ack(phase),
    {
        self.enter(
            phase,
            Action::Receive { size: HEADER_SIZE, timeout: TimeoutClass::Long },
            Notice::Quiet,
        )
    }

    fn fetch(&mut self) -> (step: Step)
        ensures
            step.outcome(final(self)@) == old(self)@.fetch(),
    {
        let len = next_chunk_len(self.size, self.sent);
        let offset = self.offset.saturating_add(self.sent as u64);
        self.chunk = len as u32;
        self.enter(Phase::RangeFetch, Action::ReadFile { offset, len }, Notice::Quiet)
    }

    fn unexpected(&mut self) -> (step: Step)
        ensures
            step.outcome(final(self)@) == old(self)@.unexpected(),
    {
        self.fail(ServerError::UnexpectedEvent, Notice::Unexpected)
    }

    fn transport_failed(&mut self, error: TransportError) -> (step: Step)
        ensures
            step.outcome(final(self)@) == old(self)@.transport_failed(error),
    {
        let in_transaction = self.phase != Phase::Polling;
        match classify(error) {
            Recovery::Resume => {
                let notice = if in_transaction {
                    Notice::TransactionFailed { error }
                } else {
                    Notice::Idle
                };
                self.poll(notice)
            },
            Recovery::Retry => {
                let notice = if in_transaction {
                    Notice::TransactionFailed { error }
                } else {
                    Notice::PollFailed { error }
                };
                self.pause(RETRY_DELAY_MILLIS, notice)
            },
            Recovery::Reconnect => {
                self.connected = false;
                self.pause(DISCONNECT_DELAY_MILLIS, Notice::Disconnected)
            },
        }
    }

    fn framing_failed(&mut self, error: ProtocolError) -> (step: Step)
        ensures
            step.outcome(final(self)@) == old(self)@.framing_failed(error),
    {
        self.pause(RETRY_DELAY_MILLIS, Notice::FramingError { cause: error })
    }

    fn command_received(&mut self, data: &[u8]) -> (step: Step)
        ensures
            step.outcome(final(self)@) == old(self)@.command_received(data@),
    {
        match CommandHeader::from_bytes(data) {
            Err(error) => self.framing_failed(error),
            Ok(header) => {
                self.reconnect_attempts = 0;
                if header.cmd_id == CMD_ID_EXIT {
                    self.send_header(
                        Phase::ExitReply,
                        CMD_TYPE_RESPONSE,
                        CMD_ID_EXIT,
                        0,
                        Notice::ExitRequested,
                    )
                } else if header.cmd_id == CMD_ID_FILE_RANGE {
                    self.request_size = header.data_size;
                    self.send_header(
                        Phase::RangeAck,
                        CMD_TYPE_ACK,
                        CMD_ID_FILE_RANGE,
                        header.data_size,
                        Notice::RangeAnnounced { size: header.data_size },
                    )
                } else if header.cmd_id == CMD_ID_LIST {
                    self.enter(Phase::ListCatalog, Action::ListFiles, Notice::ListRequested)
                } else {
                    self.poll(Notice::UnknownCommand { cmd_id: header.cmd_id })
                }
            },
        }
    }

    fn catalog_received(&mut self, entries: &Vec<CatalogEntry>) -> (step: Step)
        ensures
            step.outcome(final(self)@) == old(self)@.catalog_received(entries@),
    {
        let body = build_list_body(entries);
        if body.len() > u32::MAX as usize {
            self.poll(Notice::ListTooLong)
        } else {
            let bytes = body.len() as u32;
            self.body = body;
            self.send_header(
                Phase::ListReply,
                CMD_TYPE_RESPONSE,
                CMD_ID_LIST,
                bytes,
                Notice::ListAnnounced { bytes },
            )
        }
    }

    fn list_announced(&mut self) -> (step: Step)
        ensures
            step.outcome(final(self)@) == old(self)@.list_announced(),
    {
        if self.body.len() > 0 {
            self.await_ack(Phase::ListAck)
        } else {
            self.poll(Notice::ListEmpty)
        }
    }

    fn list_acknowledged(&mut self, data: &[u8]) -> (step: Step)
        ensures
            step.outcome(final(self)@) == old(self)@.list_acknowledged(data@),
    {
        match CommandHeader::from_bytes(data) {
            Err(error) => self.framing_failed(error),
            Ok(_) => {
                let data = copy_bytes(&self.body);
                self.enter(Phase::ListBody, Action::Send { data }, Notice::Quiet)
            },
        }
    }

    fn list_sent(&mut self) -> (step: Step)
        ensures
            step.outcome(final(self)@) == old(self)@.list_sent(),
    {
        let bytes = self.body.len() as u32;
        self.body = Vec::new();
        self.poll(Notice::ListSent { bytes })
    }

    fn range_acknowledged(&mut self) -> (step: Step)
        ensures
            step.outcome(final(self)@) == old(self)@.range_acknowledged(),
    {
        let size = self.request_size as usize;
        self.enter(
            Phase::RangeRequest,
            Action::Receive { size, timeout: TimeoutClass::Long },
            Notice::Quiet,
        )
    }

    fn range_requested(&mut self, data: &[u8]) -> (step: Step)
        ensures
            step.outcome(final(self)@) == old(self)@.range_requested(data@),
    {
        match FileRangeHeader::from_bytes(data) {
            Err(error) => self.framing_failed(error),
            Ok(request) => {
                let notice = Notice::RangeRequested {
                    offset: request.range_offset,
                    size: request.range_size,
                };
                self.file_name = request.nsp_name.clone();
                self.range_size = request.range_size;
                self.offset = request.range_offset;
                self.enter(
                    Phase::RangeLookup,
                    Action::ResolveFile { name: request.nsp_name },
                    notice,
                )
            },
        }
    }

    fn file_found(&mut self, file_size: u64) -> (step: Step)
        ensures
            step.outcome(final(self)@) == old(self)@.file_found(file_size),
    {
        let size = clamp_range(self.range_size, self.offset, file_size);
        self.file_size = file_size;
        self.size = size;
        self.sent = 0;
        self.chunk = 0;
        let data = CommandHeader::new(CMD_TYPE_RESPONSE, CMD_ID_FILE_RANGE, size).to_bytes();
        self.enter(Phase::RangeReply, Action::Send { data }, Notice::RangeGranted { size })
    }

    fn file_missing(&mut self) -> (step: Step)
        ensures
            step.outcome(final(self)@) == old(self)@.file_missing(),
    {
        self.send_header(
            Phase::RangeMissing,
            CMD_TYPE_RESPONSE,
            CMD_ID_FILE_RANGE,
            0,
            Notice::FileNotFound,
        )
    }

    fn range_started(&mut self, data: &[u8]) -> (step: Step)
        ensures
            step.outcome(final(self)@) == old(self)@.range_started(data@),
    {
        match CommandHeader::from_bytes(data) {
            Err(error) => self.framing_failed(error),
            Ok(_) => {
                match &mut self.progress {
                    Some(record) => {
                        record.begin_file(&self.file_name, self.file_size);
                    },
                    None => {},
                }
                if self.size > 0 {
                    self.fetch()
                } else {
                    self.poll(Notice::TransferComplete { bytes: 0 })
                }
            },
        }
    }

    fn piece_read(&mut self, data: Vec<u8>) -> (step: Step)
        ensures
            step.outcome(final(self)@) == old(self)@.piece_read(data@),
    {
        if data.len() == 0 || data.len() != self.chunk as usize {
            let sent = self.sent;
            self.poll(Notice::TransferAborted { sent })
        } else {
            self.enter(Phase::RangeSend, Action::Send { data }, Notice::Quiet)
        }
    }

    fn piece_sent(&mut self, now_ms: u64) -> (step: Step)
        ensures
            step.outcome(final(self)@) == old(self)@.piece_sent(now_ms),
    {
        let chunk = self.chunk;
        self.sent = self.sent.saturating_add(chunk);
        self.chunk = 0;
        match &mut self.progress {
            Some(record) => {
                record.record_chunk(chunk as u64, now_ms);
            },
            None => {},
        }
        if self.sent < self.size {
            self.fetch()
        } else {
            let bytes = self.sent;
            self.poll(Notice::TransferComplete { bytes })
        }
    }
}

} // verus!
