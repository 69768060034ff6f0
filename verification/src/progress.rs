//! The record of the running transfer that observers read: which file, how
//! far, how fast, and the most recent log lines.

use vstd::prelude::*;
use vstd::string::StringExecFns;

verus! {

/// The log keeps this many lines; older ones are dropped.
pub const MAX_LOG_LINES: usize = 50;

/// Throughput is sampled no more often than this, in milliseconds.
pub const SPEED_WINDOW_MILLIS: u64 = 500;

/// Progress of the transfer in flight.
///
/// Throughput is held as the last completed sampling window: the bytes that
/// left during it and its length in milliseconds. Megabytes per second are
/// `window_bytes / (window_millis / 1000) / 1_000_000`; no window has been
/// completed while `window_millis` is zero.
#[derive(Debug, Clone, PartialEq, Eq)]
pub struct TransferProgress {
    pub current_file: String,
    pub bytes_sent: u64,
    pub total_size: u64,
    pub window_bytes: u64,
    pub window_millis: u64,
    pub logs: Vec<String>,
    /// When the current sampling window began, on the caller's millisecond
    /// clock; `None` before the first sample.
    pub last_update: Option<u64>,
    /// The value of `bytes_sent` when the current sampling window began.
    pub bytes_at_last_update: u64,
}

/// A progress record as a mathematical value.
pub struct ProgressModel {
    pub current_file: Seq<char>,
    pub bytes_sent: u64,
    pub total_size: u64,
    pub window_bytes: u64,
    pub window_millis: u64,
    pub logs: Seq<Seq<char>>,
    pub last_update: Option<u64>,
    pub bytes_at_last_update: u64,
}

/// The text of each line of a log.
pub open spec fn line_texts(lines: Seq<String>) -> Seq<Seq<char>> {
    Seq::new(lines.len(), |i: int| lines[i]@)
}

/// The log line that announces a new file.
pub open spec fn transfer_line(name: Seq<char>) -> Seq<char> {
    "[>] Transferring: "@ + name
}

impl View for TransferProgress {
    type V = ProgressModel;

    open spec fn view(&self) -> ProgressModel {
        ProgressModel {
            current_file: self.current_file@,
            bytes_sent: self.bytes_sent,
            total_size: self.total_size,
            window_bytes: self.window_bytes,
            window_millis: self.window_millis,
            logs: line_texts(self.logs@),
            last_update: self.last_update,
            bytes_at_last_update: self.bytes_at_last_update,
        }
    }
}

impl ProgressModel {
    /// The record before anything has happened.
    pub open spec fn empty() -> ProgressModel {
        ProgressModel {
            current_file: Seq::<char>::empty(),
            bytes_sent: 0,
            total_size: 0,
            window_bytes: 0,
            window_millis: 0,
            logs: Seq::<Seq<char>>::empty(),
            last_update: None,
            bytes_at_last_update: 0,
        }
    }

    /// The log holds no more lines than it may.
    pub open spec fn wf(self) -> bool {
        self.logs.len() <= MAX_LOG_LINES
    }

    /// The record after `message` was logged: it comes last, and the oldest
    /// line leaves once there are more than [`MAX_LOG_LINES`].
    pub open spec fn add_log(self, message: Seq<char>) -> ProgressModel {
        let pushed = self.logs.push(message);
        ProgressModel {
            logs: if pushed.len() > MAX_LOG_LINES {
                pushed.remove(0)
            } else {
                pushed
            },
            ..self
        }
    }

    /// The bytes sent since the current sampling window began.
    pub open spec fn pending_bytes(self) -> u64 {
        if self.bytes_sent >= self.bytes_at_last_update {
            (self.bytes_sent - self.bytes_at_last_update) as u64
        } else {
            0
        }
    }

    /// The record after the clock was read at `now`: the first reading opens
    /// a window; a later one closes it, and opens the next, once at least
    /// [`SPEED_WINDOW_MILLIS`] have passed.
    pub open spec fn update_speed(self, now: u64) -> ProgressModel {
        match self.last_update {
            Some(last) => {
                let elapsed: u64 = if now >= last {
                    (now - last) as u64
                } else {
                    0
                };
                if elapsed >= SPEED_WINDOW_MILLIS {
                    ProgressModel {
                        window_bytes: self.pending_bytes(),
                        window_millis: elapsed,
                        last_update: Some(now),
                        bytes_at_last_update: self.bytes_sent,
                        ..self
                    }
                } else {
                    self
                }
            },
            None => ProgressModel {
                last_update: Some(now),
                bytes_at_last_update: self.bytes_sent,
                ..self
            },
        }
    }

    /// The record after a range request for `name`, a file of `total_size`
    /// bytes, was accepted: unchanged if `name` is the current file, else
    /// reset for the new file, with a log line.
    pub open spec fn begin_file(self, name: Seq<char>, total_size: u64) -> ProgressModel {
        if self.current_file == name {
            self
        } else {
            ProgressModel {
                current_file: name,
                bytes_sent: 0,
                total_size,
                bytes_at_last_update: 0,
                ..self
            }.add_log(transfer_line(name))
        }
    }

    /// The record after `len` more bytes left at time `now`.
    pub open spec fn record_chunk(self, len: u64, now: u64) -> ProgressModel {
        ProgressModel {
            bytes_sent: if self.bytes_sent + len > u64::MAX {
                u64::MAX
            } else {
                (self.bytes_sent + len) as u64
            },
            ..self
        }.update_speed(now)
    }
}

impl TransferProgress {
    pub fn new() -> (progress: Self)
        ensures
            progress@ == ProgressModel::empty(),
            progress@.wf(),
    {
        let progress = TransferProgress {
            current_file: String::new(),
            bytes_sent: 0,
            total_size: 0,
            window_bytes: 0,
            window_millis: 0,
            logs: Vec::new(),
            last_update: None,
            bytes_at_last_update: 0,
        };
        assert(progress@.logs =~= Seq::<Seq<char>>::empty());
        progress
    }

    /// Reads the clock value `now_ms` (milliseconds on a clock that does not
    /// run backwards) and, if the sampling window is over, closes it.
    pub fn update_speed(&mut self, now_ms: u64)
        ensures
            final(self)@ == old(self)@.update_speed(now_ms),
    {
        match self.last_update {
            Some(last) => {
                let elapsed: u64 = if now_ms >= last {
                    now_ms - last
                } else {
                    0
                };
                if elapsed >= SPEED_WINDOW_MILLIS {
                    self.window_bytes =
                    if self.bytes_sent >= self.bytes_at_last_update {
                        self.bytes_sent - self.bytes_at_last_update
                    } else {
                        0
                    };
                    self.window_millis = elapsed;
                    self.last_update = Some(now_ms);
                    self.bytes_at_last_update = self.bytes_sent;
                }
            },
            None => {
                self.last_update = Some(now_ms);
                self.bytes_at_last_update = self.bytes_sent;
            },
        }
    }

    pub fn add_log(&mut self, message: String)
        ensures
            final(self)@ == old(self)@.add_log(message@),
            old(self)@.wf() ==> final(self)@.wf(),
            final(self)@.logs.len() > 0,
            final(self)@.logs.last() == message@,
    {
        let ghost before = self.logs@;
        self.logs.push(message);
        assert(line_texts(self.logs@) =~= line_texts(before).push(message@));
        if self.logs.len() > MAX_LOG_LINES {
            let ghost pushed = self.logs@;
            self.logs.remove(0);
            assert(line_texts(self.logs@) =~= line_texts(pushed).remove(0));
        }
    }

    /// Records that a range request for `name`, a file of `total_size`
    /// bytes, was accepted.
    pub fn begin_file(&mut self, name: &String, total_size: u64)
        ensures
            final(self)@ == old(self)@.begin_file(name@, total_size),
            old(self)@.wf() ==> final(self)@.wf(),
            final(self)@.current_file == name@,
            old(self)@.current_file == name@ ==> final(self)@.bytes_sent == old(self)@.bytes_sent,
            old(self)@.current_file != name@ ==> final(self)@.bytes_sent == 0,
    {
        if !(self.current_file == *name) {
            self.current_file = name.clone();
            self.bytes_sent = 0;
            self.total_size = total_size;
            self.bytes_at_last_update = 0;
            let line = String::from_str("[>] Transferring: ").concat(name.as_str());
            self.add_log(line);
        }
    }

    /// Records that `len` more bytes of the current file left at `now_ms`.
    pub fn record_chunk(&mut self, len: u64, now_ms: u64)
        ensures
            final(self)@ == old(self)@.record_chunk(len, now_ms),
            final(self)@.wf() == old(self)@.wf(),
            final(self)@.current_file == old(self)@.current_file,
            final(self)@.bytes_sent >= old(self)@.bytes_sent,
    {
        self.bytes_sent = self.bytes_sent.saturating_add(len);
        self.update_speed(now_ms);
    }
}

impl Default for TransferProgress {
    fn default() -> (progress: Self)
        ensures
            progress@ == ProgressModel::empty(),
    {
        TransferProgress::new()
    }
}

} // verus!
