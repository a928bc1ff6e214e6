//! The file output: what is sent to the log file's writer, and when the
//! writer flushes.

use vstd::prelude::*;
use vstd::string::*;
use vstd::utf8::encode_utf8;
use crate::serial_actor::{SerialEvent, SerialEventView};

verus! {

/// The forwarder sends its bytes on once it holds this many.
pub const BATCH_SIZE: usize = 4096;

/// The forwarder sends its bytes on at least this often, in milliseconds.
pub const BATCH_INTERVAL_MS: u64 = 200;

/// The size of the writer's own buffer.
pub const WRITER_CAPACITY: usize = 8192;

/// The writer flushes once this much time has passed since the last flush,
/// in milliseconds.
pub const FLUSH_INTERVAL_MS: u64 = 200;

/// The writer flushes once its buffer holds more than this many bytes.
pub const FLUSH_SIZE: usize = 4096;

/// The first line of a log file, for a session that started at the time
/// written as `now`.
pub open spec fn header_text(now: Seq<char>) -> Seq<char> {
    "Session started at: "@ + now + "\n"@
}

/// The line that records a failure of the port at the time written as `now`.
pub open spec fn error_text(now: Seq<char>, message: Seq<char>) -> Seq<char> {
    "\r\n[ERROR "@ + now + "] "@ + message + "\r\n"@
}

/// The line that records the end of the connection at the time written as `now`.
pub open spec fn closed_text(now: Seq<char>) -> Seq<char> {
    "\r\n[CLOSED "@ + now + "] Connection closed.\r\n"@
}

/// What the forwarder does in one step.
#[derive(Debug, Clone, PartialEq, Eq)]
pub struct FileStep {
    /// What is sent to the writer, in this order.
    pub sends: Vec<Vec<u8>>,
    /// Whether the forwarder ends.
    pub stop: bool,
    /// How many events the forwarder missed, to be reported to the user.
    pub skipped: Option<u64>,
}

/// What a [`FileStep`] is in specifications.
pub struct FileStepView {
    pub sends: Seq<Seq<u8>>,
    pub stop: bool,
    pub skipped: Option<u64>,
}

impl View for FileStep {
    type V = FileStepView;

    open spec fn view(&self) -> FileStepView {
        FileStepView {
            sends: Seq::new(self.sends@.len(), |i: int| self.sends@[i]@),
            stop: self.stop,
            skipped: self.skipped,
        }
    }
}

/// What is sent to empty the buffer: the buffer, if it holds anything.
pub open spec fn flushed(buffer: Seq<u8>) -> Seq<Seq<u8>> {
    if buffer.len() > 0 {
        seq![buffer]
    } else {
        Seq::empty()
    }
}

/// The buffer after an event, and what the forwarder does on it. Data is
/// collected and sent on once the buffer holds a whole batch. A failure is
/// recorded after what was collected before it. The end of the connection
/// is recorded likewise, and ends the forwarder.
pub open spec fn event_step(buffer: Seq<u8>, event: SerialEventView, now: Seq<char>) -> (
    Seq<u8>,
    FileStepView,
) {
    match event {
        SerialEventView::Data(data) => {
            let all = buffer + data;
            if all.len() >= BATCH_SIZE {
                (Seq::empty(), FileStepView { sends: seq![all], stop: false, skipped: None })
            } else {
                (all, FileStepView { sends: Seq::empty(), stop: false, skipped: None })
            }
        },
        SerialEventView::Error(message) => (
            Seq::empty(),
            FileStepView {
                sends: flushed(buffer).push(encode_utf8(error_text(now, message))),
                stop: false,
                skipped: None,
            },
        ),
        SerialEventView::ConnectionClosed => (
            Seq::empty(),
            FileStepView {
                sends: flushed(buffer).push(encode_utf8(closed_text(now))),
                stop: true,
                skipped: None,
            },
        ),
    }
}

/// Collects the bytes of the device for the log file and decides when they
/// are sent to the writer.
#[derive(Debug)]
pub struct FileForwarder {
    buffer: Vec<u8>,
}

impl View for FileForwarder {
    type V = Seq<u8>;

    closed spec fn view(&self) -> Seq<u8> {
        self.buffer@
    }
}

impl FileForwarder {
    /// A forwarder that holds no byte.
    pub fn new() -> (f: FileForwarder)
        ensures
            f@ == Seq::<u8>::empty(),
    {
        FileForwarder { buffer: Vec::with_capacity(BATCH_SIZE) }
    }

    /// The number of bytes that wait to be sent.
    pub fn pending(&self) -> (n: usize)
        ensures
            n == self@.len(),
    {
        self.buffer.len()
    }

    /// Takes what waits to be sent, if anything does.
    fn take(&mut self, sends: &mut Vec<Vec<u8>>)
        ensures
            final(self)@ == Seq::<u8>::empty(),
            final(sends)@.len() == old(sends)@.len() + flushed(old(self)@).len(),
            forall|i: int| 0 <= i < old(sends)@.len() ==> final(sends)@[i] == old(sends)@[i],
            old(self)@.len() > 0 ==> final(sends)@.last()@ == old(self)@,
    {
        if self.buffer.len() > 0 {
            let mut batch: Vec<u8> = Vec::new();
            std::mem::swap(&mut self.buffer, &mut batch);
            sends.push(batch);
        }
    }

    /// Decides on an event of the actor; `now` is the time as it is to be
    /// written into the file.
    pub fn on_event(&mut self, event: &SerialEvent, now: &str) -> (step: FileStep)
        ensures
            (final(self)@, step@) == event_step(old(self)@, event@, now@),
    {
        let mut sends: Vec<Vec<u8>> = Vec::new();
        match event {
            SerialEvent::Data(data) => {
                self.buffer.extend_from_slice(data);
                assert(self@ =~= old(self)@ + data@);
                if self.buffer.len() >= BATCH_SIZE {
                    self.take(&mut sends);
                }
                let step = FileStep { sends, stop: false, skipped: None };
                assert(step@.sends =~= event_step(old(self)@, event@, now@).1.sends);
                step
            },
            SerialEvent::Error(message) => {
                self.take(&mut sends);
                let mut line = "\r\n[ERROR ".to_owned();
                line.append(now);
                line.append("] ");
                line.append(message.as_str());
                line.append("\r\n");
                sends.push(line.as_str().as_bytes_vec());
                let step = FileStep { sends, stop: false, skipped: None };
                assert(step@.sends =~= event_step(old(self)@, event@, now@).1.sends);
                step
            },
            SerialEvent::ConnectionClosed => {
                self.take(&mut sends);
                let mut line = "\r\n[CLOSED ".to_owned();
                line.append(now);
                line.append("] Connection closed.\r\n");
                sends.push(line.as_str().as_bytes_vec());
                let step = FileStep { sends, stop: true, skipped: None };
                assert(step@.sends =~= event_step(old(self)@, event@, now@).1.sends);
                step
            },
        }
    }

    /// Decides on the news that the forwarder fell behind and missed
    /// `skipped` events: the user is told, and the forwarder goes on.
    pub fn on_lag(&self, skipped: u64) -> (step: FileStep)
        ensures
            step@ == (FileStepView { sends: Seq::empty(), stop: false, skipped: Some(skipped) }),
    {
        let step = FileStep { sends: Vec::new(), stop: false, skipped: Some(skipped) };
        assert(step@.sends =~= Seq::<Seq<u8>>::empty());
        step
    }

    /// Decides on the end of the broadcast: the forwarder ends.
    pub fn on_closed(&self) -> (step: FileStep)
        ensures
            step@ == (FileStepView { sends: Seq::empty(), stop: true, skipped: None }),
    {
        let step = FileStep { sends: Vec::new(), stop: true, skipped: None };
        assert(step@.sends =~= Seq::<Seq<u8>>::empty());
        step
    }

    /// Decides on a tick of the batch timer, and on the end of the
    /// forwarder's loop: what waits is sent on.
    pub fn on_tick(&mut self) -> (step: FileStep)
        ensures
            final(self)@ == Seq::<u8>::empty(),
            step@ == (FileStepView { sends: flushed(old(self)@), stop: false, skipped: None }),
    {
        let mut sends: Vec<Vec<u8>> = Vec::new();
        self.take(&mut sends);
        let step = FileStep { sends, stop: false, skipped: None };
        assert(step@.sends =~= flushed(old(self)@));
        step
    }
}

/// The first line of a log file, for a session that started at the time
/// written as `now`.
pub fn header_line(now: &str) -> (line: String)
    ensures
        line@ == header_text(now@),
{
    let mut line = "Session started at: ".to_owned();
    line.append(now);
    line.append("\n");
    line
}

/// Tells whether the writer flushes: `elapsed_ms` is the time since the
/// last flush, `buffered` the number of bytes in the writer's buffer.
pub fn should_flush(elapsed_ms: u64, buffered: usize) -> (r: bool)
    ensures
        r == (elapsed_ms > FLUSH_INTERVAL_MS || buffered > FLUSH_SIZE),
{
    elapsed_ms > FLUSH_INTERVAL_MS || buffered > FLUSH_SIZE
}

} // verus!
