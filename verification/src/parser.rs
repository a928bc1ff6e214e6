//! The byte parser: a streaming state machine that splits the inbound bytes
//! into text runs, control bytes and escape sequences.

use vstd::prelude::*;
use crate::ascii::{is_ascii, is_control, is_letter, byte_is_ascii, byte_is_control, byte_is_letter, BK, ESC};

verus! {

/// One classified piece of the inbound stream.
#[derive(Debug, Clone, PartialEq, Eq)]
pub enum ParserEvent {
    /// A run of printable bytes with no control or escape byte in between.
    Text(Vec<u8>),
    /// A single C0 byte or DEL, but not ESC.
    Control(u8),
    /// A complete sequence that starts with ESC.
    EscapeSequence(Vec<u8>),
}

/// What a [`ParserEvent`] is in specifications.
pub enum EventView {
    Text(Seq<u8>),
    Control(u8),
    EscapeSequence(Seq<u8>),
}

impl View for ParserEvent {
    type V = EventView;

    open spec fn view(&self) -> EventView {
        match self {
            ParserEvent::Text(t) => EventView::Text(t@),
            ParserEvent::Control(b) => EventView::Control(*b),
            ParserEvent::EscapeSequence(s) => EventView::EscapeSequence(s@),
        }
    }
}

impl EventView {
    /// The bytes of the stream that this event stands for.
    pub open spec fn payload(self) -> Seq<u8> {
        match self {
            EventView::Text(t) => t,
            EventView::Control(b) => seq![b],
            EventView::EscapeSequence(s) => s,
        }
    }
}

/// Where the parser stands between two bytes.
#[derive(Debug, Clone, Copy, PartialEq, Eq, Structural)]
pub enum ParseState {
    /// Outside any escape sequence.
    Normal,
    /// Just after ESC.
    Esc,
    /// After `ESC [`, before the terminating letter.
    Csi,
}

/// The parser as a mathematical value, together with the events it has
/// emitted so far.
pub struct ParserModel {
    pub state: ParseState,
    pub buffer: Seq<u8>,
    pub events: Seq<EventView>,
}

/// The payloads of `events`, one after another.
pub open spec fn payloads(events: Seq<EventView>) -> Seq<u8>
    decreases events.len(),
{
    if events.len() == 0 {
        Seq::empty()
    } else {
        payloads(events.drop_last()) + events.last().payload()
    }
}

/// The bytes of `data` that are 7-bit values, in order.
pub open spec fn ascii_only(data: Seq<u8>) -> Seq<u8> {
    data.filter(|b: u8| is_ascii(b))
}

impl ParserModel {
    /// The parser before any byte: state `Normal`, nothing pending, nothing emitted.
    pub open spec fn initial() -> ParserModel {
        ParserModel { state: ParseState::Normal, buffer: Seq::empty(), events: Seq::empty() }
    }

    /// The same parser with no event emitted yet.
    pub open spec fn quiet(self) -> ParserModel {
        ParserModel { events: Seq::empty(), ..self }
    }

    /// The same parser with `events` as what it has emitted.
    pub open spec fn with_events(self, events: Seq<EventView>) -> ParserModel {
        ParserModel { events, ..self }
    }

    /// Emits the pending bytes as a text run, if there are any.
    pub open spec fn flush_text(self) -> ParserModel {
        if self.buffer.len() > 0 {
            ParserModel {
                buffer: Seq::empty(),
                events: self.events.push(EventView::Text(self.buffer)),
                ..self
            }
        } else {
            self
        }
    }

    /// The transition on one byte.
    pub open spec fn step(self, b: u8) -> ParserModel {
        if !is_ascii(b) {
            self
        } else {
            match self.state {
                ParseState::Normal => {
                    if b == ESC {
                        ParserModel { state: ParseState::Esc, buffer: seq![b], ..self.flush_text() }
                    } else if is_control(b) {
                        let f = self.flush_text();
                        ParserModel { events: f.events.push(EventView::Control(b)), ..f }
                    } else {
                        ParserModel { buffer: self.buffer.push(b), ..self }
                    }
                },
                ParseState::Esc => {
                    if b == BK {
                        ParserModel { state: ParseState::Csi, buffer: self.buffer.push(b), ..self }
                    } else {
                        ParserModel {
                            state: ParseState::Normal,
                            buffer: Seq::empty(),
                            events: self.events.push(EventView::EscapeSequence(self.buffer.push(b))),
                        }
                    }
                },
                ParseState::Csi => {
                    if is_letter(b) {
                        ParserModel {
                            state: ParseState::Normal,
                            buffer: Seq::empty(),
                            events: self.events.push(EventView::EscapeSequence(self.buffer.push(b))),
                        }
                    } else {
                        ParserModel { buffer: self.buffer.push(b), ..self }
                    }
                },
            }
        }
    }

    /// The transitions on the bytes of `data`, first to last.
    pub open spec fn run(self, data: Seq<u8>) -> ParserModel
        decreases data.len(),
    {
        if data.len() == 0 {
            self
        } else {
            self.run(data.drop_last()).step(data.last())
        }
    }

    /// What ends a batch: pending text is emitted, a partial escape sequence stays pending.
    pub open spec fn finish(self) -> ParserModel {
        if self.state == ParseState::Normal {
            self.flush_text()
        } else {
            self
        }
    }

    /// One batch: the bytes of `data`, then the end of the batch.
    pub open spec fn feed(self, data: Seq<u8>) -> ParserModel {
        self.run(data).finish()
    }

    /// The batches of `chunks` one after another, the events of all of them collected.
    pub open spec fn feed_all(self, chunks: Seq<Seq<u8>>) -> ParserModel
        decreases chunks.len(),
    {
        if chunks.len() == 0 {
            self
        } else {
            self.feed_all(chunks.drop_last()).feed(chunks.last())
        }
    }

    /// Every byte the parser has taken in and kept: emitted payloads, then what is pending.
    pub open spec fn taken(self) -> Seq<u8> {
        payloads(self.events) + self.buffer
    }
}

/// The streaming byte parser. It keeps the bytes of an unfinished escape
/// sequence from one batch to the next.
#[derive(Debug, Clone, PartialEq, Eq)]
pub struct ByteParser {
    state: ParseState,
    buffer: Vec<u8>,
}

impl View for ByteParser {
    type V = ParserModel;

    closed spec fn view(&self) -> ParserModel {
        ParserModel { state: self.state, buffer: self.buffer@, events: Seq::empty() }
    }
}

/// The views of `events`, in order.
pub open spec fn event_views(events: Seq<ParserEvent>) -> Seq<EventView> {
    Seq::new(events.len(), |i: int| events[i]@)
}

impl ByteParser {
    /// A parser in state `Normal` with nothing pending.
    pub fn new() -> (p: ByteParser)
        ensures
            p@ == ParserModel::initial(),
    {
        ByteParser { state: ParseState::Normal, buffer: Vec::new() }
    }

    /// The state the parser is in.
    pub fn state(&self) -> (s: ParseState)
        ensures
            s == self@.state,
    {
        self.state
    }

    /// The number of bytes of an unfinished escape sequence that are pending.
    pub fn pending(&self) -> (n: usize)
        ensures
            n == self@.buffer.len(),
    {
        self.buffer.len()
    }

    /// Takes one batch of bytes and returns the events it completes, in input
    /// order. Bytes above 0x7F are skipped. Text still pending at the end of the
    /// batch is emitted; a partial escape sequence is kept for the next batch.
    pub fn feed(&mut self, data: &[u8]) -> (events: Vec<ParserEvent>)
        ensures
            final(self)@ == old(self)@.feed(data@).quiet(),
            event_views(events@) == old(self)@.feed(data@).events,
            payloads(event_views(events@)) + final(self)@.buffer == old(self)@.buffer + ascii_only(
                data@,
            ),
    {
        let mut events: Vec<ParserEvent> = Vec::new();
        let mut i: usize = 0;
        let ghost start = self@;
        assert(event_views(events@) =~= start.events);
        while i < data.len()
            invariant
                i <= data.len(),
                start.events == Seq::<EventView>::empty(),
                self@.quiet() == self@,
                self@.with_events(event_views(events@)) == start.run(data@.subrange(0, i as int)),
            decreases data.len() - i,
        {
            let b = data[i];
            let ghost before = self@.with_events(event_views(events@));
            proof {
                assert(data@.subrange(0, i + 1).drop_last() =~= data@.subrange(0, i as int));
            }
            if byte_is_ascii(b) {
                match self.state {
                    ParseState::Normal => {
                        if b == ESC {
                            self.flush_into(&mut events);
                            self.buffer.push(b);
                            self.state = ParseState::Esc;
                            assert(self.buffer@ =~= seq![b]);
                        } else if byte_is_control(b) {
                            self.flush_into(&mut events);
                            events.push(ParserEvent::Control(b));
                            assert(event_views(events@) =~= before.flush_text().events.push(
                                EventView::Control(b),
                            ));
                        } else {
                            self.buffer.push(b);
                        }
                    },
                    ParseState::Esc => {
                        self.buffer.push(b);
                        if b == BK {
                            self.state = ParseState::Csi;
                        } else {
                            self.emit_sequence(&mut events);
                        }
                    },
                    ParseState::Csi => {
                        self.buffer.push(b);
                        if byte_is_letter(b) {
                            self.emit_sequence(&mut events);
                        }
                    },
                }
            }
            i = i + 1;
        }
        assert(data@.subrange(0, i as int) =~= data@);
        if self.state == ParseState::Normal {
            self.flush_into(&mut events);
        }
        proof {
            lemma_feed_keeps_bytes(start, data@);
        }
        events
    }

    /// Moves the pending bytes, if any, to the end of `events` as a text run.
    fn flush_into(&mut self, events: &mut Vec<ParserEvent>)
        ensures
            final(self)@.with_events(event_views(final(events)@)) == old(self)@.with_events(
                event_views(old(events)@),
            ).flush_text(),
            final(self)@.quiet() == final(self)@,
    {
        if self.buffer.len() > 0 {
            let mut run: Vec<u8> = Vec::new();
            std::mem::swap(&mut self.buffer, &mut run);
            events.push(ParserEvent::Text(run));
            assert(event_views(events@) =~= event_views(old(events)@).push(
                EventView::Text(old(self)@.buffer),
            ));
        }
    }

    /// Moves the pending bytes to the end of `events` as an escape sequence
    /// and returns to state `Normal`.
    fn emit_sequence(&mut self, events: &mut Vec<ParserEvent>)
        ensures
            final(self)@ == ParserModel::initial(),
            event_views(final(events)@) == event_views(old(events)@).push(
                EventView::EscapeSequence(old(self)@.buffer),
            ),
    {
        let mut seq: Vec<u8> = Vec::new();
        std::mem::swap(&mut self.buffer, &mut seq);
        events.push(ParserEvent::EscapeSequence(seq));
        self.state = ParseState::Normal;
    }
}

/// The payloads of a sequence with one more event are the payloads of the
/// sequence, then that event's.
pub proof fn lemma_payloads_push(events: Seq<EventView>, e: EventView)
    ensures
        payloads(events.push(e)) == payloads(events) + e.payload(),
{
    assert(events.push(e).drop_last() =~= events);
}

/// One transition takes in the byte if it is a 7-bit value, and nothing else.
pub proof fn lemma_step_keeps_bytes(m: ParserModel, b: u8)
    ensures
        m.step(b).taken() == m.taken() + ascii_only(seq![b]),
{
    reveal_with_fuel(Seq::filter, 2);
    let f = m.flush_text();
    if m.buffer.len() > 0 {
        lemma_payloads_push(m.events, EventView::Text(m.buffer));
    }
    if is_ascii(b) {
        match m.state {
            ParseState::Normal => {
                if b != ESC && is_control(b) {
                    lemma_payloads_push(f.events, EventView::Control(b));
                }
            },
            ParseState::Esc => {
                lemma_payloads_push(m.events, EventView::EscapeSequence(m.buffer.push(b)));
            },
            ParseState::Csi => {
                lemma_payloads_push(m.events, EventView::EscapeSequence(m.buffer.push(b)));
            },
        }
    }
}

/// The transitions on `data` take in the 7-bit bytes of `data`, in order, and nothing else.
pub proof fn lemma_run_keeps_bytes(m: ParserModel, data: Seq<u8>)
    ensures
        m.run(data).taken() == m.taken() + ascii_only(data),
    decreases data.len(),
{
    reveal(Seq::filter);
    if data.len() > 0 {
        lemma_run_keeps_bytes(m, data.drop_last());
        lemma_step_keeps_bytes(m.run(data.drop_last()), data.last());
    }
}

/// A batch takes in the 7-bit bytes of `data`, in order, and nothing else:
/// the payloads of its events, followed by what stays pending, are what was
/// pending before followed by those bytes.
pub proof fn lemma_feed_keeps_bytes(m: ParserModel, data: Seq<u8>)
    ensures
        m.feed(data).taken() == m.taken() + ascii_only(data),
{
    lemma_run_keeps_bytes(m, data);
    let r = m.run(data);
    if r.state == ParseState::Normal && r.buffer.len() > 0 {
        lemma_payloads_push(r.events, EventView::Text(r.buffer));
    }
}

/// Whether every byte of `run` is printable: neither a control byte nor
/// above 0x7F.
pub open spec fn printable(run: Seq<u8>) -> bool {
    forall|i: int| 0 <= i < run.len() ==> is_ascii(#[trigger] run[i]) && !is_control(run[i])
}

/// Outside an escape sequence, printable bytes are collected and nothing is emitted.
pub proof fn lemma_run_printable(m: ParserModel, run: Seq<u8>)
    requires
        m.state == ParseState::Normal,
        printable(run),
    ensures
        m.run(run) == (ParserModel { buffer: m.buffer + run, ..m }),
    decreases run.len(),
{
    if run.len() > 0 {
        let head = run.drop_last();
        lemma_run_printable(m, head);
        assert((m.buffer + head).push(run.last()) =~= m.buffer + run);
    }
}

/// A batch of printable bytes followed by one control byte, taken by a parser
/// with nothing pending, gives the bytes as one text run, if there are any,
/// and then the control byte.
pub proof fn lemma_feed_text_line(run: Seq<u8>, control: u8)
    requires
        printable(run),
        is_control(control),
        control != ESC,
    ensures
        ParserModel::initial().feed(run.push(control)) == (ParserModel {
            events: if run.len() > 0 {
                seq![EventView::Text(run), EventView::Control(control)]
            } else {
                seq![EventView::Control(control)]
            },
            ..ParserModel::initial()
        }),
{
    let init = ParserModel::initial();
    lemma_run_printable(init, run);
    assert(run.push(control).drop_last() =~= run);
    let after = init.run(run).step(control);
    if run.len() > 0 {
        assert(after.events =~= seq![EventView::Text(run), EventView::Control(control)]);
    }
}

/// However a byte stream is cut into batches, the payloads of all events in
/// order, followed by what is still pending, are the 7-bit bytes of the whole
/// stream in order: none lost, none repeated.
pub proof fn lemma_chunking_keeps_bytes(chunks: Seq<Seq<u8>>)
    ensures
        ParserModel::initial().feed_all(chunks).taken() == ascii_only(chunks.flatten()),
    decreases chunks.len(),
{
    let init = ParserModel::initial();
    chunks.lemma_flatten_and_flatten_alt_are_equivalent();
    if chunks.len() > 0 {
        chunks.drop_last().lemma_flatten_and_flatten_alt_are_equivalent();
        lemma_chunking_keeps_bytes(chunks.drop_last());
        lemma_feed_keeps_bytes(init.feed_all(chunks.drop_last()), chunks.last());
    }
}

} // verus!
