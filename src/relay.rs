use vstd::prelude::*;
use vstd::string::StringSliceAdditionalSpecFns;
use crate::controller_state::{
    decode_wide_spec, encode_narrow_spec, encode_wide_spec, narrow_spec, ArduinoControllerState,
    ControllerState, FormatError, NARROW_DIVISOR, WIDE_SIZE,
};
use crate::event::{decode_record_spec, RECORD_SIZE};
use crate::tracker::{next_state, state_after, ControllerStateTracker};

verus! {

/// Encoding in which state updates are written to the sinks.
#[derive(Debug, Clone, Copy, PartialEq, Eq, Structural)]
pub enum OutputMode {
    /// Four bytes: two little-endian `i16`.
    Wide,
    /// Two bytes: two `i8`, narrowed with `NARROW_DIVISOR`.
    Narrow,
    /// One human-readable line.
    Text,
}

/// ASCII decimal digits of `n`, most significant first.
pub open spec fn digits(n: nat) -> Seq<u8>
    decreases n,
{
    if n < 10 {
        seq![(48 + n) as u8]
    } else {
        digits(n / 10).push((48 + n % 10) as u8)
    }
}

/// ASCII decimal form of `v`, with a leading `-` when negative.
pub open spec fn decimal(v: int) -> Seq<u8> {
    if v < 0 {
        seq![45u8] + digits((-v) as nat)
    } else {
        digits(v as nat)
    }
}

/// The text line of a state:
/// `ControllerState { left_thumb: <n>, right_thumb: <n> }` and a newline.
pub open spec fn text_spec(s: ControllerState) -> Seq<u8> {
    "ControllerState { left_thumb: ".spec_bytes() + decimal(s.left_thumb as int)
        + ", right_thumb: ".spec_bytes() + decimal(s.right_thumb as int) + " }\n".spec_bytes()
}

/// The bytes written to every sink for one state update.
pub open spec fn frame_spec(s: ControllerState, mode: OutputMode) -> Seq<u8> {
    match mode {
        OutputMode::Wide => encode_wide_spec(s),
        OutputMode::Narrow => encode_narrow_spec(narrow_spec(s, NARROW_DIVISOR)),
        OutputMode::Text => text_spec(s),
    }
}

fn push_bytes(out: &mut Vec<u8>, b: &[u8])
    ensures
        final(out)@ == old(out)@ + b@,
{
    let mut i: usize = 0;
    while i < b.len()
        invariant
            i <= b@.len(),
            out@ == old(out)@ + b@.subrange(0, i as int),
        decreases b@.len() - i,
    {
        out.push(b[i]);
        i = i + 1;
        assert(out@ =~= old(out)@ + b@.subrange(0, i as int));
    }
    assert(b@.subrange(0, i as int) =~= b@);
}

fn push_digits(out: &mut Vec<u8>, n: u32)
    ensures
        final(out)@ == old(out)@ + digits(n as nat),
    decreases n,
{
    if n >= 10 {
        push_digits(out, n / 10);
    }
    out.push((48 + n % 10) as u8);
    assert(final(out)@ =~= old(out)@ + digits(n as nat));
}

fn push_decimal(out: &mut Vec<u8>, v: i16)
    ensures
        final(out)@ == old(out)@ + decimal(v as int),
{
    if v < 0 {
        out.push(45u8);
        push_digits(out, (-(v as i32)) as u32);
        assert(final(out)@ =~= old(out)@ + decimal(v as int));
    } else {
        push_digits(out, v as u32);
    }
}

impl ControllerState {
    /// The human-readable line of this state, newline included.
    pub fn to_text(&self) -> (r: Vec<u8>)
        ensures
            r@ == text_spec(*self),
    {
        let mut out: Vec<u8> = Vec::new();
        push_bytes(&mut out, "ControllerState { left_thumb: ".as_bytes());
        push_decimal(&mut out, self.left_thumb);
        push_bytes(&mut out, ", right_thumb: ".as_bytes());
        push_decimal(&mut out, self.right_thumb);
        push_bytes(&mut out, " }\n".as_bytes());
        out
    }
}

/// The bytes that one state update puts on every sink.
pub fn frame_for(state: &ControllerState, mode: OutputMode) -> (r: Vec<u8>)
    ensures
        r@ == frame_spec(*state, mode),
{
    match mode {
        OutputMode::Wide => state.encode_wide(),
        OutputMode::Narrow => ArduinoControllerState::from_controller_state(state).encode_narrow(),
        OutputMode::Text => state.to_text(),
    }
}

/// What the input stream carries.
#[derive(Debug, Clone, Copy, PartialEq, Eq, Structural)]
pub enum InputFormat {
    /// States in their wide encoding, each one an update.
    Wide,
    /// Raw event records, turned into updates by the tracker.
    RawEvents(ControllerStateTracker),
}

/// Size of the chunks the input is read in.
pub open spec fn chunk_size_spec(input: InputFormat) -> usize {
    match input {
        InputFormat::Wide => WIDE_SIZE,
        InputFormat::RawEvents(_) => RECORD_SIZE,
    }
}

/// What one chunk of input gives: the input's next state and the update, if
/// any; a chunk of the wrong size is a `FormatError`.
pub open spec fn chunk_update(input: InputFormat, b: Seq<u8>) -> Result<
    (InputFormat, Option<ControllerState>),
    FormatError,
> {
    match input {
        InputFormat::Wide => match decode_wide_spec(b) {
            Err(e) => Err(e),
            Ok(s) => Ok((InputFormat::Wide, Some(s))),
        },
        InputFormat::RawEvents(t) => match decode_record_spec(b) {
            Err(e) => Err(e),
            Ok(rec) => Ok(
                (
                    InputFormat::RawEvents(
                        ControllerStateTracker {
                            state: state_after(t.state, rec, t.dead_zone),
                            dead_zone: t.dead_zone,
                        },
                    ),
                    next_state(t.state, rec, t.dead_zone),
                ),
            ),
        },
    }
}

/// Why the relay loop stopped.
#[derive(Debug, Clone, Copy, PartialEq, Eq, Structural)]
pub enum RelayError {
    /// The input gave a chunk of `found` bytes where `expected` were needed.
    ShortRead { expected: usize, found: usize },
    /// Writing to the sink at this index failed.
    WriteFailed { sink: usize },
}

/// What the surrounding I/O reports back to the relay.
#[derive(Debug)]
pub enum RelayEvent {
    /// A chunk was read from the input.
    Chunk(Vec<u8>),
    /// The last requested write succeeded.
    Written,
    /// The last requested write failed.
    WriteFailed,
}

/// What the relay asks the surrounding I/O to do next.
#[derive(Debug)]
pub enum RelayAction {
    /// Read one chunk of the input's chunk size.
    Read,
    /// Write these bytes to the sink at this index.
    Write { sink: usize, bytes: Vec<u8> },
    /// Stop the loop with this error.
    Stop(RelayError),
}

/// Where the relay stands between two events.
#[derive(Debug)]
pub enum RelayPhase {
    /// Waiting for the next chunk of input.
    Reading,
    /// Fanning `frame` out; the sinks before `next` have it already.
    Writing { frame: Vec<u8>, next: usize },
    /// Stopped for good.
    Stopped(RelayError),
}

/// The decisions of the relay loop: reads one chunk at a time and writes the
/// encoding of each update to every sink in order, stopping on a short read
/// or a failed write.
#[derive(Debug)]
pub struct Relay {
    pub input: InputFormat,
    pub mode: OutputMode,
    pub sinks: usize,
    pub phase: RelayPhase,
}

/// `a` asks to write `bytes` to the sink at index `sink`.
pub open spec fn is_write(a: RelayAction, sink: usize, bytes: Seq<u8>) -> bool {
    match a {
        RelayAction::Write { sink: k, bytes: b } => k == sink && b@ == bytes,
        _ => false,
    }
}

/// `p` fans `frame` out and the next sink to write is `next`.
pub open spec fn is_writing(p: RelayPhase, frame: Seq<u8>, next: usize) -> bool {
    match p {
        RelayPhase::Writing { frame: f, next: n } => f@ == frame && n == next,
        _ => false,
    }
}

impl Relay {
    /// At least one sink, and a pending write goes to one of them.
    pub open spec fn wf(&self) -> bool {
        &&& self.sinks >= 1
        &&& match self.phase {
            RelayPhase::Writing { next, .. } => next < self.sinks,
            _ => true,
        }
    }

    /// A relay that reads `input` and writes in `mode` to `sinks` sinks,
    /// waiting for input.
    pub fn new(input: InputFormat, mode: OutputMode, sinks: usize) -> (r: Relay)
        requires
            sinks >= 1,
        ensures
            r.wf(),
            r.input == input,
            r.mode == mode,
            r.sinks == sinks,
            r.phase is Reading,
    {
        Relay { input, mode, sinks, phase: RelayPhase::Reading }
    }

    /// Size of the chunks to read from the input.
    pub fn chunk_size(&self) -> (r: usize)
        ensures
            r == chunk_size_spec(self.input),
    {
        match self.input {
            InputFormat::Wide => WIDE_SIZE,
            InputFormat::RawEvents(_) => RECORD_SIZE,
        }
    }

    /// The relay has stopped for good.
    pub fn is_stopped(&self) -> (r: bool)
        ensures
            r == self.phase is Stopped,
    {
        match self.phase {
            RelayPhase::Stopped(_) => true,
            _ => false,
        }
    }

    fn take_chunk(&mut self, b: &[u8]) -> (r: Result<Option<ControllerState>, FormatError>)
        ensures
            match chunk_update(old(self).input, b@) {
                Err(e) => r == Err::<Option<ControllerState>, FormatError>(e) && final(self).input
                    == old(self).input,
                Ok((input, u)) => r == Ok::<Option<ControllerState>, FormatError>(u)
                    && final(self).input == input,
            },
            final(self).mode == old(self).mode,
            final(self).sinks == old(self).sinks,
            final(self).phase == old(self).phase,
    {
        match &mut self.input {
            InputFormat::Wide => match ControllerState::decode_wide(b) {
                Err(e) => Err(e),
                Ok(s) => Ok(Some(s)),
            },
            InputFormat::RawEvents(t) => t.feed(b),
        }
    }

    /// Takes the outcome of the last action and decides the next one.
    pub fn step(&mut self, event: RelayEvent) -> (r: RelayAction)
        requires
            old(self).wf(),
        ensures
            final(self).wf(),
            final(self).mode == old(self).mode,
            final(self).sinks == old(self).sinks,
            match (old(self).phase, event) {
                (RelayPhase::Reading, RelayEvent::Chunk(b)) => match chunk_update(old(self).input, b@) {
                    Err(fe) => {
                        let e = RelayError::ShortRead { expected: fe.expected, found: fe.found };
                        &&& final(self).input == old(self).input
                        &&& final(self).phase == RelayPhase::Stopped(e)
                        &&& r == RelayAction::Stop(e)
                    },
                    Ok((input, None)) => {
                        &&& final(self).input == input
                        &&& final(self).phase is Reading
                        &&& r is Read
                    },
                    Ok((input, Some(s))) => {
                        &&& final(self).input == input
                        &&& is_writing(final(self).phase, frame_spec(s, old(self).mode), 0)
                        &&& is_write(r, 0, frame_spec(s, old(self).mode))
                    },
                },
                _ => final(self).input == old(self).input,
            },
            match (old(self).phase, event) {
                (RelayPhase::Stopped(e), _) => final(self).phase == RelayPhase::Stopped(e) && r
                    == RelayAction::Stop(e),
                (RelayPhase::Reading, RelayEvent::Chunk(_)) => true,
                (RelayPhase::Reading, _) => final(self).phase is Reading && r is Read,
                (RelayPhase::Writing { frame, next }, RelayEvent::Written) => if next + 1
                    < old(self).sinks {
                    is_writing(final(self).phase, frame@, (next + 1) as usize) && is_write(
                        r,
                        (next + 1) as usize,
                        frame@,
                    )
                } else {
                    final(self).phase is Reading && r is Read
                },
                (RelayPhase::Writing { frame, next }, RelayEvent::WriteFailed) => {
                    let e = RelayError::WriteFailed { sink: next };
                    final(self).phase == RelayPhase::Stopped(e) && r == RelayAction::Stop(e)
                },
                (RelayPhase::Writing { frame, next }, RelayEvent::Chunk(_)) => is_writing(
                    final(self).phase,
                    frame@,
                    next,
                ) && is_write(r, next, frame@),
            },
    {
        let mut phase = RelayPhase::Reading;
        core::mem::swap(&mut phase, &mut self.phase);
        match phase {
            RelayPhase::Stopped(e) => {
                self.phase = RelayPhase::Stopped(e);
                RelayAction::Stop(e)
            },
            RelayPhase::Reading => match event {
                RelayEvent::Chunk(b) => match self.take_chunk(b.as_slice()) {
                    Err(fe) => {
                        let e = RelayError::ShortRead { expected: fe.expected, found: fe.found };
                        self.phase = RelayPhase::Stopped(e);
                        RelayAction::Stop(e)
                    },
                    Ok(None) => RelayAction::Read,
                    Ok(Some(s)) => {
                        let frame = frame_for(&s, self.mode);
                        let bytes = frame.clone();
                        self.phase = RelayPhase::Writing { frame, next: 0 };
                        RelayAction::Write { sink: 0, bytes }
                    },
                },
                _ => RelayAction::Read,
            },
            RelayPhase::Writing { frame, next } => match event {
                RelayEvent::Written => {
                    if next + 1 < self.sinks {
                        let bytes = frame.clone();
                        self.phase = RelayPhase::Writing { frame, next: next + 1 };
                        RelayAction::Write { sink: next + 1, bytes }
                    } else {
                        RelayAction::Read
                    }
                },
                RelayEvent::WriteFailed => {
                    let e = RelayError::WriteFailed { sink: next };
                    self.phase = RelayPhase::Stopped(e);
                    RelayAction::Stop(e)
                },
                RelayEvent::Chunk(_) => {
                    let bytes = frame.clone();
                    self.phase = RelayPhase::Writing { frame, next };
                    RelayAction::Write { sink: next, bytes }
                },
            },
        }
    }
}

} // verus!
