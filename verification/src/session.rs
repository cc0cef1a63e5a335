//! The protocol state machine: handshake, request issuance, frame polling,
//! and how each transport report settles a pending request. The caller that
//! owns the transport performs the I/O and feeds every report back in here;
//! every decision is taken, and proved, in this module.

use vstd::prelude::*;
use crate::frame::{decode_frame, header_of, payload_of, Frame, FRAME_LEN};
use crate::protocol::{classify_spec, default_request_spec, ReplyClass, ACK, BUSY};

verus! {

/// The phases of a session's life.
#[derive(Clone, Copy, Debug, PartialEq, Eq, Structural)]
pub enum SessionState {
    Disconnected,
    Handshaking,
    Ready,
    Acquiring,
    Failed,
}

/// What the single blocking read of a pending frame reported.
#[derive(Debug)]
pub enum ReadEvent {
    /// The read returned these bytes.
    Data(Vec<u8>),
    /// The read hit the transport's timeout: recoverable.
    TimedOut,
    /// The read or the write before it failed outright: fatal.
    Broken,
}

/// How one acquisition attempt ended, and what the driver must do.
#[derive(Debug)]
pub enum AcquireOutcome {
    /// A full frame arrived: deliver it to the renderer, then flush the input.
    Delivered(Frame),
    /// A timeout: log one retry diagnostic, flush the input, run the next cycle.
    Retry,
    /// An unrecoverable condition: the loop terminates.
    Fatal,
}

/// Whether the acquisition loop may run in this state.
pub open spec fn can_acquire(s: SessionState) -> bool {
    s is Ready
}

/// Where the handshake reply byte takes a handshaking session: ACK readies
/// it, anything else fails it.
pub open spec fn handshake_next(b: u8) -> SessionState {
    if b == ACK {
        SessionState::Ready
    } else {
        SessionState::Failed
    }
}

/// The bytes a Data report carries.
pub open spec fn read_data(ev: ReadEvent) -> Seq<u8>
    recommends
        ev is Data,
{
    match ev {
        ReadEvent::Data(b) => b@,
        _ => Seq::<u8>::empty(),
    }
}

/// A report that carries one complete frame.
pub open spec fn is_full_frame_event(ev: ReadEvent) -> bool {
    ev is Data && read_data(ev).len() == FRAME_LEN
}

/// A report that is unrecoverable: an outright failure, or a short or split
/// frame. A timeout is deliberately not among them.
pub open spec fn is_fatal_event(ev: ReadEvent) -> bool {
    ev is Broken || (ev is Data && read_data(ev).len() != FRAME_LEN)
}

/// The outcome owed for one read report: a decoded frame for a full-size
/// read, one retry for a timeout, and a fatal stop for everything else.
pub open spec fn outcome_for(ev: ReadEvent, o: AcquireOutcome) -> bool {
    &&& (o is Retry <==> ev is TimedOut)
    &&& (o is Fatal <==> is_fatal_event(ev))
    &&& (is_full_frame_event(ev) ==> delivers_frame_of(ev, o))
}

/// The outcome carries a well-formed frame decoded from the report's bytes.
pub open spec fn delivers_frame_of(ev: ReadEvent, o: AcquireOutcome) -> bool {
    &&& o matches AcquireOutcome::Delivered(f)
    &&& f.wf()
    &&& f.decodes(read_data(ev))
}

/// Where a read report takes an acquiring session: a full-size frame or a
/// timeout return it to Ready, everything else fails it.
pub open spec fn settle_next(ev: ReadEvent) -> SessionState {
    match ev {
        ReadEvent::Data(b) => if b@.len() == FRAME_LEN {
            SessionState::Ready
        } else {
            SessionState::Failed
        },
        ReadEvent::TimedOut => SessionState::Ready,
        ReadEvent::Broken => SessionState::Failed,
    }
}

/// One device session. It owns no transport itself: it decides, and the
/// driver that owns the transport obeys.
pub struct Session {
    pub state: SessionState,
}

impl Session {
    /// A session begins disconnected.
    pub fn new() -> (s: Session)
        ensures
            s.state is Disconnected,
    {
        Session { state: SessionState::Disconnected }
    }

    /// A connect attempt: the session is handshaking until the status byte
    /// arrives.
    pub fn begin_connect(&mut self)
        requires
            old(self).state is Disconnected,
        ensures
            final(self).state is Handshaking,
    {
        self.state = SessionState::Handshaking;
    }

    /// A transport failure outside a read timeout — open, write, flush or
    /// read failing outright — is fatal in any phase.
    pub fn on_fatal_io(&mut self)
        ensures
            final(self).state is Failed,
    {
        self.state = SessionState::Failed;
    }

    /// Classify the handshake status byte and move the session: only ACK
    /// reaches Ready; Busy and every unrecognized byte fail the session, so
    /// the device is never polled.
    pub fn on_handshake_reply(&mut self, b: u8) -> (r: ReplyClass)
        requires
            old(self).state is Handshaking,
        ensures
            r == classify_spec(b),
            final(self).state == handshake_next(b),
            final(self).state is Ready <==> b == ACK,
    {
        let r = crate::protocol::classify_reply(b);
        if b == ACK {
            self.state = SessionState::Ready;
        } else {
            self.state = SessionState::Failed;
        }
        r
    }

    /// Whether the acquisition loop may issue a request now.
    pub fn may_acquire(&self) -> (r: bool)
        ensures
            r == can_acquire(self.state),
    {
        match self.state {
            SessionState::Ready => true,
            _ => false,
        }
    }

    /// Issue the waveform request: hands the command bytes to the driver and
    /// holds the session acquiring until the read settles.
    pub fn begin_request(&mut self) -> (cmd: Vec<u8>)
        requires
            can_acquire(old(self).state),
        ensures
            final(self).state is Acquiring,
            cmd@ == default_request_spec(),
    {
        self.state = SessionState::Acquiring;
        crate::protocol::default_request()
    }

    /// Settle a pending request from what the read reported. A full-size
    /// frame is decoded and delivered; a timeout asks for exactly one retry
    /// cycle; a short or split frame, like an outright failure, is fatal.
    pub fn on_read_event(&mut self, ev: ReadEvent) -> (o: AcquireOutcome)
        requires
            old(self).state is Acquiring,
        ensures
            final(self).state == settle_next(ev),
            final(self).state is Failed <==> is_fatal_event(ev),
            outcome_for(ev, o),
    {
        match ev {
            ReadEvent::Data(bytes) => {
                match decode_frame(&bytes) {
                    Option::Some(f) => {
                        self.state = SessionState::Ready;
                        AcquireOutcome::Delivered(f)
                    },
                    Option::None => {
                        self.state = SessionState::Failed;
                        AcquireOutcome::Fatal
                    },
                }
            },
            ReadEvent::TimedOut => {
                self.state = SessionState::Ready;
                AcquireOutcome::Retry
            },
            ReadEvent::Broken => {
                self.state = SessionState::Failed;
                AcquireOutcome::Fatal
            },
        }
    }
}

/// The poll condition: the single blocking read is issued only once a full
/// frame's worth of bytes is reported inbound.
pub fn poll_ready(available: usize) -> (r: bool)
    ensures
        r <==> available >= FRAME_LEN,
{
    available >= FRAME_LEN
}

/// Walk successive inbound byte counts, one per poll interval, until one
/// satisfies the poll condition. Returns how many reports fell short before
/// the first sufficient one, or nothing if none sufficed.
pub fn polls_until_ready(reports: &Vec<usize>) -> (r: Option<usize>)
    ensures
        r matches Some(k) ==> k < reports@.len() && reports@[k as int] >= FRAME_LEN
            && forall|i: int| 0 <= i < k ==> reports@[i] < FRAME_LEN,
        r is None <==> forall|i: int| 0 <= i < reports@.len() ==> reports@[i] < FRAME_LEN,
{
    let mut k: usize = 0;
    while k < reports.len()
        invariant
            k <= reports@.len(),
            forall|i: int| 0 <= i < k ==> reports@[i] < FRAME_LEN,
        decreases reports@.len() - k,
    {
        if poll_ready(reports[k]) {
            return Option::Some(k);
        }
        k = k + 1;
    }
    Option::None
}

/// Drive the acquisition loop over a scripted sequence of read reports, one
/// per cycle; the script's length is the loop's iteration bound. Every cycle
/// issues the waveform request and settles it from the next report. The loop
/// yields one outcome per cycle run, stops at the end of the script or right
/// after the first unrecoverable report, and only such a report fails the
/// session; otherwise it ends Ready for the next cycle.
pub fn run_acquisition(s: &mut Session, events: Vec<ReadEvent>) -> (outcomes: Vec<AcquireOutcome>)
    requires
        can_acquire(old(s).state),
    ensures
        outcomes@.len() <= events@.len(),
        forall|i: int| 0 <= i < outcomes@.len() ==> outcome_for(events@[i], #[trigger] outcomes@[i]),
        forall|i: int| 0 <= i < outcomes@.len() - 1 ==> !is_fatal_event(#[trigger] events@[i]),
        outcomes@.len() < events@.len() ==> outcomes@.len() > 0
            && is_fatal_event(events@[outcomes@.len() - 1]),
        final(s).state is Failed <==> (outcomes@.len() > 0
            && is_fatal_event(events@[outcomes@.len() - 1])),
        !(outcomes@.len() > 0 && is_fatal_event(events@[outcomes@.len() - 1]))
            ==> final(s).state is Ready && outcomes@.len() == events@.len(),
{
    let ghost script: Seq<ReadEvent> = events@;
    let mut events = events;
    let mut outcomes: Vec<AcquireOutcome> = Vec::new();
    let mut halted = false;
    while events.len() > 0 && !halted
        invariant
            outcomes@.len() + events@.len() == script.len(),
            events@ == script.skip(outcomes@.len() as int),
            forall|i: int| 0 <= i < outcomes@.len() ==> outcome_for(script[i], #[trigger] outcomes@[i]),
            forall|i: int| 0 <= i < outcomes@.len() - 1 ==> !is_fatal_event(#[trigger] script[i]),
            !halted ==> s.state is Ready,
            !halted && outcomes@.len() > 0 ==> !is_fatal_event(script[outcomes@.len() - 1]),
            halted ==> s.state is Failed && outcomes@.len() > 0
                && is_fatal_event(script[outcomes@.len() - 1]),
        decreases events@.len(),
    {
        let ev = events.remove(0);
        proof {
            assert(ev == script[outcomes@.len() as int]);
            assert(events@ =~= script.skip(outcomes@.len() + 1int));
        }
        let _cmd = s.begin_request();
        let o = s.on_read_event(ev);
        let fatal_now = match &o {
            AcquireOutcome::Fatal => true,
            _ => false,
        };
        outcomes.push(o);
        if fatal_now {
            halted = true;
        }
    }
    outcomes
}

/// What the single scatter read takes off the transport's input buffer: the
/// frame-sized prefix of what has arrived.
pub open spec fn model_read(buf: Seq<u8>) -> Seq<u8> {
    buf.take(FRAME_LEN as int)
}

/// The input buffer after the flush that ends every cycle, whatever it held.
pub open spec fn model_flush(buf: Seq<u8>) -> Seq<u8> {
    Seq::<u8>::empty()
}

/// A handshake reply byte that is neither ACK nor BUSY is classified
/// Unrecognized, the session fails, and the acquisition loop never starts.
pub proof fn lemma_unrecognized_blocks_acquisition(b: u8)
    requires
        b != ACK,
        b != BUSY,
    ensures
        classify_spec(b) is Unrecognized,
        handshake_next(b) is Failed,
        !can_acquire(handshake_next(b)),
{
}

/// A handshake reply of ACK, and only of ACK, brings the session to Ready;
/// on every other byte, Busy included, the loop can never start.
pub proof fn lemma_only_ack_reaches_ready(b: u8)
    ensures
        handshake_next(b) is Ready <==> b == ACK,
        b != ACK ==> !can_acquire(handshake_next(b)),
{
}

/// A read timeout during acquisition is never fatal: the session returns to
/// Ready for the next cycle, never to Failed.
pub proof fn lemma_timeout_recoverable()
    ensures
        settle_next(ReadEvent::TimedOut) is Ready,
        !(settle_next(ReadEvent::TimedOut) is Failed),
{
}

/// Issuing the same waveform request twice against an idle, drained input
/// buffer yields two independently valid frames: the buffer holds zero bytes
/// before each request's poll phase, each read returns exactly that cycle's
/// response, and no byte of the first response leaks into the second frame.
pub proof fn lemma_repeated_request_independent(r1: Seq<u8>, r2: Seq<u8>)
    requires
        r1.len() == FRAME_LEN,
        r2.len() == FRAME_LEN,
    ensures
        ({
            let buf0 = Seq::<u8>::empty();
            let read1 = model_read(buf0 + r1);
            let buf1 = model_flush(buf0 + r1);
            let read2 = model_read(buf1 + r2);
            &&& buf0.len() == 0
            &&& read1 == r1
            &&& header_of(read1) == header_of(r1)
            &&& payload_of(read1) == payload_of(r1)
            &&& buf1.len() == 0
            &&& read2 == r2
            &&& header_of(read2) == header_of(r2)
            &&& payload_of(read2) == payload_of(r2)
        }),
{
    let buf0 = Seq::<u8>::empty();
    assert(buf0 + r1 =~= r1);
    assert(r1.take(FRAME_LEN as int) =~= r1);
    let buf1 = model_flush(buf0 + r1);
    assert(buf1 + r2 =~= r2);
    assert(r2.take(FRAME_LEN as int) =~= r2);
}

} // verus!
