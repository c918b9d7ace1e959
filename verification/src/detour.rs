//! The write state machine.
//!
//! A [`Detour`] owns a sink and stands between a caller that writes buffers
//! and that sink. A buffer that is no ClientHello goes to the sink as it is.
//! A ClientHello is cut into two records, and the two are written one after
//! the other, each as often as the sink needs, before the caller hears that
//! its one write is done.
//!
//! The state machine does no I/O. The caller's side asks [`Detour::on_write`]
//! what to do with a buffer, does it, and tells [`Detour::on_outcome`] what
//! the sink answered to the write:
//!
//! ```text
//! Normal ── on_write(other buffer): Passthrough ──▶ Normal
//! Normal ── on_write(ClientHello): Suspend ──▶ SendingFirst
//! SendingFirst ── on_write: Fragment(first); on_outcome(Completed(n)): Again ──▶ SendingSecond
//! SendingSecond ── on_write: Fragment(second); on_outcome(Completed(m)): Done(n + m) ──▶ Normal
//! ```
//!
//! A sink that is not ready, or fails, leaves the state as it is. While a
//! record waits, nothing but that record is handed out for writing, so the
//! two records reach the sink in order and with nothing in between.

use vstd::prelude::*;
use crate::hello::{is_hello, spec_is_hello, RECORD_HEADER_LEN};
use crate::splitter::{
    fragmentate, lemma_split_keeps_payload, lemma_choose_split_bounds, record_payload,
    spec_choose_split, spec_first, spec_second,
};

verus! {

/// How far the sending of a ClientHello has come.
#[derive(Debug, PartialEq, Eq)]
pub enum DetourState {
    /// No record is waiting to be written.
    Normal,
    /// A ClientHello was cut; its first record has not been written yet.
    SendingFirst { first: Vec<u8>, second: Vec<u8> },
    /// The sink took `written` bytes for the first record; the second has not
    /// been written yet.
    SendingSecond { second: Vec<u8>, written: usize },
}

/// A [`DetourState`] as contracts see it, with the records as sequences.
pub enum Phase {
    Normal,
    SendingFirst { first: Seq<u8>, second: Seq<u8> },
    SendingSecond { second: Seq<u8>, written: usize },
}

impl View for DetourState {
    type V = Phase;

    open spec fn view(&self) -> Phase {
        match self {
            DetourState::Normal => Phase::Normal,
            DetourState::SendingFirst { first, second } => Phase::SendingFirst {
                first: first@,
                second: second@,
            },
            DetourState::SendingSecond { second, written } => Phase::SendingSecond {
                second: second@,
                written: *written,
            },
        }
    }
}

/// What to do with a buffer that the caller asks to have written.
#[derive(Debug, PartialEq, Eq)]
pub enum WriteStep {
    /// Write the caller's buffer to the sink as it is, then report the
    /// sink's answer with [`Detour::on_outcome`].
    Passthrough,
    /// Write nothing now. Tell the caller that the write is not done, so that
    /// it comes again with the same buffer.
    Suspend,
    /// Write these bytes to the sink in place of the caller's buffer, then
    /// report the sink's answer with [`Detour::on_outcome`].
    Fragment(Vec<u8>),
}

/// A [`WriteStep`] as contracts see it.
pub enum Step {
    Passthrough,
    Suspend,
    Fragment(Seq<u8>),
}

impl View for WriteStep {
    type V = Step;

    open spec fn view(&self) -> Step {
        match self {
            WriteStep::Passthrough => Step::Passthrough,
            WriteStep::Suspend => Step::Suspend,
            WriteStep::Fragment(bytes) => Step::Fragment(bytes@),
        }
    }
}

/// What the sink answered to one write.
#[derive(Debug, PartialEq, Eq)]
pub enum Outcome<E> {
    /// The sink took this many bytes.
    Completed(usize),
    /// The sink is not ready. It took nothing, and will wake the caller.
    Pending,
    /// The sink failed.
    Failed(E),
}

/// What to tell the caller of the write.
#[derive(Debug, PartialEq, Eq)]
pub enum Reply<E> {
    /// The write is done; the sink took this many bytes for it in all.
    Done(usize),
    /// The write is not done and the sink has more to take at once: wake the
    /// caller, so that it comes again without waiting for the sink.
    Again,
    /// The write is not done because the sink is not ready.
    Blocked,
    /// The sink failed with this error.
    Failed(E),
}

/// The record that is to be written next, if one is waiting.
pub open spec fn waiting_record(p: Phase) -> Option<Seq<u8>> {
    match p {
        Phase::Normal => None,
        Phase::SendingFirst { first, .. } => Some(first),
        Phase::SendingSecond { second, .. } => Some(second),
    }
}

/// The state after the caller asked to write `buf`: a ClientHello that comes
/// while no record waits is cut and stored; nothing else changes the state.
pub open spec fn phase_on_write(p: Phase, buf: Seq<u8>) -> Phase {
    if p is Normal && spec_is_hello(buf) {
        Phase::SendingFirst {
            first: spec_first(buf, spec_choose_split(buf)),
            second: spec_second(buf, spec_choose_split(buf)),
        }
    } else {
        p
    }
}

/// What to do when the caller asks to write `buf`.
///
/// While a record waits, the call is taken for the caller coming again with
/// the buffer that was cut: the record goes out and the buffer is not looked
/// into. While none waits, a ClientHello is held back, to be cut and stored,
/// and any other buffer passes through.
pub open spec fn step_on_write(p: Phase, buf: Seq<u8>) -> Step {
    match waiting_record(p) {
        Some(record) => Step::Fragment(record),
        None => if spec_is_hello(buf) {
            Step::Suspend
        } else {
            Step::Passthrough
        },
    }
}

/// The state after the sink answered a write: only a completed write of a
/// record moves on, from the first record to the second and from the second
/// to `Normal`.
pub open spec fn phase_on_outcome<E>(p: Phase, outcome: Outcome<E>) -> Phase {
    match (p, outcome) {
        (Phase::SendingFirst { second, .. }, Outcome::Completed(n)) => Phase::SendingSecond {
            second,
            written: n,
        },
        (Phase::SendingSecond { .. }, Outcome::Completed(_)) => Phase::Normal,
        _ => p,
    }
}

/// The sink's answer, handed on to the caller as it is.
pub open spec fn handed_on<E>(outcome: Outcome<E>) -> Reply<E> {
    match outcome {
        Outcome::Completed(n) => Reply::Done(n),
        Outcome::Pending => Reply::Blocked,
        Outcome::Failed(e) => Reply::Failed(e),
    }
}

/// What the caller hears after the sink answered a write.
///
/// A sink that is not ready or failed is reported as it is, and so is every
/// answer to a buffer that passed through. When the first record is written,
/// the caller is to come again at once. When the second is written, the
/// caller hears the bytes that the sink took for both records together.
pub open spec fn reply_on_outcome<E>(p: Phase, outcome: Outcome<E>) -> Reply<E> {
    match (p, outcome) {
        (Phase::SendingFirst { .. }, Outcome::Completed(_)) => Reply::Again,
        (Phase::SendingSecond { written, .. }, Outcome::Completed(n)) => Reply::Done(
            (written + n) as usize,
        ),
        _ => handed_on(outcome),
    }
}

/// The byte count that would be reported for this outcome fits a `usize`.
pub open spec fn outcome_fits<E>(p: Phase, outcome: Outcome<E>) -> bool {
    match (p, outcome) {
        (Phase::SendingSecond { written, .. }, Outcome::Completed(n)) => written + n <= usize::MAX,
        _ => true,
    }
}

/// While no record waits, a buffer that is no ClientHello passes through:
/// it goes to the sink as it is, the caller hears what the sink answered,
/// and the state stays `Normal`.
pub proof fn lemma_other_buffers_pass_through<E>(buf: Seq<u8>, outcome: Outcome<E>)
    requires
        !spec_is_hello(buf),
    ensures
        step_on_write(Phase::Normal, buf) == Step::Passthrough,
        phase_on_write(Phase::Normal, buf) == Phase::Normal,
        reply_on_outcome(Phase::Normal, outcome) == handed_on(outcome),
        phase_on_outcome(Phase::Normal, outcome) == Phase::Normal,
{
}

/// A record that the sink did not take is offered again as it is. After an
/// answer other than a completed write, the state is the same, and the next
/// call hands out the same record, whatever buffer it comes with: nothing is
/// cut anew.
pub proof fn lemma_unwritten_record_is_offered_again<E>(
    p: Phase,
    outcome: Outcome<E>,
    buf: Seq<u8>,
)
    requires
        waiting_record(p) is Some,
        !(outcome is Completed),
    ensures
        phase_on_outcome(p, outcome) == p,
        reply_on_outcome(p, outcome) == handed_on(outcome),
        step_on_write(phase_on_outcome(p, outcome), buf) == Step::Fragment(
            waiting_record(p).unwrap(),
        ),
        phase_on_write(phase_on_outcome(p, outcome), buf) == p,
{
}

/// Through a sink that takes every record whole, a ClientHello leaves in two
/// writes. The first call holds the buffer back and stores its two records.
/// The second call hands out the first record, and the caller is told to come
/// again. The third call hands out the second record, and the caller hears
/// the length of both records together, which is the length of its buffer
/// and one record header more. The state is `Normal` again, and the two
/// records carry the payload of the buffer between them.
pub proof fn lemma_hello_leaves_in_two_records<E>(buf: Seq<u8>)
    requires
        spec_is_hello(buf),
        buf.len() + RECORD_HEADER_LEN <= usize::MAX,
    ensures
        ({
            let first = spec_first(buf, spec_choose_split(buf));
            let second = spec_second(buf, spec_choose_split(buf));
            let took_first = Outcome::<E>::Completed(first.len() as usize);
            let took_second = Outcome::<E>::Completed(second.len() as usize);
            let stored = phase_on_write(Phase::Normal, buf);
            let halfway = phase_on_outcome(stored, took_first);
            &&& step_on_write(Phase::Normal, buf) == Step::Suspend
            &&& step_on_write(stored, buf) == Step::Fragment(first)
            &&& phase_on_write(stored, buf) == stored
            &&& reply_on_outcome(stored, took_first) == Reply::<E>::Again
            &&& step_on_write(halfway, buf) == Step::Fragment(second)
            &&& phase_on_write(halfway, buf) == halfway
            &&& outcome_fits(halfway, took_second)
            &&& reply_on_outcome(halfway, took_second) == Reply::<E>::Done(
                (buf.len() + RECORD_HEADER_LEN) as usize,
            )
            &&& phase_on_outcome(halfway, took_second) == Phase::Normal
            &&& record_payload(first) + record_payload(second) == record_payload(buf)
        }),
{
    lemma_choose_split_bounds(buf);
    lemma_split_keeps_payload(buf, spec_choose_split(buf));
}

/// A sink together with the state of the ClientHello that is being sent
/// through it.
#[derive(Debug)]
pub struct Detour<T> {
    sock: T,
    state: DetourState,
}

impl<T> Detour<T> {
    /// The sink.
    pub closed spec fn inner(&self) -> T {
        self.sock
    }

    /// The state.
    pub closed spec fn phase(&self) -> Phase {
        self.state@
    }

    /// Wraps a sink. Nothing is being sent yet.
    pub fn new(sock: T) -> (detour: Self)
        ensures
            detour.inner() == sock,
            detour.phase() == Phase::Normal,
    {
        Self { sock, state: DetourState::Normal }
    }

    /// Gives the sink back.
    pub fn into_inner(self) -> (sock: T)
        ensures
            sock == self.inner(),
    {
        self.sock
    }

    /// The sink.
    pub fn get_ref(&self) -> (sock: &T)
        ensures
            *sock == self.inner(),
    {
        &self.sock
    }

    /// The sink, to write to it. The state stays as it is.
    pub fn get_mut(&mut self) -> (sock: &mut T)
        ensures
            *sock == old(self).inner(),
            final(self).inner() == *final(sock),
            final(self).phase() == old(self).phase(),
    {
        &mut self.sock
    }

    /// The state.
    pub fn state(&self) -> (state: &DetourState)
        ensures
            state@ == self.phase(),
    {
        &self.state
    }

    /// Decides what to do with a buffer that the caller asks to have written.
    ///
    /// Every buffer is tested for being a ClientHello, on every call: nothing
    /// is remembered of the buffers that came before. The test decides while
    /// no record waits. While one waits, the call is taken for the caller
    /// coming again with the buffer that was cut, and the record is handed
    /// out.
    pub fn on_write(&mut self, buf: &[u8]) -> (step: WriteStep)
        ensures
            step@ == step_on_write(old(self).phase(), buf@),
            final(self).phase() == phase_on_write(old(self).phase(), buf@),
            final(self).inner() == old(self).inner(),
    {
        let hello = is_hello(buf);
        match &self.state {
            DetourState::Normal => {
                if hello {
                    let (first, second) = fragmentate(buf);
                    self.state = DetourState::SendingFirst { first, second };
                    WriteStep::Suspend
                } else {
                    WriteStep::Passthrough
                }
            },
            DetourState::SendingFirst { first, .. } => WriteStep::Fragment(first.clone()),
            DetourState::SendingSecond { second, .. } => WriteStep::Fragment(second.clone()),
        }
    }

    /// Tells whether [`Detour::on_outcome`] can take this outcome: whether
    /// the byte count that it would report fits a `usize`.
    pub fn accepts<E>(&self, outcome: &Outcome<E>) -> (ok: bool)
        ensures
            ok == outcome_fits(self.phase(), *outcome),
    {
        match (&self.state, outcome) {
            (DetourState::SendingSecond { written, .. }, Outcome::Completed(n)) => {
                *n <= usize::MAX - *written
            },
            _ => true,
        }
    }

    /// Takes the sink's answer to the write that [`Detour::on_write`] asked
    /// for, of the caller's buffer or of a record, and decides what the
    /// caller hears.
    pub fn on_outcome<E>(&mut self, outcome: Outcome<E>) -> (reply: Reply<E>)
        requires
            outcome_fits(old(self).phase(), outcome),
        ensures
            reply == reply_on_outcome(old(self).phase(), outcome),
            final(self).phase() == phase_on_outcome(old(self).phase(), outcome),
            final(self).inner() == old(self).inner(),
    {
        match outcome {
            Outcome::Pending => Reply::Blocked,
            Outcome::Failed(e) => Reply::Failed(e),
            Outcome::Completed(n) => {
                let mut state = DetourState::Normal;
                core::mem::swap(&mut self.state, &mut state);
                match state {
                    DetourState::Normal => Reply::Done(n),
                    DetourState::SendingFirst { first: _, second } => {
                        self.state = DetourState::SendingSecond { second, written: n };
                        Reply::Again
                    },
                    DetourState::SendingSecond { second: _, written } => Reply::Done(written + n),
                }
            },
        }
    }
}

} // verus!
