//! The rules of one exchange on the bill-validator link.
//!
//! An exchange is a request and what follows it: the wait for the line to be
//! free, the request frame, the response, and the acknowledgment of what came
//! in. The rules are a transition function over `CcnetView`: it takes the
//! event that the transport reports and gives the next state and the action
//! that the caller has to perform. The laws below are proved of that
//! function alone.

use vstd::prelude::*;
use crate::error::result_view;
use crate::error::CcnetError;
use crate::frame::acknowledgment_spec;
use crate::frame::decode_response_spec;
use crate::frame::frame_spec;
use crate::frame::Response;
use crate::frame::ResponseView;
use crate::frame::MAX_PAYLOAD;
use crate::frame::MIN_FRAME_LEN;
use crate::frame::SYNC;
use crate::receiver::lemma_receive_frame;
use crate::receiver::lemma_receive_keeps_partial_frame;
use crate::receiver::lemma_receive_outcome;
use crate::receiver::partial_frame;
use crate::receiver::receive_all;
use crate::receiver::receive_spec;

verus! {

/// Least time between the starts of two requests, in milliseconds.
pub const MIN_REQUEST_DELAY_MS: u64 = 150;

/// Time that the transport waits for a byte of the response, in milliseconds.
pub const READ_TIMEOUT_MS: u64 = 2000;

/// Time for which a line break is held to reset the device, in milliseconds.
pub const BREAK_RESET_MS: u64 = 250;

/// Pause between two looks at the clock while a request waits for its turn.
pub const DELAY_POLL_MS: u64 = 10;

/// Pause between two looks at the transmit queue while it drains.
pub const TRANSMIT_POLL_MS: u64 = 2;

/// Where an exchange stands.
#[derive(Debug, Clone, Copy, PartialEq, Eq, Structural)]
pub enum Phase {
    /// No exchange is under way.
    Idle,
    /// A request is armed and waits until the device may be addressed again.
    Delaying,
    /// The request frame is being written.
    Sending,
    /// The request frame is written and the transmit queue drains.
    WaitingEcho,
    /// The response is being read.
    ReceivingFrame,
    /// A message came in and its acknowledgment is on the way out.
    AckSent,
    /// The reception failed and the negative acknowledgment is on the way out.
    NackSent,
}

/// What the transport reports back after an action.
#[derive(Debug, Clone, Copy, PartialEq, Eq, Structural)]
pub enum Event {
    /// The clock was read, at the start of an exchange or after a pause; the
    /// time is in milliseconds.
    Woke(u64),
    /// The bytes handed over were written.
    Written,
    /// So many bytes still wait in the transmit queue.
    Pending(u32),
    /// The input buffer was emptied.
    InputCleared,
    /// A byte arrived.
    Byte(u8),
    /// The transport failed at what it was asked to do.
    Failed,
}

/// What the caller has to do next.
#[derive(Debug, PartialEq, Eq)]
pub enum Action {
    /// Pause for so many milliseconds, then read the clock.
    Sleep(u64),
    /// Write these bytes.
    Write(Vec<u8>),
    /// Ask how many bytes wait in the transmit queue.
    QueryPending,
    /// Empty the input buffer.
    ClearInput,
    /// Read one byte.
    ReadByte,
    /// The exchange is over, with this result.
    Finish(Result<Response, CcnetError>),
}

/// An `Action` as a mathematical value.
#[verifier::ext_equal]
pub enum ActionView {
    Sleep(u64),
    Write(Seq<u8>),
    QueryPending,
    ClearInput,
    ReadByte,
    Finish(Result<ResponseView, CcnetError>),
}

impl View for Action {
    type V = ActionView;

    open spec fn view(&self) -> ActionView {
        match self {
            Action::Sleep(ms) => ActionView::Sleep(*ms),
            Action::Write(bytes) => ActionView::Write(bytes@),
            Action::QueryPending => ActionView::QueryPending,
            Action::ClearInput => ActionView::ClearInput,
            Action::ReadByte => ActionView::ReadByte,
            Action::Finish(result) => ActionView::Finish(result_view(*result)),
        }
    }
}

/// The time from `since` to `now`, and zero when the clock ran backwards.
pub open spec fn elapsed_ms(since: u64, now: u64) -> int {
    if now >= since {
        now - since
    } else {
        0
    }
}

/// The controller as a mathematical value.
#[verifier::ext_equal]
pub struct CcnetView {
    /// When the last request frame was handed over for writing.
    pub tl_request: u64,
    pub phase: Phase,
    /// The device that the exchange under way addresses.
    pub addr: u8,
    /// The request frame that waits to be written.
    pub frame: Seq<u8>,
    /// The bytes of the response that have arrived.
    pub collected: Seq<u8>,
    /// The result that waits for the acknowledgment to be out.
    pub held: Option<Result<ResponseView, CcnetError>>,
}

impl CcnetView {
    /// The controller at rest, with the clock stamp kept.
    pub open spec fn idle(self) -> CcnetView {
        CcnetView {
            phase: Phase::Idle,
            frame: Seq::empty(),
            collected: Seq::empty(),
            held: None,
            ..self
        }
    }

    /// The exchange ends with `result`.
    pub open spec fn finish(self, result: Result<ResponseView, CcnetError>) -> (
        CcnetView,
        ActionView,
    ) {
        (self.idle(), ActionView::Finish(result))
    }

    /// Arms an exchange. An oversized payload is refused whatever the phase,
    /// a second request while one is under way is out of turn.
    pub open spec fn request(self, addr: u8, cmd: u8, payload: Seq<u8>) -> (
        CcnetView,
        Result<(), CcnetError>,
    ) {
        if payload.len() > MAX_PAYLOAD {
            (self, Err(CcnetError::PayloadTooLarge))
        } else if self.phase != Phase::Idle {
            (self, Err(CcnetError::OutOfTurn))
        } else {
            (
                CcnetView {
                    phase: Phase::Delaying,
                    addr,
                    frame: frame_spec(addr, cmd, payload),
                    collected: Seq::empty(),
                    held: None,
                    ..self
                },
                Ok(()),
            )
        }
    }

    /// Whether a request may start at `now`: the last one started at least
    /// `MIN_REQUEST_DELAY_MS` before.
    pub open spec fn may_send(self, now: u64) -> bool {
        elapsed_ms(self.tl_request, now) >= MIN_REQUEST_DELAY_MS
    }

    /// The armed request starts when it may, and the clock is stamped;
    /// otherwise it waits another pause.
    pub open spec fn request_delay(self, now: u64) -> (CcnetView, ActionView) {
        if self.may_send(now) {
            (
                CcnetView { phase: Phase::Sending, tl_request: now, frame: Seq::empty(), ..self },
                ActionView::Write(self.frame),
            )
        } else {
            (self, ActionView::Sleep(DELAY_POLL_MS))
        }
    }

    /// The reception ended with `outcome`. A message is acknowledged and
    /// held back until the acknowledgment is out; a bare acknowledgment of
    /// the device is handed on at once; a failure is answered with a negative
    /// acknowledgment and held back likewise.
    pub open spec fn acknowledge(self, outcome: Result<ResponseView, CcnetError>) -> (
        CcnetView,
        ActionView,
    ) {
        match outcome {
            Ok(ResponseView::Message(_)) => (
                CcnetView {
                    phase: Phase::AckSent,
                    collected: Seq::empty(),
                    held: Some(outcome),
                    ..self
                },
                ActionView::Write(acknowledgment_spec(self.addr, true)),
            ),
            Ok(_) => self.finish(outcome),
            Err(_) => (
                CcnetView {
                    phase: Phase::NackSent,
                    collected: Seq::empty(),
                    held: Some(outcome),
                    ..self
                },
                ActionView::Write(acknowledgment_spec(self.addr, false)),
            ),
        }
    }

    /// The queue is looked at every `TRANSMIT_POLL_MS` until it is empty;
    /// then `drained` follows. If the transport fails meanwhile, `failed`
    /// follows.
    pub open spec fn wait_for_transmitting(
        self,
        e: Event,
        drained: (CcnetView, ActionView),
        failed: (CcnetView, ActionView),
    ) -> (CcnetView, ActionView) {
        match e {
            Event::Pending(n) => if n > 0 {
                (self, ActionView::Sleep(TRANSMIT_POLL_MS))
            } else {
                drained
            },
            Event::Woke(_) => (self, ActionView::QueryPending),
            Event::Failed => failed,
            _ => self.finish(Err(CcnetError::OutOfTurn)),
        }
    }

    /// The result that was held back.
    pub open spec fn held_result(self) -> Result<ResponseView, CcnetError> {
        match self.held {
            Some(result) => result,
            None => Err(CcnetError::OutOfTurn),
        }
    }

    /// One step of the exchange: the controller after the event, and what
    /// the caller has to do next.
    ///
    /// An event that does not answer the last action is out of turn and ends
    /// the exchange. A failure of the transport while the request goes out or
    /// the response comes in is answered with a negative acknowledgment, as a
    /// broken frame is; a failure while an acknowledgment goes out ends the
    /// exchange with that failure.
    pub open spec fn advance(self, e: Event) -> (CcnetView, ActionView) {
        match self.phase {
            Phase::Idle => self.finish(Err(CcnetError::OutOfTurn)),
            Phase::Delaying => match e {
                Event::Woke(now) => self.request_delay(now),
                _ => self.finish(Err(CcnetError::OutOfTurn)),
            },
            Phase::Sending => match e {
                Event::Written => (
                    CcnetView { phase: Phase::WaitingEcho, ..self },
                    ActionView::QueryPending,
                ),
                Event::Failed => self.acknowledge(Err(CcnetError::Transport)),
                _ => self.finish(Err(CcnetError::OutOfTurn)),
            },
            Phase::WaitingEcho => self.wait_for_transmitting(
                e,
                (
                    CcnetView { phase: Phase::ReceivingFrame, collected: Seq::empty(), ..self },
                    ActionView::ClearInput,
                ),
                self.acknowledge(Err(CcnetError::Transport)),
            ),
            Phase::ReceivingFrame => match e {
                Event::InputCleared => (self, ActionView::ReadByte),
                Event::Byte(byte) => {
                    let step = receive_spec(self.collected, self.addr, byte);
                    match step.1 {
                        None => (CcnetView { collected: step.0, ..self }, ActionView::ReadByte),
                        Some(outcome) => self.acknowledge(outcome),
                    }
                },
                Event::Failed => self.acknowledge(Err(CcnetError::Transport)),
                _ => self.finish(Err(CcnetError::OutOfTurn)),
            },
            Phase::AckSent | Phase::NackSent => match e {
                Event::Written => (self, ActionView::QueryPending),
                _ => self.wait_for_transmitting(
                    e,
                    self.finish(self.held_result()),
                    self.finish(Err(CcnetError::Transport)),
                ),
            },
        }
    }
}

/// What reaches a controller: a request to arm, or an event of the transport.
pub enum Input {
    Request { addr: u8, cmd: u8, payload: Seq<u8> },
    Event(Event),
}

impl CcnetView {
    /// What holds of the controller in each phase: only the data of that
    /// phase is kept.
    pub open spec fn wf(self) -> bool {
        match self.phase {
            Phase::Idle => self.frame.len() == 0 && self.collected.len() == 0 && self.held is None,
            Phase::Delaying => self.collected.len() == 0 && self.held is None,
            Phase::Sending | Phase::WaitingEcho => self.frame.len() == 0 && self.collected.len()
                == 0 && self.held is None,
            Phase::ReceivingFrame => self.frame.len() == 0 && partial_frame(
                self.collected,
                self.addr,
            ) && self.held is None,
            Phase::AckSent => {
                &&& self.frame.len() == 0
                &&& self.collected.len() == 0
                &&& self.held matches Some(Ok(ResponseView::Message(_)))
            },
            Phase::NackSent => {
                &&& self.frame.len() == 0
                &&& self.collected.len() == 0
                &&& self.held matches Some(Err(error))
                &&& error != CcnetError::OutOfTurn
            },
        }
    }

    /// Whether the event lets the armed request start: the clock was read
    /// while the request waited, and the time has come.
    pub open spec fn starts_request(self, e: Event) -> bool {
        &&& self.phase == Phase::Delaying
        &&& e matches Event::Woke(now)
        &&& self.may_send(now)
    }

    /// The controller after one input.
    pub open spec fn step(self, input: Input) -> CcnetView {
        match input {
            Input::Request { addr, cmd, payload } => self.request(addr, cmd, payload).0,
            Input::Event(e) => self.advance(e).0,
        }
    }

    /// Hands over the bytes of `bytes` as they arrive, for as long as the
    /// controller asks for one more: the controller after the last byte it
    /// took, and what it asked for then.
    pub open spec fn read_all(self, bytes: Seq<u8>) -> (CcnetView, ActionView)
        decreases bytes.len(),
    {
        if bytes.len() == 0 {
            (self, ActionView::ReadByte)
        } else {
            let next = self.advance(Event::Byte(bytes[0]));
            if next.1 == ActionView::ReadByte {
                next.0.read_all(bytes.subrange(1, bytes.len() as int))
            } else {
                next
            }
        }
    }

    /// The controller after a run of inputs.
    pub open spec fn run(self, inputs: Seq<Input>) -> CcnetView
        decreases inputs.len(),
    {
        if inputs.len() == 0 {
            self
        } else {
            self.run(inputs.drop_last()).step(inputs.last())
        }
    }
}

/// Arming a request keeps the controller well formed.
pub proof fn lemma_request_keeps_wf(s: CcnetView, addr: u8, cmd: u8, payload: Seq<u8>)
    requires
        s.wf(),
    ensures
        s.request(addr, cmd, payload).0.wf(),
{
}

/// Every step keeps the controller well formed.
pub proof fn lemma_advance_keeps_wf(s: CcnetView, e: Event)
    requires
        s.wf(),
    ensures
        s.advance(e).0.wf(),
{
    if s.phase == Phase::ReceivingFrame {
        if let Event::Byte(byte) = e {
            lemma_receive_keeps_partial_frame(s.collected, s.addr, byte);
            lemma_receive_outcome(s.collected, s.addr, byte);
        }
    }
}

/// A request whose payload has more than 250 bytes is refused and leaves the
/// controller as it was: nothing is written for it.
pub proof fn lemma_oversized_request_refused(s: CcnetView, addr: u8, cmd: u8, payload: Seq<u8>)
    requires
        payload.len() > MAX_PAYLOAD,
    ensures
        s.request(addr, cmd, payload) == (s, Err::<(), CcnetError>(CcnetError::PayloadTooLarge)),
{
}

/// The request frame is written only by the step that starts the request,
/// and only that step moves the clock stamp: it sets it to the time of the
/// event.
pub proof fn lemma_stamp_moves_with_request(s: CcnetView, e: Event)
    requires
        s.wf(),
    ensures
        s.starts_request(e) ==> s.advance(e) == (
            CcnetView {
                phase: Phase::Sending,
                tl_request: e->Woke_0,
                frame: Seq::empty(),
                ..s
            },
            ActionView::Write(s.frame),
        ),
        !s.starts_request(e) ==> s.advance(e).0.tl_request == s.tl_request,
        !s.starts_request(e) && s.advance(e).1 is Write ==> s.advance(e).1 == ActionView::Write(
            acknowledgment_spec(s.addr, true),
        ) || s.advance(e).1 == ActionView::Write(acknowledgment_spec(s.addr, false)),
{
}

/// The clock stamp never moves back.
pub proof fn lemma_stamp_never_moves_back(s: CcnetView, inputs: Seq<Input>)
    ensures
        s.run(inputs).tl_request >= s.tl_request,
    decreases inputs.len(),
{
    if inputs.len() > 0 {
        lemma_stamp_never_moves_back(s, inputs.drop_last());
    }
}

/// Two requests never start less than `MIN_REQUEST_DELAY_MS` apart, whatever
/// reaches the controller between them.
pub proof fn lemma_min_spacing(s: CcnetView, first: Event, between: Seq<Input>, second: Event)
    requires
        s.starts_request(first),
        s.advance(first).0.run(between).starts_request(second),
    ensures
        second->Woke_0 - first->Woke_0 >= MIN_REQUEST_DELAY_MS,
{
    lemma_stamp_never_moves_back(s.advance(first).0, between);
}

/// A message reaches the caller only when its acknowledgment is out: the
/// step that finishes with a message is the one that finds the transmit
/// queue empty after the acknowledgment was written.
pub proof fn lemma_message_is_acknowledged(s: CcnetView, e: Event)
    requires
        s.wf(),
        s.advance(e).1 matches ActionView::Finish(Ok(ResponseView::Message(_))),
    ensures
        s.phase == Phase::AckSent,
        e == Event::Pending(0),
{
    if s.phase == Phase::ReceivingFrame {
        if let Event::Byte(byte) = e {
            lemma_receive_outcome(s.collected, s.addr, byte);
        }
    }
}

/// A failure of the exchange reaches the caller only when the negative
/// acknowledgment is out. This holds of every error of the frame: a foreign
/// address, a declared length under six, a checksum that does not match.
pub proof fn lemma_failure_is_rejected(s: CcnetView, e: Event, error: CcnetError)
    requires
        s.wf(),
        s.advance(e).1 == ActionView::Finish(Err(error)),
        error != CcnetError::Transport,
        error != CcnetError::OutOfTurn,
    ensures
        s.phase == Phase::NackSent,
        e == Event::Pending(0),
        s.held == Some(Err::<ResponseView, CcnetError>(error)),
{
}

/// A failure of the transport reaches the caller only after an
/// acknowledgment was handed over for writing: either the negative one is
/// out, or the transport failed again at the acknowledgment itself.
pub proof fn lemma_transport_failure_is_answered(s: CcnetView, e: Event)
    requires
        s.wf(),
        s.advance(e).1 == ActionView::Finish(Err(CcnetError::Transport)),
    ensures
        s.phase == Phase::NackSent || s.phase == Phase::AckSent,
        e == Event::Failed || (e == Event::Pending(0) && s.phase == Phase::NackSent),
{
}

/// Only a caller that hands over an event out of turn is told so: the
/// controller was idle, or the event does not answer the action of its phase.
pub proof fn lemma_out_of_turn(s: CcnetView, e: Event)
    requires
        s.wf(),
        s.advance(e).1 == ActionView::Finish(Err(CcnetError::OutOfTurn)),
    ensures
        match s.phase {
            Phase::Idle => true,
            Phase::Delaying => !(e is Woke),
            Phase::Sending => !(e is Written) && !(e is Failed),
            Phase::WaitingEcho => !(e is Pending) && !(e is Woke) && !(e is Failed),
            Phase::ReceivingFrame => !(e is InputCleared) && !(e is Byte) && !(e is Failed),
            Phase::AckSent | Phase::NackSent => !(e is Written) && !(e is Pending) && !(e is Woke)
                && !(e is Failed),
        },
{
    if s.phase == Phase::ReceivingFrame {
        if let Event::Byte(byte) = e {
            lemma_receive_outcome(s.collected, s.addr, byte);
        }
    }
}

/// A failure of the transport before the response is in makes the
/// controller hand over a negative acknowledgment.
pub proof fn lemma_failure_before_response(s: CcnetView)
    requires
        s.phase == Phase::Sending || s.phase == Phase::WaitingEcho || s.phase
            == Phase::ReceivingFrame,
    ensures
        s.advance(Event::Failed) == (
            CcnetView {
                phase: Phase::NackSent,
                collected: Seq::empty(),
                held: Some(Err(CcnetError::Transport)),
                ..s
            },
            ActionView::Write(acknowledgment_spec(s.addr, false)),
        ),
{
}

/// While the response is read, the controller does with the bytes what the
/// receiver does with them, and answers the receiver's report.
proof fn lemma_read_all_is_receive_all(s: CcnetView, bytes: Seq<u8>)
    requires
        s.phase == Phase::ReceivingFrame,
    ensures
        ({
            let received = receive_all(s.collected, s.addr, bytes);
            s.read_all(bytes) == (match received.1 {
                None => (CcnetView { collected: received.0, ..s }, ActionView::ReadByte),
                Some(outcome) => s.acknowledge(outcome),
            })
        }),
    decreases bytes.len(),
{
    if bytes.len() > 0 {
        let step = receive_spec(s.collected, s.addr, bytes[0]);
        if step.1 is None {
            let next = CcnetView { collected: step.0, ..s };
            lemma_read_all_is_receive_all(next, bytes.subrange(1, bytes.len() as int));
        }
    }
}

/// A frame from the device is answered as it decodes, however much noise
/// without a sync byte comes before it: a message with an acknowledgment, a
/// bare acknowledgment of the device by the end of the exchange, a broken
/// frame with a negative acknowledgment.
pub proof fn lemma_frame_is_answered(s: CcnetView, noise: Seq<u8>, frame: Seq<u8>)
    requires
        s.phase == Phase::ReceivingFrame,
        s.collected.len() == 0,
        frame.len() >= MIN_FRAME_LEN,
        frame.len() == frame[2],
        frame[0] == SYNC,
        frame[1] == s.addr,
        forall|i: int| 0 <= i < noise.len() ==> noise[i] != SYNC,
    ensures
        s.read_all(noise + frame) == s.acknowledge(decode_response_spec(frame, s.addr)),
{
    assert(s.collected =~= Seq::<u8>::empty());
    lemma_receive_frame(frame, s.addr, noise);
    lemma_read_all_is_receive_all(s, noise + frame);
}

/// A whole exchange with a transport that does not fail and a device that
/// answers with one frame. Once its time has come the request frame is
/// written, the transmit queue is looked at, the input is cleared and the
/// response is read. The exchange then ends with what the frame decodes to:
/// at once for a bare acknowledgment of the device, and after an
/// acknowledgment of its own has gone out for a message or a broken frame.
pub proof fn lemma_exchange_delivers(
    s: CcnetView,
    addr: u8,
    cmd: u8,
    payload: Seq<u8>,
    now: u64,
    noise: Seq<u8>,
    frame: Seq<u8>,
)
    requires
        s.wf(),
        s.phase == Phase::Idle,
        payload.len() <= MAX_PAYLOAD,
        s.may_send(now),
        frame.len() >= MIN_FRAME_LEN,
        frame.len() == frame[2],
        frame[0] == SYNC,
        frame[1] == addr,
        forall|i: int| 0 <= i < noise.len() ==> noise[i] != SYNC,
    ensures
        ({
            let armed = s.request(addr, cmd, payload);
            let sent = armed.0.advance(Event::Woke(now));
            let written = sent.0.advance(Event::Written);
            let drained = written.0.advance(Event::Pending(0));
            let cleared = drained.0.advance(Event::InputCleared);
            let read = cleared.0.read_all(noise + frame);
            let outcome = decode_response_spec(frame, addr);
            let end = (
                CcnetView { tl_request: now, addr, ..s.idle() },
                ActionView::Finish(outcome),
            );
            &&& armed.1 is Ok
            &&& sent.1 == ActionView::Write(frame_spec(addr, cmd, payload))
            &&& written.1 == ActionView::QueryPending
            &&& drained.1 == ActionView::ClearInput
            &&& cleared.1 == ActionView::ReadByte
            &&& match outcome {
                Ok(ResponseView::Message(_)) => {
                    &&& read.1 == ActionView::Write(acknowledgment_spec(addr, true))
                    &&& read.0.advance(Event::Written).1 == ActionView::QueryPending
                    &&& read.0.advance(Event::Written).0.advance(Event::Pending(0)) == end
                },
                Ok(_) => read == end,
                Err(_) => {
                    &&& read.1 == ActionView::Write(acknowledgment_spec(addr, false))
                    &&& read.0.advance(Event::Written).1 == ActionView::QueryPending
                    &&& read.0.advance(Event::Written).0.advance(Event::Pending(0)) == end
                },
            }
        }),
{
    let armed = s.request(addr, cmd, payload);
    let sent = armed.0.advance(Event::Woke(now));
    let written = sent.0.advance(Event::Written);
    let drained = written.0.advance(Event::Pending(0));
    let cleared = drained.0.advance(Event::InputCleared);
    lemma_frame_is_answered(cleared.0, noise, frame);
}

/// While the response is read, its end is answered at once: a message with
/// an acknowledgment, a failure with a negative acknowledgment, and the bare
/// acknowledgment of the device with nothing.
pub proof fn lemma_reception_is_answered(s: CcnetView, byte: u8)
    requires
        s.phase == Phase::ReceivingFrame,
        receive_spec(s.collected, s.addr, byte).1 is Some,
    ensures
        ({
            let outcome = receive_spec(s.collected, s.addr, byte).1->Some_0;
            let next = s.advance(Event::Byte(byte));
            match outcome {
                Ok(ResponseView::Message(_)) => next.0.phase == Phase::AckSent && next.1
                    == ActionView::Write(acknowledgment_spec(s.addr, true)),
                Ok(_) => next.0.phase == Phase::Idle && next.1 == ActionView::Finish(outcome),
                Err(_) => next.0.phase == Phase::NackSent && next.1 == ActionView::Write(
                    acknowledgment_spec(s.addr, false),
                ),
            }
        }),
{
}

/// A response that names another address than the request is rejected: the
/// byte after the sync byte ends the reception with an address mismatch and
/// a negative acknowledgment goes out.
pub proof fn lemma_foreign_address_is_rejected(s: CcnetView, byte: u8)
    requires
        s.phase == Phase::ReceivingFrame,
        s.collected == seq![SYNC],
        byte != s.addr,
    ensures
        s.advance(Event::Byte(byte)) == (
            CcnetView {
                phase: Phase::NackSent,
                collected: Seq::empty(),
                held: Some(Err(CcnetError::AddressMismatch)),
                ..s
            },
            ActionView::Write(acknowledgment_spec(s.addr, false)),
        ),
{
}

} // verus!
