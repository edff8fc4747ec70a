//! The controller of one bill-validator link.
//!
//! The controller decides and never touches the transport. A caller arms an
//! exchange with `request`, then hands every event of the transport to
//! `advance` and performs the action that comes back, until the action is
//! `Finish`. What the device answered is then read with the operation that
//! was asked for: `poll`, `info` and the others.

use vstd::prelude::*;
use crate::error::result_view;
use crate::error::CcnetError;
use crate::exchange::Action;
use crate::exchange::CcnetView;
use crate::exchange::Event;
use crate::exchange::Phase;
use crate::exchange::BREAK_RESET_MS;
use crate::exchange::DELAY_POLL_MS;
use crate::exchange::MIN_REQUEST_DELAY_MS;
use crate::exchange::TRANSMIT_POLL_MS;
use crate::frame::encode;
use crate::frame::send_ack;
use crate::frame::Response;
use crate::frame::ResponseView;
use crate::frame::MAX_PAYLOAD;
use crate::payload::bill_options_spec;
use crate::payload::bill_table_result_view;
use crate::payload::bill_table_spec;
use crate::payload::cassettes_spec;
use crate::payload::decode_bill_options;
use crate::payload::decode_bill_table;
use crate::payload::decode_cassettes;
use crate::payload::decode_info;
use crate::payload::decode_status;
use crate::payload::info_spec;
use crate::payload::status_spec;
use crate::payload::BillDescription;
use crate::payload::BillOptions;
use crate::payload::CassetteStatus;
use crate::payload::Info;
use crate::payload::Status;
use crate::receiver::FrameReceiver;

verus! {

/// The two line speeds of the link.
#[derive(Debug, Clone, Copy, PartialEq, Eq, Structural)]
pub enum BaudRate {
    Slow,
    Fast,
}

impl BaudRate {
    /// The speed in bits per second.
    pub open spec fn bits_per_second_spec(self) -> u32 {
        match self {
            BaudRate::Slow => 9600,
            BaudRate::Fast => 19200,
        }
    }

    /// The speed in bits per second.
    pub fn bits_per_second(&self) -> (bps: u32)
        ensures
            bps == self.bits_per_second_spec(),
    {
        match self {
            BaudRate::Slow => 9600,
            BaudRate::Fast => 19200,
        }
    }
}

/// One step of a reset of the line.
#[derive(Debug, Clone, Copy, PartialEq, Eq, Structural)]
pub enum LineStep {
    /// Put the line into the break condition.
    SetBreak,
    /// Keep the line as it is for so many milliseconds.
    Hold(u64),
    /// Take the line out of the break condition.
    ClearBreak,
}

/// The controller of one link. It keeps the time of the last request and the
/// state of the exchange under way.
pub struct Ccnet {
    tl_request: u64,
    phase: Phase,
    addr: u8,
    frame: Vec<u8>,
    receiver: FrameReceiver,
    held: Option<Result<Response, CcnetError>>,
}

impl View for Ccnet {
    type V = CcnetView;

    closed spec fn view(&self) -> CcnetView {
        CcnetView {
            tl_request: self.tl_request,
            phase: self.phase,
            addr: self.addr,
            frame: self.frame@,
            collected: self.receiver.collected(),
            held: match self.held {
                Some(result) => Some(result_view(result)),
                None => None,
            },
        }
    }
}

impl Ccnet {
    /// A controller at rest whose clock is stamped with `now_ms`: the first
    /// request waits as if one had just been sent.
    pub fn new(now_ms: u64) -> (ccnet: Ccnet)
        ensures
            ccnet@.wf(),
            ccnet@ == (CcnetView {
                tl_request: now_ms,
                phase: Phase::Idle,
                addr: 0,
                frame: Seq::empty(),
                collected: Seq::empty(),
                held: None,
            }),
    {
        Ccnet {
            tl_request: now_ms,
            phase: Phase::Idle,
            addr: 0,
            frame: Vec::new(),
            receiver: FrameReceiver::new(),
            held: None,
        }
    }

    /// The steps that reset every device on the line: a break, held for
    /// `BREAK_RESET_MS`. No frame is sent for it.
    pub fn reset_all() -> (steps: [LineStep; 3])
        ensures
            steps@ == seq![LineStep::SetBreak, LineStep::Hold(BREAK_RESET_MS), LineStep::ClearBreak],
    {
        [LineStep::SetBreak, LineStep::Hold(BREAK_RESET_MS), LineStep::ClearBreak]
    }

    /// Where the exchange stands.
    pub fn phase(&self) -> (phase: Phase)
        ensures
            phase == self@.phase,
    {
        self.phase
    }

    /// When the last request started, on the clock of `Event::Woke`.
    pub fn last_request_ms(&self) -> (ms: u64)
        ensures
            ms == self@.tl_request,
    {
        self.tl_request
    }

    /// Arms the exchange that sends `cmd` with `data` to `addr`. Nothing is
    /// written yet: the first `advance` decides when the frame may go out.
    pub fn request(&mut self, addr: u8, cmd: u8, data: &[u8]) -> (r: Result<(), CcnetError>)
        ensures
            (final(self)@, r) == old(self)@.request(addr, cmd, data@),
    {
        if data.len() > MAX_PAYLOAD {
            return Err(CcnetError::PayloadTooLarge);
        }
        if self.phase != Phase::Idle {
            return Err(CcnetError::OutOfTurn);
        }
        match encode(addr, cmd, data) {
            Ok(frame) => {
                self.phase = Phase::Delaying;
                self.addr = addr;
                self.frame = frame;
                self.receiver.reset();
                self.held = None;
                Ok(())
            },
            Err(e) => Err(e),
        }
    }

    /// Ends the exchange with `result`.
    fn finish(&mut self, result: Result<Response, CcnetError>) -> (action: Action)
        ensures
            (final(self)@, action@) == old(self)@.finish(result_view(result)),
    {
        self.phase = Phase::Idle;
        self.frame = Vec::new();
        self.receiver.reset();
        self.held = None;
        Action::Finish(result)
    }

    /// Lets the armed request start when its time has come.
    fn request_delay(&mut self, now: u64) -> (action: Action)
        ensures
            (final(self)@, action@) == old(self)@.request_delay(now),
    {
        let elapsed = if now >= self.tl_request {
            now - self.tl_request
        } else {
            0
        };
        if elapsed >= MIN_REQUEST_DELAY_MS {
            let mut frame: Vec<u8> = Vec::new();
            core::mem::swap(&mut self.frame, &mut frame);
            self.phase = Phase::Sending;
            self.tl_request = now;
            Action::Write(frame)
        } else {
            Action::Sleep(DELAY_POLL_MS)
        }
    }

    /// Answers the end of the reception.
    fn acknowledge(&mut self, outcome: Result<Response, CcnetError>) -> (action: Action)
        ensures
            (final(self)@, action@) == old(self)@.acknowledge(result_view(outcome)),
    {
        match outcome {
            Ok(Response::Message(data)) => {
                self.phase = Phase::AckSent;
                self.receiver.reset();
                self.held = Some(Ok(Response::Message(data)));
                Action::Write(send_ack(self.addr, true))
            },
            Ok(other) => self.finish(Ok(other)),
            Err(e) => {
                self.phase = Phase::NackSent;
                self.receiver.reset();
                self.held = Some(Err(e));
                Action::Write(send_ack(self.addr, false))
            },
        }
    }

    /// Takes the held result out.
    fn take_held(&mut self) -> (result: Result<Response, CcnetError>)
        ensures
            result_view(result) == old(self)@.held_result(),
            final(self)@ == (CcnetView { held: None, ..old(self)@ }),
    {
        let mut held: Option<Result<Response, CcnetError>> = None;
        core::mem::swap(&mut self.held, &mut held);
        match held {
            Some(result) => result,
            None => Err(CcnetError::OutOfTurn),
        }
    }

    /// Takes the next event of the transport and says what to do next.
    pub fn advance(&mut self, event: Event) -> (action: Action)
        ensures
            (final(self)@, action@) == old(self)@.advance(event),
    {
        match self.phase {
            Phase::Idle => self.finish(Err(CcnetError::OutOfTurn)),
            Phase::Delaying => match event {
                Event::Woke(now) => self.request_delay(now),
                _ => self.finish(Err(CcnetError::OutOfTurn)),
            },
            Phase::Sending => match event {
                Event::Written => {
                    self.phase = Phase::WaitingEcho;
                    Action::QueryPending
                },
                Event::Failed => self.acknowledge(Err(CcnetError::Transport)),
                _ => self.finish(Err(CcnetError::OutOfTurn)),
            },
            Phase::WaitingEcho => match event {
                Event::Pending(n) => {
                    if n > 0 {
                        Action::Sleep(TRANSMIT_POLL_MS)
                    } else {
                        self.phase = Phase::ReceivingFrame;
                        self.receiver.reset();
                        Action::ClearInput
                    }
                },
                Event::Woke(_) => Action::QueryPending,
                Event::Failed => self.acknowledge(Err(CcnetError::Transport)),
                _ => self.finish(Err(CcnetError::OutOfTurn)),
            },
            Phase::ReceivingFrame => match event {
                Event::InputCleared => Action::ReadByte,
                Event::Byte(byte) => {
                    match self.receiver.receive_response(self.addr, byte) {
                        None => Action::ReadByte,
                        Some(outcome) => self.acknowledge(outcome),
                    }
                },
                Event::Failed => self.acknowledge(Err(CcnetError::Transport)),
                _ => self.finish(Err(CcnetError::OutOfTurn)),
            },
            Phase::AckSent | Phase::NackSent => match event {
                Event::Written => Action::QueryPending,
                Event::Pending(n) => {
                    if n > 0 {
                        Action::Sleep(TRANSMIT_POLL_MS)
                    } else {
                        let result = self.take_held();
                        self.finish(result)
                    }
                },
                Event::Woke(_) => Action::QueryPending,
                Event::Failed => self.finish(Err(CcnetError::Transport)),
                _ => self.finish(Err(CcnetError::OutOfTurn)),
            },
        }
    }
}

/// The message that a device owes on a request for data, to be read by
/// `read`. An acknowledgment in its place is an error of its own.
pub open spec fn on_message<T>(
    response: ResponseView,
    read: spec_fn(Seq<u8>) -> Result<T, CcnetError>,
) -> Result<T, CcnetError> {
    match response {
        ResponseView::Message(data) => read(data),
        ResponseView::Ack => Err(CcnetError::UnexpectedAck),
        ResponseView::IncCmd => Err(CcnetError::IncCmd),
        ResponseView::Nack => Err(CcnetError::Nack),
    }
}

/// The bare acknowledgment that a device owes on an order.
pub open spec fn on_ack(response: ResponseView) -> Result<(), CcnetError> {
    match response {
        ResponseView::Ack => Ok(()),
        ResponseView::IncCmd => Err(CcnetError::IncCmd),
        ResponseView::Nack => Err(CcnetError::Nack),
        ResponseView::Message(_) => Err(CcnetError::UnexpectedMessage),
    }
}

/// Expects the bare acknowledgment of an order.
fn expect_ack(response: &Response) -> (r: Result<(), CcnetError>)
    ensures
        r == on_ack(response@),
{
    match response {
        Response::Ack => Ok(()),
        Response::IncCmd => Err(CcnetError::IncCmd),
        Response::Nack => Err(CcnetError::Nack),
        Response::Message(_) => Err(CcnetError::UnexpectedMessage),
    }
}

impl Ccnet {
    /// Reads the answer to `cmd::POLL` as the options of the bill types.
    pub fn get_bill_options(response: &Response) -> (r: Result<BillOptions, CcnetError>)
        ensures
            result_view(r) == on_message(response@, |data: Seq<u8>| bill_options_spec(data)),
    {
        match response {
            Response::Message(data) => decode_bill_options(data.as_slice()),
            Response::Ack => Err(CcnetError::UnexpectedAck),
            Response::IncCmd => Err(CcnetError::IncCmd),
            Response::Nack => Err(CcnetError::Nack),
        }
    }

    /// Reads the answer to `cmd::POLL` as the state of the device.
    pub fn poll(response: &Response) -> (r: Result<Status, CcnetError>)
        ensures
            result_view(r) == on_message(response@, |data: Seq<u8>| status_spec(data)),
    {
        match response {
            Response::Message(data) => decode_status(data.as_slice()),
            Response::Ack => Err(CcnetError::UnexpectedAck),
            Response::IncCmd => Err(CcnetError::IncCmd),
            Response::Nack => Err(CcnetError::Nack),
        }
    }

    /// Reads the answer to `cmd::REC_CASSETTE_STATUS`.
    pub fn cassette_status(response: &Response) -> (r: Result<Vec<CassetteStatus>, CcnetError>)
        ensures
            result_view(r) == on_message(response@, |data: Seq<u8>| cassettes_spec(data)),
    {
        match response {
            Response::Message(data) => decode_cassettes(data.as_slice()),
            Response::Ack => Err(CcnetError::UnexpectedAck),
            Response::IncCmd => Err(CcnetError::IncCmd),
            Response::Nack => Err(CcnetError::Nack),
        }
    }

    /// Reads the answer to `cmd::GET_BILL_TABLE`.
    pub fn get_bill_table(response: &Response) -> (r: Result<Vec<BillDescription>, CcnetError>)
        ensures
            bill_table_result_view(r) == on_message(
                response@,
                |data: Seq<u8>| bill_table_spec(data),
            ),
    {
        match response {
            Response::Message(data) => decode_bill_table(data.as_slice()),
            Response::Ack => Err(CcnetError::UnexpectedAck),
            Response::IncCmd => Err(CcnetError::IncCmd),
            Response::Nack => Err(CcnetError::Nack),
        }
    }

    /// Reads the answer to `cmd::EXT_IDENT`.
    pub fn info(response: &Response) -> (r: Result<Info, CcnetError>)
        ensures
            result_view(r) == on_message(response@, |data: Seq<u8>| info_spec(data)),
    {
        match response {
            Response::Message(data) => decode_info(data.as_slice()),
            Response::Ack => Err(CcnetError::UnexpectedAck),
            Response::IncCmd => Err(CcnetError::IncCmd),
            Response::Nack => Err(CcnetError::Nack),
        }
    }

    /// Reads the answer to `cmd::STACK`: the device has to acknowledge.
    pub fn stack_bill(response: &Response) -> (r: Result<(), CcnetError>)
        ensures
            r == on_ack(response@),
    {
        expect_ack(response)
    }

    /// Reads the answer to `cmd::RETURN`: the device has to acknowledge.
    pub fn return_bill(response: &Response) -> (r: Result<(), CcnetError>)
        ensures
            r == on_ack(response@),
    {
        expect_ack(response)
    }
}

} // verus!
