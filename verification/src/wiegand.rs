//! Decoder of the two-wire signal of a card reader.
//!
//! A pulse on the first wire is a zero bit, a pulse on the second a one bit.
//! The decoder is handed the time and the levels of both wires at every
//! poll, collects the bits lowest first, and gives out the number once the
//! wires have been quiet for the cutoff time.

use vstd::prelude::*;
use gpio::GpioValue;
use crate::intio::PinLevel;

verus! {

/// Quiet time that ends a number, in microseconds.
pub const CUTOFF_DEF_US: u64 = 25000;

/// Least time between two polls that count, in microseconds.
pub const POLL_PERIOD_DEF_US: u64 = 500;

/// Level of a wire during a pulse.
pub const ACTIVE_LEVEL_DEF: PinLevel = PinLevel::Low;

/// Fewest bits of a number.
pub const MIN_ORDER_DEF: usize = 24;

/// Most bits of a number.
pub const MAX_ORDER_DEF: usize = 44;

/// Most bits that the decoder can hold.
pub const ORDER_LIMIT: usize = 64;

/// A number read from a card, and how many bits it has.
#[derive(Debug, Clone, Copy, PartialEq, Eq, Structural)]
pub struct WiegandMsg {
    pub data: u64,
    pub order: usize,
}

/// A most-bits setting above `ORDER_LIMIT`.
#[derive(Debug, Clone, Copy, PartialEq, Eq, Structural)]
pub struct OrderTooLarge;

/// The time from `since` to `now`, and zero when the clock ran backwards.
pub open spec fn elapsed_us(since: u64, now: u64) -> int {
    if now >= since {
        now - since
    } else {
        0
    }
}

/// Whether `buf` has no bit set at place `pos` or above.
pub open spec fn fits_in(buf: u64, pos: usize) -> bool {
    pos >= 64 || buf >> (pos as u64) == 0
}

/// The decoder as a mathematical value.
pub struct WiegandView {
    pub cutoff: u64,
    pub poll_period: u64,
    pub active_level: PinLevel,
    pub min_order: usize,
    pub max_order: usize,
    pub buf: u64,
    pub pos: usize,
    pub tl_poll: u64,
    pub tl_active: u64,
    pub pin_0_release: bool,
    pub pin_1_release: bool,
}

impl WiegandView {
    /// What holds of every decoder: it never holds more than `ORDER_LIMIT`
    /// bits, and none beyond those it has counted.
    pub open spec fn wf(self) -> bool {
        &&& self.max_order <= ORDER_LIMIT
        &&& self.pos <= ORDER_LIMIT
        &&& fits_in(self.buf, self.pos)
    }

    /// Whether a poll at `now` counts: the poll period has passed since the
    /// last one that did.
    pub open spec fn poll_due(self, now: u64) -> bool {
        elapsed_us(self.tl_poll, now) >= self.poll_period
    }

    /// The decoder with one more bit, as long as there is room for it.
    pub open spec fn push_bit(self, bit: bool) -> WiegandView {
        if self.pos < self.max_order && self.pos < ORDER_LIMIT {
            WiegandView {
                buf: if bit {
                    self.buf | (1u64 << (self.pos as u64))
                } else {
                    self.buf & !(1u64 << (self.pos as u64))
                },
                pos: (self.pos + 1) as usize,
                ..self
            }
        } else {
            self
        }
    }

    /// One poll. A poll that comes before its time changes nothing. A pulse
    /// on the first wire, once that wire has been seen at rest, is a zero
    /// bit; failing that, a pulse on the second wire is a one bit. With both
    /// wires at rest for the cutoff time the bits collected are given out if
    /// their count lies between the fewest and the most, and dropped if not.
    pub open spec fn poll(self, now: u64, pin_0: GpioValue, pin_1: GpioValue) -> (
        WiegandView,
        Option<WiegandMsg>,
    ) {
        let active = self.active_level.as_gpioval_spec();
        if !self.poll_due(now) {
            (self, None)
        } else if pin_0 == active && self.pin_0_release {
            (
                WiegandView {
                    tl_poll: now,
                    tl_active: now,
                    pin_0_release: false,
                    ..self
                }.push_bit(false),
                None,
            )
        } else if pin_1 == active {
            (
                WiegandView {
                    tl_poll: now,
                    tl_active: now,
                    pin_0_release: true,
                    pin_1_release: false,
                    ..self
                }.push_bit(true),
                None,
            )
        } else if elapsed_us(self.tl_active, now) >= self.cutoff {
            (
                WiegandView {
                    tl_poll: now,
                    pin_0_release: true,
                    pin_1_release: true,
                    pos: 0,
                    buf: 0,
                    ..self
                },
                if self.min_order <= self.pos <= self.max_order {
                    Some(WiegandMsg { data: self.buf, order: self.pos })
                } else {
                    None
                },
            )
        } else {
            (WiegandView { tl_poll: now, pin_0_release: true, pin_1_release: true, ..self }, None)
        }
    }
}

/// A counted bit leaves the number within the bits counted, and a zero bit
/// leaves the number as it is.
proof fn lemma_push_fits(buf: u64, pos: u64)
    requires
        pos < 64,
        buf >> pos == 0,
    ensures
        pos < 63 ==> (buf | (1u64 << pos)) >> ((pos + 1) as u64) == 0,
        pos < 63 ==> buf >> ((pos + 1) as u64) == 0,
        buf & !(1u64 << pos) == buf,
{
    assert(pos < 63 && buf >> pos == 0 ==> (buf | (1u64 << pos)) >> ((pos + 1) as u64) == 0)
        by (bit_vector);
    assert(pos < 63 && buf >> pos == 0 ==> buf >> ((pos + 1) as u64) == 0) by (bit_vector);
    assert(pos < 64 && buf >> pos == 0 ==> buf & !(1u64 << pos) == buf) by (bit_vector);
}

/// Every poll keeps the decoder well formed, and a number that is given out
/// has a count of bits between the fewest and the most and no bit beyond
/// that count.
pub proof fn lemma_poll_keeps_wf(s: WiegandView, now: u64, pin_0: GpioValue, pin_1: GpioValue)
    requires
        s.wf(),
    ensures
        s.poll(now, pin_0, pin_1).0.wf(),
        s.poll(now, pin_0, pin_1).1 matches Some(msg) ==> s.min_order <= msg.order <= s.max_order
            && fits_in(msg.data, msg.order),
{
    lemma_zero_fits();
    if s.pos < 64 {
        lemma_push_fits(s.buf, s.pos as u64);
    }
}

/// No bit of zero is set.
proof fn lemma_zero_fits()
    ensures
        forall|pos: usize| fits_in(0, pos),
{
    assert forall|pos: usize| fits_in(0, pos) by {
        if pos < 64 {
            let p = pos as u64;
            assert(p < 64 ==> 0u64 >> p == 0) by (bit_vector);
        }
    }
}

/// A zero bit changes nothing but the count: the number stays as it is.
pub proof fn lemma_zero_bit_keeps_number(s: WiegandView)
    requires
        s.wf(),
    ensures
        s.push_bit(false).buf == s.buf,
{
    if s.pos < 64 {
        lemma_push_fits(s.buf, s.pos as u64);
    }
}

/// The decoder of one reader.
pub struct Wiegand {
    cutoff: u64,
    poll_period: u64,
    active_level: PinLevel,
    min_order: usize,
    max_order: usize,
    buf: u64,
    pos: usize,
    tl_poll: u64,
    tl_active: u64,
    pin_0_release: bool,
    pin_1_release: bool,
}

impl View for Wiegand {
    type V = WiegandView;

    closed spec fn view(&self) -> WiegandView {
        WiegandView {
            cutoff: self.cutoff,
            poll_period: self.poll_period,
            active_level: self.active_level,
            min_order: self.min_order,
            max_order: self.max_order,
            buf: self.buf,
            pos: self.pos,
            tl_poll: self.tl_poll,
            tl_active: self.tl_active,
            pin_0_release: self.pin_0_release,
            pin_1_release: self.pin_1_release,
        }
    }
}

impl Wiegand {
    #[verifier::type_invariant]
    spec fn inv(self) -> bool {
        self@.wf()
    }

    /// A decoder with the default settings and no bit, whose clocks start
    /// at `now`.
    pub fn new(now: u64) -> (wiegand: Wiegand)
        ensures
            wiegand@ == (WiegandView {
                cutoff: CUTOFF_DEF_US,
                poll_period: POLL_PERIOD_DEF_US,
                active_level: ACTIVE_LEVEL_DEF,
                min_order: MIN_ORDER_DEF,
                max_order: MAX_ORDER_DEF,
                buf: 0,
                pos: 0,
                tl_poll: now,
                tl_active: now,
                pin_0_release: false,
                pin_1_release: false,
            }),
            wiegand@.wf(),
    {
        proof {
            lemma_zero_fits();
        }
        Wiegand {
            cutoff: CUTOFF_DEF_US,
            poll_period: POLL_PERIOD_DEF_US,
            active_level: ACTIVE_LEVEL_DEF,
            min_order: MIN_ORDER_DEF,
            max_order: MAX_ORDER_DEF,
            buf: 0,
            pos: 0,
            tl_poll: now,
            tl_active: now,
            pin_0_release: false,
            pin_1_release: false,
        }
    }

    /// Sets the most bits of a number. More than `ORDER_LIMIT` is refused.
    pub fn set_max_order(&mut self, order: usize) -> (r: Result<(), OrderTooLarge>)
        ensures
            old(self)@.wf(),
            final(self)@.wf(),
            order <= ORDER_LIMIT ==> r is Ok && final(self)@ == (WiegandView {
                max_order: order,
                ..old(self)@
            }),
            order > ORDER_LIMIT ==> r is Err && final(self)@ == old(self)@,
    {
        proof {
            use_type_invariant(&*self);
        }
        if order <= ORDER_LIMIT {
            self.max_order = order;
            Ok(())
        } else {
            Err(OrderTooLarge)
        }
    }

    /// Sets the fewest bits of a number.
    pub fn set_min_order(&mut self, order: usize)
        ensures
            final(self)@ == (WiegandView { min_order: order, ..old(self)@ }),
    {
        proof {
            use_type_invariant(&*self);
        }
        self.min_order = order;
    }

    /// Sets the level of a wire during a pulse.
    pub fn set_active_level(&mut self, level: GpioValue)
        ensures
            final(self)@.active_level.as_gpioval_spec() == level,
            final(self)@ == (WiegandView {
                active_level: final(self)@.active_level,
                ..old(self)@
            }),
    {
        proof {
            use_type_invariant(&*self);
        }
        self.active_level = PinLevel::from_gpioval(level);
    }

    /// Sets the quiet time that ends a number, in microseconds.
    pub fn set_cutoff(&mut self, dur: u64)
        ensures
            final(self)@ == (WiegandView { cutoff: dur, ..old(self)@ }),
    {
        proof {
            use_type_invariant(&*self);
        }
        self.cutoff = dur;
    }

    /// Sets the least time between two polls that count, in microseconds.
    pub fn set_poll_period(&mut self, dur: u64)
        ensures
            final(self)@ == (WiegandView { poll_period: dur, ..old(self)@ }),
    {
        proof {
            use_type_invariant(&*self);
        }
        self.poll_period = dur;
    }

    /// Whether a poll at `now` would count. The wires need not be read for
    /// one that would not.
    pub fn poll_due(&self, now: u64) -> (due: bool)
        ensures
            due == self@.poll_due(now),
    {
        let elapsed = if now >= self.tl_poll {
            now - self.tl_poll
        } else {
            0
        };
        elapsed >= self.poll_period
    }

    /// Counts one more bit, if there is room.
    fn push_bit(&mut self, bit: bool)
        ensures
            final(self)@ == old(self)@.push_bit(bit),
    {
        proof {
            use_type_invariant(&*self);
        }
        if self.pos < self.max_order && self.pos < ORDER_LIMIT {
            let place = self.pos as u64;
            proof {
                lemma_push_fits(self.buf, place);
            }
            let buf = if bit {
                self.buf | (1u64 << place)
            } else {
                self.buf & !(1u64 << place)
            };
            *self = Wiegand { buf, pos: self.pos + 1, ..*self };
        }
    }

    /// Takes the time and the levels of both wires, and gives out a number
    /// when one is complete.
    pub fn poll(&mut self, now: u64, pin_0: GpioValue, pin_1: GpioValue) -> (msg: Option<
        WiegandMsg,
    >)
        ensures
            old(self)@.wf(),
            final(self)@.wf(),
            (final(self)@, msg) == old(self)@.poll(now, pin_0, pin_1),
            msg matches Some(m) ==> old(self)@.min_order <= m.order <= old(self)@.max_order
                && fits_in(m.data, m.order),
    {
        proof {
            use_type_invariant(&*self);
            lemma_poll_keeps_wf(self@, now, pin_0, pin_1);
            lemma_zero_fits();
        }
        if !self.poll_due(now) {
            return None;
        }
        self.tl_poll = now;
        let level_0 = PinLevel::from_gpioval(pin_0);
        let level_1 = PinLevel::from_gpioval(pin_1);
        if level_0 == self.active_level && self.pin_0_release {
            self.tl_active = now;
            self.pin_0_release = false;
            self.push_bit(false);
            None
        } else {
            self.pin_0_release = true;
            if level_1 == self.active_level {
                self.tl_active = now;
                self.pin_1_release = false;
                self.push_bit(true);
                None
            } else {
                self.pin_1_release = true;
                let quiet = if now >= self.tl_active {
                    now - self.tl_active
                } else {
                    0
                };
                if quiet >= self.cutoff {
                    let msg = if self.pos >= self.min_order && self.pos <= self.max_order {
                        Some(WiegandMsg { data: self.buf, order: self.pos })
                    } else {
                        None
                    };
                    *self = Wiegand { pos: 0, buf: 0, ..*self };
                    msg
                } else {
                    None
                }
            }
        }
    }
}

} // verus!
