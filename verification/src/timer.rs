//! The per-core generic timer driver over a plain-value register model.
//!
//! `GenericTimer` owns the state this driver is allowed to touch: the
//! core-local interrupt block (one interrupt-enable mask and one pending
//! mask per core) and the architectural counter with its control and
//! comparator registers, together with the tick frequency cached at
//! construction.  On hardware the same state lives behind a memory-mapped
//! block and system registers, written by a thin unverified shell; here it is
//! plain values, so every operation's effect on every register is stated in
//! its contract and proved.  The counter and the pending masks advance on
//! their own on hardware; the model exposes mutators that stand in for that
//! autonomous movement, which also let a test drive any register state.

use vstd::prelude::*;

use crate::convert;
use crate::interrupt;
use crate::interrupt::CoreInterrupt;

verus! {

/// The `ENABLE` bit of the counter-comparator control register.
pub const CNTP_CTL_ENABLE: u32 = 1;

/// The core-local interrupt block: one 32-bit interrupt-enable mask and one
/// 32-bit pending-source mask per core.  Bit positions follow
/// [`CoreInterrupt`].  The pending masks are read-only to software; hardware
/// raises their bits.
struct IrqRegisters {
    core_timer_irqcntl: [u32; 4],
    core_irq_src: [u32; 4],
}

/// The architectural counter: the free-running 64-bit count, the control
/// register with its enable bit, and the 32-bit relative comparator.
struct CounterRegisters {
    cntpct: u64,
    cntp_ctl: u32,
    cntp_tval: u32,
}

/// The capability a timer backend offers the rest of the kernel: construct,
/// initialize, read the clock, arm a one-shot alarm, query the pending line.
/// Higher-level code depends only on this capability, not on the concrete
/// register layout behind it.
///
/// The spec functions expose the backend's abstract register state, so that
/// each operation's contract can pin its effect on every register.
pub trait BasicTimer: Sized {
    /// The counter's tick frequency in Hz, cached at construction.
    spec fn frequency_spec(&self) -> u64;

    /// Current value of the free-running counter.
    spec fn counter_spec(&self) -> u64;

    /// Current value of the counter's control register.
    spec fn control_spec(&self) -> u32;

    /// Current value of the 32-bit comparator register.
    spec fn comparator_spec(&self) -> u32;

    /// Interrupt-enable mask of core `core`.
    spec fn irq_control_spec(&self, core: int) -> u32
        recommends
            0 <= core < 4,
    ;

    /// Pending-source mask of core `core`.
    spec fn irq_source_spec(&self, core: int) -> u32
        recommends
            0 <= core < 4,
    ;

    /// The driver is well-formed: its cached frequency is a usable tick rate.
    spec fn wf(&self) -> bool;

    /// Routes the timer's interrupt and starts the comparator: writes core
    /// 0's interrupt-enable mask with exactly the non-secure physical timer
    /// bit, then writes the control register with exactly the enable bit.
    /// No other register moves; in particular the other cores' slots are
    /// untouched.  Must be called once, before the first `tick_in`.
    fn init(&mut self)
        requires
            old(self).wf(),
        ensures
            final(self).wf(),
            final(self).irq_control_spec(0) == CoreInterrupt::CNTPNSIRQ.mask_spec(),
            final(self).control_spec() == CNTP_CTL_ENABLE,
            final(self).frequency_spec() == old(self).frequency_spec(),
            final(self).counter_spec() == old(self).counter_spec(),
            final(self).comparator_spec() == old(self).comparator_spec(),
            forall|core: int|
                1 <= core < 4 ==> final(self).irq_control_spec(core) == old(self).irq_control_spec(
                    core,
                ),
            forall|core: int|
                0 <= core < 4 ==> final(self).irq_source_spec(core) == old(self).irq_source_spec(
                    core,
                ),
    ;

    /// Elapsed time since counter reset, in microseconds: exactly
    /// `counter * 1_000_000 / frequency_hz` with truncating division.
    /// A pure read: the state is untouched.
    fn read(&self) -> (r: u64)
        requires
            self.wf(),
            convert::micros_of_ticks(self.counter_spec(), self.frequency_spec()) <= u64::MAX,
        ensures
            r == convert::micros_of_ticks(self.counter_spec(), self.frequency_spec()),
    ;

    /// Arms the alarm `us` microseconds ahead: writes the comparator with
    /// exactly `frequency_hz * us / 1_000_000` (truncating division),
    /// truncated to the comparator's 32 bits.  A zero comparator value (a
    /// very small `us` against the frequency) is accepted and fires at once.
    /// No other register moves; a pending state is neither cleared nor
    /// acknowledged.
    fn tick_in(&mut self, us: u32)
        requires
            old(self).wf(),
        ensures
            final(self).wf(),
            final(self).comparator_spec() == convert::ticks_of_micros(
                us,
                old(self).frequency_spec(),
            ),
            convert::ticks_of_micros_full(us, old(self).frequency_spec()) <= u32::MAX
                ==> final(self).comparator_spec() == convert::ticks_of_micros_full(
                us,
                old(self).frequency_spec(),
            ),
            final(self).frequency_spec() == old(self).frequency_spec(),
            final(self).counter_spec() == old(self).counter_spec(),
            final(self).control_spec() == old(self).control_spec(),
            forall|core: int|
                0 <= core < 4 ==> final(self).irq_control_spec(core) == old(self).irq_control_spec(
                    core,
                ),
            forall|core: int|
                0 <= core < 4 ==> final(self).irq_source_spec(core) == old(self).irq_source_spec(
                    core,
                ),
    ;

    /// Whether core 0's pending-source mask flags the non-secure physical
    /// timer.  A pure read, unaffected by the other eleven sources' bits;
    /// the pending bit is never cleared here.
    fn is_pending(&self) -> (r: bool)
        ensures
            r == interrupt::timer_pending_spec(self.irq_source_spec(0)),
    ;
}

/// The ARM generic timer over the modelled register state.
pub struct GenericTimer {
    irq: IrqRegisters,
    counter: CounterRegisters,
    cntfrq: u64,
}

impl GenericTimer {
    /// Builds the driver over the register state hardware reset leaves: all
    /// registers zero.  `frequency_hz` stands in for the one-time read of
    /// the hardware's fixed counter-frequency register; it must be a usable
    /// tick rate.  Construction observes and mutates no register.
    pub fn new(frequency_hz: u64) -> (t: Self)
        requires
            1 <= frequency_hz,
        ensures
            t.wf(),
            t.frequency_spec() == frequency_hz,
            t.counter_spec() == 0,
            t.control_spec() == 0,
            t.comparator_spec() == 0,
            forall|core: int| 0 <= core < 4 ==> t.irq_control_spec(core) == 0,
            forall|core: int| 0 <= core < 4 ==> t.irq_source_spec(core) == 0,
    {
        GenericTimer {
            irq: IrqRegisters { core_timer_irqcntl: [0, 0, 0, 0], core_irq_src: [0, 0, 0, 0] },
            counter: CounterRegisters { cntpct: 0, cntp_ctl: 0, cntp_tval: 0 },
            cntfrq: frequency_hz,
        }
    }

    /// Moves the free-running counter, as the hardware does on its own: the
    /// model's stand-in for the passage of time.  Nothing else moves.
    pub fn set_counter(&mut self, count: u64)
        ensures
            final(self).counter_spec() == count,
            final(self).frequency_spec() == old(self).frequency_spec(),
            final(self).control_spec() == old(self).control_spec(),
            final(self).comparator_spec() == old(self).comparator_spec(),
            final(self).wf() == old(self).wf(),
            forall|core: int|
                0 <= core < 4 ==> final(self).irq_control_spec(core) == old(self).irq_control_spec(
                    core,
                ),
            forall|core: int|
                0 <= core < 4 ==> final(self).irq_source_spec(core) == old(self).irq_source_spec(
                    core,
                ),
    {
        self.counter.cntpct = count;
    }

    /// Writes core `core`'s pending-source mask, as the hardware does when
    /// it raises or clears an interrupt source.  Nothing else moves.
    pub fn set_irq_source(&mut self, core: usize, bits: u32)
        requires
            core < 4,
        ensures
            final(self).irq_source_spec(core as int) == bits,
            final(self).frequency_spec() == old(self).frequency_spec(),
            final(self).counter_spec() == old(self).counter_spec(),
            final(self).control_spec() == old(self).control_spec(),
            final(self).comparator_spec() == old(self).comparator_spec(),
            final(self).wf() == old(self).wf(),
            forall|c: int|
                0 <= c < 4 && c != core ==> final(self).irq_source_spec(c) == old(
                    self,
                ).irq_source_spec(c),
            forall|c: int|
                0 <= c < 4 ==> final(self).irq_control_spec(c) == old(self).irq_control_spec(c),
    {
        self.irq.core_irq_src[core] = bits;
    }

    /// Writes core `core`'s interrupt-enable mask directly: the model's
    /// stand-in for whatever state hardware reset, firmware or another
    /// driver left there before `init`.  Nothing else moves.
    pub fn set_irq_control(&mut self, core: usize, bits: u32)
        requires
            core < 4,
        ensures
            final(self).irq_control_spec(core as int) == bits,
            final(self).frequency_spec() == old(self).frequency_spec(),
            final(self).counter_spec() == old(self).counter_spec(),
            final(self).control_spec() == old(self).control_spec(),
            final(self).comparator_spec() == old(self).comparator_spec(),
            final(self).wf() == old(self).wf(),
            forall|c: int|
                0 <= c < 4 && c != core ==> final(self).irq_control_spec(c) == old(
                    self,
                ).irq_control_spec(c),
            forall|c: int|
                0 <= c < 4 ==> final(self).irq_source_spec(c) == old(self).irq_source_spec(c),
    {
        self.irq.core_timer_irqcntl[core] = bits;
    }

    /// The cached tick frequency.
    pub fn frequency(&self) -> (r: u64)
        ensures
            r == self.frequency_spec(),
    {
        self.cntfrq
    }

    /// The current counter value.
    pub fn counter(&self) -> (r: u64)
        ensures
            r == self.counter_spec(),
    {
        self.counter.cntpct
    }

    /// The control register's current value.
    pub fn control(&self) -> (r: u32)
        ensures
            r == self.control_spec(),
    {
        self.counter.cntp_ctl
    }

    /// The comparator register's current value: what the last `tick_in`
    /// wrote, or zero after reset.
    pub fn comparator(&self) -> (r: u32)
        ensures
            r == self.comparator_spec(),
    {
        self.counter.cntp_tval
    }

    /// Core `core`'s interrupt-enable mask.
    pub fn irq_control(&self, core: usize) -> (r: u32)
        requires
            core < 4,
        ensures
            r == self.irq_control_spec(core as int),
    {
        self.irq.core_timer_irqcntl[core]
    }

    /// Core `core`'s pending-source mask.
    pub fn irq_source(&self, core: usize) -> (r: u32)
        requires
            core < 4,
        ensures
            r == self.irq_source_spec(core as int),
    {
        self.irq.core_irq_src[core]
    }
}

impl BasicTimer for GenericTimer {
    closed spec fn frequency_spec(&self) -> u64 {
        self.cntfrq
    }

    closed spec fn counter_spec(&self) -> u64 {
        self.counter.cntpct
    }

    closed spec fn control_spec(&self) -> u32 {
        self.counter.cntp_ctl
    }

    closed spec fn comparator_spec(&self) -> u32 {
        self.counter.cntp_tval
    }

    closed spec fn irq_control_spec(&self, core: int) -> u32 {
        self.irq.core_timer_irqcntl[core]
    }

    closed spec fn irq_source_spec(&self, core: int) -> u32 {
        self.irq.core_irq_src[core]
    }

    closed spec fn wf(&self) -> bool {
        1 <= self.cntfrq
    }

    fn init(&mut self) {
        let mask = CoreInterrupt::CNTPNSIRQ.mask();
        self.irq.core_timer_irqcntl[0] = mask;
        self.counter.cntp_ctl = CNTP_CTL_ENABLE;
    }

    fn read(&self) -> (r: u64) {
        convert::ticks_to_micros(self.counter.cntpct, self.cntfrq)
    }

    fn tick_in(&mut self, us: u32) {
        self.counter.cntp_tval = convert::micros_to_ticks(us, self.cntfrq);
    }

    fn is_pending(&self) -> (r: bool) {
        interrupt::timer_pending(self.irq.core_irq_src[0])
    }
}

/// `init` leaves core 0's interrupt-enable mask with exactly one bit set:
/// the non-secure physical timer's bit is raised, and, provided no other
/// source was enabled beforehand, every other bit keeps its pre-call value.
/// `before` and `after` are the mask around the call, as `init` ensures it.
pub proof fn lemma_init_enables_exactly_one_source(before: u32, after: u32)
    requires
        after == CoreInterrupt::CNTPNSIRQ.mask_spec(),
        before & !CoreInterrupt::CNTPNSIRQ.mask_spec() == 0,
    ensures
        after & CoreInterrupt::CNTPNSIRQ.mask_spec() != 0,
        forall|i: u32|
            i < 32 && i != CoreInterrupt::CNTPNSIRQ.bit_spec() ==> (after >> i) & 1 == (before
                >> i) & 1,
{
    assert(after & 2u32 != 0 && forall|i: u32|
        i < 32 && i != 1 ==> (after >> i) & 1 == (before >> i) & 1) by (bit_vector)
        requires
            after == 2u32,
            before & !2u32 == 0,
    ;
}

/// The microsecond clock is a function of the register state alone: two
/// reads with the same counter value and frequency return the same value,
/// as `BasicTimer::read` ensures each result.
pub proof fn lemma_read_idempotent<T: BasicTimer>(t: &T, r1: u64, r2: u64)
    requires
        r1 == convert::micros_of_ticks(t.counter_spec(), t.frequency_spec()),
        r2 == convert::micros_of_ticks(t.counter_spec(), t.frequency_spec()),
    ensures
        r1 == r2,
{
}

} // verus!
