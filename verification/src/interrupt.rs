//! Core-local interrupt sources and their fixed bit positions.
//!
//! Each core of the board multiplexes twelve interrupt causes onto one core
//! interrupt line: four timer comparator lines, four mailbox lines, the GPU,
//! the performance monitor, the AXI-outstanding signal and the local timer.
//! The mapping from source to bit position 0..=11 is fixed by the hardware
//! and is part of its contract; it is pinned here by `bit_spec`.

use vstd::prelude::*;

verus! {

/// One of the twelve interrupt causes local to a single core.
#[derive(Clone, Copy, PartialEq, Eq, Structural, Debug)]
pub enum CoreInterrupt {
    /// Secure physical timer comparator.
    CNTPSIRQ,
    /// Non-secure physical timer comparator: the line this driver uses.
    CNTPNSIRQ,
    /// Hypervisor physical timer comparator.
    CNTHPIRQ,
    /// Virtual timer comparator.
    CNTVIRQ,
    Mailbox0,
    Mailbox1,
    Mailbox2,
    Mailbox3,
    Gpu,
    Pmu,
    AxiOutstanding,
    LocalTimer,
}

impl CoreInterrupt {
    /// The bit position of this source, fixed by the hardware.
    pub open spec fn bit_spec(self) -> u32 {
        match self {
            CoreInterrupt::CNTPSIRQ => 0,
            CoreInterrupt::CNTPNSIRQ => 1,
            CoreInterrupt::CNTHPIRQ => 2,
            CoreInterrupt::CNTVIRQ => 3,
            CoreInterrupt::Mailbox0 => 4,
            CoreInterrupt::Mailbox1 => 5,
            CoreInterrupt::Mailbox2 => 6,
            CoreInterrupt::Mailbox3 => 7,
            CoreInterrupt::Gpu => 8,
            CoreInterrupt::Pmu => 9,
            CoreInterrupt::AxiOutstanding => 10,
            CoreInterrupt::LocalTimer => 11,
        }
    }

    /// The single-bit mask of this source within a 32-bit interrupt
    /// register: the bit at `bit_spec`, as `lemma_mask_is_bit` proves.
    pub open spec fn mask_spec(self) -> u32 {
        match self {
            CoreInterrupt::CNTPSIRQ => 0x1,
            CoreInterrupt::CNTPNSIRQ => 0x2,
            CoreInterrupt::CNTHPIRQ => 0x4,
            CoreInterrupt::CNTVIRQ => 0x8,
            CoreInterrupt::Mailbox0 => 0x10,
            CoreInterrupt::Mailbox1 => 0x20,
            CoreInterrupt::Mailbox2 => 0x40,
            CoreInterrupt::Mailbox3 => 0x80,
            CoreInterrupt::Gpu => 0x100,
            CoreInterrupt::Pmu => 0x200,
            CoreInterrupt::AxiOutstanding => 0x400,
            CoreInterrupt::LocalTimer => 0x800,
        }
    }

    /// Bit position of this source.
    pub fn bit(self) -> (r: u32)
        ensures
            r == self.bit_spec(),
    {
        match self {
            CoreInterrupt::CNTPSIRQ => 0,
            CoreInterrupt::CNTPNSIRQ => 1,
            CoreInterrupt::CNTHPIRQ => 2,
            CoreInterrupt::CNTVIRQ => 3,
            CoreInterrupt::Mailbox0 => 4,
            CoreInterrupt::Mailbox1 => 5,
            CoreInterrupt::Mailbox2 => 6,
            CoreInterrupt::Mailbox3 => 7,
            CoreInterrupt::Gpu => 8,
            CoreInterrupt::Pmu => 9,
            CoreInterrupt::AxiOutstanding => 10,
            CoreInterrupt::LocalTimer => 11,
        }
    }

    /// Single-bit mask of this source.
    pub fn mask(self) -> (r: u32)
        ensures
            r == self.mask_spec(),
    {
        proof {
            lemma_mask_is_bit(self);
        }
        let b = self.bit();
        assert(b < 32);
        1u32 << b
    }
}

/// Pins the shape of each source's mask: it is the single bit at the
/// source's fixed position.
pub proof fn lemma_mask_is_bit(s: CoreInterrupt)
    ensures
        s.mask_spec() == 1u32 << s.bit_spec(),
{
    assert(1u32 << 0u32 == 0x1u32) by (bit_vector);
    assert(1u32 << 1u32 == 0x2u32) by (bit_vector);
    assert(1u32 << 2u32 == 0x4u32) by (bit_vector);
    assert(1u32 << 3u32 == 0x8u32) by (bit_vector);
    assert(1u32 << 4u32 == 0x10u32) by (bit_vector);
    assert(1u32 << 5u32 == 0x20u32) by (bit_vector);
    assert(1u32 << 6u32 == 0x40u32) by (bit_vector);
    assert(1u32 << 7u32 == 0x80u32) by (bit_vector);
    assert(1u32 << 8u32 == 0x100u32) by (bit_vector);
    assert(1u32 << 9u32 == 0x200u32) by (bit_vector);
    assert(1u32 << 10u32 == 0x400u32) by (bit_vector);
    assert(1u32 << 11u32 == 0x800u32) by (bit_vector);
}

/// Whether the non-secure physical timer source is flagged in a pending-source
/// register value.
pub open spec fn timer_pending_spec(src: u32) -> bool {
    src & CoreInterrupt::CNTPNSIRQ.mask_spec() != 0
}

/// Tests whether a pending-source register value flags the non-secure
/// physical timer.
pub fn timer_pending(src: u32) -> (r: bool)
    ensures
        r == timer_pending_spec(src),
{
    src & CoreInterrupt::CNTPNSIRQ.mask() != 0
}

/// The pending test reads only the non-secure physical timer's own bit: two
/// pending-source register values that agree on that bit give the same
/// answer, whatever the other eleven sources say.
pub proof fn lemma_pending_depends_only_on_own_bit(a: u32, b: u32)
    requires
        a & CoreInterrupt::CNTPNSIRQ.mask_spec() == b & CoreInterrupt::CNTPNSIRQ.mask_spec(),
    ensures
        timer_pending_spec(a) == timer_pending_spec(b),
{
}

} // verus!
