//! Decision logic of the integrity check monitor (ICM) demo: the four-region
//! interrupt masks, the per-region descriptor settings of its two phases,
//! and the deliberate corruption step that provokes a digest mismatch.
//!
//! The demo drives the peripheral through two phases: first every region
//! hashes its message and the digests are written back and compared in
//! software; then the descriptors are rewritten so the hardware itself
//! compares digests, and one word of each message is corrupted so that every
//! region reports a mismatch.

use vstd::prelude::*;

verus! {

/// The hash algorithm a region descriptor selects.
#[derive(Clone, Copy, Debug, PartialEq, Eq, Structural)]
pub enum Algorithm {
    Sha1,
    Sha224,
    Sha256,
}

/// A set of the four monitored regions, as the hardware reports it: one bit
/// per region in the low four bits.
#[derive(Clone, Copy, Debug, PartialEq, Eq, Structural)]
pub struct RegionMask {
    bits: u8,
}

impl RegionMask {
    /// The raw four-bit vector.
    pub closed spec fn bits(self) -> u8 {
        self.bits
    }

    /// Whether all four regions are in the set.
    pub open spec fn spec_is_all(self) -> bool {
        self.bits() & 0x0f == 0x0f
    }

    /// Whether region `r` is in the set.
    pub open spec fn spec_contains(self, r: u8) -> bool {
        (self.bits() >> r) & 1 == 1
    }

    /// Keeps the low four bits of a raw interrupt status vector.
    pub fn from_bits(raw: u8) -> (m: RegionMask)
        ensures
            m.bits() == raw & 0x0f,
    {
        RegionMask { bits: raw & 0x0f }
    }

    /// Whether every region has raised this interrupt.
    pub fn is_all(&self) -> (b: bool)
        ensures
            b == self.spec_is_all(),
    {
        self.bits & 0x0f == 0x0f
    }

    /// Whether region `r` has raised this interrupt.
    pub fn contains(&self, r: u8) -> (b: bool)
        requires
            r < 4,
        ensures
            b == self.spec_contains(r),
    {
        (self.bits >> r) & 1 == 1
    }
}

/// What the ICM interrupt handler does next.
#[derive(Clone, Copy, Debug, PartialEq, Eq, Structural)]
pub enum IcmStep {
    /// Every digest is computed: compare them, then rewrite the descriptors
    /// for hardware monitoring and corrupt the messages.
    CompareAndRearm,
    /// These regions saw a digest mismatch: report each of them.
    ReportMismatch(RegionMask),
    /// Not a state this handler acts on.
    Idle,
}

/// Picks the handler's next step from the two interrupt status masks: a
/// completed set of hashes starts the comparison phase, otherwise a full
/// set of mismatches is reported, otherwise nothing happens.
pub fn interrupt_decision(rhc: RegionMask, rdm: RegionMask) -> (s: IcmStep)
    ensures
        rhc.spec_is_all() ==> s == IcmStep::CompareAndRearm,
        !rhc.spec_is_all() && rdm.spec_is_all() ==> s == IcmStep::ReportMismatch(rdm),
        !rhc.spec_is_all() && !rdm.spec_is_all() ==> s == IcmStep::Idle,
{
    if rhc.is_all() {
        IcmStep::CompareAndRearm
    } else if rdm.is_all() {
        IcmStep::ReportMismatch(rdm)
    } else {
        IcmStep::Idle
    }
}

/// The algorithm each region monitors with: SHA-1 on the first two regions,
/// SHA-224 on the third, SHA-256 on the fourth.
pub open spec fn spec_region_algorithm(r: int) -> Algorithm {
    if r <= 1 {
        Algorithm::Sha1
    } else if r == 2 {
        Algorithm::Sha224
    } else {
        Algorithm::Sha256
    }
}

/// The settings a region descriptor holds.
#[derive(Clone, Copy, Debug, PartialEq, Eq, Structural)]
pub struct RegionConfig {
    /// The hash algorithm.
    pub algo: Algorithm,
    /// Compare digests in hardware instead of writing them back.
    pub cdwbn: bool,
    /// Loop back to the first descriptor after this region.
    pub wrap: bool,
    /// This region ends the descriptor list.
    pub eom: bool,
    /// Raise the region-hash-completed flag on a bare list end.
    pub rhien: bool,
    /// Suppress the digest-mismatch interrupt.
    pub dmien: bool,
}

/// Picks the algorithm of region `r`.
pub fn region_algorithm(r: usize) -> (a: Algorithm)
    requires
        r < 4,
    ensures
        a == spec_region_algorithm(r as int),
{
    if r <= 1 {
        Algorithm::Sha1
    } else if r == 2 {
        Algorithm::Sha224
    } else {
        Algorithm::Sha256
    }
}

/// The descriptor of region `r` in the first phase: digests are written
/// back to the hash area, and only the last region closes the list.
pub fn hash_phase_config(r: usize) -> (c: RegionConfig)
    requires
        r < 4,
    ensures
        c.algo == spec_region_algorithm(r as int),
        !c.cdwbn,
        !c.wrap,
        c.eom == (r == 3),
        !c.rhien,
        !c.dmien,
{
    RegionConfig {
        algo: region_algorithm(r),
        cdwbn: false,
        wrap: false,
        eom: r == 3,
        rhien: false,
        dmien: false,
    }
}

/// The descriptor of region `r` in the second phase: the hardware compares
/// digests itself, and the last region wraps back to the first so
/// monitoring goes on.
pub fn monitor_phase_config(r: usize) -> (c: RegionConfig)
    requires
        r < 4,
    ensures
        c.algo == spec_region_algorithm(r as int),
        c.cdwbn,
        c.wrap == (r == 3),
        !c.eom,
        !c.rhien,
        !c.dmien,
{
    RegionConfig {
        algo: region_algorithm(r),
        cdwbn: true,
        wrap: r == 3,
        eom: false,
        rhien: false,
        dmien: false,
    }
}

/// Overwrites one word of region `r`'s message — word `3 + r`, so each
/// region is damaged at a different offset — to provoke a digest mismatch.
pub fn corrupt_word(msg: &mut Vec<u32>, r: usize)
    requires
        r < 4,
        old(msg)@.len() >= 4 + r,
    ensures
        final(msg)@.len() == old(msg)@.len(),
        final(msg)@[3 + r] == 0xDEAD_BEEFu32,
        forall|i: int|
            0 <= i < old(msg)@.len() && i != 3 + r ==> final(msg)@[i] == old(msg)@[i],
{
    msg.set(3 + r, 0xDEAD_BEEF);
}

} // verus!
