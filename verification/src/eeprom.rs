//! What the EEPROM console commands do to the emulated EEPROM bytes: a read
//! hands back a clamped range, a write fills that range with the low byte of
//! the count argument.

use crate::parse::Action;
use vstd::prelude::*;

verus! {

/// The first affected index: `start`, clamped to the memory size.
pub open spec fn range_lo(start: usize, len: nat) -> int {
    if start <= len {
        start as int
    } else {
        len as int
    }
}

/// One past the last affected index: `start + count`, clamped to the
/// memory size.
pub open spec fn range_hi(start: usize, count: usize, len: nat) -> int {
    if start + count <= len {
        start + count
    } else {
        len as int
    }
}

/// The byte a write command stores: the low byte of its count argument.
pub open spec fn fill_byte(count: usize) -> u8 {
    (count & 0xff) as u8
}

/// Copies out the bytes at indices `start..start + count`, clamped to the
/// memory size.
#[verifier::loop_isolation(false)]
pub fn read_range(mem: &Vec<u8>, start: usize, count: usize) -> (out: Vec<u8>)
    ensures
        out@ == mem@.subrange(range_lo(start, mem@.len()), range_hi(start, count, mem@.len())),
{
    let lo: usize = if start <= mem.len() {
        start
    } else {
        mem.len()
    };
    let hi: usize = if mem.len() - lo >= count {
        lo + count
    } else {
        mem.len()
    };
    let mut out: Vec<u8> = Vec::new();
    let mut i: usize = lo;
    proof {
        assert(out@ =~= mem@.subrange(lo as int, lo as int));
    }
    while i < hi
        invariant
            lo <= i <= hi,
            out@ == mem@.subrange(lo as int, i as int),
        decreases hi - i,
    {
        out.push(mem[i]);
        proof {
            assert(out@ =~= mem@.subrange(lo as int, i + 1));
        }
        i = i + 1;
    }
    out
}

/// Stores the fill byte at indices `start..start + count`, clamped to the
/// memory size; every other byte keeps its value.
#[verifier::loop_isolation(false)]
pub fn write_range(mem: &mut Vec<u8>, start: usize, count: usize)
    ensures
        final(mem)@.len() == old(mem)@.len(),
        forall|i: int|
            0 <= i < old(mem)@.len() ==> final(mem)@[i] == (if range_lo(start, old(mem)@.len())
                <= i < range_hi(start, count, old(mem)@.len()) {
                fill_byte(count)
            } else {
                old(mem)@[i]
            }),
{
    let lo: usize = if start <= mem.len() {
        start
    } else {
        mem.len()
    };
    let hi: usize = if mem.len() - lo >= count {
        lo + count
    } else {
        mem.len()
    };
    let v: u8 = (count & 0xff) as u8;
    let mut i: usize = lo;
    while i < hi
        invariant
            lo <= i <= hi,
            mem@.len() == old(mem)@.len(),
            forall|j: int|
                0 <= j < mem@.len() ==> mem@[j] == (if lo as int <= j < i as int {
                    fill_byte(count)
                } else {
                    old(mem)@[j]
                }),
        decreases hi - i,
    {
        mem.set(i, v);
        i = i + 1;
    }
}

/// Runs one parsed console command against the EEPROM bytes: a read copies
/// the clamped range out and leaves the memory alone, a write fills it and
/// hands nothing back.
pub fn execute(mem: &mut Vec<u8>, action: Action, start: usize, count: usize) -> (out: Vec<u8>)
    ensures
        action is Read ==> final(mem)@ == old(mem)@ && out@ == old(mem)@.subrange(
            range_lo(start, old(mem)@.len()),
            range_hi(start, count, old(mem)@.len()),
        ),
        action is Write ==> out@ == Seq::<u8>::empty() && final(mem)@.len() == old(mem)@.len()
            && (forall|i: int|
            0 <= i < old(mem)@.len() ==> final(mem)@[i] == (if range_lo(start, old(mem)@.len())
                <= i < range_hi(start, count, old(mem)@.len()) {
                fill_byte(count)
            } else {
                old(mem)@[i]
            })),
{
    match action {
        Action::Read => read_range(mem, start, count),
        Action::Write => {
            write_range(mem, start, count);
            Vec::new()
        },
    }
}

} // verus!
