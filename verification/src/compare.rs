//! Word-by-word and byte-by-byte comparison of expected and computed
//! values: the demos print a match line per digest word and assert that a
//! cipher block round-trips.

use vstd::prelude::*;

verus! {

/// Compares each expected digest word with the computed one, giving one
/// flag per expected word.
#[verifier::loop_isolation(false)]
pub fn compare_words(expected: &Vec<u32>, actual: &Vec<u32>) -> (m: Vec<bool>)
    requires
        actual@.len() >= expected@.len(),
    ensures
        m@.len() == expected@.len(),
        forall|i: int| 0 <= i < m@.len() ==> m@[i] == (expected@[i] == actual@[i]),
{
    let mut m: Vec<bool> = Vec::new();
    let mut i: usize = 0;
    while i < expected.len()
        invariant
            i <= expected@.len(),
            m@.len() == i as int,
            forall|j: int| 0 <= j < i as int ==> m@[j] == (expected@[j] == actual@[j]),
        decreases expected@.len() - i,
    {
        m.push(expected[i] == actual[i]);
        i = i + 1;
    }
    m
}

/// Whether two word arrays hold the same values.
#[verifier::loop_isolation(false)]
pub fn words_equal(a: &Vec<u32>, b: &Vec<u32>) -> (r: bool)
    ensures
        r == (a@ == b@),
{
    if a.len() != b.len() {
        return false;
    }
    let mut i: usize = 0;
    while i < a.len()
        invariant
            i <= a@.len(),
            forall|j: int| 0 <= j < i as int ==> a@[j] == b@[j],
        decreases a@.len() - i,
    {
        if a[i] != b[i] {
            return false;
        }
        i = i + 1;
    }
    proof {
        assert(a@ =~= b@);
    }
    true
}

/// Whether two byte arrays hold the same values.
#[verifier::loop_isolation(false)]
pub fn bytes_equal(a: &Vec<u8>, b: &Vec<u8>) -> (r: bool)
    ensures
        r == (a@ == b@),
{
    if a.len() != b.len() {
        return false;
    }
    let mut i: usize = 0;
    while i < a.len()
        invariant
            i <= a@.len(),
            forall|j: int| 0 <= j < i as int ==> a@[j] == b@[j],
        decreases a@.len() - i,
    {
        if a[i] != b[i] {
            return false;
        }
        i = i + 1;
    }
    proof {
        assert(a@ =~= b@);
    }
    true
}

} // verus!
