//! The invoke-id registry: one shared 8-bit counter that tags each outgoing
//! confirmed request so its response can be matched. Every acquisition reads
//! the current value and advances the counter before anyone else can read
//! it; the counter wraps to zero past 255 (a choice this library makes
//! explicit, since an 8-bit id space cannot do otherwise than repeat after a
//! full cycle).

use vstd::prelude::*;

verus! {

/// The counter value after one acquisition: the successor, wrapping to zero
/// past 255.
pub open spec fn advanced(id: u8) -> u8 {
    if id == 255 {
        0
    } else {
        (id + 1) as u8
    }
}

/// The value observed by the `i`-th acquisition of a registry whose counter
/// starts at `start`.
pub open spec fn nth_invoke_id(start: u8, i: nat) -> u8
    decreases i,
{
    if i == 0 {
        start
    } else {
        advanced(nth_invoke_id(start, (i - 1) as nat))
    }
}

/// The sequence of values observed by `n` acquisitions in order, starting
/// from counter value `start`.
pub open spec fn acquired_values(start: u8, n: nat) -> Seq<u8> {
    Seq::new(n, |i: int| nth_invoke_id(start, i as nat))
}

/// The shared invoke-id counter. Exclusive access during each
/// read-and-advance is what the `&mut` receiver of [`Self::acquire`]
/// demands; a caller that shares the registry across threads must guard it
/// with mutual exclusion so that each acquisition still holds the registry
/// alone.
pub struct InvokeIdRegistry {
    next_id: u8,
}

impl View for InvokeIdRegistry {
    type V = u8;

    /// The value the next acquisition will observe.
    closed spec fn view(&self) -> u8 {
        self.next_id
    }
}

impl InvokeIdRegistry {
    /// A fresh registry; ids start at zero.
    pub fn new() -> (r: Self)
        ensures
            r@ == 0,
    {
        InvokeIdRegistry { next_id: 0 }
    }

    /// Reads the current invoke id and advances the counter, so that no two
    /// acquisitions observe the same value within a counter cycle.
    pub fn acquire(&mut self) -> (r: u8)
        ensures
            r == old(self)@,
            final(self)@ == advanced(old(self)@),
    {
        let id = self.next_id;
        if self.next_id == 255 {
            self.next_id = 0;
        } else {
            self.next_id = self.next_id + 1;
        }
        id
    }
}

/// Closed form of the observed values: within the first full cycle the
/// `i`-th acquisition observes `start + i`, reduced by 256 once it wraps.
pub proof fn lemma_nth_invoke_id_closed_form(start: u8, i: nat)
    requires
        i <= 256,
    ensures
        nth_invoke_id(start, i) == if start + i < 256 {
            start + i
        } else {
            start + i - 256
        },
    decreases i,
{
    if i > 0 {
        lemma_nth_invoke_id_closed_form(start, (i - 1) as nat);
    }
}

/// Invoke-id serialization: `n` acquisitions in sequence observe exactly `n`
/// values, and no value repeats before a full counter cycle of 256
/// acquisitions completes.
pub proof fn lemma_invoke_id_serialization(start: u8, n: nat)
    requires
        n <= 256,
    ensures
        acquired_values(start, n).len() == n,
        forall|i: int, j: int|
            0 <= i < j < n ==> acquired_values(start, n)[i] != acquired_values(start, n)[j],
{
    assert forall|i: int, j: int|
        0 <= i < j < n implies acquired_values(start, n)[i] != acquired_values(start, n)[j] by {
        lemma_nth_invoke_id_closed_form(start, i as nat);
        lemma_nth_invoke_id_closed_form(start, j as nat);
    }
}

} // verus!
