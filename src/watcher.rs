//! Values read through pointer paths, with their previous observation.
use vstd::prelude::*;

verus! {

/// The two most recent successful observations of a watched value.
#[derive(Clone, Copy, Debug)]
pub struct Pair<T> {
    pub old: T,
    pub current: T,
}

/// The pair that follows `pair` once a refresh has produced `value`: a read
/// shifts `current` into `old` (or fills both on the first read), a failed
/// read leaves the pair as it was.
pub open spec fn next_pair<T>(pair: Option<Pair<T>>, value: Option<T>) -> Option<Pair<T>> {
    match value {
        None => pair,
        Some(v) => Some(
            Pair {
                old: match pair {
                    Some(p) => p.current,
                    None => v,
                },
                current: v,
            },
        ),
    }
}

/// A value of type `T` at the end of a pointer path: read the pointer at
/// `base_address + address_path[0]`, add the next offset to it, and so on; the
/// value lies at the address that the last offset gives.
pub struct Variable<T> {
    pub pair: Option<Pair<T>>,
    pub base_address: u64,
    pub address_path: Vec<u32>,
}

/// A watcher set up at `base` with nothing observed yet.
pub open spec fn fresh<T>(v: Variable<T>, base: u64) -> bool {
    v.pair is None && v.base_address == base && v.address_path.len() > 0
}

/// A watcher after a refresh with `value`: its pair moved on as `next_pair`
/// says, its address unchanged.
pub open spec fn refreshed<T>(before: Variable<T>, after: Variable<T>, value: Option<T>) -> bool {
    &&& after.pair == next_pair(before.pair, value)
    &&& after.base_address == before.base_address
    &&& after.address_path@ == before.address_path@
}

impl<T: Copy> Variable<T> {
    /// A watcher for the value at `address_path` from `base_address`, with
    /// nothing observed yet.
    pub fn new(base_address: u64, address_path: Vec<u32>) -> (r: Self)
        ensures
            r.pair is None,
            r.base_address == base_address,
            r.address_path@ == address_path@,
    {
        Variable { pair: None, base_address, address_path }
    }

    /// The base address as a 32-bit pointer, or `None` where it does not fit.
    pub fn pointer_base(&self) -> (r: Option<u32>)
        ensures
            r == (if self.base_address <= u32::MAX as u64 {
                Some(self.base_address as u32)
            } else {
                None
            }),
    {
        if self.base_address <= u32::MAX as u64 {
            Some(self.base_address as u32)
        } else {
            None
        }
    }

    /// Takes the outcome of one read of the value: `Some` with what was read,
    /// `None` where the read failed. Returns the new pair after a read, and
    /// `None`, with nothing changed, after a failure.
    pub fn update(&mut self, value: Option<T>) -> (r: Option<Pair<T>>)
        ensures
            final(self).pair == next_pair(old(self).pair, value),
            final(self).base_address == old(self).base_address,
            final(self).address_path@ == old(self).address_path@,
            r == (if value is Some {
                final(self).pair
            } else {
                None
            }),
    {
        match value {
            None => None,
            Some(v) => {
                let old_value = match self.pair {
                    Some(p) => p.current,
                    None => v,
                };
                let p = Pair { old: old_value, current: v };
                self.pair = Some(p);
                Some(p)
            },
        }
    }
}

/// The first successful read of a fresh watcher gives a pair whose old and
/// current values are both that read; two successful reads in a row, from
/// any state, leave the first as old and the second as current.
pub proof fn law_successive_reads<T>(prior: Option<Pair<T>>, a: T, b: T)
    ensures
        next_pair(None, Some(a)) == Some(Pair { old: a, current: a }),
        next_pair(next_pair(prior, Some(a)), Some(b)) == Some(Pair { old: a, current: b }),
{
}

/// A failed read never changes the stored pair.
pub proof fn law_failed_read_keeps_pair<T>(pair: Option<Pair<T>>)
    ensures
        next_pair(pair, None) == pair,
{
}

} // verus!
