//! State kept across ticks that belongs to no single address.
use vstd::prelude::*;

verus! {

/// The last non-empty cutscene token seen in this session. It stays while
/// the live read is empty or unreadable, since the rules key off the last
/// meaningful token rather than what can be read right now.
pub struct SessionMemory {
    pub cutscene: Option<String>,
}

impl SessionMemory {
    /// The memory of a session that has just begun: no token seen.
    pub fn new() -> (r: Self)
        ensures
            r.token() == Seq::<char>::empty(),
    {
        SessionMemory { cutscene: None }
    }

    /// The token as the rules see it: empty until one has been stored.
    pub open spec fn token(self) -> Seq<char> {
        match self.cutscene {
            Some(s) => s@,
            None => Seq::empty(),
        }
    }
}

/// The stored token, created empty on first use.
pub fn ensure_cutscene(memory: &mut SessionMemory) -> (r: &mut String)
    ensures
        r@ == old(memory).token(),
        final(memory).cutscene == Some(*final(r)),
{
    memory.cutscene.get_or_insert(String::new())
}

/// A copy of the stored token.
pub fn get_current_cutscene(memory: &mut SessionMemory) -> (r: String)
    ensures
        r@ == old(memory).token(),
        final(memory).token() == old(memory).token(),
{
    ensure_cutscene(memory).clone()
}

/// Replaces the stored token.
pub fn set_current_cutscene(memory: &mut SessionMemory, cutscene: String)
    ensures
        final(memory).token() == cutscene@,
{
    *ensure_cutscene(memory) = cutscene;
}

} // verus!
