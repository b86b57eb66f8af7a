//! Streaming replies are forwarded untouched; the gateway only watches for
//! the first chunk, whose arrival time is the time to first token.
use vstd::prelude::*;

verus! {

/// Remembers whether a stream has produced its first chunk yet.
pub struct FirstChunkWatch {
    seen_first: bool,
}

impl View for FirstChunkWatch {
    type V = bool;

    /// Whether the first chunk has been seen.
    closed spec fn view(&self) -> bool {
        self.seen_first
    }
}

/// How many of `n` further chunks are reported as the first one, starting
/// from whether the first chunk was already seen.
pub open spec fn firsts_reported(seen: bool, n: nat) -> nat
    decreases n,
{
    if n == 0 {
        0
    } else {
        (if seen { 0nat } else { 1nat }) + firsts_reported(true, (n - 1) as nat)
    }
}

impl FirstChunkWatch {
    /// A watch over a stream that has produced nothing yet.
    pub fn new() -> (w: FirstChunkWatch)
        ensures
            !w@,
    {
        FirstChunkWatch { seen_first: false }
    }

    /// Records that a chunk went by; says whether it was the first.
    pub fn observe(&mut self) -> (first: bool)
        ensures
            first == !old(self)@,
            final(self)@,
    {
        let first = !self.seen_first;
        self.seen_first = true;
        first
    }
}

/// Time to first token is recorded once per stream: of the chunks of a
/// stream that produces any, exactly one is reported as the first.
pub proof fn lemma_first_reported_once(n: nat)
    ensures
        firsts_reported(false, n) == (if n > 0 { 1nat } else { 0nat }),
{
    if n > 0 {
        lemma_seen_reports_none((n - 1) as nat);
    }
}

/// Once the first chunk has been seen, no later chunk is reported as first.
pub proof fn lemma_seen_reports_none(n: nat)
    ensures
        firsts_reported(true, n) == 0,
    decreases n,
{
    if n > 0 {
        lemma_seen_reports_none((n - 1) as nat);
    }
}

} // verus!
