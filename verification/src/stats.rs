//! What the load generator collects while it fires requests at the gateway.
use vstd::prelude::*;

use hdrhistogram::Histogram;
use vstd::multiset::Multiset;

verus! {

/// A latency histogram of hdrhistogram, counting `u64` samples.
#[verifier::external_body]
pub struct LatencyHistogram {
    inner: Histogram<u64>,
}

/// The samples a histogram has recorded.
pub uninterp spec fn recorded(h: LatencyHistogram) -> Multiset<u64>;

/// The highest sample value a histogram was made to track.
pub uninterp spec fn highest_trackable(h: LatencyHistogram) -> u64;

/// The lowest sample value a histogram was made to tell apart from zero.
pub uninterp spec fn lowest_discernible(h: LatencyHistogram) -> u64;

/// The significant decimal figures a histogram was made to keep.
pub uninterp spec fn significant_figures(h: LatencyHistogram) -> u8;

/// Calls `Histogram::<u64>::new_with_bounds` of hdrhistogram. Claims what its
/// source shows: it fails where `low` is 0 or above `u64::MAX / 2`, where
/// `high` is below `2 * low`, or where `sigfig` is above 5; with `low` at 1,
/// `high` at least 2 and `sigfig` at most 5 it succeeds; a histogram it makes
/// has recorded nothing, tells values from `low` up to `high` apart from
/// zero, and keeps `sigfig` significant figures. Its other failures
/// (bucket magnitudes that do not fit) are left unsaid.
#[verifier::external_body]
fn histogram_with_bounds(low: u64, high: u64, sigfig: u8) -> (r: Option<LatencyHistogram>)
    ensures
        low < 1 || low > u64::MAX / 2 || high < 2 * low || sigfig > 5 ==> r is None,
        low == 1 && high >= 2 && sigfig <= 5 ==> r is Some,
        r matches Some(h) ==> recorded(h) == Multiset::<u64>::empty() && highest_trackable(h) == high
            && lowest_discernible(h) == low && significant_figures(h) == sigfig,
{
    match Histogram::<u64>::new_with_bounds(low, high, sigfig) {
        Ok(inner) => Some(LatencyHistogram { inner }),
        Err(_) => None,
    }
}

/// The smallest latency the histograms tell apart from zero, in microseconds.
pub const LOWEST_MICROS: u64 = 1;

/// The largest latency the histograms track, in microseconds (60 s).
pub const HIGHEST_MICROS: u64 = 60_000_000;

/// Significant figures the histograms keep.
pub const SIGNIFICANT_FIGURES: u8 = 3;

/// Everything the load generator's workers collect.
pub struct Stats {
    /// Time to first byte, in microseconds.
    pub ttft: LatencyHistogram,
    /// Time to last byte, in microseconds.
    pub e2e: LatencyHistogram,
    pub ok: u64,
    pub failed: u64,
}

impl Stats {
    /// Empty statistics: both histograms cover 1 µs to 60 s with three
    /// significant figures, and nothing is counted yet.
    pub fn new() -> (s: Stats)
        ensures
            recorded(s.ttft) == Multiset::<u64>::empty(),
            recorded(s.e2e) == Multiset::<u64>::empty(),
            highest_trackable(s.ttft) == HIGHEST_MICROS,
            highest_trackable(s.e2e) == HIGHEST_MICROS,
            lowest_discernible(s.ttft) == LOWEST_MICROS,
            lowest_discernible(s.e2e) == LOWEST_MICROS,
            significant_figures(s.ttft) == SIGNIFICANT_FIGURES,
            significant_figures(s.e2e) == SIGNIFICANT_FIGURES,
            lowest_discernible(s.ttft) == 1 && lowest_discernible(s.e2e) == 1,
            highest_trackable(s.ttft) == 60_000_000 && highest_trackable(s.e2e) == 60_000_000,
            significant_figures(s.ttft) == 3 && significant_figures(s.e2e) == 3,
            s.ok == 0,
            s.failed == 0,
    {
        let ttft = histogram_with_bounds(LOWEST_MICROS, HIGHEST_MICROS, SIGNIFICANT_FIGURES);
        let e2e = histogram_with_bounds(LOWEST_MICROS, HIGHEST_MICROS, SIGNIFICANT_FIGURES);
        Stats { ttft: ttft.unwrap(), e2e: e2e.unwrap(), ok: 0, failed: 0 }
    }
}

} // verus!
