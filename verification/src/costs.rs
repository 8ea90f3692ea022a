//! Budget-exhaustion signal reported by the resource-accounting
//! collaborator. Parsing observes these signals and folds them into its own
//! failure taxonomy; it never mutates the counters behind them.

use vstd::prelude::*;

verus! {

/// The three shapes of budget exhaustion: the cumulative cost computation
/// left the representable range, the cost budget ran out, or the memory
/// budget ran out. The two exceeded shapes carry the balance that was
/// available and the amount that was used.
#[derive(Debug, Clone, Copy, PartialEq, Eq)]
pub enum CostErrors {
    CostOverflow,
    CostBalanceExceeded(u64, u64),
    MemoryBalanceExceeded(u64, u64),
}

} // verus!
