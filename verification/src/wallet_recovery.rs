//! The decisions of wallet module recovery: which deposit address index to
//! check next, what a check changes, when the scan stops, and whether a
//! recovery starts at all.
//!
//! The scan checks deposit indices in order, remembering the last index
//! that had on-chain deposits. It stops once [`RECOVERY_GAP_LIMIT`]
//! consecutive indices after the last used one have been checked without
//! finding a deposit.
use vstd::prelude::*;

verus! {

/// How many consecutive unused indices end the scan.
pub const RECOVERY_GAP_LIMIT: u64 = 100;

/// Wallet module recovery state persisted in the database.
///
/// The last used index never exceeds the next index to check.
#[derive(Clone, Copy, Debug, PartialEq, Eq, Structural)]
pub struct WalletRecoveryState {
    last_used_idx: u64,
    next_to_check_idx: u64,
}

/// The wallet module's backup; it carries no data.
#[derive(Clone, Copy, Debug, PartialEq, Eq, Structural)]
pub struct WalletBackup;

impl View for WalletRecoveryState {
    /// `(last used index, next index to check)`.
    type V = (u64, u64);

    closed spec fn view(&self) -> (u64, u64) {
        (self.last_used_idx, self.next_to_check_idx)
    }
}

/// The number of indices checked since the last used one.
pub open spec fn unused_gap(v: (u64, u64)) -> int {
    v.1 - v.0
}

/// Whether the scan goes on from `v`.
pub open spec fn gap_under_limit(v: (u64, u64)) -> bool {
    unused_gap(v) < RECOVERY_GAP_LIMIT
}

/// The scan position after checking index `v.1`: that index becomes the
/// last used one when a deposit was found there, and the next index moves
/// on by one.
pub open spec fn scan_step(v: (u64, u64), deposit_found: bool) -> (u64, u64) {
    (if deposit_found { v.1 } else { v.0 }, (v.1 + 1) as u64)
}

/// The scan position after `k` checks in a row that found nothing.
pub open spec fn scan_misses(v: (u64, u64), k: nat) -> (u64, u64)
    decreases k,
{
    if k == 0 {
        v
    } else {
        scan_step(scan_misses(v, (k - 1) as nat), false)
    }
}

impl WalletRecoveryState {
    #[verifier::type_invariant]
    spec fn indices_ordered(self) -> bool {
        self.last_used_idx <= self.next_to_check_idx
    }

    /// A fresh recovery state: nothing used, index 0 checked next.
    pub fn new() -> (s: Self)
        ensures
            s@ == (0u64, 0u64),
    {
        WalletRecoveryState { last_used_idx: 0, next_to_check_idx: 0 }
    }

    /// Rebuilds a state from its two indices; `None` when the last used
    /// index is past the next index to check.
    pub fn from_indices(last_used_idx: u64, next_to_check_idx: u64) -> (r: Option<Self>)
        ensures
            r is Some <==> last_used_idx <= next_to_check_idx,
            r matches Some(s) ==> s@ == (last_used_idx, next_to_check_idx),
    {
        if last_used_idx <= next_to_check_idx {
            Some(WalletRecoveryState { last_used_idx, next_to_check_idx })
        } else {
            None
        }
    }

    /// The last index at which a deposit was found.
    pub fn last_used_idx(&self) -> (r: u64)
        ensures
            r == self@.0,
    {
        self.last_used_idx
    }

    /// The next index to check.
    pub fn next_to_check_idx(&self) -> (r: u64)
        ensures
            r == self@.1,
    {
        self.next_to_check_idx
    }

    /// Whether fewer than [`RECOVERY_GAP_LIMIT`] indices have been checked
    /// since the last used one, so that the scan goes on.
    pub fn unused_gap_under_limit(&self) -> (r: bool)
        ensures
            self@.0 <= self@.1,
            r == gap_under_limit(self@),
    {
        proof {
            use_type_invariant(self);
        }
        (self.next_to_check_idx - self.last_used_idx) < RECOVERY_GAP_LIMIT
    }

    /// Records the outcome of checking the next index for on-chain
    /// deposits.
    pub fn record_checked_index(&mut self, deposit_found: bool)
        requires
            old(self)@.1 < u64::MAX,
        ensures
            final(self)@ == scan_step(old(self)@, deposit_found),
    {
        proof {
            use_type_invariant(&*self);
        }
        let checked = self.next_to_check_idx;
        if deposit_found {
            self.last_used_idx = checked;
        }
        self.next_to_check_idx = checked + 1;
    }
}

impl Default for WalletRecoveryState {
    fn default() -> (s: Self)
        ensures
            s@ == (0u64, 0u64),
    {
        WalletRecoveryState::new()
    }
}

/// The state a recovery starts from, given what the database holds: `None`
/// when recovery was already finalized (nothing is left to do), else the
/// stored state, or a fresh one when none is stored.
pub fn recovery_start_state(finalized: Option<bool>, stored: Option<WalletRecoveryState>) -> (r:
    Option<WalletRecoveryState>)
    ensures
        finalized == Some(true) ==> r is None,
        finalized != Some(true) ==> r is Some,
        r matches Some(s) ==> s@ == (match stored {
            Some(t) => t@,
            None => (0u64, 0u64),
        }),
{
    let already_finalized = match finalized {
        Some(f) => f,
        None => false,
    };
    if already_finalized {
        return None;
    }
    match stored {
        Some(s) => Some(s),
        None => Some(WalletRecoveryState::new()),
    }
}

/// One check keeps the last used index at or below the next index, and
/// either restarts the unused gap at one (a deposit was found) or widens it
/// by one (none was).
pub proof fn law_scan_step_gap(v: (u64, u64), deposit_found: bool)
    requires
        v.0 <= v.1 < u64::MAX,
    ensures
        scan_step(v, deposit_found).0 <= scan_step(v, deposit_found).1,
        deposit_found ==> unused_gap(scan_step(v, deposit_found)) == 1,
        !deposit_found ==> unused_gap(scan_step(v, deposit_found)) == unused_gap(v) + 1,
{
}

/// After `k` checks in a row that found nothing, the unused gap has grown
/// by `k`.
pub proof fn law_misses_widen_gap(v: (u64, u64), k: nat)
    requires
        v.0 <= v.1,
        v.1 + k <= u64::MAX,
    ensures
        scan_misses(v, k).0 == v.0,
        scan_misses(v, k).1 == v.1 + k,
        unused_gap(scan_misses(v, k)) == unused_gap(v) + k,
    decreases k,
{
    if k > 0 {
        law_misses_widen_gap(v, (k - 1) as nat);
    }
}

/// The scan stops: from any position, it ends once the checks in a row that
/// found nothing fill the gap up to [`RECOVERY_GAP_LIMIT`]; in particular
/// after at most that many of them.
pub proof fn law_scan_stops_after_gap_limit_misses(v: (u64, u64), k: nat)
    requires
        v.0 <= v.1,
        v.1 + k <= u64::MAX,
        unused_gap(v) + k >= RECOVERY_GAP_LIMIT,
    ensures
        !gap_under_limit(scan_misses(v, k)),
{
    law_misses_widen_gap(v, k);
}

/// The scan position after the checks whose outcomes are `outcomes`, in
/// order (`true`: a deposit was found at the checked index).
pub open spec fn scan_after(v: (u64, u64), outcomes: Seq<bool>) -> (u64, u64)
    decreases outcomes.len(),
{
    if outcomes.len() == 0 {
        v
    } else {
        scan_step(scan_after(v, outcomes.drop_last()), outcomes.last())
    }
}

/// The last used index after the checks `outcomes` from `v`: the index of
/// the last check that found a deposit (the checks ask `v.1`, `v.1 + 1`,
/// ...), or `v.0` when none did.
pub open spec fn last_found(v: (u64, u64), outcomes: Seq<bool>) -> int
    decreases outcomes.len(),
{
    if outcomes.len() == 0 {
        v.0 as int
    } else if outcomes.last() {
        v.1 + outcomes.len() - 1
    } else {
        last_found(v, outcomes.drop_last())
    }
}

/// A scan from `v` made the checks `outcomes`: before each of them the gap
/// to the last used index was under the limit.
pub open spec fn scan_ran(v: (u64, u64), outcomes: Seq<bool>) -> bool {
    forall|k: int|
        0 <= k < outcomes.len() ==> #[trigger] gap_under_limit(scan_after(v, outcomes.take(k)))
}

proof fn lemma_scan_after_position(v: (u64, u64), outcomes: Seq<bool>)
    requires
        v.0 <= v.1,
        v.1 + outcomes.len() <= u64::MAX,
    ensures
        scan_after(v, outcomes).0 == last_found(v, outcomes),
        scan_after(v, outcomes).1 == v.1 + outcomes.len(),
        v.0 <= last_found(v, outcomes) <= v.1 + outcomes.len(),
        outcomes.len() > 0 ==> last_found(v, outcomes) < v.1 + outcomes.len(),
    decreases outcomes.len(),
{
    if outcomes.len() > 0 {
        lemma_scan_after_position(v, outcomes.drop_last());
    }
}

/// Over a whole scan, the checks ask the indices `v.1`, `v.1 + 1`, ... in
/// strictly increasing order, each once; each index is asked only while it
/// lies less than [`RECOVERY_GAP_LIMIT`] past the last index found used
/// before it (or `v.0`); and the scan ends with the last found index as the
/// last used one and the index after the last asked one as the next.
///
/// The bound `v.1 + outcomes.len() <= u64::MAX` leaves out only scans whose
/// last check would move the next index past `u64::MAX`, where the step
/// itself overflows.
pub proof fn law_scan_asks_increasing_indices_within_gap(v: (u64, u64), outcomes: Seq<bool>)
    requires
        v.0 <= v.1,
        v.1 + outcomes.len() <= u64::MAX,
        scan_ran(v, outcomes),
    ensures
        forall|k: int|
            0 <= k < outcomes.len() ==> #[trigger] scan_after(v, outcomes.take(k)).1 == v.1 + k,
        forall|k: int|
            0 <= k < outcomes.len() ==> v.1 + k - #[trigger] last_found(v, outcomes.take(k))
                < RECOVERY_GAP_LIMIT,
        scan_after(v, outcomes).0 == last_found(v, outcomes),
        scan_after(v, outcomes).1 == v.1 + outcomes.len(),
{
    lemma_scan_after_position(v, outcomes);
    assert forall|k: int| 0 <= k < outcomes.len() implies #[trigger] scan_after(
        v,
        outcomes.take(k),
    ).1 == v.1 + k by {
        lemma_scan_after_position(v, outcomes.take(k));
    }
    assert forall|k: int| 0 <= k < outcomes.len() implies v.1 + k - #[trigger] last_found(
        v,
        outcomes.take(k),
    ) < RECOVERY_GAP_LIMIT by {
        lemma_scan_after_position(v, outcomes.take(k));
        assert(gap_under_limit(scan_after(v, outcomes.take(k))));
    }
}

/// The scan goes on exactly while fewer than 100 indices have been checked
/// since the last used one: with a gap of 99 or less it checks the next
/// index, with a gap of 100 or more it stops.
pub proof fn law_scan_continues_iff_gap_below_limit(v: (u64, u64))
    requires
        v.0 <= v.1,
    ensures
        RECOVERY_GAP_LIMIT == 100,
        gap_under_limit(v) <==> v.1 - v.0 < 100,
        gap_under_limit(v) <==> v.1 < v.0 + 100,
{
}

/// One check moves the next index on by exactly one, and makes the checked
/// index the last used one exactly when a deposit was found there.
pub proof fn law_check_moves_on_by_one(v: (u64, u64), deposit_found: bool)
    requires
        v.0 <= v.1 < u64::MAX,
    ensures
        scan_step(v, deposit_found).1 == v.1 + 1,
        deposit_found ==> scan_step(v, deposit_found).0 == v.1,
        !deposit_found ==> scan_step(v, deposit_found).0 == v.0,
{
}

} // verus!
