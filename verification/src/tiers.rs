//! The subscription-tier cache and its refresh cycle.
//!
//! A refresh enumerates the tier rows, fans one external price lookup
//! out per configured plan, assembles a complete snapshot — a tier
//! without a configured plan, or whose lookup failed, carries no price,
//! and the free tier is priced zero by convention — and replaces the
//! shared cache wholesale.  A cycle whose enumeration failed leaves the
//! previous snapshot untouched.

use vstd::prelude::*;

verus! {

/// One row of the `subscription_tiers` relation.
#[derive(Debug)]
pub struct TierRow {
    pub id: i32,
    pub name: String,
    pub stripe_plan: Option<String>,
    pub visit_limit: i32,
}

/// One cached tier: its row, plus the externally sourced monthly price
/// where a lookup has resolved it.
#[derive(Debug)]
pub struct TierInfo {
    pub id: i32,
    pub name: String,
    pub stripe_plan: Option<String>,
    pub visit_limit: i32,
    pub monthly_price: Option<u32>,
}

/// The id of the free tier, priced zero without any lookup.
pub const FREE_TIER_ID: i32 = 0;

/// The price a snapshot entry carries: zero for the free tier, the
/// lookup's answer for a tier with a configured plan, nothing
/// otherwise.
pub open spec fn price_of(row: &TierRow, lookup: Option<u32>) -> Option<u32> {
    if row.id == FREE_TIER_ID {
        Some(0u32)
    } else if row.stripe_plan is None {
        None
    } else {
        lookup
    }
}

/// The snapshot entry a row and its lookup outcome assemble into.
pub open spec fn snapshot_entry(row: &TierRow, lookup: Option<u32>) -> TierInfo {
    TierInfo {
        id: row.id,
        name: row.name,
        stripe_plan: row.stripe_plan,
        visit_limit: row.visit_limit,
        monthly_price: price_of(row, lookup),
    }
}

/// The whole snapshot one cycle assembles: entry `i` depends on row `i`
/// and lookup `i` alone.
pub open spec fn snapshot_spec(rows: Seq<TierRow>, lookups: Seq<Option<u32>>) -> Seq<TierInfo> {
    Seq::new(rows.len(), |i: int| snapshot_entry(&rows[i], lookups[i]))
}

pub(crate) fn clone_plan(p: &Option<String>) -> (r: Option<String>)
    ensures
        r == *p,
{
    match p {
        Some(s) => Some(s.clone()),
        None => None,
    }
}

/// Assembles the full snapshot of one refresh cycle from the
/// enumerated rows and the per-tier lookup outcomes, one slot per row;
/// a failed or absent lookup is `None`.
pub fn build_snapshot(rows: &Vec<TierRow>, lookups: &Vec<Option<u32>>) -> (ts: Vec<TierInfo>)
    requires
        lookups@.len() == rows@.len(),
    ensures
        ts@ == snapshot_spec(rows@, lookups@),
{
    let mut ts: Vec<TierInfo> = Vec::new();
    let n = rows.len();
    let mut i: usize = 0;
    while i < n
        invariant
            i <= n,
            n == rows@.len(),
            lookups@.len() == rows@.len(),
            ts@.len() == i,
            forall|j: int| 0 <= j < i ==> ts@[j] == snapshot_entry(&rows@[j], lookups@[j]),
        decreases n - i,
    {
        let row = &rows[i];
        let lookup = lookups[i];
        let price: Option<u32> = if row.id == FREE_TIER_ID {
            Some(0)
        } else if row.stripe_plan.is_none() {
            None
        } else {
            lookup
        };
        ts.push(
            TierInfo {
                id: row.id,
                name: row.name.clone(),
                stripe_plan: clone_plan(&row.stripe_plan),
                visit_limit: row.visit_limit,
                monthly_price: price,
            },
        );
        i += 1;
    }
    assert(ts@ =~= snapshot_spec(rows@, lookups@));
    ts
}

/// Some tier row carries this id and a configured external plan.
pub open spec fn has_tier_plan(rows: Seq<TierRow>, id: i32) -> bool {
    exists|k: int|
        0 <= k < rows.len() && (#[trigger] rows[k]).id == id && rows[k].stripe_plan is Some
}

/// The first tier row with this id.
pub fn find_tier_row(rows: &Vec<TierRow>, id: i32) -> (r: Option<&TierRow>)
    ensures
        match r {
            Some(row) => exists|k: int|
                0 <= k < rows@.len() && (#[trigger] rows@[k]).id == id && *row == rows@[k],
            None => forall|k: int| 0 <= k < rows@.len() ==> (#[trigger] rows@[k]).id != id,
        },
{
    let n = rows.len();
    let mut i: usize = 0;
    while i < n
        invariant
            i <= n,
            n == rows@.len(),
            forall|j: int| 0 <= j < i ==> (#[trigger] rows@[j]).id != id,
        decreases n - i,
    {
        if rows[i].id == id {
            return Some(&rows[i]);
        }
        i += 1;
    }
    None
}

/// One tier's lookup outcome influences no other entry of the
/// snapshot: two cycles over the same rows whose lookups differ only at
/// `f` assemble snapshots that differ at most at `f`; and where `f`'s
/// own lookup failed (and `f` is not the free tier), its entry carries
/// no price.
pub proof fn lemma_failed_lookup_isolated(
    rows: Seq<TierRow>,
    a: Seq<Option<u32>>,
    b: Seq<Option<u32>>,
    f: int,
)
    requires
        a.len() == rows.len(),
        b.len() == rows.len(),
        forall|i: int| 0 <= i < rows.len() && i != f ==> a[i] == b[i],
    ensures
        forall|i: int|
            0 <= i < rows.len() && i != f ==> snapshot_spec(rows, a)[i] == snapshot_spec(rows, b)[i],
        0 <= f < rows.len() && a[f] is None && rows[f].id != FREE_TIER_ID ==> snapshot_spec(
            rows,
            a,
        )[f].monthly_price is None,
{
}

/// Copies one cached tier.
pub fn clone_tier(t: &TierInfo) -> (r: TierInfo)
    ensures
        r == *t,
{
    TierInfo {
        id: t.id,
        name: t.name.clone(),
        stripe_plan: clone_plan(&t.stripe_plan),
        visit_limit: t.visit_limit,
        monthly_price: t.monthly_price,
    }
}

/// Copies a snapshot, for handing the cache's contents out.
pub fn clone_tiers(ts: &Vec<TierInfo>) -> (r: Vec<TierInfo>)
    ensures
        r@ == ts@,
{
    let mut r: Vec<TierInfo> = Vec::new();
    let n = ts.len();
    let mut i: usize = 0;
    while i < n
        invariant
            i <= n,
            n == ts@.len(),
            r@.len() == i,
            forall|j: int| 0 <= j < i ==> r@[j] == ts@[j],
        decreases n - i,
    {
        r.push(clone_tier(&ts[i]));
        i += 1;
    }
    assert(r@ =~= ts@);
    r
}

/// Every successful lookup's amount lands in the snapshot: a non-free
/// tier with a configured plan whose lookup returned an amount is
/// priced exactly that amount, whatever every other tier's lookup did.
/// (The free tier is priced zero by convention, so it is the one tier
/// a lookup cannot reprice.)
pub proof fn lemma_successful_lookup_lands(
    rows: Seq<TierRow>,
    lookups: Seq<Option<u32>>,
    i: int,
    amount: u32,
)
    requires
        lookups.len() == rows.len(),
        0 <= i < rows.len(),
        rows[i].id != FREE_TIER_ID,
        rows[i].stripe_plan is Some,
        lookups[i] == Some(amount),
    ensures
        snapshot_spec(rows, lookups)[i].monthly_price == Some(amount),
{
}

/// The shared, read-mostly tier cache.  Empty until the first
/// successful refresh; afterwards always one complete snapshot.
#[derive(Debug)]
pub struct TierCache {
    pub tiers: Vec<TierInfo>,
}

/// `k` is the position of the first entry with this tier id.
pub open spec fn tier_at(ts: Seq<TierInfo>, id: i32, k: int) -> bool {
    0 <= k < ts.len() && ts[k].id == id && forall|j: int| 0 <= j < k ==> ts[j].id != id
}

impl TierCache {
    /// The cache before any refresh: no snapshot yet.
    pub fn new() -> (c: TierCache)
        ensures
            c.tiers@.len() == 0,
    {
        TierCache { tiers: Vec::new() }
    }

    /// Commits one refresh cycle.  A cycle that assembled a snapshot
    /// replaces the cache wholesale; one whose enumeration failed
    /// leaves the previous snapshot in place.
    pub fn commit_refresh(&mut self, outcome: Option<Vec<TierInfo>>)
        ensures
            match outcome {
                Some(snapshot) => final(self).tiers == snapshot,
                None => final(self).tiers == old(self).tiers,
            },
    {
        match outcome {
            Some(snapshot) => {
                self.tiers = snapshot;
            },
            None => (),
        }
    }

    /// The first cached entry with this id, if one is cached.
    pub fn find(&self, id: i32) -> (r: Option<&TierInfo>)
        ensures
            match r {
                Some(t) => exists|k: int| tier_at(self.tiers@, id, k) && *t == self.tiers@[k],
                None => forall|j: int| 0 <= j < self.tiers@.len() ==> self.tiers@[j].id != id,
            },
    {
        let n = self.tiers.len();
        let mut i: usize = 0;
        while i < n
            invariant
                i <= n,
                n == self.tiers@.len(),
                forall|j: int| 0 <= j < i ==> self.tiers@[j].id != id,
            decreases n - i,
        {
            if self.tiers[i].id == id {
                assert(tier_at(self.tiers@, id, i as int));
                return Some(&self.tiers[i]);
            }
            i += 1;
        }
        None
    }
}

} // verus!
