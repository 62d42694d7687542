//! The power-source capability: any entity able to answer "voting power of
//! an address on a vault at a height" and "total power of a vault at a
//! height", plus the summation model the aggregate queries are specified
//! with.

use vstd::prelude::*;
use vstd::string::StringExecFns;
use vstd::seq_lib::{commutative_foldr, lemma_fold_right_permutation};

verus! {

/// A backend answering height-indexed power queries for vaults, reached by
/// the vault's identifier. Each implementation carries its own model of
/// what every query reports: `Ok(p)` where it reports power `p`, `Err(d)`
/// where it fails with detail `d`. Height-indexed queries are
/// deterministic, so the model is a function of vault, address and height
/// alone.
pub trait VaultQuerier {
    /// What this backend reports for `address` on `vault` at `height`.
    spec fn spec_voting_power(&self, vault: Seq<char>, address: Seq<char>, height: u64) -> Result<
        u128,
        Seq<char>,
    >;

    /// What `vault` reports as its total at `height`.
    spec fn spec_total_power(&self, vault: Seq<char>, height: u64) -> Result<u128, Seq<char>>;

    fn voting_power(&self, vault: &String, address: &String, height: u64) -> (r: Result<
        u128,
        String,
    >)
        ensures
            match r {
                Ok(p) => self.spec_voting_power(vault@, address@, height) == Ok::<
                    u128,
                    Seq<char>,
                >(p),
                Err(d) => self.spec_voting_power(vault@, address@, height) == Err::<
                    u128,
                    Seq<char>,
                >(d@),
            },
    ;

    fn total_power(&self, vault: &String, height: u64) -> (r: Result<u128, String>)
        ensures
            match r {
                Ok(p) => self.spec_total_power(vault@, height) == Ok::<u128, Seq<char>>(p),
                Err(d) => self.spec_total_power(vault@, height) == Err::<u128, Seq<char>>(d@),
            },
    ;
}

/// What each vault of `vaults` reports for `address` at `height`.
pub open spec fn reported_powers<Q: VaultQuerier>(
    q: Q,
    vaults: Seq<Seq<char>>,
    address: Seq<char>,
    height: u64,
) -> Seq<Result<u128, Seq<char>>> {
    Seq::new(vaults.len(), |i: int| q.spec_voting_power(vaults[i], address, height))
}

/// What each vault of `vaults` reports as its total at `height`.
pub open spec fn reported_totals<Q: VaultQuerier>(
    q: Q,
    vaults: Seq<Seq<char>>,
    height: u64,
) -> Seq<Result<u128, Seq<char>>> {
    Seq::new(vaults.len(), |i: int| q.spec_total_power(vaults[i], height))
}

pub open spec fn power_value(r: Result<u128, Seq<char>>) -> int {
    match r {
        Ok(p) => p as int,
        Err(_) => 0,
    }
}

/// Mathematical sum of the reported powers; a failed report counts as zero
/// (the aggregate queries never return a sum over a failed report anyway).
pub open spec fn sum_powers(s: Seq<Result<u128, Seq<char>>>) -> int
    decreases s.len(),
{
    if s.len() == 0 {
        0
    } else {
        sum_powers(s.drop_last()) + power_value(s.last())
    }
}

/// The saturating u128 form of a non-negative mathematical sum.
pub open spec fn clamp_u128(n: int) -> u128 {
    if n > u128::MAX as int {
        u128::MAX
    } else if n < 0 {
        0
    } else {
        n as u128
    }
}

pub proof fn lemma_sum_powers_nonneg(s: Seq<Result<u128, Seq<char>>>)
    ensures
        sum_powers(s) >= 0,
    decreases s.len(),
{
    if s.len() > 0 {
        lemma_sum_powers_nonneg(s.drop_last());
    }
}

proof fn lemma_sum_powers_as_fold(
    s: Seq<Result<u128, Seq<char>>>,
    f: spec_fn(Result<u128, Seq<char>>, int) -> int,
    b: int,
)
    requires
        forall|x: Result<u128, Seq<char>>, v: int| #[trigger] f(x, v) == v + power_value(x),
    ensures
        s.fold_right(f, b) == b + sum_powers(s),
    decreases s.len(),
{
    if s.len() > 0 {
        lemma_sum_powers_as_fold(s.drop_last(), f, f(s.last(), b));
    }
}

/// The aggregate is order-independent under addition: two reports that are
/// rearrangements of one another sum to the same power.
pub proof fn lemma_sum_powers_order_independent(
    s1: Seq<Result<u128, Seq<char>>>,
    s2: Seq<Result<u128, Seq<char>>>,
)
    requires
        s1.to_multiset() == s2.to_multiset(),
    ensures
        sum_powers(s1) == sum_powers(s2),
{
    let f = |x: Result<u128, Seq<char>>, v: int| v + power_value(x);
    lemma_sum_powers_as_fold(s1, f, 0);
    lemma_sum_powers_as_fold(s2, f, 0);
    assert(commutative_foldr(f));
    lemma_fold_right_permutation(s1, s2, f, 0);
}

proof fn lemma_sum_totals_as_fold<Q: VaultQuerier>(
    q: Q,
    vaults: Seq<Seq<char>>,
    f: spec_fn(Seq<char>, int) -> int,
    height: u64,
    b: int,
)
    requires
        forall|vault: Seq<char>, v: int| #[trigger] f(vault, v) == v + power_value(
            q.spec_total_power(vault, height),
        ),
    ensures
        vaults.fold_right(f, b) == b + sum_powers(reported_totals(q, vaults, height)),
    decreases vaults.len(),
{
    if vaults.len() > 0 {
        assert(reported_totals(q, vaults.drop_last(), height) =~= reported_totals(
            q,
            vaults,
            height,
        ).drop_last());
        lemma_sum_totals_as_fold(q, vaults.drop_last(), f, height, f(vaults.last(), b));
    }
}

/// Order independence at the source level: two registries holding the same
/// vaults, in whatever order, report the same total at any height.
pub proof fn lemma_total_power_vault_order_independent<Q: VaultQuerier>(
    q: Q,
    vaults1: Seq<Seq<char>>,
    vaults2: Seq<Seq<char>>,
    height: u64,
)
    requires
        vaults1.to_multiset() == vaults2.to_multiset(),
    ensures
        sum_powers(reported_totals(q, vaults1, height)) == sum_powers(
            reported_totals(q, vaults2, height),
        ),
{
    let f = |vault: Seq<char>, v: int| v + power_value(q.spec_total_power(vault, height));
    lemma_sum_totals_as_fold(q, vaults1, f, height, 0);
    lemma_sum_totals_as_fold(q, vaults2, f, height, 0);
    assert(commutative_foldr(f));
    lemma_fold_right_permutation(vaults1, vaults2, f, 0);
}

/// One row of a power table: what `vault` reports for `address` at `height`.
#[derive(Debug, PartialEq, Eq)]
pub struct PowerEntry {
    pub vault: String,
    pub address: String,
    pub height: u64,
    pub power: u128,
}

/// One row of a total-power table: what `vault` reports in total at `height`.
#[derive(Debug, PartialEq, Eq)]
pub struct TotalEntry {
    pub vault: String,
    pub height: u64,
    pub power: u128,
}

/// A table-backed power source: it reports exactly what its rows hold, and
/// fails every query no row answers. The first matching row wins.
#[derive(Debug, PartialEq, Eq)]
pub struct PowerTable {
    pub powers: Vec<PowerEntry>,
    pub totals: Vec<TotalEntry>,
}

/// The failure detail a table reports for a query no row answers.
pub open spec fn spec_no_row_text() -> Seq<char> {
    "no matching table row"@
}

pub open spec fn lookup_power(
    rows: Seq<PowerEntry>,
    vault: Seq<char>,
    address: Seq<char>,
    height: u64,
) -> Option<u128>
    decreases rows.len(),
{
    if rows.len() == 0 {
        None
    } else if rows[0].vault@ == vault && rows[0].address@ == address && rows[0].height == height {
        Some(rows[0].power)
    } else {
        lookup_power(rows.drop_first(), vault, address, height)
    }
}

pub open spec fn lookup_total(rows: Seq<TotalEntry>, vault: Seq<char>, height: u64) -> Option<u128>
    decreases rows.len(),
{
    if rows.len() == 0 {
        None
    } else if rows[0].vault@ == vault && rows[0].height == height {
        Some(rows[0].power)
    } else {
        lookup_total(rows.drop_first(), vault, height)
    }
}

proof fn lemma_lookup_power_prefix(
    rows: Seq<PowerEntry>,
    i: int,
    vault: Seq<char>,
    address: Seq<char>,
    height: u64,
)
    requires
        0 <= i <= rows.len(),
        forall|j: int| 0 <= j < i ==> !(rows[j].vault@ == vault && rows[j].address@ == address
            && rows[j].height == height),
    ensures
        lookup_power(rows, vault, address, height) == lookup_power(
            rows.subrange(i, rows.len() as int),
            vault,
            address,
            height,
        ),
    decreases i,
{
    if i == 0 {
        assert(rows.subrange(0, rows.len() as int) =~= rows);
    } else {
        assert(rows.drop_first() =~= rows.subrange(1, rows.len() as int));
        lemma_lookup_power_prefix(rows.subrange(1, rows.len() as int), i - 1, vault, address, height);
        assert(rows.subrange(1, rows.len() as int).subrange(i - 1, rows.len() - 1) =~= rows.subrange(
            i,
            rows.len() as int,
        ));
    }
}

proof fn lemma_lookup_total_prefix(rows: Seq<TotalEntry>, i: int, vault: Seq<char>, height: u64)
    requires
        0 <= i <= rows.len(),
        forall|j: int| 0 <= j < i ==> !(rows[j].vault@ == vault && rows[j].height == height),
    ensures
        lookup_total(rows, vault, height) == lookup_total(
            rows.subrange(i, rows.len() as int),
            vault,
            height,
        ),
    decreases i,
{
    if i == 0 {
        assert(rows.subrange(0, rows.len() as int) =~= rows);
    } else {
        assert(rows.drop_first() =~= rows.subrange(1, rows.len() as int));
        lemma_lookup_total_prefix(rows.subrange(1, rows.len() as int), i - 1, vault, height);
        assert(rows.subrange(1, rows.len() as int).subrange(i - 1, rows.len() - 1) =~= rows.subrange(
            i,
            rows.len() as int,
        ));
    }
}

impl VaultQuerier for PowerTable {
    open spec fn spec_voting_power(&self, vault: Seq<char>, address: Seq<char>, height: u64) -> Result<
        u128,
        Seq<char>,
    > {
        match lookup_power(self.powers@, vault, address, height) {
            Some(p) => Ok(p),
            None => Err(spec_no_row_text()),
        }
    }

    open spec fn spec_total_power(&self, vault: Seq<char>, height: u64) -> Result<
        u128,
        Seq<char>,
    > {
        match lookup_total(self.totals@, vault, height) {
            Some(p) => Ok(p),
            None => Err(spec_no_row_text()),
        }
    }

    fn voting_power(&self, vault: &String, address: &String, height: u64) -> (r: Result<
        u128,
        String,
    >) {
        let n = self.powers.len();
        let mut i: usize = 0;
        while i < n
            invariant
                i <= n,
                n == self.powers@.len(),
                forall|j: int| 0 <= j < i ==> !(self.powers@[j].vault@ == vault@
                    && self.powers@[j].address@ == address@ && self.powers@[j].height == height),
            decreases n - i,
        {
            let row = &self.powers[i];
            if row.vault == *vault && row.address == *address && row.height == height {
                proof {
                    lemma_lookup_power_prefix(self.powers@, i as int, vault@, address@, height);
                    let tail = self.powers@.subrange(i as int, n as int);
                    assert(tail[0] == self.powers@[i as int]);
                    assert(lookup_power(tail, vault@, address@, height) == Some(tail[0].power));
                }
                return Ok(row.power);
            }
            i += 1;
        }
        proof {
            lemma_lookup_power_prefix(self.powers@, n as int, vault@, address@, height);
            let tail = self.powers@.subrange(n as int, n as int);
            assert(tail.len() == 0);
            assert(lookup_power(tail, vault@, address@, height) is None);
        }
        Err(String::from_str("no matching table row"))
    }

    fn total_power(&self, vault: &String, height: u64) -> (r: Result<u128, String>) {
        let n = self.totals.len();
        let mut i: usize = 0;
        while i < n
            invariant
                i <= n,
                n == self.totals@.len(),
                forall|j: int| 0 <= j < i ==> !(self.totals@[j].vault@ == vault@
                    && self.totals@[j].height == height),
            decreases n - i,
        {
            let row = &self.totals[i];
            if row.vault == *vault && row.height == height {
                proof {
                    lemma_lookup_total_prefix(self.totals@, i as int, vault@, height);
                    let tail = self.totals@.subrange(i as int, n as int);
                    assert(tail[0] == self.totals@[i as int]);
                    assert(lookup_total(tail, vault@, height) == Some(tail[0].power));
                }
                return Ok(row.power);
            }
            i += 1;
        }
        proof {
            lemma_lookup_total_prefix(self.totals@, n as int, vault@, height);
            let tail = self.totals@.subrange(n as int, n as int);
            assert(tail.len() == 0);
            assert(lookup_total(tail, vault@, height) is None);
        }
        Err(String::from_str("no matching table row"))
    }
}

} // verus!
