//! The self-refreshing volatility surface: implied volatilities keyed by
//! (expiry label, strike, side), with an expiry index from labels to UTC
//! timestamps. A refresh replaces both together; a failed refresh leaves the
//! previous snapshot untouched.
//!
//! The transport that polls the exchange lives outside the library and hands
//! in each poll's outcome as a `Result`; this module owns everything from
//! there on: parsing, unit conversion and the atomic snapshot swap.

use vstd::prelude::*;
use vstd::string::StrSliceExecFns;
use vstd::string::StringExecFns;

use crate::errors::ApiError;
use crate::instrument::{parse_expiry_to_timestamp, parse_instrument_name, spec_expiry_label_ms,
    spec_expiry_label_ok, spec_parse_instrument};
use crate::side::OptionSide;
use crate::text::{i64_grammar_ok, parse_i64, spec_parse_i64, str_eq};

verus! {

/// One point of the surface: the implied volatility (decimal fraction in
/// millionths) of one (expiry label, strike, side).
pub struct VolPoint {
    pub expiry: String,
    pub strike_cents: u64,
    pub side: OptionSide,
    pub vol_e6: u64,
}

/// One entry of the expiry index.
pub struct ExpiryEntry {
    pub label: String,
    pub timestamp_ms: i64,
}

/// One row of the upstream book summary: an instrument identifier and its
/// mark implied volatility as a percentage in millionths (35.16% is
/// 35_160_000).
pub struct SummaryRow {
    pub instrument_name: String,
    pub mark_iv_pct_e6: u64,
}

/// The volatility surface cache.
pub struct IvOracle {
    pub api_url: String,
    pub points: Vec<VolPoint>,
    pub expiries: Vec<ExpiryEntry>,
}

/// First-match lookup of a volatility point.
pub open spec fn spec_find_vol(
    points: Seq<VolPoint>,
    expiry: Seq<char>,
    strike_cents: u64,
    side: OptionSide,
) -> Option<u64>
    decreases points.len(),
{
    if points.len() == 0 {
        None
    } else if points[0].expiry@ == expiry && points[0].strike_cents == strike_cents
        && points[0].side == side {
        Some(points[0].vol_e6)
    } else {
        spec_find_vol(points.drop_first(), expiry, strike_cents, side)
    }
}

/// First-match lookup of a strike and side under any expiry.
pub open spec fn spec_find_vol_any_expiry(
    points: Seq<VolPoint>,
    strike_cents: u64,
    side: OptionSide,
) -> Option<u64>
    decreases points.len(),
{
    if points.len() == 0 {
        None
    } else if points[0].strike_cents == strike_cents && points[0].side == side {
        Some(points[0].vol_e6)
    } else {
        spec_find_vol_any_expiry(points.drop_first(), strike_cents, side)
    }
}

/// First-match lookup in the expiry index.
pub open spec fn spec_find_expiry(entries: Seq<ExpiryEntry>, label: Seq<char>) -> Option<i64>
    decreases entries.len(),
{
    if entries.len() == 0 {
        None
    } else if entries[0].label@ == label {
        Some(entries[0].timestamp_ms)
    } else {
        spec_find_expiry(entries.drop_first(), label)
    }
}

/// The volatility that a feed gives a key, with later rows overriding
/// earlier ones, already divided by 100 into a decimal fraction: what the
/// surface holds after a successful refresh on `rows`. Rows from `from` on.
pub open spec fn spec_snapshot_vol(
    rows: Seq<SummaryRow>,
    from: int,
    expiry: Seq<char>,
    strike_cents: u64,
    side: OptionSide,
) -> Option<u64>
    decreases rows.len() - from,
{
    if from < 0 || from >= rows.len() {
        None
    } else if spec_snapshot_vol(rows, from + 1, expiry, strike_cents, side) is Some {
        spec_snapshot_vol(rows, from + 1, expiry, strike_cents, side)
    } else {
        let p = spec_parse_instrument(rows[from].instrument_name@);
        if p is Some && p->Some_0.0 == expiry && p->Some_0.1 == strike_cents && p->Some_0.2
            == side {
            Some(rows[from].mark_iv_pct_e6 / 100)
        } else {
            None
        }
    }
}

/// Whether some row at or after `from` parses to an instrument with this
/// expiry label.
pub open spec fn spec_rows_have_label(rows: Seq<SummaryRow>, from: int, label: Seq<char>) -> bool {
    exists|j: int|
        from <= j < rows.len() && #[trigger] spec_parse_instrument(rows[j].instrument_name@)
            is Some && spec_parse_instrument(rows[j].instrument_name@)->Some_0.0 == label
}

/// What the expiry index maps a label to after a successful refresh on
/// `rows`: its parsed timestamp, when some row carries the label and the
/// label is a well-formed date.
pub open spec fn spec_snapshot_expiry(rows: Seq<SummaryRow>, label: Seq<char>) -> Option<i64> {
    if spec_rows_have_label(rows, 0, label) && spec_expiry_label_ok(label) {
        Some(spec_expiry_label_ms(label) as i64)
    } else {
        None
    }
}

pub open spec fn spec_abs(x: int) -> int {
    if x < 0 {
        -x
    } else {
        x
    }
}

/// Index of the expiry nearest to `target` by absolute difference; on ties
/// the earliest-listed entry wins. -1 on an empty index.
pub open spec fn spec_nearest_idx(entries: Seq<ExpiryEntry>, target: int) -> int
    decreases entries.len(),
{
    if entries.len() == 0 {
        -1
    } else {
        let prev = spec_nearest_idx(entries.drop_last(), target);
        if prev == -1 {
            0
        } else if spec_abs(entries.last().timestamp_ms - target) < spec_abs(
            entries[prev].timestamp_ms - target,
        ) {
            entries.len() - 1
        } else {
            prev
        }
    }
}

/// The nearest index is in range, minimizes the distance, and is the first
/// index to attain it.
pub proof fn lemma_nearest_idx_minimal(entries: Seq<ExpiryEntry>, target: int)
    requires
        entries.len() > 0,
    ensures
        0 <= spec_nearest_idx(entries, target) < entries.len(),
        forall|j: int|
            0 <= j < entries.len() ==> spec_abs(
                entries[spec_nearest_idx(entries, target)].timestamp_ms - target,
            ) <= spec_abs(#[trigger] entries[j].timestamp_ms - target),
        forall|j: int|
            0 <= j < spec_nearest_idx(entries, target) ==> spec_abs(
                entries[spec_nearest_idx(entries, target)].timestamp_ms - target,
            ) < spec_abs(#[trigger] entries[j].timestamp_ms - target),
    decreases entries.len(),
{
    let n = entries.len() as int;
    if n == 1 {
        assert(entries.drop_last().len() == 0);
        assert(spec_nearest_idx(entries.drop_last(), target) == -1);
        assert(spec_nearest_idx(entries, target) == 0);
    } else {
        let sub = entries.drop_last();
        lemma_nearest_idx_minimal(sub, target);
        let prev = spec_nearest_idx(sub, target);
        let w = spec_nearest_idx(entries, target);
        assert(forall|j: int| 0 <= j < n - 1 ==> sub[j] == entries[j]);
        assert(entries.last() == entries[n - 1]);
        assert forall|j: int| 0 <= j < n implies spec_abs(entries[w].timestamp_ms - target)
            <= spec_abs(#[trigger] entries[j].timestamp_ms - target) by {
            if j < n - 1 {
                assert(spec_abs(sub[prev].timestamp_ms - target) <= spec_abs(
                    sub[j].timestamp_ms - target,
                ));
            }
        }
        assert forall|j: int| 0 <= j < w implies spec_abs(entries[w].timestamp_ms - target)
            < spec_abs(#[trigger] entries[j].timestamp_ms - target) by {
            if w == n - 1 {
                assert(spec_abs(sub[prev].timestamp_ms - target) <= spec_abs(
                    sub[j].timestamp_ms - target,
                ));
            }
        }
    }
}

/// Looking a key up in a grown point list: an existing first match is kept,
/// a fresh key is found at the appended point.
proof fn lemma_find_vol_push(
    points: Seq<VolPoint>,
    p: VolPoint,
    expiry: Seq<char>,
    strike_cents: u64,
    side: OptionSide,
)
    ensures
        spec_find_vol(points.push(p), expiry, strike_cents, side) == {
            if spec_find_vol(points, expiry, strike_cents, side) is Some {
                spec_find_vol(points, expiry, strike_cents, side)
            } else if p.expiry@ == expiry && p.strike_cents == strike_cents && p.side == side {
                Some(p.vol_e6)
            } else {
                None
            }
        },
    decreases points.len(),
{
    let grown = points.push(p);
    if points.len() == 0 {
        assert(grown.len() == 1);
        assert(grown[0] == p);
        assert(grown.drop_first() =~= Seq::<VolPoint>::empty());
        assert(spec_find_vol(Seq::<VolPoint>::empty(), expiry, strike_cents, side) is None);
        if p.expiry@ == expiry && p.strike_cents == strike_cents && p.side == side {
            assert(spec_find_vol(grown, expiry, strike_cents, side) == Some(p.vol_e6));
        } else {
            assert(spec_find_vol(grown, expiry, strike_cents, side) == spec_find_vol(
                grown.drop_first(),
                expiry,
                strike_cents,
                side,
            ));
        }
    } else {
        assert(grown[0] == points[0]);
        assert(grown.len() == points.len() + 1);
        assert(grown.drop_first() =~= points.drop_first().push(p));
        lemma_find_vol_push(points.drop_first(), p, expiry, strike_cents, side);
        if points[0].expiry@ == expiry && points[0].strike_cents == strike_cents && points[0].side
            == side {
            assert(spec_find_vol(grown, expiry, strike_cents, side) == Some(points[0].vol_e6));
            assert(spec_find_vol(points, expiry, strike_cents, side) == Some(points[0].vol_e6));
        } else {
            assert(spec_find_vol(grown, expiry, strike_cents, side) == spec_find_vol(
                grown.drop_first(),
                expiry,
                strike_cents,
                side,
            ));
            assert(spec_find_vol(points, expiry, strike_cents, side) == spec_find_vol(
                points.drop_first(),
                expiry,
                strike_cents,
                side,
            ));
        }
    }
}

/// The same for the any-expiry lookup.
proof fn lemma_find_vol_any_push(points: Seq<VolPoint>, p: VolPoint, strike_cents: u64,
    side: OptionSide)
    ensures
        spec_find_vol_any_expiry(points.push(p), strike_cents, side) == {
            if spec_find_vol_any_expiry(points, strike_cents, side) is Some {
                spec_find_vol_any_expiry(points, strike_cents, side)
            } else if p.strike_cents == strike_cents && p.side == side {
                Some(p.vol_e6)
            } else {
                None
            }
        },
    decreases points.len(),
{
    let grown = points.push(p);
    if points.len() == 0 {
        assert(grown.len() == 1);
        assert(grown[0] == p);
        assert(grown.drop_first() =~= Seq::<VolPoint>::empty());
        assert(spec_find_vol_any_expiry(Seq::<VolPoint>::empty(), strike_cents, side) is None);
        if p.strike_cents == strike_cents && p.side == side {
            assert(spec_find_vol_any_expiry(grown, strike_cents, side) == Some(p.vol_e6));
        } else {
            assert(spec_find_vol_any_expiry(grown, strike_cents, side)
                == spec_find_vol_any_expiry(grown.drop_first(), strike_cents, side));
        }
    } else {
        assert(grown[0] == points[0]);
        assert(grown.len() == points.len() + 1);
        assert(grown.drop_first() =~= points.drop_first().push(p));
        lemma_find_vol_any_push(points.drop_first(), p, strike_cents, side);
        if points[0].strike_cents == strike_cents && points[0].side == side {
            assert(spec_find_vol_any_expiry(grown, strike_cents, side) == Some(
            points[0].vol_e6));
            assert(spec_find_vol_any_expiry(points, strike_cents, side) == Some(
            points[0].vol_e6));
        } else {
            assert(spec_find_vol_any_expiry(grown, strike_cents, side)
                == spec_find_vol_any_expiry(grown.drop_first(), strike_cents, side));
            assert(spec_find_vol_any_expiry(points, strike_cents, side)
                == spec_find_vol_any_expiry(points.drop_first(), strike_cents, side));
        }
    }
}

/// The same for the expiry index.
proof fn lemma_find_expiry_push(entries: Seq<ExpiryEntry>, e: ExpiryEntry, label: Seq<char>)
    ensures
        spec_find_expiry(entries.push(e), label) == {
            if spec_find_expiry(entries, label) is Some {
                spec_find_expiry(entries, label)
            } else if e.label@ == label {
                Some(e.timestamp_ms)
            } else {
                None
            }
        },
    decreases entries.len(),
{
    let grown = entries.push(e);
    if entries.len() == 0 {
        assert(grown.len() == 1);
        assert(grown[0] == e);
        assert(grown.drop_first() =~= Seq::<ExpiryEntry>::empty());
        assert(spec_find_expiry(Seq::<ExpiryEntry>::empty(), label) is None);
        if e.label@ == label {
            assert(spec_find_expiry(grown, label) == Some(e.timestamp_ms));
        } else {
            assert(spec_find_expiry(grown, label) == spec_find_expiry(
                grown.drop_first(),
                label,
            ));
        }
    } else {
        assert(grown[0] == entries[0]);
        assert(grown.len() == entries.len() + 1);
        assert(grown.drop_first() =~= entries.drop_first().push(e));
        lemma_find_expiry_push(entries.drop_first(), e, label);
        if entries[0].label@ == label {
            assert(spec_find_expiry(grown, label) == Some(entries[0].timestamp_ms));
            assert(spec_find_expiry(entries, label) == Some(entries[0].timestamp_ms));
        } else {
            assert(spec_find_expiry(grown, label) == spec_find_expiry(
                grown.drop_first(),
                label,
            ));
            assert(spec_find_expiry(entries, label) == spec_find_expiry(
                entries.drop_first(),
                label,
            ));
        }
    }
}

impl IvOracle {
    /// A cold surface pointed at the given upstream base URL.
    pub fn new(api_url: String) -> (r: IvOracle)
        ensures
            r.api_url@ == api_url@,
            r.points@.len() == 0,
            r.expiries@.len() == 0,
    {
        IvOracle { api_url, points: Vec::new(), expiries: Vec::new() }
    }

    pub fn is_cache_empty(&self) -> (r: bool)
        ensures
            r == (self.points@.len() == 0),
    {
        self.points.is_empty()
    }

    /// Number of volatility points held.
    pub fn get_cache_size(&self) -> (r: usize)
        ensures
            r == self.points@.len(),
    {
        self.points.len()
    }

    /// The timestamp the expiry index holds for a label.
    pub fn get_expiry_timestamp(&self, expiry_str: &str) -> (r: Option<i64>)
        ensures
            r == spec_find_expiry(self.expiries@, expiry_str@),
    {
        let n = self.expiries.len();
        let mut i: usize = 0;
        proof {
            assert(self.expiries@.skip(0) =~= self.expiries@);
        }
        while i < n
            invariant
                n == self.expiries@.len(),
                i <= n,
                spec_find_expiry(self.expiries@, expiry_str@) == spec_find_expiry(
                    self.expiries@.skip(i as int),
                    expiry_str@,
                ),
            decreases n - i,
        {
            proof {
                assert(self.expiries@.skip(i as int).drop_first() =~= self.expiries@.skip(
                    i as int + 1,
                ));
            }
            if str_eq(self.expiries[i].label.as_str(), expiry_str) {
                proof {
                    assert(self.expiries@.skip(i as int)[0] == self.expiries@[i as int]);
                }
                return Some(self.expiries[i].timestamp_ms);
            }
            i += 1;
        }
        None
    }

    /// Exact-expiry volatility lookup; the side comes as its exchange code.
    pub fn get_iv_by_exact_expiry(&self, side: &str, strike_cents: u64, expire: &str) -> (r:
        Option<u64>)
        ensures
            r == self.spec_get_iv_exact(side@, strike_cents, expire@),
    {
        let sd = match OptionSide::from_code(side) {
            Some(sd) => sd,
            None => {
                return None;
            },
        };
        let n = self.points.len();
        let mut i: usize = 0;
        proof {
            assert(self.points@.skip(0) =~= self.points@);
        }
        while i < n
            invariant
                n == self.points@.len(),
                i <= n,
                (side@ == "C"@ && sd == OptionSide::Call) || (side@ == "P"@ && sd
                    == OptionSide::Put),
                spec_find_vol(self.points@, expire@, strike_cents, sd) == spec_find_vol(
                    self.points@.skip(i as int),
                    expire@,
                    strike_cents,
                    sd,
                ),
            decreases n - i,
        {
            proof {
                assert(self.points@.skip(i as int).drop_first() =~= self.points@.skip(
                    i as int + 1,
                ));
            }
            let p = &self.points[i];
            if str_eq(p.expiry.as_str(), expire) && p.strike_cents == strike_cents && p.side
                == sd {
                proof {
                    assert(self.points@.skip(i as int)[0] == self.points@[i as int]);
                    reveal_strlit("C");
                    reveal_strlit("P");
                    assert("C"@[0] == 'C' && "P"@[0] == 'P');
                }
                return Some(p.vol_e6);
            }
            i += 1;
        }
        None
    }

    /// What the exact lookup returns: the first matching point, under the
    /// side that the code names; an unknown code finds nothing.
    pub open spec fn spec_get_iv_exact(
        &self,
        side: Seq<char>,
        strike_cents: u64,
        expire: Seq<char>,
    ) -> Option<u64> {
        if side == "C"@ {
            spec_find_vol(self.points@, expire, strike_cents, OptionSide::Call)
        } else if side == "P"@ {
            spec_find_vol(self.points@, expire, strike_cents, OptionSide::Put)
        } else {
            None
        }
    }

    /// The label of the cached expiry nearest to the target timestamp
    /// (milliseconds); ties go to the earliest-listed label. `None` on a
    /// cold index.
    pub fn find_nearest_expiry(&self, target_timestamp: i64) -> (r: Option<String>)
        ensures
            r is Some <==> self.expiries@.len() > 0,
            r is Some ==> r->Some_0@ == self.expiries@[spec_nearest_idx(
                self.expiries@,
                target_timestamp as int,
            )].label@,
    {
        let n = self.expiries.len();
        if n == 0 {
            return None;
        }
        let mut best: usize = 0;
        let mut best_diff: i128 = abs_diff_ms(self.expiries[0].timestamp_ms, target_timestamp);
        let mut i: usize = 1;
        proof {
            assert(self.expiries@.take(1).drop_last() =~= Seq::<ExpiryEntry>::empty());
            assert(self.expiries@.take(1).last() == self.expiries@[0]);
            assert(spec_nearest_idx(Seq::<ExpiryEntry>::empty(), target_timestamp as int) == -1);
            assert(spec_nearest_idx(self.expiries@.take(1), target_timestamp as int) == 0);
        }
        while i < n
            invariant
                n == self.expiries@.len(),
                1 <= i <= n,
                best < i,
                best == spec_nearest_idx(self.expiries@.take(i as int), target_timestamp as int),
                best_diff == spec_abs(
                    self.expiries@[best as int].timestamp_ms - target_timestamp,
                ),
            decreases n - i,
        {
            proof {
                assert(self.expiries@.take(i as int + 1).drop_last() =~= self.expiries@.take(
                    i as int,
                ));
            }
            let d = abs_diff_ms(self.expiries[i].timestamp_ms, target_timestamp);
            if d < best_diff {
                best = i;
                best_diff = d;
            }
            i += 1;
        }
        proof {
            assert(self.expiries@.take(n as int) =~= self.expiries@);
        }
        Some(self.expiries[best].label.clone())
    }

    /// Timestamp-based volatility lookup: the target expiry (milliseconds)
    /// is resolved to the nearest cached expiry label, then looked up
    /// exactly.
    pub fn get_iv_by_timestamp(&self, side: &str, strike_cents: u64, expire_timestamp_ms: i64)
        -> (r: Option<u64>)
        ensures
            r == self.spec_get_iv_by_timestamp(side@, strike_cents, expire_timestamp_ms as int),
    {
        let nearest = match self.find_nearest_expiry(expire_timestamp_ms) {
            Some(l) => l,
            None => {
                return None;
            },
        };
        self.get_iv_by_exact_expiry(side, strike_cents, nearest.as_str())
    }

    /// What the timestamp lookup returns.
    pub open spec fn spec_get_iv_by_timestamp(
        &self,
        side: Seq<char>,
        strike_cents: u64,
        target_ms: int,
    ) -> Option<u64> {
        if self.expiries@.len() == 0 {
            None
        } else {
            self.spec_get_iv_exact(
                side,
                strike_cents,
                self.expiries@[spec_nearest_idx(self.expiries@, target_ms)].label@,
            )
        }
    }

    /// General volatility lookup. An `expire` that reads as a signed decimal
    /// is a millisecond timestamp and resolves through the nearest cached
    /// expiry; any other string falls back to the first point with this
    /// strike and side under any expiry.
    pub fn get_iv(&self, side: &str, strike_cents: u64, expire: &str) -> (r: Option<u64>)
        ensures
            r == self.spec_get_iv(side@, strike_cents, expire@),
    {
        if let Some(ts) = parse_i64(expire) {
            return self.get_iv_by_timestamp(side, strike_cents, ts);
        }
        let sd = match OptionSide::from_code(side) {
            Some(sd) => sd,
            None => {
                return None;
            },
        };
        let n = self.points.len();
        let mut i: usize = 0;
        proof {
            assert(self.points@.skip(0) =~= self.points@);
        }
        while i < n
            invariant
                n == self.points@.len(),
                i <= n,
                !i64_grammar_ok(expire@),
                (side@ == "C"@ && sd == OptionSide::Call) || (side@ == "P"@ && sd
                    == OptionSide::Put),
                spec_find_vol_any_expiry(self.points@, strike_cents, sd)
                    == spec_find_vol_any_expiry(self.points@.skip(i as int), strike_cents, sd),
            decreases n - i,
        {
            proof {
                assert(self.points@.skip(i as int).drop_first() =~= self.points@.skip(
                    i as int + 1,
                ));
            }
            let p = &self.points[i];
            if p.strike_cents == strike_cents && p.side == sd {
                proof {
                    assert(self.points@.skip(i as int)[0] == self.points@[i as int]);
                    reveal_strlit("C");
                    reveal_strlit("P");
                    assert("C"@[0] == 'C' && "P"@[0] == 'P');
                }
                return Some(p.vol_e6);
            }
            i += 1;
        }
        None
    }

    /// What the general lookup returns.
    pub open spec fn spec_get_iv(&self, side: Seq<char>, strike_cents: u64, expire: Seq<char>)
        -> Option<u64> {
        if i64_grammar_ok(expire) {
            self.spec_get_iv_by_timestamp(side, strike_cents, spec_parse_i64(expire))
        } else if side == "C"@ {
            spec_find_vol_any_expiry(self.points@, strike_cents, OptionSide::Call)
        } else if side == "P"@ {
            spec_find_vol_any_expiry(self.points@, strike_cents, OptionSide::Put)
        } else {
            None
        }
    }

    /// Applies one poll of the upstream summary feed.
    ///
    /// On a successful poll the volatility points and the expiry index are
    /// rebuilt from the rows and replace the previous snapshot as one unit:
    /// a key holds the feed's last value for it, divided by 100 from percent
    /// into a decimal fraction, and the index maps exactly the well-formed
    /// labels the feed mentioned. On a failed poll the surface is left
    /// exactly as it was, so an already-populated cache keeps answering with
    /// its previous snapshot.
    pub fn fetch_and_update_iv(&mut self, fetched: Result<Vec<SummaryRow>, String>) -> (r: Result<
        (),
        ApiError,
    >)
        ensures
            fetched is Err ==> *final(self) == *old(self) && r is Err
                && r->Err_0 == (ApiError::ExternalApiError(fetched->Err_0)),
            fetched is Ok ==> r is Ok && final(self).api_url == old(self).api_url && (forall|
                e: Seq<char>,
                k: u64,
                sd: OptionSide,
            |
                #[trigger] spec_find_vol(final(self).points@, e, k, sd) == spec_snapshot_vol(
                    fetched->Ok_0@,
                    0,
                    e,
                    k,
                    sd,
                )) && (forall|l: Seq<char>|
                #[trigger] spec_find_expiry(final(self).expiries@, l) == spec_snapshot_expiry(
                    fetched->Ok_0@,
                    l,
                )),
    {
        let rows = match fetched {
            Ok(rows) => rows,
            Err(msg) => {
                return Err(ApiError::ExternalApiError(msg));
            },
        };
        let n = rows.len();
        let mut new_points: Vec<VolPoint> = Vec::new();
        let mut new_expiries: Vec<ExpiryEntry> = Vec::new();
        let mut i: usize = n;
        while i > 0
            invariant
                n == rows@.len(),
                i <= n,
                forall|e: Seq<char>, k: u64, sd: OptionSide|
                    #[trigger] spec_find_vol(new_points@, e, k, sd) == spec_snapshot_vol(
                        rows@,
                        i as int,
                        e,
                        k,
                        sd,
                    ),
                forall|l: Seq<char>|
                    #[trigger] spec_find_expiry(new_expiries@, l) == {
                        if spec_rows_have_label(rows@, i as int, l) && spec_expiry_label_ok(l) {
                            Some(spec_expiry_label_ms(l) as i64)
                        } else {
                            None
                        }
                    },
            decreases i,
        {
            i -= 1;
            let row = &rows[i];
            let ghost pre_points = new_points@;
            let ghost pre_expiries = new_expiries@;
            match parse_instrument_name(row.instrument_name.as_str()) {
                Some((expiry, strike_cents, side)) => {
                    let vol_e6 = row.mark_iv_pct_e6 / 100;
                    if self_find_absent(&new_points, expiry.as_str(), strike_cents, side) {
                        new_points.push(
                            VolPoint {
                                expiry: expiry.clone(),
                                strike_cents,
                                side,
                                vol_e6,
                            },
                        );
                    }
                    let has_label = find_expiry_present(&new_expiries, expiry.as_str());
                    if !has_label {
                        match parse_expiry_to_timestamp(expiry.as_str()) {
                            Some(ts) => {
                                new_expiries.push(ExpiryEntry { label: expiry, timestamp_ms: ts });
                            },
                            None => {},
                        }
                    }
                    proof {
                        let ghost pr = spec_parse_instrument(row.instrument_name@);
                        assert forall|e: Seq<char>, k: u64, sd: OptionSide|
                            #[trigger] spec_find_vol(new_points@, e, k, sd) == spec_snapshot_vol(
                                rows@,
                                i as int,
                                e,
                                k,
                                sd,
                            ) by {
                            if new_points@ != pre_points {
                                lemma_find_vol_push(
                                    pre_points,
                                    new_points@.last(),
                                    e,
                                    k,
                                    sd,
                                );
                                assert(pre_points.push(new_points@.last()) =~= new_points@);
                            }
                        }
                        assert forall|l: Seq<char>|
                            #[trigger] spec_find_expiry(new_expiries@, l) == {
                                if spec_rows_have_label(rows@, i as int, l)
                                    && spec_expiry_label_ok(l) {
                                    Some(spec_expiry_label_ms(l) as i64)
                                } else {
                                    None
                                }
                            } by {
                            lemma_rows_have_label_step(rows@, i as int, l);
                            if new_expiries@ != pre_expiries {
                                lemma_find_expiry_push(
                                    pre_expiries,
                                    new_expiries@.last(),
                                    l,
                                );
                                assert(pre_expiries.push(new_expiries@.last()) =~= new_expiries@);
                            }
                        }
                    }
                },
                None => {
                    proof {
                        assert forall|l: Seq<char>|
                            #[trigger] spec_find_expiry(new_expiries@, l) == {
                                if spec_rows_have_label(rows@, i as int, l)
                                    && spec_expiry_label_ok(l) {
                                    Some(spec_expiry_label_ms(l) as i64)
                                } else {
                                    None
                                }
                            } by {
                            lemma_rows_have_label_step(rows@, i as int, l);
                        }
                    }
                },
            }
        }
        self.points = new_points;
        self.expiries = new_expiries;
        Ok(())
    }
}

/// Absolute distance between two millisecond timestamps, computed widely.
fn abs_diff_ms(a: i64, b: i64) -> (r: i128)
    ensures
        r == spec_abs(a - b),
{
    let d: i128 = a as i128 - b as i128;
    if d < 0 {
        -d
    } else {
        d
    }
}

/// Whether the key is absent from the points built so far.
fn self_find_absent(points: &Vec<VolPoint>, expiry: &str, strike_cents: u64, side: OptionSide)
    -> (r: bool)
    ensures
        r == (spec_find_vol(points@, expiry@, strike_cents, side) is None),
{
    let n = points.len();
    let mut i: usize = 0;
    proof {
        assert(points@.skip(0) =~= points@);
    }
    while i < n
        invariant
            n == points@.len(),
            i <= n,
            spec_find_vol(points@, expiry@, strike_cents, side) == spec_find_vol(
                points@.skip(i as int),
                expiry@,
                strike_cents,
                side,
            ),
        decreases n - i,
    {
        proof {
            assert(points@.skip(i as int).drop_first() =~= points@.skip(i as int + 1));
        }
        let p = &points[i];
        if str_eq(p.expiry.as_str(), expiry) && p.strike_cents == strike_cents && p.side == side {
            proof {
                assert(points@.skip(i as int)[0] == points@[i as int]);
            }
            return false;
        }
        i += 1;
    }
    true
}

/// Whether the label is already in the expiry index being built.
fn find_expiry_present(entries: &Vec<ExpiryEntry>, label: &str) -> (r: bool)
    ensures
        r == (spec_find_expiry(entries@, label@) is Some),
{
    let n = entries.len();
    let mut i: usize = 0;
    proof {
        assert(entries@.skip(0) =~= entries@);
    }
    while i < n
        invariant
            n == entries@.len(),
            i <= n,
            spec_find_expiry(entries@, label@) == spec_find_expiry(
                entries@.skip(i as int),
                label@,
            ),
        decreases n - i,
    {
        proof {
            assert(entries@.skip(i as int).drop_first() =~= entries@.skip(i as int + 1));
        }
        if str_eq(entries[i].label.as_str(), label) {
            proof {
                assert(entries@.skip(i as int)[0] == entries@[i as int]);
            }
            return true;
        }
        i += 1;
    }
    false
}

/// Peeling one row off the front of the label-membership quantifier.
proof fn lemma_rows_have_label_step(rows: Seq<SummaryRow>, i: int, label: Seq<char>)
    requires
        0 <= i < rows.len(),
    ensures
        spec_rows_have_label(rows, i, label) <==> ((spec_parse_instrument(
            rows[i].instrument_name@,
        ) is Some && spec_parse_instrument(rows[i].instrument_name@)->Some_0.0 == label)
            || spec_rows_have_label(rows, i + 1, label)),
{
    if spec_rows_have_label(rows, i, label) {
        let j = choose|j: int|
            i <= j < rows.len() && #[trigger] spec_parse_instrument(rows[j].instrument_name@)
                is Some && spec_parse_instrument(rows[j].instrument_name@)->Some_0.0 == label;
        if j > i {
            assert(spec_rows_have_label(rows, i + 1, label));
        }
    }
    if spec_rows_have_label(rows, i + 1, label) {
        let j = choose|j: int|
            i + 1 <= j < rows.len() && #[trigger] spec_parse_instrument(
                rows[j].instrument_name@,
            ) is Some && spec_parse_instrument(rows[j].instrument_name@)->Some_0.0 == label;
        assert(spec_rows_have_label(rows, i, label));
    }
}

/// The pair view of an expiry entry, as the listing getters return it.
pub open spec fn spec_expiry_pair(e: ExpiryEntry) -> (String, i64) {
    (e.label, e.timestamp_ms)
}

/// Whether some point carries this expiry label.
pub open spec fn spec_points_have_label(points: Seq<VolPoint>, label: Seq<char>) -> bool {
    exists|j: int| 0 <= j < points.len() && (#[trigger] points[j].expiry)@ == label
}

/// Whether some listed label reads as this one.
pub open spec fn spec_labels_contain(labels: Seq<String>, label: Seq<char>) -> bool {
    exists|j: int| 0 <= j < labels.len() && (#[trigger] labels[j])@ == label
}

impl IvOracle {
    /// The distinct expiry labels that have at least one volatility point,
    /// in first-seen order.
    pub fn get_cached_expiries(&self) -> (r: Vec<String>)
        ensures
            forall|l: Seq<char>|
                #[trigger] spec_labels_contain(r@, l) <==> spec_points_have_label(
                    self.points@,
                    l,
                ),
            forall|i: int, j: int| 0 <= i < j < r@.len() ==> r@[i]@ != r@[j]@,
    {
        let n = self.points.len();
        let mut out: Vec<String> = Vec::new();
        let mut i: usize = 0;
        while i < n
            invariant
                n == self.points@.len(),
                i <= n,
                forall|l: Seq<char>|
                    #[trigger] spec_labels_contain(out@, l) <==> spec_points_have_label(
                        self.points@.take(i as int),
                        l,
                    ),
                forall|a: int, b: int| 0 <= a < b < out@.len() ==> out@[a]@ != out@[b]@,
            decreases n - i,
        {
            let ghost pre = out@;
            let label = &self.points[i].expiry;
            if !labels_contain(&out, label.as_str()) {
                out.push(label.clone());
            }
            proof {
                assert(self.points@.take(i + 1)[i as int] == self.points@[i as int]);
                assert forall|l: Seq<char>|
                    #[trigger] spec_labels_contain(out@, l) <==> spec_points_have_label(
                        self.points@.take(i + 1),
                        l,
                    ) by {
                    lemma_take_label_step(self.points@, i as int, l);
                    if out@ != pre {
                        assert(out@ == pre.push(self.points@[i as int].expiry));
                        lemma_labels_contain_push(pre, self.points@[i as int].expiry, l);
                    }
                }
            }
            i += 1;
        }
        proof {
            assert(self.points@.take(n as int) =~= self.points@);
        }
        out
    }

    /// The expiry index as (label, timestamp) pairs, in index order.
    pub fn get_expiry_timestamps(&self) -> (r: Vec<(String, i64)>)
        ensures
            r@ == self.expiries@.map_values(|e: ExpiryEntry| spec_expiry_pair(e)),
    {
        let n = self.expiries.len();
        let mut out: Vec<(String, i64)> = Vec::new();
        let mut i: usize = 0;
        while i < n
            invariant
                n == self.expiries@.len(),
                i <= n,
                out@ == self.expiries@.take(i as int).map_values(
                    |e: ExpiryEntry| spec_expiry_pair(e),
                ),
            decreases n - i,
        {
            let e = &self.expiries[i];
            out.push((e.label.clone(), e.timestamp_ms));
            proof {
                assert(out@ =~= self.expiries@.take(i + 1).map_values(
                    |e: ExpiryEntry| spec_expiry_pair(e),
                ));
            }
            i += 1;
        }
        proof {
            assert(self.expiries@.take(n as int) =~= self.expiries@);
        }
        out
    }

    /// The expiry index as (label, timestamp) pairs, sorted by timestamp,
    /// soonest first.
    pub fn get_sorted_expiries(&self) -> (r: Vec<(String, i64)>)
        ensures
            r@.to_multiset() == self.expiries@.map_values(
                |e: ExpiryEntry| spec_expiry_pair(e),
            ).to_multiset(),
            forall|i: int, j: int| 0 <= i < j < r@.len() ==> r@[i].1 <= r@[j].1,
    {
        broadcast use vstd::seq_lib::group_to_multiset_ensures;

        let mut rest = self.get_expiry_timestamps();
        let ghost target = self.expiries@.map_values(|e: ExpiryEntry| spec_expiry_pair(e));
        let mut out: Vec<(String, i64)> = Vec::new();
        proof {
            assert(out@.to_multiset().add(rest@.to_multiset()) =~= target.to_multiset());
        }
        while rest.len() > 0
            invariant
                out@.to_multiset().add(rest@.to_multiset()) == target.to_multiset(),
                forall|i: int, j: int| 0 <= i < j < out@.len() ==> out@[i].1 <= out@[j].1,
                forall|i: int, j: int|
                    0 <= i < out@.len() && 0 <= j < rest@.len() ==> out@[i].1 <= rest@[j].1,
            decreases rest@.len(),
        {
            let m = rest.len();
            let mut mi: usize = 0;
            let mut k: usize = 1;
            while k < m
                invariant
                    m == rest@.len(),
                    mi < k <= m,
                    forall|j: int| 0 <= j < k ==> rest@[mi as int].1 <= rest@[j].1,
                decreases m - k,
            {
                if rest[k].1 < rest[mi].1 {
                    mi = k;
                }
                k += 1;
            }
            let ghost pre_out = out@;
            let ghost pre_rest = rest@;
            let v = rest.remove(mi);
            out.push(v);
            proof {
                broadcast use vstd::seq_lib::group_to_multiset_ensures;

                assert(out@ == pre_out.push(v));
                assert(out@.to_multiset() =~= pre_out.to_multiset().insert(v));
                assert(pre_rest.contains(v)) by {
                    assert(pre_rest[mi as int] == v);
                }
                assert(rest@.to_multiset() =~= pre_rest.to_multiset().remove(v));
                assert(out@.to_multiset().add(rest@.to_multiset()) =~= pre_out.to_multiset().add(
                    pre_rest.to_multiset(),
                ));
                assert forall|j: int| 0 <= j < rest@.len() implies v.1 <= rest@[j].1 by {
                    if j < mi {
                        assert(rest@[j] == pre_rest[j]);
                    } else {
                        assert(rest@[j] == pre_rest[j + 1]);
                    }
                }
            }
        }
        out
    }
}

/// Whether a label list already holds this label.
fn labels_contain(labels: &Vec<String>, label: &str) -> (r: bool)
    ensures
        r == spec_labels_contain(labels@, label@),
{
    let n = labels.len();
    let mut i: usize = 0;
    while i < n
        invariant
            n == labels@.len(),
            i <= n,
            forall|j: int| 0 <= j < i ==> (#[trigger] labels@[j])@ != label@,
        decreases n - i,
    {
        if str_eq(labels[i].as_str(), label) {
            assert(spec_labels_contain(labels@, label@));
            return true;
        }
        i += 1;
    }
    false
}

/// Peeling the last point off the label-membership quantifier over a prefix.
proof fn lemma_take_label_step(points: Seq<VolPoint>, i: int, label: Seq<char>)
    requires
        0 <= i < points.len(),
    ensures
        spec_points_have_label(points.take(i + 1), label) <==> (points[i].expiry@ == label
            || spec_points_have_label(points.take(i), label)),
{
    if spec_points_have_label(points.take(i + 1), label) {
        let j = choose|j: int|
            0 <= j < points.take(i + 1).len() && (#[trigger] points.take(i + 1)[j].expiry)@
                == label;
        if j < i {
            assert(points.take(i)[j] == points[j]);
            assert(spec_points_have_label(points.take(i), label));
        } else {
            assert(points.take(i + 1)[i] == points[i]);
        }
    }
    if points[i].expiry@ == label {
        assert(points.take(i + 1)[i] == points[i]);
        assert(spec_points_have_label(points.take(i + 1), label));
    }
    if spec_points_have_label(points.take(i), label) {
        let j = choose|j: int|
            0 <= j < points.take(i).len() && (#[trigger] points.take(i)[j].expiry)@ == label;
        assert(points.take(i + 1)[j] == points[j]);
        assert(spec_points_have_label(points.take(i + 1), label));
    }
}

/// Membership in a grown label list.
proof fn lemma_labels_contain_push(labels: Seq<String>, l0: String, label: Seq<char>)
    ensures
        spec_labels_contain(labels.push(l0), label) <==> (l0@ == label || spec_labels_contain(
            labels,
            label,
        )),
{
    if spec_labels_contain(labels.push(l0), label) {
        let j = choose|j: int|
            0 <= j < labels.push(l0).len() && (#[trigger] labels.push(l0)[j])@ == label;
        if j < labels.len() {
            assert(labels.push(l0)[j] == labels[j]);
            assert(spec_labels_contain(labels, label));
        } else {
            assert(labels.push(l0)[j] == l0);
        }
    }
    if l0@ == label {
        assert(labels.push(l0)[labels.len() as int] == l0);
        assert(spec_labels_contain(labels.push(l0), label));
    }
    if spec_labels_contain(labels, label) {
        let j = choose|j: int| 0 <= j < labels.len() && (#[trigger] labels[j])@ == label;
        assert(labels.push(l0)[j] == labels[j]);
        assert(spec_labels_contain(labels.push(l0), label));
    }
}

} // verus!
