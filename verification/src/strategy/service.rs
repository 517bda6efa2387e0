use vstd::prelude::*;

use crate::ids::ActorId;
use crate::strategy::state::{
    shows, PriceEntry, Recommendation, RecommendationView, StrategyError, StrategyState,
    StrategyStats,
};
use crate::text::{decimal, i32_text, signed_decimal, u64_text};
use vstd::wrapping::u64_specs;

verus! {

/// The engine program: its state behind its one service.
pub struct VaraStrategyProgram {
    pub service: VaraStrategyService,
}

/// The engine's service; every method takes the caller and the block height
/// as the runtime reports them.
pub struct VaraStrategyService {
    pub state: StrategyState,
}

/// Position of the first entry with the largest change.
pub open spec fn max_pos(ps: Seq<PriceEntry>) -> int
    decreases ps.len(),
{
    if ps.len() <= 1 {
        0
    } else {
        let p = max_pos(ps.drop_last());
        if ps.last().change_24h_bps > ps[p].change_24h_bps {
            ps.len() - 1
        } else {
            p
        }
    }
}

/// Position of the first entry with the smallest change.
pub open spec fn min_pos(ps: Seq<PriceEntry>) -> int
    decreases ps.len(),
{
    if ps.len() <= 1 {
        0
    } else {
        let p = min_pos(ps.drop_last());
        if ps.last().change_24h_bps < ps[p].change_24h_bps {
            ps.len() - 1
        } else {
            p
        }
    }
}

/// The size of a change in basis points, as an unsigned number.
pub open spec fn magnitude(c: i32) -> int {
    if c < 0 {
        -(c as int)
    } else {
        c as int
    }
}

/// The whole percent of a drop, as the program prints it (the absolute value
/// of the smallest change wraps as the program is built, so that change stays
/// negative).
pub open spec fn drop_pct(c: i32) -> int {
    if c == i32::MIN {
        -21474836
    } else {
        magnitude(c) / 100
    }
}

/// Billions of dollars, whole.
pub open spec fn billions(v: u64) -> Seq<char> {
    decimal((v / 1_000_000_000) as nat)
}

/// The momentum recommendation `id` for the entry `p` at `block`.
pub open spec fn momentum_rec(r: Recommendation, p: PriceEntry, id: u64, block: u32) -> bool {
    let pct = signed_decimal(p.change_24h_bps / 100);
    &&& r.id == id
    &&& r.rec_type@ == "momentum"@
    &&& r.symbol == Some(p.symbol)
    &&& r.title@ == p.symbol@ + " up "@ + pct + "%"@
    &&& r.body@ == p.symbol@ + " gained "@ + pct + "% in 24h. Vol $"@ + billions(p.volume_24h_usd) + "B."@
    &&& r.confidence == if p.change_24h_bps < 85 {
        p.change_24h_bps as u32
    } else {
        85u32
    }
    &&& r.created_block == block
    &&& !r.posted
}

/// The value recommendation `id` for the entry `p` at `block`.
pub open spec fn value_rec(r: Recommendation, p: PriceEntry, id: u64, block: u32) -> bool {
    let pct = signed_decimal(drop_pct(p.change_24h_bps));
    &&& r.id == id
    &&& r.rec_type@ == "value"@
    &&& r.symbol == Some(p.symbol)
    &&& r.title@ == p.symbol@ + " down "@ + pct + "%"@
    &&& r.body@ == p.symbol@ + " dropped "@ + pct + "% in 24h. Vol $"@ + billions(p.volume_24h_usd) + "B."@
    &&& r.confidence == if magnitude(p.change_24h_bps) / 2 < 60 {
        (magnitude(p.change_24h_bps) / 2) as u32
    } else {
        60u32
    }
    &&& r.created_block == block
    &&& !r.posted
}

/// The analysis recommends momentum: the largest change is above 50 points.
pub open spec fn has_momentum(ps: Seq<PriceEntry>) -> bool {
    ps.len() > 0 && ps[max_pos(ps)].change_24h_bps > 50
}

/// The analysis recommends value: the smallest change is below -50 points.
pub open spec fn has_value(ps: Seq<PriceEntry>) -> bool {
    ps.len() > 0 && ps[min_pos(ps)].change_24h_bps < -50
}

/// `added` are the recommendations an analysis of `ps` makes at `block` as
/// analysis number `n`: momentum on the first largest change (id `n`), then
/// value on the first smallest (id `n + 1`), each only when it passes its
/// threshold.
pub open spec fn analysis(added: Seq<Recommendation>, ps: Seq<PriceEntry>, n: u64, block: u32) -> bool {
    let up = has_momentum(ps);
    let down = has_value(ps);
    &&& added.len() == (if up { 1int } else { 0int }) + (if down { 1int } else { 0int })
    &&& up ==> momentum_rec(added[0], ps[max_pos(ps)], n, block)
    &&& down ==> value_rec(added[added.len() - 1], ps[min_pos(ps)], u64_specs::wrapping_add(n, 1), block)
}

/// Position of the first recommendation with id `id`, or -1.
pub open spec fn rec_pos(rs: Seq<Recommendation>, id: u64) -> int
    decreases rs.len(),
{
    if rs.len() == 0 {
        -1
    } else if rs[0].id == id {
        0
    } else {
        let p = rec_pos(rs.drop_first(), id);
        if p < 0 {
            -1
        } else {
            p + 1
        }
    }
}

/// The first largest change is at `max_pos`: no change exceeds it and every
/// earlier one is smaller.
pub proof fn lemma_max_pos(ps: Seq<PriceEntry>)
    requires
        ps.len() > 0,
    ensures
        0 <= max_pos(ps) < ps.len(),
        forall|j: int| 0 <= j < ps.len() ==> (#[trigger] ps[j]).change_24h_bps <= ps[max_pos(ps)].change_24h_bps,
        forall|j: int| 0 <= j < max_pos(ps) ==> (#[trigger] ps[j]).change_24h_bps < ps[max_pos(ps)].change_24h_bps,
    decreases ps.len(),
{
    if ps.len() > 1 {
        let q = ps.drop_last();
        lemma_max_pos(q);
        assert forall|j: int| 0 <= j < ps.len() - 1 implies #[trigger] ps[j] == q[j] by {}
    }
}

/// The first smallest change is at `min_pos`: no change is below it and every
/// earlier one is larger.
pub proof fn lemma_min_pos(ps: Seq<PriceEntry>)
    requires
        ps.len() > 0,
    ensures
        0 <= min_pos(ps) < ps.len(),
        forall|j: int| 0 <= j < ps.len() ==> (#[trigger] ps[j]).change_24h_bps >= ps[min_pos(ps)].change_24h_bps,
        forall|j: int| 0 <= j < min_pos(ps) ==> (#[trigger] ps[j]).change_24h_bps > ps[min_pos(ps)].change_24h_bps,
    decreases ps.len(),
{
    if ps.len() > 1 {
        let q = ps.drop_last();
        lemma_min_pos(q);
        assert forall|j: int| 0 <= j < ps.len() - 1 implies #[trigger] ps[j] == q[j] by {}
    }
}

/// What an analysis adds: at most two recommendations, each made at
/// `block` and not yet posted (only `mark_posted` posts one). A momentum
/// recommendation, numbered `n`, comes first, exactly when some change is
/// above 50 points, on an entry whose change no other exceeds, with
/// confidence the change capped at 85 and a title giving the symbol and its
/// whole-percent rise. A value recommendation, numbered `n + 1`, comes last,
/// exactly when some change is below -50 points, on an entry whose change no
/// other is below, with confidence half the drop in points capped at 60.
pub proof fn lemma_analysis_adds(added: Seq<Recommendation>, ps: Seq<PriceEntry>, n: u64, block: u32)
    requires
        analysis(added, ps, n, block),
    ensures
        added.len() <= 2,
        forall|i: int| 0 <= i < added.len() ==> !(#[trigger] added[i]).posted && added[i].created_block
            == block,
        (exists|j: int| 0 <= j < ps.len() && (#[trigger] ps[j]).change_24h_bps > 50) <==> (added.len()
            > 0 && added[0].rec_type@ == "momentum"@),
        (exists|j: int| 0 <= j < ps.len() && (#[trigger] ps[j]).change_24h_bps < -50) <==> (added.len()
            > 0 && added[added.len() - 1].rec_type@ == "value"@),
        added.len() > 0 && added[0].rec_type@ == "momentum"@ ==> added[0].id == n
            && added[0].confidence <= 85 && added[0].confidence == (if ps[max_pos(ps)].change_24h_bps
            < 85 {
            ps[max_pos(ps)].change_24h_bps as int
        } else {
            85
        }) && added[0].title@ == ps[max_pos(ps)].symbol@ + " up "@ + signed_decimal(
            ps[max_pos(ps)].change_24h_bps / 100,
        ) + "%"@ && exists|j: int|
            0 <= j < ps.len() && added[0].symbol == Some((#[trigger] ps[j]).symbol)
                && ps[j].change_24h_bps > 50 && forall|k: int|
                0 <= k < ps.len() ==> (#[trigger] ps[k]).change_24h_bps <= ps[j].change_24h_bps,
        added.len() > 0 && added[added.len() - 1].rec_type@ == "value"@ ==> added[added.len()
            - 1].id == u64_specs::wrapping_add(n, 1) && added[added.len() - 1].confidence <= 60
            && added[added.len() - 1].confidence == (if magnitude(ps[min_pos(ps)].change_24h_bps) / 2
            < 60 {
            magnitude(ps[min_pos(ps)].change_24h_bps) / 2
        } else {
            60
        }) && exists|j: int|
            0 <= j < ps.len() && added[added.len() - 1].symbol == Some((#[trigger] ps[j]).symbol)
                && ps[j].change_24h_bps < -50 && forall|k: int|
                0 <= k < ps.len() ==> (#[trigger] ps[k]).change_24h_bps >= ps[j].change_24h_bps,
{
    reveal_strlit("momentum");
    reveal_strlit("value");
    assert("momentum"@ != "value"@) by {
        assert("momentum"@.len() != "value"@.len());
    }
    if ps.len() > 0 {
        lemma_max_pos(ps);
        lemma_min_pos(ps);
        let hi = max_pos(ps);
        let lo = min_pos(ps);
        if exists|j: int| 0 <= j < ps.len() && (#[trigger] ps[j]).change_24h_bps > 50 {
            let j = choose|j: int| 0 <= j < ps.len() && (#[trigger] ps[j]).change_24h_bps > 50;
            assert(ps[j].change_24h_bps <= ps[hi].change_24h_bps);
        }
        if exists|j: int| 0 <= j < ps.len() && (#[trigger] ps[j]).change_24h_bps < -50 {
            let j = choose|j: int| 0 <= j < ps.len() && (#[trigger] ps[j]).change_24h_bps < -50;
            assert(ps[j].change_24h_bps >= ps[lo].change_24h_bps);
        }
        assert(ps[hi].change_24h_bps >= ps[lo].change_24h_bps);
        if has_momentum(ps) {
            assert(ps[hi].change_24h_bps > 50);
        }
        if has_value(ps) {
            assert(ps[lo].change_24h_bps < -50);
        }
    }
}

fn extreme_positions(ps: &Vec<PriceEntry>) -> (r: (usize, usize))
    requires
        ps@.len() > 0,
    ensures
        r.0 == max_pos(ps@),
        r.1 == min_pos(ps@),
        r.0 < ps@.len(),
        r.1 < ps@.len(),
{
    let mut hi: usize = 0;
    let mut lo: usize = 0;
    let mut i: usize = 1;
    while i < ps.len()
        invariant
            1 <= i <= ps@.len(),
            hi == max_pos(ps@.take(i as int)),
            lo == min_pos(ps@.take(i as int)),
            hi < i,
            lo < i,
        decreases ps@.len() - i,
    {
        let ghost t = ps@.take(i + 1);
        assert(t.drop_last() =~= ps@.take(i as int));
        assert(t[hi as int] == ps@[hi as int]);
        assert(t[lo as int] == ps@[lo as int]);
        if ps[i].change_24h_bps > ps[hi].change_24h_bps {
            hi = i;
        }
        if ps[i].change_24h_bps < ps[lo].change_24h_bps {
            lo = i;
        }
        i = i + 1;
    }
    assert(ps@.take(i as int) =~= ps@);
    (hi, lo)
}

fn symbol_text(p: &PriceEntry, word: &str, pct: &String) -> (r: String)
    ensures
        r@ == p.symbol@ + word@ + pct@ + "%"@,
{
    let mut s = p.symbol.clone();
    s.append(word);
    s.append(pct.as_str());
    s.append("%");
    s
}

fn body_text(p: &PriceEntry, word: &str, pct: &String) -> (r: String)
    ensures
        r@ == p.symbol@ + word@ + pct@ + "% in 24h. Vol $"@ + billions(p.volume_24h_usd) + "B."@,
{
    let mut s = p.symbol.clone();
    s.append(word);
    s.append(pct.as_str());
    s.append("% in 24h. Vol $");
    s.append(u64_text(p.volume_24h_usd / 1_000_000_000).as_str());
    s.append("B.");
    s
}

fn momentum(p: &PriceEntry, id: u64, block: u32) -> (r: Recommendation)
    requires
        p.change_24h_bps > 50,
    ensures
        momentum_rec(r, *p, id, block),
{
    let pct = i32_text(p.change_24h_bps / 100);
    let c = p.change_24h_bps as u32;
    Recommendation {
        id,
        rec_type: "momentum".to_owned(),
        symbol: Some(p.symbol.clone()),
        title: symbol_text(p, " up ", &pct),
        body: body_text(p, " gained ", &pct),
        confidence: if c < 85 {
            c
        } else {
            85
        },
        created_block: block,
        posted: false,
    }
}

fn value(p: &PriceEntry, id: u64, block: u32) -> (r: Recommendation)
    requires
        p.change_24h_bps < -50,
    ensures
        value_rec(r, *p, id, block),
{
    let m: u32 = (0i64 - p.change_24h_bps as i64) as u32;
    let pct_value: i32 = if p.change_24h_bps == i32::MIN {
        -21474836
    } else {
        (m / 100) as i32
    };
    let pct = i32_text(pct_value);
    Recommendation {
        id,
        rec_type: "value".to_owned(),
        symbol: Some(p.symbol.clone()),
        title: symbol_text(p, " down ", &pct),
        body: body_text(p, " dropped ", &pct),
        confidence: if m / 2 < 60 {
            m / 2
        } else {
            60
        },
        created_block: block,
        posted: false,
    }
}

impl VaraStrategyProgram {
    /// A fresh engine owned by `owner` (the account that creates it).
    pub fn new(owner: ActorId, bridge_pid: ActorId, network_pid: ActorId) -> (r: Self)
        ensures
            r.service.state.owner == owner,
            r.service.state.bridge_pid == bridge_pid,
            r.service.state.network_pid == network_pid,
            r.service.state.recommendations@.len() == 0,
            r.service.state.total_analyzed == 0,
            r.service.state.total_posted == 0,
            r.service.state.last_analysis_block == 0,
    {
        VaraStrategyProgram {
            service: VaraStrategyService {
                state: StrategyState {
                    bridge_pid,
                    network_pid,
                    owner,
                    recommendations: Vec::new(),
                    total_analyzed: 0,
                    total_posted: 0,
                    last_analysis_block: 0,
                },
            },
        }
    }

    /// The service of the program.
    pub fn vara_strategy(&mut self) -> (r: &mut VaraStrategyService)
        ensures
            *r == old(self).service,
            final(self).service == *final(r),
    {
        &mut self.service
    }
}

impl VaraStrategyService {
    /// The service over `state`.
    pub fn new(state: StrategyState) -> (r: Self)
        ensures
            r.state == state,
    {
        VaraStrategyService { state }
    }

    /// Analyses `prices` at `block`: counts the analysis, then recommends
    /// momentum on the first largest change when it is above 50 points and
    /// value on the first smallest when it is below -50 points; keeps the
    /// recommendations and hands them out.
    pub fn analyze(&mut self, prices: Vec<PriceEntry>, block: u32) -> (r: Vec<RecommendationView>)
        ensures
            ({
                let n = u64_specs::wrapping_add(old(self).state.total_analyzed, 1);
                let old_recs = old(self).state.recommendations@;
                let new_recs = final(self).state.recommendations@;
                &&& final(self).state == (StrategyState {
                    recommendations: final(self).state.recommendations,
                    total_analyzed: n,
                    last_analysis_block: block,
                    ..old(self).state
                })
                &&& new_recs.len() >= old_recs.len()
                &&& new_recs.take(old_recs.len() as int) == old_recs
                &&& analysis(new_recs.skip(old_recs.len() as int), prices@, n, block)
                &&& r@.len() == new_recs.len() - old_recs.len()
                &&& forall|i: int| 0 <= i < r@.len() ==> shows(#[trigger] r@[i], new_recs[old_recs.len() + i])
            }),
    {
        self.state.last_analysis_block = block;
        self.state.total_analyzed = self.state.total_analyzed.wrapping_add(1);
        let n = self.state.total_analyzed;
        let ghost old_recs = self.state.recommendations@;
        let mut added: Vec<Recommendation> = Vec::new();
        if prices.len() > 0 {
            let (hi, lo) = extreme_positions(&prices);
            if prices[hi].change_24h_bps > 50 {
                added.push(momentum(&prices[hi], n, block));
            }
            if prices[lo].change_24h_bps < -50 {
                added.push(value(&prices[lo], n.wrapping_add(1), block));
            }
        }
        assert(analysis(added@, prices@, n, block));
        let ghost s1 = self.state;
        let mut views: Vec<RecommendationView> = Vec::new();
        let mut i: usize = 0;
        while i < added.len()
            invariant
                self.state == (StrategyState { recommendations: self.state.recommendations, ..s1 }),
                s1.recommendations@ == old_recs,
                analysis(added@, prices@, n, block),
                i <= added@.len(),
                self.state.recommendations@.len() == old_recs.len() + i,
                self.state.recommendations@.take(old_recs.len() as int) == old_recs,
                forall|j: int| 0 <= j < i ==> #[trigger] self.state.recommendations@[old_recs.len() + j] == added@[j],
                views@.len() == i,
                forall|j: int| 0 <= j < i ==> shows(#[trigger] views@[j], added@[j]),
            decreases added@.len() - i,
        {
            self.state.recommendations.push(added[i].clone());
            views.push(added[i].to_view());
            i = i + 1;
        }
        assert forall|j: int| 0 <= j < added@.len() implies #[trigger] self.state.recommendations@.skip(
            old_recs.len() as int,
        )[j] == added@[j] by {
            assert(self.state.recommendations@[old_recs.len() + j] == added@[j]);
        }
        assert(self.state.recommendations@.skip(old_recs.len() as int) =~= added@);
        views
    }

    /// Views of the latest `limit` recommendations, newest first.
    pub fn get_recommendations(&self, limit: u32) -> (r: Vec<RecommendationView>)
        ensures
            r@.len() == if limit < self.state.recommendations@.len() {
                limit as int
            } else {
                self.state.recommendations@.len() as int
            },
            forall|i: int| 0 <= i < r@.len() ==> shows(
                #[trigger] r@[i],
                self.state.recommendations@[self.state.recommendations@.len() - 1 - i],
            ),
    {
        let rs = &self.state.recommendations;
        let n = rs.len();
        let mut r: Vec<RecommendationView> = Vec::new();
        let mut i: usize = 0;
        while i < n && (i as u64) < (limit as u64)
            invariant
                n == rs@.len(),
                rs@ == self.state.recommendations@,
                i <= n,
                i <= limit,
                r@.len() == i,
                forall|j: int| 0 <= j < i ==> shows(#[trigger] r@[j], rs@[n - 1 - j]),
            decreases n - i,
        {
            r.push(rs[n - 1 - i].to_view());
            i = i + 1;
        }
        r
    }

    /// Owner only: marks the first recommendation with id `rec_id` posted and
    /// counts it; nothing changes when there is none.
    pub fn mark_posted(&mut self, caller: ActorId, rec_id: u64) -> (r: Result<(), StrategyError>)
        ensures
            caller != old(self).state.owner ==> r == Err::<(), StrategyError>(StrategyError::OwnerOnly)
                && final(self).state == old(self).state,
            caller == old(self).state.owner ==> r is Ok && ({
                let p = rec_pos(old(self).state.recommendations@, rec_id);
                if p < 0 {
                    final(self).state == old(self).state
                } else {
                    final(self).state == (StrategyState {
                        recommendations: final(self).state.recommendations,
                        total_posted: u64_specs::wrapping_add(old(self).state.total_posted, 1),
                        ..old(self).state
                    }) && final(self).state.recommendations@ == old(self).state.recommendations@.update(
                        p,
                        Recommendation { posted: true, ..old(self).state.recommendations@[p] },
                    )
                }
            }),
    {
        if !caller.same(&self.state.owner) {
            return Err(StrategyError::OwnerOnly);
        }
        let ghost s0 = self.state;
        let ghost rs = self.state.recommendations@;
        assert(rs.skip(0) =~= rs);
        let mut i: usize = 0;
        while i < self.state.recommendations.len()
            invariant
                self.state == s0,
                s0 == old(self).state,
                caller == s0.owner,
                rs == s0.recommendations@,
                i <= rs.len(),
                rec_pos(rs, rec_id) == if rec_pos(rs.skip(i as int), rec_id) < 0 {
                    -1
                } else {
                    rec_pos(rs.skip(i as int), rec_id) + i
                },
            decreases rs.len() - i,
        {
            assert(rs.skip(i as int).drop_first() =~= rs.skip(i + 1));
            if self.state.recommendations[i].id == rec_id {
                let mut rec = self.state.recommendations.remove(i);
                rec.posted = true;
                self.state.recommendations.insert(i, rec);
                assert(self.state.recommendations@ =~= rs.update(
                    i as int,
                    Recommendation { posted: true, ..rs[i as int] },
                ));
                self.state.total_posted = self.state.total_posted.wrapping_add(1);
                return Ok(());
            }
            i = i + 1;
        }
        assert(rs.skip(i as int).len() == 0);
        Ok(())
    }

    /// The counters, with the number of recommendations (cut to 32 bits as
    /// the program is built).
    pub fn get_stats(&self) -> (r: StrategyStats)
        ensures
            r.total_analyzed == self.state.total_analyzed,
            r.total_posted == self.state.total_posted,
            r.last_analysis_block == self.state.last_analysis_block,
            r.recommendations_count == self.state.recommendations@.len() as u32,
    {
        StrategyStats {
            total_analyzed: self.state.total_analyzed,
            total_posted: self.state.total_posted,
            last_analysis_block: self.state.last_analysis_block,
            recommendations_count: self.state.recommendations.len() as u32,
        }
    }
}

} // verus!
