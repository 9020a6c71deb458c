use vstd::prelude::*;

verus! {

/// Fewer rows than this leave the market state undecided.
pub const MIN_CLASSIFY_KLINES: usize = 40;

/// Number of most recent rows in which price crosses of the BOLL mid line
/// and sign changes of the MACD histogram are counted.
pub const CROSS_LOOKBACK: usize = 24;

/// Which side of a reference each row lies on, for the rows where the
/// reference exists, kept in row order.
pub open spec fn present_sides(s: Seq<Option<bool>>) -> Seq<bool>
    decreases s.len(),
{
    if s.len() == 0 {
        Seq::<bool>::empty()
    } else {
        let rest = present_sides(s.drop_last());
        match s.last() {
            Some(b) => rest.push(b),
            None => rest,
        }
    }
}

/// Number of adjacent pairs in `v` that lie on different sides.
pub open spec fn side_flips(v: Seq<bool>) -> nat
    decreases v.len(),
{
    if v.len() < 2 {
        0
    } else {
        side_flips(v.drop_last()) + if v[v.len() - 1] != v[v.len() - 2] {
            1nat
        } else {
            0nat
        }
    }
}

/// First index of the last `lookback` entries of a sequence of length `len`.
pub open spec fn window_start(len: nat, lookback: nat) -> nat {
    if len >= lookback {
        (len - lookback) as nat
    } else {
        0
    }
}

/// Side changes among the present entries of `s` from index `start` on.
#[verifier::opaque]
pub open spec fn side_changes_from(s: Seq<Option<bool>>, start: nat) -> nat {
    side_flips(present_sides(s.subrange(start as int, s.len() as int)))
}

proof fn lemma_side_flips_bounded(v: Seq<bool>)
    ensures
        side_flips(v) <= v.len(),
        v.len() > 0 ==> side_flips(v) < v.len(),
    decreases v.len(),
{
    if v.len() >= 2 {
        lemma_side_flips_bounded(v.drop_last());
    }
}

proof fn lemma_present_sides_len(s: Seq<Option<bool>>)
    ensures
        present_sides(s).len() <= s.len(),
    decreases s.len(),
{
    if s.len() > 0 {
        lemma_present_sides_len(s.drop_last());
    }
}

/// Counts how often consecutive present entries of `sides[start..]` lie on
/// different sides.
fn count_side_changes(sides: &[Option<bool>], start: usize) -> (count: usize)
    requires
        start <= sides@.len(),
    ensures
        count == side_changes_from(sides@, start as nat),
{
    let n = sides.len();
    let mut count: usize = 0;
    let mut prev: Option<bool> = None;
    let mut i: usize = start;
    proof {
        assert(sides@.subrange(start as int, start as int) =~= Seq::<Option<bool>>::empty());
    }
    while i < n
        invariant
            start <= i <= n,
            n == sides@.len(),
            count <= i,
            count == side_flips(present_sides(sides@.subrange(start as int, i as int))),
            prev == (if present_sides(sides@.subrange(start as int, i as int)).len() == 0 {
                None::<bool>
            } else {
                Some(present_sides(sides@.subrange(start as int, i as int)).last())
            }),
        decreases n - i,
    {
        let ghost before = sides@.subrange(start as int, i as int);
        let ghost after = sides@.subrange(start as int, i + 1);
        proof {
            assert(after.drop_last() =~= before);
        }
        if let Some(side) = sides[i] {
            proof {
                assert(present_sides(after) == present_sides(before).push(side));
                let v = present_sides(after);
                if v.len() >= 2 {
                    assert(v.drop_last() =~= present_sides(before));
                }
            }
            if let Some(p) = prev {
                if p != side {
                    count = count + 1;
                }
            }
            prev = Some(side);
        } else {
            proof {
                assert(present_sides(after) == present_sides(before));
            }
        }
        i = i + 1;
    }
    proof {
        reveal(side_changes_from);
        assert(sides@.subrange(start as int, n as int) =~= sides@.subrange(start as int, sides@.len() as int));
    }
    count
}

/// Number of times the close price changed side of the BOLL mid line among
/// the last `lookback` rows. `mid_sides[i]` is `Some(close_i >= mid_i)` for
/// each row whose BOLL value is formed and `None` for the others. Fewer than
/// two rows give no crossing.
pub fn count_mid_crosses(mid_sides: &[Option<bool>], lookback: usize) -> (count: usize)
    ensures
        mid_sides@.len() < 2 ==> count == 0,
        mid_sides@.len() >= 2 ==> count == side_changes_from(
            mid_sides@,
            window_start(mid_sides@.len(), lookback as nat),
        ),
{
    if mid_sides.len() < 2 {
        return 0;
    }
    let start = mid_sides.len().saturating_sub(lookback);
    count_side_changes(mid_sides, start)
}

/// Number of sign changes of the MACD histogram among the last `lookback`
/// MACD entries. `hist_sides[i]` is `Some(hist_i >= 0)` where the MACD point
/// exists and `None` where it does not.
pub fn count_macd_hist_flips(hist_sides: &[Option<bool>], lookback: usize) -> (count: usize)
    ensures
        count == side_changes_from(hist_sides@, window_start(hist_sides@.len(), lookback as nat)),
{
    let start = hist_sides.len().saturating_sub(lookback);
    count_side_changes(hist_sides, start)
}

/// Side changes counted in the last `lookback` entries are fewer than
/// `lookback`: each change needs two present entries of the window.
pub proof fn lemma_side_changes_below_lookback(s: Seq<Option<bool>>, lookback: nat)
    requires
        lookback > 0,
    ensures
        side_changes_from(s, window_start(s.len(), lookback)) < lookback,
{
    reveal(side_changes_from);
    let start = window_start(s.len(), lookback);
    let w = s.subrange(start as int, s.len() as int);
    lemma_present_sides_len(w);
    lemma_side_flips_bounded(present_sides(w));
}


/// The explainable market states of the classifier.
#[derive(Debug, Clone, Copy, PartialEq, Eq, Structural)]
pub enum MarketState {
    RangeGrid,
    UpBreakWarning,
    DownBreakWarning,
    UptrendFollow,
    DowntrendRisk,
    Wait,
}

/// The three scores of the classifier, each reported in `0..=100`.
#[derive(Debug, Clone, Copy, PartialEq, Eq, Structural)]
pub struct MarketScores {
    pub range_score: u8,
    pub up_score: u8,
    pub down_score: u8,
}

/// A market state, its scores, and the reasons that raised them.
#[derive(Debug, Clone, PartialEq, Eq)]
pub struct MarketStateReport {
    pub state: MarketState,
    pub scores: MarketScores,
    pub reasons: Vec<String>,
}

/// What the indicators say about the latest row, once its BOLL value is
/// formed. Each flag is one comparison of indicator values; the flags about
/// the MACD and DMI trend hold only when both the latest and the previous
/// point exist.
pub struct MarketEvidence {
    /// Per row: `Some(close >= BOLL mid)` where BOLL is formed, else `None`.
    pub mid_sides: Vec<Option<bool>>,
    /// Per MACD entry: `Some(hist >= 0)` where MACD exists, else `None`.
    pub hist_sides: Vec<Option<bool>>,
    /// The relative slope of the BOLL mid over three rows is below 0.002 in size.
    pub mid_flat: bool,
    /// The percentile rank of the latest bandwidth lies in `0.15..=0.70`.
    pub bandwidth_moderate: bool,
    /// The latest ADX exists and is below 23.
    pub adx_weak: bool,
    /// The latest close is above the BOLL mid.
    pub close_above_mid: bool,
    /// The relative slope of the BOLL mid is above 0.0015.
    pub mid_rising: bool,
    /// The bandwidth rank is above 0.55 and the latest bandwidth exceeds the
    /// mean of the five before it.
    pub bandwidth_expanding: bool,
    /// The MACD histogram rose from the previous point.
    pub hist_rising: bool,
    /// The MACD histogram fell from the previous point.
    pub hist_falling: bool,
    /// Histogram above zero and DIF above DEA.
    pub macd_bullish: bool,
    /// Histogram below zero and DIF below DEA.
    pub macd_bearish: bool,
    /// +DI above -DI while ADX did not fall.
    pub plus_di_leads: bool,
    /// -DI above +DI while ADX did not fall.
    pub minus_di_leads: bool,
    /// The low of the last twelve rows is above that of the twelve before.
    pub higher_low: bool,
    /// The high of the last twelve rows is below that of the twelve before.
    pub lower_high: bool,
    /// The latest close is above the BOLL upper band.
    pub close_above_upper: bool,
    /// The latest close is below the BOLL lower band.
    pub close_below_lower: bool,
}

pub open spec fn weight(b: bool, w: u8) -> int {
    if b {
        w as int
    } else {
        0
    }
}

pub open spec fn mid_crosses_of(e: MarketEvidence) -> nat {
    if e.mid_sides@.len() < 2 {
        0
    } else {
        side_changes_from(e.mid_sides@, window_start(e.mid_sides@.len(), CROSS_LOOKBACK as nat))
    }
}

pub open spec fn hist_flips_of(e: MarketEvidence) -> nat {
    side_changes_from(e.hist_sides@, window_start(e.hist_sides@.len(), CROSS_LOOKBACK as nat))
}

/// The range score before it is capped at 100.
pub open spec fn raw_range_score(e: MarketEvidence) -> int {
    weight(e.mid_flat, 20) + weight(e.bandwidth_moderate, 20) + weight(mid_crosses_of(e) >= 3, 20)
        + weight(hist_flips_of(e) >= 2, 15) + weight(e.adx_weak, 25)
}

/// The up score before it is capped at 100.
pub open spec fn raw_up_score(e: MarketEvidence) -> int {
    weight(e.close_above_mid, 15) + weight(e.mid_rising, 20) + weight(e.bandwidth_expanding, 10)
        + weight(e.hist_rising, 15) + weight(e.macd_bullish, 15) + weight(e.plus_di_leads, 20)
        + weight(e.higher_low, 15) + weight(e.close_above_upper, 15)
}

/// The down score before it is capped at 100.
pub open spec fn raw_down_score(e: MarketEvidence) -> int {
    weight(e.bandwidth_expanding, 10) + weight(e.hist_falling, 15) + weight(e.macd_bearish, 15)
        + weight(e.minus_di_leads, 20) + weight(e.lower_high, 15) + weight(e.close_below_lower, 15)
}

pub open spec fn capped(score: int) -> int {
    if score > 100 {
        100
    } else {
        score
    }
}

/// The decision rule on the uncapped scores, in order of precedence.
pub open spec fn decide_state(range: int, up: int, down: int) -> MarketState {
    if range >= 65 && up < 55 && down < 55 {
        MarketState::RangeGrid
    } else if up >= 70 {
        MarketState::UptrendFollow
    } else if down >= 70 {
        MarketState::DowntrendRisk
    } else if up >= 55 {
        MarketState::UpBreakWarning
    } else if down >= 55 {
        MarketState::DownBreakWarning
    } else {
        MarketState::Wait
    }
}

pub open spec fn reason_if(b: bool, text: Seq<char>) -> Seq<Seq<char>> {
    if b {
        seq![text]
    } else {
        Seq::<Seq<char>>::empty()
    }
}

/// The reasons, in the order in which the evidence is weighed.
#[verifier::opaque]
pub open spec fn reasons_of(e: MarketEvidence) -> Seq<Seq<char>> {
    Seq::<Seq<char>>::empty() + reason_if(e.mid_flat, "BOLL 中轨接近走平"@)
        + reason_if(e.bandwidth_moderate, "BOLL 带宽处于非极端区间"@)
        + reason_if(mid_crosses_of(e) >= 3, "价格近期多次穿越中轨"@)
        + reason_if(hist_flips_of(e) >= 2, "MACD 柱近期反复正负切换"@)
        + reason_if(e.adx_weak, "ADX 较低，趋势强度偏弱"@)
        + reason_if(e.mid_rising, "BOLL 中轨开始上行"@)
        + reason_if(e.bandwidth_expanding, "BOLL 带宽开始扩张，震荡可能失效"@)
        + reason_if(e.macd_bullish, "MACD 多头动能偏强"@)
        + reason_if(e.macd_bearish, "MACD 空头动能偏强"@)
        + reason_if(e.plus_di_leads, "+DI 大于 -DI，且 ADX 没有走弱"@)
        + reason_if(e.minus_di_leads, "-DI 大于 +DI，且 ADX 没有走弱"@)
        + reason_if(e.close_above_upper, "收盘价突破 BOLL 上轨"@)
        + reason_if(e.close_below_lower, "收盘价跌破 BOLL 下轨"@)
}

pub open spec fn reason_texts(reasons: Seq<String>) -> Seq<Seq<char>> {
    reasons.map_values(|r: String| r@)
}

pub open spec fn zero_scores(s: MarketScores) -> bool {
    s.range_score == 0 && s.up_score == 0 && s.down_score == 0
}

fn push_reason(reasons: &mut Vec<String>, b: bool, text: &str)
    ensures
        reason_texts(final(reasons)@) == reason_texts(old(reasons)@) + reason_if(b, text@),
{
    if b {
        reasons.push(text.to_owned());
        proof {
            assert(reason_texts(final(reasons)@) =~= reason_texts(old(reasons)@) + seq![text@]);
        }
    } else {
        proof {
            assert(reason_texts(old(reasons)@) + reason_if(b, text@) =~= reason_texts(old(reasons)@));
        }
    }
}

fn cap_score(score: u8) -> (r: u8)
    ensures
        r == capped(score as int),
{
    if score > 100 {
        100
    } else {
        score
    }
}

fn weigh(b: bool, w: u8) -> (r: u8)
    ensures
        r == (if b { w } else { 0u8 }),
        r <= w,
{
    if b {
        w
    } else {
        0
    }
}

fn range_score_of(e: &MarketEvidence, many_crosses: bool, many_flips: bool) -> (score: u8)
    requires
        many_crosses == (mid_crosses_of(*e) >= 3),
        many_flips == (hist_flips_of(*e) >= 2),
    ensures
        score as int == raw_range_score(*e),
{
    let a = weigh(e.mid_flat, 20);
    let b = weigh(e.bandwidth_moderate, 20);
    let c = weigh(many_crosses, 20);
    let d = weigh(many_flips, 15);
    let f = weigh(e.adx_weak, 25);
    a + b + c + d + f
}

fn up_score_of(e: &MarketEvidence) -> (score: u8)
    ensures
        score as int == raw_up_score(*e),
{
    let a = weigh(e.close_above_mid, 15);
    let b = weigh(e.mid_rising, 20);
    let c = weigh(e.bandwidth_expanding, 10);
    let d = weigh(e.hist_rising, 15);
    let f = weigh(e.macd_bullish, 15);
    let g = weigh(e.plus_di_leads, 20);
    let h = weigh(e.higher_low, 15);
    let k = weigh(e.close_above_upper, 15);
    a + b + c + d + f + g + h + k
}

fn down_score_of(e: &MarketEvidence) -> (score: u8)
    ensures
        score as int == raw_down_score(*e),
{
    let a = weigh(e.bandwidth_expanding, 10);
    let b = weigh(e.hist_falling, 15);
    let c = weigh(e.macd_bearish, 15);
    let d = weigh(e.minus_di_leads, 20);
    let f = weigh(e.lower_high, 15);
    let g = weigh(e.close_below_lower, 15);
    a + b + c + d + f + g
}

fn evidence_reasons(e: &MarketEvidence, crosses_mid: usize, sign_flips: usize) -> (reasons: Vec<
    String,
>)
    requires
        crosses_mid == mid_crosses_of(*e),
        sign_flips == hist_flips_of(*e),
    ensures
        reason_texts(reasons@) == reasons_of(*e),
{
    let mut reasons: Vec<String> = Vec::new();
    proof {
        assert(reason_texts(reasons@) =~= Seq::<Seq<char>>::empty());
    }
    push_reason(&mut reasons, e.mid_flat, "BOLL 中轨接近走平");
    push_reason(&mut reasons, e.bandwidth_moderate, "BOLL 带宽处于非极端区间");
    push_reason(&mut reasons, crosses_mid >= 3, "价格近期多次穿越中轨");
    push_reason(&mut reasons, sign_flips >= 2, "MACD 柱近期反复正负切换");
    push_reason(&mut reasons, e.adx_weak, "ADX 较低，趋势强度偏弱");
    push_reason(&mut reasons, e.mid_rising, "BOLL 中轨开始上行");
    push_reason(&mut reasons, e.bandwidth_expanding, "BOLL 带宽开始扩张，震荡可能失效");
    push_reason(&mut reasons, e.macd_bullish, "MACD 多头动能偏强");
    push_reason(&mut reasons, e.macd_bearish, "MACD 空头动能偏强");
    push_reason(&mut reasons, e.plus_di_leads, "+DI 大于 -DI，且 ADX 没有走弱");
    push_reason(&mut reasons, e.minus_di_leads, "-DI 大于 +DI，且 ADX 没有走弱");
    push_reason(&mut reasons, e.close_above_upper, "收盘价突破 BOLL 上轨");
    push_reason(&mut reasons, e.close_below_lower, "收盘价跌破 BOLL 下轨");
    proof {
        reveal(reasons_of);
    }
    reasons
}

/// Classifies the market from the evidence of the latest row.
///
/// `kline_count` is the number of rows analysed; `evidence` is `None` when
/// the BOLL value of the latest row is not formed. Fewer than forty rows,
/// or no BOLL value, leave the state at `Wait` with zero scores and one
/// reason saying why. Otherwise the three scores are weighted sums of the
/// evidence, the state follows the decision rule on the uncapped scores,
/// and the reported scores are capped at 100.
pub fn classify_market(kline_count: usize, evidence: &Option<MarketEvidence>) -> (report:
    MarketStateReport)
    ensures
        kline_count < MIN_CLASSIFY_KLINES ==> report.state == MarketState::Wait && zero_scores(
            report.scores,
        ) && reason_texts(report.reasons@) == seq!["K线数量不足，先等待更多样本"@],
        kline_count >= MIN_CLASSIFY_KLINES && evidence is None ==> report.state
            == MarketState::Wait && zero_scores(report.scores) && reason_texts(report.reasons@)
            == seq!["BOLL 尚未形成"@],
        kline_count >= MIN_CLASSIFY_KLINES && evidence is Some ==> ({
            let e = evidence->0;
            &&& report.state == decide_state(raw_range_score(e), raw_up_score(e), raw_down_score(e))
            &&& report.scores.range_score == capped(raw_range_score(e))
            &&& report.scores.up_score == capped(raw_up_score(e))
            &&& report.scores.down_score == capped(raw_down_score(e))
            &&& reason_texts(report.reasons@) == reasons_of(e)
        }),
        // with evidence, the decision rule applied to the reported scores gives the state
        kline_count >= MIN_CLASSIFY_KLINES && evidence is Some ==> report.state == decide_state(
            report.scores.range_score as int,
            report.scores.up_score as int,
            report.scores.down_score as int,
        ),
        // every reported score lies in 0..=100
        report.scores.range_score <= 100,
        report.scores.up_score <= 100,
        report.scores.down_score <= 100,
        // each state meets its decision rule on the reported scores
        report.state == MarketState::RangeGrid ==> report.scores.range_score >= 65
            && report.scores.up_score < 55 && report.scores.down_score < 55,
        report.state == MarketState::UptrendFollow ==> report.scores.up_score >= 70,
        report.state == MarketState::DowntrendRisk ==> report.scores.down_score >= 70,
        report.state == MarketState::UpBreakWarning ==> 55 <= report.scores.up_score < 70,
        report.state == MarketState::DownBreakWarning ==> 55 <= report.scores.down_score < 70
            && report.scores.up_score < 55,
{
    if kline_count < MIN_CLASSIFY_KLINES {
        let mut reasons: Vec<String> = Vec::new();
        reasons.push("K线数量不足，先等待更多样本".to_owned());
        proof {
            assert(reason_texts(reasons@) =~= seq!["K线数量不足，先等待更多样本"@]);
        }
        return MarketStateReport {
            state: MarketState::Wait,
            scores: MarketScores { range_score: 0, up_score: 0, down_score: 0 },
            reasons,
        };
    }
    let e = match evidence {
        Some(e) => e,
        None => {
            let mut reasons: Vec<String> = Vec::new();
            reasons.push("BOLL 尚未形成".to_owned());
            proof {
                assert(reason_texts(reasons@) =~= seq!["BOLL 尚未形成"@]);
            }
            return MarketStateReport {
                state: MarketState::Wait,
                scores: MarketScores { range_score: 0, up_score: 0, down_score: 0 },
                reasons,
            };
        },
    };
    let crosses_mid = count_mid_crosses(&e.mid_sides, CROSS_LOOKBACK);
    let sign_flips = count_macd_hist_flips(&e.hist_sides, CROSS_LOOKBACK);
    let range_score = range_score_of(e, crosses_mid >= 3, sign_flips >= 2);
    let up_score = up_score_of(e);
    let down_score = down_score_of(e);
    let reasons = evidence_reasons(e, crosses_mid, sign_flips);

    let state = if range_score >= 65 && up_score < 55 && down_score < 55 {
        MarketState::RangeGrid
    } else if up_score >= 70 {
        MarketState::UptrendFollow
    } else if down_score >= 70 {
        MarketState::DowntrendRisk
    } else if up_score >= 55 {
        MarketState::UpBreakWarning
    } else if down_score >= 55 {
        MarketState::DownBreakWarning
    } else {
        MarketState::Wait
    };

    MarketStateReport {
        state,
        scores: MarketScores {
            range_score: cap_score(range_score),
            up_score: cap_score(up_score),
            down_score: cap_score(down_score),
        },
        reasons,
    }
}

/// Number of rows in each of the two windows whose lows and highs are
/// compared for market structure.
pub const STRUCTURE_WINDOW: usize = 12;

/// The two adjacent windows of `window` rows at the end of `len` rows whose
/// lows and highs are compared: `Some((previous_start, current_start))`,
/// where the previous window is `previous_start..current_start` and the
/// current one `current_start..len`; `None` when there are fewer than
/// `2 * window` rows.
pub fn recent_structure_windows(len: usize, window: usize) -> (windows: Option<(usize, usize)>)
    requires
        2 * window <= usize::MAX,
    ensures
        len < 2 * window ==> windows is None,
        len >= 2 * window ==> windows == Some(((len - 2 * window) as usize, (len - window) as usize)),
{
    if len < window * 2 {
        None
    } else {
        Some((len - window * 2, len - window))
    }
}

/// 1 for a raised flag, 0 otherwise.
pub open spec fn flag(b: bool) -> int {
    if b {
        1
    } else {
        0
    }
}

/// The three uncapped scores are fixed weighted sums of the evidence: range
/// 20 flat mid, 20 moderate bandwidth, 20 for three or more mid crossings in
/// the last 24 rows, 15 for two or more histogram sign changes in the last 24
/// MACD entries, 25 weak ADX; up 15 close above mid, 20 rising mid, 10
/// expanding bandwidth, 15 rising histogram, 15 bullish MACD, 20 +DI leading,
/// 15 higher low, 15 close above the upper band; down 10 expanding bandwidth,
/// 15 falling histogram, 15 bearish MACD, 20 -DI leading, 15 lower high, 15
/// close below the lower band.
pub proof fn lemma_score_weights(e: MarketEvidence)
    ensures
        raw_range_score(e) == 20 * flag(e.mid_flat) + 20 * flag(e.bandwidth_moderate) + 20 * flag(
            e.mid_sides@.len() >= 2 && side_changes_from(
                e.mid_sides@,
                if e.mid_sides@.len() >= 24 {
                    (e.mid_sides@.len() - 24) as nat
                } else {
                    0
                },
            ) >= 3,
        ) + 15 * flag(
            side_changes_from(
                e.hist_sides@,
                if e.hist_sides@.len() >= 24 {
                    (e.hist_sides@.len() - 24) as nat
                } else {
                    0
                },
            ) >= 2,
        ) + 25 * flag(e.adx_weak),
        raw_up_score(e) == 15 * flag(e.close_above_mid) + 20 * flag(e.mid_rising) + 10 * flag(
            e.bandwidth_expanding,
        ) + 15 * flag(e.hist_rising) + 15 * flag(e.macd_bullish) + 20 * flag(e.plus_di_leads)
            + 15 * flag(e.higher_low) + 15 * flag(e.close_above_upper),
        raw_down_score(e) == 10 * flag(e.bandwidth_expanding) + 15 * flag(e.hist_falling) + 15
            * flag(e.macd_bearish) + 20 * flag(e.minus_di_leads) + 15 * flag(e.lower_high) + 15
            * flag(e.close_below_lower),
        0 <= raw_range_score(e) <= 100,
        0 <= raw_up_score(e) <= 125,
        0 <= raw_down_score(e) <= 90,
{
}

/// Raising one piece of up evidence, all else equal, raises the uncapped up
/// score by that evidence's weight, and leaves the range score unchanged.
pub proof fn lemma_up_evidence_raises_up_score(e: MarketEvidence)
    ensures
        raw_up_score(MarketEvidence { close_above_upper: true, ..e }) == raw_up_score(
            MarketEvidence { close_above_upper: false, ..e },
        ) + 15,
        raw_up_score(MarketEvidence { close_above_mid: true, ..e }) == raw_up_score(
            MarketEvidence { close_above_mid: false, ..e },
        ) + 15,
        raw_up_score(MarketEvidence { mid_rising: true, ..e }) == raw_up_score(
            MarketEvidence { mid_rising: false, ..e },
        ) + 20,
        raw_up_score(MarketEvidence { hist_rising: true, ..e }) == raw_up_score(
            MarketEvidence { hist_rising: false, ..e },
        ) + 15,
        raw_up_score(MarketEvidence { macd_bullish: true, ..e }) == raw_up_score(
            MarketEvidence { macd_bullish: false, ..e },
        ) + 15,
        raw_up_score(MarketEvidence { plus_di_leads: true, ..e }) == raw_up_score(
            MarketEvidence { plus_di_leads: false, ..e },
        ) + 20,
        raw_up_score(MarketEvidence { higher_low: true, ..e }) == raw_up_score(
            MarketEvidence { higher_low: false, ..e },
        ) + 15,
        raw_up_score(MarketEvidence { bandwidth_expanding: true, ..e }) == raw_up_score(
            MarketEvidence { bandwidth_expanding: false, ..e },
        ) + 10,
        raw_down_score(MarketEvidence { bandwidth_expanding: true, ..e }) == raw_down_score(
            MarketEvidence { bandwidth_expanding: false, ..e },
        ) + 10,
        raw_range_score(MarketEvidence { close_above_upper: true, ..e }) == raw_range_score(
            MarketEvidence { close_above_upper: false, ..e },
        ),
{
}

/// Raising one piece of down evidence, all else equal, raises the uncapped
/// down score by that evidence's weight.
pub proof fn lemma_down_evidence_raises_down_score(e: MarketEvidence)
    ensures
        raw_down_score(MarketEvidence { close_below_lower: true, ..e }) == raw_down_score(
            MarketEvidence { close_below_lower: false, ..e },
        ) + 15,
        raw_down_score(MarketEvidence { hist_falling: true, ..e }) == raw_down_score(
            MarketEvidence { hist_falling: false, ..e },
        ) + 15,
        raw_down_score(MarketEvidence { macd_bearish: true, ..e }) == raw_down_score(
            MarketEvidence { macd_bearish: false, ..e },
        ) + 15,
        raw_down_score(MarketEvidence { minus_di_leads: true, ..e }) == raw_down_score(
            MarketEvidence { minus_di_leads: false, ..e },
        ) + 20,
        raw_down_score(MarketEvidence { lower_high: true, ..e }) == raw_down_score(
            MarketEvidence { lower_high: false, ..e },
        ) + 15,
        raw_range_score(MarketEvidence { mid_flat: true, ..e }) == raw_range_score(
            MarketEvidence { mid_flat: false, ..e },
        ) + 20,
        raw_range_score(MarketEvidence { bandwidth_moderate: true, ..e }) == raw_range_score(
            MarketEvidence { bandwidth_moderate: false, ..e },
        ) + 20,
        raw_range_score(MarketEvidence { adx_weak: true, ..e }) == raw_range_score(
            MarketEvidence { adx_weak: false, ..e },
        ) + 25,
{
}

/// Reported scores are the uncapped ones cut at 100.
pub proof fn lemma_capping(score: int)
    ensures
        score <= 100 ==> capped(score) == score,
        score > 100 ==> capped(score) == 100,
{
}

/// The decision rule, state by state: a range grid exactly when the range
/// score reaches 65 while both up and down stay below 55; an uptrend exactly
/// when the up score reaches 70; downtrend risk when the down score reaches
/// 70 and the up score does not; an up-break warning for an up score in
/// 55..70 with the down score below 70; a down-break warning for a down score
/// in 55..70 with the up score below 55; otherwise wait.
pub proof fn lemma_decision_rule(range: int, up: int, down: int)
    ensures
        decide_state(range, up, down) == MarketState::RangeGrid <==> range >= 65 && up < 55 && down
            < 55,
        decide_state(range, up, down) == MarketState::UptrendFollow <==> up >= 70,
        decide_state(range, up, down) == MarketState::DowntrendRisk <==> down >= 70 && up < 70,
        decide_state(range, up, down) == MarketState::UpBreakWarning <==> 55 <= up < 70 && down
            < 70,
        decide_state(range, up, down) == MarketState::DownBreakWarning <==> 55 <= down < 70 && up
            < 55,
        decide_state(range, up, down) == MarketState::Wait <==> range < 65 && up < 55 && down < 55,
{
}

/// The thresholds of the classifier: forty rows before any decision, and
/// crossings counted over the last twenty-four rows.
pub proof fn lemma_classifier_thresholds()
    ensures
        MIN_CLASSIFY_KLINES == 40,
        CROSS_LOOKBACK == 24,
        STRUCTURE_WINDOW == 12,
{
}

/// Side changes of entries that all lie on one side are zero.
pub proof fn lemma_one_side_no_changes(v: Seq<bool>, side: bool)
    requires
        forall|k: int| 0 <= k < v.len() ==> v[k] == side,
    ensures
        side_flips(v) == 0,
    decreases v.len(),
{
    if v.len() >= 2 {
        lemma_one_side_no_changes(v.drop_last(), side);
    }
}

/// A new entry on the other side of the last one adds one change; one on
/// the same side adds none; a missing entry changes nothing.
pub proof fn lemma_side_change_step(s: Seq<Option<bool>>, x: Option<bool>)
    ensures
        x is None ==> side_flips(present_sides(s.push(x))) == side_flips(present_sides(s)),
        x matches Some(b) && present_sides(s).len() > 0 && present_sides(s).last() != b
            ==> side_flips(present_sides(s.push(x))) == side_flips(present_sides(s)) + 1,
        x matches Some(b) && (present_sides(s).len() == 0 || present_sides(s).last() == b)
            ==> side_flips(present_sides(s.push(x))) == side_flips(present_sides(s)),
{
    assert(s.push(x).drop_last() =~= s);
    if let Some(b) = x {
        let v = present_sides(s.push(x));
        assert(v == present_sides(s).push(b));
        if v.len() >= 2 {
            assert(v.drop_last() =~= present_sides(s));
        }
    }
}

/// The window of the last `lookback` entries starts `lookback` entries
/// before the end, or at the start when there are fewer entries.
pub proof fn lemma_window_start(len: nat, lookback: nat)
    ensures
        len >= lookback ==> window_start(len, lookback) + lookback == len,
        len < lookback ==> window_start(len, lookback) == 0,
{
}

/// Counting from `start`: an empty window counts nothing, and each new entry
/// adds one exactly when it lies on the other side of the last present entry
/// of the window.
pub proof fn lemma_side_changes_from_step(s: Seq<Option<bool>>, start: nat, x: Option<bool>)
    requires
        start <= s.len(),
    ensures
        side_changes_from(s, s.len()) == 0,
        side_changes_from(s.push(x), start) == side_changes_from(s, start) + if x matches Some(b)
            && present_sides(s.subrange(start as int, s.len() as int)).len() > 0 && present_sides(
            s.subrange(start as int, s.len() as int),
        ).last() != b {
            1int
        } else {
            0int
        },
{
    reveal(side_changes_from);
    assert(s.subrange(s.len() as int, s.len() as int) =~= Seq::<Option<bool>>::empty());
    let w = s.subrange(start as int, s.len() as int);
    assert(s.push(x).subrange(start as int, s.push(x).len() as int) =~= w.push(x));
    lemma_side_change_step(w, x);
}

/// Whether the `k`-th reason of the classifier applies.
#[verifier::opaque]
pub open spec fn reason_applies(e: MarketEvidence, k: int) -> bool {
    if k == 0 {
        e.mid_flat
    } else if k == 1 {
        e.bandwidth_moderate
    } else if k == 2 {
        mid_crosses_of(e) >= 3
    } else if k == 3 {
        hist_flips_of(e) >= 2
    } else if k == 4 {
        e.adx_weak
    } else if k == 5 {
        e.mid_rising
    } else if k == 6 {
        e.bandwidth_expanding
    } else if k == 7 {
        e.macd_bullish
    } else if k == 8 {
        e.macd_bearish
    } else if k == 9 {
        e.plus_di_leads
    } else if k == 10 {
        e.minus_di_leads
    } else if k == 11 {
        e.close_above_upper
    } else {
        e.close_below_lower
    }
}

/// The text of the `k`-th reason of the classifier.
#[verifier::opaque]
pub open spec fn reason_text(k: int) -> Seq<char> {
    if k == 0 {
        "BOLL 中轨接近走平"@
    } else if k == 1 {
        "BOLL 带宽处于非极端区间"@
    } else if k == 2 {
        "价格近期多次穿越中轨"@
    } else if k == 3 {
        "MACD 柱近期反复正负切换"@
    } else if k == 4 {
        "ADX 较低，趋势强度偏弱"@
    } else if k == 5 {
        "BOLL 中轨开始上行"@
    } else if k == 6 {
        "BOLL 带宽开始扩张，震荡可能失效"@
    } else if k == 7 {
        "MACD 多头动能偏强"@
    } else if k == 8 {
        "MACD 空头动能偏强"@
    } else if k == 9 {
        "+DI 大于 -DI，且 ADX 没有走弱"@
    } else if k == 10 {
        "-DI 大于 +DI，且 ADX 没有走弱"@
    } else if k == 11 {
        "收盘价突破 BOLL 上轨"@
    } else {
        "收盘价跌破 BOLL 下轨"@
    }
}

/// The reasons among the first `k` that apply, in order.
#[verifier::opaque]
pub open spec fn reasons_upto(e: MarketEvidence, k: nat) -> Seq<Seq<char>>
    decreases k,
{
    if k == 0 {
        Seq::<Seq<char>>::empty()
    } else {
        reasons_upto(e, (k - 1) as nat) + reason_if(reason_applies(e, k - 1), reason_text(k - 1))
    }
}

/// How many of the first `k` reasons apply.
#[verifier::opaque]
pub open spec fn applying_upto(e: MarketEvidence, k: nat) -> int
    decreases k,
{
    if k == 0 {
        0
    } else {
        applying_upto(e, (k - 1) as nat) + flag(reason_applies(e, k - 1))
    }
}

proof fn lemma_applying_upto_nonneg(e: MarketEvidence, k: nat)
    ensures
        applying_upto(e, k) >= 0,
    decreases k,
{
    reveal(applying_upto);
    if k > 0 {
        lemma_applying_upto_nonneg(e, (k - 1) as nat);
    }
}

proof fn lemma_applying_upto_below(e: MarketEvidence, j: nat, k: nat)
    requires
        j < k,
        reason_applies(e, j as int),
    ensures
        0 <= applying_upto(e, j) < applying_upto(e, k),
    decreases k,
{
    reveal(applying_upto);
    lemma_applying_upto_nonneg(e, j);
    if k - 1 > j {
        lemma_applying_upto_below(e, j, (k - 1) as nat);
    }
}

proof fn lemma_reasons_upto(e: MarketEvidence, k: nat)
    ensures
        reasons_upto(e, k).len() == applying_upto(e, k),
        forall|j: nat|
            j < k && reason_applies(e, j as int) ==> #[trigger] reasons_upto(e, k)[applying_upto(e, j)]
                == reason_text(j as int),
    decreases k,
{
    reveal(applying_upto);
    reveal(reasons_upto);
    if k > 0 {
        let p = (k - 1) as nat;
        lemma_reasons_upto(e, p);
        let a = reasons_upto(e, p);
        let r = reasons_upto(e, k);
        assert(r == a + reason_if(reason_applies(e, k - 1), reason_text(k - 1)));
        assert forall|j: nat|
            j < k && reason_applies(e, j as int) implies #[trigger] r[applying_upto(e, j)] == reason_text(j as int) by {
            if j < k - 1 {
                lemma_applying_upto_below(e, j, p);
                assert(r[applying_upto(e, j)] == a[applying_upto(e, j)]);
            }
        }
    }
}

proof fn lemma_reason_step_0(e: MarketEvidence)
    ensures
        reasons_upto(e, 1) == reasons_upto(e, 0) + reason_if(e.mid_flat, "BOLL 中轨接近走平"@),
        applying_upto(e, 1) == applying_upto(e, 0) + flag(e.mid_flat),
        reason_applies(e, 0) == (e.mid_flat),
        reason_text(0) == "BOLL 中轨接近走平"@,
{
    reveal(reasons_upto);
    reveal(applying_upto);
    reveal(reason_applies);
    reveal(reason_text);
}

proof fn lemma_reason_step_1(e: MarketEvidence)
    ensures
        reasons_upto(e, 2) == reasons_upto(e, 1) + reason_if(e.bandwidth_moderate, "BOLL 带宽处于非极端区间"@),
        applying_upto(e, 2) == applying_upto(e, 1) + flag(e.bandwidth_moderate),
        reason_applies(e, 1) == (e.bandwidth_moderate),
        reason_text(1) == "BOLL 带宽处于非极端区间"@,
{
    reveal(reasons_upto);
    reveal(applying_upto);
    reveal(reason_applies);
    reveal(reason_text);
}

proof fn lemma_reason_step_2(e: MarketEvidence)
    ensures
        reasons_upto(e, 3) == reasons_upto(e, 2) + reason_if(mid_crosses_of(e) >= 3, "价格近期多次穿越中轨"@),
        applying_upto(e, 3) == applying_upto(e, 2) + flag(mid_crosses_of(e) >= 3),
        reason_applies(e, 2) == (mid_crosses_of(e) >= 3),
        reason_text(2) == "价格近期多次穿越中轨"@,
{
    reveal(reasons_upto);
    reveal(applying_upto);
    reveal(reason_applies);
    reveal(reason_text);
}

proof fn lemma_reason_step_3(e: MarketEvidence)
    ensures
        reasons_upto(e, 4) == reasons_upto(e, 3) + reason_if(hist_flips_of(e) >= 2, "MACD 柱近期反复正负切换"@),
        applying_upto(e, 4) == applying_upto(e, 3) + flag(hist_flips_of(e) >= 2),
        reason_applies(e, 3) == (hist_flips_of(e) >= 2),
        reason_text(3) == "MACD 柱近期反复正负切换"@,
{
    reveal(reasons_upto);
    reveal(applying_upto);
    reveal(reason_applies);
    reveal(reason_text);
}

proof fn lemma_reason_step_4(e: MarketEvidence)
    ensures
        reasons_upto(e, 5) == reasons_upto(e, 4) + reason_if(e.adx_weak, "ADX 较低，趋势强度偏弱"@),
        applying_upto(e, 5) == applying_upto(e, 4) + flag(e.adx_weak),
        reason_applies(e, 4) == (e.adx_weak),
        reason_text(4) == "ADX 较低，趋势强度偏弱"@,
{
    reveal(reasons_upto);
    reveal(applying_upto);
    reveal(reason_applies);
    reveal(reason_text);
}

proof fn lemma_reason_step_5(e: MarketEvidence)
    ensures
        reasons_upto(e, 6) == reasons_upto(e, 5) + reason_if(e.mid_rising, "BOLL 中轨开始上行"@),
        applying_upto(e, 6) == applying_upto(e, 5) + flag(e.mid_rising),
        reason_applies(e, 5) == (e.mid_rising),
        reason_text(5) == "BOLL 中轨开始上行"@,
{
    reveal(reasons_upto);
    reveal(applying_upto);
    reveal(reason_applies);
    reveal(reason_text);
}

proof fn lemma_reason_step_6(e: MarketEvidence)
    ensures
        reasons_upto(e, 7) == reasons_upto(e, 6) + reason_if(e.bandwidth_expanding, "BOLL 带宽开始扩张，震荡可能失效"@),
        applying_upto(e, 7) == applying_upto(e, 6) + flag(e.bandwidth_expanding),
        reason_applies(e, 6) == (e.bandwidth_expanding),
        reason_text(6) == "BOLL 带宽开始扩张，震荡可能失效"@,
{
    reveal(reasons_upto);
    reveal(applying_upto);
    reveal(reason_applies);
    reveal(reason_text);
}

proof fn lemma_reason_step_7(e: MarketEvidence)
    ensures
        reasons_upto(e, 8) == reasons_upto(e, 7) + reason_if(e.macd_bullish, "MACD 多头动能偏强"@),
        applying_upto(e, 8) == applying_upto(e, 7) + flag(e.macd_bullish),
        reason_applies(e, 7) == (e.macd_bullish),
        reason_text(7) == "MACD 多头动能偏强"@,
{
    reveal(reasons_upto);
    reveal(applying_upto);
    reveal(reason_applies);
    reveal(reason_text);
}

proof fn lemma_reason_step_8(e: MarketEvidence)
    ensures
        reasons_upto(e, 9) == reasons_upto(e, 8) + reason_if(e.macd_bearish, "MACD 空头动能偏强"@),
        applying_upto(e, 9) == applying_upto(e, 8) + flag(e.macd_bearish),
        reason_applies(e, 8) == (e.macd_bearish),
        reason_text(8) == "MACD 空头动能偏强"@,
{
    reveal(reasons_upto);
    reveal(applying_upto);
    reveal(reason_applies);
    reveal(reason_text);
}

proof fn lemma_reason_step_9(e: MarketEvidence)
    ensures
        reasons_upto(e, 10) == reasons_upto(e, 9) + reason_if(e.plus_di_leads, "+DI 大于 -DI，且 ADX 没有走弱"@),
        applying_upto(e, 10) == applying_upto(e, 9) + flag(e.plus_di_leads),
        reason_applies(e, 9) == (e.plus_di_leads),
        reason_text(9) == "+DI 大于 -DI，且 ADX 没有走弱"@,
{
    reveal(reasons_upto);
    reveal(applying_upto);
    reveal(reason_applies);
    reveal(reason_text);
}

proof fn lemma_reason_step_10(e: MarketEvidence)
    ensures
        reasons_upto(e, 11) == reasons_upto(e, 10) + reason_if(e.minus_di_leads, "-DI 大于 +DI，且 ADX 没有走弱"@),
        applying_upto(e, 11) == applying_upto(e, 10) + flag(e.minus_di_leads),
        reason_applies(e, 10) == (e.minus_di_leads),
        reason_text(10) == "-DI 大于 +DI，且 ADX 没有走弱"@,
{
    reveal(reasons_upto);
    reveal(applying_upto);
    reveal(reason_applies);
    reveal(reason_text);
}

proof fn lemma_reason_step_11(e: MarketEvidence)
    ensures
        reasons_upto(e, 12) == reasons_upto(e, 11) + reason_if(e.close_above_upper, "收盘价突破 BOLL 上轨"@),
        applying_upto(e, 12) == applying_upto(e, 11) + flag(e.close_above_upper),
        reason_applies(e, 11) == (e.close_above_upper),
        reason_text(11) == "收盘价突破 BOLL 上轨"@,
{
    reveal(reasons_upto);
    reveal(applying_upto);
    reveal(reason_applies);
    reveal(reason_text);
}

proof fn lemma_reason_step_12(e: MarketEvidence)
    ensures
        reasons_upto(e, 13) == reasons_upto(e, 12) + reason_if(e.close_below_lower, "收盘价跌破 BOLL 下轨"@),
        applying_upto(e, 13) == applying_upto(e, 12) + flag(e.close_below_lower),
        reason_applies(e, 12) == (e.close_below_lower),
        reason_text(12) == "收盘价跌破 BOLL 下轨"@,
{
    reveal(reasons_upto);
    reveal(applying_upto);
    reveal(reason_applies);
    reveal(reason_text);
}

proof fn lemma_reasons_of_unfolds(e: MarketEvidence)
    ensures
        reasons_of(e) == reasons_upto(e, 13),
        applying_upto(e, 0) == 0,
        applying_upto(e, 1) == flag(e.mid_flat),
        applying_upto(e, 2) == flag(e.mid_flat) + flag(e.bandwidth_moderate),
        applying_upto(e, 3) == flag(e.mid_flat) + flag(e.bandwidth_moderate) + flag(mid_crosses_of(e) >= 3),
        applying_upto(e, 4) == flag(e.mid_flat) + flag(e.bandwidth_moderate) + flag(mid_crosses_of(e) >= 3) + flag(hist_flips_of(e) >= 2),
        applying_upto(e, 5) == flag(e.mid_flat) + flag(e.bandwidth_moderate) + flag(mid_crosses_of(e) >= 3) + flag(hist_flips_of(e) >= 2) + flag(e.adx_weak),
        applying_upto(e, 6) == flag(e.mid_flat) + flag(e.bandwidth_moderate) + flag(mid_crosses_of(e) >= 3) + flag(hist_flips_of(e) >= 2) + flag(e.adx_weak) + flag(e.mid_rising),
        applying_upto(e, 7) == flag(e.mid_flat) + flag(e.bandwidth_moderate) + flag(mid_crosses_of(e) >= 3) + flag(hist_flips_of(e) >= 2) + flag(e.adx_weak) + flag(e.mid_rising) + flag(e.bandwidth_expanding),
        applying_upto(e, 8) == flag(e.mid_flat) + flag(e.bandwidth_moderate) + flag(mid_crosses_of(e) >= 3) + flag(hist_flips_of(e) >= 2) + flag(e.adx_weak) + flag(e.mid_rising) + flag(e.bandwidth_expanding) + flag(e.macd_bullish),
        applying_upto(e, 9) == flag(e.mid_flat) + flag(e.bandwidth_moderate) + flag(mid_crosses_of(e) >= 3) + flag(hist_flips_of(e) >= 2) + flag(e.adx_weak) + flag(e.mid_rising) + flag(e.bandwidth_expanding) + flag(e.macd_bullish) + flag(e.macd_bearish),
        applying_upto(e, 10) == flag(e.mid_flat) + flag(e.bandwidth_moderate) + flag(mid_crosses_of(e) >= 3) + flag(hist_flips_of(e) >= 2) + flag(e.adx_weak) + flag(e.mid_rising) + flag(e.bandwidth_expanding) + flag(e.macd_bullish) + flag(e.macd_bearish) + flag(e.plus_di_leads),
        applying_upto(e, 11) == flag(e.mid_flat) + flag(e.bandwidth_moderate) + flag(mid_crosses_of(e) >= 3) + flag(hist_flips_of(e) >= 2) + flag(e.adx_weak) + flag(e.mid_rising) + flag(e.bandwidth_expanding) + flag(e.macd_bullish) + flag(e.macd_bearish) + flag(e.plus_di_leads) + flag(e.minus_di_leads),
        applying_upto(e, 12) == flag(e.mid_flat) + flag(e.bandwidth_moderate) + flag(mid_crosses_of(e) >= 3) + flag(hist_flips_of(e) >= 2) + flag(e.adx_weak) + flag(e.mid_rising) + flag(e.bandwidth_expanding) + flag(e.macd_bullish) + flag(e.macd_bearish) + flag(e.plus_di_leads) + flag(e.minus_di_leads) + flag(e.close_above_upper),
        applying_upto(e, 13) == flag(e.mid_flat) + flag(e.bandwidth_moderate) + flag(mid_crosses_of(e) >= 3) + flag(hist_flips_of(e) >= 2) + flag(e.adx_weak) + flag(e.mid_rising) + flag(e.bandwidth_expanding) + flag(e.macd_bullish) + flag(e.macd_bearish) + flag(e.plus_di_leads) + flag(e.minus_di_leads) + flag(e.close_above_upper) + flag(e.close_below_lower),
{
    reveal(reasons_of);
    assert(reasons_upto(e, 0) == Seq::<Seq<char>>::empty()) by {
        reveal(reasons_upto);
    }
    assert(applying_upto(e, 0) == 0) by {
        reveal(applying_upto);
    }
    lemma_reason_step_0(e);
    lemma_reason_step_1(e);
    lemma_reason_step_2(e);
    lemma_reason_step_3(e);
    lemma_reason_step_4(e);
    lemma_reason_step_5(e);
    lemma_reason_step_6(e);
    lemma_reason_step_7(e);
    lemma_reason_step_8(e);
    lemma_reason_step_9(e);
    lemma_reason_step_10(e);
    lemma_reason_step_11(e);
    lemma_reason_step_12(e);
}

proof fn lemma_reason_table(e: MarketEvidence)
    ensures
        reason_applies(e, 0) == (e.mid_flat),
        reason_text(0) == "BOLL 中轨接近走平"@,
        reason_applies(e, 1) == (e.bandwidth_moderate),
        reason_text(1) == "BOLL 带宽处于非极端区间"@,
        reason_applies(e, 2) == (mid_crosses_of(e) >= 3),
        reason_text(2) == "价格近期多次穿越中轨"@,
        reason_applies(e, 3) == (hist_flips_of(e) >= 2),
        reason_text(3) == "MACD 柱近期反复正负切换"@,
        reason_applies(e, 4) == (e.adx_weak),
        reason_text(4) == "ADX 较低，趋势强度偏弱"@,
        reason_applies(e, 5) == (e.mid_rising),
        reason_text(5) == "BOLL 中轨开始上行"@,
        reason_applies(e, 6) == (e.bandwidth_expanding),
        reason_text(6) == "BOLL 带宽开始扩张，震荡可能失效"@,
        reason_applies(e, 7) == (e.macd_bullish),
        reason_text(7) == "MACD 多头动能偏强"@,
        reason_applies(e, 8) == (e.macd_bearish),
        reason_text(8) == "MACD 空头动能偏强"@,
        reason_applies(e, 9) == (e.plus_di_leads),
        reason_text(9) == "+DI 大于 -DI，且 ADX 没有走弱"@,
        reason_applies(e, 10) == (e.minus_di_leads),
        reason_text(10) == "-DI 大于 +DI，且 ADX 没有走弱"@,
        reason_applies(e, 11) == (e.close_above_upper),
        reason_text(11) == "收盘价突破 BOLL 上轨"@,
        reason_applies(e, 12) == (e.close_below_lower),
        reason_text(12) == "收盘价跌破 BOLL 下轨"@,
{
    reveal(reason_applies);
    reveal(reason_text);
}

/// One reason per raised piece of evidence, in the order the evidence is
/// weighed: the list is as long as the number of raised pieces, and each
/// raised piece's text stands right after the texts of the raised pieces
/// before it.
pub proof fn lemma_reasons_follow_evidence(e: MarketEvidence)
    ensures
        reasons_of(e).len() == flag(e.mid_flat) + flag(e.bandwidth_moderate) + flag(mid_crosses_of(e) >= 3) + flag(hist_flips_of(e) >= 2) + flag(e.adx_weak) + flag(e.mid_rising) + flag(e.bandwidth_expanding) + flag(e.macd_bullish) + flag(e.macd_bearish) + flag(e.plus_di_leads) + flag(e.minus_di_leads) + flag(e.close_above_upper) + flag(e.close_below_lower),
        e.mid_flat ==> reasons_of(e)[0] == "BOLL 中轨接近走平"@,
        e.bandwidth_moderate ==> reasons_of(e)[flag(e.mid_flat)] == "BOLL 带宽处于非极端区间"@,
        mid_crosses_of(e) >= 3 ==> reasons_of(e)[flag(e.mid_flat) + flag(e.bandwidth_moderate)] == "价格近期多次穿越中轨"@,
        hist_flips_of(e) >= 2 ==> reasons_of(e)[flag(e.mid_flat) + flag(e.bandwidth_moderate) + flag(mid_crosses_of(e) >= 3)] == "MACD 柱近期反复正负切换"@,
        e.adx_weak ==> reasons_of(e)[flag(e.mid_flat) + flag(e.bandwidth_moderate) + flag(mid_crosses_of(e) >= 3) + flag(hist_flips_of(e) >= 2)] == "ADX 较低，趋势强度偏弱"@,
        e.mid_rising ==> reasons_of(e)[flag(e.mid_flat) + flag(e.bandwidth_moderate) + flag(mid_crosses_of(e) >= 3) + flag(hist_flips_of(e) >= 2) + flag(e.adx_weak)] == "BOLL 中轨开始上行"@,
        e.bandwidth_expanding ==> reasons_of(e)[flag(e.mid_flat) + flag(e.bandwidth_moderate) + flag(mid_crosses_of(e) >= 3) + flag(hist_flips_of(e) >= 2) + flag(e.adx_weak) + flag(e.mid_rising)] == "BOLL 带宽开始扩张，震荡可能失效"@,
        e.macd_bullish ==> reasons_of(e)[flag(e.mid_flat) + flag(e.bandwidth_moderate) + flag(mid_crosses_of(e) >= 3) + flag(hist_flips_of(e) >= 2) + flag(e.adx_weak) + flag(e.mid_rising) + flag(e.bandwidth_expanding)] == "MACD 多头动能偏强"@,
        e.macd_bearish ==> reasons_of(e)[flag(e.mid_flat) + flag(e.bandwidth_moderate) + flag(mid_crosses_of(e) >= 3) + flag(hist_flips_of(e) >= 2) + flag(e.adx_weak) + flag(e.mid_rising) + flag(e.bandwidth_expanding) + flag(e.macd_bullish)] == "MACD 空头动能偏强"@,
        e.plus_di_leads ==> reasons_of(e)[flag(e.mid_flat) + flag(e.bandwidth_moderate) + flag(mid_crosses_of(e) >= 3) + flag(hist_flips_of(e) >= 2) + flag(e.adx_weak) + flag(e.mid_rising) + flag(e.bandwidth_expanding) + flag(e.macd_bullish) + flag(e.macd_bearish)] == "+DI 大于 -DI，且 ADX 没有走弱"@,
        e.minus_di_leads ==> reasons_of(e)[flag(e.mid_flat) + flag(e.bandwidth_moderate) + flag(mid_crosses_of(e) >= 3) + flag(hist_flips_of(e) >= 2) + flag(e.adx_weak) + flag(e.mid_rising) + flag(e.bandwidth_expanding) + flag(e.macd_bullish) + flag(e.macd_bearish) + flag(e.plus_di_leads)] == "-DI 大于 +DI，且 ADX 没有走弱"@,
        e.close_above_upper ==> reasons_of(e)[flag(e.mid_flat) + flag(e.bandwidth_moderate) + flag(mid_crosses_of(e) >= 3) + flag(hist_flips_of(e) >= 2) + flag(e.adx_weak) + flag(e.mid_rising) + flag(e.bandwidth_expanding) + flag(e.macd_bullish) + flag(e.macd_bearish) + flag(e.plus_di_leads) + flag(e.minus_di_leads)] == "收盘价突破 BOLL 上轨"@,
        e.close_below_lower ==> reasons_of(e)[flag(e.mid_flat) + flag(e.bandwidth_moderate) + flag(mid_crosses_of(e) >= 3) + flag(hist_flips_of(e) >= 2) + flag(e.adx_weak) + flag(e.mid_rising) + flag(e.bandwidth_expanding) + flag(e.macd_bullish) + flag(e.macd_bearish) + flag(e.plus_di_leads) + flag(e.minus_di_leads) + flag(e.close_above_upper)] == "收盘价跌破 BOLL 下轨"@,
{
    lemma_reasons_upto(e, 13);
    lemma_reasons_of_unfolds(e);
    lemma_reason_table(e);
    if e.mid_flat {
        assert(reasons_upto(e, 13)[applying_upto(e, 0)] == reason_text(0));
    }
    if e.bandwidth_moderate {
        assert(reasons_upto(e, 13)[applying_upto(e, 1)] == reason_text(1));
    }
    if mid_crosses_of(e) >= 3 {
        assert(reasons_upto(e, 13)[applying_upto(e, 2)] == reason_text(2));
    }
    if hist_flips_of(e) >= 2 {
        assert(reasons_upto(e, 13)[applying_upto(e, 3)] == reason_text(3));
    }
    if e.adx_weak {
        assert(reasons_upto(e, 13)[applying_upto(e, 4)] == reason_text(4));
    }
    if e.mid_rising {
        assert(reasons_upto(e, 13)[applying_upto(e, 5)] == reason_text(5));
    }
    if e.bandwidth_expanding {
        assert(reasons_upto(e, 13)[applying_upto(e, 6)] == reason_text(6));
    }
    if e.macd_bullish {
        assert(reasons_upto(e, 13)[applying_upto(e, 7)] == reason_text(7));
    }
    if e.macd_bearish {
        assert(reasons_upto(e, 13)[applying_upto(e, 8)] == reason_text(8));
    }
    if e.plus_di_leads {
        assert(reasons_upto(e, 13)[applying_upto(e, 9)] == reason_text(9));
    }
    if e.minus_di_leads {
        assert(reasons_upto(e, 13)[applying_upto(e, 10)] == reason_text(10));
    }
    if e.close_above_upper {
        assert(reasons_upto(e, 13)[applying_upto(e, 11)] == reason_text(11));
    }
    if e.close_below_lower {
        assert(reasons_upto(e, 13)[applying_upto(e, 12)] == reason_text(12));
    }
}

} // verus!
