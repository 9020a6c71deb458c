use vstd::prelude::*;
use crate::grid::{is_down_state, is_up_state, risk_action_of, switch_of, GridSwitch};
use crate::market::{MarketState, MarketStateReport};

verus! {

/// Strength of the grid watch signals, in percent.
pub const WATCH_STRENGTH_PERCENT: u8 = 70;

/// A chart signal on the latest row: its type, its strength in percent and
/// its text. The row's time and price complete it.
#[derive(Debug, Clone, PartialEq, Eq)]
pub struct SignalDecision {
    pub signal_type: String,
    pub strength_percent: u8,
    pub text: String,
}

pub open spec fn signal_view(s: SignalDecision) -> (Seq<char>, u8, Seq<char>) {
    (s.signal_type@, s.strength_percent, s.text@)
}

pub open spec fn signals_view(s: Seq<SignalDecision>) -> Seq<(Seq<char>, u8, Seq<char>)> {
    s.map_values(|d: SignalDecision| signal_view(d))
}

pub open spec fn signal_if(b: bool, kind: Seq<char>, strength: u8, text: Seq<char>) -> Seq<
    (Seq<char>, u8, Seq<char>),
> {
    if b {
        seq![(kind, strength, text)]
    } else {
        Seq::empty()
    }
}

/// The signals for the latest row, in order: a buy watch, a sell watch, then
/// the break warning of the market state, whose strength is its score.
pub open spec fn expected_signals(
    kline_count: nat,
    latest_boll_formed: bool,
    buy_watch: bool,
    sell_watch: bool,
    state: MarketState,
    up_score: u8,
    down_score: u8,
) -> Seq<(Seq<char>, u8, Seq<char>)> {
    if kline_count < 2 || !latest_boll_formed {
        Seq::empty()
    } else {
        signal_if(
            buy_watch,
            "grid_buy_watch"@,
            WATCH_STRENGTH_PERCENT,
            "价格接近 BOLL 下轨，且 MACD 空头动能减弱"@,
        ) + signal_if(
            sell_watch,
            "grid_sell_watch"@,
            WATCH_STRENGTH_PERCENT,
            "价格接近 BOLL 上轨，且 MACD 多头动能减弱"@,
        ) + signal_if(
            is_up_state(state),
            "up_break_warning"@,
            up_score,
            "震荡可能向上失效，普通网格应减少卖出或准备上移"@,
        ) + signal_if(
            is_down_state(state),
            "down_break_warning"@,
            down_score,
            "震荡可能向下失效，普通网格应暂停新增买单"@,
        )
    }
}

fn push_signal(
    signals: &mut Vec<SignalDecision>,
    b: bool,
    kind: &str,
    strength: u8,
    text: &str,
)
    ensures
        signals_view(final(signals)@) == signals_view(old(signals)@) + signal_if(
            b,
            kind@,
            strength,
            text@,
        ),
        final(signals)@.len() == old(signals)@.len() + if b {
            1int
        } else {
            0int
        },
        forall|k: int| 0 <= k < old(signals)@.len() ==> final(signals)@[k] == old(signals)@[k],
        b ==> final(signals)@[old(signals)@.len() as int].strength_percent == strength,
{
    if b {
        signals.push(
            SignalDecision { signal_type: kind.to_owned(), strength_percent: strength, text: text.to_owned() },
        );
        proof {
            assert(signals_view(final(signals)@) =~= signals_view(old(signals)@) + seq![
                (kind@, strength, text@),
            ]);
        }
    } else {
        proof {
            assert(signals_view(old(signals)@) + signal_if(b, kind@, strength, text@)
                =~= signals_view(old(signals)@));
        }
    }
}

/// The chart signals for the latest of `kline_count` rows.
///
/// There are none with fewer than two rows or without a BOLL value on the
/// latest row. Otherwise `buy_watch` (close within 0.5% above the BOLL lower
/// band while the MACD histogram rises) gives a buy watch, `sell_watch`
/// (close within 0.5% below the upper band while the histogram falls) a sell
/// watch, both of strength 70%, and an up or down state of `market` a break
/// warning whose strength is the up or down score.
pub fn build_signals(
    kline_count: usize,
    latest_boll_formed: bool,
    buy_watch: bool,
    sell_watch: bool,
    market: &MarketStateReport,
) -> (signals: Vec<SignalDecision>)
    ensures
        signals_view(signals@) == expected_signals(
            kline_count as nat,
            latest_boll_formed,
            buy_watch,
            sell_watch,
            market.state,
            market.scores.up_score,
            market.scores.down_score,
        ),
        // strengths stay within 0..=100 when the scores do
        market.scores.up_score <= 100 && market.scores.down_score <= 100 ==> forall|k: int|
            0 <= k < signals@.len() ==> #[trigger] signals@[k].strength_percent <= 100,
{
    let mut signals: Vec<SignalDecision> = Vec::new();
    proof {
        assert(signals_view(signals@) =~= Seq::empty());
    }
    if kline_count < 2 || !latest_boll_formed {
        return signals;
    }
    push_signal(
        &mut signals,
        buy_watch,
        "grid_buy_watch",
        WATCH_STRENGTH_PERCENT,
        "价格接近 BOLL 下轨，且 MACD 空头动能减弱",
    );
    proof {
        assert(signals_view(signals@) =~= signal_if(
            buy_watch,
            "grid_buy_watch"@,
            WATCH_STRENGTH_PERCENT,
            "价格接近 BOLL 下轨，且 MACD 空头动能减弱"@,
        ));
    }
    push_signal(
        &mut signals,
        sell_watch,
        "grid_sell_watch",
        WATCH_STRENGTH_PERCENT,
        "价格接近 BOLL 上轨，且 MACD 多头动能减弱",
    );
    let up = match market.state {
        MarketState::UpBreakWarning | MarketState::UptrendFollow => true,
        _ => false,
    };
    let down = match market.state {
        MarketState::DownBreakWarning | MarketState::DowntrendRisk => true,
        _ => false,
    };
    let ghost bounded = market.scores.up_score <= 100 && market.scores.down_score <= 100;
    assert(forall|k: int| 0 <= k < signals@.len() ==> #[trigger] signals@[k].strength_percent <= 100);
    push_signal(
        &mut signals,
        up,
        "up_break_warning",
        market.scores.up_score,
        "震荡可能向上失效，普通网格应减少卖出或准备上移",
    );
    assert(bounded ==> forall|k: int|
        0 <= k < signals@.len() ==> #[trigger] signals@[k].strength_percent <= 100);
    push_signal(
        &mut signals,
        down,
        "down_break_warning",
        market.scores.down_score,
        "震荡可能向下失效，普通网格应暂停新增买单",
    );
    signals
}

pub open spec fn signal_types(v: Seq<(Seq<char>, u8, Seq<char>)>) -> Seq<Seq<char>> {
    v.map_values(|t: (Seq<char>, u8, Seq<char>)| t.0)
}

/// Warnings and grid plans agree: once the latest row has a BOLL value, the
/// signals carry an up-break warning exactly when the grid plan switches on
/// a trend-follow grid, and a down-break warning exactly when the plan
/// pauses new buy orders.
pub proof fn lemma_warnings_match_grid_plan(
    kline_count: nat,
    buy_watch: bool,
    sell_watch: bool,
    state: MarketState,
    up_score: u8,
    down_score: u8,
)
    requires
        kline_count >= 2,
    ensures
        signal_types(
            expected_signals(kline_count, true, buy_watch, sell_watch, state, up_score, down_score),
        ).contains("up_break_warning"@) <==> switch_of(state) == GridSwitch::On,
        signal_types(
            expected_signals(kline_count, true, buy_watch, sell_watch, state, up_score, down_score),
        ).contains("down_break_warning"@) <==> risk_action_of(state) == "pause_new_buy_orders"@,
{
    reveal_strlit("grid_buy_watch");
    reveal_strlit("grid_sell_watch");
    reveal_strlit("up_break_warning");
    reveal_strlit("down_break_warning");
    reveal_strlit("normal");
    reveal_strlit("pause_new_buy_orders");
    reveal_strlit("reduce_sell_strength_and_move_grid_up_on_pullback");
    reveal_strlit("wait_for_clearer_state");
    let v = expected_signals(kline_count, true, buy_watch, sell_watch, state, up_score, down_score);
    let buy = signal_if(
        buy_watch,
        "grid_buy_watch"@,
        WATCH_STRENGTH_PERCENT,
        "价格接近 BOLL 下轨，且 MACD 空头动能减弱"@,
    );
    let sell = signal_if(
        sell_watch,
        "grid_sell_watch"@,
        WATCH_STRENGTH_PERCENT,
        "价格接近 BOLL 上轨，且 MACD 多头动能减弱"@,
    );
    let upw = signal_if(
        is_up_state(state),
        "up_break_warning"@,
        up_score,
        "震荡可能向上失效，普通网格应减少卖出或准备上移"@,
    );
    let downw = signal_if(
        is_down_state(state),
        "down_break_warning"@,
        down_score,
        "震荡可能向下失效，普通网格应暂停新增买单"@,
    );
    let types = signal_types(v);
    assert(types =~= signal_types(buy) + signal_types(sell) + signal_types(upw) + signal_types(
        downw,
    ));
    assert("grid_buy_watch"@[0] != "up_break_warning"@[0]);
    assert("grid_sell_watch"@[0] != "up_break_warning"@[0]);
    assert("down_break_warning"@ != "up_break_warning"@);
    assert("grid_buy_watch"@[0] != "down_break_warning"@[0]);
    assert("grid_sell_watch"@[0] != "down_break_warning"@[0]);
    if types.contains("up_break_warning"@) {
        let k = choose|k: int| 0 <= k < types.len() && types[k] == "up_break_warning"@;
        assert(is_up_state(state));
    }
    if is_up_state(state) {
        assert(types[(buy.len() + sell.len()) as int] == "up_break_warning"@);
    }
    assert("normal"@[0] != "pause_new_buy_orders"@[0]);
    assert("reduce_sell_strength_and_move_grid_up_on_pullback"@[0] != "pause_new_buy_orders"@[0]);
    assert("wait_for_clearer_state"@[0] != "pause_new_buy_orders"@[0]);
    if types.contains("down_break_warning"@) {
        let k = choose|k: int| 0 <= k < types.len() && types[k] == "down_break_warning"@;
        assert(is_down_state(state));
    }
    if is_down_state(state) {
        assert(types[(buy.len() + sell.len() + upw.len()) as int] == "down_break_warning"@);
    }
}

/// The signals of a row with history and a BOLL value: a buy watch of
/// strength 70 first exactly when `buy_watch` holds, whatever the state; a
/// sell watch of strength 70 right after it exactly when `sell_watch` holds;
/// then, in an up state, an up-break warning whose strength is the up score,
/// in a down state a down-break warning whose strength is the down score, and
/// nothing more in the range and wait states. Without two rows or without a
/// BOLL value there are no signals.
pub proof fn lemma_signal_contents(
    kline_count: nat,
    latest_boll_formed: bool,
    buy_watch: bool,
    sell_watch: bool,
    state: MarketState,
    up_score: u8,
    down_score: u8,
)
    ensures
        ({
            let v = expected_signals(
                kline_count,
                latest_boll_formed,
                buy_watch,
                sell_watch,
                state,
                up_score,
                down_score,
            );
            let n_watch = (if buy_watch { 1int } else { 0int }) + (if sell_watch { 1int } else { 0int });
            let up = state == MarketState::UptrendFollow || state == MarketState::UpBreakWarning;
            let down = state == MarketState::DowntrendRisk || state == MarketState::DownBreakWarning;
            &&& kline_count < 2 || !latest_boll_formed ==> v.len() == 0
            &&& kline_count >= 2 && latest_boll_formed ==> {
                &&& v.len() == n_watch + if up || down { 1int } else { 0int }
                &&& buy_watch ==> v[0] == ("grid_buy_watch"@, 70u8, "价格接近 BOLL 下轨，且 MACD 空头动能减弱"@)
                &&& sell_watch ==> v[n_watch - 1] == ("grid_sell_watch"@, 70u8, "价格接近 BOLL 上轨，且 MACD 多头动能减弱"@)
                &&& up ==> v[n_watch] == ("up_break_warning"@, up_score, "震荡可能向上失效，普通网格应减少卖出或准备上移"@)
                &&& down ==> v[n_watch] == ("down_break_warning"@, down_score, "震荡可能向下失效，普通网格应暂停新增买单"@)
            }
        }),
{
    if kline_count >= 2 && latest_boll_formed {
        let buy = signal_if(
            buy_watch,
            "grid_buy_watch"@,
            WATCH_STRENGTH_PERCENT,
            "价格接近 BOLL 下轨，且 MACD 空头动能减弱"@,
        );
        let sell = signal_if(
            sell_watch,
            "grid_sell_watch"@,
            WATCH_STRENGTH_PERCENT,
            "价格接近 BOLL 上轨，且 MACD 多头动能减弱"@,
        );
        let upw = signal_if(
            is_up_state(state),
            "up_break_warning"@,
            up_score,
            "震荡可能向上失效，普通网格应减少卖出或准备上移"@,
        );
        let downw = signal_if(
            is_down_state(state),
            "down_break_warning"@,
            down_score,
            "震荡可能向下失效，普通网格应暂停新增买单"@,
        );
        let v = expected_signals(
            kline_count,
            latest_boll_formed,
            buy_watch,
            sell_watch,
            state,
            up_score,
            down_score,
        );
        assert(v == buy + sell + upw + downw);
    }
}

} // verus!
