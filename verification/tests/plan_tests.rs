use rs_tools::grid::{grid_plan_rules, GridBand, GridSwitch};
use rs_tools::market::{MarketScores, MarketState, MarketStateReport};
use rs_tools::signals::build_signals;

fn report(state: MarketState, up: u8, down: u8) -> MarketStateReport {
    MarketStateReport {
        state,
        scores: MarketScores { range_score: 0, up_score: up, down_score: down },
        reasons: Vec::new(),
    }
}

#[test]
fn range_grid_rules() {
    let r = grid_plan_rules(MarketState::RangeGrid, 20);
    assert_eq!(r.mode, "range_grid");
    assert_eq!(r.risk_action, "normal");
    assert_eq!(r.grid_count, 20);
    assert_eq!(r.band, GridBand::Boll);
    assert_eq!(r.step_divisor, Some(20));
    assert_eq!(r.switch, GridSwitch::WhenStepPositive);
    assert_eq!(grid_plan_rules(MarketState::RangeGrid, 0).step_divisor, None);
}

#[test]
fn uptrend_grid_rules() {
    for state in [MarketState::UptrendFollow, MarketState::UpBreakWarning] {
        let r = grid_plan_rules(state, 0);
        assert_eq!(r.mode, "uptrend_follow");
        assert_eq!(r.risk_action, "reduce_sell_strength_and_move_grid_up_on_pullback");
        assert_eq!(r.band, GridBand::AtrAroundCenter);
        assert_eq!(r.step_divisor, Some(1));
        assert_eq!(r.switch, GridSwitch::On);
    }
    assert_eq!(grid_plan_rules(MarketState::UptrendFollow, 8).step_divisor, Some(8));
}

#[test]
fn risk_and_wait_grid_rules() {
    for state in [MarketState::DowntrendRisk, MarketState::DownBreakWarning] {
        let r = grid_plan_rules(state, 20);
        assert_eq!(r.mode, "risk_control");
        assert_eq!(r.risk_action, "pause_new_buy_orders");
        assert_eq!(r.band, GridBand::CenterOnly);
        assert_eq!(r.step_divisor, None);
        assert_eq!(r.switch, GridSwitch::Off);
    }
    let r = grid_plan_rules(MarketState::Wait, 20);
    assert_eq!(r.mode, "wait");
    assert_eq!(r.risk_action, "wait_for_clearer_state");
    assert_eq!(r.switch, GridSwitch::Off);
}

#[test]
fn no_signals_without_history_or_boll() {
    let m = report(MarketState::UptrendFollow, 80, 0);
    assert!(build_signals(1, true, true, true, &m).is_empty());
    assert!(build_signals(50, false, true, true, &m).is_empty());
}

#[test]
fn watch_and_warning_signals() {
    let m = report(MarketState::UptrendFollow, 85, 10);
    let s = build_signals(50, true, true, true, &m);
    assert_eq!(s.len(), 3);
    assert_eq!(s[0].signal_type, "grid_buy_watch");
    assert_eq!(s[0].strength_percent, 70);
    assert_eq!(s[0].text, "价格接近 BOLL 下轨，且 MACD 空头动能减弱");
    assert_eq!(s[1].signal_type, "grid_sell_watch");
    assert_eq!(s[1].text, "价格接近 BOLL 上轨，且 MACD 多头动能减弱");
    assert_eq!(s[2].signal_type, "up_break_warning");
    assert_eq!(s[2].strength_percent, 85);
    assert_eq!(s[2].text, "震荡可能向上失效，普通网格应减少卖出或准备上移");
}

#[test]
fn down_warning_uses_down_score() {
    let m = report(MarketState::DownBreakWarning, 10, 60);
    let s = build_signals(50, true, false, false, &m);
    assert_eq!(s.len(), 1);
    assert_eq!(s[0].signal_type, "down_break_warning");
    assert_eq!(s[0].strength_percent, 60);
    assert_eq!(s[0].text, "震荡可能向下失效，普通网格应暂停新增买单");
}

#[test]
fn range_and_wait_raise_no_warning() {
    for state in [MarketState::RangeGrid, MarketState::Wait] {
        let s = build_signals(50, true, false, true, &report(state, 40, 40));
        assert_eq!(s.len(), 1);
        assert_eq!(s[0].signal_type, "grid_sell_watch");
    }
}

#[test]
fn warnings_follow_grid_plan() {
    let states = [
        MarketState::RangeGrid,
        MarketState::UpBreakWarning,
        MarketState::DownBreakWarning,
        MarketState::UptrendFollow,
        MarketState::DowntrendRisk,
        MarketState::Wait,
    ];
    for state in states {
        let rules = grid_plan_rules(state, 20);
        let signals = build_signals(50, true, true, true, &report(state, 60, 60));
        let has_up = signals.iter().any(|s| s.signal_type == "up_break_warning");
        let has_down = signals.iter().any(|s| s.signal_type == "down_break_warning");
        assert_eq!(has_up, rules.switch == GridSwitch::On);
        assert_eq!(has_down, rules.risk_action == "pause_new_buy_orders");
    }
}
