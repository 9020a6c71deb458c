use rs_tools::market::{
    classify_market, count_macd_hist_flips, count_mid_crosses, recent_structure_windows,
    MarketEvidence, MarketState, CROSS_LOOKBACK,
};

fn quiet_evidence(rows: usize) -> MarketEvidence {
    MarketEvidence {
        mid_sides: vec![Some(true); rows],
        hist_sides: vec![Some(true); rows],
        mid_flat: false,
        bandwidth_moderate: false,
        adx_weak: false,
        close_above_mid: false,
        mid_rising: false,
        bandwidth_expanding: false,
        hist_rising: false,
        hist_falling: false,
        macd_bullish: false,
        macd_bearish: false,
        plus_di_leads: false,
        minus_di_leads: false,
        higher_low: false,
        lower_high: false,
        close_above_upper: false,
        close_below_lower: false,
    }
}

fn alternating(rows: usize) -> Vec<Option<bool>> {
    (0..rows).map(|i| Some(i % 2 == 0)).collect()
}

#[test]
fn too_few_rows_wait() {
    let report = classify_market(39, &Some(quiet_evidence(39)));
    assert_eq!(report.state, MarketState::Wait);
    assert_eq!(report.scores.range_score, 0);
    assert_eq!(report.scores.up_score, 0);
    assert_eq!(report.scores.down_score, 0);
    assert_eq!(report.reasons, vec!["K线数量不足，先等待更多样本".to_string()]);
}

#[test]
fn missing_boll_wait() {
    let report = classify_market(60, &None);
    assert_eq!(report.state, MarketState::Wait);
    assert_eq!(report.scores.range_score, 0);
    assert_eq!(report.reasons, vec!["BOLL 尚未形成".to_string()]);
}

#[test]
fn quiet_market_waits_without_reasons() {
    let report = classify_market(60, &Some(quiet_evidence(60)));
    assert_eq!(report.state, MarketState::Wait);
    assert_eq!(report.scores.range_score, 0);
    assert_eq!(report.scores.up_score, 0);
    assert_eq!(report.scores.down_score, 0);
    assert!(report.reasons.is_empty());
}

#[test]
fn synthetic_range_is_range_grid() {
    let mut e = quiet_evidence(60);
    e.mid_flat = true;
    e.bandwidth_moderate = true;
    e.mid_sides = alternating(60);
    e.hist_sides = alternating(60);
    e.adx_weak = true;
    e.close_above_mid = true;
    let report = classify_market(60, &Some(e));
    assert_eq!(report.state, MarketState::RangeGrid);
    assert_eq!(report.scores.range_score, 100);
    assert_eq!(report.scores.up_score, 15);
    assert_eq!(report.scores.down_score, 0);
    assert_eq!(
        report.reasons,
        vec![
            "BOLL 中轨接近走平".to_string(),
            "BOLL 带宽处于非极端区间".to_string(),
            "价格近期多次穿越中轨".to_string(),
            "MACD 柱近期反复正负切换".to_string(),
            "ADX 较低，趋势强度偏弱".to_string(),
        ]
    );
}

#[test]
fn synthetic_uptrend_caps_score() {
    let mut e = quiet_evidence(60);
    e.close_above_mid = true;
    e.mid_rising = true;
    e.bandwidth_expanding = true;
    e.hist_rising = true;
    e.macd_bullish = true;
    e.plus_di_leads = true;
    e.higher_low = true;
    e.close_above_upper = true;
    let report = classify_market(60, &Some(e));
    assert_eq!(report.state, MarketState::UptrendFollow);
    assert_eq!(report.scores.up_score, 100);
    assert_eq!(report.scores.down_score, 10);
    assert_eq!(
        report.reasons,
        vec![
            "BOLL 中轨开始上行".to_string(),
            "BOLL 带宽开始扩张，震荡可能失效".to_string(),
            "MACD 多头动能偏强".to_string(),
            "+DI 大于 -DI，且 ADX 没有走弱".to_string(),
            "收盘价突破 BOLL 上轨".to_string(),
        ]
    );
}

#[test]
fn synthetic_downtrend_is_risk() {
    let mut e = quiet_evidence(60);
    e.bandwidth_expanding = true;
    e.hist_falling = true;
    e.macd_bearish = true;
    e.minus_di_leads = true;
    e.lower_high = true;
    e.close_below_lower = true;
    let report = classify_market(60, &Some(e));
    assert_eq!(report.state, MarketState::DowntrendRisk);
    assert_eq!(report.scores.down_score, 90);
    assert_eq!(report.scores.up_score, 10);
}

#[test]
fn up_break_warning_between_thresholds() {
    let mut e = quiet_evidence(60);
    e.close_above_mid = true;
    e.mid_rising = true;
    e.plus_di_leads = true;
    let report = classify_market(60, &Some(e));
    assert_eq!(report.scores.up_score, 55);
    assert_eq!(report.state, MarketState::UpBreakWarning);
}

#[test]
fn down_break_warning_between_thresholds() {
    let mut e = quiet_evidence(60);
    e.hist_falling = true;
    e.minus_di_leads = true;
    e.close_below_lower = true;
    e.lower_high = true;
    let report = classify_market(60, &Some(e));
    assert_eq!(report.scores.down_score, 65);
    assert_eq!(report.state, MarketState::DownBreakWarning);
}

#[test]
fn strong_down_wins_over_moderate_up() {
    let mut e = quiet_evidence(60);
    e.close_above_mid = true;
    e.mid_rising = true;
    e.plus_di_leads = true;
    e.hist_falling = true;
    e.macd_bearish = true;
    e.minus_di_leads = true;
    e.lower_high = true;
    let report = classify_market(60, &Some(e));
    assert_eq!(report.scores.up_score, 55);
    assert_eq!(report.scores.down_score, 65);
    assert_eq!(report.state, MarketState::UpBreakWarning);
    e = quiet_evidence(60);
    e.close_above_mid = true;
    e.mid_rising = true;
    e.plus_di_leads = true;
    e.bandwidth_expanding = true;
    e.hist_falling = true;
    e.macd_bearish = true;
    e.minus_di_leads = true;
    e.lower_high = true;
    let report = classify_market(60, &Some(e));
    assert_eq!(report.scores.up_score, 65);
    assert_eq!(report.scores.down_score, 75);
    assert_eq!(report.state, MarketState::DowntrendRisk);
}

#[test]
fn range_blocked_by_up_score() {
    let mut e = quiet_evidence(60);
    e.mid_flat = true;
    e.bandwidth_moderate = true;
    e.adx_weak = true;
    e.close_above_mid = true;
    e.mid_rising = true;
    e.hist_rising = true;
    e.higher_low = true;
    let report = classify_market(60, &Some(e));
    assert_eq!(report.scores.range_score, 65);
    assert_eq!(report.scores.up_score, 65);
    assert_eq!(report.state, MarketState::UpBreakWarning);
}

#[test]
fn mid_crosses_counted_in_lookback() {
    let sides = vec![Some(true), Some(false), None, Some(false), Some(true), Some(true), None];
    assert_eq!(count_mid_crosses(&sides, 24), 2);
    assert_eq!(count_mid_crosses(&sides, 4), 1);
    assert_eq!(count_mid_crosses(&sides, 0), 0);
    assert_eq!(count_mid_crosses(&[Some(true)], 24), 0);
    assert_eq!(count_mid_crosses(&[], 24), 0);
    let long = alternating(40);
    assert_eq!(count_mid_crosses(&long, CROSS_LOOKBACK), 23);
}

#[test]
fn hist_flips_skip_missing_points() {
    let sides = vec![None, None, Some(false), None, Some(true), Some(false)];
    assert_eq!(count_macd_hist_flips(&sides, 24), 2);
    assert_eq!(count_macd_hist_flips(&sides, 2), 1);
    assert_eq!(count_macd_hist_flips(&[Some(true)], 24), 0);
    assert_eq!(count_macd_hist_flips(&[], 5), 0);
}

#[test]
fn structure_windows_need_two_windows() {
    assert_eq!(recent_structure_windows(23, 12), None);
    assert_eq!(recent_structure_windows(24, 12), Some((0, 12)));
    assert_eq!(recent_structure_windows(100, 12), Some((76, 88)));
    assert_eq!(recent_structure_windows(0, 0), Some((0, 0)));
}
