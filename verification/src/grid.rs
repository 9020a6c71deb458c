use vstd::prelude::*;
use crate::market::MarketState;

verus! {

/// Where the bounds of a grid come from.
#[derive(Debug, Clone, Copy, PartialEq, Eq, Structural)]
pub enum GridBand {
    /// lower, upper and center are the latest BOLL lower, upper and mid.
    Boll,
    /// center is the latest BOLL mid, or the last close without BOLL; lower is
    /// center - 1.5 ATR and upper is center + 2.5 ATR.
    AtrAroundCenter,
    /// no bounds; center is the latest BOLL mid where it exists.
    CenterOnly,
}

/// When the grid is switched on.
#[derive(Debug, Clone, Copy, PartialEq, Eq, Structural)]
pub enum GridSwitch {
    /// on exactly when a grid step exists and is positive
    WhenStepPositive,
    On,
    Off,
}

/// The rules of the grid plan for a market state: its mode and risk action,
/// where its bounds come from, what divides the band into steps, and when it
/// is on.
#[derive(Debug, Clone, PartialEq, Eq)]
pub struct GridRules {
    pub mode: String,
    pub risk_action: String,
    pub grid_count: usize,
    pub band: GridBand,
    /// The grid step is `(upper - lower) / divisor` when both bounds exist;
    /// there is no step without a divisor.
    pub step_divisor: Option<usize>,
    pub switch: GridSwitch,
}

pub open spec fn is_up_state(s: MarketState) -> bool {
    s == MarketState::UptrendFollow || s == MarketState::UpBreakWarning
}

pub open spec fn is_down_state(s: MarketState) -> bool {
    s == MarketState::DowntrendRisk || s == MarketState::DownBreakWarning
}

pub open spec fn mode_of(s: MarketState) -> Seq<char> {
    if s == MarketState::RangeGrid {
        "range_grid"@
    } else if is_up_state(s) {
        "uptrend_follow"@
    } else if is_down_state(s) {
        "risk_control"@
    } else {
        "wait"@
    }
}

pub open spec fn risk_action_of(s: MarketState) -> Seq<char> {
    if s == MarketState::RangeGrid {
        "normal"@
    } else if is_up_state(s) {
        "reduce_sell_strength_and_move_grid_up_on_pullback"@
    } else if is_down_state(s) {
        "pause_new_buy_orders"@
    } else {
        "wait_for_clearer_state"@
    }
}

pub open spec fn band_of(s: MarketState) -> GridBand {
    if s == MarketState::RangeGrid {
        GridBand::Boll
    } else if is_up_state(s) {
        GridBand::AtrAroundCenter
    } else {
        GridBand::CenterOnly
    }
}

pub open spec fn step_divisor_of(s: MarketState, grid_count: usize) -> Option<usize> {
    if s == MarketState::RangeGrid {
        if grid_count > 0 {
            Some(grid_count)
        } else {
            None
        }
    } else if is_up_state(s) {
        Some(if grid_count > 1 { grid_count } else { 1 })
    } else {
        None
    }
}

pub open spec fn switch_of(s: MarketState) -> GridSwitch {
    if s == MarketState::RangeGrid {
        GridSwitch::WhenStepPositive
    } else if is_up_state(s) {
        GridSwitch::On
    } else {
        GridSwitch::Off
    }
}

/// The grid plan rules for `state`: a range grid over the BOLL band,
/// divided into `grid_count` steps and on when its step is positive; a
/// trend-follow grid around the center, sized by ATR and always on, in the
/// up states; no grid, and new buy orders paused, in the down states; no grid
/// while waiting.
pub fn grid_plan_rules(state: MarketState, grid_count: usize) -> (rules: GridRules)
    ensures
        rules.mode@ == mode_of(state),
        rules.risk_action@ == risk_action_of(state),
        rules.grid_count == grid_count,
        rules.band == band_of(state),
        rules.step_divisor == step_divisor_of(state, grid_count),
        rules.switch == switch_of(state),
        // a divisor is never zero
        rules.step_divisor matches Some(d) ==> d > 0,
        // the grid is never on in the down states or while waiting
        is_down_state(state) || state == MarketState::Wait ==> rules.switch == GridSwitch::Off,
{
    match state {
        MarketState::RangeGrid => GridRules {
            mode: "range_grid".to_owned(),
            risk_action: "normal".to_owned(),
            grid_count,
            band: GridBand::Boll,
            step_divisor: if grid_count > 0 {
                Some(grid_count)
            } else {
                None
            },
            switch: GridSwitch::WhenStepPositive,
        },
        MarketState::UptrendFollow | MarketState::UpBreakWarning => GridRules {
            mode: "uptrend_follow".to_owned(),
            risk_action: "reduce_sell_strength_and_move_grid_up_on_pullback".to_owned(),
            grid_count,
            band: GridBand::AtrAroundCenter,
            step_divisor: Some(
                if grid_count > 1 {
                    grid_count
                } else {
                    1
                },
            ),
            switch: GridSwitch::On,
        },
        MarketState::DowntrendRisk | MarketState::DownBreakWarning => GridRules {
            mode: "risk_control".to_owned(),
            risk_action: "pause_new_buy_orders".to_owned(),
            grid_count,
            band: GridBand::CenterOnly,
            step_divisor: None,
            switch: GridSwitch::Off,
        },
        MarketState::Wait => GridRules {
            mode: "wait".to_owned(),
            risk_action: "wait_for_clearer_state".to_owned(),
            grid_count,
            band: GridBand::CenterOnly,
            step_divisor: None,
            switch: GridSwitch::Off,
        },
    }
}

/// The grid plan rules, state by state. Range grid: mode `range_grid`, risk
/// action `normal`, BOLL band, `grid_count` steps (none for a zero count), on
/// when the step is positive. Both up states alike: mode `uptrend_follow`,
/// band around the center sized by ATR, `max(grid_count, 1)` steps, always
/// on. Both down states alike: mode `risk_control`, new buys paused, no band,
/// no step, off. Wait: mode `wait`, no band, no step, off.
pub proof fn lemma_grid_rules_by_state(state: MarketState, grid_count: usize)
    ensures
        state == MarketState::RangeGrid ==> {
            &&& mode_of(state) == "range_grid"@
            &&& risk_action_of(state) == "normal"@
            &&& band_of(state) == GridBand::Boll
            &&& (grid_count >= 1 ==> step_divisor_of(state, grid_count) == Some(grid_count))
            &&& (grid_count == 0 ==> step_divisor_of(state, grid_count) is None)
            &&& switch_of(state) == GridSwitch::WhenStepPositive
        },
        state == MarketState::UptrendFollow || state == MarketState::UpBreakWarning ==> {
            &&& mode_of(state) == "uptrend_follow"@
            &&& risk_action_of(state) == "reduce_sell_strength_and_move_grid_up_on_pullback"@
            &&& band_of(state) == GridBand::AtrAroundCenter
            &&& (grid_count >= 1 ==> step_divisor_of(state, grid_count) == Some(grid_count))
            &&& (grid_count == 0 ==> step_divisor_of(state, grid_count) == Some(1usize))
            &&& switch_of(state) == GridSwitch::On
        },
        state == MarketState::DowntrendRisk || state == MarketState::DownBreakWarning ==> {
            &&& mode_of(state) == "risk_control"@
            &&& risk_action_of(state) == "pause_new_buy_orders"@
            &&& band_of(state) == GridBand::CenterOnly
            &&& step_divisor_of(state, grid_count) is None
            &&& switch_of(state) == GridSwitch::Off
        },
        state == MarketState::Wait ==> {
            &&& mode_of(state) == "wait"@
            &&& risk_action_of(state) == "wait_for_clearer_state"@
            &&& band_of(state) == GridBand::CenterOnly
            &&& step_divisor_of(state, grid_count) is None
            &&& switch_of(state) == GridSwitch::Off
        },
        // the two up states share one plan, and so do the two down states
        mode_of(MarketState::UptrendFollow) == mode_of(MarketState::UpBreakWarning)
            && step_divisor_of(MarketState::UptrendFollow, grid_count) == step_divisor_of(
            MarketState::UpBreakWarning,
            grid_count,
        ) && risk_action_of(MarketState::UptrendFollow) == risk_action_of(
            MarketState::UpBreakWarning,
        ),
        mode_of(MarketState::DowntrendRisk) == mode_of(MarketState::DownBreakWarning)
            && risk_action_of(MarketState::DowntrendRisk) == risk_action_of(
            MarketState::DownBreakWarning,
        ),
{
}

} // verus!
