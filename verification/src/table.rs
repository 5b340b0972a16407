//! The static lookup from a feature and a property identifier to the backing
//! attribute location.  The mapping is hand-curated and intentionally
//! partial: combinations not listed here resolve to no mapping, which is a
//! legitimate steady state, not an error.

use vstd::prelude::*;

verus! {

/// The logical hardware capability groupings that namespace property
/// identifiers.  `UNRECOGNIZED` stands for any value of the wire enum that
/// this table does not know.
#[allow(non_camel_case_types)]
#[derive(Clone, Copy, PartialEq, Eq, Structural, Debug)]
pub enum Feature {
    CHARGE_DEADLINE,
    TRICKLE_DEFEND,
    DOCK_DEFEND,
    WIRELESS,
    CPM,
    AACR,
    HEALTH,
    CSI_STATS,
    FW_UPDATE,
    CHARGE_LIMIT,
    FG_CYCLE,
    AAFV,
    AACT,
    AACP,
    WLC_FW,
    QI22,
    AACC,
    UNRECOGNIZED,
}

// Property identifiers, per feature namespace.  Identifiers are only
// meaningful below this bound; callers reject anything at or above it.
pub const PROPERTY_BOUND: i32 = 51;

// Common properties across features
pub const ENABLE: i32 = 0;

pub const DRY_RUN: i32 = 1;

pub const STATE: i32 = 18;

pub const PROFILE: i32 = 32;

// CHARGE_DEADLINE properties
pub const DEADLINE_DRYRUN: i32 = 1;

pub const HEALTH_SAFETY_MARGIN: i32 = 12;

// TRICKLE_DEFEND properties
pub const TRICKLE_RATE: i32 = 3;

pub const TRICKLE_CNT: i32 = 8;

pub const TRICKLE_RESET_SEC: i32 = 12;

pub const TRICKLE_RECHARGE_SOC: i32 = 15;

pub const TRICKLE_VERSION: i32 = 33;

pub const TRICKLE_CNT_THR: i32 = 50;

// WIRELESS properties
pub const MITIGATE_THRESHOLD: i32 = 5;

// CPM properties
pub const DC_CTL: i32 = 2;

pub const THERMAL_DC_FAN_ALARM: i32 = 19;

pub const THERMAL_MDIS_FAN_ALARM: i32 = 20;

// AACR properties
pub const CYCLE_GRACE: i32 = 8;

pub const CYCLE_MAX: i32 = 21;

pub const MIN_CAPACITY_RATE: i32 = 24;

pub const CLIFF_CAPACITY_RATE: i32 = 27;

// HEALTH properties
pub const ALGO: i32 = 2;

pub const TREND_POINTS: i32 = 23;

pub const LOW_BOUNDARY: i32 = 24;

pub const CSI_STATS_PROP: i32 = 25;

// FW_UPDATE properties
pub const UPDATE_FIRMWARE: i32 = 26;

// CHARGE_LIMIT properties
pub const CHARGE_TO_LIMIT: i32 = 5;

pub const FORCE_FCR_UPDATE: i32 = 39;

pub const BYPASS_FCN_DELTA: i32 = 41;

pub const BYPASS_CYCLE_DELTA: i32 = 42;

pub const BYPASS_MODE: i32 = 43;

// AAFV properties
pub const APPLY_MAX: i32 = 28;

pub const MAX_OFFSET: i32 = 29;

pub const CLIFF_CYCLE: i32 = 30;

pub const CLIFF_OFFSET: i32 = 31;

pub const AAFV_CONFIG: i32 = 38;

// AACT properties
pub const CV_LIMITS: i32 = 34;

pub const TEMP_LIMITS: i32 = 35;

pub const CHG_ECC: i32 = 36;

// AACP properties
pub const VERSION: i32 = 33;

pub const OPT_OUT: i32 = 37;

pub const OPT_OUT_CUTOFF: i32 = 44;

/// The view of an optional borrowed path.
pub open spec fn opt_path_view(r: Option<&'static str>) -> Option<Seq<char>> {
    match r {
        Option::Some(s) => Option::Some(s@),
        Option::None => Option::None,
    }
}

/// The declared mapping: which backing location a feature and property
/// identifier stand for, or none for undeclared combinations.
pub open spec fn spec_property_path(feature: Feature, prop: i32) -> Option<Seq<char>> {
    match feature {
        Feature::CHARGE_DEADLINE => if prop == DEADLINE_DRYRUN {
            Option::Some("/sys/class/power_supply/battery/charge_deadline_dryrun"@)
        } else if prop == HEALTH_SAFETY_MARGIN {
            Option::Some("/sys/class/power_supply/battery/health_safety_margin"@)
        } else {
            Option::None
        },
        Feature::TRICKLE_DEFEND => if prop == ENABLE {
            Option::Some("/sys/class/power_supply/battery/bd_trickle_enable"@)
        } else if prop == DRY_RUN {
            Option::Some("/sys/class/power_supply/battery/bd_trickle_dry_run"@)
        } else if prop == TRICKLE_RATE {
            Option::Some("/sys/class/power_supply/battery/bd_trickle_rate"@)
        } else if prop == TRICKLE_CNT {
            Option::Some("/sys/class/power_supply/battery/bd_trickle_cnt"@)
        } else if prop == TRICKLE_RESET_SEC {
            Option::Some("/sys/class/power_supply/battery/bd_trickle_reset_sec"@)
        } else if prop == TRICKLE_RECHARGE_SOC {
            Option::Some("/sys/class/power_supply/battery/bd_trickle_recharge_soc"@)
        } else if prop == TRICKLE_VERSION {
            Option::Some("/sys/class/power_supply/battery/bd_trickle_version"@)
        } else if prop == TRICKLE_CNT_THR {
            Option::Some("/sys/class/power_supply/battery/bd_trickle_cnt_thr"@)
        } else {
            Option::None
        },
        Feature::WIRELESS => if prop == MITIGATE_THRESHOLD {
            Option::Some("/sys/class/power_supply/wireless/device/mitigate_threshold"@)
        } else {
            Option::None
        },
        Feature::CPM => if prop == DC_CTL {
            Option::Some("/sys/devices/platform/google,cpm/dc_ctl"@)
        } else if prop == THERMAL_DC_FAN_ALARM {
            Option::Some("/sys/devices/platform/google,charger/thermal_dc_fan_alarm"@)
        } else if prop == THERMAL_MDIS_FAN_ALARM {
            Option::Some("/sys/devices/platform/google,cpm/thermal_mdis_fan_alarm"@)
        } else {
            Option::None
        },
        Feature::AACR => if prop == CYCLE_GRACE {
            Option::Some("/sys/class/power_supply/battery/aacr_cycle_grace"@)
        } else if prop == STATE {
            Option::Some("/sys/class/power_supply/battery/aacr_state"@)
        } else if prop == CYCLE_MAX {
            Option::Some("/sys/class/power_supply/battery/aacr_cycle_max"@)
        } else if prop == MIN_CAPACITY_RATE {
            Option::Some("/sys/class/power_supply/battery/aacr_min_capacity_rate"@)
        } else if prop == CLIFF_CAPACITY_RATE {
            Option::Some("/sys/class/power_supply/battery/aacr_cliff_capacity_rate"@)
        } else if prop == PROFILE {
            Option::Some("/sys/class/power_supply/battery/aacr_profile"@)
        } else {
            Option::None
        },
        Feature::HEALTH => if prop == ALGO {
            Option::Some("/sys/class/power_supply/battery/health_algo"@)
        } else if prop == TREND_POINTS {
            Option::Some("/sys/class/power_supply/battery/health_set_trend_points"@)
        } else if prop == LOW_BOUNDARY {
            Option::Some("/sys/class/power_supply/battery/health_set_low_boundary"@)
        } else {
            Option::None
        },
        Feature::CSI_STATS => if prop == CSI_STATS_PROP {
            Option::Some("/sys/class/power_supply/battery/csi_stats"@)
        } else {
            Option::None
        },
        Feature::FW_UPDATE => if prop == ENABLE {
            Option::Some("/sys/devices/platform/maxim,max77779fwu/enable_update"@)
        } else if prop == UPDATE_FIRMWARE {
            Option::Some("/sys/devices/platform/maxim,max77779fwu/update_firmware"@)
        } else {
            Option::None
        },
        Feature::CHARGE_LIMIT => if prop == CHARGE_TO_LIMIT {
            Option::Some("/sys/class/power_supply/battery/charge_to_limit"@)
        } else if prop == FORCE_FCR_UPDATE {
            Option::Some("/sys/class/power_supply/battery/force_fcr_update_ops"@)
        } else if prop == BYPASS_FCN_DELTA {
            Option::Some("/sys/class/power_supply/maxfg/bypass_chargelimit_fcn_delta"@)
        } else if prop == BYPASS_CYCLE_DELTA {
            Option::Some("/sys/class/power_supply/maxfg/bypass_chargelimit_cycle_delta"@)
        } else if prop == BYPASS_MODE {
            Option::Some("/sys/class/power_supply/maxfg/bypass_chargelimit_mode"@)
        } else {
            Option::None
        },
        Feature::FG_CYCLE => if prop == ENABLE {
            Option::Some("/sys/class/power_supply/maxfg/fix_cycle_count"@)
        } else {
            Option::None
        },
        Feature::AAFV => if prop == STATE {
            Option::Some("/sys/class/power_supply/battery/aafv_state"@)
        } else if prop == APPLY_MAX {
            Option::Some("/sys/class/power_supply/battery/aafv_apply_max"@)
        } else if prop == MAX_OFFSET {
            Option::Some("/sys/class/power_supply/battery/aafv_max_offset"@)
        } else if prop == CLIFF_CYCLE {
            Option::Some("/sys/class/power_supply/battery/aafv_cliff_cycle"@)
        } else if prop == CLIFF_OFFSET {
            Option::Some("/sys/class/power_supply/battery/aafv_cliff_offset"@)
        } else if prop == PROFILE {
            Option::Some("/sys/class/power_supply/battery/aafv_profile"@)
        } else if prop == AAFV_CONFIG {
            Option::Some("/sys/class/power_supply/maxfg/aafv_config"@)
        } else {
            Option::None
        },
        Feature::AACT => if prop == STATE {
            Option::Some("/sys/class/power_supply/battery/aact_state"@)
        } else if prop == PROFILE {
            Option::Some("/sys/class/power_supply/battery/aact_profile"@)
        } else if prop == CV_LIMITS {
            Option::Some("/sys/class/power_supply/battery/aact_cv_limits"@)
        } else if prop == TEMP_LIMITS {
            Option::Some("/sys/class/power_supply/battery/aact_temp_limits"@)
        } else if prop == CHG_ECC {
            Option::Some("/sys/class/power_supply/battery/aact_chg_ecc"@)
        } else {
            Option::None
        },
        Feature::AACP => if prop == VERSION {
            Option::Some("/sys/class/power_supply/battery/aacp_version"@)
        } else if prop == OPT_OUT {
            Option::Some("/sys/class/power_supply/battery/aacp_opt_out"@)
        } else if prop == OPT_OUT_CUTOFF {
            Option::Some("/sys/class/power_supply/battery/aacp_opt_out_cutoff_cycles"@)
        } else {
            Option::None
        },
        Feature::WLC_FW => if prop == ENABLE {
            Option::Some("/sys/class/power_supply/wireless/device/rx_fwupdate"@)
        } else if prop == UPDATE_FIRMWARE {
            Option::Some("/sys/class/power_supply/wireless/device/rx_vertag"@)
        } else {
            Option::None
        },
        Feature::QI22 => if prop == ENABLE {
            Option::Some("/sys/class/power_supply/wireless/device/qi22_en_gpio"@)
        } else {
            Option::None
        },
        Feature::AACC => if prop == PROFILE {
            Option::Some("/sys/class/power_supply/battery/aacc_chg_profile"@)
        } else {
            Option::None
        },
        Feature::DOCK_DEFEND => Option::None,
        Feature::UNRECOGNIZED => Option::None,
    }
}

/// Looks a feature and property identifier up in the static table.  Pure and
/// total: the same arguments always return the same result.
pub fn get_property_sysfs(feature: Feature, prop: i32) -> (r: Option<&'static str>)
    ensures
        opt_path_view(r) == spec_property_path(feature, prop),
{
    match feature {
        Feature::CHARGE_DEADLINE => {
            if prop == DEADLINE_DRYRUN {
                Some("/sys/class/power_supply/battery/charge_deadline_dryrun")
            } else if prop == HEALTH_SAFETY_MARGIN {
                Some("/sys/class/power_supply/battery/health_safety_margin")
            } else {
                None
            }
        },
        Feature::TRICKLE_DEFEND => {
            if prop == ENABLE {
                Some("/sys/class/power_supply/battery/bd_trickle_enable")
            } else if prop == DRY_RUN {
                Some("/sys/class/power_supply/battery/bd_trickle_dry_run")
            } else if prop == TRICKLE_RATE {
                Some("/sys/class/power_supply/battery/bd_trickle_rate")
            } else if prop == TRICKLE_CNT {
                Some("/sys/class/power_supply/battery/bd_trickle_cnt")
            } else if prop == TRICKLE_RESET_SEC {
                Some("/sys/class/power_supply/battery/bd_trickle_reset_sec")
            } else if prop == TRICKLE_RECHARGE_SOC {
                Some("/sys/class/power_supply/battery/bd_trickle_recharge_soc")
            } else if prop == TRICKLE_VERSION {
                Some("/sys/class/power_supply/battery/bd_trickle_version")
            } else if prop == TRICKLE_CNT_THR {
                Some("/sys/class/power_supply/battery/bd_trickle_cnt_thr")
            } else {
                None
            }
        },
        Feature::WIRELESS => {
            if prop == MITIGATE_THRESHOLD {
                Some("/sys/class/power_supply/wireless/device/mitigate_threshold")
            } else {
                None
            }
        },
        Feature::CPM => {
            if prop == DC_CTL {
                Some("/sys/devices/platform/google,cpm/dc_ctl")
            } else if prop == THERMAL_DC_FAN_ALARM {
                Some("/sys/devices/platform/google,charger/thermal_dc_fan_alarm")
            } else if prop == THERMAL_MDIS_FAN_ALARM {
                Some("/sys/devices/platform/google,cpm/thermal_mdis_fan_alarm")
            } else {
                None
            }
        },
        Feature::AACR => {
            if prop == CYCLE_GRACE {
                Some("/sys/class/power_supply/battery/aacr_cycle_grace")
            } else if prop == STATE {
                Some("/sys/class/power_supply/battery/aacr_state")
            } else if prop == CYCLE_MAX {
                Some("/sys/class/power_supply/battery/aacr_cycle_max")
            } else if prop == MIN_CAPACITY_RATE {
                Some("/sys/class/power_supply/battery/aacr_min_capacity_rate")
            } else if prop == CLIFF_CAPACITY_RATE {
                Some("/sys/class/power_supply/battery/aacr_cliff_capacity_rate")
            } else if prop == PROFILE {
                Some("/sys/class/power_supply/battery/aacr_profile")
            } else {
                None
            }
        },
        Feature::HEALTH => {
            if prop == ALGO {
                Some("/sys/class/power_supply/battery/health_algo")
            } else if prop == TREND_POINTS {
                Some("/sys/class/power_supply/battery/health_set_trend_points")
            } else if prop == LOW_BOUNDARY {
                Some("/sys/class/power_supply/battery/health_set_low_boundary")
            } else {
                None
            }
        },
        Feature::CSI_STATS => {
            if prop == CSI_STATS_PROP {
                Some("/sys/class/power_supply/battery/csi_stats")
            } else {
                None
            }
        },
        Feature::FW_UPDATE => {
            if prop == ENABLE {
                Some("/sys/devices/platform/maxim,max77779fwu/enable_update")
            } else if prop == UPDATE_FIRMWARE {
                Some("/sys/devices/platform/maxim,max77779fwu/update_firmware")
            } else {
                None
            }
        },
        Feature::CHARGE_LIMIT => {
            if prop == CHARGE_TO_LIMIT {
                Some("/sys/class/power_supply/battery/charge_to_limit")
            } else if prop == FORCE_FCR_UPDATE {
                Some("/sys/class/power_supply/battery/force_fcr_update_ops")
            } else if prop == BYPASS_FCN_DELTA {
                Some("/sys/class/power_supply/maxfg/bypass_chargelimit_fcn_delta")
            } else if prop == BYPASS_CYCLE_DELTA {
                Some("/sys/class/power_supply/maxfg/bypass_chargelimit_cycle_delta")
            } else if prop == BYPASS_MODE {
                Some("/sys/class/power_supply/maxfg/bypass_chargelimit_mode")
            } else {
                None
            }
        },
        Feature::FG_CYCLE => {
            if prop == ENABLE {
                Some("/sys/class/power_supply/maxfg/fix_cycle_count")
            } else {
                None
            }
        },
        Feature::AAFV => {
            if prop == STATE {
                Some("/sys/class/power_supply/battery/aafv_state")
            } else if prop == APPLY_MAX {
                Some("/sys/class/power_supply/battery/aafv_apply_max")
            } else if prop == MAX_OFFSET {
                Some("/sys/class/power_supply/battery/aafv_max_offset")
            } else if prop == CLIFF_CYCLE {
                Some("/sys/class/power_supply/battery/aafv_cliff_cycle")
            } else if prop == CLIFF_OFFSET {
                Some("/sys/class/power_supply/battery/aafv_cliff_offset")
            } else if prop == PROFILE {
                Some("/sys/class/power_supply/battery/aafv_profile")
            } else if prop == AAFV_CONFIG {
                Some("/sys/class/power_supply/maxfg/aafv_config")
            } else {
                None
            }
        },
        Feature::AACT => {
            if prop == STATE {
                Some("/sys/class/power_supply/battery/aact_state")
            } else if prop == PROFILE {
                Some("/sys/class/power_supply/battery/aact_profile")
            } else if prop == CV_LIMITS {
                Some("/sys/class/power_supply/battery/aact_cv_limits")
            } else if prop == TEMP_LIMITS {
                Some("/sys/class/power_supply/battery/aact_temp_limits")
            } else if prop == CHG_ECC {
                Some("/sys/class/power_supply/battery/aact_chg_ecc")
            } else {
                None
            }
        },
        Feature::AACP => {
            if prop == VERSION {
                Some("/sys/class/power_supply/battery/aacp_version")
            } else if prop == OPT_OUT {
                Some("/sys/class/power_supply/battery/aacp_opt_out")
            } else if prop == OPT_OUT_CUTOFF {
                Some("/sys/class/power_supply/battery/aacp_opt_out_cutoff_cycles")
            } else {
                None
            }
        },
        Feature::WLC_FW => {
            if prop == ENABLE {
                Some("/sys/class/power_supply/wireless/device/rx_fwupdate")
            } else if prop == UPDATE_FIRMWARE {
                Some("/sys/class/power_supply/wireless/device/rx_vertag")
            } else {
                None
            }
        },
        Feature::QI22 => {
            if prop == ENABLE {
                Some("/sys/class/power_supply/wireless/device/qi22_en_gpio")
            } else {
                None
            }
        },
        Feature::AACC => {
            if prop == PROFILE {
                Some("/sys/class/power_supply/battery/aacc_chg_profile")
            } else {
                None
            }
        },
        Feature::DOCK_DEFEND => None,
        Feature::UNRECOGNIZED => None,
    }
}

} // verus!
