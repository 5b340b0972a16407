//! The static references to the backing attributes the service works with:
//! hand-curated knowledge of where each control lives, including the
//! alternate locations some hardware revisions use.

use vstd::prelude::*;

use crate::sysfs::{SysfsPath, SysfsPathV};

verus! {

pub open spec fn spec_charging_policy() -> SysfsPathV {
    SysfsPathV {
        primary: "/sys/class/power_supply/battery/charging_policy"@,
        alternate: Option::None,
    }
}

pub fn charging_policy() -> (p: SysfsPath)
    ensures
        p@ == spec_charging_policy(),
{
    SysfsPath::new("/sys/class/power_supply/battery/charging_policy")
}

pub open spec fn spec_charge_stop_level() -> SysfsPathV {
    SysfsPathV {
        primary: "/sys/devices/platform/google,charger/charge_stop_level"@,
        alternate: Option::None,
    }
}

pub fn charge_stop_level() -> (p: SysfsPath)
    ensures
        p@ == spec_charge_stop_level(),
{
    SysfsPath::new("/sys/devices/platform/google,charger/charge_stop_level")
}

pub open spec fn spec_charge_start_level() -> SysfsPathV {
    SysfsPathV {
        primary: "/sys/devices/platform/google,charger/charge_start_level"@,
        alternate: Option::None,
    }
}

pub fn charge_start_level() -> (p: SysfsPath)
    ensures
        p@ == spec_charge_start_level(),
{
    SysfsPath::new("/sys/devices/platform/google,charger/charge_start_level")
}

pub open spec fn spec_bd_clear() -> SysfsPathV {
    SysfsPathV {
        primary: "/sys/devices/platform/google,charger/bd_clear"@,
        alternate: Option::Some("/sys/devices/platform/soc/soc:google,charger/bd_clear"@),
    }
}

pub fn bd_clear() -> (p: SysfsPath)
    ensures
        p@ == spec_bd_clear(),
{
    SysfsPath::with_alt(
        "/sys/devices/platform/google,charger/bd_clear",
        "/sys/devices/platform/soc/soc:google,charger/bd_clear",
    )
}

pub open spec fn spec_bd_trickle_reset_sec() -> SysfsPathV {
    SysfsPathV {
        primary: "/sys/class/power_supply/battery/bd_trickle_reset_sec"@,
        alternate: Option::None,
    }
}

pub fn bd_trickle_reset_sec() -> (p: SysfsPath)
    ensures
        p@ == spec_bd_trickle_reset_sec(),
{
    SysfsPath::new("/sys/class/power_supply/battery/bd_trickle_reset_sec")
}

pub open spec fn spec_bd_trickle_rate() -> SysfsPathV {
    SysfsPathV {
        primary: "/sys/class/power_supply/battery/bd_trickle_rate"@,
        alternate: Option::None,
    }
}

pub fn bd_trickle_rate() -> (p: SysfsPath)
    ensures
        p@ == spec_bd_trickle_rate(),
{
    SysfsPath::new("/sys/class/power_supply/battery/bd_trickle_rate")
}

pub open spec fn spec_dd_state() -> SysfsPathV {
    SysfsPathV {
        primary: "/sys/devices/platform/google,charger/dd_state"@,
        alternate: Option::None,
    }
}

pub fn dd_state() -> (p: SysfsPath)
    ensures
        p@ == spec_dd_state(),
{
    SysfsPath::new("/sys/devices/platform/google,charger/dd_state")
}

pub open spec fn spec_dd_settings() -> SysfsPathV {
    SysfsPathV {
        primary: "/sys/devices/platform/google,charger/dd_settings"@,
        alternate: Option::None,
    }
}

pub fn dd_settings() -> (p: SysfsPath)
    ensures
        p@ == spec_dd_settings(),
{
    SysfsPath::new("/sys/devices/platform/google,charger/dd_settings")
}

pub open spec fn spec_charging_status() -> SysfsPathV {
    SysfsPathV {
        primary: "/sys/devices/platform/google,charger/charging_status"@,
        alternate: Option::Some("/sys/devices/platform/soc/soc:google,charger/charging_status"@),
    }
}

pub fn charging_status() -> (p: SysfsPath)
    ensures
        p@ == spec_charging_status(),
{
    SysfsPath::with_alt(
        "/sys/devices/platform/google,charger/charging_status",
        "/sys/devices/platform/soc/soc:google,charger/charging_status",
    )
}

pub open spec fn spec_charging_type() -> SysfsPathV {
    SysfsPathV {
        primary: "/sys/devices/platform/google,charger/charging_type"@,
        alternate: Option::Some("/sys/devices/platform/soc/soc:google,charger/charging_type"@),
    }
}

pub fn charging_type() -> (p: SysfsPath)
    ensures
        p@ == spec_charging_type(),
{
    SysfsPath::with_alt(
        "/sys/devices/platform/google,charger/charging_type",
        "/sys/devices/platform/soc/soc:google,charger/charging_type",
    )
}

pub open spec fn spec_charging_speed() -> SysfsPathV {
    SysfsPathV {
        primary: "/sys/class/power_supply/battery/charging_speed"@,
        alternate: Option::None,
    }
}

pub fn charging_speed() -> (p: SysfsPath)
    ensures
        p@ == spec_charging_speed(),
{
    SysfsPath::new("/sys/class/power_supply/battery/charging_speed")
}

pub open spec fn spec_charge_deadline() -> SysfsPathV {
    SysfsPathV {
        primary: "/sys/class/power_supply/battery/charge_deadline"@,
        alternate: Option::None,
    }
}

pub fn charge_deadline() -> (p: SysfsPath)
    ensures
        p@ == spec_charge_deadline(),
{
    SysfsPath::new("/sys/class/power_supply/battery/charge_deadline")
}

pub open spec fn spec_charge_stage() -> SysfsPathV {
    SysfsPathV {
        primary: "/sys/class/power_supply/battery/charge_stage"@,
        alternate: Option::None,
    }
}

pub fn charge_stage() -> (p: SysfsPath)
    ensures
        p@ == spec_charge_stage(),
{
    SysfsPath::new("/sys/class/power_supply/battery/charge_stage")
}

pub open spec fn spec_charge_limit() -> SysfsPathV {
    SysfsPathV {
        primary: "/sys/class/power_supply/battery/charge_limit"@,
        alternate: Option::None,
    }
}

pub fn charge_limit() -> (p: SysfsPath)
    ensures
        p@ == spec_charge_limit(),
{
    SysfsPath::new("/sys/class/power_supply/battery/charge_limit")
}

pub open spec fn spec_health_index() -> SysfsPathV {
    SysfsPathV {
        primary: "/sys/class/power_supply/battery/health_index"@,
        alternate: Option::None,
    }
}

pub fn health_index() -> (p: SysfsPath)
    ensures
        p@ == spec_health_index(),
{
    SysfsPath::new("/sys/class/power_supply/battery/health_index")
}

pub open spec fn spec_health_status() -> SysfsPathV {
    SysfsPathV {
        primary: "/sys/class/power_supply/battery/health_status"@,
        alternate: Option::None,
    }
}

pub fn health_status() -> (p: SysfsPath)
    ensures
        p@ == spec_health_status(),
{
    SysfsPath::new("/sys/class/power_supply/battery/health_status")
}

pub open spec fn spec_health_capacity_index() -> SysfsPathV {
    SysfsPathV {
        primary: "/sys/class/power_supply/battery/health_capacity_index"@,
        alternate: Option::None,
    }
}

pub fn health_capacity_index() -> (p: SysfsPath)
    ensures
        p@ == spec_health_capacity_index(),
{
    SysfsPath::new("/sys/class/power_supply/battery/health_capacity_index")
}

pub open spec fn spec_health_impedance_index() -> SysfsPathV {
    SysfsPathV {
        primary: "/sys/class/power_supply/battery/health_impedance_index"@,
        alternate: Option::None,
    }
}

pub fn health_impedance_index() -> (p: SysfsPath)
    ensures
        p@ == spec_health_impedance_index(),
{
    SysfsPath::new("/sys/class/power_supply/battery/health_impedance_index")
}

pub open spec fn spec_health_index_stats() -> SysfsPathV {
    SysfsPathV {
        primary: "/sys/class/power_supply/battery/health_index_stats"@,
        alternate: Option::None,
    }
}

pub fn health_index_stats() -> (p: SysfsPath)
    ensures
        p@ == spec_health_index_stats(),
{
    SysfsPath::new("/sys/class/power_supply/battery/health_index_stats")
}

pub open spec fn spec_health_set_cal_mode() -> SysfsPathV {
    SysfsPathV {
        primary: "/sys/class/power_supply/battery/health_set_cal_mode"@,
        alternate: Option::None,
    }
}

pub fn health_set_cal_mode() -> (p: SysfsPath)
    ensures
        p@ == spec_health_set_cal_mode(),
{
    SysfsPath::new("/sys/class/power_supply/battery/health_set_cal_mode")
}

pub open spec fn spec_health_get_cal_state() -> SysfsPathV {
    SysfsPathV {
        primary: "/sys/class/power_supply/battery/health_get_cal_state"@,
        alternate: Option::None,
    }
}

pub fn health_get_cal_state() -> (p: SysfsPath)
    ensures
        p@ == spec_health_get_cal_state(),
{
    SysfsPath::new("/sys/class/power_supply/battery/health_get_cal_state")
}

} // verus!
