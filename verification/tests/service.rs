use benzene_battery::service::{
    BatteryService, CalibrationMode, ChargingPolicy, DefenderType, DockDefendStatus, HealthAlgo,
    ServiceError,
};
use benzene_battery::store::{Node, Store};
use benzene_battery::sysfs::read_string;
use benzene_battery::table::{get_property_sysfs, Feature};

const POLICY: &str = "/sys/class/power_supply/battery/charging_policy";
const STOP: &str = "/sys/devices/platform/google,charger/charge_stop_level";
const START: &str = "/sys/devices/platform/google,charger/charge_start_level";
const BD_CLEAR: &str = "/sys/devices/platform/google,charger/bd_clear";
const BD_CLEAR_ALT: &str = "/sys/devices/platform/soc/soc:google,charger/bd_clear";
const TRICKLE_RESET: &str = "/sys/class/power_supply/battery/bd_trickle_reset_sec";
const TRICKLE_RATE: &str = "/sys/class/power_supply/battery/bd_trickle_rate";
const DD_STATE: &str = "/sys/devices/platform/google,charger/dd_state";
const DD_SETTINGS: &str = "/sys/devices/platform/google,charger/dd_settings";
const STATS: &str = "/sys/class/power_supply/battery/health_index_stats";
const CAL_MODE: &str = "/sys/class/power_supply/battery/health_set_cal_mode";
const DEADLINE: &str = "/sys/class/power_supply/battery/charge_deadline";
const STAGE: &str = "/sys/class/power_supply/battery/charge_stage";

fn store_with(nodes: Vec<Node>) -> Store {
    let mut st = Store::new();
    for n in nodes {
        st.add(n);
    }
    st
}

#[test]
fn set_then_get_returns_the_limits() {
    // Custom policy stored, both level nodes usable: the accepted pair is
    // applied and read back.
    let mut svc = BatteryService::new();
    let mut st = store_with(vec![
        Node::present(POLICY, "2"),
        Node::present(STOP, "100"),
        Node::present(START, "0"),
    ]);
    svc.setChargeLimit(&mut st, 60, 55).unwrap();
    assert_eq!(svc.getChargeLimit(&st), vec![60, 55]);
}

#[test]
fn set_then_get_falls_back_to_the_cache() {
    // No level nodes at all: the cache still answers with the accepted pair.
    let mut svc = BatteryService::new();
    let mut st = store_with(vec![Node::present(POLICY, "2")]);
    svc.setChargeLimit(&mut st, 90, 80).unwrap();
    assert_eq!(svc.getChargeLimit(&st), vec![90, 80]);
}

#[test]
fn invalid_limits_are_rejected_without_effect() {
    let mut svc = BatteryService::new();
    let mut st = store_with(vec![
        Node::present(POLICY, "2"),
        Node::present(STOP, "100"),
        Node::present(START, "0"),
    ]);
    for (stop, start) in [(49, 40), (101, 90), (60, 56), (50, 46)] {
        let r = svc.setChargeLimit(&mut st, stop, start);
        assert!(matches!(r, Err(ServiceError::InvalidArgument { .. })));
    }
    // The cache still holds the defaults and nothing was written.
    assert!(st.log.is_empty());
    let st_empty = Store::new();
    assert_eq!(svc.getChargeLimit(&st_empty), vec![80, 70]);
}

#[test]
fn limits_are_cached_but_not_applied_outside_custom_policy() {
    let mut svc = BatteryService::new();
    let mut st = store_with(vec![
        Node::present(POLICY, "1"),
        Node::present(STOP, "100"),
        Node::present(START, "0"),
    ]);
    svc.setChargeLimit(&mut st, 60, 55).unwrap();
    assert!(st.log.is_empty());
    assert_eq!(svc.getChargeLimit(&st), vec![100, 0]);
}

#[test]
fn custom_policy_reapplies_the_cached_limits() {
    let svc = BatteryService::new();
    let mut st = store_with(vec![
        Node::present(POLICY, "1"),
        Node::present(STOP, "100"),
        Node::present(START, "0"),
    ]);
    svc.setChargingPolicy(&mut st, ChargingPolicy::CUSTOM).unwrap();
    assert_eq!(read_string(&st, POLICY).unwrap(), "2");
    // Defaults (80, 70) were applied: stop first (80 > current start 0),
    // then start.
    assert_eq!(st.log.len(), 3);
    assert_eq!(st.log[1].path, STOP);
    assert_eq!(st.log[1].value, "80");
    assert_eq!(st.log[2].path, START);
    assert_eq!(st.log[2].value, "70");
}

#[test]
fn policy_codes_share_longlife_and_custom() {
    let svc = BatteryService::new();
    for (policy, code) in [
        (ChargingPolicy::DEFAULT, "1"),
        (ChargingPolicy::LONGLIFE, "2"),
        (ChargingPolicy::ADAPTIVE, "3"),
    ] {
        let mut st = store_with(vec![Node::present(POLICY, "0")]);
        svc.setChargingPolicy(&mut st, policy).unwrap();
        assert_eq!(read_string(&st, POLICY).unwrap(), code);
    }
}

#[test]
fn unrecognized_policy_is_an_invalid_argument() {
    let svc = BatteryService::new();
    let mut st = store_with(vec![Node::present(POLICY, "1")]);
    let r = svc.setChargingPolicy(&mut st, ChargingPolicy::UNRECOGNIZED);
    assert!(matches!(r, Err(ServiceError::InvalidArgument { .. })));
}

#[test]
fn setting_policy_without_the_node_is_a_no_op() {
    let svc = BatteryService::new();
    let mut st = Store::new();
    svc.setChargingPolicy(&mut st, ChargingPolicy::CUSTOM).unwrap();
    assert!(st.log.is_empty());
}

#[test]
fn get_policy_defaults_to_the_default_code() {
    let svc = BatteryService::new();
    assert_eq!(svc.getChargingPolicy(&Store::new()), 1);
    let st = store_with(vec![Node::present(POLICY, "3")]);
    assert_eq!(svc.getChargingPolicy(&st), 3);
}

#[test]
fn only_dock_defend_is_controllable() {
    let svc = BatteryService::new();
    let mut st = store_with(vec![Node::present(DD_SETTINGS, "0")]);
    svc.setEnable(&mut st, Feature::DOCK_DEFEND, true).unwrap();
    assert_eq!(read_string(&st, DD_SETTINGS).unwrap(), "B2");
    svc.setEnable(&mut st, Feature::DOCK_DEFEND, false).unwrap();
    assert_eq!(read_string(&st, DD_SETTINGS).unwrap(), "1M");
    let r = svc.setEnable(&mut st, Feature::AACR, true);
    assert!(matches!(r, Err(ServiceError::Unsupported { .. })));
    let mut empty = Store::new();
    let r = svc.setEnable(&mut empty, Feature::DOCK_DEFEND, true);
    assert!(matches!(r, Err(ServiceError::Unsupported { .. })));
}

#[test]
fn clearing_all_defenders_runs_the_four_routines_in_order() {
    let svc = BatteryService::new();
    let mut st = store_with(vec![
        Node::present(BD_CLEAR, ""),
        Node::present(TRICKLE_RESET, "30"),
        Node::present(TRICKLE_RATE, "8"),
        Node::present(DD_STATE, "1"),
        Node::present(DD_SETTINGS, "1"),
    ]);
    svc.clearBatteryDefenders(&mut st, DefenderType::ALL).unwrap();
    let logged: Vec<(&str, &str)> =
        st.log.iter().map(|e| (e.path.as_str(), e.value.as_str())).collect();
    assert_eq!(
        logged,
        vec![(BD_CLEAR, "B2"), (TRICKLE_RESET, "0"), (TRICKLE_RATE, "0"), (DD_SETTINGS, "02")]
    );
}

#[test]
fn clearing_all_aborts_on_the_first_failure() {
    let svc = BatteryService::new();
    let mut st = store_with(vec![
        Node::present(TRICKLE_RESET, "30"),
        Node::present(TRICKLE_RATE, "8"),
    ]);
    // The temperature clear node is absent entirely, so the sequence fails
    // before anything is written.
    let r = svc.clearBatteryDefenders(&mut st, DefenderType::ALL);
    assert!(matches!(r, Err(ServiceError::Backend { .. })));
    assert!(st.log.is_empty());
}

#[test]
fn clearing_temp_uses_the_alternate_location() {
    let svc = BatteryService::new();
    let mut st = store_with(vec![Node::present(BD_CLEAR_ALT, "")]);
    svc.clearBatteryDefenders(&mut st, DefenderType::TEMP).unwrap();
    assert_eq!(st.log[0].path, BD_CLEAR_ALT);
    assert_eq!(st.log[0].value, "B2");
}

#[test]
fn dock_clear_only_writes_when_active() {
    let svc = BatteryService::new();
    let mut inactive = store_with(vec![
        Node::present(DD_STATE, "0"),
        Node::present(DD_SETTINGS, "1"),
    ]);
    svc.clearBatteryDefenders(&mut inactive, DefenderType::DOCK).unwrap();
    assert!(inactive.log.is_empty());
    let mut active = store_with(vec![
        Node::present(DD_STATE, "1"),
        Node::present(DD_SETTINGS, "1"),
    ]);
    svc.clearBatteryDefenders(&mut active, DefenderType::DOCK).unwrap();
    assert_eq!(active.log[0].value, "02");
}

#[test]
fn string_properties_resolve_through_the_table() {
    let svc = BatteryService::new();
    let path = "/sys/class/power_supply/battery/aacr_state";
    let mut st = store_with(vec![Node::present(path, " on \n")]);
    let got = svc.getStringProperty(&st, Feature::AACR, 18).unwrap();
    assert_eq!(got, "on");
    svc.setStringProperty(&mut st, Feature::AACR, 18, "2").unwrap();
    assert_eq!(read_string(&st, path).unwrap(), "2");
}

#[test]
fn repeated_lookups_agree() {
    for feature in [Feature::AACR, Feature::TRICKLE_DEFEND, Feature::UNRECOGNIZED] {
        for prop in 0..51 {
            assert_eq!(get_property_sysfs(feature, prop), get_property_sysfs(feature, prop));
        }
    }
    assert_eq!(
        get_property_sysfs(Feature::TRICKLE_DEFEND, 50),
        Some("/sys/class/power_supply/battery/bd_trickle_cnt_thr")
    );
    assert_eq!(get_property_sysfs(Feature::DOCK_DEFEND, 0), None);
}

#[test]
fn property_identifiers_out_of_range_are_rejected_before_lookup() {
    let svc = BatteryService::new();
    let mut st = Store::new();
    let r = svc.getStringProperty(&st, Feature::AACR, 51);
    assert!(matches!(r, Err(ServiceError::InvalidArgument { .. })));
    let r = svc.setStringProperty(&mut st, Feature::AACR, 51, "1");
    assert!(matches!(r, Err(ServiceError::InvalidArgument { .. })));
}

#[test]
fn unmapped_properties_soft_succeed() {
    let svc = BatteryService::new();
    let mut st = Store::new();
    assert_eq!(svc.getStringProperty(&st, Feature::AACR, 18).unwrap(), "");
    assert_eq!(svc.getStringProperty(&st, Feature::UNRECOGNIZED, 3).unwrap(), "");
    svc.setStringProperty(&mut st, Feature::AACR, 18, "2").unwrap();
    svc.setStringProperty(&mut st, Feature::UNRECOGNIZED, 3, "2").unwrap();
    assert!(st.log.is_empty());
}

#[test]
fn health_stats_select_the_matching_line() {
    let svc = BatteryService::new();
    let blob = "1: 95,4200,4300,4400,10,12,11,300,500,3\n2: 80,4000,4100,4200,20,22,21,400,600,5\n";
    let st = store_with(vec![Node::present(STATS, blob)]);
    let google = svc.getHealthStats(&st, HealthAlgo::GOOGLE);
    assert_eq!(google.algo, 1);
    assert_eq!(google.healthIndex, 95);
    assert_eq!(google.capacityFcc, 4200);
    assert_eq!(google.capacityRaw, 4300);
    assert_eq!(google.capacityDesign, 4400);
    assert_eq!(google.impedanceRaw, 10);
    assert_eq!(google.impedanceAvg, 12);
    assert_eq!(google.impedanceDesign, 11);
    assert_eq!(google.cycleCount, 300);
    assert_eq!(google.cycleCountDesign, 500);
    assert_eq!(google.tempBucket, 3);
    let maxim = svc.getHealthStats(&st, HealthAlgo::MAXIM);
    assert_eq!(maxim.algo, 2);
    assert_eq!(maxim.healthIndex, 80);
    assert_eq!(maxim.cycleCount, 400);
}

#[test]
fn health_stats_degrade_to_the_default_record() {
    let svc = BatteryService::new();
    let blob = "1: 95,4200,4300,4400,10,12,11,300,500,3\n";
    let st = store_with(vec![Node::present(STATS, blob)]);
    // No matching line.
    assert_eq!(svc.getHealthStats(&st, HealthAlgo::MAXIM).healthIndex, 0);
    assert_eq!(svc.getHealthStats(&st, HealthAlgo::UNSPECIFIED).algo, 0);
    // A matching line with fewer than ten numeric fields.
    let short = store_with(vec![Node::present(STATS, "1: 95,4200,4300\n")]);
    assert_eq!(svc.getHealthStats(&short, HealthAlgo::GOOGLE).healthIndex, 0);
    // No blob at all.
    assert_eq!(svc.getHealthStats(&Store::new(), HealthAlgo::GOOGLE).cycleCount, 0);
}

#[test]
fn dock_defend_status_follows_the_state_table() {
    let svc = BatteryService::new();
    assert_eq!(svc.getDockDefendStatus(&Store::new()), DockDefendStatus::DISABLED);
    let case = |state: &str, settings: &str| {
        store_with(vec![Node::present(DD_STATE, state), Node::present(DD_SETTINGS, settings)])
    };
    assert_eq!(svc.getDockDefendStatus(&case("-1", "1")), DockDefendStatus::DISABLED);
    assert_eq!(svc.getDockDefendStatus(&case("1", "-1")), DockDefendStatus::ERROR);
    assert_eq!(svc.getDockDefendStatus(&case("1", "1")), DockDefendStatus::ACTIVE);
    assert_eq!(svc.getDockDefendStatus(&case("1", "0")), DockDefendStatus::INACTIVE);
}

#[test]
fn status_getters_use_their_named_defaults() {
    let svc = BatteryService::new();
    let st = Store::new();
    assert_eq!(svc.getChargingStatus(&st), -1);
    assert_eq!(svc.getChargingType(&st), -1);
    assert_eq!(svc.getChargingSpeed(&st), 0);
    assert_eq!(svc.getHealthIndex(&st), 100);
    assert_eq!(svc.getHealthStatus(&st), 0);
    assert_eq!(svc.getCalibrationState(&st), 0);
}

#[test]
fn index_reads_without_a_safe_default_escalate() {
    let svc = BatteryService::new();
    let st = Store::new();
    assert!(matches!(svc.getHealthCapacityIndex(&st), Err(ServiceError::Backend { .. })));
    assert!(matches!(svc.getHealthImpedanceIndex(&st), Err(ServiceError::Backend { .. })));
    let good = store_with(vec![
        Node::present("/sys/class/power_supply/battery/health_capacity_index", "87"),
        Node::present("/sys/class/power_supply/battery/health_impedance_index", "93"),
    ]);
    assert_eq!(svc.getHealthCapacityIndex(&good).unwrap(), 87);
    assert_eq!(svc.getHealthImpedanceIndex(&good).unwrap(), 93);
}

#[test]
fn deadline_round_trip_and_stage() {
    let svc = BatteryService::new();
    let mut st = store_with(vec![
        Node::present(DEADLINE, "0"),
        Node::present(STAGE, "fast \n"),
    ]);
    svc.setChargingDeadline(&mut st, 120).unwrap();
    let stage = svc.getChargingStageAndDeadline(&st);
    assert_eq!(stage.stage, "fast");
    assert_eq!(stage.deadline, 120);
    let r = svc.setChargingDeadline(&mut Store::new(), 1);
    assert!(matches!(r, Err(ServiceError::Backend { .. })));
}

#[test]
fn calibration_scheduling() {
    let svc = BatteryService::new();
    // Absent node: silently accepted, whatever the mode.
    svc.scheduleCalibration(&mut Store::new(), CalibrationMode::UNRECOGNIZED).unwrap();
    let mut st = store_with(vec![Node::present(CAL_MODE, "0")]);
    svc.scheduleCalibration(&mut st, CalibrationMode::FORCED).unwrap();
    assert_eq!(read_string(&st, CAL_MODE).unwrap(), "2");
    let r = svc.scheduleCalibration(&mut st, CalibrationMode::UNRECOGNIZED);
    assert!(matches!(r, Err(ServiceError::InvalidArgument { .. })));
}

#[test]
fn adapter_id_is_never_supported() {
    let svc = BatteryService::new();
    assert!(matches!(svc.getAdapterId(), Err(ServiceError::Unsupported { .. })));
}
