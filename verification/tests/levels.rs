use benzene_battery::paths;
use benzene_battery::service::apply_levels;
use benzene_battery::store::{Node, Store};
use benzene_battery::sysfs::read_string;

const STOP: &str = "/sys/devices/platform/google,charger/charge_stop_level";
const START: &str = "/sys/devices/platform/google,charger/charge_start_level";

fn store_with_levels(stop: &str, start: &str) -> Store {
    let mut st = Store::new();
    st.add(Node::present(STOP, stop));
    st.add(Node::present(START, start));
    st
}

#[test]
fn path_constants_match_the_references() {
    assert_eq!(paths::charge_stop_level().primary, STOP);
    assert_eq!(paths::charge_start_level().primary, START);
}

#[test]
fn lowering_past_the_current_start_writes_start_first() {
    // Current (stop=80, start=70), target (stop=60, start=55): the target
    // stop does not exceed the current start, so a transitional start value
    // min(55, 59) = 55 goes first, then the stop; the final start write is
    // skipped because the transitional write already set it.
    let mut st = store_with_levels("80", "70");
    apply_levels(&mut st, 60, 55).unwrap();
    assert_eq!(st.log.len(), 2);
    assert_eq!(st.log[0].path, START);
    assert_eq!(st.log[0].value, "55");
    assert_eq!(st.log[1].path, STOP);
    assert_eq!(st.log[1].value, "60");
    assert_eq!(read_string(&st, STOP).unwrap(), "60");
    assert_eq!(read_string(&st, START).unwrap(), "55");
}

#[test]
fn raising_levels_needs_no_transitional_write() {
    let mut st = store_with_levels("80", "70");
    apply_levels(&mut st, 100, 90).unwrap();
    assert_eq!(st.log.len(), 2);
    assert_eq!(st.log[0].path, STOP);
    assert_eq!(st.log[0].value, "100");
    assert_eq!(st.log[1].path, START);
    assert_eq!(st.log[1].value, "90");
}

#[test]
fn reapplying_the_same_pair_performs_zero_writes() {
    let mut st = store_with_levels("100", "0");
    apply_levels(&mut st, 60, 55).unwrap();
    let writes_after_first = st.log.len();
    assert!(writes_after_first > 0);
    apply_levels(&mut st, 60, 55).unwrap();
    assert_eq!(st.log.len(), writes_after_first);
    assert_eq!(read_string(&st, STOP).unwrap(), "60");
    assert_eq!(read_string(&st, START).unwrap(), "55");
}

#[test]
fn values_already_stored_are_not_rewritten() {
    let mut st = store_with_levels("60", "55");
    apply_levels(&mut st, 60, 55).unwrap();
    assert!(st.log.is_empty());
}

#[test]
fn absent_level_nodes_are_skipped_silently() {
    let mut st = Store::new();
    apply_levels(&mut st, 60, 55).unwrap();
    assert!(st.log.is_empty());
}

#[test]
fn a_failing_write_aborts_the_rest() {
    // The stop node rejects writes: the transitional start write lands, the
    // stop write fails, and the final start write is never attempted.
    let mut st = Store::new();
    st.add(Node::read_only(STOP, "80"));
    st.add(Node::present(START, "70"));
    let r = apply_levels(&mut st, 60, 55);
    assert!(r.is_err());
    assert_eq!(st.log.len(), 1);
    assert_eq!(st.log[0].path, START);
    assert_eq!(st.log[0].value, "55");
    assert_eq!(read_string(&st, STOP).unwrap(), "80");
}
