//! The capability service façade: the full logical operation set, each
//! operation composed from store primitives, the property table and the
//! coupled-level plan, with a fixed policy of which outcomes are fatal and
//! which are defaulted.

use vstd::prelude::*;

use crate::health::{
    parse_health_stats, spec_empty_stats, spec_health_stats, HealthStats,
};
use crate::levels::{node_ready, run_plan, spec_apply, spec_plan, target_ref, LevelTarget, LevelWrite};
use crate::paths;
use crate::store::{find_node, spec_write, write_ok, Store, StoreV};
use crate::sysfs::{
    spec_read_int_or, spec_read_text, spec_resolve, Error, IntRead, SysfsPathV, TextRead,
};
use crate::table::{get_property_sysfs, spec_property_path, Feature, PROPERTY_BOUND};
use crate::text::spec_fmt_i32;

verus! {

/// A caller-facing failure: an out-of-domain argument, an operation this
/// hardware never supports, or a backend failure wrapping the store error
/// that could not be defaulted, with the operation context for diagnosis.
#[derive(Debug)]
pub enum ServiceError {
    InvalidArgument { msg: &'static str },
    Unsupported { msg: &'static str },
    Backend { context: &'static str, cause: Error },
}

/// The charging policy a caller can request.  `UNRECOGNIZED` stands for any
/// wire value this service does not know.
#[allow(non_camel_case_types)]
#[derive(Clone, Copy, PartialEq, Eq, Structural, Debug)]
pub enum ChargingPolicy {
    DEFAULT,
    LONGLIFE,
    CUSTOM,
    ADAPTIVE,
    UNRECOGNIZED,
}

/// The integer code a recognized policy maps to; none for an unrecognized
/// one.
pub open spec fn spec_policy_code(p: ChargingPolicy) -> Option<i32> {
    match p {
        ChargingPolicy::DEFAULT => Option::Some(1),
        ChargingPolicy::LONGLIFE => Option::Some(2),
        ChargingPolicy::CUSTOM => Option::Some(2),
        ChargingPolicy::ADAPTIVE => Option::Some(3),
        ChargingPolicy::UNRECOGNIZED => Option::None,
    }
}

/// The calibration mode a caller can request.
#[allow(non_camel_case_types)]
#[derive(Clone, Copy, PartialEq, Eq, Structural, Debug)]
pub enum CalibrationMode {
    DISABLED,
    ENABLED,
    FORCED,
    UNRECOGNIZED,
}

/// Which defenders to clear.
#[allow(non_camel_case_types)]
#[derive(Clone, Copy, PartialEq, Eq, Structural, Debug)]
pub enum DefenderType {
    ALL,
    TEMP,
    TRICKLE,
    DWELL,
    DOCK,
    UNRECOGNIZED,
}

/// The health algorithm whose statistics are requested.
#[allow(non_camel_case_types)]
#[derive(Clone, Copy, PartialEq, Eq, Structural, Debug)]
pub enum HealthAlgo {
    GOOGLE,
    MAXIM,
    UNSPECIFIED,
}

/// The dock-defend status a caller observes.
#[allow(non_camel_case_types)]
#[derive(Clone, Copy, PartialEq, Eq, Structural, Debug)]
pub enum DockDefendStatus {
    DISABLED,
    ERROR,
    ACTIVE,
    INACTIVE,
}

/// The current charging stage text and deadline.
#[derive(Debug)]
pub struct ChargingStage {
    pub stage: String,
    pub deadline: i32,
}

/// The integer code a recognized calibration mode maps to.
pub open spec fn spec_cal_code(mode: CalibrationMode) -> Option<i32> {
    match mode {
        CalibrationMode::DISABLED => Option::Some(0),
        CalibrationMode::ENABLED => Option::Some(1),
        CalibrationMode::FORCED => Option::Some(2),
        CalibrationMode::UNRECOGNIZED => Option::None,
    }
}

/// The algorithm identifier the statistics blob uses for each requested
/// algorithm.
pub open spec fn spec_algo_code(algo: HealthAlgo) -> i32 {
    match algo {
        HealthAlgo::GOOGLE => 1,
        HealthAlgo::MAXIM => 2,
        HealthAlgo::UNSPECIFIED => 0,
    }
}

/// The dock-defend state table over the two raw readings.
pub open spec fn spec_dock_status_table(state: int, settings: int) -> DockDefendStatus {
    if state == -1 {
        DockDefendStatus::DISABLED
    } else if settings == -1 {
        DockDefendStatus::ERROR
    } else if state == 1 && settings == 1 {
        DockDefendStatus::ACTIVE
    } else {
        DockDefendStatus::INACTIVE
    }
}

/// The text the stage read yields, empty wherever the read fails.
pub open spec fn spec_stage_text(nodes: Seq<crate::store::NodeV>) -> Seq<char> {
    match spec_resolve(nodes, paths::spec_charge_stage()) {
        Option::None => Seq::empty(),
        Option::Some(loc) => match spec_read_text(nodes, loc) {
            TextRead::Val(t) => t,
            _ => Seq::empty(),
        },
    }
}

/// The health record an algorithm request yields: the blob parsed, with the
/// all-default record wherever the blob is absent, unreadable or unusable.
pub open spec fn spec_health_record(nodes: Seq<crate::store::NodeV>, algo: HealthAlgo) -> HealthStats {
    match spec_resolve(nodes, paths::spec_health_index_stats()) {
        Option::None => spec_empty_stats(),
        Option::Some(loc) => match spec_read_text(nodes, loc) {
            TextRead::Val(t) => match spec_health_stats(t, spec_algo_code(algo)) {
                Option::Some(h) => h,
                Option::None => spec_empty_stats(),
            },
            _ => spec_empty_stats(),
        },
    }
}

/// Clearing the temperature defender: one unconditional write; an absent
/// node is a failure here.
pub open spec fn spec_clear_temp(s: StoreV) -> (StoreV, bool) {
    match spec_resolve(s.nodes, paths::spec_bd_clear()) {
        Option::None => (s, false),
        Option::Some(loc) => if write_ok(s.nodes, loc) {
            (spec_write(s, loc, "B2"@), true)
        } else {
            (s, false)
        },
    }
}

/// Clearing the trickle defender: resets its timer.
pub open spec fn spec_clear_trickle(s: StoreV) -> (StoreV, bool) {
    match spec_resolve(s.nodes, paths::spec_bd_trickle_reset_sec()) {
        Option::None => (s, false),
        Option::Some(loc) => if write_ok(s.nodes, loc) {
            (spec_write(s, loc, spec_fmt_i32(0)), true)
        } else {
            (s, false)
        },
    }
}

/// Clearing the dwell defender: resets its rate.
pub open spec fn spec_clear_dwell(s: StoreV) -> (StoreV, bool) {
    match spec_resolve(s.nodes, paths::spec_bd_trickle_rate()) {
        Option::None => (s, false),
        Option::Some(loc) => if write_ok(s.nodes, loc) {
            (spec_write(s, loc, spec_fmt_i32(0)), true)
        } else {
            (s, false)
        },
    }
}

/// Clearing the dock defender: only writes when its state reads active and
/// its settings node exists; otherwise a silent no-op.
pub open spec fn spec_clear_dock(s: StoreV) -> (StoreV, bool) {
    if spec_read_int_or(s.nodes, paths::spec_dd_state(), 0) == 1 && spec_resolve(
        s.nodes,
        paths::spec_dd_settings(),
    ) is Some {
        let loc = spec_resolve(s.nodes, paths::spec_dd_settings()).unwrap();
        if write_ok(s.nodes, loc) {
            (spec_write(s, loc, "02"@), true)
        } else {
            (s, false)
        }
    } else {
        (s, true)
    }
}

/// Clearing all defenders: temperature, trickle, dwell, dock, in that order,
/// the first failure aborting the rest.
pub open spec fn spec_clear_all(s: StoreV) -> (StoreV, bool) {
    let (s1, ok1) = spec_clear_temp(s);
    if !ok1 {
        (s1, false)
    } else {
        let (s2, ok2) = spec_clear_trickle(s1);
        if !ok2 {
            (s2, false)
        } else {
            let (s3, ok3) = spec_clear_dwell(s2);
            if !ok3 {
                (s3, false)
            } else {
                spec_clear_dock(s3)
            }
        }
    }
}

/// What clearing a given defender kind does to the snapshot.
pub open spec fn spec_clear(s: StoreV, kind: DefenderType) -> (StoreV, bool) {
    match kind {
        DefenderType::ALL => spec_clear_all(s),
        DefenderType::TEMP => spec_clear_temp(s),
        DefenderType::TRICKLE => spec_clear_trickle(s),
        DefenderType::DWELL => spec_clear_dwell(s),
        DefenderType::DOCK => spec_clear_dock(s),
        DefenderType::UNRECOGNIZED => (s, true),
    }
}

/// The cached desired charge thresholds.
pub struct Limits {
    pub stop: i32,
    pub start: i32,
}

/// The capability service: the operation catalog over a store snapshot, plus
/// the cached charge limits.
pub struct BatteryService {
    pub limits: Limits,
}

/// Resolution of one plan step against an arbitrary snapshot; definitional.
proof fn lemma_run_plan_step(s: StoreV, plan: Seq<LevelWrite>)
    requires
        plan.len() > 0,
    ensures
        ({
            let w = plan[0];
            match spec_resolve(s.nodes, target_ref(w.target)) {
                Option::None => run_plan(s, plan) == (s, false),
                Option::Some(loc) => if write_ok(s.nodes, loc) {
                    run_plan(s, plan) == run_plan(
                        spec_write(s, loc, spec_fmt_i32(w.value)),
                        plan.drop_first(),
                    )
                } else {
                    run_plan(s, plan) == (s, false)
                },
            }
        }),
{
}

/// Writes never create or remove nodes, so what a reference resolves to
/// survives any write.
proof fn lemma_write_preserves_resolve(s: StoreV, loc: Seq<char>, val: Seq<char>, p: SysfsPathV)
    ensures
        spec_resolve(spec_write(s, loc, val).nodes, p) == spec_resolve(s.nodes, p),
{
    crate::store::lemma_find_write_nodes(s.nodes, loc, val, p.primary);
    if p.alternate is Some {
        crate::store::lemma_find_write_nodes(s.nodes, loc, val, p.alternate.unwrap());
    }
}

/// Applies a target level pair to the two coupled attributes, in the order
/// and with the elisions of the plan; the first failing write aborts the
/// rest, and nothing already written is rolled back.
#[allow(non_snake_case)]
pub fn apply_levels(st: &mut Store, stop: i32, start: i32) -> (r: Result<(), ServiceError>)
    requires
        50 <= stop <= 100,
        stop as int - start as int >= 5,
    ensures
        final(st)@ == spec_apply(old(st)@, stop as int, start as int).0,
        (r is Ok) == spec_apply(old(st)@, stop as int, start as int).1,
        r matches Err(e) ==> e is Backend,
{
    let ghost s0 = old(st)@;
    let ghost pstop = paths::spec_charge_stop_level();
    let ghost pstart = paths::spec_charge_start_level();
    let start_ref = paths::charge_start_level();
    let stop_ref = paths::charge_stop_level();
    let current_start = start_ref.read_int_or(st, 0);
    let current_stop = stop_ref.read_int_or(st, 100);
    let ghost stop_exists = spec_resolve(s0.nodes, pstop) is Some;
    let ghost start_exists = spec_resolve(s0.nodes, pstart) is Some;
    let ghost plan = spec_plan(
        current_stop as int,
        current_start as int,
        stop_exists,
        start_exists,
        stop as int,
        start as int,
    );
    let ghost prep_needed = stop <= current_start && start != current_start;
    let ghost prep_v = crate::levels::prep_value(stop as int, start as int);
    let ghost do1 = prep_needed && prep_v != current_start && start_exists;
    let ghost do2 = stop != current_stop && stop_exists;
    let ghost already = prep_needed && prep_v == start;
    let ghost do3 = !already && start != current_start && start_exists;
    let ghost w1 = LevelWrite { target: LevelTarget::Start, value: prep_v };
    let ghost w2 = LevelWrite { target: LevelTarget::Stop, value: stop as int };
    let ghost w3 = LevelWrite { target: LevelTarget::Start, value: start as int };
    let ghost tail23: Seq<LevelWrite> = if do2 {
        if do3 {
            seq![w2, w3]
        } else {
            seq![w2]
        }
    } else {
        if do3 {
            seq![w3]
        } else {
            Seq::empty()
        }
    };
    let ghost tail3: Seq<LevelWrite> = if do3 {
        seq![w3]
    } else {
        Seq::empty()
    };
    proof {
        if do1 {
            assert(plan =~= seq![w1] + tail23);
            assert((seq![w1] + tail23)[0] == w1);
            assert((seq![w1] + tail23).drop_first() =~= tail23);
        } else {
            assert(plan =~= tail23);
        }
        if do2 {
            assert(tail23 =~= seq![w2] + tail3);
            assert((seq![w2] + tail3)[0] == w2);
            assert((seq![w2] + tail3).drop_first() =~= tail3);
        } else {
            assert(tail23 =~= tail3);
        }
        if do3 {
            assert(tail3 =~= seq![w3] + Seq::<LevelWrite>::empty());
            assert(tail3[0] == w3);
            assert(tail3.drop_first() =~= Seq::<LevelWrite>::empty());
        }
    }

    // Lower start first when the new stop would not clear the current start.
    let mut prep_start: Option<i32> = None;
    if stop <= current_start && start != current_start {
        let prep = if start < stop - 1 {
            start
        } else {
            stop - 1
        };
        if prep != current_start && start_ref.is_present(st) {
            match start_ref.write_int(st, prep) {
                Ok(u) => {
                    proof {
                        lemma_run_plan_step(s0, plan);
                    }
                },
                Err(e) => {
                    proof {
                        lemma_run_plan_step(s0, plan);
                        assert(run_plan(s0, plan) == (s0, false));
                    }
                    return Err(
                        ServiceError::Backend { context: "write start (prep)", cause: e },
                    );
                },
            }
        }
        prep_start = Some(prep);
    }
    let ghost s1 = if do1 {
        spec_write(s0, pstart.primary, spec_fmt_i32(prep_v))
    } else {
        s0
    };
    proof {
        assert(st@ == s1);
        assert(run_plan(s0, plan) == run_plan(s1, tail23));
        lemma_write_preserves_resolve_all(s0, s1, pstop, pstart, do1, prep_v);
    }

    if stop != current_stop && stop_ref.is_present(st) {
        match stop_ref.write_int(st, stop) {
            Ok(u) => {
                proof {
                    lemma_run_plan_step(s1, tail23);
                }
            },
            Err(e) => {
                proof {
                    lemma_run_plan_step(s1, tail23);
                    assert(run_plan(s1, tail23) == (s1, false));
                }
                return Err(ServiceError::Backend { context: "write stop", cause: e });
            },
        }
    }
    let ghost s2 = if do2 {
        spec_write(s1, pstop.primary, spec_fmt_i32(stop as int))
    } else {
        s1
    };
    proof {
        assert(st@ == s2);
        assert(run_plan(s1, tail23) == run_plan(s2, tail3));
        lemma_write_preserves_resolve_all(s1, s2, pstop, pstart, do2, stop as int);
    }

    // Only write start if the transitional write did not already set it.
    let already_set = match prep_start {
        Some(p) => p == start,
        None => false,
    };
    if !already_set && start != current_start && start_ref.is_present(st) {
        match start_ref.write_int(st, start) {
            Ok(u) => {
                proof {
                    lemma_run_plan_step(s2, tail3);
                }
            },
            Err(e) => {
                proof {
                    lemma_run_plan_step(s2, tail3);
                    assert(run_plan(s2, tail3) == (s2, false));
                }
                return Err(ServiceError::Backend { context: "write start", cause: e });
            },
        }
    }
    let ghost s3 = if do3 {
        spec_write(s2, pstart.primary, spec_fmt_i32(start as int))
    } else {
        s2
    };
    proof {
        assert(st@ == s3);
        assert(run_plan(s2, tail3) == (s3, true));
    }
    Ok(())
}

/// Helper fact for [`apply_levels`]: stepping from one ghost snapshot to the
/// next preserves what both level references resolve to.
proof fn lemma_write_preserves_resolve_all(
    sa: StoreV,
    sb: StoreV,
    pstop: SysfsPathV,
    pstart: SysfsPathV,
    wrote: bool,
    v: int,
)
    requires
        sb == sa || sb == spec_write(sa, pstop.primary, spec_fmt_i32(v)) || sb == spec_write(
            sa,
            pstart.primary,
            spec_fmt_i32(v),
        ),
    ensures
        spec_resolve(sb.nodes, pstop) == spec_resolve(sa.nodes, pstop),
        spec_resolve(sb.nodes, pstart) == spec_resolve(sa.nodes, pstart),
{
    if sb != sa {
        if sb == spec_write(sa, pstop.primary, spec_fmt_i32(v)) {
            lemma_write_preserves_resolve(sa, pstop.primary, spec_fmt_i32(v), pstop);
            lemma_write_preserves_resolve(sa, pstop.primary, spec_fmt_i32(v), pstart);
        }
        if sb == spec_write(sa, pstart.primary, spec_fmt_i32(v)) {
            lemma_write_preserves_resolve(sa, pstart.primary, spec_fmt_i32(v), pstop);
            lemma_write_preserves_resolve(sa, pstart.primary, spec_fmt_i32(v), pstart);
        }
    }
}

impl BatteryService {
    pub open spec fn spec_stop(&self) -> int {
        self.limits.stop as int
    }

    pub open spec fn spec_start(&self) -> int {
        self.limits.start as int
    }

    /// The cached limits invariant: stop within its band and the gap held.
    pub open spec fn wf(&self) -> bool {
        50 <= self.spec_stop() <= 100 && self.spec_stop() - self.spec_start() >= 5
    }

    /// A fresh service: limits at their defaults.
    pub fn new() -> (s: Self)
        ensures
            s.wf(),
            s.spec_stop() == 80,
            s.spec_start() == 70,
    {
        BatteryService { limits: Limits { stop: 80, start: 70 } }
    }

    /// Updates the cached limits after validating them, and applies them at
    /// once when the stored policy is the custom one.  An out-of-domain pair
    /// is rejected without touching the cache or the store.
    #[allow(non_snake_case)]
    pub fn setChargeLimit(&mut self, st: &mut Store, stop: i32, start: i32) -> (r: Result<
        (),
        ServiceError,
    >)
        requires
            old(self).wf(),
        ensures
            final(self).wf(),
            ({
                let valid = 50 <= stop <= 100 && stop as int - start as int >= 5;
                if !valid {
                    &&& r matches Err(e) && e is InvalidArgument
                    &&& *final(self) == *old(self)
                    &&& final(st)@ == old(st)@
                } else {
                    &&& final(self).spec_stop() == stop as int
                    &&& final(self).spec_start() == start as int
                    &&& if spec_read_int_or(old(st)@.nodes, paths::spec_charging_policy(), 1)
                        == 2 {
                        &&& final(st)@ == spec_apply(old(st)@, stop as int, start as int).0
                        &&& (r is Ok) == spec_apply(old(st)@, stop as int, start as int).1
                        &&& (r matches Err(e) ==> e is Backend)
                    } else {
                        &&& final(st)@ == old(st)@
                        &&& r is Ok
                    }
                }
            }),
    {
        if stop < 50 || stop > 100 {
            return Err(ServiceError::InvalidArgument { msg: "stop must be 50-100" });
        }
        if (stop as i64) - (start as i64) < 5 {
            return Err(ServiceError::InvalidArgument { msg: "gap must be >= 5" });
        }
        self.limits.stop = stop;
        self.limits.start = start;
        if paths::charging_policy().read_int_or(st, 1) == 2 {
            match apply_levels(st, stop, start) {
                Ok(u) => {},
                Err(e) => {
                    return Err(e);
                },
            }
        }
        Ok(())
    }

    /// The effective limits: the backing levels, with the cached limits
    /// standing in wherever a level cannot be read.
    #[allow(non_snake_case)]
    pub fn getChargeLimit(&self, st: &Store) -> (r: Vec<i32>)
        ensures
            r@.len() == 2,
            r@[0] == spec_read_int_or(st@.nodes, paths::spec_charge_stop_level(), self.limits.stop),
            r@[1] == spec_read_int_or(
                st@.nodes,
                paths::spec_charge_start_level(),
                self.limits.start,
            ),
    {
        let mut r: Vec<i32> = Vec::new();
        r.push(paths::charge_stop_level().read_int_or(st, self.limits.stop));
        r.push(paths::charge_start_level().read_int_or(st, self.limits.start));
        r
    }

    /// Maps the policy to its code and stores it; no-op when the policy node
    /// is absent; for the custom policy, re-applies the cached limits at
    /// once.
    #[allow(non_snake_case)]
    pub fn setChargingPolicy(&self, st: &mut Store, policy: ChargingPolicy) -> (r: Result<
        (),
        ServiceError,
    >)
        requires
            self.wf(),
        ensures
            ({
                match spec_policy_code(policy) {
                    Option::None => r matches Err(e) && e is InvalidArgument && final(st)@ == old(
                        st,
                    )@,
                    Option::Some(code) => match spec_resolve(
                        old(st)@.nodes,
                        paths::spec_charging_policy(),
                    ) {
                        Option::None => r is Ok && final(st)@ == old(st)@,
                        Option::Some(loc) => if !write_ok(old(st)@.nodes, loc) {
                            r matches Err(e) && e is Backend && final(st)@ == old(st)@
                        } else {
                            let s1 = spec_write(old(st)@, loc, spec_fmt_i32(code as int));
                            if policy is CUSTOM {
                                &&& final(st)@ == spec_apply(
                                    s1,
                                    self.spec_stop(),
                                    self.spec_start(),
                                ).0
                                &&& (r is Ok) == spec_apply(
                                    s1,
                                    self.spec_stop(),
                                    self.spec_start(),
                                ).1
                                &&& (r matches Err(e) ==> e is Backend)
                            } else {
                                r is Ok && final(st)@ == s1
                            }
                        },
                    },
                }
            }),
    {
        let val: i32 = match policy {
            ChargingPolicy::DEFAULT => 1,
            ChargingPolicy::LONGLIFE => 2,
            ChargingPolicy::CUSTOM => 2,
            ChargingPolicy::ADAPTIVE => 3,
            ChargingPolicy::UNRECOGNIZED => {
                return Err(ServiceError::InvalidArgument { msg: "invalid policy" });
            },
        };
        let pref = paths::charging_policy();
        if !pref.is_present(st) {
            return Ok(());
        }
        match pref.write_int(st, val) {
            Ok(u) => {},
            Err(e) => {
                return Err(ServiceError::Backend { context: "write policy", cause: e });
            },
        }
        if policy == ChargingPolicy::CUSTOM {
            let stop = self.limits.stop;
            let start = self.limits.start;
            match apply_levels(st, stop, start) {
                Ok(u) => {},
                Err(e) => {
                    return Err(e);
                },
            }
        }
        Ok(())
    }

    /// The stored policy code, with the default policy's code standing in
    /// wherever the node cannot be read.
    #[allow(non_snake_case)]
    pub fn getChargingPolicy(&self, st: &Store) -> (r: i32)
        ensures
            r == spec_read_int_or(st@.nodes, paths::spec_charging_policy(), 1),
    {
        paths::charging_policy().read_int_or(st, 1)
    }

    /// Only dock-defend is controllable: writes its enable or disable
    /// sentinel when the settings node exists; everything else, the settings
    /// node's absence included, is unsupported.
    #[allow(non_snake_case)]
    pub fn setEnable(&self, st: &mut Store, feature: Feature, enabled: bool) -> (r: Result<
        (),
        ServiceError,
    >)
        ensures
            ({
                let dd = spec_resolve(old(st)@.nodes, paths::spec_dd_settings());
                if feature is DOCK_DEFEND && dd is Some {
                    let loc = dd.unwrap();
                    if write_ok(old(st)@.nodes, loc) {
                        r is Ok && final(st)@ == spec_write(
                            old(st)@,
                            loc,
                            if enabled {
                                "B2"@
                            } else {
                                "1M"@
                            },
                        )
                    } else {
                        r matches Err(e) && e is Backend && final(st)@ == old(st)@
                    }
                } else {
                    r matches Err(e) && e is Unsupported && final(st)@ == old(st)@
                }
            }),
    {
        match feature {
            Feature::DOCK_DEFEND => {
                let dd = paths::dd_settings();
                if dd.is_present(st) {
                    let value = if enabled {
                        "B2"
                    } else {
                        "1M"
                    };
                    match dd.write_string(st, value) {
                        Ok(u) => Ok(()),
                        Err(e) => Err(ServiceError::Backend { context: "dock defend", cause: e }),
                    }
                } else {
                    Err(ServiceError::Unsupported { msg: "feature not controllable" })
                }
            },
            _ => Err(ServiceError::Unsupported { msg: "feature not controllable" }),
        }
    }

    /// Clears the requested defenders; clearing all runs the four
    /// sub-routines in order and aborts on the first failure.
    #[allow(non_snake_case)]
    pub fn clearBatteryDefenders(&self, st: &mut Store, kind: DefenderType) -> (r: Result<
        (),
        ServiceError,
    >)
        ensures
            final(st)@ == spec_clear(old(st)@, kind).0,
            (r is Ok) == spec_clear(old(st)@, kind).1,
            r matches Err(e) ==> e is Backend,
    {
        match kind {
            DefenderType::ALL => {
                match self.clear_temp(st) {
                    Ok(u) => {},
                    Err(e) => {
                        return Err(e);
                    },
                }
                match self.clear_trickle(st) {
                    Ok(u) => {},
                    Err(e) => {
                        return Err(e);
                    },
                }
                match self.clear_dwell(st) {
                    Ok(u) => {},
                    Err(e) => {
                        return Err(e);
                    },
                }
                self.clear_dock(st)
            },
            DefenderType::TEMP => self.clear_temp(st),
            DefenderType::TRICKLE => self.clear_trickle(st),
            DefenderType::DWELL => self.clear_dwell(st),
            DefenderType::DOCK => self.clear_dock(st),
            DefenderType::UNRECOGNIZED => Ok(()),
        }
    }

    fn clear_temp(&self, st: &mut Store) -> (r: Result<(), ServiceError>)
        ensures
            final(st)@ == spec_clear_temp(old(st)@).0,
            (r is Ok) == spec_clear_temp(old(st)@).1,
            r matches Err(e) ==> e is Backend,
    {
        match paths::bd_clear().write_string(st, "B2") {
            Ok(u) => Ok(()),
            Err(e) => Err(ServiceError::Backend { context: "clear temp", cause: e }),
        }
    }

    fn clear_trickle(&self, st: &mut Store) -> (r: Result<(), ServiceError>)
        ensures
            final(st)@ == spec_clear_trickle(old(st)@).0,
            (r is Ok) == spec_clear_trickle(old(st)@).1,
            r matches Err(e) ==> e is Backend,
    {
        match paths::bd_trickle_reset_sec().write_int(st, 0) {
            Ok(u) => Ok(()),
            Err(e) => Err(ServiceError::Backend { context: "clear trickle", cause: e }),
        }
    }

    fn clear_dwell(&self, st: &mut Store) -> (r: Result<(), ServiceError>)
        ensures
            final(st)@ == spec_clear_dwell(old(st)@).0,
            (r is Ok) == spec_clear_dwell(old(st)@).1,
            r matches Err(e) ==> e is Backend,
    {
        match paths::bd_trickle_rate().write_int(st, 0) {
            Ok(u) => Ok(()),
            Err(e) => Err(ServiceError::Backend { context: "clear dwell", cause: e }),
        }
    }

    fn clear_dock(&self, st: &mut Store) -> (r: Result<(), ServiceError>)
        ensures
            final(st)@ == spec_clear_dock(old(st)@).0,
            (r is Ok) == spec_clear_dock(old(st)@).1,
            r matches Err(e) ==> e is Backend,
    {
        if paths::dd_state().read_int_or(st, 0) == 1 && paths::dd_settings().is_present(st) {
            match paths::dd_settings().write_string(st, "02") {
                Ok(u) => Ok(()),
                Err(e) => Err(ServiceError::Backend { context: "clear dock", cause: e }),
            }
        } else {
            Ok(())
        }
    }

    /// Reads a generic property: empty text for an undeclared or absent
    /// mapping, the node's text otherwise; identifiers out of range are the
    /// caller's error.
    #[allow(non_snake_case)]
    pub fn getStringProperty(&self, st: &Store, feature: Feature, prop: i32) -> (r: Result<
        String,
        ServiceError,
    >)
        ensures
            ({
                if prop >= PROPERTY_BOUND {
                    r matches Err(e) && e is InvalidArgument
                } else {
                    match spec_property_path(feature, prop) {
                        Option::Some(path) => match spec_read_text(st@.nodes, path) {
                            TextRead::Val(t) => r matches Ok(s) && s@ == t,
                            TextRead::Unreadable => r matches Err(e) && e is Backend,
                            TextRead::Missing => r matches Ok(s) && s@ == Seq::<char>::empty(),
                        },
                        Option::None => r matches Ok(s) && s@ == Seq::<char>::empty(),
                    }
                }
            }),
    {
        if prop >= PROPERTY_BOUND {
            return Err(ServiceError::InvalidArgument { msg: "property out of range" });
        }
        match get_property_sysfs(feature, prop) {
            Some(path) => {
                if st.index_of(path).is_some() {
                    match crate::sysfs::read_string(st, path) {
                        Ok(s) => Ok(s),
                        Err(e) => Err(
                            ServiceError::Backend { context: "getStringProperty", cause: e },
                        ),
                    }
                } else {
                    Ok(String::new())
                }
            },
            None => Ok(String::new()),
        }
    }

    /// Writes a generic property: an undeclared or absent mapping succeeds
    /// silently without effect, mirroring the upstream behaviour callers
    /// depend on.
    #[allow(non_snake_case)]
    pub fn setStringProperty(&self, st: &mut Store, feature: Feature, prop: i32, value: &str) -> (r:
        Result<(), ServiceError>)
        ensures
            ({
                if prop >= PROPERTY_BOUND {
                    r matches Err(e) && e is InvalidArgument && final(st)@ == old(st)@
                } else {
                    match spec_property_path(feature, prop) {
                        Option::Some(path) => match find_node(old(st)@.nodes, path) {
                            Option::Some(n) => if n.writable {
                                r is Ok && final(st)@ == spec_write(old(st)@, path, value@)
                            } else {
                                r matches Err(e) && e is Backend && final(st)@ == old(st)@
                            },
                            Option::None => r is Ok && final(st)@ == old(st)@,
                        },
                        Option::None => r is Ok && final(st)@ == old(st)@,
                    }
                }
            }),
    {
        if prop >= PROPERTY_BOUND {
            return Err(ServiceError::InvalidArgument { msg: "property out of range" });
        }
        match get_property_sysfs(feature, prop) {
            Some(path) => {
                if st.index_of(path).is_some() {
                    match crate::sysfs::write_string(st, path, value) {
                        Ok(u) => Ok(()),
                        Err(e) => Err(
                            ServiceError::Backend { context: "setStringProperty", cause: e },
                        ),
                    }
                } else {
                    // Silently succeed when the node is not configured.
                    Ok(())
                }
            },
            None => Ok(()),
        }
    }

    /// The raw charging status code, -1 wherever it cannot be read.
    #[allow(non_snake_case)]
    pub fn getChargingStatus(&self, st: &Store) -> (r: i32)
        ensures
            r == spec_read_int_or(st@.nodes, paths::spec_charging_status(), -1i32),
    {
        paths::charging_status().read_int_or(st, -1)
    }

    /// The raw charging type code, -1 wherever it cannot be read.
    #[allow(non_snake_case)]
    pub fn getChargingType(&self, st: &Store) -> (r: i32)
        ensures
            r == spec_read_int_or(st@.nodes, paths::spec_charging_type(), -1i32),
    {
        paths::charging_type().read_int_or(st, -1)
    }

    /// The charging speed, 0 wherever it cannot be read.
    #[allow(non_snake_case)]
    pub fn getChargingSpeed(&self, st: &Store) -> (r: i32)
        ensures
            r == spec_read_int_or(st@.nodes, paths::spec_charging_speed(), 0),
    {
        paths::charging_speed().read_int_or(st, 0)
    }

    /// Stores the charging deadline; any failure is a backend failure.
    #[allow(non_snake_case)]
    pub fn setChargingDeadline(&self, st: &mut Store, deadline: i32) -> (r: Result<
        (),
        ServiceError,
    >)
        ensures
            ({
                match spec_resolve(old(st)@.nodes, paths::spec_charge_deadline()) {
                    Option::None => r matches Err(e) && e is Backend && final(st)@ == old(st)@,
                    Option::Some(loc) => if write_ok(old(st)@.nodes, loc) {
                        r is Ok && final(st)@ == spec_write(
                            old(st)@,
                            loc,
                            spec_fmt_i32(deadline as int),
                        )
                    } else {
                        r matches Err(e) && e is Backend && final(st)@ == old(st)@
                    },
                }
            }),
    {
        match paths::charge_deadline().write_int(st, deadline) {
            Ok(u) => Ok(()),
            Err(e) => Err(ServiceError::Backend { context: "write deadline", cause: e }),
        }
    }

    /// The stage text (empty when unreadable) and the deadline (0 when
    /// unreadable).
    #[allow(non_snake_case)]
    pub fn getChargingStageAndDeadline(&self, st: &Store) -> (r: ChargingStage)
        ensures
            r.stage@ == spec_stage_text(st@.nodes),
            r.deadline == spec_read_int_or(st@.nodes, paths::spec_charge_deadline(), 0),
    {
        let stage = match paths::charge_stage().read_string(st) {
            Ok(s) => s,
            Err(e) => String::new(),
        };
        ChargingStage { stage, deadline: paths::charge_deadline().read_int_or(st, 0) }
    }

    /// The health index, 100 wherever it cannot be read.
    #[allow(non_snake_case)]
    pub fn getHealthIndex(&self, st: &Store) -> (r: i32)
        ensures
            r == spec_read_int_or(st@.nodes, paths::spec_health_index(), 100),
    {
        paths::health_index().read_int_or(st, 100)
    }

    /// The raw health status code, 0 wherever it cannot be read.
    #[allow(non_snake_case)]
    pub fn getHealthStatus(&self, st: &Store) -> (r: i32)
        ensures
            r == spec_read_int_or(st@.nodes, paths::spec_health_status(), 0),
    {
        paths::health_status().read_int_or(st, 0)
    }

    /// The capacity index; there is no safe default, so any failure
    /// escalates.
    #[allow(non_snake_case)]
    pub fn getHealthCapacityIndex(&self, st: &Store) -> (r: Result<i32, ServiceError>)
        ensures
            ({
                match crate::sysfs::spec_path_read_int(
                    st@.nodes,
                    paths::spec_health_capacity_index(),
                ) {
                    IntRead::Val(v) => r matches Ok(x) && x == v,
                    _ => r matches Err(e) && e is Backend,
                }
            }),
    {
        match paths::health_capacity_index().read_int(st) {
            Ok(v) => Ok(v),
            Err(e) => Err(ServiceError::Backend { context: "capacity index", cause: e }),
        }
    }

    /// The impedance index; there is no safe default, so any failure
    /// escalates.
    #[allow(non_snake_case)]
    pub fn getHealthImpedanceIndex(&self, st: &Store) -> (r: Result<i32, ServiceError>)
        ensures
            ({
                match crate::sysfs::spec_path_read_int(
                    st@.nodes,
                    paths::spec_health_impedance_index(),
                ) {
                    IntRead::Val(v) => r matches Ok(x) && x == v,
                    _ => r matches Err(e) && e is Backend,
                }
            }),
    {
        match paths::health_impedance_index().read_int(st) {
            Ok(v) => Ok(v),
            Err(e) => Err(ServiceError::Backend { context: "impedance index", cause: e }),
        }
    }

    /// The health statistics record for an algorithm; degrades to the
    /// all-default record, never to an error.
    #[allow(non_snake_case)]
    pub fn getHealthStats(&self, st: &Store, algo: HealthAlgo) -> (r: HealthStats)
        ensures
            r == spec_health_record(st@.nodes, algo),
    {
        let code: i32 = match algo {
            HealthAlgo::GOOGLE => 1,
            HealthAlgo::MAXIM => 2,
            HealthAlgo::UNSPECIFIED => 0,
        };
        match paths::health_index_stats().read_string(st) {
            Ok(blob) => match parse_health_stats(blob.as_str(), code) {
                Some(h) => h,
                None => HealthStats::empty(),
            },
            Err(e) => HealthStats::empty(),
        }
    }

    /// Stores the health always-on value; any failure is a backend failure.
    #[allow(non_snake_case)]
    pub fn setHealthAlwaysOn(&self, st: &mut Store, value: i32) -> (r: Result<(), ServiceError>)
        ensures
            ({
                match spec_resolve(old(st)@.nodes, paths::spec_charge_limit()) {
                    Option::None => r matches Err(e) && e is Backend && final(st)@ == old(st)@,
                    Option::Some(loc) => if write_ok(old(st)@.nodes, loc) {
                        r is Ok && final(st)@ == spec_write(
                            old(st)@,
                            loc,
                            spec_fmt_i32(value as int),
                        )
                    } else {
                        r matches Err(e) && e is Backend && final(st)@ == old(st)@
                    },
                }
            }),
    {
        match paths::charge_limit().write_int(st, value) {
            Ok(u) => Ok(()),
            Err(e) => Err(ServiceError::Backend { context: "write charge_limit", cause: e }),
        }
    }

    /// Schedules a calibration: a silent no-op when the mode node is absent;
    /// an unrecognized mode is the caller's error.
    #[allow(non_snake_case)]
    pub fn scheduleCalibration(&self, st: &mut Store, mode: CalibrationMode) -> (r: Result<
        (),
        ServiceError,
    >)
        ensures
            ({
                match spec_resolve(old(st)@.nodes, paths::spec_health_set_cal_mode()) {
                    Option::None => r is Ok && final(st)@ == old(st)@,
                    Option::Some(loc) => match spec_cal_code(mode) {
                        Option::None => r matches Err(e) && e is InvalidArgument && final(st)@
                            == old(st)@,
                        Option::Some(v) => if write_ok(old(st)@.nodes, loc) {
                            r is Ok && final(st)@ == spec_write(
                                old(st)@,
                                loc,
                                spec_fmt_i32(v as int),
                            )
                        } else {
                            r matches Err(e) && e is Backend && final(st)@ == old(st)@
                        },
                    },
                }
            }),
    {
        let cal = paths::health_set_cal_mode();
        if !cal.is_present(st) {
            return Ok(());
        }
        let v: i32 = match mode {
            CalibrationMode::DISABLED => 0,
            CalibrationMode::ENABLED => 1,
            CalibrationMode::FORCED => 2,
            CalibrationMode::UNRECOGNIZED => {
                return Err(ServiceError::InvalidArgument { msg: "invalid mode" });
            },
        };
        match cal.write_int(st, v) {
            Ok(u) => Ok(()),
            Err(e) => Err(ServiceError::Backend { context: "calibration", cause: e }),
        }
    }

    /// The raw calibration state, 0 wherever it cannot be read.
    #[allow(non_snake_case)]
    pub fn getCalibrationState(&self, st: &Store) -> (r: i32)
        ensures
            r == spec_read_int_or(st@.nodes, paths::spec_health_get_cal_state(), 0),
    {
        paths::health_get_cal_state().read_int_or(st, 0)
    }

    /// The dock-defend status: disabled when its state node is absent or
    /// reads -1, an error when only its settings read fails, active exactly
    /// on (1, 1), inactive otherwise.
    #[allow(non_snake_case)]
    pub fn getDockDefendStatus(&self, st: &Store) -> (r: DockDefendStatus)
        ensures
            r == ({
                if spec_resolve(st@.nodes, paths::spec_dd_state()) is None {
                    DockDefendStatus::DISABLED
                } else {
                    spec_dock_status_table(
                        spec_read_int_or(st@.nodes, paths::spec_dd_state(), -1i32) as int,
                        spec_read_int_or(st@.nodes, paths::spec_dd_settings(), -1i32) as int,
                    )
                }
            }),
    {
        if !paths::dd_state().is_present(st) {
            return DockDefendStatus::DISABLED;
        }
        let state = paths::dd_state().read_int_or(st, -1);
        let settings = paths::dd_settings().read_int_or(st, -1);
        if state == -1 {
            DockDefendStatus::DISABLED
        } else if settings == -1 {
            DockDefendStatus::ERROR
        } else if state == 1 && settings == 1 {
            DockDefendStatus::ACTIVE
        } else {
            DockDefendStatus::INACTIVE
        }
    }

    /// Never supported on this hardware.
    #[allow(non_snake_case)]
    pub fn getAdapterId(&self) -> (r: Result<i32, ServiceError>)
        ensures
            r matches Err(e) && e is Unsupported,
    {
        Err(ServiceError::Unsupported { msg: "getAdapterId not supported" })
    }
}

/// Law: once a valid pair is applied while the level nodes are absent or
/// fully usable — as they are whenever the accepted `setChargeLimit` write
/// path runs without backend rejection — the application succeeds, and the
/// effective limits read back exactly the applied pair, the cached pair
/// standing in for a level that cannot be read.
pub proof fn lemma_set_then_get(s: StoreV, stop: int, start: int)
    requires
        50 <= stop <= 100,
        stop - start >= 5,
        i32::MIN <= start,
        node_ready(s.nodes, paths::spec_charge_stop_level()),
        node_ready(s.nodes, paths::spec_charge_start_level()),
    ensures
        spec_apply(s, stop, start).1,
        spec_read_int_or(
            spec_apply(s, stop, start).0.nodes,
            paths::spec_charge_stop_level(),
            stop as i32,
        ) == stop as i32,
        spec_read_int_or(
            spec_apply(s, stop, start).0.nodes,
            paths::spec_charge_start_level(),
            start as i32,
        ) == start as i32,
{
    crate::levels::lemma_apply_ready(s, stop, start);
}

} // verus!
