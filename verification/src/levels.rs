//! The coupled charge-level write plan.  The backing store rejects a stop
//! write that does not exceed the currently stored start, the symmetric rule
//! for start writes, and any write of an unchanged value; the plan orders and
//! elides writes so that a valid target pair can always be applied.

use vstd::prelude::*;

use crate::paths;
use crate::store::{find_node, spec_write, write_ok, NodeV, StoreV};
use crate::sysfs::{spec_read_int, spec_read_int_or, spec_resolve, IntRead, SysfsPathV};
use crate::text::{lemma_fmt_i32_roundtrip, spec_fmt_i32};

verus! {

/// Which of the two coupled level attributes a planned write targets.
pub enum LevelTarget {
    Stop,
    Start,
}

/// One planned write of the coupled-levels sequence.
pub struct LevelWrite {
    pub target: LevelTarget,
    pub value: int,
}

/// The attribute reference a planned write goes to.
pub open spec fn target_ref(t: LevelTarget) -> SysfsPathV {
    match t {
        LevelTarget::Stop => paths::spec_charge_stop_level(),
        LevelTarget::Start => paths::spec_charge_start_level(),
    }
}

/// The transitional start value that unblocks a stop write: the target start,
/// capped just below the target stop so it is always accepted.
pub open spec fn prep_value(stop: int, start: int) -> int {
    if start < stop - 1 {
        start
    } else {
        stop - 1
    }
}

/// The ordered write sequence for applying `(stop, start)` given the current
/// stored levels and which level attributes exist: first the transitional
/// start write when the new stop would not exceed the current start, then the
/// stop write, then the final start write unless the transitional write
/// already set it; every write is elided when its value is already stored or
/// its attribute is absent.
pub open spec fn spec_plan(
    cur_stop: int,
    cur_start: int,
    stop_exists: bool,
    start_exists: bool,
    stop: int,
    start: int,
) -> Seq<LevelWrite> {
    let prep_needed = stop <= cur_start && start != cur_start;
    let prep = prep_value(stop, start);
    let w1: Seq<LevelWrite> = if prep_needed && prep != cur_start && start_exists {
        seq![LevelWrite { target: LevelTarget::Start, value: prep }]
    } else {
        Seq::empty()
    };
    let w2: Seq<LevelWrite> = if stop != cur_stop && stop_exists {
        seq![LevelWrite { target: LevelTarget::Stop, value: stop }]
    } else {
        Seq::empty()
    };
    let already = prep_needed && prep == start;
    let w3: Seq<LevelWrite> = if !already && start != cur_start && start_exists {
        seq![LevelWrite { target: LevelTarget::Start, value: start }]
    } else {
        Seq::empty()
    };
    w1 + w2 + w3
}

/// Runs a plan against a snapshot: writes happen in order, the first failing
/// write aborts the rest, and nothing already written is rolled back.
pub open spec fn run_plan(s: StoreV, plan: Seq<LevelWrite>) -> (StoreV, bool)
    decreases plan.len(),
{
    if plan.len() == 0 {
        (s, true)
    } else {
        let w = plan[0];
        match spec_resolve(s.nodes, target_ref(w.target)) {
            Option::None => (s, false),
            Option::Some(loc) => if write_ok(s.nodes, loc) {
                run_plan(spec_write(s, loc, spec_fmt_i32(w.value)), plan.drop_first())
            } else {
                (s, false)
            },
        }
    }
}

/// The whole coupled application: read the current levels (forgivingly
/// defaulting to 100 and 0), plan, and run the plan.
pub open spec fn spec_apply(s: StoreV, stop: int, start: int) -> (StoreV, bool) {
    let cur_start = spec_read_int_or(s.nodes, paths::spec_charge_start_level(), 0);
    let cur_stop = spec_read_int_or(s.nodes, paths::spec_charge_stop_level(), 100);
    run_plan(
        s,
        spec_plan(
            cur_stop as int,
            cur_start as int,
            spec_resolve(s.nodes, paths::spec_charge_stop_level()) is Some,
            spec_resolve(s.nodes, paths::spec_charge_start_level()) is Some,
            stop,
            start,
        ),
    )
}

/// A level node that does not get in the way: either absent, or present with
/// reads and writes both working.
pub open spec fn node_ready(nodes: Seq<NodeV>, p: SysfsPathV) -> bool {
    match spec_resolve(nodes, p) {
        Option::None => true,
        Option::Some(loc) => match find_node(nodes, loc) {
            Option::Some(n) => n.readable && n.writable,
            Option::None => false,
        },
    }
}

/// The two level attributes live at distinct locations.
proof fn lemma_level_paths_distinct()
    ensures
        paths::spec_charge_stop_level().primary != paths::spec_charge_start_level().primary,
{
    reveal_strlit("/sys/devices/platform/google,charger/charge_stop_level");
    reveal_strlit("/sys/devices/platform/google,charger/charge_start_level");
    assert(paths::spec_charge_stop_level().primary.len()
        != paths::spec_charge_start_level().primary.len());
}

/// One plan step on a snapshot whose level nodes are ready: the write
/// succeeds, resolution and readiness of both level references survive, the
/// written location reads back the written value, and nothing else moves.
proof fn lemma_step_ready(s: StoreV, t: LevelTarget, v: int)
    requires
        i32::MIN <= v <= i32::MAX,
        node_ready(s.nodes, paths::spec_charge_stop_level()),
        node_ready(s.nodes, paths::spec_charge_start_level()),
        spec_resolve(s.nodes, target_ref(t)) is Some,
    ensures
        ({
            let loc = spec_resolve(s.nodes, target_ref(t)).unwrap();
            let s2 = spec_write(s, loc, spec_fmt_i32(v));
            &&& write_ok(s.nodes, loc)
            &&& spec_resolve(s2.nodes, paths::spec_charge_stop_level()) == spec_resolve(
                s.nodes,
                paths::spec_charge_stop_level(),
            )
            &&& spec_resolve(s2.nodes, paths::spec_charge_start_level()) == spec_resolve(
                s.nodes,
                paths::spec_charge_start_level(),
            )
            &&& node_ready(s2.nodes, paths::spec_charge_stop_level())
            &&& node_ready(s2.nodes, paths::spec_charge_start_level())
            &&& spec_read_int(s2.nodes, loc) == IntRead::Val(v as i32)
            &&& forall|q: Seq<char>|
                q != loc ==> find_node(s2.nodes, q) == find_node(s.nodes, q)
        }),
{
    let pstop = paths::spec_charge_stop_level();
    let pstart = paths::spec_charge_start_level();
    let loc = spec_resolve(s.nodes, target_ref(t)).unwrap();
    let val = spec_fmt_i32(v);
    let s2 = spec_write(s, loc, val);
    crate::store::lemma_find_write_nodes(s.nodes, loc, val, pstop.primary);
    crate::store::lemma_find_write_nodes(s.nodes, loc, val, pstart.primary);
    crate::store::lemma_find_write_nodes(s.nodes, loc, val, loc);
    assert forall|q: Seq<char>| q != loc implies find_node(s2.nodes, q) == find_node(
        s.nodes,
        q,
    ) by {
        crate::store::lemma_find_write_nodes(s.nodes, loc, val, q);
    }
    lemma_fmt_i32_roundtrip(v);
}

/// Running a plan that starts with one ready write steps to the written
/// snapshot and the remaining plan.
proof fn lemma_run_one(s: StoreV, t: LevelTarget, v: int, rest: Seq<LevelWrite>)
    requires
        i32::MIN <= v <= i32::MAX,
        node_ready(s.nodes, paths::spec_charge_stop_level()),
        node_ready(s.nodes, paths::spec_charge_start_level()),
        spec_resolve(s.nodes, target_ref(t)) is Some,
    ensures
        ({
            let loc = spec_resolve(s.nodes, target_ref(t)).unwrap();
            run_plan(s, seq![LevelWrite { target: t, value: v }] + rest) == run_plan(
                spec_write(s, loc, spec_fmt_i32(v)),
                rest,
            )
        }),
{
    lemma_step_ready(s, t, v);
    let whole = seq![LevelWrite { target: t, value: v }] + rest;
    assert(whole[0] == LevelWrite { target: t, value: v });
    assert(whole.drop_first() =~= rest);
}

/// Applying a valid pair to a snapshot whose level nodes are absent or fully
/// usable succeeds; afterwards each level reads back the applied value, with
/// the applied value itself standing in for an absent or undecipherable node,
/// and the nodes stay ready with their resolution unchanged.
pub proof fn lemma_apply_ready(s: StoreV, stop: int, start: int)
    requires
        50 <= stop <= 100,
        stop - start >= 5,
        i32::MIN <= start,
        node_ready(s.nodes, paths::spec_charge_stop_level()),
        node_ready(s.nodes, paths::spec_charge_start_level()),
    ensures
        spec_apply(s, stop, start).1,
        ({
            let s2 = spec_apply(s, stop, start).0;
            let pstop = paths::spec_charge_stop_level();
            let pstart = paths::spec_charge_start_level();
            &&& spec_read_int_or(s2.nodes, pstop, stop as i32) == stop as i32
            &&& spec_read_int_or(s2.nodes, pstart, start as i32) == start as i32
            &&& node_ready(s2.nodes, pstop)
            &&& node_ready(s2.nodes, pstart)
            &&& spec_resolve(s2.nodes, pstop) == spec_resolve(s.nodes, pstop)
            &&& spec_resolve(s2.nodes, pstart) == spec_resolve(s.nodes, pstart)
            &&& (spec_resolve(s.nodes, pstop) is Some ==> spec_read_int_or(s2.nodes, pstop, 100)
                == stop as i32)
            &&& (spec_resolve(s.nodes, pstart) is Some ==> spec_read_int_or(s2.nodes, pstart, 0)
                == start as i32)
        }),
{
    let pstop = paths::spec_charge_stop_level();
    let pstart = paths::spec_charge_start_level();
    lemma_level_paths_distinct();
    let cur_start = spec_read_int_or(s.nodes, pstart, 0) as int;
    let cur_stop = spec_read_int_or(s.nodes, pstop, 100) as int;
    let stop_exists = spec_resolve(s.nodes, pstop) is Some;
    let start_exists = spec_resolve(s.nodes, pstart) is Some;
    let plan = spec_plan(cur_stop, cur_start, stop_exists, start_exists, stop, start);
    let prep_needed = stop <= cur_start && start != cur_start;
    let prep = prep_value(stop, start);
    let do1 = prep_needed && prep != cur_start && start_exists;
    let do2 = stop != cur_stop && stop_exists;
    let already = prep_needed && prep == start;
    let do3 = !already && start != cur_start && start_exists;

    // Locations never resolve across the two references: each has no
    // alternate, so a resolved location is its own primary.
    assert(stop_exists ==> spec_resolve(s.nodes, pstop) == Option::Some(pstop.primary));
    assert(start_exists ==> spec_resolve(s.nodes, pstart) == Option::Some(pstart.primary));

    let s1 = if do1 {
        spec_write(s, pstart.primary, spec_fmt_i32(prep))
    } else {
        s
    };
    if do1 {
        lemma_step_ready(s, LevelTarget::Start, prep);
    }
    let s2 = if do2 {
        spec_write(s1, pstop.primary, spec_fmt_i32(stop))
    } else {
        s1
    };
    if do2 {
        lemma_step_ready(s1, LevelTarget::Stop, stop);
    }
    let s3 = if do3 {
        spec_write(s2, pstart.primary, spec_fmt_i32(start))
    } else {
        s2
    };
    if do3 {
        lemma_step_ready(s2, LevelTarget::Start, start);
    }

    // The plan runs exactly through s1, s2, s3.
    let w1 = LevelWrite { target: LevelTarget::Start, value: prep };
    let w2 = LevelWrite { target: LevelTarget::Stop, value: stop };
    let w3 = LevelWrite { target: LevelTarget::Start, value: start };
    let tail23: Seq<LevelWrite> = if do2 {
        if do3 {
            seq![w2, w3]
        } else {
            seq![w2]
        }
    } else {
        if do3 {
            seq![w3]
        } else {
            Seq::empty()
        }
    };
    let tail3: Seq<LevelWrite> = if do3 {
        seq![w3]
    } else {
        Seq::empty()
    };
    if do1 {
        assert(plan =~= seq![w1] + tail23);
        lemma_run_one(s, LevelTarget::Start, prep, tail23);
    } else {
        assert(plan =~= tail23);
    }
    assert(run_plan(s, plan) == run_plan(s1, tail23));
    if do2 {
        assert(tail23 =~= seq![w2] + tail3);
        lemma_run_one(s1, LevelTarget::Stop, stop, tail3);
    } else {
        assert(tail23 =~= tail3);
    }
    assert(run_plan(s1, tail23) == run_plan(s2, tail3));
    if do3 {
        assert(tail3 =~= seq![w3] + Seq::<LevelWrite>::empty());
        lemma_run_one(s2, LevelTarget::Start, start, Seq::empty());
    }
    assert(run_plan(s2, tail3) == run_plan(s3, Seq::empty()));
    assert(run_plan(s, plan) == (s3, true));
    assert(spec_apply(s, stop, start) == (s3, true));

    // What the final levels read back.
    if start_exists {
        if start != cur_start {
            if already {
                // The transitional write set the target start; prep == start.
                assert(do1);
                assert(spec_read_int(s1.nodes, pstart.primary) == IntRead::Val(start as i32));
            } else if do3 {
                assert(spec_read_int(s3.nodes, pstart.primary) == IntRead::Val(start as i32));
            }
        }
    }
}

/// Idempotence of the coupled application: once a valid pair has been
/// applied to ready level nodes, applying the same pair again performs zero
/// writes — every current-versus-target comparison is equal, so the snapshot,
/// its write log included, does not move.
pub proof fn lemma_apply_idempotent(s: StoreV, stop: int, start: int)
    requires
        50 <= stop <= 100,
        stop - start >= 5,
        i32::MIN <= start,
        node_ready(s.nodes, paths::spec_charge_stop_level()),
        node_ready(s.nodes, paths::spec_charge_start_level()),
    ensures
        spec_apply(spec_apply(s, stop, start).0, stop, start) == (
            spec_apply(s, stop, start).0,
            true,
        ),
{
    lemma_apply_ready(s, stop, start);
    let s2 = spec_apply(s, stop, start).0;
    let pstop = paths::spec_charge_stop_level();
    let pstart = paths::spec_charge_start_level();
    let cur_start2 = spec_read_int_or(s2.nodes, pstart, 0) as int;
    let cur_stop2 = spec_read_int_or(s2.nodes, pstop, 100) as int;
    let stop_exists2 = spec_resolve(s2.nodes, pstop) is Some;
    let start_exists2 = spec_resolve(s2.nodes, pstart) is Some;
    let plan2 = spec_plan(cur_stop2, cur_start2, stop_exists2, start_exists2, stop, start);
    assert(plan2 =~= Seq::<LevelWrite>::empty());
    assert(run_plan(s2, plan2) == (s2, true));
}

/// The transitional start value is always representable and strictly below
/// the new stop, so it can never block the stop write that follows it; nor
/// does it overshoot the target start.
pub proof fn lemma_prep_value_unblocks(stop: int, start: int)
    requires
        stop - start >= 5,
    ensures
        prep_value(stop, start) < stop,
        prep_value(stop, start) <= start,
{
}

/// A level pair the store already holds plans no writes at all.
pub proof fn lemma_plan_already_satisfied(
    cur_stop: int,
    cur_start: int,
    stop_exists: bool,
    start_exists: bool,
)
    requires
        cur_stop > cur_start,
    ensures
        spec_plan(cur_stop, cur_start, stop_exists, start_exists, cur_stop, cur_start)
            =~= Seq::<LevelWrite>::empty(),
{
}

} // verus!
