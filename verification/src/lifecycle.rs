//! Bar lifecycle: planning which bar windows a rebuild creates, and the
//! tear-down / recreate sequence over the live instance set.

use vstd::prelude::*;
use crate::config::{BarEntry, YasbConfig, spec_validated_label, validate_bar_label};
use crate::geometry::{Monitor, Rect, edge_rectangle, spec_edge_rect, monitor_in_bounds, thickness_fits};
use crate::text::{contains_str, spec_contains_str};

verus! {

/// One bar window a rebuild will create: a (definition, monitor) pair with
/// its validated label and its on-screen rectangle.
#[derive(Debug, Clone)]
pub struct BarInstancePlan {
    pub definition_label: String,
    pub monitor_name: String,
    pub bar_index: usize,
    pub monitor_index: usize,
    pub rect: Rect,
    pub reserve: bool,
}

/// Ghost description of one planned instance.
pub struct PlanModel {
    pub label: Seq<char>,
    pub monitor_name: Seq<char>,
    pub bar_index: int,
    pub monitor_index: int,
    pub rect: Rect,
    pub reserve: bool,
}

pub open spec fn plan_model(p: BarInstancePlan) -> PlanModel {
    PlanModel {
        label: p.definition_label@,
        monitor_name: p.monitor_name@,
        bar_index: p.bar_index as int,
        monitor_index: p.monitor_index as int,
        rect: p.rect,
        reserve: p.reserve,
    }
}

pub open spec fn plan_models(s: Seq<BarInstancePlan>) -> Seq<PlanModel> {
    s.map_values(|p: BarInstancePlan| plan_model(p))
}

/// Whether a definition targets a monitor: an absent or empty target list
/// matches every monitor, a non-empty list only the monitors it names.
pub open spec fn spec_matches(config: crate::config::BarConfig, m: Monitor) -> bool {
    match config.screens {
        Option::None => true,
        Option::Some(names) => names@.len() == 0 || spec_contains_str(names@, m.name@),
    }
}

pub open spec fn spec_plan_item(bar: BarEntry, j: int, m: Monitor, i: int) -> PlanModel {
    PlanModel {
        label: spec_validated_label(bar.label@),
        monitor_name: m.name@,
        bar_index: j,
        monitor_index: i,
        rect: spec_edge_rect(m, bar.config.edge, bar.config.thickness),
        reserve: bar.config.win_app_bar,
    }
}

/// The instances one definition contributes, in monitor order.
pub open spec fn spec_plan_one(bar: BarEntry, j: int, monitors: Seq<Monitor>) -> Seq<PlanModel>
    decreases monitors.len(),
{
    if monitors.len() == 0 {
        Seq::empty()
    } else {
        let init = spec_plan_one(bar, j, monitors.drop_last());
        if spec_matches(bar.config, monitors.last()) {
            init + seq![spec_plan_item(bar, j, monitors.last(), monitors.len() - 1)]
        } else {
            init
        }
    }
}

/// The full plan: per definition in file order, one instance per targeted
/// monitor in monitor order.
pub open spec fn spec_plan(bars: Seq<BarEntry>, monitors: Seq<Monitor>) -> Seq<PlanModel>
    decreases bars.len(),
{
    if bars.len() == 0 {
        Seq::empty()
    } else {
        spec_plan(bars.drop_last(), monitors) + spec_plan_one(
            bars.last(),
            bars.len() - 1,
            monitors,
        )
    }
}

/// Machine limits the planner needs: monitor corners within the signed
/// 32-bit coordinate space, and each targeted bar's thickness within the
/// monitor dimension it is carved from.
pub open spec fn plan_inputs_ok(bars: Seq<BarEntry>, monitors: Seq<Monitor>) -> bool {
    &&& forall|i: int| 0 <= i < monitors.len() ==> monitor_in_bounds(#[trigger] monitors[i])
    &&& forall|j: int, i: int|
        0 <= j < bars.len() && 0 <= i < monitors.len() && spec_matches(
            #[trigger] bars[j].config,
            #[trigger] monitors[i],
        ) ==> thickness_fits(bars[j].config.edge, bars[j].config.thickness, monitors[i])
}

/// Compute the instances a rebuild creates from the current configuration
/// and the monitors enumerated now.
#[verifier::loop_isolation(false)]
pub fn plan_bars(config: &YasbConfig, monitors: &Vec<Monitor>) -> (plan: Vec<BarInstancePlan>)
    requires
        plan_inputs_ok(config.bars@, monitors@),
    ensures
        plan_models(plan@) == spec_plan(config.bars@, monitors@),
{
    let mut plan: Vec<BarInstancePlan> = Vec::new();
    let mut j: usize = 0;
    while j < config.bars.len()
        invariant
            j <= config.bars@.len(),
            plan_models(plan@) == spec_plan(config.bars@.take(j as int), monitors@),
        decreases config.bars@.len() - j,
    {
        let bar = &config.bars[j];
        let label = validate_bar_label(bar.label.as_str());
        let ghost plan_before = plan@;
        let mut i: usize = 0;
        while i < monitors.len()
            invariant
                i <= monitors@.len(),
                j < config.bars@.len(),
                bar == config.bars@[j as int],
                label@ == spec_validated_label(bar.label@),
                plan_models(plan@) == plan_models(plan_before) + spec_plan_one(
                    *bar,
                    j as int,
                    monitors@.take(i as int),
                ),
            decreases monitors@.len() - i,
        {
            let m = &monitors[i];
            let is_match = match &bar.config.screens {
                Option::None => true,
                Option::Some(names) => names.len() == 0 || contains_str(names, m.name.as_str()),
            };
            proof {
                assert(is_match == spec_matches(bar.config, *m));
                assert(monitors@.take(i + 1).drop_last() =~= monitors@.take(i as int));
                assert(monitors@.take(i + 1).last() == monitors@[i as int]);
            }
            if is_match {
                let rect = edge_rectangle(m, bar.config.edge, bar.config.thickness);
                let item = BarInstancePlan {
                    definition_label: label.clone(),
                    monitor_name: m.name.clone(),
                    bar_index: j,
                    monitor_index: i,
                    rect,
                    reserve: bar.config.win_app_bar,
                };
                proof {
                    assert(plan_models(plan@.push(item)) =~= plan_models(plan@).push(
                        plan_model(item),
                    ));
                    assert(plan_model(item) == spec_plan_item(*bar, j as int, *m, i as int));
                }
                plan.push(item);
                proof {
                    assert(plan_models(plan@) =~= plan_models(plan_before) + spec_plan_one(
                        *bar,
                        j as int,
                        monitors@.take(i + 1),
                    ));
                }
            }
            i = i + 1;
        }
        proof {
            assert(monitors@.take(monitors@.len() as int) =~= monitors@);
            assert(config.bars@.take(j + 1).drop_last() =~= config.bars@.take(j as int));
            assert(config.bars@.take(j + 1).last() == config.bars@[j as int]);
        }
        j = j + 1;
    }
    proof {
        assert(config.bars@.take(config.bars@.len() as int) =~= config.bars@);
    }
    plan
}

/// How many entries of the plan pair definition `j` with monitor `i`.
pub open spec fn count_pair(plan: Seq<PlanModel>, j: int, i: int) -> int
    decreases plan.len(),
{
    if plan.len() == 0 {
        0
    } else {
        count_pair(plan.drop_last(), j, i) + if plan.last().bar_index == j
            && plan.last().monitor_index == i {
            1int
        } else {
            0int
        }
    }
}

proof fn lemma_count_pair_singleton(item: PlanModel, j: int, i: int)
    ensures
        count_pair(seq![item], j, i) == if item.bar_index == j && item.monitor_index == i {
            1int
        } else {
            0int
        },
{
    let s = seq![item];
    assert(s.len() == 1);
    assert(s.last() == item);
    assert(s.drop_last() =~= Seq::<PlanModel>::empty());
    assert(count_pair(Seq::<PlanModel>::empty(), j, i) == 0);
}

proof fn lemma_count_pair_concat(a: Seq<PlanModel>, b: Seq<PlanModel>, j: int, i: int)
    ensures
        count_pair(a + b, j, i) == count_pair(a, j, i) + count_pair(b, j, i),
    decreases b.len(),
{
    if b.len() == 0 {
        assert(a + b =~= a);
    } else {
        lemma_count_pair_concat(a, b.drop_last(), j, i);
        assert((a + b).drop_last() =~= a + b.drop_last());
        assert((a + b).last() == b.last());
    }
}

proof fn lemma_count_pair_plan_one(bar: BarEntry, j: int, monitors: Seq<Monitor>, i: int)
    requires
        0 <= i < monitors.len(),
    ensures
        count_pair(spec_plan_one(bar, j, monitors), j, i) == if spec_matches(
            bar.config,
            monitors[i],
        ) {
            1int
        } else {
            0int
        },
    decreases monitors.len(),
{
    let whole = spec_plan_one(bar, j, monitors);
    let init = spec_plan_one(bar, j, monitors.drop_last());
    if i == monitors.len() - 1 {
        // No instance for the last monitor sits in the prefix.
        assert(count_pair(init, j, i) == 0) by {
            lemma_count_pair_out_of_range(bar, j, monitors.drop_last(), i);
        }
        if spec_matches(bar.config, monitors.last()) {
            let item = spec_plan_item(bar, j, monitors.last(), i);
            assert(whole == init + seq![item]);
            lemma_count_pair_concat(init, seq![item], j, i);
            lemma_count_pair_singleton(item, j, i);
        }
    } else {
        lemma_count_pair_plan_one(bar, j, monitors.drop_last(), i);
        assert(monitors.drop_last()[i] == monitors[i]);
        if spec_matches(bar.config, monitors.last()) {
            let item = spec_plan_item(bar, j, monitors.last(), monitors.len() - 1);
            lemma_count_pair_concat(init, seq![item], j, i);
            lemma_count_pair_singleton(item, j, i);
        }
    }
}

proof fn lemma_count_pair_out_of_range(bar: BarEntry, j: int, monitors: Seq<Monitor>, i: int)
    requires
        i >= monitors.len() || i < 0,
    ensures
        count_pair(spec_plan_one(bar, j, monitors), j, i) == 0,
    decreases monitors.len(),
{
    if monitors.len() > 0 {
        lemma_count_pair_out_of_range(bar, j, monitors.drop_last(), i);
        let init = spec_plan_one(bar, j, monitors.drop_last());
        if spec_matches(bar.config, monitors.last()) {
            let item = spec_plan_item(bar, j, monitors.last(), monitors.len() - 1);
            lemma_count_pair_concat(init, seq![item], j, i);
            lemma_count_pair_singleton(item, j, i);
        }
    }
}

proof fn lemma_count_pair_other_bar(bars: Seq<BarEntry>, monitors: Seq<Monitor>, j: int, i: int)
    requires
        j >= bars.len() || j < 0,
    ensures
        count_pair(spec_plan(bars, monitors), j, i) == 0,
    decreases bars.len(),
{
    if bars.len() > 0 {
        lemma_count_pair_other_bar(bars.drop_last(), monitors, j, i);
        let one = spec_plan_one(bars.last(), bars.len() - 1, monitors);
        lemma_count_pair_concat(spec_plan(bars.drop_last(), monitors), one, j, i);
        assert(count_pair(one, j, i) == 0) by {
            lemma_count_pair_zero_when_bar_differs(bars.last(), bars.len() - 1, monitors, j, i);
        }
    }
}

proof fn lemma_count_pair_zero_when_bar_differs(
    bar: BarEntry,
    actual_j: int,
    monitors: Seq<Monitor>,
    j: int,
    i: int,
)
    requires
        actual_j != j,
    ensures
        count_pair(spec_plan_one(bar, actual_j, monitors), j, i) == 0,
    decreases monitors.len(),
{
    if monitors.len() > 0 {
        lemma_count_pair_zero_when_bar_differs(bar, actual_j, monitors.drop_last(), j, i);
        let init = spec_plan_one(bar, actual_j, monitors.drop_last());
        if spec_matches(bar.config, monitors.last()) {
            let item = spec_plan_item(bar, actual_j, monitors.last(), monitors.len() - 1);
            lemma_count_pair_concat(init, seq![item], j, i);
            lemma_count_pair_singleton(item, j, i);
        }
    }
}

proof fn lemma_count_pair_full_plan(bars: Seq<BarEntry>, monitors: Seq<Monitor>, j: int, i: int)
    requires
        0 <= j < bars.len(),
        0 <= i < monitors.len(),
    ensures
        count_pair(spec_plan(bars, monitors), j, i) == if spec_matches(
            bars[j].config,
            monitors[i],
        ) {
            1int
        } else {
            0int
        },
    decreases bars.len(),
{
    let whole = spec_plan(bars, monitors);
    let init = spec_plan(bars.drop_last(), monitors);
    let one = spec_plan_one(bars.last(), bars.len() - 1, monitors);
    lemma_count_pair_concat(init, one, j, i);
    if j == bars.len() - 1 {
        lemma_count_pair_other_bar(bars.drop_last(), monitors, j, i);
        lemma_count_pair_plan_one(bars.last(), j, monitors, i);
    } else {
        lemma_count_pair_full_plan(bars.drop_last(), monitors, j, i);
        assert(bars.drop_last()[j] == bars[j]);
        lemma_count_pair_zero_when_bar_differs(bars.last(), bars.len() - 1, monitors, j, i);
    }
}

/// Law: a definition with a non-empty target-monitor list gets exactly one
/// planned instance for each monitor whose name the list holds, and none for
/// any monitor it does not name.
pub proof fn lemma_plan_matches_targeted_monitors(
    bars: Seq<BarEntry>,
    monitors: Seq<Monitor>,
    j: int,
    i: int,
)
    requires
        0 <= j < bars.len(),
        0 <= i < monitors.len(),
        bars[j].config.screens is Some,
        bars[j].config.screens->0@.len() > 0,
    ensures
        count_pair(spec_plan(bars, monitors), j, i) == if spec_contains_str(
            bars[j].config.screens->0@,
            monitors[i].name@,
        ) {
            1int
        } else {
            0int
        },
{
    lemma_count_pair_full_plan(bars, monitors, j, i);
}

/// Law: a definition with an absent or empty target-monitor list gets
/// exactly one planned instance per enumerated monitor.
pub proof fn lemma_plan_covers_all_monitors(
    bars: Seq<BarEntry>,
    monitors: Seq<Monitor>,
    j: int,
    i: int,
)
    requires
        0 <= j < bars.len(),
        0 <= i < monitors.len(),
        bars[j].config.screens is None || bars[j].config.screens->0@.len() == 0,
    ensures
        count_pair(spec_plan(bars, monitors), j, i) == 1,
{
    lemma_count_pair_full_plan(bars, monitors, j, i);
}

/// Relies on uuid's `new_v4` and its simple format: a fresh random
/// identifier rendered as 32 lowercase hexadecimal digits. The value is
/// random, so nothing more is claimed of it.
#[verifier::external_body]
fn uuid_simple() -> (r: String)
    ensures
        r@.len() == 32,
{
    uuid::Uuid::new_v4().as_simple().to_string()
}

/// A window label unique to one created instance: the definition's label,
/// an underscore, and a sixteen-digit random suffix.
pub fn instance_window_label(definition_label: &str) -> (r: String)
    ensures
        r@.len() == definition_label@.len() + 17,
        r@.take(definition_label@.len() as int) == definition_label@,
        r@[definition_label@.len() as int] == '_',
{
    proof {
        reveal_strlit("_");
        assert("_"@.len() == 1);
    }
    let u = uuid_simple();
    let suffix = u.as_str().substring_char(0, 16);
    let r = definition_label.to_owned().concat("_").concat(suffix);
    proof {
        assert(r@.take(definition_label@.len() as int) =~= definition_label@);
        assert("_"@[0] == '_');
    }
    r
}

/// One live bar window, bound to exactly one (definition, monitor) pair,
/// holding a reservation handle when `reserved` is set.
#[derive(Debug, Clone)]
pub struct BarInstance {
    pub definition_label: String,
    pub monitor_name: String,
    pub rect: Rect,
    pub reserved: bool,
}

/// Ghost description of one live instance.
pub struct InstanceModel {
    pub label: Seq<char>,
    pub monitor_name: Seq<char>,
    pub rect: Rect,
    pub reserved: bool,
}

pub open spec fn instance_model(b: BarInstance) -> InstanceModel {
    InstanceModel {
        label: b.definition_label@,
        monitor_name: b.monitor_name@,
        rect: b.rect,
        reserved: b.reserved,
    }
}

pub open spec fn instance_models(s: Seq<BarInstance>) -> Seq<InstanceModel> {
    s.map_values(|b: BarInstance| instance_model(b))
}

/// How many live instances hold a reservation handle.
pub open spec fn reserved_count(s: Seq<InstanceModel>) -> int
    decreases s.len(),
{
    if s.len() == 0 {
        0
    } else {
        reserved_count(s.drop_last()) + if s.last().reserved {
            1int
        } else {
            0int
        }
    }
}

pub proof fn lemma_reserved_count_bounds(s: Seq<InstanceModel>)
    ensures
        0 <= reserved_count(s) <= s.len(),
    decreases s.len(),
{
    if s.len() > 0 {
        lemma_reserved_count_bounds(s.drop_last());
    }
}

/// Ghost description of the whole controller state.
pub struct ManagerModel {
    pub instances: Seq<InstanceModel>,
    pub commands_enabled: bool,
    pub total_reserved: int,
    pub total_released: int,
}

/// The set of live bar windows, the running reserve/release totals, and the
/// hide-all / show-all command surface flag.
#[derive(Debug)]
pub struct BarManager {
    pub instances: Vec<BarInstance>,
    pub commands_enabled: bool,
    pub total_reserved: u64,
    pub total_released: u64,
}

pub open spec fn manager_model(m: BarManager) -> ManagerModel {
    ManagerModel {
        instances: instance_models(m.instances@),
        commands_enabled: m.commands_enabled,
        total_reserved: m.total_reserved as int,
        total_released: m.total_released as int,
    }
}

/// Reservation bookkeeping balances: every handle ever taken was either
/// released or is held by a live instance.
pub open spec fn manager_wf(mm: ManagerModel) -> bool {
    mm.total_released + reserved_count(mm.instances) == mm.total_reserved
}

pub open spec fn spec_initial_manager() -> ManagerModel {
    ManagerModel {
        instances: Seq::empty(),
        commands_enabled: true,
        total_reserved: 0,
        total_released: 0,
    }
}

/// Tear-down: the command surface is disabled, every held reservation handle
/// is released, and every window is closed.
pub open spec fn spec_teardown(mm: ManagerModel) -> ManagerModel {
    ManagerModel {
        instances: Seq::empty(),
        commands_enabled: false,
        total_reserved: mm.total_reserved,
        total_released: mm.total_released + reserved_count(mm.instances),
    }
}

/// The instance set a commit installs: one instance per plan entry, holding
/// a reservation handle exactly when the entry asked for one and the OS
/// granted it.
pub open spec fn commit_instances(ps: Seq<PlanModel>, granted: Seq<bool>) -> Seq<InstanceModel> {
    Seq::new(
        ps.len(),
        |k: int|
            InstanceModel {
                label: ps[k].label,
                monitor_name: ps[k].monitor_name,
                rect: ps[k].rect,
                reserved: ps[k].reserve && granted[k],
            },
    )
}

/// Commit: the planned instances become the live set and the command surface
/// comes back.
pub open spec fn spec_commit(mm: ManagerModel, ps: Seq<PlanModel>, granted: Seq<bool>) -> ManagerModel {
    ManagerModel {
        instances: commit_instances(ps, granted),
        commands_enabled: true,
        total_reserved: mm.total_reserved + reserved_count(commit_instances(ps, granted)),
        total_released: mm.total_released,
    }
}

/// A whole rebuild: full tear-down strictly before any creation.
pub open spec fn spec_rebuild(mm: ManagerModel, ps: Seq<PlanModel>, granted: Seq<bool>) -> ManagerModel {
    spec_commit(spec_teardown(mm), ps, granted)
}

impl BarManager {
    /// An empty controller: no windows, no handles, commands available.
    pub fn new() -> (r: BarManager)
        ensures
            manager_model(r) == spec_initial_manager(),
            manager_wf(manager_model(r)),
    {
        let r = BarManager {
            instances: Vec::new(),
            commands_enabled: true,
            total_reserved: 0,
            total_released: 0,
        };
        proof {
            assert(instance_models(r.instances@) =~= Seq::<InstanceModel>::empty());
        }
        r
    }

    /// Start a rebuild: disable the hide-all / show-all command surface,
    /// release every held reservation handle, and close every window.
    #[verifier::loop_isolation(false)]
    pub fn begin_rebuild(&mut self)
        requires
            manager_wf(manager_model(*old(self))),
        ensures
            manager_model(*final(self)) == spec_teardown(manager_model(*old(self))),
            manager_wf(manager_model(*final(self))),
    {
        self.commands_enabled = false;
        let ghost orig = instance_models(old(self).instances@);
        proof {
            lemma_reserved_count_bounds(orig);
        }
        let mut i: usize = 0;
        while i < self.instances.len()
            invariant
                i <= self.instances@.len(),
                self.instances@ == old(self).instances@,
                self.commands_enabled == false,
                self.total_reserved == old(self).total_reserved,
                self.total_released == old(self).total_released + reserved_count(
                    orig.take(i as int),
                ),
            decreases self.instances@.len() - i,
        {
            proof {
                lemma_reserved_count_bounds(orig.take(i as int));
                assert(orig.take(i + 1).drop_last() =~= orig.take(i as int));
                assert(orig.take(i + 1).last() == orig[i as int]);
                lemma_reserved_count_bounds(orig);
                lemma_reserved_count_take_bound(orig, i + 1);
            }
            if self.instances[i].reserved {
                self.total_released = self.total_released + 1;
            }
            i = i + 1;
        }
        proof {
            assert(orig.take(orig.len() as int) =~= orig);
        }
        self.instances = Vec::new();
        proof {
            assert(instance_models(Seq::<BarInstance>::empty()) =~= Seq::<InstanceModel>::empty());
        }
    }

    /// Finish a rebuild: install one window per plan entry and re-enable the
    /// command surface. The caller reports in `granted` which reservation
    /// registrations the OS accepted; a refused registration leaves that bar
    /// unreserved rather than failing the rebuild.
    #[verifier::loop_isolation(false)]
    pub fn commit_rebuild(&mut self, plan: &Vec<BarInstancePlan>, granted: &Vec<bool>)
        requires
            manager_wf(manager_model(*old(self))),
            old(self).instances@.len() == 0,
            granted@.len() == plan@.len(),
            old(self).total_reserved + plan@.len() <= u64::MAX,
        ensures
            manager_model(*final(self)) == spec_commit(
                manager_model(*old(self)),
                plan_models(plan@),
                granted@,
            ),
            manager_wf(manager_model(*final(self))),
    {
        let ghost target = commit_instances(plan_models(plan@), granted@);
        let mut k: usize = 0;
        while k < plan.len()
            invariant
                k <= plan@.len(),
                self.instances@.len() == k,
                instance_models(self.instances@) == target.take(k as int),
                self.total_released == old(self).total_released,
                self.commands_enabled == old(self).commands_enabled,
                self.total_reserved == old(self).total_reserved + reserved_count(
                    target.take(k as int),
                ),
            decreases plan@.len() - k,
        {
            let entry = &plan[k];
            let reserved = entry.reserve && granted[k];
            let instance = BarInstance {
                definition_label: entry.definition_label.clone(),
                monitor_name: entry.monitor_name.clone(),
                rect: entry.rect,
                reserved,
            };
            proof {
                lemma_reserved_count_bounds(target.take(k as int));
                assert(target.take(k + 1).drop_last() =~= target.take(k as int));
                assert(target.take(k + 1).last() == target[k as int]);
                assert(instance_model(instance) == target[k as int]);
                assert(instance_models(self.instances@.push(instance)) =~= instance_models(
                    self.instances@,
                ).push(instance_model(instance)));
                assert(target.take(k as int).push(target[k as int]) =~= target.take(k + 1));
            }
            if reserved {
                self.total_reserved = self.total_reserved + 1;
            }
            self.instances.push(instance);
            k = k + 1;
        }
        proof {
            assert(target.take(target.len() as int) =~= target);
        }
        self.commands_enabled = true;
    }
}

proof fn lemma_reserved_count_take_bound(s: Seq<InstanceModel>, n: int)
    requires
        0 <= n <= s.len(),
    ensures
        reserved_count(s.take(n)) <= reserved_count(s),
    decreases s.len() - n,
{
    if n < s.len() {
        lemma_reserved_count_take_bound(s, n + 1);
        assert(s.take(n + 1).drop_last() =~= s.take(n));
        lemma_reserved_count_bounds(s.take(n));
    } else {
        assert(s.take(n) =~= s);
    }
}

/// The (definition label, monitor name) pairs of an instance set: the
/// identity by which rebuild results are compared.
pub open spec fn instance_pairs(s: Seq<InstanceModel>) -> Seq<(Seq<char>, Seq<char>)> {
    s.map_values(|im: InstanceModel| (im.label, im.monitor_name))
}

pub proof fn lemma_rebuild_preserves_wf(mm: ManagerModel, ps: Seq<PlanModel>, granted: Seq<bool>)
    requires
        manager_wf(mm),
    ensures
        manager_wf(spec_rebuild(mm, ps, granted)),
{
}

/// Law: rebuilding twice in succession with the same plan yields a live
/// instance set equal, by (definition label, monitor name) pairs, to the
/// first rebuild's result; the second rebuild releases exactly as many
/// reservation handles as the first took; and the reserve/release totals
/// still balance against the live set, so no handle leaks.
pub proof fn lemma_rebuild_idempotent(
    mm: ManagerModel,
    ps: Seq<PlanModel>,
    g1: Seq<bool>,
    g2: Seq<bool>,
)
    requires
        manager_wf(mm),
        g1.len() == ps.len(),
        g2.len() == ps.len(),
    ensures
        ({
            let m1 = spec_rebuild(mm, ps, g1);
            let m2 = spec_rebuild(m1, ps, g2);
            &&& instance_pairs(m2.instances) == instance_pairs(m1.instances)
            &&& m2.total_released - m1.total_released == m1.total_reserved - mm.total_reserved
            &&& manager_wf(m2)
        }),
{
    let m1 = spec_rebuild(mm, ps, g1);
    let m2 = spec_rebuild(m1, ps, g2);
    assert(instance_pairs(m2.instances) =~= instance_pairs(m1.instances));
    lemma_rebuild_preserves_wf(mm, ps, g1);
    lemma_rebuild_preserves_wf(m1, ps, g2);
}

} // verus!
