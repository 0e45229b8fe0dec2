//! Power plans, the plans that come with Windows, and the FPSHEAVEN plans.
use vstd::prelude::*;

use crate::text;

verus! {

/// A power plan as Windows lists it.
#[derive(Debug)]
pub struct PowerPlan {
    /// The plan's GUID.
    pub guid: String,
    /// The plan's name.
    pub name: String,
    /// The plan's description; empty where none is known.
    pub description: String,
    /// Whether the plan is the one in force.
    pub active: bool,
}

/// The contents of a [`PowerPlan`].
pub struct PlanView {
    /// The plan's GUID.
    pub guid: Seq<char>,
    /// The plan's name.
    pub name: Seq<char>,
    /// The plan's description.
    pub description: Seq<char>,
    /// Whether the plan is the one in force.
    pub active: bool,
}

impl View for PowerPlan {
    type V = PlanView;

    open spec fn view(&self) -> PlanView {
        PlanView {
            guid: self.guid@,
            name: self.name@,
            description: self.description@,
            active: self.active,
        }
    }
}

impl Clone for PowerPlan {
    fn clone(&self) -> (r: Self)
        ensures
            r@ == self@,
    {
        PowerPlan {
            guid: self.guid.clone(),
            name: self.name.clone(),
            description: self.description.clone(),
            active: self.active,
        }
    }
}

/// The contents of some plans.
pub open spec fn plan_views(plans: Seq<PowerPlan>) -> Seq<PlanView> {
    Seq::new(plans.len(), |i: int| plans[i]@)
}

/// The view of a text that may be missing.
pub open spec fn option_view(maybe: Option<String>) -> Option<Seq<char>> {
    match maybe {
        Some(known) => Some(known@),
        None => None,
    }
}

/// A copy of some plans.
pub fn clone_plans(plans: &Vec<PowerPlan>) -> (r: Vec<PowerPlan>)
    ensures
        plan_views(r@) == plan_views(plans@),
{
    let mut r: Vec<PowerPlan> = Vec::new();
    let mut i: usize = 0;
    while i < plans.len()
        invariant
            i <= plans.len(),
            r.len() == i,
            forall|k: int| 0 <= k < i ==> (#[trigger] r[k])@ == plans[k]@,
        decreases plans.len() - i,
    {
        r.push(plans[i].clone());
        i = i + 1;
    }
    assert(plan_views(r@) =~= plan_views(plans@));
    r
}

/// A power plan that comes with Windows.
#[derive(Clone, Copy, Debug)]
pub struct DefaultPowerPlan {
    /// The plan's GUID.
    pub guid: &'static str,
    /// The plan's name.
    pub name: &'static str,
    /// The plan's description.
    pub description: &'static str,
    /// Whether the restoration of the default schemes brings this plan back.
    pub restored_by_defaultschemes: bool,
}

/// The contents of a [`DefaultPowerPlan`].
pub struct DefaultView {
    /// The plan's GUID.
    pub guid: Seq<char>,
    /// The plan's name.
    pub name: Seq<char>,
    /// The plan's description.
    pub description: Seq<char>,
    /// Whether the restoration of the default schemes brings this plan back.
    pub restored_by_defaultschemes: bool,
}

impl View for DefaultPowerPlan {
    type V = DefaultView;

    open spec fn view(&self) -> DefaultView {
        DefaultView {
            guid: self.guid@,
            name: self.name@,
            description: self.description@,
            restored_by_defaultschemes: self.restored_by_defaultschemes,
        }
    }
}

/// The contents of some default plans.
pub open spec fn default_views(defaults: Seq<DefaultPowerPlan>) -> Seq<DefaultView> {
    Seq::new(defaults.len(), |i: int| defaults[i]@)
}

/// The plans that come with Windows.
pub open spec fn default_plans() -> Seq<DefaultView> {
    seq![
        DefaultView {
            guid: "381b4222-f694-41f0-9685-ff5bb260df2e"@,
            name: "Balanced"@,
            description:
                "Automatically balances performance with energy consumption on capable hardware."@,
            restored_by_defaultschemes: true,
        },
        DefaultView {
            guid: "8c5e7fda-e8bf-4a96-9a85-a6e23a8c635c"@,
            name: "High performance"@,
            description: "Favors performance, but may use more energy."@,
            restored_by_defaultschemes: true,
        },
        DefaultView {
            guid: "a1841308-3541-4fab-bc81-f71556f20b4a"@,
            name: "Power saver"@,
            description: "Saves energy by reducing your computer's performance where possible."@,
            restored_by_defaultschemes: true,
        },
        DefaultView {
            guid: "e9a42b02-d5df-448d-aa00-03f14749eb61"@,
            name: "Ultimate Performance"@,
            description: "Provides ultimate performance on higher end PCs."@,
            restored_by_defaultschemes: false,
        },
    ]
}

/// The plans that come with Windows, as a list.
pub fn default_power_plans() -> (r: Vec<DefaultPowerPlan>)
    ensures
        default_views(r@) == default_plans(),
{
    let r = vec![
        DefaultPowerPlan {
            guid: "381b4222-f694-41f0-9685-ff5bb260df2e",
            name: "Balanced",
            description:
                "Automatically balances performance with energy consumption on capable hardware.",
            restored_by_defaultschemes: true,
        },
        DefaultPowerPlan {
            guid: "8c5e7fda-e8bf-4a96-9a85-a6e23a8c635c",
            name: "High performance",
            description: "Favors performance, but may use more energy.",
            restored_by_defaultschemes: true,
        },
        DefaultPowerPlan {
            guid: "a1841308-3541-4fab-bc81-f71556f20b4a",
            name: "Power saver",
            description: "Saves energy by reducing your computer's performance where possible.",
            restored_by_defaultschemes: true,
        },
        DefaultPowerPlan {
            guid: "e9a42b02-d5df-448d-aa00-03f14749eb61",
            name: "Ultimate Performance",
            description: "Provides ultimate performance on higher end PCs.",
            restored_by_defaultschemes: false,
        },
    ];
    assert(default_views(r@) =~= default_plans());
    r
}

/// `plan` is the given default plan: by its GUID, and for a default plan that the restoration of
/// the default schemes does not bring back also by its name, both in either case.
pub open spec fn stands_for(plan: PlanView, default_plan: DefaultView) -> bool {
    ||| text::same_ignoring_case(plan.guid, default_plan.guid)
    ||| !default_plan.restored_by_defaultschemes && text::same_ignoring_case(
        plan.name,
        default_plan.name,
    )
}

/// One of `plans` is the given default plan.
pub open spec fn has_default(plans: Seq<PlanView>, default_plan: DefaultView) -> bool {
    exists|i: int| 0 <= i < plans.len() && stands_for(#[trigger] plans[i], default_plan)
}

/// `plan` is one of the default plans.
pub open spec fn is_default(plan: PlanView) -> bool {
    exists|i: int|
        0 <= i < default_plans().len() && stands_for(plan, #[trigger] default_plans()[i])
}

/// The default plans that are not among `plans`, in their own order.
pub open spec fn missing_defaults(plans: Seq<PlanView>) -> Seq<DefaultView> {
    default_plans().filter(|default_plan: DefaultView| !has_default(plans, default_plan))
}

/// The plans of the user: those that are not default plans, in their own order.
pub open spec fn custom_plans(plans: Seq<PlanView>) -> Seq<PlanView> {
    plans.filter(|plan: PlanView| !is_default(plan))
}

/// The first place in `items` whose item meets `test`.
pub open spec fn first_where<A>(items: Seq<A>, test: spec_fn(A) -> bool) -> Option<int>
    decreases items.len(),
{
    if items.len() == 0 {
        None
    } else if test(items[0]) {
        Some(0)
    } else {
        match first_where(items.drop_first(), test) {
            Some(at) => Some(at + 1),
            None => None,
        }
    }
}

/// The first place whose item meets a test is the one that meets it with none before that does.
pub proof fn lemma_first_where<A>(items: Seq<A>, test: spec_fn(A) -> bool)
    ensures
        match first_where(items, test) {
            Some(at) => 0 <= at < items.len() && test(items[at]) && forall|k: int|
                0 <= k < at ==> !test(#[trigger] items[k]),
            None => forall|k: int| 0 <= k < items.len() ==> !test(#[trigger] items[k]),
        },
    decreases items.len(),
{
    if items.len() > 0 {
        let rest = items.drop_first();
        lemma_first_where(rest, test);
        assert forall|k: int| 0 < k < items.len() implies #[trigger] items[k] == rest[k - 1] by {}
    }
}

/// Whether `plan` is the given default plan.
pub fn is_that_default(plan: &PowerPlan, default_plan: &DefaultPowerPlan) -> (r: bool)
    ensures
        r == stands_for(plan@, default_plan@),
{
    text::equals_ignoring_case(plan.guid.as_str(), default_plan.guid) || (
    !default_plan.restored_by_defaultschemes && text::equals_ignoring_case(
        plan.name.as_str(),
        default_plan.name,
    ))
}

/// Whether one of `plans` is the given default plan.
pub fn has_default_power_plan(plans: &[PowerPlan], default_plan: &DefaultPowerPlan) -> (r: bool)
    ensures
        r == has_default(plan_views(plans@), default_plan@),
{
    let mut i: usize = 0;
    while i < plans.len()
        invariant
            i <= plans.len(),
            forall|k: int| 0 <= k < i ==> !stands_for(#[trigger] plans[k]@, default_plan@),
        decreases plans.len() - i,
    {
        if is_that_default(&plans[i], default_plan) {
            assert(stands_for(plan_views(plans@)[i as int], default_plan@));
            return true;
        }
        i = i + 1;
    }
    assert forall|k: int| 0 <= k < plans.len() implies !stands_for(
        #[trigger] plan_views(plans@)[k],
        default_plan@,
    ) by {
        assert(!stands_for(plans[k]@, default_plan@));
    }
    false
}

/// Whether `plan` is one of the plans that come with Windows.
pub fn is_default_windows_plan(plan: &PowerPlan) -> (r: bool)
    ensures
        r == is_default(plan@),
{
    let defaults = default_power_plans();
    let mut i: usize = 0;
    while i < defaults.len()
        invariant
            i <= defaults.len(),
            default_views(defaults@) == default_plans(),
            forall|k: int| 0 <= k < i ==> !stands_for(plan@, #[trigger] default_plans()[k]),
        decreases defaults.len() - i,
    {
        assert(default_plans()[i as int] == defaults[i as int]@);
        if is_that_default(plan, &defaults[i]) {
            return true;
        }
        i = i + 1;
    }
    assert(default_plans().len() == defaults.len());
    false
}

/// The default plans that are not among `plans`.
pub fn missing_default_power_plans(plans: &[PowerPlan]) -> (r: Vec<DefaultPowerPlan>)
    ensures
        default_views(r@) == missing_defaults(plan_views(plans@)),
{
    let defaults = default_power_plans();
    let mut r: Vec<DefaultPowerPlan> = Vec::new();
    let mut i: usize = 0;
    let ghost wanted = |default_plan: DefaultView| !has_default(plan_views(plans@), default_plan);
    while i < defaults.len()
        invariant
            i <= defaults.len(),
            default_views(defaults@) == default_plans(),
            wanted == (|default_plan: DefaultView| !has_default(plan_views(plans@), default_plan)),
            default_views(r@) == default_plans().take(i as int).filter(wanted),
        decreases defaults.len() - i,
    {
        let ghost before = r@;
        let missing = !has_default_power_plan(plans, &defaults[i]);
        if missing {
            r.push(defaults[i]);
            assert(default_views(r@) =~= default_views(before).push(defaults[i as int]@));
        }
        i = i + 1;
        proof {
            let taken = default_plans().take(i as int);
            assert(taken.drop_last() == default_plans().take(i - 1));
            assert(taken.last() == defaults[i - 1]@);
            reveal_with_fuel(Seq::filter, 1);
        }
    }
    assert(default_plans().take(i as int) == default_plans());
    r
}

/// The kinds of processor for which FPSHEAVEN offers a plan.
#[derive(Clone, Copy, PartialEq, Eq, Structural, Debug)]
pub enum FpsheavenPowerPlanKind {
    /// For INTEL processors.
    Intel,
    /// For AMD processors.
    Amd,
}

impl FpsheavenPowerPlanKind {
    /// The name shown to the user.
    pub open spec fn label_text(self) -> Seq<char> {
        match self {
            FpsheavenPowerPlanKind::Intel => "INTEL"@,
            FpsheavenPowerPlanKind::Amd => "AMD"@,
        }
    }

    /// The name of the plan's file.
    pub open spec fn file_name_text(self) -> Seq<char> {
        match self {
            FpsheavenPowerPlanKind::Intel => "fpsheaven2026_intel.pow"@,
            FpsheavenPowerPlanKind::Amd => "fpsheaven2026_amd.pow"@,
        }
    }

    /// What the name of a file for this kind holds.
    pub open spec fn file_needle_text(self) -> Seq<char> {
        match self {
            FpsheavenPowerPlanKind::Intel => "intel"@,
            FpsheavenPowerPlanKind::Amd => "amd"@,
        }
    }

    /// The name shown to the user.
    pub fn label(self) -> (r: &'static str)
        ensures
            r@ == self.label_text(),
    {
        match self {
            FpsheavenPowerPlanKind::Intel => "INTEL",
            FpsheavenPowerPlanKind::Amd => "AMD",
        }
    }

    /// The name of the plan's file.
    pub fn file_name(self) -> (r: &'static str)
        ensures
            r@ == self.file_name_text(),
    {
        match self {
            FpsheavenPowerPlanKind::Intel => "fpsheaven2026_intel.pow",
            FpsheavenPowerPlanKind::Amd => "fpsheaven2026_amd.pow",
        }
    }

    /// What the name of a file for this kind holds.
    pub fn file_needle(self) -> (r: &'static str)
        ensures
            r@ == self.file_needle_text(),
    {
        match self {
            FpsheavenPowerPlanKind::Intel => "intel",
            FpsheavenPowerPlanKind::Amd => "amd",
        }
    }
}

/// `part` stands somewhere in `whole`, in either case.
pub open spec fn contains_in_any_case(whole: Seq<char>, part: Seq<char>) -> bool {
    text::contains(text::lower(whole), text::lower(part))
}

/// `plan` comes from FPSHEAVEN: its name or its description says so.
pub open spec fn is_fpsheaven(plan: PlanView) -> bool {
    contains_in_any_case(plan.name, "fpsheaven"@) || contains_in_any_case(
        plan.description,
        "fpsheaven"@,
    )
}

/// The plan that is to be in force in place of the plan `active_guid`: the first other plan that
/// does not come from FPSHEAVEN; where there is none, the first other plan.
pub open spec fn replacement(plans: Seq<PlanView>, active_guid: Seq<char>) -> Option<int> {
    match first_where(plans, |plan: PlanView| plan.guid != active_guid && !is_fpsheaven(plan)) {
        Some(at) => Some(at),
        None => first_where(plans, |plan: PlanView| plan.guid != active_guid),
    }
}

/// Whether `needle` stands somewhere in `whole`, in either case.
pub fn contains_ascii_case_insensitive(whole: &str, needle: &str) -> (r: bool)
    ensures
        r == contains_in_any_case(whole@, needle@),
{
    text::has_part(text::lower_of(whole).as_str(), text::lower_of(needle).as_str())
}

/// Whether `plan` comes from FPSHEAVEN.
pub fn is_fpsheaven_power_plan(plan: &PowerPlan) -> (r: bool)
    ensures
        r == is_fpsheaven(plan@),
{
    contains_ascii_case_insensitive(plan.name.as_str(), "fpsheaven")
        || contains_ascii_case_insensitive(plan.description.as_str(), "fpsheaven")
}

/// The plan that is to be in force before the plan `active_guid` is deleted.
pub fn replacement_plan_for_deleting_active<'a>(plans: &'a [PowerPlan], active_guid: &str) -> (r:
    Option<&'a PowerPlan>)
    ensures
        match (r, replacement(plan_views(plans@), active_guid@)) {
            (Some(plan), Some(at)) => 0 <= at < plans.len() && plan@ == plans[at]@,
            (None, None) => true,
            _ => false,
        },
{
    let ghost views = plan_views(plans@);
    let ghost best = |plan: PlanView| plan.guid != active_guid@ && !is_fpsheaven(plan);
    let ghost other = |plan: PlanView| plan.guid != active_guid@;
    proof {
        lemma_first_where(views, best);
        lemma_first_where(views, other);
    }
    let mut i: usize = 0;
    while i < plans.len()
        invariant
            i <= plans.len(),
            views == plan_views(plans@),
            best == (|plan: PlanView| plan.guid != active_guid@ && !is_fpsheaven(plan)),
            forall|k: int| 0 <= k < i ==> !best(#[trigger] views[k]),
        decreases plans.len() - i,
    {
        assert(views[i as int] == plans[i as int]@);
        if !text::same(plans[i].guid.as_str(), active_guid) && !is_fpsheaven_power_plan(
            &plans[i],
        ) {
            assert(best(views[i as int]));
            assert(first_where(views, best) == Some(i as int)) by {
                lemma_first_where(views, best);
            }
            return Some(&plans[i]);
        }
        i = i + 1;
    }
    let mut j: usize = 0;
    while j < plans.len()
        invariant
            j <= plans.len(),
            views == plan_views(plans@),
            best == (|plan: PlanView| plan.guid != active_guid@ && !is_fpsheaven(plan)),
            other == (|plan: PlanView| plan.guid != active_guid@),
            first_where(views, best) is None,
            forall|k: int| 0 <= k < j ==> !other(#[trigger] views[k]),
        decreases plans.len() - j,
    {
        assert(views[j as int] == plans[j as int]@);
        if !text::same(plans[j].guid.as_str(), active_guid) {
            assert(other(views[j as int]));
            assert(first_where(views, other) == Some(j as int)) by {
                lemma_first_where(views, other);
            }
            return Some(&plans[j]);
        }
        j = j + 1;
    }
    None
}

/// The replacement for a plan is one of the plans and another plan. There is one exactly where
/// there is another plan, and it comes from FPSHEAVEN only where all other plans do.
pub proof fn law_replacement_is_another_plan(plans: Seq<PlanView>, active_guid: Seq<char>)
    ensures
        replacement(plans, active_guid) is Some <==> exists|i: int|
            0 <= i < plans.len() && (#[trigger] plans[i]).guid != active_guid,
        replacement(plans, active_guid) matches Some(at) ==> {
            &&& 0 <= at < plans.len()
            &&& plans[at].guid != active_guid
            &&& is_fpsheaven(plans[at]) ==> forall|i: int|
                0 <= i < plans.len() && (#[trigger] plans[i]).guid != active_guid ==> is_fpsheaven(
                    plans[i],
                )
        },
{
    let best = |plan: PlanView| plan.guid != active_guid && !is_fpsheaven(plan);
    let other = |plan: PlanView| plan.guid != active_guid;
    lemma_first_where(plans, best);
    lemma_first_where(plans, other);
    if let Some(at) = first_where(plans, best) {
        assert(best(plans[at]));
    } else {
        assert forall|i: int| 0 <= i < plans.len() && (
        #[trigger] plans[i]).guid != active_guid implies is_fpsheaven(plans[i]) && other(
            plans[i],
        ) by {
            assert(!best(plans[i]));
        }
        if let Some(at) = first_where(plans, other) {
            assert(other(plans[at]));
        }
    }
}

proof fn lemma_defaults_differ()
    ensures
        default_plans().no_duplicates(),
{
    reveal_strlit("Balanced");
    reveal_strlit("High performance");
    reveal_strlit("Power saver");
    reveal_strlit("Ultimate Performance");
    let names = Seq::new(default_plans().len(), |i: int| default_plans()[i].name.len() as int);
    assert(names =~= seq![8int, 16, 11, 20]);
    assert forall|i: int, j: int|
        0 <= i < default_plans().len() && 0 <= j < default_plans().len() && i != j implies
        default_plans()[i] != default_plans()[j] by {
        assert(names[i] != names[j]);
    }
}

proof fn lemma_filter_no_duplicates<A>(items: Seq<A>, test: spec_fn(A) -> bool)
    requires
        items.no_duplicates(),
    ensures
        items.filter(test).no_duplicates(),
    decreases items.len(),
{
    reveal(Seq::filter);
    if items.len() > 0 {
        let front = items.drop_last();
        lemma_filter_no_duplicates(front, test);
        assert forall|i: int| 0 <= i < front.filter(test).len() implies #[trigger] front.filter(
            test,
        )[i] != items.last() by {
            front.lemma_filter_contains_rev(test, front.filter(test)[i]);
            let at = choose|at: int| 0 <= at < front.len() && front[at] == front.filter(test)[i];
            assert(items[at] != items[items.len() - 1]);
        }
    }
}

/// The default plans that are missing are exactly those that none of the plans stands for, each
/// named once. With one plan for each of them nothing is missing.
pub proof fn law_missing_defaults(plans: Seq<PlanView>)
    ensures
        forall|i: int|
            0 <= i < default_plans().len() ==> (missing_defaults(plans).contains(
                #[trigger] default_plans()[i],
            ) <==> !has_default(plans, default_plans()[i])),
        missing_defaults(plans).no_duplicates(),
        missing_defaults(plans).len() <= default_plans().len(),
        missing_defaults(plans).len() == 0 <==> forall|i: int|
            0 <= i < default_plans().len() ==> has_default(plans, #[trigger] default_plans()[i]),
{
    let wanted = |default_plan: DefaultView| !has_default(plans, default_plan);
    let all = default_plans();
    let missing = missing_defaults(plans);
    all.lemma_filter_len(wanted);
    lemma_defaults_differ();
    lemma_filter_no_duplicates(all, wanted);
    assert forall|i: int| 0 <= i < all.len() implies (missing.contains(#[trigger] all[i])
        <==> !has_default(plans, all[i])) by {
        if !has_default(plans, all[i]) {
            all.lemma_filter_contains(wanted, i);
        } else if missing.contains(all[i]) {
            let at = choose|at: int| 0 <= at < missing.len() && missing[at] == all[i];
            all.lemma_filter_pred(wanted, at);
        }
    }
    if missing.len() == 0 {
        assert forall|i: int| 0 <= i < all.len() implies has_default(plans, #[trigger] all[i]) by {
            assert(!missing.contains(all[i]));
        }
    } else {
        all.lemma_filter_pred(wanted, 0);
        all.lemma_filter_contains_rev(wanted, missing[0]);
        let i = choose|i: int| 0 <= i < all.len() && all[i] == missing[0];
        assert(!has_default(plans, all[i]));
    }
}

} // verus!
