//! Which plans are whose, and what is made of their names and descriptions.
use vstd::prelude::*;

use crate::descriptions;
use crate::file_names;
use crate::fpsheaven;
use crate::guid;
use crate::plans;
use crate::plans::{DefaultView, FpsheavenPowerPlanKind, PlanView};
use crate::regexes;
use crate::text;
use crate::text::CharClass;
use crate::text_laws;

verus! {

/// The plans that come with Windows, by GUID, name and description, in their order. All but the last
/// are restored by Windows.
pub proof fn law_plans_of_windows()
    ensures
        plans::default_plans().len() == 4,
        plans::default_plans()[0] == (DefaultView {
            guid: "381b4222-f694-41f0-9685-ff5bb260df2e"@,
            name: "Balanced"@,
            description:
                "Automatically balances performance with energy consumption on capable hardware."@,
            restored_by_defaultschemes: true,
        }),
        plans::default_plans()[1] == (DefaultView {
            guid: "8c5e7fda-e8bf-4a96-9a85-a6e23a8c635c"@,
            name: "High performance"@,
            description: "Favors performance, but may use more energy."@,
            restored_by_defaultschemes: true,
        }),
        plans::default_plans()[2] == (DefaultView {
            guid: "a1841308-3541-4fab-bc81-f71556f20b4a"@,
            name: "Power saver"@,
            description: "Saves energy by reducing your computer's performance where possible."@,
            restored_by_defaultschemes: true,
        }),
        plans::default_plans()[3] == (DefaultView {
            guid: "e9a42b02-d5df-448d-aa00-03f14749eb61"@,
            name: "Ultimate Performance"@,
            description: "Provides ultimate performance on higher end PCs."@,
            restored_by_defaultschemes: false,
        }),
{
}

/// A plan of the user: its GUID is none of the four of Windows, and its name is not that of the
/// ultimate plan, in either case. Its description does not matter.
pub open spec fn is_own(plan: PlanView) -> bool {
    &&& !text::same_ignoring_case(plan.guid, "381b4222-f694-41f0-9685-ff5bb260df2e"@)
    &&& !text::same_ignoring_case(plan.guid, "8c5e7fda-e8bf-4a96-9a85-a6e23a8c635c"@)
    &&& !text::same_ignoring_case(plan.guid, "a1841308-3541-4fab-bc81-f71556f20b4a"@)
    &&& !text::same_ignoring_case(plan.guid, "e9a42b02-d5df-448d-aa00-03f14749eb61"@)
    &&& !text::same_ignoring_case(plan.name, "Ultimate Performance"@)
}

/// A plan is one of Windows exactly where it is not the user's own.
pub proof fn law_default_or_own(plan: PlanView)
    ensures
        plans::is_default(plan) <==> !is_own(plan),
{
    let all = plans::default_plans();
    assert(plans::stands_for(plan, all[0]) <==> text::same_ignoring_case(
        plan.guid,
        "381b4222-f694-41f0-9685-ff5bb260df2e"@,
    ));
    assert(plans::stands_for(plan, all[1]) <==> text::same_ignoring_case(
        plan.guid,
        "8c5e7fda-e8bf-4a96-9a85-a6e23a8c635c"@,
    ));
    assert(plans::stands_for(plan, all[2]) <==> text::same_ignoring_case(
        plan.guid,
        "a1841308-3541-4fab-bc81-f71556f20b4a"@,
    ));
    assert(plans::stands_for(plan, all[3]) <==> text::same_ignoring_case(
        plan.guid,
        "e9a42b02-d5df-448d-aa00-03f14749eb61"@,
    ) || text::same_ignoring_case(plan.name, "Ultimate Performance"@));
}

/// The plans of the user among some plans are all of the user's own plans, in their order, and no
/// others.
pub proof fn law_own_plans(all: Seq<PlanView>, plan: PlanView)
    ensures
        plans::custom_plans(Seq::empty()) == Seq::<PlanView>::empty(),
        is_own(plan) ==> plans::custom_plans(all.push(plan)) == plans::custom_plans(all).push(plan),
        !is_own(plan) ==> plans::custom_plans(all.push(plan)) == plans::custom_plans(all),
        forall|i: int|
            0 <= i < all.len() ==> (plans::custom_plans(all).contains(#[trigger] all[i]) <==> is_own(
                all[i],
            )),
        forall|i: int|
            0 <= i < plans::custom_plans(all).len() ==> is_own(
                #[trigger] plans::custom_plans(all)[i],
            ) && all.contains(plans::custom_plans(all)[i]),
{
    let test = |plan: PlanView| !plans::is_default(plan);
    law_default_or_own(plan);
    assert(plans::custom_plans(Seq::empty()) =~= Seq::empty()) by {
        reveal(Seq::filter);
    }
    assert(plans::custom_plans(all.push(plan)) == if is_own(plan) {
        plans::custom_plans(all).push(plan)
    } else {
        plans::custom_plans(all)
    }) by {
        reveal(Seq::filter);
        assert(all.push(plan).drop_last() =~= all);
        assert(all.push(plan).last() == plan);
    }
    let own = plans::custom_plans(all);
    assert forall|i: int| 0 <= i < own.len() implies is_own(#[trigger] own[i]) && all.contains(
        own[i],
    ) by {
        law_default_or_own(own[i]);
        all.lemma_filter_pred(test, i);
        all.lemma_filter_contains_rev(test, own[i]);
    }
    assert forall|i: int| 0 <= i < all.len() implies (own.contains(#[trigger] all[i]) <==> is_own(
        all[i],
    )) by {
        law_default_or_own(all[i]);
        if is_own(all[i]) {
            all.lemma_filter_contains(test, i);
        }
    }
}

/// None of the plans has the given GUID, in either case.
pub open spec fn lacks_guid(all: Seq<PlanView>, guid: Seq<char>) -> bool {
    forall|i: int| 0 <= i < all.len() ==> !text::same_ignoring_case((#[trigger] all[i]).guid, guid)
}

/// None of the plans has the given name, in either case.
pub open spec fn lacks_name(all: Seq<PlanView>, name: Seq<char>) -> bool {
    forall|i: int| 0 <= i < all.len() ==> !text::same_ignoring_case((#[trigger] all[i]).name, name)
}

/// One item, if it is wanted.
pub open spec fn item_if(wanted: bool, item: DefaultView) -> Seq<DefaultView> {
    if wanted {
        seq![item]
    } else {
        Seq::empty()
    }
}

/// A plan of Windows is missing where no plan has its GUID; the ultimate plan only where no plan has
/// its name either. The missing plans come in the order of the plans of Windows.
pub proof fn law_missing_plans(all: Seq<PlanView>)
    ensures
        plans::missing_defaults(all) == item_if(
            lacks_guid(all, "381b4222-f694-41f0-9685-ff5bb260df2e"@),
            plans::default_plans()[0],
        ) + item_if(
            lacks_guid(all, "8c5e7fda-e8bf-4a96-9a85-a6e23a8c635c"@),
            plans::default_plans()[1],
        ) + item_if(
            lacks_guid(all, "a1841308-3541-4fab-bc81-f71556f20b4a"@),
            plans::default_plans()[2],
        ) + item_if(
            lacks_guid(all, "e9a42b02-d5df-448d-aa00-03f14749eb61"@) && lacks_name(
                all,
                "Ultimate Performance"@,
            ),
            plans::default_plans()[3],
        ),
{
    let d = plans::default_plans();
    let test = |default_plan: DefaultView| !plans::has_default(all, default_plan);
    lemma_lacking(all, d[0]);
    lemma_lacking(all, d[1]);
    lemma_lacking(all, d[2]);
    lemma_lacking(all, d[3]);
    reveal(Seq::filter);
    let d3 = d.drop_last();
    let d2 = d3.drop_last();
    let d1 = d2.drop_last();
    let d0 = d1.drop_last();
    assert(d0.len() == 0);
    assert(d0.filter(test) =~= Seq::empty());
    assert(d1.filter(test) =~= item_if(test(d[0]), d[0]));
    assert(d2.filter(test) =~= item_if(test(d[0]), d[0]) + item_if(test(d[1]), d[1]));
    assert(d3.filter(test) =~= item_if(test(d[0]), d[0]) + item_if(test(d[1]), d[1]) + item_if(
        test(d[2]),
        d[2],
    ));
    assert(d.filter(test) =~= item_if(test(d[0]), d[0]) + item_if(test(d[1]), d[1]) + item_if(
        test(d[2]),
        d[2],
    ) + item_if(test(d[3]), d[3]));
}

proof fn lemma_lacking(all: Seq<PlanView>, item: DefaultView)
    ensures
        !plans::has_default(all, item) <==> lacks_guid(all, item.guid) && (
        item.restored_by_defaultschemes || lacks_name(all, item.name)),
{
    if plans::has_default(all, item) {
        let i = choose|i: int| 0 <= i < all.len() && plans::stands_for(#[trigger] all[i], item);
        assert(text::same_ignoring_case(all[i].guid, item.guid) || text::same_ignoring_case(
            all[i].name,
            item.name,
        ));
    } else {
        assert forall|i: int| 0 <= i < all.len() implies !text::same_ignoring_case(
            (#[trigger] all[i]).guid,
            item.guid,
        ) && (item.restored_by_defaultschemes || !text::same_ignoring_case(
            all[i].name,
            item.name,
        )) by {
            assert(!plans::stands_for(all[i], item));
        }
    }
}

/// A word in small letters stands somewhere in a text, in either case.
pub open spec fn mentions(whole: Seq<char>, word: Seq<char>) -> bool {
    exists|before: Seq<char>, after: Seq<char>|
        text::lower(whole) == #[trigger] (before + word + after)
}

/// A plan comes from FPSHEAVEN exactly where its name or its description mentions it.
pub proof fn law_fpsheaven_plans(plan: PlanView)
    ensures
        plans::is_fpsheaven(plan) <==> mentions(plan.name, "fpsheaven"@) || mentions(
            plan.description,
            "fpsheaven"@,
        ),
{
    reveal_strlit("fpsheaven");
    assert(text::lower("fpsheaven"@) =~= "fpsheaven"@);
    text_laws::law_contains(text::lower(plan.name), "fpsheaven"@);
    text_laws::law_contains(text::lower(plan.description), "fpsheaven"@);
}

/// The replacement for a plan is the first other plan that does not come from FPSHEAVEN; only where
/// there is none, the first other plan; and there is none only where there is no other plan.
pub proof fn law_first_replacement(all: Seq<PlanView>, guid: Seq<char>)
    ensures
        match plans::replacement(all, guid) {
            Some(at) => {
                &&& 0 <= at < all.len()
                &&& all[at].guid != guid
                &&& !plans::is_fpsheaven(all[at]) ==> forall|k: int|
                    0 <= k < at ==> (#[trigger] all[k]).guid == guid || plans::is_fpsheaven(all[k])
                &&& plans::is_fpsheaven(all[at]) ==> (forall|k: int|
                    0 <= k < at ==> (#[trigger] all[k]).guid == guid) && forall|k: int|
                    0 <= k < all.len() ==> (#[trigger] all[k]).guid == guid || plans::is_fpsheaven(
                        all[k],
                    )
            },
            None => forall|k: int| 0 <= k < all.len() ==> (#[trigger] all[k]).guid == guid,
        },
{
    let best = |plan: PlanView| plan.guid != guid && !plans::is_fpsheaven(plan);
    let other = |plan: PlanView| plan.guid != guid;
    plans::lemma_first_where(all, best);
    plans::lemma_first_where(all, other);
    if let Some(at) = plans::first_where(all, best) {
        assert(best(all[at]));
        assert forall|k: int| 0 <= k < at implies (#[trigger] all[k]).guid == guid
            || plans::is_fpsheaven(all[k]) by {
            assert(!best(all[k]));
        }
    } else {
        assert forall|k: int| 0 <= k < all.len() implies (#[trigger] all[k]).guid == guid
            || plans::is_fpsheaven(all[k]) by {
            assert(!best(all[k]));
        }
        if let Some(at) = plans::first_where(all, other) {
            assert(other(all[at]));
            assert forall|k: int| 0 <= k < at implies (#[trigger] all[k]).guid == guid by {
                assert(!other(all[k]));
            }
        } else {
            assert forall|k: int| 0 <= k < all.len() implies (#[trigger] all[k]).guid == guid by {
                assert(!other(all[k]));
            }
        }
    }
}

/// What is replaced is the first plan in force that comes from FPSHEAVEN, by its replacement. Nothing
/// is where there is no such plan; and it is an error where there is no other plan.
pub proof fn law_plan_to_replace(current: Seq<PlanView>)
    ensures
        match fpsheaven::plan_to_replace(current) {
            Ok(Some((old, other))) => exists|i: int, j: int|
                0 <= i < current.len() && 0 <= j < current.len() && old == #[trigger] current[i]
                    && other == (#[trigger] current[j]).guid && old.active && plans::is_fpsheaven(old)
                    && (forall|k: int|
                    0 <= k < i ==> !((#[trigger] current[k]).active && plans::is_fpsheaven(
                        current[k],
                    ))) && plans::replacement(current, old.guid) == Some(j),
            Ok(None) => forall|k: int|
                0 <= k < current.len() ==> !((#[trigger] current[k]).active && plans::is_fpsheaven(
                    current[k],
                )),
            Err(error) => error
                == "The active FPSHEAVEN plan is the only available power plan, so it cannot be deleted"@
                && exists|i: int|
                0 <= i < current.len() && (#[trigger] current[i]).active && plans::is_fpsheaven(
                    current[i],
                ) && forall|k: int|
                    0 <= k < current.len() ==> (#[trigger] current[k]).guid == current[i].guid,
        },
{
    let hit = |plan: PlanView| plan.active && plans::is_fpsheaven(plan);
    plans::lemma_first_where(current, hit);
    if let Some(i) = plans::first_where(current, hit) {
        assert(hit(current[i]));
        assert forall|k: int| 0 <= k < i implies !((#[trigger] current[k]).active
            && plans::is_fpsheaven(current[k])) by {
            assert(!hit(current[k]));
        }
        law_first_replacement(current, current[i].guid);
        if let Some(j) = plans::replacement(current, current[i].guid) {
            assert(current[j].guid != current[i].guid);
        }
    } else {
        assert forall|k: int| 0 <= k < current.len() implies !((#[trigger] current[k]).active
            && plans::is_fpsheaven(current[k])) by {
            assert(!hit(current[k]));
        }
    }
}

/// The words for the two kinds.
pub proof fn law_kinds()
    ensures
        FpsheavenPowerPlanKind::Intel.label_text() == "INTEL"@,
        FpsheavenPowerPlanKind::Amd.label_text() == "AMD"@,
        FpsheavenPowerPlanKind::Intel.file_name_text() == "fpsheaven2026_intel.pow"@,
        FpsheavenPowerPlanKind::Amd.file_name_text() == "fpsheaven2026_amd.pow"@,
        FpsheavenPowerPlanKind::Intel.file_needle_text() == "intel"@,
        FpsheavenPowerPlanKind::Amd.file_needle_text() == "amd"@,
{
}

/// A file is for a kind by its name, in either case: exactly by the plan's own file name, and likely
/// where the name mentions the kind. A name that is no text says nothing.
pub proof fn law_files_by_name(name: Seq<char>, kind: FpsheavenPowerPlanKind)
    ensures
        file_names::is_exact_file(Some(name), kind) <==> text::same_ignoring_case(
            name,
            match kind {
                FpsheavenPowerPlanKind::Intel => "fpsheaven2026_intel.pow"@,
                FpsheavenPowerPlanKind::Amd => "fpsheaven2026_amd.pow"@,
            },
        ),
        file_names::is_likely_file(Some(name), kind) <==> mentions(
            name,
            match kind {
                FpsheavenPowerPlanKind::Intel => "intel"@,
                FpsheavenPowerPlanKind::Amd => "amd"@,
            },
        ),
        !file_names::is_exact_file(None, kind),
        !file_names::is_likely_file(None, kind),
{
    text_laws::law_contains(text::lower(name), kind.file_needle_text());
}

/// A plan's name is what stands between the first opening and the last closing parenthesis behind
/// the GUID, trimmed.
pub proof fn law_plan_name(before: Seq<char>, inside: Seq<char>, after: Seq<char>)
    requires
        !before.contains('('),
        !after.contains(')'),
    ensures
        ({
            let line = before + seq!['('] + inside + seq![')'] + after;
            descriptions::plan_name(line) == if text::trimmed(inside).len() > 0 {
                text::trimmed(inside)
            } else {
                "Unnamed plan"@
            }
        }),
{
    let line = before + seq!['('] + inside + seq![')'] + after;
    let open = before.len() as int;
    text::lemma_first_position(line, '(', open);
    let rest = line.skip(open + 1);
    assert(rest =~= inside + seq![')'] + after);
    text::lemma_last_position(rest, ')', inside.len() as int);
    assert(rest.take(inside.len() as int) =~= inside);
}

/// A line without an opening parenthesis, or without a closing one behind the first opening one, has
/// no name.
pub proof fn law_unnamed_plan(before: Seq<char>, after: Seq<char>)
    requires
        !before.contains('('),
        !after.contains(')'),
    ensures
        descriptions::plan_name(before) == "Unnamed plan"@,
        descriptions::plan_name(before + seq!['('] + after) == "Unnamed plan"@,
{
    assert forall|k: int| 0 <= k < before.len() implies before[k] != '(' by {
        assert(before.contains(before[k]));
    }
    assert forall|k: int| 0 <= k < after.len() implies after[k] != ')' by {
        assert(after.contains(after[k]));
    }
    text::lemma_no_position(before, '(');
    let line = before + seq!['('] + after;
    let open = before.len() as int;
    text::lemma_first_position(line, '(', open);
    assert(line.skip(open + 1) =~= after);
    text::lemma_no_position(after, ')');
}

/// A description that starts with `@` and has two commas is shown from behind the second comma on,
/// trimmed.
pub proof fn law_text_behind_a_resource(path: Seq<char>, number: Seq<char>, shown: Seq<char>)
    requires
        !path.contains(','),
        !number.contains(','),
    ensures
        descriptions::registry_text(
            seq!['@'] + path + seq![','] + number + seq![','] + shown,
        ) == text::trimmed(shown),
{
    let raw = seq!['@'] + path + seq![','] + number + seq![','] + shown;
    let first = 1 + path.len() as int;
    assert forall|k: int| 0 <= k < path.len() implies path[k] != ',' by {
        assert(path.contains(path[k]));
    }
    assert forall|k: int| 0 <= k < number.len() implies number[k] != ',' by {
        assert(number.contains(number[k]));
    }
    text::lemma_first_position(raw, ',', first);
    let rest = raw.skip(first + 1);
    assert(rest =~= number + seq![','] + shown);
    text::lemma_first_position(rest, ',', number.len() as int);
    assert(raw.skip(first + 1 + number.len() + 1) =~= shown);
}

/// Any other description is shown as it is: one that does not start with `@`, and one with fewer than
/// two commas.
pub proof fn law_other_descriptions(raw: Seq<char>, rest: Seq<char>)
    requires
        !rest.contains(','),
        !raw.contains(','),
    ensures
        descriptions::registry_text(raw) == raw,
        descriptions::registry_text(raw + seq![','] + rest) == raw + seq![','] + rest,
{
    assert forall|k: int| 0 <= k < raw.len() implies raw[k] != ',' by {
        assert(raw.contains(raw[k]));
    }
    assert forall|k: int| 0 <= k < rest.len() implies rest[k] != ',' by {
        assert(rest.contains(rest[k]));
    }
    text::lemma_no_position(raw, ',');
    let whole = raw + seq![','] + rest;
    text::lemma_first_position(whole, ',', raw.len() as int);
    assert(whole.skip(raw.len() as int + 1) =~= rest);
    text::lemma_no_position(rest, ',');
}

/// A description that does not start with `@` is shown as it is.
pub proof fn law_plain_text(raw: Seq<char>)
    requires
        raw.len() == 0 || raw[0] != '@',
    ensures
        descriptions::registry_text(raw) == raw,
{
    raw.index_of_first_ensures(',');
}

/// A text names a resource exactly where it is white space, `@` and more.
pub proof fn law_resource_names(shown: Seq<char>)
    ensures
        descriptions::is_resource_reference(shown) <==> exists|front: Seq<char>, rest: Seq<char>|
            shown == #[trigger] (front + seq!['@'] + rest) && text_laws::all_in(
                front,
                CharClass::White,
            ),
{
    let start = text::cut_start(shown, CharClass::White);
    text_laws::law_cut_start(shown, CharClass::White);
    let front = choose|front: Seq<char>|
        shown == #[trigger] (front + start) && text_laws::all_in(front, CharClass::White);
    if descriptions::is_resource_reference(shown) {
        let rest = start.skip(1);
        assert(shown =~= front + seq!['@'] + rest);
    }
    if exists|front: Seq<char>, rest: Seq<char>|
        shown == #[trigger] (front + seq!['@'] + rest) && text_laws::all_in(
            front,
            CharClass::White,
        ) {
        let (other, rest) = choose|front: Seq<char>, rest: Seq<char>|
            shown == #[trigger] (front + seq!['@'] + rest) && text_laws::all_in(
                front,
                CharClass::White,
            );
        assert(shown[other.len() as int] == '@');
        if front.len() < other.len() {
            assert(shown[front.len() as int] == other[front.len() as int]);
            assert(shown[front.len() as int] == start[0]);
        } else if other.len() < front.len() {
            assert(shown[other.len() as int] == front[other.len() as int]);
        }
    }
}

/// The description that is known for a plan is that of the first plan of Windows with its GUID or its
/// name, in either case.
pub proof fn law_known_descriptions(guid: Seq<char>, name: Seq<char>)
    ensures
        descriptions::default_description(guid, name) == if text::same_ignoring_case(
            guid,
            "381b4222-f694-41f0-9685-ff5bb260df2e"@,
        ) || text::same_ignoring_case(name, "Balanced"@) {
            Some("Automatically balances performance with energy consumption on capable hardware."@)
        } else if text::same_ignoring_case(guid, "8c5e7fda-e8bf-4a96-9a85-a6e23a8c635c"@)
            || text::same_ignoring_case(name, "High performance"@) {
            Some("Favors performance, but may use more energy."@)
        } else if text::same_ignoring_case(guid, "a1841308-3541-4fab-bc81-f71556f20b4a"@)
            || text::same_ignoring_case(name, "Power saver"@) {
            Some("Saves energy by reducing your computer's performance where possible."@)
        } else if text::same_ignoring_case(guid, "e9a42b02-d5df-448d-aa00-03f14749eb61"@)
            || text::same_ignoring_case(name, "Ultimate Performance"@) {
            Some("Provides ultimate performance on higher end PCs."@)
        } else {
            None
        },
{
    let test = |plan: DefaultView|
        text::same_ignoring_case(guid, plan.guid) || text::same_ignoring_case(name, plan.name);
    let d = plans::default_plans();
    plans::lemma_first_where(d, test);
    assert(test(d[0]) || test(d[1]) || test(d[2]) || test(d[3]) || plans::first_where(
        d,
        test,
    ) is None);
    if let Some(at) = plans::first_where(d, test) {
        assert(test(d[at]));
        assert(at == 0 || at == 1 || at == 2 || at == 3);
        assert(at > 0 ==> !test(d[0]));
        assert(at > 1 ==> !test(d[1]));
        assert(at > 2 ==> !test(d[2]));
    } else {
        assert(!test(d[0]) && !test(d[1]) && !test(d[2]) && !test(d[3]));
    }
}

/// What is shown of a description in the registry is its text; where that only names a resource, the
/// description that is known for the plan; and nothing where none is known.
pub proof fn law_shown_description(guid: Seq<char>, name: Seq<char>, raw: Seq<char>)
    ensures
        ({
            let shown = descriptions::shown_description(guid, name, raw);
            let told = descriptions::registry_text(raw);
            &&& !descriptions::is_resource_reference(told) ==> shown == told
            &&& descriptions::is_resource_reference(told) ==> match descriptions::default_description(
                guid,
                name,
            ) {
                Some(known) => shown == known,
                None => shown == Seq::<char>::empty(),
            }
        }),
{
}

/// The description of a plan is made of the data, trimmed, of the first line that holds one; where no
/// line does it is the description that is known for the plan.
pub proof fn law_description_from_lines(
    guid: Seq<char>,
    name: Seq<char>,
    output: Seq<char>,
    at: int,
    data: Seq<char>,
)
    requires
        forall|k: int|
            0 <= k < text::lines_of(output).len() ==> regexes::description_search(
                #[trigger] text::lines_of(output)[k],
                descriptions::captured(text::lines_of(output)[k]),
            ),
        0 <= at <= text::lines_of(output).len(),
        forall|k: int, other: Seq<char>|
            0 <= k < at ==> !#[trigger] regexes::holds_description(text::lines_of(output)[k], other),
    ensures
        at < text::lines_of(output).len() && regexes::holds_description(
            text::lines_of(output)[at],
            data,
        ) ==> descriptions::described(guid, name, output) == descriptions::shown_description(
            guid,
            name,
            text::trimmed(data),
        ),
        at == text::lines_of(output).len() ==> descriptions::described(guid, name, output)
            == match descriptions::default_description(guid, name) {
            Some(known) => known,
            None => Seq::<char>::empty(),
        },
{
    let lines = text::lines_of(output);
    let hit = |line: Seq<char>| descriptions::captured(line) is Some;
    plans::lemma_first_where(lines, hit);
    assert forall|k: int| 0 <= k < at implies !hit(#[trigger] lines[k]) by {
        assert(regexes::description_search(lines[k], descriptions::captured(lines[k])));
        if hit(lines[k]) {
            assert(regexes::holds_description(
                lines[k],
                descriptions::captured(lines[k])->0->0,
            ));
        }
    }
    if at < lines.len() && regexes::holds_description(lines[at], data) {
        assert(regexes::description_search(lines[at], descriptions::captured(lines[at])));
        assert(hit(lines[at]));
        assert(plans::first_where(lines, hit) == Some(at));
    }
    if at == lines.len() {
        assert(plans::first_where(lines, hit) is None);
    }
}

/// A name is cleaned character by character: control characters and those that Windows does not take
/// become underscores, and all others stay.
pub proof fn law_cleaned(name: Seq<char>)
    ensures
        file_names::cleaned(name).len() == name.len(),
        forall|i: int|
            0 <= i < name.len() ==> #[trigger] file_names::cleaned(name)[i] == if text::is_control(
                name[i],
            ) || "<>:\"/\\|?*"@.contains(name[i]) {
                '_'
            } else {
                name[i]
            },
{
    reveal_strlit("<>:\"/\\|?*");
    let bad = "<>:\"/\\|?*"@;
    assert forall|c: char| #[trigger] bad.contains(c) <==> file_names::is_forbidden(c) by {
        if file_names::is_forbidden(c) {
            assert(bad[0] == '<' && bad[1] == '>' && bad[2] == ':' && bad[3] == '"' && bad[4] == '/'
                && bad[5] == '\\' && bad[6] == '|' && bad[7] == '?' && bad[8] == '*');
        }
    }
    assert forall|i: int| 0 <= i < name.len() implies #[trigger] file_names::cleaned(name)[i]
        == if text::is_control(name[i]) || bad.contains(name[i]) {
        '_'
    } else {
        name[i]
    } by {
        assert(bad.contains(name[i]) <==> file_names::is_forbidden(name[i]));
    }
}

/// The stem of a file name is the cleaned name without full stops and spaces at its ends and then
/// without white space there: at most eighty characters of it, and `power-plan` where nothing is
/// left.
pub proof fn law_file_stem(name: Seq<char>)
    ensures
        ({
            let left = text::trimmed(
                text::cut(file_names::cleaned(name), CharClass::DotOrSpace),
            );
            &&& left.len() == 0 ==> file_names::file_stem(name) == "power-plan"@
            &&& 0 < left.len() <= 80 ==> file_names::file_stem(name) == left
            &&& left.len() > 80 ==> file_names::file_stem(name) == left.take(80)
        }),
{
}

/// A plan is exported to a file named after it: the stem of its name, an underscore, the first eight
/// digits of its GUID and `.pow`.
pub proof fn law_export_name(plan: PlanView)
    requires
        guid::is_canonical_guid(plan.guid),
    ensures
        file_names::export_name(plan) == file_names::file_stem(plan.name) + "_"@ + plan.guid.take(8)
            + ".pow"@,
{
    file_names::law_guid_part_is_first_group(plan.guid);
}

/// The names in the backup folder and of the folder itself.
pub proof fn law_backup_names(guid: Seq<char>, process_id: nat, millis: nat)
    ensures
        file_names::backup_name(guid) == guid + ".pow"@,
        file_names::backup_folder(process_id, millis) == "simple_power_plan_manager_"@
            + text::decimal(process_id) + "_"@ + text::decimal(millis),
{
}

} // verus!
