use power_plan_manager::fpsheaven::replace_active_fpsheaven_plan_if_needed;
use power_plan_manager::plans::{
    contains_ascii_case_insensitive, default_power_plans, has_default_power_plan,
    is_default_windows_plan, is_fpsheaven_power_plan, missing_default_power_plans,
    replacement_plan_for_deleting_active, FpsheavenPowerPlanKind, PowerPlan,
};
use power_plan_manager::restore::custom_power_plans;

fn plan(guid: &str, name: &str, description: &str, active: bool) -> PowerPlan {
    PowerPlan {
        guid: guid.to_owned(),
        name: name.to_owned(),
        description: description.to_owned(),
        active,
    }
}

#[test]
fn detects_missing_default_power_plans_by_guid() {
    let plans = vec![PowerPlan {
        guid: "381b4222-f694-41f0-9685-ff5bb260df2e".to_owned(),
        name: "Balanced".to_owned(),
        description: String::new(),
        active: false,
    }];

    let missing = missing_default_power_plans(&plans);

    assert!(missing.iter().any(|plan| plan.name == "High performance"));
    assert!(!missing.iter().any(|plan| plan.name == "Balanced"));
}

#[test]
fn treats_named_ultimate_performance_as_available() {
    let plans = vec![PowerPlan {
        guid: "aaaaaaaa-bbbb-cccc-dddd-eeeeeeeeeeee".to_owned(),
        name: "Ultimate Performance".to_owned(),
        description: String::new(),
        active: false,
    }];

    let missing = missing_default_power_plans(&plans);

    assert!(
        !missing
            .iter()
            .any(|plan| plan.name == "Ultimate Performance")
    );
}

#[test]
fn all_four_default_plans_are_missing_from_an_empty_list() {
    let missing: Vec<&str> = missing_default_power_plans(&[])
        .iter()
        .map(|plan| plan.name)
        .collect();
    assert_eq!(
        missing,
        ["Balanced", "High performance", "Power saver", "Ultimate Performance"]
    );
}

#[test]
fn nothing_is_missing_from_a_full_list() {
    let plans: Vec<PowerPlan> = default_power_plans()
        .iter()
        .map(|default_plan| plan(&default_plan.guid.to_uppercase(), "x", "", false))
        .collect();
    assert!(missing_default_power_plans(&plans).is_empty());
    for default_plan in default_power_plans() {
        assert!(has_default_power_plan(&plans, &default_plan));
    }
}

#[test]
fn name_counts_for_the_ultimate_plan_alone() {
    assert!(is_default_windows_plan(&plan("x", "ultimate performance", "", false)));
    assert!(!is_default_windows_plan(&plan("x", "Balanced", "", false)));
    assert!(is_default_windows_plan(&plan(
        "381B4222-f694-41f0-9685-ff5bb260df2e",
        "Mine",
        "",
        false
    )));
}

#[test]
fn plans_of_the_user_keep_their_order() {
    let plans = vec![
        plan("b", "B", "", false),
        plan("381b4222-f694-41f0-9685-ff5bb260df2e", "Balanced", "", true),
        plan("a", "A", "", false),
    ];
    let guids: Vec<String> = custom_power_plans(&plans)
        .into_iter()
        .map(|plan| plan.guid)
        .collect();
    assert_eq!(guids, ["b", "a"]);
}

#[test]
fn detects_fpsheaven_power_plans_by_name_or_description() {
    let named_plan = PowerPlan {
        guid: "aaaaaaaa-bbbb-cccc-dddd-eeeeeeeeeeee".to_owned(),
        name: "FPSHEAVEN2026_AMD".to_owned(),
        description: String::new(),
        active: true,
    };
    let described_plan = PowerPlan {
        guid: "bbbbbbbb-bbbb-cccc-dddd-eeeeeeeeeeee".to_owned(),
        name: "Gaming".to_owned(),
        description: "Created by fpsheaven".to_owned(),
        active: false,
    };

    assert!(is_fpsheaven_power_plan(&named_plan));
    assert!(is_fpsheaven_power_plan(&described_plan));
}

#[test]
fn parts_are_compared_in_either_case() {
    assert!(contains_ascii_case_insensitive("xFpSHeaven", "FPSheaven"));
    assert!(!contains_ascii_case_insensitive("fps heaven", "fpsheaven"));
    assert!(contains_ascii_case_insensitive("", ""));
    assert!(!is_fpsheaven_power_plan(&plan("a", "b", "c", true)));
}

#[test]
fn prefers_non_fpsheaven_replacement_plan() {
    let plans = vec![
        PowerPlan {
            guid: "aaaaaaaa-bbbb-cccc-dddd-eeeeeeeeeeee".to_owned(),
            name: "FPSHEAVEN2026_AMD".to_owned(),
            description: String::new(),
            active: true,
        },
        PowerPlan {
            guid: "bbbbbbbb-bbbb-cccc-dddd-eeeeeeeeeeee".to_owned(),
            name: "FPSHEAVEN2026_INTEL".to_owned(),
            description: String::new(),
            active: false,
        },
        PowerPlan {
            guid: "cccccccc-bbbb-cccc-dddd-eeeeeeeeeeee".to_owned(),
            name: "Balanced".to_owned(),
            description: String::new(),
            active: false,
        },
    ];

    let replacement =
        replacement_plan_for_deleting_active(&plans, "aaaaaaaa-bbbb-cccc-dddd-eeeeeeeeeeee")
            .unwrap();

    assert_eq!(replacement.name, "Balanced");
}

#[test]
fn fpsheaven_plan_replaces_where_there_is_no_other() {
    let plans = vec![
        plan("a", "fpsheaven 1", "", true),
        plan("b", "fpsheaven 2", "", false),
    ];
    assert_eq!(
        replacement_plan_for_deleting_active(&plans, "a").unwrap().guid,
        "b"
    );
    assert!(replacement_plan_for_deleting_active(&plans[..1], "a").is_none());
}

#[test]
fn active_fpsheaven_plan_is_to_be_replaced() {
    let plans = vec![
        plan("a", "Old", "by FPSHEAVEN", true),
        plan("b", "Balanced", "", false),
    ];
    let (old, other) = replace_active_fpsheaven_plan_if_needed(&plans).unwrap().unwrap();
    assert_eq!(old.guid, "a");
    assert_eq!(other, "b");
}

#[test]
fn other_active_plan_is_not_replaced() {
    let plans = vec![
        plan("a", "fpsheaven", "", false),
        plan("b", "Balanced", "", true),
    ];
    assert!(replace_active_fpsheaven_plan_if_needed(&plans).unwrap().is_none());
}

#[test]
fn only_plan_cannot_be_replaced() {
    let plans = vec![plan("a", "fpsheaven", "", true)];
    assert_eq!(
        replace_active_fpsheaven_plan_if_needed(&plans).unwrap_err(),
        "The active FPSHEAVEN plan is the only available power plan, so it cannot be deleted"
    );
}

#[test]
fn kinds_have_their_names() {
    assert_eq!(FpsheavenPowerPlanKind::Intel.label(), "INTEL");
    assert_eq!(FpsheavenPowerPlanKind::Amd.label(), "AMD");
    assert_eq!(FpsheavenPowerPlanKind::Intel.file_name(), "fpsheaven2026_intel.pow");
    assert_eq!(FpsheavenPowerPlanKind::Amd.file_name(), "fpsheaven2026_amd.pow");
    assert_eq!(FpsheavenPowerPlanKind::Intel.file_needle(), "intel");
    assert_eq!(FpsheavenPowerPlanKind::Amd.file_needle(), "amd");
}
