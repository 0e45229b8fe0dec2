use std::path::Path;

use power_plan_manager::descriptions::{
    default_power_plan_description, display_power_plan_description, display_registry_description,
    is_registry_resource_reference, parse_plan_name, read_power_plan_description,
};
use power_plan_manager::file_names::{
    backup_file_name, create_backup_dir, export_file_name, find_fpsheaven_power_plan,
    is_power_plan_file, sanitize_file_stem, PlanFile,
};
use power_plan_manager::guid::find_guid;
use power_plan_manager::paths::path_before;
use power_plan_manager::plans::{FpsheavenPowerPlanKind, PowerPlan};

const BALANCED: &str = "381b4222-f694-41f0-9685-ff5bb260df2e";

#[test]
fn parses_plan_name_with_parentheses() {
    let text = "Power Scheme GUID: aaaaaaaa-bbbb-cccc-dddd-eeeeeeeeeeee  (Gaming (Quiet)) *";
    let guid_end = find_guid(text).unwrap().end;

    assert_eq!(parse_plan_name(text, guid_end), "Gaming (Quiet)");
}

#[test]
fn plan_without_a_name_is_unnamed() {
    assert_eq!(parse_plan_name("", 0), "Unnamed plan");
    assert_eq!(parse_plan_name("(a", 0), "Unnamed plan");
    assert_eq!(parse_plan_name("a)", 0), "Unnamed plan");
    assert_eq!(parse_plan_name(")a(", 0), "Unnamed plan");
    assert_eq!(parse_plan_name("(  )", 0), "Unnamed plan");
    assert_eq!(parse_plan_name("( a ) b)", 0), "a ) b");
}

#[test]
fn extracts_display_text_from_registry_resource_description() {
    assert_eq!(
        display_registry_description(
            r"@C:\Windows\system32\powrprof.dll,-14,Automatically balances performance"
        ),
        "Automatically balances performance"
    );
    assert_eq!(
        display_registry_description("Plain imported plan description"),
        "Plain imported plan description"
    );
}

#[test]
fn text_behind_the_second_comma_keeps_its_commas() {
    assert_eq!(display_registry_description("@a,b, c, d "), "c, d");
    assert_eq!(display_registry_description("a,b, c, d "), "a,b, c, d ");
    assert_eq!(display_registry_description("@a,b"), "@a,b");
}

#[test]
fn uses_default_description_for_registry_resource_reference() {
    assert_eq!(
        display_power_plan_description(
            "381b4222-f694-41f0-9685-ff5bb260df2e",
            "Balanced",
            r"@%SystemRoot%\system32\powrprof.dll,-13"
        ),
        "Automatically balances performance with energy consumption on capable hardware."
    );
}

#[test]
fn resource_of_an_unknown_plan_is_not_shown() {
    assert_eq!(display_power_plan_description("x", "y", "@a,b"), "");
    assert_eq!(display_power_plan_description("x", "y", "@a,b,@c"), "");
    assert!(is_registry_resource_reference(" @a"));
    assert!(!is_registry_resource_reference("a@"));
    assert!(!is_registry_resource_reference(""));
}

#[test]
fn default_description_goes_by_guid_or_name() {
    assert_eq!(
        default_power_plan_description("381B4222-F694-41F0-9685-FF5BB260DF2E", "Mine").as_deref(),
        Some("Automatically balances performance with energy consumption on capable hardware.")
    );
    assert_eq!(
        default_power_plan_description("x", "POWER SAVER").as_deref(),
        Some("Saves energy by reducing your computer's performance where possible.")
    );
    assert_eq!(default_power_plan_description("x", "Mine"), None);
}

#[test]
fn description_is_read_from_the_registry_output() {
    let output = "\nHKEY_LOCAL_MACHINE\\SYSTEM\\X\n    Description    REG_SZ    For quiet nights  ";
    assert_eq!(
        read_power_plan_description("x", "Mine", output),
        "For quiet nights"
    );
    let output = "  description\tREG_EXPAND_SZ  @%SystemRoot%\\system32\\powrprof.dll,-13,Text";
    assert_eq!(read_power_plan_description("x", "Mine", output), "Text");
    assert_eq!(
        read_power_plan_description("x", "Mine", "Description REG_SZ "),
        ""
    );
}

#[test]
fn description_that_is_missing_is_that_of_the_default_plan() {
    assert_eq!(
        read_power_plan_description(BALANCED, "Mine", "Descriptions REG_SZ a"),
        "Automatically balances performance with energy consumption on capable hardware."
    );
    assert_eq!(read_power_plan_description("x", "Mine", "nothing"), "");
}

#[test]
fn sanitizes_windows_file_names() {
    assert_eq!(sanitize_file_stem("Ultra<Fast>:Plan?"), "Ultra_Fast__Plan_");
    assert_eq!(sanitize_file_stem("...   "), "power-plan");
}

#[test]
fn file_stems_are_cut_and_shortened() {
    assert_eq!(sanitize_file_stem(" .a.b. "), "a.b");
    assert_eq!(sanitize_file_stem("\u{3000}a"), "a");
    assert_eq!(sanitize_file_stem("a\"/\\|*\u{7}"), "a______");
    assert_eq!(sanitize_file_stem(&"\u{e9}".repeat(100)), "\u{e9}".repeat(80));
    assert_eq!(sanitize_file_stem(""), "power-plan");
}

fn plan(guid: &str, name: &str) -> PowerPlan {
    PowerPlan {
        guid: guid.to_owned(),
        name: name.to_owned(),
        description: String::new(),
        active: false,
    }
}

#[test]
fn export_names_hold_the_start_of_the_guid() {
    assert_eq!(
        export_file_name(&plan(BALANCED, "Balanced?")),
        "Balanced__381b4222.pow"
    );
    assert_eq!(export_file_name(&plan("short", "a")), "a_short.pow");
    assert_eq!(export_file_name(&plan("12345678", "a")), "a_12345678.pow");
    assert_eq!(
        export_file_name(&plan("1234567\u{e9}9", "a")),
        "a_1234567\u{e9}9.pow"
    );
    assert_eq!(backup_file_name("x"), "x.pow");
    assert_ne!(backup_file_name("x"), backup_file_name("y"));
}

#[test]
fn power_plan_files_go_by_their_extension() {
    assert!(is_power_plan_file(Some("pow")));
    assert!(is_power_plan_file(Some("POW")));
    assert!(!is_power_plan_file(Some("pows")));
    assert!(!is_power_plan_file(None));
}

fn file(path: &str) -> PlanFile {
    PlanFile {
        name: path.rsplit('/').next().map(|name| name.to_owned()),
        components: path.split('/').map(|part| part.as_bytes().to_vec()).collect(),
        path: path.to_owned(),
    }
}

fn files_at(paths: &[&str]) -> Vec<PlanFile> {
    paths.iter().map(|path| file(path)).collect()
}

#[test]
fn finds_exact_fpsheaven_power_plan_file() {
    let files = files_at(&["FPSHEAVEN2026_AMD.pow", "FPSHEAVEN2026_INTEL.pow"]);

    assert_eq!(
        find_fpsheaven_power_plan(&files, FpsheavenPowerPlanKind::Intel, "folder"),
        Ok(1)
    );
}

#[test]
fn fpsheaven_file_fallback_only_checks_file_name() {
    let files = files_at(&["FPSHEAVEN2026_AMD_CUSTOM.pow"]);

    assert!(
        find_fpsheaven_power_plan(&files, FpsheavenPowerPlanKind::Intel, "pp_ui_intel_parent")
            .is_err()
    );
    assert!(
        find_fpsheaven_power_plan(&files, FpsheavenPowerPlanKind::Amd, "pp_ui_intel_parent")
            .is_ok()
    );
}

#[test]
fn exact_file_goes_before_a_likely_one() {
    let mut nameless = file("intel");
    nameless.name = None;
    let files = vec![
        nameless,
        file("my intel.pow"),
        file("z/fpsheaven2026_intel.POW"),
    ];
    assert_eq!(
        find_fpsheaven_power_plan(&files, FpsheavenPowerPlanKind::Intel, "folder"),
        Ok(2)
    );
    assert_eq!(
        find_fpsheaven_power_plan(&files, FpsheavenPowerPlanKind::Amd, "D:\\x"),
        Err("Could not find a FPSHEAVEN AMD .pow file in D:\\x".to_owned())
    );
}

#[test]
fn backup_folders_are_named_after_process_and_time() {
    assert_eq!(create_backup_dir(7, 1234), "simple_power_plan_manager_7_1234");
    assert_eq!(
        create_backup_dir(u32::MAX, u128::MAX),
        format!("simple_power_plan_manager_{}_{}", u32::MAX, u128::MAX)
    );
    assert_ne!(create_backup_dir(1, 23), create_backup_dir(12, 3));
}

#[test]
fn of_several_files_the_one_with_the_least_path_is_taken() {
    let intel = FpsheavenPowerPlanKind::Intel;
    let files = files_at(&[
        "b/fpsheaven2026_intel.pow",
        "a-b/fpsheaven2026_intel.pow",
        "a/x/fpsheaven2026_intel.pow",
        "intel.pow",
        "a/fpsheaven2026_intel.pow",
    ]);
    assert_eq!(find_fpsheaven_power_plan(&files, intel, ""), Ok(4));
    let fewer = files_at(&[
        "b/fpsheaven2026_intel.pow",
        "a-b/fpsheaven2026_intel.pow",
        "a/x/fpsheaven2026_intel.pow",
    ]);
    assert_eq!(find_fpsheaven_power_plan(&fewer, intel, ""), Ok(2));
    let likely = files_at(&["intel b.pow", "Intel.pow", "intel.pow", "AMD.pow"]);
    assert_eq!(find_fpsheaven_power_plan(&likely, intel, ""), Ok(1));
}

#[test]
fn paths_are_ordered_as_std_orders_them() {
    let paths = [
        "", "a", "a/b", "a-b", "a.b/c", "a/b/c", "ab", "b", "A/z", "\u{e9}/a", "\u{5c71}", "a/\u{e9}",
    ];
    for first in paths {
        for second in paths {
            let parts = |path: &str| -> Vec<Vec<u8>> {
                Path::new(path)
                    .components()
                    .map(|part| part.as_os_str().as_encoded_bytes().to_vec())
                    .collect()
            };
            assert_eq!(
                path_before(&parts(first), &parts(second)),
                Path::new(first) < Path::new(second),
                "{first} {second}"
            );
        }
    }
}

#[test]
fn description_with_characters_outside_ascii_is_read() {
    let output = "De\u{17f}cription\u{a0}REG_\u{e9}\u{3000}\u{e7}a va ";
    assert_eq!(read_power_plan_description("x", "Mine", output), "\u{e7}a va");
    assert_eq!(
        read_power_plan_description("x", "Mine", "Description REG_\u{2013} a"),
        ""
    );
}
