use std::path::PathBuf;

use power_plan_manager::commands::{
    active_plan_query, delete_power_plan, description_query, display_args, download_file,
    duplicate_power_plan, ensure_windows, export_power_plan, extract_zip,
    fpsheaven_download_base_dir_from, fpsheaven_download_dir, import_power_plan,
    import_power_plan_args, import_power_plan_with_guid, plan_list_query, ps_single_quote,
    ps_single_quote_path, restore_order, run_command, run_powershell_script, set_active_plan,
    update_power_plan_metadata, Arg, CommandLine, Program, Ran, APP_DATA_FOLDER,
    FPSHEAVEN_DOWNLOADS_FOLDER, FPSHEAVEN_POWER_PLANS_FOLDER, FPSHEAVEN_POWER_PLANS_ZIP_FILE,
};
use power_plan_manager::file_names::{find_fpsheaven_power_plan, PlanFile};
use power_plan_manager::plans::FpsheavenPowerPlanKind;

fn shown(command: &CommandLine) -> String {
    let args: Vec<String> = command
        .args
        .iter()
        .map(|arg| match arg {
            Arg::Text(text) => text.clone(),
            other => format!("{other:?}"),
        })
        .collect();
    format!("{} {}", command.program.name(), args.join(" "))
}

#[test]
fn commands_have_their_arguments() {
    assert_eq!(shown(&set_active_plan("g")), "powercfg /setactive g");
    assert_eq!(shown(&delete_power_plan("g")), "powercfg /delete g");
    assert_eq!(shown(&duplicate_power_plan("g")), "powercfg /duplicatescheme g");
    assert_eq!(shown(&active_plan_query()), "powercfg /getactivescheme");
    assert_eq!(shown(&plan_list_query()), "powercfg /list");
    assert_eq!(
        shown(&restore_order("-restoredefaultschemes")),
        "powercfg -restoredefaultschemes"
    );
    assert_eq!(
        shown(&update_power_plan_metadata("g", "n", None)),
        "powercfg /changename g n"
    );
    assert_eq!(
        shown(&update_power_plan_metadata("g", "n", Some(""))),
        "powercfg /changename g n "
    );
    assert_eq!(
        shown(&export_power_plan("g", Arg::Chosen(0))),
        "powercfg /export Chosen(0) g"
    );
    assert_eq!(
        shown(&import_power_plan(Arg::Chosen(2))),
        "powercfg /import Chosen(2)"
    );
    assert_eq!(
        shown(&import_power_plan_with_guid(Arg::Unpacked(1), "g")),
        "powercfg /import Unpacked(1) g"
    );
    assert_eq!(
        shown(&description_query("g")),
        r"reg query HKLM\SYSTEM\CurrentControlSet\Control\Power\User\PowerSchemes\g /v Description"
    );
    assert_eq!(
        shown(&run_powershell_script("s")),
        "powershell.exe -NoProfile -NonInteractive -ExecutionPolicy Bypass -Command s"
    );
}

#[test]
fn commands_say_whether_they_are_for_windows_alone() {
    assert!(set_active_plan("g").needs_windows);
    assert!(plan_list_query().needs_windows);
    assert!(description_query("g").needs_windows);
    assert!(!restore_order("-restoredefaultschemes").needs_windows);
    assert!(!run_powershell_script("s").needs_windows);
    assert_eq!(plan_list_query().program, Program::Powercfg);
}

#[test]
fn imports_power_plan_from_unicode_fallback_extract_path_as_native_arg() {
    let files = vec![PlanFile {
        name: Some("fpsheaven2026_intel.pow".to_owned()),
        components: vec![b"nested".to_vec(), b"fpsheaven2026_intel.pow".to_vec()],
        path: "nested\\fpsheaven2026_intel.pow".to_owned(),
    }];
    let found = find_fpsheaven_power_plan(
        &files,
        FpsheavenPowerPlanKind::Intel,
        "Temp \u{5c71}\u{7530} O'Neil",
    )
    .unwrap();
    let guid = "aaaaaaaa-bbbb-cccc-dddd-eeeeeeeeeeee";
    let args = import_power_plan_args(Arg::Unpacked(found), Some(guid));

    assert!(matches!(&args[0], Arg::Text(text) if text == "/import"));
    assert!(matches!(&args[1], Arg::Unpacked(0)));
    assert!(matches!(&args[2], Arg::Text(text) if text == guid));
    assert_eq!(args.len(), 3);
}

#[test]
fn fpsheaven_download_folder_names_are_ascii() {
    assert!(APP_DATA_FOLDER.is_ascii());
    assert!(FPSHEAVEN_DOWNLOADS_FOLDER.is_ascii());
    assert!(FPSHEAVEN_POWER_PLANS_FOLDER.is_ascii());
    assert!(FPSHEAVEN_POWER_PLANS_ZIP_FILE.is_ascii());
}

#[test]
fn uses_local_app_data_when_available() {
    let local_app_data = PathBuf::from("C:\\Users\\Player\\AppData\\Local");

    assert_eq!(
        fpsheaven_download_base_dir_from(Some(local_app_data.clone()), PathBuf::from("temp")),
        local_app_data
    );
}

#[test]
fn falls_back_to_temp_when_local_app_data_is_missing() {
    assert_eq!(
        fpsheaven_download_base_dir_from(None, PathBuf::from("temp")),
        PathBuf::from("temp")
    );
}

#[test]
fn downloads_lie_in_the_folder_of_the_program() {
    assert_eq!(
        fpsheaven_download_dir(),
        ["Simple Power Plan Manager", "FPSHEAVEN Downloads"]
    );
}

#[test]
fn powershell_quotes_unicode_paths_and_apostrophes() {
    let path = PathBuf::from(
        "C:\\Users\\Ren\u{00e9}e A\u{00e7}\u{00e3}o \u{5c71}\u{7530} O'Neil\\AppData\\Local\\Simple Power Plan Manager\\FPSHEAVEN Downloads\\fpsheaven_powerplans.zip",
    );

    assert_eq!(
        ps_single_quote_path(&path.to_string_lossy()),
        "'C:\\Users\\Ren\u{00e9}e A\u{00e7}\u{00e3}o \u{5c71}\u{7530} O''Neil\\AppData\\Local\\Simple Power Plan Manager\\FPSHEAVEN Downloads\\fpsheaven_powerplans.zip'"
    );
}

#[test]
fn quoted_text_holds_only_pairs_of_apostrophes() {
    assert_eq!(ps_single_quote(""), "''");
    assert_eq!(ps_single_quote("'"), "''''");
    assert_eq!(ps_single_quote("a'; rm 'b"), "'a''; rm ''b'");
}

#[test]
fn scripts_quote_what_they_are_given() {
    assert_eq!(
        shown(&download_file("https://x/y", "C:\\it's")),
        "powershell.exe -NoProfile -NonInteractive -ExecutionPolicy Bypass -Command $ErrorActionPreference = 'Stop'; [Net.ServicePointManager]::SecurityProtocol = [Net.SecurityProtocolType]::Tls12; Invoke-WebRequest -Uri 'https://x/y' -OutFile 'C:\\it''s' -UseBasicParsing"
    );
    assert_eq!(
        shown(&extract_zip("a.zip", "b")),
        "powershell.exe -NoProfile -NonInteractive -ExecutionPolicy Bypass -Command $ErrorActionPreference = 'Stop'; Expand-Archive -LiteralPath 'a.zip' -DestinationPath 'b' -Force"
    );
}

#[test]
fn commands_for_windows_complain_elsewhere() {
    assert_eq!(ensure_windows(true), Ok(()));
    assert_eq!(
        ensure_windows(false),
        Err("This app manages Windows power plans and must be run on Windows".to_owned())
    );
}

fn ended(success: bool, stdout: &[u8], stderr: &[u8]) -> Ran {
    Ran::Ended {
        success,
        stdout: stdout.to_vec(),
        stderr: stderr.to_vec(),
    }
}

#[test]
fn answer_of_a_command_is_what_it_printed() {
    let args = vec!["/list".to_owned()];
    assert_eq!(
        run_command("powercfg", &args, ended(true, b" one\r\n", b"noise")),
        Ok("one".to_owned())
    );
    assert_eq!(
        run_command("powercfg", &args, ended(true, b"a\xff\xc3\xa9", b"")),
        Ok("a\u{fffd}\u{e9}".to_owned())
    );
}

#[test]
fn failure_of_a_command_tells_what_was_printed() {
    let args = vec!["/delete".to_owned(), "g".to_owned()];
    assert_eq!(display_args(&args), "/delete g");
    assert_eq!(
        run_command("powercfg", &args, ended(false, b"out", b" err ")),
        Err("powercfg /delete g failed: err".to_owned())
    );
    assert_eq!(
        run_command("powercfg", &args, ended(false, b"out\n", b" \n")),
        Err("powercfg /delete g failed: out".to_owned())
    );
    assert_eq!(
        run_command("powercfg", &args, ended(false, b"", b"")),
        Err("powercfg /delete g failed: no error details returned".to_owned())
    );
    assert_eq!(
        run_command("reg", &vec![], Ran::NotStarted("not found".to_owned())),
        Err("Failed to run reg: not found".to_owned())
    );
}
