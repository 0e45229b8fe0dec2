use power_plan_manager::actions::Action;
use power_plan_manager::commands::{Arg, Program};
use power_plan_manager::file_names::PlanFile;
use power_plan_manager::fpsheaven::{
    download_extract_and_import_fpsheaven_power_plan, FpsheavenImportResult, ImportJob, ImportStep,
};
use power_plan_manager::outcomes::Answer;
use power_plan_manager::plans::FpsheavenPowerPlanKind;

const OLD: &str = "aaaaaaaa-bbbb-cccc-dddd-eeeeeeeeeeee";
const BALANCED: &str = "381b4222-f694-41f0-9685-ff5bb260df2e";
const NEW: &str = "11111111-2222-4333-8444-555555555555";

fn shown(action: &Action) -> String {
    match action {
        Action::Run(command) => match (command.program, command.args.last()) {
            (Program::Powershell, Some(Arg::Text(script))) => script.clone(),
            _ => {
                let args: Vec<String> = command
                    .args
                    .iter()
                    .map(|arg| match arg {
                        Arg::Text(text) => text.clone(),
                        other => format!("{other:?}"),
                    })
                    .collect();
                args.join(" ")
            }
        },
        other => format!("{other:?}"),
    }
}

fn files() -> Vec<PlanFile> {
    vec![
        PlanFile {
            name: Some("fpsheaven2026_amd.pow".to_owned()),
            components: vec![b"fpsheaven2026_amd.pow".to_vec()],
            path: "C:\\plans\\fpsheaven2026_amd.pow".to_owned(),
        },
        PlanFile {
            name: Some("fpsheaven2026_intel.pow".to_owned()),
            components: vec![b"fpsheaven2026_intel.pow".to_vec()],
            path: "C:\\plans\\fpsheaven2026_intel.pow".to_owned(),
        },
    ]
}

fn import(
    on_windows: bool,
    found: Result<Vec<PlanFile>, String>,
    answer: impl Fn(&str) -> Answer,
) -> (Vec<String>, Result<FpsheavenImportResult, String>) {
    let mut found = Some(found);
    let mut asked = Vec::new();
    let mut step = download_extract_and_import_fpsheaven_power_plan(
        ImportJob {
            kind: FpsheavenPowerPlanKind::Intel,
            archive: "C:\\it's.zip".to_owned(),
            folder: "C:\\plans".to_owned(),
        },
        on_windows,
    );
    loop {
        match step {
            ImportStep::Ask(action, task) => {
                let text = shown(&action);
                let reply = answer(&text);
                asked.push(text);
                step = task.resume(reply);
            }
            ImportStep::List(job) => {
                asked.push("list files".to_owned());
                step = job.resume(found.take().unwrap());
            }
            ImportStep::Done(result) => return (asked, result),
        }
    }
}

fn fine(action: &str) -> Answer {
    match action {
        "/getactivescheme" => Ok(OLD.to_owned()),
        "/list" => Ok(format!("{OLD} (FPSHEAVEN old)\n{BALANCED} (Balanced)\n")),
        "[guid]::NewGuid().ToString()" => Ok(NEW.to_uppercase()),
        _ => Ok(String::new()),
    }
}

#[test]
fn new_plan_takes_the_place_of_the_old_one() {
    let (asked, result) = import(true, Ok(files()), fine);
    let orders: Vec<&str> = asked
        .iter()
        .map(|text| text.as_str())
        .filter(|text| !text.starts_with("query"))
        .collect();
    assert_eq!(
        orders,
        [
            "CreateDownloadFolder",
            "CreateArchiveFolder",
            "$ErrorActionPreference = 'Stop'; [Net.ServicePointManager]::SecurityProtocol = [Net.SecurityProtocolType]::Tls12; Invoke-WebRequest -Uri 'https://fpsheaven.com/wp-content/uploads/2026/06/fpsheaven_powerplans.zip' -OutFile 'C:\\it''s.zip' -UseBasicParsing",
            "ClearUnpackFolder",
            "CreateUnpackFolder",
            "$ErrorActionPreference = 'Stop'; Expand-Archive -LiteralPath 'C:\\it''s.zip' -DestinationPath 'C:\\plans' -Force",
            "list files",
            "/getactivescheme",
            "/list",
            &format!("/setactive {BALANCED}"),
            &format!("/delete {OLD}"),
            "[guid]::NewGuid().ToString()",
            &format!("/import Unpacked(1) {NEW}"),
            &format!("/setactive {NEW}"),
            "RemoveArchive",
        ]
    );
    let imported = result.unwrap();
    assert_eq!(imported.guid, NEW);
    assert_eq!(imported.plan_path, "C:\\plans\\fpsheaven2026_intel.pow");
    assert_eq!(imported.replaced_active_plan_name.as_deref(), Some("FPSHEAVEN old"));
}

#[test]
fn other_plan_in_force_is_left_alone() {
    let (asked, result) = import(true, Ok(files()), |action| match action {
        "/getactivescheme" => Ok(BALANCED.to_owned()),
        "RemoveArchive" => Err("gone".to_owned()),
        _ => fine(action),
    });
    assert!(!asked.iter().any(|text| text.starts_with("/delete")));
    assert_eq!(result.unwrap().replaced_active_plan_name, None);
}

#[test]
fn import_is_for_windows_alone() {
    let (asked, result) = import(false, Ok(files()), fine);
    assert!(asked.is_empty());
    assert_eq!(
        result.unwrap_err(),
        "This app manages Windows power plans and must be run on Windows"
    );
}

fn failure(at: &str) -> (usize, String) {
    let (asked, result) = import(true, Ok(files()), |action| {
        if action.starts_with(at) {
            Err("oops".to_owned())
        } else {
            fine(action)
        }
    });
    (asked.len(), result.unwrap_err())
}

#[test]
fn each_failed_step_ends_the_import() {
    assert_eq!(
        failure("CreateDownloadFolder"),
        (1, "Could not create FPSHEAVEN download folder: oops".to_owned())
    );
    assert_eq!(
        failure("CreateArchiveFolder"),
        (2, "Could not create download folder: oops".to_owned())
    );
    assert_eq!(failure("$Error"), (3, "oops".to_owned()));
    assert_eq!(
        failure("ClearUnpackFolder"),
        (4, "Could not clear old extract folder: oops".to_owned())
    );
    assert_eq!(
        failure("CreateUnpackFolder"),
        (5, "Could not create extract folder: oops".to_owned())
    );
    assert_eq!(failure("/list"), (9, "oops".to_owned()));
    assert_eq!(failure(&format!("/setactive {BALANCED}")), (12, "oops".to_owned()));
    assert_eq!(failure("/delete"), (13, "oops".to_owned()));
    assert_eq!(failure("[guid]"), (14, "oops".to_owned()));
    assert_eq!(failure("/import"), (15, "oops".to_owned()));
    assert_eq!(failure(&format!("/setactive {NEW}")), (16, "oops".to_owned()));
}

#[test]
fn unusable_files_end_the_import() {
    let (_, result) = import(true, Err("unreadable".to_owned()), fine);
    assert_eq!(result.unwrap_err(), "unreadable");
    let (_, result) = import(true, Ok(vec![]), fine);
    assert_eq!(
        result.unwrap_err(),
        "Could not find a FPSHEAVEN INTEL .pow file in C:\\plans"
    );
}

#[test]
fn odd_guid_ends_the_import() {
    let (_, result) = import(true, Ok(files()), |action| match action {
        "[guid]::NewGuid().ToString()" => Ok("none".to_owned()),
        _ => fine(action),
    });
    assert_eq!(result.unwrap_err(), "Windows returned an invalid GUID: none");
}

#[test]
fn only_plan_is_not_deleted() {
    let (asked, result) = import(true, Ok(files()), |action| match action {
        "/list" => Ok(format!("{OLD} (FPSHEAVEN old)")),
        _ => fine(action),
    });
    assert!(!asked.iter().any(|text| text.starts_with("/delete")));
    assert_eq!(
        result.unwrap_err(),
        "The active FPSHEAVEN plan is the only available power plan, so it cannot be deleted"
    );
}
