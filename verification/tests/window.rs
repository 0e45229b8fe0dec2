use power_plan_manager::actions::Action;
use power_plan_manager::commands::Arg;
use power_plan_manager::fpsheaven::FpsheavenImportResult;
use power_plan_manager::manager::{Poll, PowerPlanApp};
use power_plan_manager::outcomes::Answer;
use power_plan_manager::plans::{default_power_plans, FpsheavenPowerPlanKind, PowerPlan};
use power_plan_manager::status::{StatusKind, StatusMessage};
use power_plan_manager::steps::{Dialog, Step};

const BALANCED: &str = "381b4222-f694-41f0-9685-ff5bb260df2e";
const MINE: &str = "aaaaaaaa-bbbb-cccc-dddd-eeeeeeeeeeee";
const COPY: &str = "bbbbbbbb-bbbb-cccc-dddd-eeeeeeeeeeee";
const BUSY: &str = "FPSHEAVEN power plan import is running; wait for it to finish";

fn plan(guid: &str, name: &str, description: &str, active: bool) -> PowerPlan {
    PowerPlan {
        guid: guid.to_owned(),
        name: name.to_owned(),
        description: description.to_owned(),
        active,
    }
}

fn shown(action: &Action) -> String {
    match action {
        Action::Run(command) => {
            let args: Vec<String> = command
                .args
                .iter()
                .map(|arg| match arg {
                    Arg::Text(text) => text.clone(),
                    other => format!("{other:?}"),
                })
                .collect();
            args.join(" ")
        }
        other => format!("{other:?}"),
    }
}

fn run(
    app: &mut PowerPlanApp,
    step: Step,
    paths: &[&str],
    answer: impl Fn(&str) -> Answer,
) -> Vec<String> {
    let mut asked = Vec::new();
    let mut step = step;
    loop {
        match step {
            Step::Ask(action, task) => {
                let text = shown(&action);
                let reply = answer(&text);
                asked.push(text);
                step = app.resume(task, reply);
            }
            Step::Choose(dialog, choice) => {
                asked.push(format!("{dialog:?}"));
                let chosen = paths.iter().map(|path| (*path).to_owned()).collect();
                step = app.resume_choice(choice, chosen);
            }
            Step::StartImport(kind) => {
                asked.push(format!("start {kind:?}"));
                return asked;
            }
            Step::Wait(millis) => {
                asked.push(format!("wait {millis}"));
                return asked;
            }
            Step::Done => return asked,
        }
    }
}

fn fine(action: &str) -> Answer {
    match action {
        "/getactivescheme" => Ok(BALANCED.to_owned()),
        "/list" => Ok(format!("{MINE} (Gaming)\n{BALANCED} (Balanced)\n")),
        _ => Ok(String::new()),
    }
}

fn broken(_action: &str) -> Answer {
    Err("oops".to_owned())
}

fn opened() -> PowerPlanApp {
    let (mut app, step) = PowerPlanApp::new();
    assert_eq!(app.status.text, "Ready");
    run(&mut app, step, &[], fine);
    app
}

fn orders(asked: Vec<String>) -> Vec<String> {
    asked
        .into_iter()
        .filter(|text| {
            !text.starts_with("query") && text != "/getactivescheme" && text != "/list"
        })
        .collect()
}

fn says(app: &PowerPlanApp, kind: StatusKind, text: &str) -> bool {
    app.status.kind == kind && app.status.text == text
}

#[test]
fn window_opens_with_the_plan_in_force_selected() {
    let app = opened();
    assert!(says(&app, StatusKind::Success, "Loaded power plans"));
    assert_eq!(app.plans.len(), 2);
    assert_eq!(app.selected_guid.as_deref(), Some(BALANCED));
    assert!(app.is_selected(BALANCED));
    assert!(!app.is_selected(MINE));
    assert_eq!(app.rename_text, "Balanced");
    assert_eq!(
        app.description_text,
        "Automatically balances performance with energy consumption on capable hardware."
    );
}

#[test]
fn window_without_a_list_says_why() {
    let (mut app, step) = PowerPlanApp::new();
    run(&mut app, step, &[], broken);
    assert!(says(&app, StatusKind::Error, "oops"));
    assert!(app.plans.is_empty());
    assert_eq!(app.selected_guid, None);
    assert!(app.selected_plan().is_none());
    assert!(app.details_controls().is_none());
}

#[test]
fn selection_is_kept_over_a_new_list() {
    let mut app = opened();
    app.select_plan(MINE.to_owned());
    assert_eq!(app.rename_text, "Gaming");
    let step = app.reload_with_status("Refreshed power plans".to_owned());
    run(&mut app, step, &[], fine);
    assert_eq!(app.selected_guid.as_deref(), Some(MINE));
    assert!(says(&app, StatusKind::Success, "Refreshed power plans"));
}

#[test]
fn lost_selection_goes_to_the_plan_in_force_or_the_first() {
    let mut app = opened();
    app.select_plan("gone".to_owned());
    assert_eq!(app.rename_text, "");
    assert_eq!(
        app.reload(Ok(vec![plan("a", "A", "", false), plan("b", "B", "x", true)])),
        Ok(())
    );
    assert_eq!(app.selected_guid.as_deref(), Some("b"));
    assert_eq!(app.description_text, "x");
    assert_eq!(app.reload(Ok(vec![plan("a", "A", "", false)])), Ok(()));
    assert_eq!(app.selected_guid.as_deref(), Some("a"));
    assert_eq!(app.reload(Ok(vec![])), Ok(()));
    assert_eq!(app.selected_guid, None);
    assert_eq!(app.rename_text, "");
    app.rename_text = "typed".to_owned();
    assert_eq!(app.reload(Err("e".to_owned())), Err("e".to_owned()));
    assert_eq!(app.rename_text, "typed");
}

#[test]
fn files_are_imported_one_by_one() {
    let mut app = opened();
    let step = app.import_plans();
    let asked = run(&mut app, step, &["C:\\a.pow", "C:\\b.pow"], fine);
    assert_eq!(
        orders(asked),
        ["OpenFiles(\"Import power plan\")", "/import Chosen(0)", "/import Chosen(1)"]
    );
    assert!(says(&app, StatusKind::Success, "Imported 2 power plan(s) successfully"));
}

#[test]
fn failed_imports_are_named() {
    let mut app = opened();
    let step = app.import_plans();
    run(&mut app, step, &["C:\\a.pow", "C:\\b.pow"], |action| {
        if action == "/import Chosen(0)" {
            Err("bad".to_owned())
        } else {
            fine(action)
        }
    });
    assert!(says(
        &app,
        StatusKind::Error,
        "Imported 1 power plan(s); 1 failed\nC:\\a.pow: bad"
    ));
}

#[test]
fn cancelled_dialogs_change_nothing() {
    let mut app = opened();
    let step = app.import_plans();
    assert_eq!(run(&mut app, step, &[], fine).len(), 1);
    let step = app.export_selected_plan();
    assert_eq!(run(&mut app, step, &[], fine).len(), 1);
    let step = app.export_all_plans();
    assert_eq!(run(&mut app, step, &[], fine).len(), 1);
    assert!(says(&app, StatusKind::Success, "Loaded power plans"));
}

#[test]
fn selected_plan_is_exported_to_the_chosen_file() {
    let mut app = opened();
    let step = app.export_selected_plan();
    assert!(matches!(
        &step,
        Step::Choose(Dialog::SaveFile("Export power plan", name), _) if name == "Balanced.pow"
    ));
    let asked = run(&mut app, step, &["D:\\x.pow"], fine);
    assert_eq!(asked[1], format!("/export Chosen(0) {BALANCED}"));
    assert!(says(&app, StatusKind::Success, "Exported \"Balanced\" to D:\\x.pow"));
}

#[test]
fn all_plans_are_exported_to_the_chosen_folder() {
    let mut app = opened();
    let step = app.export_all_plans();
    let asked = run(&mut app, step, &["D:\\out"], fine);
    assert_eq!(
        asked,
        [
            "Folder(\"Choose export folder\")".to_owned(),
            format!("/export InChosenFolder(\"Gaming_aaaaaaaa.pow\") {MINE}"),
            format!("/export InChosenFolder(\"Balanced_381b4222.pow\") {BALANCED}"),
        ]
    );
    assert!(says(&app, StatusKind::Success, "Exported 2 power plan(s) to D:\\out"));
    let step = app.export_all_plans();
    run(&mut app, step, &["D:\\out"], |action| {
        if action.ends_with(MINE) {
            Err("bad".to_owned())
        } else {
            fine(action)
        }
    });
    assert!(says(
        &app,
        StatusKind::Error,
        "Exported 1 power plan(s); 1 failed\nGaming: bad"
    ));
}

#[test]
fn selected_plan_is_put_in_force() {
    let mut app = opened();
    app.select_plan(MINE.to_owned());
    let step = app.activate_selected_plan();
    let asked = run(&mut app, step, &[], fine);
    assert_eq!(orders(asked), [format!("/setactive {MINE}")]);
    assert!(says(&app, StatusKind::Success, "Activated \"Gaming\""));
    let step = app.activate_selected_plan();
    run(&mut app, step, &[], broken);
    assert!(says(&app, StatusKind::Error, "oops"));
}

#[test]
fn duplicate_is_selected() {
    let mut app = opened();
    let step = app.duplicate_selected_plan();
    run(&mut app, step, &[], |action| match action {
        "/list" => Ok(format!("{BALANCED} (Balanced)\n{COPY} (Balanced copy)\n")),
        _ if action.starts_with("/duplicatescheme") => Ok(format!("GUID {COPY}")),
        _ => fine(action),
    });
    assert_eq!(app.selected_guid.as_deref(), Some(COPY));
    assert_eq!(app.rename_text, "Balanced copy");
    assert!(says(&app, StatusKind::Success, "Duplicated \"Balanced\""));
    app.select_plan(BALANCED.to_owned());
    let step = app.duplicate_selected_plan();
    run(&mut app, step, &[], fine);
    assert_eq!(app.selected_guid.as_deref(), Some(BALANCED));
}

#[test]
fn name_and_description_are_saved() {
    let mut app = opened();
    app.select_plan(MINE.to_owned());
    assert!(!app.details_controls().unwrap().save);
    app.rename_text = " Quiet ".to_owned();
    assert!(app.details_controls().unwrap().save);
    let step = app.save_selected_plan_metadata();
    let asked = run(&mut app, step, &[], fine);
    assert_eq!(orders(asked), [format!("/changename {MINE} Quiet")]);
    assert!(says(&app, StatusKind::Success, "Updated \"Gaming\""));
    assert_eq!(app.rename_text, "Gaming");
    app.description_text = "For the night\n".to_owned();
    let step = app.save_selected_plan_metadata();
    let asked = run(&mut app, step, &[], fine);
    assert_eq!(orders(asked), [format!("/changename {MINE} Gaming For the night")]);
}

#[test]
fn empty_name_is_refused() {
    let mut app = opened();
    app.rename_text = " \t".to_owned();
    assert!(!app.details_controls().unwrap().save);
    let step = app.save_selected_plan_metadata();
    assert!(matches!(step, Step::Done));
    assert!(says(&app, StatusKind::Error, "Plan name cannot be empty"));
}

#[test]
fn plan_is_deleted_once_that_is_confirmed() {
    let mut app = opened();
    app.select_plan(MINE.to_owned());
    app.delete_selected_plan();
    assert_eq!(app.pending_delete_guid.as_deref(), Some(MINE));
    assert_eq!(app.delete_dialog_name().as_deref(), Some("Gaming"));
    assert!(matches!(app.answer_delete_dialog(false, false), Step::Done));
    assert_eq!(app.pending_delete_guid.as_deref(), Some(MINE));
    let step = app.answer_delete_dialog(true, false);
    let asked = run(&mut app, step, &[], fine);
    assert_eq!(orders(asked), [format!("/delete {MINE}")]);
    assert_eq!(app.pending_delete_guid, None);
    assert!(says(&app, StatusKind::Success, "Deleted \"Gaming\""));
    app.delete_selected_plan();
    assert!(matches!(app.answer_delete_dialog(false, true), Step::Done));
    assert_eq!(app.pending_delete_guid, None);
    assert_eq!(app.delete_dialog_name(), None);
}

#[test]
fn plan_in_force_is_not_deleted() {
    let mut app = opened();
    app.delete_selected_plan();
    assert_eq!(app.pending_delete_guid, None);
    assert!(says(
        &app,
        StatusKind::Error,
        "Activate another plan before deleting this one"
    ));
    app.status = StatusMessage::info(String::new());
    assert!(matches!(app.delete_plan(BALANCED), Step::Done));
    assert!(says(
        &app,
        StatusKind::Error,
        "Activate another plan before deleting this one"
    ));
    assert!(matches!(app.delete_plan("gone"), Step::Done));
    assert!(says(&app, StatusKind::Error, "Power plan no longer exists"));
    app.pending_delete_guid = Some("gone".to_owned());
    assert_eq!(app.delete_dialog_name().as_deref(), Some("Selected plan"));
}

#[test]
fn operations_on_a_plan_need_a_selection() {
    let mut app = opened();
    app.selected_guid = None;
    for which in 0..5 {
        app.status = StatusMessage::info(String::new());
        let step = match which {
            0 => app.export_selected_plan(),
            1 => app.activate_selected_plan(),
            2 => app.duplicate_selected_plan(),
            3 => app.save_selected_plan_metadata(),
            _ => app.open_windows_editor(),
        };
        assert!(matches!(step, Step::Done));
        assert!(says(&app, StatusKind::Error, "Select a power plan first"));
    }
    app.status = StatusMessage::info(String::new());
    app.delete_selected_plan();
    assert!(says(&app, StatusKind::Error, "Select a power plan first"));
    app.plans.clear();
    assert!(matches!(app.export_all_plans(), Step::Done));
    assert!(says(&app, StatusKind::Error, "No power plans to export"));
}

#[test]
fn editor_is_opened_for_the_plan_in_force() {
    let mut app = opened();
    let step = app.open_windows_editor();
    let asked = run(&mut app, step, &[], fine);
    assert_eq!(
        orders(asked),
        [format!("/setactive {BALANCED}"), "OpenPowerOptions".to_owned()]
    );
    assert!(says(&app, StatusKind::Success, "Opened Windows editor for \"Balanced\""));
    let step = app.open_windows_editor();
    run(&mut app, step, &[], |action| match action {
        "OpenPowerOptions" => Err("no".to_owned()),
        _ => fine(action),
    });
    assert!(says(
        &app,
        StatusKind::Error,
        "Failed to open Windows power options: no"
    ));
}

#[test]
fn channel_is_opened() {
    let mut app = opened();
    let step = app.open_youtube_channel();
    let asked = run(&mut app, step, &[], fine);
    assert_eq!(asked, ["OpenPage(\"https://www.youtube.com/@fpsheaven\")"]);
    assert!(says(&app, StatusKind::Success, "Opened @fpsheaven on YouTube"));
    let step = app.open_youtube_channel();
    run(&mut app, step, &[], broken);
    assert!(says(&app, StatusKind::Error, "Could not open YouTube: oops"));
}

fn full_list() -> String {
    default_power_plans()
        .iter()
        .map(|plan| format!("{} ({})\n", plan.guid, plan.name))
        .collect()
}

#[test]
fn default_plans_that_are_there_are_not_brought_back() {
    let mut app = opened();
    let step = app.reload_with_status("x".to_owned());
    run(&mut app, step, &[], |action| match action {
        "/list" => Ok(full_list()),
        _ => fine(action),
    });
    assert!(matches!(app.enable_default_windows_plans(), Step::Done));
    assert!(says(
        &app,
        StatusKind::Info,
        "Default Windows power plans are already available"
    ));
}

#[test]
fn missing_default_plans_are_brought_back() {
    let mut app = opened();
    let step = app.enable_default_windows_plans();
    let asked = run(&mut app, step, &[], fine);
    assert_eq!(orders(asked).len(), 3);
    assert!(says(
        &app,
        StatusKind::Success,
        "Enabled 3 default Windows power plan(s): High performance, Power saver, Ultimate Performance"
    ));
}

#[test]
fn reset_is_asked_for_where_there_are_plans_of_the_user() {
    let mut app = opened();
    let step = app.enable_default_windows_plans();
    let asked = run(&mut app, step, &[], broken);
    assert!(!asked.iter().any(|text| text.contains("restoredefaultschemes")));
    let error = app.pending_default_reset_error.clone().unwrap();
    assert!(error.starts_with("Enabled 0 default plan(s); 3 failed\nHigh performance: oops"));
    assert!(says(
        &app,
        StatusKind::Info,
        "A full Windows power plan reset is required to restore those defaults"
    ));
    assert!(matches!(app.answer_default_reset_dialog(false, false), Step::Done));
    assert!(app.pending_default_reset_error.is_some());
    assert!(matches!(app.answer_default_reset_dialog(false, true), Step::Done));
    assert!(app.pending_default_reset_error.is_none());
    assert!(says(&app, StatusKind::Info, "Windows default reset canceled"));
    app.pending_default_reset_error = Some(error);
    let step = app.answer_default_reset_dialog(true, false);
    let asked = run(&mut app, step, &[], |action| match action {
        "/list" => Ok(format!("{MINE} (Gaming)\n{}", full_list())),
        _ => fine(action),
    });
    assert_eq!(
        orders(asked),
        [
            "CreateBackupFolder".to_owned(),
            format!("/export InBackupFolder(\"{MINE}.pow\") {MINE}"),
            "-restoredefaultschemes".to_owned(),
            format!("/import InBackupFolder(\"{MINE}.pow\") {MINE}"),
            format!("/setactive {BALANCED}"),
            "RemoveBackupFolder".to_owned(),
        ]
    );
    assert!(says(
        &app,
        StatusKind::Success,
        "Restored default Windows power plans and preserved 1 custom plan(s)"
    ));
}

#[test]
fn reset_without_a_list_is_not_done() {
    let mut app = opened();
    app.pending_default_reset_error = Some("e".to_owned());
    let step = app.answer_default_reset_dialog(true, false);
    let asked = run(&mut app, step, &[], broken);
    assert!(orders(asked).is_empty());
    assert!(says(&app, StatusKind::Error, "oops"));
}

#[test]
fn plans_of_windows_alone_are_restored_at_once() {
    let mut app = opened();
    assert_eq!(app.reload(Ok(vec![plan(BALANCED, "Balanced", "", true)])), Ok(()));
    let step = app.enable_default_windows_plans();
    let asked = run(&mut app, step, &[], |action| {
        if action.starts_with("/duplicatescheme") {
            Err("oops".to_owned())
        } else if action == "/list" {
            Ok(full_list())
        } else {
            fine(action)
        }
    });
    assert!(asked.contains(&"-restoredefaultschemes".to_owned()));
    assert!(says(
        &app,
        StatusKind::Success,
        "Restored default Windows power plans and preserved 0 custom plan(s)"
    ));
    assert!(app.pending_default_reset_error.is_none());
}

fn importing() -> PowerPlanApp {
    let mut app = opened();
    app.open_fpsheaven_import_dialog();
    assert!(matches!(app.answer_fpsheaven_import_dialog(None, false), Step::Done));
    assert!(app.pending_fpsheaven_import);
    let step = app.answer_fpsheaven_import_dialog(Some(FpsheavenPowerPlanKind::Amd), false);
    assert_eq!(run(&mut app, step, &[], fine), ["start Amd"]);
    assert!(says(&app, StatusKind::Info, "Downloading FPSHEAVEN AMD power plan..."));
    assert!(!app.pending_fpsheaven_import);
    app
}

#[test]
fn nothing_else_is_done_while_an_import_runs() {
    let mut app = importing();
    assert!(app.fpsheaven_import_running());
    let controls = app.toolbar_controls();
    assert!(!controls.refresh && !controls.import && !controls.delete && !controls.download);
    assert!(!app.details_controls().unwrap().activate);
    for which in 0..11 {
        app.status = StatusMessage::error(String::new());
        let step = match which {
            0 => app.reload_with_status("x".to_owned()),
            1 => app.import_plans(),
            2 => app.export_selected_plan(),
            3 => app.export_all_plans(),
            4 => app.activate_selected_plan(),
            5 => app.duplicate_selected_plan(),
            6 => app.save_selected_plan_metadata(),
            7 => app.delete_plan(MINE),
            8 => app.open_windows_editor(),
            9 => app.enable_default_windows_plans(),
            _ => app.reset_default_windows_plans_anyway(),
        };
        assert!(matches!(step, Step::Done));
        assert!(says(&app, StatusKind::Info, BUSY));
    }
    app.status = StatusMessage::error(String::new());
    app.delete_selected_plan();
    assert!(says(&app, StatusKind::Info, BUSY));
    assert!(app.block_if_fpsheaven_import_running());
    let step = app.start_fpsheaven_power_plan_import(FpsheavenPowerPlanKind::Intel);
    assert!(matches!(step, Step::Done));
    assert!(says(
        &app,
        StatusKind::Info,
        "FPSHEAVEN power plan import is already running"
    ));
    assert_eq!(app.fpsheaven_import_job, Some(FpsheavenPowerPlanKind::Amd));
}

#[test]
fn import_dialog_can_be_cancelled() {
    let mut app = opened();
    app.open_fpsheaven_import_dialog();
    assert!(matches!(app.answer_fpsheaven_import_dialog(None, true), Step::Done));
    assert!(!app.pending_fpsheaven_import);
    assert!(!app.fpsheaven_import_running());
    assert!(!app.block_if_fpsheaven_import_running());
}

#[test]
fn imported_plan_is_selected() {
    let mut app = importing();
    let step = app.poll_fpsheaven_import(Poll::Pending);
    assert_eq!(run(&mut app, step, &[], fine), ["wait 200"]);
    let step = app.poll_fpsheaven_import(Poll::Finished(Ok(FpsheavenImportResult {
        guid: MINE.to_owned(),
        plan_path: "C:\\x.pow".to_owned(),
        replaced_active_plan_name: Some("Old".to_owned()),
    })));
    run(&mut app, step, &[], fine);
    assert!(!app.fpsheaven_import_running());
    assert_eq!(app.selected_guid.as_deref(), Some(MINE));
    assert!(says(
        &app,
        StatusKind::Success,
        "Imported and activated FPSHEAVEN AMD power plan from C:\\x.pow; replaced \"Old\""
    ));
}

#[test]
fn imported_plan_that_is_not_listed_is_not_selected() {
    let mut app = opened();
    let step = app.finish_fpsheaven_power_plan_import(
        FpsheavenPowerPlanKind::Intel,
        Ok(FpsheavenImportResult {
            guid: COPY.to_owned(),
            plan_path: "C:\\x.pow".to_owned(),
            replaced_active_plan_name: None,
        }),
    );
    run(&mut app, step, &[], fine);
    assert_eq!(app.selected_guid.as_deref(), Some(BALANCED));
    assert!(says(
        &app,
        StatusKind::Success,
        "Imported and activated FPSHEAVEN INTEL power plan from C:\\x.pow"
    ));
}

#[test]
fn failed_import_says_why() {
    let mut app = importing();
    let step = app.poll_fpsheaven_import(Poll::Finished(Err("no net".to_owned())));
    assert!(matches!(step, Step::Done));
    assert!(says(&app, StatusKind::Error, "no net"));
    assert!(!app.fpsheaven_import_running());
    let mut app = importing();
    assert!(matches!(app.poll_fpsheaven_import(Poll::Stopped), Step::Done));
    assert!(says(
        &app,
        StatusKind::Error,
        "FPSHEAVEN power plan import stopped unexpectedly"
    ));
    assert!(!app.fpsheaven_import_running());
    assert!(matches!(app.poll_fpsheaven_import(Poll::Pending), Step::Done));
}

#[test]
fn buttons_follow_the_selection() {
    let mut app = opened();
    let controls = app.toolbar_controls();
    assert!(controls.refresh && controls.restore_defaults && controls.import);
    assert!(controls.export_all && controls.download && controls.export);
    assert!(!controls.delete);
    let details = app.details_controls().unwrap();
    assert!(!details.save && !details.activate && !details.delete);
    assert!(details.duplicate && details.edit && details.export);
    app.select_plan(MINE.to_owned());
    assert!(app.toolbar_controls().delete);
    assert!(app.details_controls().unwrap().activate);
    app.selected_guid = None;
    app.plans.clear();
    assert!(!app.toolbar_controls().export && !app.toolbar_controls().export_all);
}
