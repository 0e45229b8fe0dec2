use power_plan_manager::actions::Action;
use power_plan_manager::commands::Arg;
use power_plan_manager::outcomes::Answer;
use power_plan_manager::plans::{default_power_plans, PowerPlan};
use power_plan_manager::restore::{
    export_custom_power_plans, restore_default_power_schemes,
    restore_windows_defaults_preserving_custom_plans, RestoreStep,
};

fn plan(guid: &str, name: &str) -> PowerPlan {
    PowerPlan {
        guid: guid.to_owned(),
        name: name.to_owned(),
        description: String::new(),
        active: false,
    }
}

fn plans() -> Vec<PowerPlan> {
    vec![
        plan("one", "First"),
        plan("381b4222-f694-41f0-9685-ff5bb260df2e", "Balanced"),
        plan("two", "Second"),
    ]
}

fn shown(action: &Action) -> String {
    match action {
        Action::Run(command) => {
            let args: Vec<String> = command
                .args
                .iter()
                .map(|arg| match arg {
                    Arg::Text(text) => text.clone(),
                    Arg::InBackupFolder(name) => format!("<backup>/{name}"),
                    other => format!("{other:?}"),
                })
                .collect();
            args.join(" ")
        }
        other => format!("{other:?}"),
    }
}

fn full_list() -> String {
    default_power_plans()
        .iter()
        .map(|plan| format!("{} ({})\n", plan.guid, plan.name))
        .collect()
}

fn restore(active: Option<&str>, answer: impl Fn(&str) -> Answer) -> (Vec<String>, Answer) {
    let (action, task) =
        restore_windows_defaults_preserving_custom_plans(&plans(), active.map(|g| g.to_owned()));
    let mut step = RestoreStep::Ask(action, task);
    let mut asked = Vec::new();
    loop {
        match step {
            RestoreStep::Ask(action, task) => {
                let text = shown(&action);
                let reply = if text == "CreateBackupFolder" && answer(&text).is_ok() {
                    Ok("C:\\backup".to_owned())
                } else {
                    answer(&text)
                };
                asked.push(text);
                step = task.resume(reply);
            }
            RestoreStep::Done(report) => return (asked, report),
        }
    }
}

fn fine(action: &str) -> Answer {
    match action {
        "/list" => Ok(full_list()),
        _ => Ok(String::new()),
    }
}

#[test]
fn plans_of_the_user_survive_a_restoration() {
    let (asked, report) = restore(Some("two"), fine);
    let orders: Vec<&str> = asked
        .iter()
        .map(|text| text.as_str())
        .filter(|text| !text.starts_with("query"))
        .collect();
    assert_eq!(
        orders,
        [
            "CreateBackupFolder",
            "/export <backup>/one.pow one",
            "/export <backup>/two.pow two",
            "-restoredefaultschemes",
            "/import <backup>/one.pow one",
            "/import <backup>/two.pow two",
            "/getactivescheme",
            "/list",
            "/setactive two",
            "RemoveBackupFolder",
        ]
    );
    assert_eq!(
        report,
        Ok("Restored default Windows power plans and preserved 2 custom plan(s)".to_owned())
    );
}

#[test]
fn missing_default_plans_are_brought_back_after_a_restoration() {
    let (asked, report) = restore(None, |action| match action {
        "/list" => Ok(default_power_plans()[..3]
            .iter()
            .map(|plan| format!("{} ({})\n", plan.guid, plan.name))
            .collect()),
        _ => Ok(String::new()),
    });
    assert!(asked.contains(&format!("/duplicatescheme {}", default_power_plans()[3].guid)));
    assert_eq!(
        report,
        Ok(
            "Restored default Windows power plans and preserved 2 custom plan(s); enabled Ultimate Performance"
                .to_owned()
        )
    );
}

#[test]
fn nothing_is_restored_without_a_backup() {
    let (asked, report) = restore(Some("two"), |action| {
        if action.starts_with("/export") && action.ends_with("two") {
            Err("disk full".to_owned())
        } else {
            fine(action)
        }
    });
    assert!(!asked.iter().any(|text| text.contains("restoredefaultschemes")));
    assert_eq!(asked.last().unwrap(), "RemoveBackupFolder");
    assert_eq!(
        report,
        Err(
            "Could not back up custom power plans, so Windows defaults were not restored\nSecond: disk full"
                .to_owned()
        )
    );
}

#[test]
fn missing_backup_folder_ends_a_restoration() {
    let (asked, report) = restore(None, |_| Err("denied".to_owned()));
    assert_eq!(asked, ["CreateBackupFolder"]);
    assert_eq!(
        report,
        Err("Could not create temporary backup folder: denied".to_owned())
    );
}

#[test]
fn other_spelling_of_the_switch_is_tried() {
    let (asked, report) = restore(None, |action| match action {
        "-restoredefaultschemes" => Err("first".to_owned()),
        _ => fine(action),
    });
    assert!(asked.contains(&"/restoredefaultschemes".to_owned()));
    assert!(report.is_ok());
}

#[test]
fn refused_reset_keeps_the_backup() {
    let (asked, report) = restore(None, |action| match action {
        "-restoredefaultschemes" => Err("first".to_owned()),
        "/restoredefaultschemes" => Err("second".to_owned()),
        _ => fine(action),
    });
    assert!(!asked.contains(&"RemoveBackupFolder".to_owned()));
    assert_eq!(
        report,
        Err(
            "Could not restore Windows default power plans\nfirst\nsecond\nCustom-plan backups were kept in C:\\backup"
                .to_owned()
        )
    );
    assert_eq!(
        restore_default_power_schemes("a", "b", "c"),
        "Could not restore Windows default power plans\na\nb\nCustom-plan backups were kept in c"
    );
}

#[test]
fn failed_steps_after_the_reset_keep_the_backup() {
    let (asked, report) = restore(Some("two"), |action| {
        if action == "/import <backup>/one.pow one" {
            Err("bad file".to_owned())
        } else if action == "/list" {
            Err("no list".to_owned())
        } else if action == "/setactive two" {
            Err("no plan".to_owned())
        } else {
            Ok(String::new())
        }
    });
    assert!(asked.contains(&"/import <backup>/two.pow two".to_owned()));
    assert!(!asked.contains(&"RemoveBackupFolder".to_owned()));
    assert_eq!(
        report,
        Err(
            "Restored Windows defaults and re-imported 1 custom plan(s), but 3 step(s) failed\nCould not re-import custom plan one: bad file\nWindows defaults were restored, but the refreshed plan list could not be read: no list\nCould not reactivate previous active plan: no plan\nCustom-plan backups were kept in C:\\backup"
                .to_owned()
        )
    );
}

#[test]
fn backup_is_reported_plan_by_plan() {
    let custom = vec![plan("one", "First"), plan("two", "Second")];
    assert_eq!(export_custom_power_plans(&custom, &vec![Ok(()), Ok(())]), Ok(()));
    assert!(
        export_custom_power_plans(&custom, &vec![Err("a".to_owned()), Err("b".to_owned())])
            .unwrap_err()
            .ends_with("\nFirst: a\nSecond: b")
    );
}
