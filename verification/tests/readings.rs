use power_plan_manager::commands::{Arg, CommandLine};
use power_plan_manager::duplicates::{
    duplicate_default_power_plan, duplicate_defaults, enable_missing_duplicate_templates,
    DuplicateStep,
};
use power_plan_manager::load::{active_plan_guid, load_power_plans, LoadStep};
use power_plan_manager::outcomes::{count_successes, failure_texts, labels_of_successes, Answer};
use power_plan_manager::plans::{default_power_plans, PowerPlan};

const BALANCED: &str = "381b4222-f694-41f0-9685-ff5bb260df2e";
const MINE: &str = "aaaaaaaa-bbbb-cccc-dddd-eeeeeeeeeeee";

fn words(command: &CommandLine) -> Vec<String> {
    command
        .args
        .iter()
        .map(|arg| match arg {
            Arg::Text(text) => text.clone(),
            other => format!("{other:?}"),
        })
        .collect()
}

fn load(answer: impl Fn(&[String]) -> Answer) -> Result<Vec<PowerPlan>, String> {
    let (command, task) = load_power_plans();
    let mut step = LoadStep::Ask(command, task);
    loop {
        match step {
            LoadStep::Ask(command, task) => step = task.resume(answer(&words(&command))),
            LoadStep::Done(loaded) => return loaded,
        }
    }
}

#[test]
fn list_is_read_with_descriptions() {
    let loaded = load(|words| match words[0].as_str() {
        "/getactivescheme" => Ok(format!("Power Scheme GUID: {MINE}  (Gaming)")),
        "/list" => Ok(format!(
            "Existing Power Schemes (* Active)\n-----\nPower Scheme GUID: {BALANCED}  (Balanced)\r\nPower Scheme GUID: {}  (Gaming) \n",
            MINE.to_uppercase()
        )),
        _ if words[1].ends_with(MINE) => Ok("Description REG_SZ For games".to_owned()),
        _ => Err("no such key".to_owned()),
    })
    .unwrap();

    assert_eq!(loaded.len(), 2);
    assert_eq!(loaded[0].guid, BALANCED);
    assert_eq!(loaded[0].name, "Balanced");
    assert_eq!(loaded[0].description, "");
    assert!(!loaded[0].active);
    assert_eq!(loaded[1].guid, MINE);
    assert_eq!(loaded[1].name, "Gaming");
    assert_eq!(loaded[1].description, "For games");
    assert!(loaded[1].active);
}

#[test]
fn plan_in_force_is_known_by_its_mark() {
    let loaded = load(|words| match words[0].as_str() {
        "/getactivescheme" => Err("no".to_owned()),
        "/list" => Ok(format!("{BALANCED} (Balanced) * \n{MINE}")),
        _ => Ok(String::new()),
    })
    .unwrap();

    assert!(loaded[0].active);
    assert_eq!(
        loaded[0].description,
        "Automatically balances performance with energy consumption on capable hardware."
    );
    assert_eq!(loaded[1].name, "Unnamed plan");
    assert!(!loaded[1].active);
}

#[test]
fn list_without_plans_is_an_error() {
    assert_eq!(
        load(|_| Ok("nothing".to_owned())).unwrap_err(),
        "powercfg did not return any power plans"
    );
    assert_eq!(load(|_| Err("broken".to_owned())).unwrap_err(), "broken");
}

#[test]
fn plan_in_force_is_read_from_the_answer() {
    assert_eq!(active_plan_guid(Ok(format!("x {MINE} y"))).as_deref(), Some(MINE));
    assert_eq!(active_plan_guid(Ok("x".to_owned())), None);
    assert_eq!(active_plan_guid(Err(MINE.to_owned())), None);
}

fn enable(answer: impl Fn(&[String]) -> Answer) -> (Vec<Vec<String>>, Answer) {
    let mut asked = Vec::new();
    let mut step = duplicate_defaults(default_power_plans()[..2].to_vec());
    loop {
        match step {
            DuplicateStep::Ask(command, task) => {
                let words = words(&command);
                let reply = answer(&words);
                asked.push(words);
                step = task.resume(reply);
            }
            DuplicateStep::Done(defaults, results) => {
                return (asked, enable_missing_duplicate_templates(&defaults, &results));
            }
        }
    }
}

#[test]
fn duplicates_are_named_after_their_plan() {
    let (asked, report) = enable(|words| {
        if words[0] == "/duplicatescheme" && words[1] == BALANCED {
            Ok(format!("GUID: {MINE}"))
        } else {
            Ok(String::new())
        }
    });
    assert_eq!(asked.len(), 3);
    assert_eq!(asked[0], ["/duplicatescheme", BALANCED]);
    assert_eq!(
        asked[1],
        [
            "/changename",
            MINE,
            "Balanced",
            "Automatically balances performance with energy consumption on capable hardware."
        ]
    );
    assert_eq!(asked[2][0], "/duplicatescheme");
    assert_eq!(
        report,
        Ok("Enabled 2 default Windows power plan(s): Balanced, High performance".to_owned())
    );
}

#[test]
fn failed_duplicates_are_reported() {
    let (_, report) = enable(|words| {
        if words[0] == "/duplicatescheme" && words[1] == BALANCED {
            Err("denied".to_owned())
        } else {
            Ok(String::new())
        }
    });
    assert_eq!(
        report,
        Err("Enabled 1 default plan(s); 1 failed\nBalanced: denied".to_owned())
    );
}

#[test]
fn failed_renaming_is_reported() {
    let (_, report) = enable(|words| {
        if words[0] == "/duplicatescheme" {
            Ok(MINE.to_owned())
        } else {
            Err("denied".to_owned())
        }
    });
    assert_eq!(
        report,
        Err(
            "Enabled 0 default plan(s); 2 failed\nBalanced: denied\nHigh performance: denied"
                .to_owned()
        )
    );
}

#[test]
fn order_after_a_duplication() {
    let balanced = default_power_plans()[0];
    assert!(
        duplicate_default_power_plan(&balanced, Ok(MINE.to_owned()))
            .unwrap()
            .is_some()
    );
    assert!(
        duplicate_default_power_plan(&balanced, Ok("-".to_owned()))
            .unwrap()
            .is_none()
    );
    assert_eq!(
        duplicate_default_power_plan(&balanced, Err("e".to_owned())).unwrap_err(),
        "e"
    );
}

#[test]
fn outcomes_are_counted_once() {
    let labels = vec!["a".to_owned(), "b".to_owned(), "c".to_owned()];
    let outcomes = vec![Ok(()), Err("x".to_owned()), Ok(())];
    assert_eq!(count_successes(&outcomes), 2);
    assert_eq!(labels_of_successes(&labels, &outcomes), ["a", "c"]);
    assert_eq!(failure_texts(&labels, &outcomes), ["b: x"]);
}
