//! Restoring the plans of Windows without losing the plans of the user.
//!
//! Windows restores its own plans by dropping all others. So the plans of the user are exported
//! into a backup folder first and imported again afterwards. The folder is removed only where
//! nothing was lost: as soon as one plan could not be exported nothing is restored, and where a later
//! step fails the folder is kept and named in the report.
use vstd::prelude::*;

use crate::actions;
use crate::actions::Action;
use crate::commands;
use crate::commands::{
    export_power_plan, import_power_plan_with_guid, restore_order, set_active_plan, Arg,
};
use crate::duplicates;
use crate::duplicates::{
    duplicate_defaults, names_of_defaults, DuplicateStep, DuplicateTask,
};
use crate::file_names;
use crate::file_names::backup_file_name;
use crate::load;
use crate::load::{load_power_plans, LoadStep, LoadTask};
use crate::outcomes;
use crate::outcomes::{
    count_successes, failure_texts, labels_of_successes, outcome_from, Answer, Outcome,
};
use crate::plans;
use crate::plans::{is_default_windows_plan, missing_default_power_plans, PowerPlan};
use crate::text;

verus! {

/// The step at which a restoration stands.
#[derive(Debug)]
pub enum RestoreStage {
    /// The backup folder is being created.
    CreatingFolder,
    /// The plan of the user behind the known outcomes is being exported.
    Exporting {
        /// What became of the first exports.
        exports: Vec<Outcome>,
    },
    /// The backup folder is being removed because an export failed.
    DroppingFolder {
        /// The report.
        error: String,
    },
    /// The plans of Windows are being restored.
    Restoring,
    /// The plans of Windows are being restored with the other spelling of the switch.
    RestoringAgain {
        /// Why the first spelling failed.
        first_error: String,
    },
    /// The plan of the user behind the known outcomes is being imported.
    Importing {
        /// What became of the first imports.
        imports: Vec<Outcome>,
    },
    /// The list of plans is being read.
    Loading {
        /// What became of the imports.
        imports: Vec<Outcome>,
        /// How far the reading has come.
        reading: LoadTask,
    },
    /// Default plans that are still missing are being brought back.
    Enabling {
        /// What became of the imports.
        imports: Vec<Outcome>,
        /// How far the duplication has come.
        duplication: DuplicateTask,
    },
    /// The plan that was in force is being put in force again.
    Activating {
        /// What became of the imports.
        imports: Vec<Outcome>,
        /// What failed after the imports.
        later: Vec<String>,
        /// The default plans that were brought back.
        enabled: Vec<String>,
    },
    /// The backup folder is being removed because nothing failed.
    Finishing {
        /// The report.
        message: String,
    },
}

/// The contents of a [`RestoreStage`].
pub enum StageView {
    /// The backup folder is being created.
    CreatingFolder,
    /// A plan of the user is being exported.
    Exporting(Seq<outcomes::OutcomeView>),
    /// The backup folder is being removed because an export failed.
    DroppingFolder(Seq<char>),
    /// The plans of Windows are being restored.
    Restoring,
    /// The plans of Windows are being restored with the other spelling of the switch.
    RestoringAgain(Seq<char>),
    /// A plan of the user is being imported.
    Importing(Seq<outcomes::OutcomeView>),
    /// The list of plans is being read.
    Loading(Seq<outcomes::OutcomeView>, load::LoadView),
    /// Default plans that are still missing are being brought back.
    Enabling(Seq<outcomes::OutcomeView>, duplicates::DuplicateView),
    /// The plan that was in force is being put in force again.
    Activating(Seq<outcomes::OutcomeView>, Seq<Seq<char>>, Seq<Seq<char>>),
    /// The backup folder is being removed because nothing failed.
    Finishing(Seq<char>),
}

impl View for RestoreStage {
    type V = StageView;

    open spec fn view(&self) -> StageView {
        match self {
            RestoreStage::CreatingFolder => StageView::CreatingFolder,
            RestoreStage::Exporting { exports } => StageView::Exporting(
                outcomes::outcome_views(exports@),
            ),
            RestoreStage::DroppingFolder { error } => StageView::DroppingFolder(error@),
            RestoreStage::Restoring => StageView::Restoring,
            RestoreStage::RestoringAgain { first_error } => StageView::RestoringAgain(first_error@),
            RestoreStage::Importing { imports } => StageView::Importing(
                outcomes::outcome_views(imports@),
            ),
            RestoreStage::Loading { imports, reading } => StageView::Loading(
                outcomes::outcome_views(imports@),
                reading@,
            ),
            RestoreStage::Enabling { imports, duplication } => StageView::Enabling(
                outcomes::outcome_views(imports@),
                duplication@,
            ),
            RestoreStage::Activating { imports, later, enabled } => StageView::Activating(
                outcomes::outcome_views(imports@),
                text::views(later@),
                text::views(enabled@),
            ),
            RestoreStage::Finishing { message } => StageView::Finishing(message@),
        }
    }
}

/// How far a restoration has come.
#[derive(Debug)]
pub struct RestoreTask {
    /// The plan that was in force.
    pub active: Option<String>,
    /// The plans of the user.
    pub custom: Vec<PowerPlan>,
    /// The backup folder as it is shown, once it is there.
    pub folder: String,
    /// The step at which the restoration stands.
    pub stage: RestoreStage,
}

/// The contents of a [`RestoreTask`].
pub struct RestoreView {
    /// The plan that was in force.
    pub active: Option<Seq<char>>,
    /// The plans of the user.
    pub custom: Seq<plans::PlanView>,
    /// The backup folder as it is shown.
    pub folder: Seq<char>,
    /// The step at which the restoration stands.
    pub stage: StageView,
}

impl View for RestoreTask {
    type V = RestoreView;

    open spec fn view(&self) -> RestoreView {
        RestoreView {
            active: plans::option_view(self.active),
            custom: plans::plan_views(self.custom@),
            folder: self.folder@,
            stage: self.stage@,
        }
    }
}

impl RestoreView {
    /// What is known of each stage fits the plans of the user.
    pub open spec fn wf(self) -> bool {
        match self.stage {
            StageView::Exporting(exports) => exports.len() < self.custom.len(),
            StageView::Importing(imports) => imports.len() < self.custom.len(),
            StageView::Loading(imports, task) => imports.len() == self.custom.len() && task.wf(),
            StageView::Enabling(imports, task) => imports.len() == self.custom.len() && task.wf(),
            StageView::Activating(imports, _, _) => imports.len() == self.custom.len(),
            _ => true,
        }
    }
}

/// What comes next in a restoration.
#[derive(Debug)]
pub enum RestoreStep {
    /// Something to do, with which the restoration goes on.
    Ask(Action, RestoreTask),
    /// The report.
    Done(Answer),
}

/// The contents of a [`RestoreStep`].
pub enum RestoreStepView {
    /// Something to do.
    Ask(actions::ActionView, RestoreView),
    /// The report.
    Done(outcomes::AnswerView),
}

impl View for RestoreStep {
    type V = RestoreStepView;

    open spec fn view(&self) -> RestoreStepView {
        match self {
            RestoreStep::Ask(action, task) => RestoreStepView::Ask(action@, task@),
            RestoreStep::Done(report) => RestoreStepView::Done(outcomes::answer_view(*report)),
        }
    }
}

impl RestoreStepView {
    /// The restoration can go on, or it is over.
    pub open spec fn wf(self) -> bool {
        match self {
            RestoreStepView::Ask(_, task) => task.wf(),
            RestoreStepView::Done(_) => true,
        }
    }
}

/// The names of some plans.
pub open spec fn plan_names(views: Seq<plans::PlanView>) -> Seq<Seq<char>> {
    Seq::new(views.len(), |i: int| views[i].name)
}

/// How the import of each plan is named in the report.
pub open spec fn import_labels(views: Seq<plans::PlanView>) -> Seq<Seq<char>> {
    Seq::new(views.len(), |i: int| "Could not re-import custom plan "@ + views[i].guid)
}

/// The order to export a plan of the user into the backup folder.
pub open spec fn backup_order(plan: plans::PlanView) -> actions::ActionView {
    actions::ActionView::Run(
        commands::export_command(
            plan.guid,
            commands::ArgView::InBackupFolder(file_names::backup_name(plan.guid)),
        ),
    )
}

/// The order to import a plan of the user from the backup folder, under its own GUID.
pub open spec fn reimport_order(plan: plans::PlanView) -> actions::ActionView {
    actions::ActionView::Run(
        commands::import_command(
            commands::ArgView::InBackupFolder(file_names::backup_name(plan.guid)),
            Some(plan.guid),
        ),
    )
}

/// The order to restore the plans of Windows.
pub open spec fn reset_order() -> actions::ActionView {
    actions::ActionView::Run(commands::restore_command("-restoredefaultschemes"@))
}

/// The order to restore the plans of Windows, in the other spelling.
pub open spec fn second_reset_order() -> actions::ActionView {
    actions::ActionView::Run(commands::restore_command("/restoredefaultschemes"@))
}

/// The report on the backup: an error as soon as one plan could not be exported.
pub open spec fn backup_report(
    custom: Seq<plans::PlanView>,
    exports: Seq<outcomes::OutcomeView>,
) -> outcomes::OutcomeView {
    let failed = outcomes::failures(plan_names(custom), exports);
    if failed.len() == 0 {
        Ok(())
    } else {
        Err(
            "Could not back up custom power plans, so Windows defaults were not restored\n"@
                + text::joined(failed, "\n"@),
        )
    }
}

/// What comes next once it is known what became of the first exports.
pub open spec fn export_on(
    task: RestoreView,
    exports: Seq<outcomes::OutcomeView>,
) -> RestoreStepView {
    if exports.len() < task.custom.len() {
        RestoreStepView::Ask(
            backup_order(task.custom[exports.len() as int]),
            RestoreView { stage: StageView::Exporting(exports), ..task },
        )
    } else {
        match backup_report(task.custom, exports) {
            Ok(_) => RestoreStepView::Ask(
                reset_order(),
                RestoreView { stage: StageView::Restoring, ..task },
            ),
            Err(error) => RestoreStepView::Ask(
                actions::ActionView::RemoveBackupFolder,
                RestoreView { stage: StageView::DroppingFolder(error), ..task },
            ),
        }
    }
}

/// What comes next once it is known what became of the first imports.
pub open spec fn import_on(
    task: RestoreView,
    imports: Seq<outcomes::OutcomeView>,
) -> RestoreStepView {
    if imports.len() < task.custom.len() {
        RestoreStepView::Ask(
            reimport_order(task.custom[imports.len() as int]),
            RestoreView { stage: StageView::Importing(imports), ..task },
        )
    } else {
        RestoreStepView::Ask(
            actions::ActionView::Run(commands::active_command()),
            RestoreView {
                stage: StageView::Loading(imports, load::LoadView::AskedActive),
                ..task
            },
        )
    }
}

/// What comes next in the duplication of the default plans that are still missing.
pub open spec fn enable_on(
    task: RestoreView,
    imports: Seq<outcomes::OutcomeView>,
    step: duplicates::DuplicateStepView,
) -> RestoreStepView {
    match step {
        duplicates::DuplicateStepView::Ask(command, inner) => RestoreStepView::Ask(
            actions::ActionView::Run(command),
            RestoreView { stage: StageView::Enabling(imports, inner), ..task },
        ),
        duplicates::DuplicateStepView::Done(defaults, results) => activate_on(
            task,
            imports,
            outcomes::failures(duplicates::default_names(defaults), results),
            outcomes::success_labels(duplicates::default_names(defaults), results),
        ),
    }
}

/// What comes next in the reading of the list after the imports.
pub open spec fn load_on(
    task: RestoreView,
    imports: Seq<outcomes::OutcomeView>,
    step: load::LoadStepView,
) -> RestoreStepView {
    match step {
        load::LoadStepView::Ask(command, inner) => RestoreStepView::Ask(
            actions::ActionView::Run(command),
            RestoreView { stage: StageView::Loading(imports, inner), ..task },
        ),
        load::LoadStepView::Done(Ok(current)) => enable_on(
            task,
            imports,
            duplicates::duplicate_on(plans::missing_defaults(current), Seq::empty()),
        ),
        load::LoadStepView::Done(Err(error)) => activate_on(
            task,
            imports,
            seq![
                "Windows defaults were restored, but the refreshed plan list could not be read: "@
                    + error,
            ],
            Seq::empty(),
        ),
    }
}

/// What comes next once the default plans are back: the plan that was in force is put in force
/// again.
pub open spec fn activate_on(
    task: RestoreView,
    imports: Seq<outcomes::OutcomeView>,
    later: Seq<Seq<char>>,
    enabled: Seq<Seq<char>>,
) -> RestoreStepView {
    match task.active {
        Some(active) => RestoreStepView::Ask(
            actions::ActionView::Run(commands::set_active_command(active)),
            RestoreView { stage: StageView::Activating(imports, later, enabled), ..task },
        ),
        None => conclude(task, imports, later, enabled),
    }
}

/// The report of a restoration in which nothing failed.
pub open spec fn restored_message(
    imports: Seq<outcomes::OutcomeView>,
    enabled: Seq<Seq<char>>,
) -> Seq<char> {
    let message = "Restored default Windows power plans and preserved "@ + text::decimal(
        outcomes::successes(imports),
    ) + " custom plan(s)"@;
    if enabled.len() == 0 {
        message
    } else {
        message + "; enabled "@ + text::joined(enabled, ", "@)
    }
}

/// The report of a restoration in which something failed.
pub open spec fn restore_failure(
    imports: Seq<outcomes::OutcomeView>,
    failed: Seq<Seq<char>>,
    folder: Seq<char>,
) -> Seq<char> {
    "Restored Windows defaults and re-imported "@ + text::decimal(outcomes::successes(imports))
        + " custom plan(s), but "@ + text::decimal(failed.len()) + " step(s) failed\n"@
        + text::joined(failed, "\n"@) + "\nCustom-plan backups were kept in "@ + folder
}

/// The end of a restoration: the backup folder goes where nothing failed; else it is kept, and the
/// report names it.
pub open spec fn conclude(
    task: RestoreView,
    imports: Seq<outcomes::OutcomeView>,
    later: Seq<Seq<char>>,
    enabled: Seq<Seq<char>>,
) -> RestoreStepView {
    let failed = outcomes::failures(import_labels(task.custom), imports) + later;
    if failed.len() == 0 {
        RestoreStepView::Ask(
            actions::ActionView::RemoveBackupFolder,
            RestoreView {
                stage: StageView::Finishing(restored_message(imports, enabled)),
                ..task
            },
        )
    } else {
        RestoreStepView::Done(Err(restore_failure(imports, failed, task.folder)))
    }
}

/// The report of a restoration in which Windows restored nothing.
pub open spec fn reset_failure(
    first_error: Seq<char>,
    second_error: Seq<char>,
    folder: Seq<char>,
) -> Seq<char> {
    "Could not restore Windows default power plans\n"@ + first_error + "\n"@ + second_error
        + "\nCustom-plan backups were kept in "@ + folder
}

/// What comes next in a restoration, by the answer to the last thing that was asked.
pub open spec fn restore_next(task: RestoreView, answer: outcomes::AnswerView) -> RestoreStepView {
    match task.stage {
        StageView::CreatingFolder => match answer {
            Ok(folder) => export_on(RestoreView { folder, ..task }, Seq::empty()),
            Err(error) => RestoreStepView::Done(
                Err("Could not create temporary backup folder: "@ + error),
            ),
        },
        StageView::Exporting(exports) => export_on(
            task,
            exports.push(outcomes::outcome_of(answer)),
        ),
        StageView::DroppingFolder(error) => RestoreStepView::Done(Err(error)),
        StageView::Restoring => match answer {
            Ok(_) => import_on(task, Seq::empty()),
            Err(error) => RestoreStepView::Ask(
                second_reset_order(),
                RestoreView { stage: StageView::RestoringAgain(error), ..task },
            ),
        },
        StageView::RestoringAgain(first_error) => match answer {
            Ok(_) => import_on(task, Seq::empty()),
            Err(second_error) => RestoreStepView::Done(
                Err(reset_failure(first_error, second_error, task.folder)),
            ),
        },
        StageView::Importing(imports) => import_on(
            task,
            imports.push(outcomes::outcome_of(answer)),
        ),
        StageView::Loading(imports, inner) => load_on(
            task,
            imports,
            load::load_next(inner, answer),
        ),
        StageView::Enabling(imports, inner) => enable_on(
            task,
            imports,
            duplicates::duplicate_next(inner, answer),
        ),
        StageView::Activating(imports, later, enabled) => conclude(
            task,
            imports,
            match answer {
                Ok(_) => later,
                Err(error) => later.push(
                    "Could not reactivate previous active plan: "@ + error,
                ),
            },
            enabled,
        ),
        StageView::Finishing(message) => RestoreStepView::Done(Ok(message)),
    }
}

/// What is known of the searches in the answer to the last thing that was asked.
pub open spec fn answer_known(task: RestoreView, answer: outcomes::AnswerView) -> bool {
    match task.stage {
        StageView::Loading(_, reading) => load::answer_known(reading, answer),
        StageView::Enabling(_, duplication) => duplicates::answer_known(duplication, answer),
        _ => true,
    }
}

/// The start of a restoration with the given plans, one of which may be in force.
pub open spec fn restore_start(
    all: Seq<plans::PlanView>,
    active: Option<Seq<char>>,
) -> RestoreStepView {
    RestoreStepView::Ask(
        actions::ActionView::CreateBackupFolder,
        RestoreView {
            active,
            custom: plans::custom_plans(all),
            folder: Seq::empty(),
            stage: StageView::CreatingFolder,
        },
    )
}

/// The plans of the user among `all`.
pub fn custom_power_plans(all: &[PowerPlan]) -> (r: Vec<PowerPlan>)
    ensures
        plans::plan_views(r@) == plans::custom_plans(plans::plan_views(all@)),
{
    let mut r: Vec<PowerPlan> = Vec::new();
    let mut i: usize = 0;
    let ghost views = plans::plan_views(all@);
    let ghost wanted = |plan: plans::PlanView| !plans::is_default(plan);
    assert(plans::plan_views(r@) =~= views.take(0).filter(wanted)) by {
        reveal(Seq::filter);
    }
    while i < all.len()
        invariant
            i <= all.len(),
            views == plans::plan_views(all@),
            wanted == (|plan: plans::PlanView| !plans::is_default(plan)),
            plans::plan_views(r@) == views.take(i as int).filter(wanted),
        decreases all.len() - i,
    {
        let ghost before = r@;
        if !is_default_windows_plan(&all[i]) {
            r.push(all[i].clone());
            assert(plans::plan_views(r@) =~= plans::plan_views(before).push(all[i as int]@));
        }
        i = i + 1;
        proof {
            reveal(Seq::filter);
            assert(views.take(i as int).drop_last() == views.take(i - 1));
            assert(views.take(i as int).last() == all[i - 1]@);
        }
    }
    assert(views.take(i as int) == views);
    r
}

/// The start of a restoration: the backup folder is created.
pub fn restore_windows_defaults_preserving_custom_plans(
    all: &[PowerPlan],
    active: Option<String>,
) -> (r: (Action, RestoreTask))
    ensures
        restore_start(plans::plan_views(all@), plans::option_view(active)) == RestoreStepView::Ask(
            r.0@,
            r.1@,
        ),
        r.1@.wf(),
{
    (
        Action::CreateBackupFolder,
        RestoreTask {
            active,
            custom: custom_power_plans(all),
            folder: String::new(),
            stage: RestoreStage::CreatingFolder,
        },
    )
}

/// The report on the backup of the plans of the user.
pub fn export_custom_power_plans(custom: &Vec<PowerPlan>, exports: &Vec<Outcome>) -> (r: Outcome)
    requires
        exports.len() == custom.len(),
    ensures
        outcomes::outcome_view(r) == backup_report(
            plans::plan_views(custom@),
            outcomes::outcome_views(exports@),
        ),
{
    let names = names_of_plans(custom);
    let failed = failure_texts(&names, exports);
    assert(text::views(failed@).len() == failed.len());
    if failed.len() == 0 {
        Ok(())
    } else {
        Err(
            "Could not back up custom power plans, so Windows defaults were not restored\n".to_owned().concat(
            text::join(&failed, "\n").as_str()),
        )
    }
}

/// The names of some plans.
pub fn names_of_plans(all: &Vec<PowerPlan>) -> (r: Vec<String>)
    ensures
        text::views(r@) == plan_names(plans::plan_views(all@)),
        r.len() == all.len(),
{
    let mut r: Vec<String> = Vec::new();
    let mut i: usize = 0;
    while i < all.len()
        invariant
            i <= all.len(),
            r.len() == i,
            forall|k: int| 0 <= k < i ==> (#[trigger] r[k])@ == all[k]@.name,
        decreases all.len() - i,
    {
        r.push(all[i].name.clone());
        i = i + 1;
    }
    assert(text::views(r@) =~= plan_names(plans::plan_views(all@)));
    r
}

/// How the import of each plan is named in the report.
fn labels_of_imports(custom: &Vec<PowerPlan>) -> (r: Vec<String>)
    ensures
        text::views(r@) == import_labels(plans::plan_views(custom@)),
        r.len() == custom.len(),
{
    let mut r: Vec<String> = Vec::new();
    let mut i: usize = 0;
    while i < custom.len()
        invariant
            i <= custom.len(),
            r.len() == i,
            forall|k: int|
                0 <= k < i ==> (#[trigger] r[k])@ == "Could not re-import custom plan "@
                    + custom[k]@.guid,
        decreases custom.len() - i,
    {
        r.push(
            "Could not re-import custom plan ".to_owned().concat(custom[i].guid.as_str()),
        );
        i = i + 1;
    }
    assert(text::views(r@) =~= import_labels(plans::plan_views(custom@)));
    r
}

/// The report of a restoration in which Windows restored nothing.
pub fn restore_default_power_schemes(
    first_error: &str,
    second_error: &str,
    folder: &str,
) -> (r: String)
    ensures
        r@ == reset_failure(first_error@, second_error@, folder@),
{
    "Could not restore Windows default power plans\n".to_owned().concat(first_error).concat(
        "\n",
    ).concat(second_error).concat("\nCustom-plan backups were kept in ").concat(folder)
}

impl RestoreTask {
    /// What comes next once it is known what became of the first exports.
    fn export_further(self, exports: Vec<Outcome>) -> (r: RestoreStep)
        requires
            exports.len() <= self.custom.len(),
        ensures
            r@ == export_on(self@, outcomes::outcome_views(exports@)),
            r@.wf(),
    {
        let RestoreTask { active, custom, folder, stage: _ } = self;
        if exports.len() < custom.len() {
            let guid = custom[exports.len()].guid.as_str();
            let order = export_power_plan(guid, Arg::InBackupFolder(backup_file_name(guid)));
            let stage = RestoreStage::Exporting { exports };
            return RestoreStep::Ask(
                Action::Run(order),
                RestoreTask { active, custom, folder, stage },
            );
        }
        match export_custom_power_plans(&custom, &exports) {
            Ok(_) => RestoreStep::Ask(
                Action::Run(restore_order("-restoredefaultschemes")),
                RestoreTask { active, custom, folder, stage: RestoreStage::Restoring },
            ),
            Err(error) => RestoreStep::Ask(
                Action::RemoveBackupFolder,
                RestoreTask {
                    active,
                    custom,
                    folder,
                    stage: RestoreStage::DroppingFolder { error },
                },
            ),
        }
    }

    /// What comes next once it is known what became of the first imports.
    fn import_further(self, imports: Vec<Outcome>) -> (r: RestoreStep)
        requires
            imports.len() <= self.custom.len(),
        ensures
            r@ == import_on(self@, outcomes::outcome_views(imports@)),
            r@.wf(),
    {
        let RestoreTask { active, custom, folder, stage: _ } = self;
        if imports.len() < custom.len() {
            let guid = custom[imports.len()].guid.as_str();
            let order = import_power_plan_with_guid(
                Arg::InBackupFolder(backup_file_name(guid)),
                guid,
            );
            let stage = RestoreStage::Importing { imports };
            RestoreStep::Ask(Action::Run(order), RestoreTask { active, custom, folder, stage })
        } else {
            let (question, reading) = load_power_plans();
            let stage = RestoreStage::Loading { imports, reading };
            RestoreStep::Ask(Action::Run(question), RestoreTask { active, custom, folder, stage })
        }
    }

    /// What comes next in the duplication of the default plans that are still missing.
    fn enable_further(self, imports: Vec<Outcome>, step: DuplicateStep) -> (r: RestoreStep)
        requires
            imports.len() == self.custom.len(),
            step@.wf(),
        ensures
            r@ == enable_on(self@, outcomes::outcome_views(imports@), step@),
            r@.wf(),
    {
        match step {
            DuplicateStep::Ask(command, duplication) => {
                let RestoreTask { active, custom, folder, stage: _ } = self;
                let stage = RestoreStage::Enabling { imports, duplication };
                RestoreStep::Ask(
                    Action::Run(command),
                    RestoreTask { active, custom, folder, stage },
                )
            },
            DuplicateStep::Done(defaults, results) => {
                let names = names_of_defaults(&defaults);
                let later = failure_texts(&names, &results);
                let enabled = labels_of_successes(&names, &results);
                self.activate_further(imports, later, enabled)
            },
        }
    }

    /// What comes next in the reading of the list after the imports.
    fn load_further(self, imports: Vec<Outcome>, step: LoadStep) -> (r: RestoreStep)
        requires
            imports.len() == self.custom.len(),
            step@.wf(),
        ensures
            r@ == load_on(self@, outcomes::outcome_views(imports@), step@),
            r@.wf(),
    {
        match step {
            LoadStep::Ask(command, reading) => {
                let RestoreTask { active, custom, folder, stage: _ } = self;
                let stage = RestoreStage::Loading { imports, reading };
                RestoreStep::Ask(
                    Action::Run(command),
                    RestoreTask { active, custom, folder, stage },
                )
            },
            LoadStep::Done(Ok(current)) => {
                let missing = missing_default_power_plans(current.as_slice());
                self.enable_further(imports, duplicate_defaults(missing))
            },
            LoadStep::Done(Err(error)) => {
                let complaint =
                    "Windows defaults were restored, but the refreshed plan list could not be read: ".to_owned().concat(
                error.as_str());
                let later: Vec<String> = vec![complaint];
                let enabled: Vec<String> = Vec::new();
                assert(text::views(later@) =~= seq![complaint@]);
                assert(text::views(enabled@) =~= Seq::empty());
                self.activate_further(imports, later, enabled)
            },
        }
    }

    /// What comes next once the default plans are back.
    fn activate_further(
        self,
        imports: Vec<Outcome>,
        later: Vec<String>,
        enabled: Vec<String>,
    ) -> (r: RestoreStep)
        requires
            imports.len() == self.custom.len(),
        ensures
            r@ == activate_on(
                self@,
                outcomes::outcome_views(imports@),
                text::views(later@),
                text::views(enabled@),
            ),
            r@.wf(),
    {
        let order = match &self.active {
            Some(guid) => Some(set_active_plan(guid.as_str())),
            None => None,
        };
        match order {
            Some(order) => {
                let RestoreTask { active, custom, folder, stage: _ } = self;
                let stage = RestoreStage::Activating { imports, later, enabled };
                RestoreStep::Ask(Action::Run(order), RestoreTask { active, custom, folder, stage })
            },
            None => self.finish(imports, later, enabled),
        }
    }

    /// The end of a restoration.
    fn finish(self, imports: Vec<Outcome>, later: Vec<String>, enabled: Vec<String>) -> (r:
        RestoreStep)
        requires
            imports.len() == self.custom.len(),
        ensures
            r@ == conclude(
                self@,
                outcomes::outcome_views(imports@),
                text::views(later@),
                text::views(enabled@),
            ),
            r@.wf(),
    {
        let mut failed = failure_texts(&labels_of_imports(&self.custom), &imports);
        let ghost before = failed@;
        let ghost more = later@;
        let mut later = later;
        failed.append(&mut later);
        assert(text::views(failed@) =~= text::views(before) + text::views(more));
        assert(text::views(failed@).len() == failed.len());
        let count = text::decimal_of(count_successes(&imports));
        if failed.len() == 0 {
            let mut message =
                "Restored default Windows power plans and preserved ".to_owned().concat(
                count.as_str(),
            ).concat(" custom plan(s)");
            assert(text::views(enabled@).len() == enabled.len());
            if enabled.len() > 0 {
                message =
                message.concat("; enabled ").concat(text::join(&enabled, ", ").as_str());
            }
            let RestoreTask { active, custom, folder, stage: _ } = self;
            RestoreStep::Ask(
                Action::RemoveBackupFolder,
                RestoreTask {
                    active,
                    custom,
                    folder,
                    stage: RestoreStage::Finishing { message },
                },
            )
        } else {
            let report = "Restored Windows defaults and re-imported ".to_owned().concat(
                count.as_str(),
            ).concat(" custom plan(s), but ").concat(
                text::decimal_of(failed.len()).as_str(),
            ).concat(" step(s) failed\n").concat(text::join(&failed, "\n").as_str()).concat(
                "\nCustom-plan backups were kept in ",
            ).concat(self.folder.as_str());
            RestoreStep::Done(Err(report))
        }
    }

    /// Goes on with the restoration.
    pub fn resume(self, answer: Answer) -> (r: RestoreStep)
        requires
            self@.wf(),
        ensures
            r@ == restore_next(self@, outcomes::answer_view(answer)),
            r@.wf(),
            answer_known(self@, outcomes::answer_view(answer)),
    {
        let RestoreTask { active, custom, folder, stage } = self;
        match stage {
            RestoreStage::CreatingFolder => match answer {
                Ok(path) => {
                    let exports: Vec<Outcome> = Vec::new();
                    assert(outcomes::outcome_views(exports@) =~= Seq::empty());
                    RestoreTask {
                        active,
                        custom,
                        folder: path,
                        stage: RestoreStage::CreatingFolder,
                    }.export_further(exports)
                },
                Err(error) => RestoreStep::Done(
                    Err(
                        "Could not create temporary backup folder: ".to_owned().concat(
                            error.as_str(),
                        ),
                    ),
                ),
            },
            RestoreStage::Exporting { exports } => {
                let mut exports = exports;
                let ghost before = exports@;
                exports.push(outcome_from(answer));
                assert(outcomes::outcome_views(exports@) =~= outcomes::outcome_views(before).push(
                    outcomes::outcome_of(outcomes::answer_view(answer)),
                ));
                RestoreTask {
                    active,
                    custom,
                    folder,
                    stage: RestoreStage::Restoring,
                }.export_further(exports)
            },
            RestoreStage::DroppingFolder { error } => RestoreStep::Done(Err(error)),
            RestoreStage::Restoring => match answer {
                Ok(_) => {
                    let imports: Vec<Outcome> = Vec::new();
                    assert(outcomes::outcome_views(imports@) =~= Seq::empty());
                    RestoreTask {
                        active,
                        custom,
                        folder,
                        stage: RestoreStage::Restoring,
                    }.import_further(imports)
                },
                Err(first_error) => RestoreStep::Ask(
                    Action::Run(restore_order("/restoredefaultschemes")),
                    RestoreTask {
                        active,
                        custom,
                        folder,
                        stage: RestoreStage::RestoringAgain { first_error },
                    },
                ),
            },
            RestoreStage::RestoringAgain { first_error } => match answer {
                Ok(_) => {
                    let imports: Vec<Outcome> = Vec::new();
                    assert(outcomes::outcome_views(imports@) =~= Seq::empty());
                    RestoreTask {
                        active,
                        custom,
                        folder,
                        stage: RestoreStage::Restoring,
                    }.import_further(imports)
                },
                Err(second_error) => RestoreStep::Done(
                    Err(
                        restore_default_power_schemes(
                            first_error.as_str(),
                            second_error.as_str(),
                            folder.as_str(),
                        ),
                    ),
                ),
            },
            RestoreStage::Importing { imports } => {
                let mut imports = imports;
                let ghost before = imports@;
                imports.push(outcome_from(answer));
                assert(outcomes::outcome_views(imports@) =~= outcomes::outcome_views(before).push(
                    outcomes::outcome_of(outcomes::answer_view(answer)),
                ));
                RestoreTask {
                    active,
                    custom,
                    folder,
                    stage: RestoreStage::Restoring,
                }.import_further(imports)
            },
            RestoreStage::Loading { imports, reading } => {
                let step = reading.resume(answer);
                RestoreTask {
                    active,
                    custom,
                    folder,
                    stage: RestoreStage::Restoring,
                }.load_further(imports, step)
            },
            RestoreStage::Enabling { imports, duplication } => {
                let step = duplication.resume(answer);
                RestoreTask {
                    active,
                    custom,
                    folder,
                    stage: RestoreStage::Restoring,
                }.enable_further(imports, step)
            },
            RestoreStage::Activating { imports, later, enabled } => {
                let mut later = later;
                let ghost before = later@;
                if let Err(error) = answer {
                    let complaint = "Could not reactivate previous active plan: ".to_owned().concat(
                        error.as_str(),
                    );
                    later.push(complaint);
                    assert(text::views(later@) =~= text::views(before).push(complaint@));
                }
                RestoreTask {
                    active,
                    custom,
                    folder,
                    stage: RestoreStage::Restoring,
                }.finish(imports, later, enabled)
            },
            RestoreStage::Finishing { message } => RestoreStep::Done(Ok(message)),
        }
    }
}

} // verus!
