//! The window of the power plan manager: its state and its operations.
//!
//! An operation changes the state and may ask for something to be done. Whoever draws the window
//! does it and hands the answer to [`PowerPlanApp::resume`].
use vstd::prelude::*;

use crate::actions::Action;
use crate::commands;
use crate::commands::{
    delete_power_plan, duplicate_power_plan, export_power_plan, import_power_plan,
    set_active_plan, update_power_plan_metadata, Arg, CommandLine, YOUTUBE_CHANNEL_URL,
};
use crate::duplicates;
use crate::duplicates::{
    duplicate_defaults, enable_missing_duplicate_templates, DuplicateStep,
};
use crate::file_names;
use crate::file_names::{export_file_name, sanitize_file_stem};
use crate::fpsheaven;
use crate::fpsheaven::FpsheavenImportResult;
use crate::guid;
use crate::guid::parse_guid;
use crate::load;
use crate::load::{load_power_plans, LoadStep};
use crate::model;
use crate::model::{
    DetailsControls, ToolbarControls, ACTIVATE_ANOTHER_FIRST, FPSHEAVEN_IMPORT_BUSY_MESSAGE,
    SELECT_FIRST,
};
use crate::outcomes;
use crate::outcomes::{count_successes, failure_texts, outcome_from, Answer, Outcome};
use crate::plans;
use crate::plans::{
    clone_plans, is_default_windows_plan, missing_default_power_plans, FpsheavenPowerPlanKind,
    PowerPlan,
};
use crate::restore;
use crate::restore::{
    names_of_plans, restore_windows_defaults_preserving_custom_plans, RestoreStep,
};
use crate::status;
use crate::status::StatusMessage;
use crate::steps;
use crate::steps::{AfterLoad, Choice, Dialog, Step, Task};
use crate::text;

verus! {

/// The window.
#[derive(Debug)]
pub struct PowerPlanApp {
    /// The plans in the list.
    pub plans: Vec<PowerPlan>,
    /// The GUID of the selected plan.
    pub selected_guid: Option<String>,
    /// The text in the field for the name.
    pub rename_text: String,
    /// The text in the field for the description.
    pub description_text: String,
    /// The plan that is deleted once that is confirmed.
    pub pending_delete_guid: Option<String>,
    /// Whether the dialog for an import is open.
    pub pending_fpsheaven_import: bool,
    /// Why a restoration is needed, while that is to be confirmed.
    pub pending_default_reset_error: Option<String>,
    /// The kind of plan that is being imported in the background.
    pub fpsheaven_import_job: Option<FpsheavenPowerPlanKind>,
    /// The status line.
    pub status: StatusMessage,
}

impl View for PowerPlanApp {
    type V = model::AppView;

    open spec fn view(&self) -> model::AppView {
        model::AppView {
            plans: plans::plan_views(self.plans@),
            selected_guid: plans::option_view(self.selected_guid),
            rename_text: self.rename_text@,
            description_text: self.description_text@,
            pending_delete_guid: plans::option_view(self.pending_delete_guid),
            pending_fpsheaven_import: self.pending_fpsheaven_import,
            pending_default_reset_error: plans::option_view(self.pending_default_reset_error),
            fpsheaven_import_job: self.fpsheaven_import_job,
            status: self.status@,
        }
    }
}

/// What a look at the import in the background found.
#[derive(Debug)]
pub enum Poll {
    /// It has come to an end.
    Finished(Result<FpsheavenImportResult, String>),
    /// It still runs.
    Pending,
    /// It stopped without a result.
    Stopped,
}

impl View for Poll {
    type V = model::PollView;

    open spec fn view(&self) -> model::PollView {
        match self {
            Poll::Finished(result) => model::PollView::Finished(fpsheaven::imported_view(*result)),
            Poll::Pending => model::PollView::Pending,
            Poll::Stopped => model::PollView::Stopped,
        }
    }
}

/// The place of the plan with the given GUID.
fn position_of(all: &Vec<PowerPlan>, guid: &str) -> (r: Option<usize>)
    ensures
        match (r, model::find_plan(plans::plan_views(all@), guid@)) {
            (Some(found), Some(at)) => found == at && found < all.len(),
            (None, None) => true,
            _ => false,
        },
{
    let ghost views = plans::plan_views(all@);
    let ghost hit = |plan: plans::PlanView| plan.guid == guid@;
    proof {
        plans::lemma_first_where(views, hit);
    }
    let mut i: usize = 0;
    while i < all.len()
        invariant
            i <= all.len(),
            views == plans::plan_views(all@),
            hit == (|plan: plans::PlanView| plan.guid == guid@),
            forall|k: int| 0 <= k < i ==> !hit(#[trigger] views[k]),
        decreases all.len() - i,
    {
        assert(views[i as int] == all[i as int]@);
        if text::same(all[i].guid.as_str(), guid) {
            proof {
                plans::lemma_first_where(views, hit);
                assert(hit(views[i as int]));
            }
            return Some(i);
        }
        i = i + 1;
    }
    None
}

/// The GUID of the plan in force.
fn guid_in_force(all: &Vec<PowerPlan>) -> (r: Option<String>)
    ensures
        plans::option_view(r) == model::active_guid(plans::plan_views(all@)),
{
    let ghost views = plans::plan_views(all@);
    let ghost hit = |plan: plans::PlanView| plan.active;
    proof {
        plans::lemma_first_where(views, hit);
    }
    let mut i: usize = 0;
    while i < all.len()
        invariant
            i <= all.len(),
            views == plans::plan_views(all@),
            hit == (|plan: plans::PlanView| plan.active),
            forall|k: int| 0 <= k < i ==> !hit(#[trigger] views[k]),
        decreases all.len() - i,
    {
        assert(views[i as int] == all[i as int]@);
        if all[i].active {
            proof {
                plans::lemma_first_where(views, hit);
                assert(hit(views[i as int]));
            }
            return Some(all[i].guid.clone());
        }
        i = i + 1;
    }
    None
}

/// Whether one of the plans is none of Windows.
fn holds_custom(all: &Vec<PowerPlan>) -> (r: bool)
    ensures
        r == model::has_custom(plans::plan_views(all@)),
{
    let ghost views = plans::plan_views(all@);
    let mut i: usize = 0;
    while i < all.len()
        invariant
            i <= all.len(),
            views == plans::plan_views(all@),
            forall|k: int| 0 <= k < i ==> plans::is_default(#[trigger] views[k]),
        decreases all.len() - i,
    {
        assert(views[i as int] == all[i as int]@);
        if !is_default_windows_plan(&all[i]) {
            return true;
        }
        i = i + 1;
    }
    false
}

/// A name in quotation marks behind some words.
fn naming(words: &str, name: &str) -> (r: String)
    ensures
        r@ == words@ + name@ + "\""@,
{
    words.to_owned().concat(name).concat("\"")
}

/// The report on the import of some files.
pub fn status_of_imports(files: &Vec<String>, imports: &Vec<Outcome>) -> (r: StatusMessage)
    requires
        imports.len() == files.len(),
    ensures
        r@ == model::imported_status(text::views(files@), outcomes::outcome_views(imports@)),
{
    let failures = failure_texts(files, imports);
    let count = "Imported ".to_owned().concat(
        text::decimal_of(count_successes(imports)).as_str(),
    );
    assert(text::views(failures@).len() == failures.len());
    if failures.len() == 0 {
        StatusMessage::success(count.concat(" power plan(s) successfully"))
    } else {
        StatusMessage::error(
            count.concat(" power plan(s); ").concat(
                text::decimal_of(failures.len()).as_str(),
            ).concat(" failed\n").concat(text::join(&failures, "\n").as_str()),
        )
    }
}

/// The report on the export of some plans.
pub fn status_of_exports(all: &Vec<PowerPlan>, folder: &str, exports: &Vec<Outcome>) -> (r:
    StatusMessage)
    requires
        exports.len() == all.len(),
    ensures
        r@ == model::exported_status(
            plans::plan_views(all@),
            folder@,
            outcomes::outcome_views(exports@),
        ),
{
    let names = names_of_plans(all);
    let failures = failure_texts(&names, exports);
    let count = "Exported ".to_owned().concat(
        text::decimal_of(count_successes(exports)).as_str(),
    );
    assert(text::views(failures@).len() == failures.len());
    if failures.len() == 0 {
        StatusMessage::success(count.concat(" power plan(s) to ").concat(folder))
    } else {
        StatusMessage::error(
            count.concat(" power plan(s); ").concat(
                text::decimal_of(failures.len()).as_str(),
            ).concat(" failed\n").concat(text::join(&failures, "\n").as_str()),
        )
    }
}

/// The report on an import of a FPSHEAVEN plan.
fn message_of_import(kind: FpsheavenPowerPlanKind, imported: &FpsheavenImportResult) -> (r: String)
    ensures
        r@ == model::import_message(kind, imported@),
{
    let message = "Imported and activated FPSHEAVEN ".to_owned().concat(kind.label()).concat(
        " power plan from ",
    ).concat(imported.plan_path.as_str());
    match &imported.replaced_active_plan_name {
        Some(name) => message.concat("; replaced \"").concat(name.as_str()).concat("\""),
        None => message,
    }
}

/// A command to run.
fn run(command: CommandLine, task: Task) -> (r: Step)
    ensures
        r@ == steps::StepView::Ask(crate::actions::ActionView::Run(command@), task@),
{
    Step::Ask(Action::Run(command), task)
}

/// The list to be read anew.
fn read_list(then_do: AfterLoad) -> (r: Step)
    ensures
        r@ == steps::StepView::Ask(
            crate::actions::ActionView::Run(commands::active_command()),
            steps::TaskView::Load(load::LoadView::AskedActive, then_do@),
        ),
        r@.wf(),
{
    let (question, reading) = load_power_plans();
    run(question, Task::Load { reading, then_do })
}

impl PowerPlanApp {
    /// The window as it opens: the list is read at once.
    pub fn new() -> (r: (Self, Step))
        ensures
            r.0@ == (model::AppView {
                plans: Seq::empty(),
                selected_guid: None,
                rename_text: Seq::empty(),
                description_text: Seq::empty(),
                pending_delete_guid: None,
                pending_fpsheaven_import: false,
                pending_default_reset_error: None,
                fpsheaven_import_job: None,
                status: status::news("Ready"@),
            }),
            (r.0@, r.1@) == r.0@.refresh("Loaded power plans"@),
            r.1@.wf(),
    {
        let mut app = PowerPlanApp {
            plans: Vec::new(),
            selected_guid: None,
            rename_text: String::new(),
            description_text: String::new(),
            pending_delete_guid: None,
            pending_fpsheaven_import: false,
            pending_default_reset_error: None,
            fpsheaven_import_job: None,
            status: StatusMessage::info("Ready".to_owned()),
        };
        assert(app@.plans =~= Seq::empty());
        let step = app.reload_with_status("Loaded power plans".to_owned());
        (app, step)
    }

    /// Takes over a list that was read; without one nothing changes.
    pub fn reload(&mut self, loaded: Result<Vec<PowerPlan>, String>) -> (r: Result<(), String>)
        ensures
            final(self)@ == old(self)@.reloaded(load::loaded_view(loaded)),
            match (r, loaded) {
                (Ok(_), Ok(_)) => true,
                (Err(error), Err(reason)) => error@ == reason@,
                _ => false,
            },
    {
        match loaded {
            Ok(all) => {
                let kept = match &self.selected_guid {
                    Some(guid) => position_of(&all, guid.as_str()).is_some(),
                    None => false,
                };
                if !kept {
                    let in_force = guid_in_force(&all);
                    if in_force.is_some() {
                        self.selected_guid = in_force;
                    } else if all.len() > 0 {
                        self.selected_guid = Some(all[0].guid.clone());
                    } else {
                        self.selected_guid = None;
                    }
                }
                self.plans = all;
                self.sync_rename_text();
                Ok(())
            },
            Err(error) => Err(error),
        }
    }

    /// Reads the list anew and says so.
    pub fn reload_with_status(&mut self, success_message: String) -> (r: Step)
        ensures
            (final(self)@, r@) == old(self)@.refresh(success_message@),
            r@.wf(),
    {
        if self.block_if_fpsheaven_import_running() {
            return Step::Done;
        }
        read_list(AfterLoad::Report(success_message))
    }

    /// The selected plan.
    pub fn selected_plan(&self) -> (r: Option<&PowerPlan>)
        ensures
            match (r, self@.selected()) {
                (Some(plan), Some(selected)) => plan@ == selected,
                (None, None) => true,
                _ => false,
            },
    {
        match &self.selected_guid {
            Some(guid) => match position_of(&self.plans, guid.as_str()) {
                Some(at) => Some(&self.plans[at]),
                None => None,
            },
            None => None,
        }
    }

    /// Selects a plan.
    pub fn select_plan(&mut self, guid: String)
        ensures
            final(self)@ == old(self)@.selecting(guid@),
    {
        self.selected_guid = Some(guid);
        self.sync_rename_text();
    }

    /// Whether an import runs in the background.
    pub fn fpsheaven_import_running(&self) -> (r: bool)
        ensures
            r == self@.importing(),
    {
        self.fpsheaven_import_job.is_some()
    }

    /// Whether an import runs in the background; if so the status line says it.
    pub fn block_if_fpsheaven_import_running(&mut self) -> (r: bool)
        ensures
            r == old(self)@.importing(),
            final(self)@ == if r {
                old(self)@.busy().0
            } else {
                old(self)@
            },
    {
        if self.fpsheaven_import_running() {
            self.status = StatusMessage::info(FPSHEAVEN_IMPORT_BUSY_MESSAGE.to_owned());
            true
        } else {
            false
        }
    }

    /// Puts the selected plan's name and description into the fields for them.
    pub fn sync_rename_text(&mut self)
        ensures
            final(self)@ == old(self)@.synced(),
    {
        let (name, description) = match self.selected_plan() {
            Some(plan) => (plan.name.clone(), plan.description.clone()),
            None => (String::new(), String::new()),
        };
        self.rename_text = name;
        self.description_text = description;
    }

    /// Shows an error.
    fn refuse(&mut self, reason: String) -> (r: Step)
        ensures
            (final(self)@, r@) == old(self)@.refusing(reason@),
    {
        self.status = StatusMessage::error(reason);
        Step::Done
    }

    /// Imports plans from files: they are chosen first.
    pub fn import_plans(&mut self) -> (r: Step)
        ensures
            (final(self)@, r@) == old(self)@.import(),
            r@.wf(),
    {
        if self.block_if_fpsheaven_import_running() {
            return Step::Done;
        }
        Step::Choose(Dialog::OpenFiles("Import power plan"), Choice::Import)
    }

    /// Exports the selected plan to a file, which is chosen first.
    pub fn export_selected_plan(&mut self) -> (r: Step)
        ensures
            (final(self)@, r@) == old(self)@.export(),
            r@.wf(),
    {
        if self.block_if_fpsheaven_import_running() {
            return Step::Done;
        }
        match self.selected_plan() {
            Some(plan) => Step::Choose(
                Dialog::SaveFile(
                    "Export power plan",
                    sanitize_file_stem(plan.name.as_str()).concat(".pow"),
                ),
                Choice::Export { guid: plan.guid.clone(), name: plan.name.clone() },
            ),
            None => self.refuse(SELECT_FIRST.to_owned()),
        }
    }

    /// Exports all plans to a folder, which is chosen first.
    pub fn export_all_plans(&mut self) -> (r: Step)
        ensures
            (final(self)@, r@) == old(self)@.export_all(),
            r@.wf(),
    {
        if self.block_if_fpsheaven_import_running() {
            return Step::Done;
        }
        if self.plans.len() == 0 {
            return self.refuse("No power plans to export".to_owned());
        }
        Step::Choose(
            Dialog::Folder("Choose export folder"),
            Choice::ExportAll { plans: clone_plans(&self.plans) },
        )
    }

    /// Puts the selected plan in force.
    pub fn activate_selected_plan(&mut self) -> (r: Step)
        ensures
            (final(self)@, r@) == old(self)@.activate(),
            r@.wf(),
    {
        if self.block_if_fpsheaven_import_running() {
            return Step::Done;
        }
        match self.selected_plan() {
            Some(plan) => run(
                set_active_plan(plan.guid.as_str()),
                Task::Activate { name: plan.name.clone() },
            ),
            None => self.refuse(SELECT_FIRST.to_owned()),
        }
    }

    /// Duplicates the selected plan.
    pub fn duplicate_selected_plan(&mut self) -> (r: Step)
        ensures
            (final(self)@, r@) == old(self)@.duplicate(),
            r@.wf(),
    {
        if self.block_if_fpsheaven_import_running() {
            return Step::Done;
        }
        match self.selected_plan() {
            Some(plan) => run(
                duplicate_power_plan(plan.guid.as_str()),
                Task::Duplicate { name: plan.name.clone() },
            ),
            None => self.refuse(SELECT_FIRST.to_owned()),
        }
    }

    /// Gives the selected plan the name and the description in the fields.
    pub fn save_selected_plan_metadata(&mut self) -> (r: Step)
        ensures
            (final(self)@, r@) == old(self)@.save(),
            r@.wf(),
    {
        if self.block_if_fpsheaven_import_running() {
            return Step::Done;
        }
        let plan = match self.selected_plan() {
            Some(plan) => plan.clone(),
            None => {
                return self.refuse(SELECT_FIRST.to_owned());
            },
        };
        let new_name = text::trim(self.rename_text.as_str());
        if new_name.as_str().is_empty() {
            return self.refuse("Plan name cannot be empty".to_owned());
        }
        let new_description = text::trim(self.description_text.as_str());
        let description = if text::same(new_description.as_str(), plan.description.as_str()) {
            None
        } else {
            Some(new_description.as_str())
        };
        run(
            update_power_plan_metadata(plan.guid.as_str(), new_name.as_str(), description),
            Task::Rename { name: plan.name },
        )
    }

    /// Asks whether the selected plan is to be deleted.
    pub fn delete_selected_plan(&mut self)
        ensures
            final(self)@ == old(self)@.ask_delete(),
    {
        if self.block_if_fpsheaven_import_running() {
            return;
        }
        let found = match self.selected_plan() {
            Some(plan) => Some((plan.guid.clone(), plan.active)),
            None => None,
        };
        match found {
            Some((guid, active)) => {
                if active {
                    self.status = StatusMessage::error(ACTIVATE_ANOTHER_FIRST.to_owned());
                } else {
                    self.pending_delete_guid = Some(guid);
                }
            },
            None => {
                self.status = StatusMessage::error(SELECT_FIRST.to_owned());
            },
        }
    }

    /// Deletes a plan.
    pub fn delete_plan(&mut self, guid: &str) -> (r: Step)
        ensures
            (final(self)@, r@) == old(self)@.delete(guid@),
            r@.wf(),
    {
        if self.block_if_fpsheaven_import_running() {
            return Step::Done;
        }
        match position_of(&self.plans, guid) {
            Some(at) => {
                if self.plans[at].active {
                    return self.refuse(ACTIVATE_ANOTHER_FIRST.to_owned());
                }
                run(
                    delete_power_plan(self.plans[at].guid.as_str()),
                    Task::Delete { name: self.plans[at].name.clone() },
                )
            },
            None => self.refuse("Power plan no longer exists".to_owned()),
        }
    }

    /// Puts the selected plan in force and opens its settings.
    pub fn open_windows_editor(&mut self) -> (r: Step)
        ensures
            (final(self)@, r@) == old(self)@.edit(),
            r@.wf(),
    {
        if self.block_if_fpsheaven_import_running() {
            return Step::Done;
        }
        match self.selected_plan() {
            Some(plan) => run(
                set_active_plan(plan.guid.as_str()),
                Task::ActivateToEdit { name: plan.name.clone() },
            ),
            None => self.refuse(SELECT_FIRST.to_owned()),
        }
    }

    /// Opens the page of the channel.
    pub fn open_youtube_channel(&self) -> (r: Step)
        ensures
            (self@, r@) == self@.open_channel(),
            r@.wf(),
    {
        Step::Ask(Action::OpenPage(YOUTUBE_CHANNEL_URL), Task::OpenPage)
    }

    /// What comes next in a restoration.
    fn restore_further(&mut self, step: RestoreStep) -> (r: Step)
        requires
            step@.wf(),
        ensures
            (final(self)@, r@) == old(self)@.restore_on(step@),
            r@.wf(),
    {
        match step {
            RestoreStep::Ask(action, restoration) => Step::Ask(
                action,
                Task::Restore { restoration },
            ),
            RestoreStep::Done(Ok(message)) => read_list(
                AfterLoad::Show(StatusMessage::success(message)),
            ),
            RestoreStep::Done(Err(error)) => read_list(
                AfterLoad::Show(StatusMessage::error(error)),
            ),
        }
    }

    /// Restores the plans of Windows.
    fn restore(&mut self) -> (r: Step)
        ensures
            (final(self)@, r@) == old(self)@.restoring(),
            r@.wf(),
    {
        let active = guid_in_force(&self.plans);
        let (action, task) = restore_windows_defaults_preserving_custom_plans(
            self.plans.as_slice(),
            active,
        );
        self.restore_further(RestoreStep::Ask(action, task))
    }

    /// What comes next while missing default plans are brought back.
    fn enable_further(&mut self, step: DuplicateStep) -> (r: Step)
        requires
            step@.wf(),
        ensures
            (final(self)@, r@) == old(self)@.enable_on(step@),
            r@.wf(),
    {
        match step {
            DuplicateStep::Ask(command, duplication) => run(command, Task::Enable { duplication }),
            DuplicateStep::Done(defaults, results) => {
                match enable_missing_duplicate_templates(&defaults, &results) {
                    Ok(message) => read_list(AfterLoad::Show(StatusMessage::success(message))),
                    Err(error) => {
                        if holds_custom(&self.plans) {
                            self.pending_default_reset_error = Some(error);
                            self.status =
                            StatusMessage::info(
                                "A full Windows power plan reset is required to restore those defaults".to_owned(),
                            );
                            Step::Done
                        } else {
                            self.restore()
                        }
                    },
                }
            },
        }
    }

    /// Brings back missing default plans.
    pub fn enable_default_windows_plans(&mut self) -> (r: Step)
        ensures
            (final(self)@, r@) == old(self)@.enable_defaults(),
            r@.wf(),
    {
        if self.block_if_fpsheaven_import_running() {
            return Step::Done;
        }
        let missing = missing_default_power_plans(self.plans.as_slice());
        assert(plans::default_views(missing@).len() == missing.len());
        if missing.len() == 0 {
            self.status =
            StatusMessage::info("Default Windows power plans are already available".to_owned());
            return Step::Done;
        }
        self.enable_further(duplicate_defaults(missing))
    }

    /// Restores the plans of Windows after the list was read anew.
    pub fn reset_default_windows_plans_anyway(&mut self) -> (r: Step)
        ensures
            (final(self)@, r@) == old(self)@.reset_anyway(),
            r@.wf(),
    {
        if self.block_if_fpsheaven_import_running() {
            return Step::Done;
        }
        read_list(AfterLoad::Reset)
    }

    /// Starts an import in the background.
    pub fn start_fpsheaven_power_plan_import(&mut self, plan_kind: FpsheavenPowerPlanKind) -> (r:
        Step)
        ensures
            (final(self)@, r@) == old(self)@.start_import(plan_kind),
            r@.wf(),
    {
        if self.fpsheaven_import_job.is_some() {
            self.status =
            StatusMessage::info("FPSHEAVEN power plan import is already running".to_owned());
            return Step::Done;
        }
        self.fpsheaven_import_job = Some(plan_kind);
        self.status =
        StatusMessage::info(
            "Downloading FPSHEAVEN ".to_owned().concat(plan_kind.label()).concat(
                " power plan...",
            ),
        );
        Step::StartImport(plan_kind)
    }

    /// Takes note of what became of the import in the background.
    pub fn poll_fpsheaven_import(&mut self, event: Poll) -> (r: Step)
        ensures
            (final(self)@, r@) == old(self)@.poll(event@),
            r@.wf(),
    {
        match self.fpsheaven_import_job {
            Some(kind) => match event {
                Poll::Finished(result) => {
                    self.fpsheaven_import_job = None;
                    self.finish_fpsheaven_power_plan_import(kind, result)
                },
                Poll::Pending => Step::Wait(200),
                Poll::Stopped => {
                    self.fpsheaven_import_job = None;
                    self.refuse("FPSHEAVEN power plan import stopped unexpectedly".to_owned())
                },
            },
            None => Step::Done,
        }
    }

    /// Takes note of the end of an import.
    pub fn finish_fpsheaven_power_plan_import(
        &mut self,
        plan_kind: FpsheavenPowerPlanKind,
        result: Result<FpsheavenImportResult, String>,
    ) -> (r: Step)
        ensures
            (final(self)@, r@) == old(self)@.finish_import(
                plan_kind,
                fpsheaven::imported_view(result),
            ),
            r@.wf(),
    {
        match result {
            Ok(imported) => {
                let message = message_of_import(plan_kind, &imported);
                read_list(AfterLoad::SelectListed(imported.guid, StatusMessage::success(message)))
            },
            Err(error) => self.refuse(error),
        }
    }

    /// What follows once the list was read anew.
    fn loaded(&mut self, loaded: Result<Vec<PowerPlan>, String>, then_do: AfterLoad) -> (r: Step)
        ensures
            (final(self)@, r@) == old(self)@.after_load(load::loaded_view(loaded), then_do@),
            r@.wf(),
    {
        let result = self.reload(loaded);
        match then_do {
            AfterLoad::Report(message) => match result {
                Ok(_) => {
                    self.status = StatusMessage::success(message);
                    Step::Done
                },
                Err(error) => self.refuse(error),
            },
            AfterLoad::Show(line) => {
                self.status = line;
                Step::Done
            },
            AfterLoad::Select(guid, line) => {
                self.select_plan(guid);
                self.status = line;
                Step::Done
            },
            AfterLoad::SelectListed(guid, line) => {
                if position_of(&self.plans, guid.as_str()).is_some() {
                    self.select_plan(guid);
                }
                self.status = line;
                Step::Done
            },
            AfterLoad::Reset => match result {
                Ok(_) => self.restore(),
                Err(error) => self.refuse(error),
            },
        }
    }

    /// What comes next in the reading of the list.
    fn load_further(&mut self, step: LoadStep, then_do: AfterLoad) -> (r: Step)
        requires
            step@.wf(),
        ensures
            (final(self)@, r@) == old(self)@.load_on(step@, then_do@),
            r@.wf(),
    {
        match step {
            LoadStep::Ask(command, reading) => run(command, Task::Load { reading, then_do }),
            LoadStep::Done(loaded) => self.loaded(loaded, then_do),
        }
    }

    /// What comes next once it is known what became of the first imports.
    fn import_further(&mut self, files: Vec<String>, imports: Vec<Outcome>) -> (r: Step)
        requires
            imports.len() <= files.len(),
        ensures
            (final(self)@, r@) == old(self)@.import_on(
                text::views(files@),
                outcomes::outcome_views(imports@),
            ),
            r@.wf(),
    {
        if imports.len() < files.len() {
            let order = import_power_plan(Arg::Chosen(imports.len()));
            run(order, Task::Import { files, imports })
        } else {
            read_list(AfterLoad::Show(status_of_imports(&files, &imports)))
        }
    }

    /// What comes next once it is known what became of the first exports.
    fn export_further(&mut self, all: Vec<PowerPlan>, folder: String, exports: Vec<Outcome>) -> (r:
        Step)
        requires
            exports.len() <= all.len(),
        ensures
            (final(self)@, r@) == old(self)@.export_on(
                plans::plan_views(all@),
                folder@,
                outcomes::outcome_views(exports@),
            ),
            r@.wf(),
    {
        if exports.len() < all.len() {
            let plan = &all[exports.len()];
            let order = export_power_plan(
                plan.guid.as_str(),
                Arg::InChosenFolder(export_file_name(plan)),
            );
            run(order, Task::ExportAll { plans: all, folder, exports })
        } else {
            self.status = status_of_exports(&all, folder.as_str(), &exports);
            Step::Done
        }
    }

    /// Goes on after a dialog for files. `paths` are the chosen paths as they are shown; there are
    /// none where the dialog was cancelled.
    pub fn resume_choice(&mut self, choice: Choice, paths: Vec<String>) -> (r: Step)
        requires
            choice@.wf(),
        ensures
            (final(self)@, r@) == old(self)@.chosen(choice@, text::views(paths@)),
            r@.wf(),
    {
        assert(text::views(paths@).len() == paths.len());
        if paths.len() == 0 {
            return Step::Done;
        }
        let none_yet: Vec<Outcome> = Vec::new();
        assert(outcomes::outcome_views(none_yet@) =~= Seq::empty());
        match choice {
            Choice::Import => self.import_further(paths, none_yet),
            Choice::Export { guid, name } => run(
                export_power_plan(guid.as_str(), Arg::Chosen(0)),
                Task::Export { name, path: paths[0].clone() },
            ),
            Choice::ExportAll { plans: all } => self.export_further(
                all,
                paths[0].clone(),
                none_yet,
            ),
        }
    }

    /// Goes on with an operation, by the answer to what it asked for last.
    pub fn resume(&mut self, task: Task, answer: Answer) -> (r: Step)
        requires
            task@.wf(),
        ensures
            (final(self)@, r@) == old(self)@.next(task@, outcomes::answer_view(answer)),
            r@.wf(),
            model::answer_known(task@, outcomes::answer_view(answer)),
    {
        match task {
            Task::Load { reading, then_do } => {
                let step = reading.resume(answer);
                self.load_further(step, then_do)
            },
            Task::Import { files, imports } => {
                let mut imports = imports;
                let ghost before = imports@;
                imports.push(outcome_from(answer));
                assert(outcomes::outcome_views(imports@) =~= outcomes::outcome_views(before).push(
                    outcomes::outcome_of(outcomes::answer_view(answer)),
                ));
                self.import_further(files, imports)
            },
            Task::ExportAll { plans: all, folder, exports } => {
                let mut exports = exports;
                let ghost before = exports@;
                exports.push(outcome_from(answer));
                assert(outcomes::outcome_views(exports@) =~= outcomes::outcome_views(before).push(
                    outcomes::outcome_of(outcomes::answer_view(answer)),
                ));
                self.export_further(all, folder, exports)
            },
            Task::Enable { duplication } => {
                let step = duplication.resume(answer);
                self.enable_further(step)
            },
            Task::Restore { restoration } => {
                let step = restoration.resume(answer);
                self.restore_further(step)
            },
            Task::OpenPage => match answer {
                Ok(_) => {
                    self.status = StatusMessage::success("Opened @fpsheaven on YouTube".to_owned());
                    Step::Done
                },
                Err(error) => self.refuse(
                    "Could not open YouTube: ".to_owned().concat(error.as_str()),
                ),
            },
            Task::Edit { name } => match answer {
                Ok(_) => read_list(
                    AfterLoad::Show(
                        StatusMessage::success(
                            naming("Opened Windows editor for \"", name.as_str()),
                        ),
                    ),
                ),
                Err(error) => self.refuse(
                    "Failed to open Windows power options: ".to_owned().concat(error.as_str()),
                ),
            },
            task => match answer {
                Ok(output) => self.carried_out(task, output),
                Err(error) => self.refuse(error),
            },
        }
    }

    /// Goes on with an operation of a single command, which was carried out.
    fn carried_out(&mut self, task: Task, output: String) -> (r: Step)
        requires
            match task {
                Task::Export { .. } => true,
                Task::Activate { .. } => true,
                Task::ActivateToEdit { .. } => true,
                Task::Duplicate { .. } => true,
                Task::Rename { .. } => true,
                Task::Delete { .. } => true,
                _ => false,
            },
        ensures
            (final(self)@, r@) == old(self)@.next(task@, Ok(output@)),
            r@.wf(),
            model::answer_known(task@, Ok(output@)),
    {
        match task {
            Task::Export { name, path } => {
                self.status =
                StatusMessage::success(
                    "Exported \"".to_owned().concat(name.as_str()).concat("\" to ").concat(
                        path.as_str(),
                    ),
                );
                Step::Done
            },
            Task::Activate { name } => read_list(
                AfterLoad::Show(StatusMessage::success(naming("Activated \"", name.as_str()))),
            ),
            Task::ActivateToEdit { name } => Step::Ask(
                Action::OpenPowerOptions,
                Task::Edit { name },
            ),
            Task::Duplicate { name } => {
                let line = StatusMessage::success(naming("Duplicated \"", name.as_str()));
                match parse_guid(output.as_str()) {
                    Some(new_guid) => read_list(AfterLoad::Select(new_guid, line)),
                    None => read_list(AfterLoad::Show(line)),
                }
            },
            Task::Rename { name } => read_list(
                AfterLoad::Show(StatusMessage::success(naming("Updated \"", name.as_str()))),
            ),
            Task::Delete { name } => read_list(
                AfterLoad::Show(StatusMessage::success(naming("Deleted \"", name.as_str()))),
            ),
            _ => Step::Done,
        }
    }

    /// Opens the dialog for an import.
    pub fn open_fpsheaven_import_dialog(&mut self)
        ensures
            final(self)@ == (model::AppView { pending_fpsheaven_import: true, ..old(self)@ }),
    {
        self.pending_fpsheaven_import = true;
    }

    /// Goes on after the dialog for an import.
    pub fn answer_fpsheaven_import_dialog(
        &mut self,
        selected_kind: Option<FpsheavenPowerPlanKind>,
        cancel: bool,
    ) -> (r: Step)
        ensures
            (final(self)@, r@) == old(self)@.import_dialog(selected_kind, cancel),
            r@.wf(),
    {
        if !self.pending_fpsheaven_import {
            return Step::Done;
        }
        match selected_kind {
            Some(kind) => {
                self.pending_fpsheaven_import = false;
                self.start_fpsheaven_power_plan_import(kind)
            },
            None => {
                if cancel {
                    self.pending_fpsheaven_import = false;
                }
                Step::Done
            },
        }
    }

    /// Goes on after the dialog for a restoration.
    pub fn answer_default_reset_dialog(&mut self, reset: bool, cancel: bool) -> (r: Step)
        ensures
            (final(self)@, r@) == old(self)@.reset_dialog(reset, cancel),
            r@.wf(),
    {
        if self.pending_default_reset_error.is_none() {
            return Step::Done;
        }
        if reset {
            self.pending_default_reset_error = None;
            self.reset_default_windows_plans_anyway()
        } else {
            if cancel {
                self.pending_default_reset_error = None;
                self.status = StatusMessage::info("Windows default reset canceled".to_owned());
            }
            Step::Done
        }
    }

    /// Goes on after the dialog for a deletion.
    pub fn answer_delete_dialog(&mut self, confirmed: bool, cancel: bool) -> (r: Step)
        ensures
            (final(self)@, r@) == old(self)@.delete_dialog(confirmed, cancel),
            r@.wf(),
    {
        let guid = match &self.pending_delete_guid {
            Some(guid) => guid.clone(),
            None => {
                return Step::Done;
            },
        };
        if confirmed {
            self.pending_delete_guid = None;
            self.delete_plan(guid.as_str())
        } else {
            if cancel {
                self.pending_delete_guid = None;
            }
            Step::Done
        }
    }

    /// The name in the dialog for a deletion; none where that dialog is closed.
    pub fn delete_dialog_name(&self) -> (r: Option<String>)
        ensures
            plans::option_view(r) == self@.delete_name(),
    {
        match &self.pending_delete_guid {
            Some(guid) => match position_of(&self.plans, guid.as_str()) {
                Some(at) => Some(self.plans[at].name.clone()),
                None => Some("Selected plan".to_owned()),
            },
            None => None,
        }
    }

    /// The buttons of the toolbar that can be pressed.
    pub fn toolbar_controls(&self) -> (r: ToolbarControls)
        ensures
            r == self@.toolbar(),
    {
        let free = !self.fpsheaven_import_running();
        let (selected, can_delete) = match self.selected_plan() {
            Some(plan) => (true, !plan.active),
            None => (false, false),
        };
        assert(self@.plans.len() == self.plans.len());
        ToolbarControls {
            refresh: free,
            restore_defaults: free,
            import: free,
            export_all: free && self.plans.len() > 0,
            download: free,
            export: free && selected,
            delete: free && can_delete,
        }
    }

    /// The buttons beside the selected plan that can be pressed; none where no plan is selected.
    pub fn details_controls(&self) -> (r: Option<DetailsControls>)
        ensures
            r == self@.details(),
    {
        let free = !self.fpsheaven_import_running();
        match self.selected_plan() {
            Some(plan) => {
                let name = text::trim(self.rename_text.as_str());
                let description = text::trim(self.description_text.as_str());
                let changed = !text::same(name.as_str(), plan.name.as_str()) || !text::same(
                    description.as_str(),
                    plan.description.as_str(),
                );
                Some(
                    DetailsControls {
                        save: free && !name.as_str().is_empty() && changed,
                        activate: free && !plan.active,
                        duplicate: free,
                        edit: free,
                        export: free,
                        delete: free && !plan.active,
                    },
                )
            },
            None => None,
        }
    }

    /// Whether the plan with the given GUID is the selected one.
    pub fn is_selected(&self, guid: &str) -> (r: bool)
        ensures
            r == (self@.selected_guid == Some(guid@)),
    {
        match &self.selected_guid {
            Some(selected) => text::same(selected.as_str(), guid),
            None => false,
        }
    }
}

} // verus!
