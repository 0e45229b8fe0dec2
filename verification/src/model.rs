//! The window as a state, and what each operation makes of it.
use vstd::prelude::*;

use crate::actions;
use crate::commands;
use crate::commands::YOUTUBE_CHANNEL_URL;
use crate::duplicates;
use crate::file_names;
use crate::fpsheaven;
use crate::guid;
use crate::load;
use crate::outcomes;
use crate::plans;
use crate::plans::FpsheavenPowerPlanKind;
use crate::regexes;
use crate::restore;
use crate::status;
use crate::steps;
use crate::text;

verus! {

/// What is said while an import runs.
pub const FPSHEAVEN_IMPORT_BUSY_MESSAGE: &'static str =
    "FPSHEAVEN power plan import is running; wait for it to finish";

/// What is said where an operation needs a selected plan.
pub const SELECT_FIRST: &'static str = "Select a power plan first";

/// What is said where the plan in force is to be deleted.
pub const ACTIVATE_ANOTHER_FIRST: &'static str = "Activate another plan before deleting this one";

/// The state of the window.
pub struct AppView {
    /// The plans in the list.
    pub plans: Seq<plans::PlanView>,
    /// The GUID of the selected plan.
    pub selected_guid: Option<Seq<char>>,
    /// The text in the field for the name.
    pub rename_text: Seq<char>,
    /// The text in the field for the description.
    pub description_text: Seq<char>,
    /// The plan that is deleted once that is confirmed.
    pub pending_delete_guid: Option<Seq<char>>,
    /// Whether the dialog for an import is open.
    pub pending_fpsheaven_import: bool,
    /// Why a restoration is needed, while that is to be confirmed.
    pub pending_default_reset_error: Option<Seq<char>>,
    /// The kind of plan that is being imported in the background.
    pub fpsheaven_import_job: Option<FpsheavenPowerPlanKind>,
    /// The status line.
    pub status: status::StatusView,
}

/// A state of the window and what is asked for in it.
pub type Turn = (AppView, steps::StepView);

/// The place of the plan with the given GUID.
pub open spec fn find_plan(all: Seq<plans::PlanView>, guid: Seq<char>) -> Option<int> {
    plans::first_where(all, |plan: plans::PlanView| plan.guid == guid)
}

/// The place of the plan in force.
pub open spec fn find_active(all: Seq<plans::PlanView>) -> Option<int> {
    plans::first_where(all, |plan: plans::PlanView| plan.active)
}

/// The GUID of the plan in force.
pub open spec fn active_guid(all: Seq<plans::PlanView>) -> Option<Seq<char>> {
    match find_active(all) {
        Some(at) => Some(all[at].guid),
        None => None,
    }
}

/// The selection in a new list: the selected plan where it is still there, else the plan in force,
/// else the first plan.
pub open spec fn kept_selection(
    previous: Option<Seq<char>>,
    all: Seq<plans::PlanView>,
) -> Option<Seq<char>> {
    if previous matches Some(guid) && find_plan(all, guid) is Some {
        previous
    } else if active_guid(all) is Some {
        active_guid(all)
    } else if all.len() > 0 {
        Some(all[0].guid)
    } else {
        None
    }
}

impl AppView {
    /// The selected plan.
    pub open spec fn selected(self) -> Option<plans::PlanView> {
        match self.selected_guid {
            Some(guid) => match find_plan(self.plans, guid) {
                Some(at) => Some(self.plans[at]),
                None => None,
            },
            None => None,
        }
    }

    /// An import runs in the background.
    pub open spec fn importing(self) -> bool {
        self.fpsheaven_import_job is Some
    }

    /// The same with another status line.
    pub open spec fn saying(self, line: status::StatusView) -> AppView {
        AppView { status: line, ..self }
    }

    /// The same with the selected plan's name and description in the fields for them; both are
    /// empty where no plan is selected.
    pub open spec fn synced(self) -> AppView {
        match self.selected() {
            Some(plan) => AppView {
                rename_text: plan.name,
                description_text: plan.description,
                ..self
            },
            None => AppView {
                rename_text: Seq::empty(),
                description_text: Seq::empty(),
                ..self
            },
        }
    }

    /// The same with another plan selected.
    pub open spec fn selecting(self, guid: Seq<char>) -> AppView {
        (AppView { selected_guid: Some(guid), ..self }).synced()
    }

    /// The same with a new list; without one nothing changes.
    pub open spec fn reloaded(
        self,
        loaded: Result<Seq<plans::PlanView>, Seq<char>>,
    ) -> AppView {
        match loaded {
            Ok(all) => (AppView {
                plans: all,
                selected_guid: kept_selection(self.selected_guid, all),
                ..self
            }).synced(),
            Err(_) => self,
        }
    }

    /// A refusal.
    pub open spec fn refusing(self, reason: Seq<char>) -> Turn {
        (self.saying(status::failed(reason)), steps::StepView::Done)
    }

    /// The refusal while an import runs.
    pub open spec fn busy(self) -> Turn {
        (
            self.saying(status::news(FPSHEAVEN_IMPORT_BUSY_MESSAGE@)),
            steps::StepView::Done,
        )
    }

    /// A command to run.
    pub open spec fn running(self, command: commands::CommandView, task: steps::TaskView) -> Turn {
        (self, steps::StepView::Ask(actions::ActionView::Run(command), task))
    }

    /// The list to be read anew.
    pub open spec fn reloading(self, after: steps::AfterView) -> Turn {
        self.running(
            commands::active_command(),
            steps::TaskView::Load(load::LoadView::AskedActive, after),
        )
    }

    /// The list is read anew for its own sake.
    pub open spec fn refresh(self, message: Seq<char>) -> Turn {
        if self.importing() {
            self.busy()
        } else {
            self.reloading(steps::AfterView::Report(message))
        }
    }

    /// Files are chosen for an import.
    pub open spec fn import(self) -> Turn {
        if self.importing() {
            self.busy()
        } else {
            (
                self,
                steps::StepView::Choose(
                    steps::DialogView::OpenFiles("Import power plan"@),
                    steps::ChoiceView::Import,
                ),
            )
        }
    }

    /// A file is chosen for the export of the selected plan.
    pub open spec fn export(self) -> Turn {
        if self.importing() {
            self.busy()
        } else {
            match self.selected() {
                Some(plan) => (
                    self,
                    steps::StepView::Choose(
                        steps::DialogView::SaveFile(
                            "Export power plan"@,
                            file_names::file_stem(plan.name) + ".pow"@,
                        ),
                        steps::ChoiceView::Export(plan.guid, plan.name),
                    ),
                ),
                None => self.refusing(SELECT_FIRST@),
            }
        }
    }

    /// A folder is chosen for the export of all plans.
    pub open spec fn export_all(self) -> Turn {
        if self.importing() {
            self.busy()
        } else if self.plans.len() == 0 {
            self.refusing("No power plans to export"@)
        } else {
            (
                self,
                steps::StepView::Choose(
                    steps::DialogView::Folder("Choose export folder"@),
                    steps::ChoiceView::ExportAll(self.plans),
                ),
            )
        }
    }

    /// The selected plan is put in force.
    pub open spec fn activate(self) -> Turn {
        if self.importing() {
            self.busy()
        } else {
            match self.selected() {
                Some(plan) => self.running(
                    commands::set_active_command(plan.guid),
                    steps::TaskView::Activate(plan.name),
                ),
                None => self.refusing(SELECT_FIRST@),
            }
        }
    }

    /// The selected plan is put in force and its settings are opened.
    pub open spec fn edit(self) -> Turn {
        if self.importing() {
            self.busy()
        } else {
            match self.selected() {
                Some(plan) => self.running(
                    commands::set_active_command(plan.guid),
                    steps::TaskView::ActivateToEdit(plan.name),
                ),
                None => self.refusing(SELECT_FIRST@),
            }
        }
    }

    /// The selected plan is duplicated.
    pub open spec fn duplicate(self) -> Turn {
        if self.importing() {
            self.busy()
        } else {
            match self.selected() {
                Some(plan) => self.running(
                    commands::duplicate_command(plan.guid),
                    steps::TaskView::Duplicate(plan.name),
                ),
                None => self.refusing(SELECT_FIRST@),
            }
        }
    }

    /// The selected plan is given the name and the description in the fields; the description is
    /// left alone where it is the one that the plan has.
    pub open spec fn save(self) -> Turn {
        if self.importing() {
            self.busy()
        } else {
            match self.selected() {
                Some(plan) => {
                    let name = text::trimmed(self.rename_text);
                    let description = text::trimmed(self.description_text);
                    if name.len() == 0 {
                        self.refusing("Plan name cannot be empty"@)
                    } else {
                        self.running(
                            commands::rename_command(
                                plan.guid,
                                name,
                                if description != plan.description {
                                    Some(description)
                                } else {
                                    None
                                },
                            ),
                            steps::TaskView::Rename(plan.name),
                        )
                    }
                },
                None => self.refusing(SELECT_FIRST@),
            }
        }
    }

    /// The deletion of the selected plan is to be confirmed.
    pub open spec fn ask_delete(self) -> AppView {
        if self.importing() {
            self.busy().0
        } else {
            match self.selected() {
                Some(plan) => if plan.active {
                    self.saying(status::failed(ACTIVATE_ANOTHER_FIRST@))
                } else {
                    AppView { pending_delete_guid: Some(plan.guid), ..self }
                },
                None => self.saying(status::failed(SELECT_FIRST@)),
            }
        }
    }

    /// A plan is deleted.
    pub open spec fn delete(self, guid: Seq<char>) -> Turn {
        if self.importing() {
            self.busy()
        } else {
            match find_plan(self.plans, guid) {
                Some(at) => if self.plans[at].active {
                    self.refusing(ACTIVATE_ANOTHER_FIRST@)
                } else {
                    self.running(
                        commands::delete_command(self.plans[at].guid),
                        steps::TaskView::Delete(self.plans[at].name),
                    )
                },
                None => self.refusing("Power plan no longer exists"@),
            }
        }
    }

    /// The page of the channel is opened.
    pub open spec fn open_channel(self) -> Turn {
        (
            self,
            steps::StepView::Ask(
                actions::ActionView::OpenPage(YOUTUBE_CHANNEL_URL@),
                steps::TaskView::OpenPage,
            ),
        )
    }

    /// What comes next in a restoration: at its end the list is read anew.
    pub open spec fn restore_on(self, step: restore::RestoreStepView) -> Turn {
        match step {
            restore::RestoreStepView::Ask(action, task) => (
                self,
                steps::StepView::Ask(action, steps::TaskView::Restore(task)),
            ),
            restore::RestoreStepView::Done(Ok(message)) => self.reloading(
                steps::AfterView::Show(status::done(message)),
            ),
            restore::RestoreStepView::Done(Err(error)) => self.reloading(
                steps::AfterView::Show(status::failed(error)),
            ),
        }
    }

    /// The plans of Windows are restored.
    pub open spec fn restoring(self) -> Turn {
        self.restore_on(restore::restore_start(self.plans, active_guid(self.plans)))
    }

    /// What comes next while missing default plans are brought back. Where that fails the plans of
    /// Windows are restored: at once where there are no others, else once that is confirmed.
    pub open spec fn enable_on(self, step: duplicates::DuplicateStepView) -> Turn {
        match step {
            duplicates::DuplicateStepView::Ask(command, task) => self.running(
                command,
                steps::TaskView::Enable(task),
            ),
            duplicates::DuplicateStepView::Done(defaults, results) => match duplicates::enable_report(
                defaults,
                results,
            ) {
                Ok(message) => self.reloading(steps::AfterView::Show(status::done(message))),
                Err(error) => if has_custom(self.plans) {
                    (
                        (AppView { pending_default_reset_error: Some(error), ..self }).saying(
                            status::news(
                                "A full Windows power plan reset is required to restore those defaults"@,
                            ),
                        ),
                        steps::StepView::Done,
                    )
                } else {
                    self.restoring()
                },
            },
        }
    }

    /// Missing default plans are brought back.
    pub open spec fn enable_defaults(self) -> Turn {
        if self.importing() {
            self.busy()
        } else if plans::missing_defaults(self.plans).len() == 0 {
            (
                self.saying(
                    status::news("Default Windows power plans are already available"@),
                ),
                steps::StepView::Done,
            )
        } else {
            self.enable_on(
                duplicates::duplicate_on(plans::missing_defaults(self.plans), Seq::empty()),
            )
        }
    }

    /// The plans of Windows are restored after the list was read anew.
    pub open spec fn reset_anyway(self) -> Turn {
        if self.importing() {
            self.busy()
        } else {
            self.reloading(steps::AfterView::Reset)
        }
    }

    /// An import is started.
    pub open spec fn start_import(self, kind: FpsheavenPowerPlanKind) -> Turn {
        if self.importing() {
            (
                self.saying(status::news("FPSHEAVEN power plan import is already running"@)),
                steps::StepView::Done,
            )
        } else {
            (
                (AppView { fpsheaven_import_job: Some(kind), ..self }).saying(
                    status::news(
                        "Downloading FPSHEAVEN "@ + kind.label_text() + " power plan..."@,
                    ),
                ),
                steps::StepView::StartImport(kind),
            )
        }
    }

    /// An import has come to an end.
    pub open spec fn finish_import(
        self,
        kind: FpsheavenPowerPlanKind,
        result: Result<fpsheaven::ImportedView, Seq<char>>,
    ) -> Turn {
        match result {
            Ok(imported) => self.reloading(
                steps::AfterView::SelectListed(
                    imported.guid,
                    status::done(import_message(kind, imported)),
                ),
            ),
            Err(error) => self.refusing(error),
        }
    }

    /// A look at the import that runs in the background.
    pub open spec fn poll(self, event: PollView) -> Turn {
        match self.fpsheaven_import_job {
            Some(kind) => {
                let over = AppView { fpsheaven_import_job: None, ..self };
                match event {
                    PollView::Finished(result) => over.finish_import(kind, result),
                    PollView::Pending => (self, steps::StepView::Wait(200)),
                    PollView::Stopped => over.refusing(
                        "FPSHEAVEN power plan import stopped unexpectedly"@,
                    ),
                }
            },
            None => (self, steps::StepView::Done),
        }
    }

    /// What follows once the list was read anew.
    pub open spec fn after_load(
        self,
        loaded: Result<Seq<plans::PlanView>, Seq<char>>,
        after: steps::AfterView,
    ) -> Turn {
        let now = self.reloaded(loaded);
        match (after, loaded) {
            (steps::AfterView::Report(message), Ok(_)) => (
                now.saying(status::done(message)),
                steps::StepView::Done,
            ),
            (steps::AfterView::Report(_), Err(error)) => now.refusing(error),
            (steps::AfterView::Show(line), _) => (now.saying(line), steps::StepView::Done),
            (steps::AfterView::Select(guid, line), _) => (
                now.selecting(guid).saying(line),
                steps::StepView::Done,
            ),
            (steps::AfterView::SelectListed(guid, line), _) => (
                (if find_plan(now.plans, guid) is Some {
                    now.selecting(guid)
                } else {
                    now
                }).saying(line),
                steps::StepView::Done,
            ),
            (steps::AfterView::Reset, Ok(_)) => now.restoring(),
            (steps::AfterView::Reset, Err(error)) => now.refusing(error),
        }
    }

    /// What comes next in the reading of the list.
    pub open spec fn load_on(self, step: load::LoadStepView, after: steps::AfterView) -> Turn {
        match step {
            load::LoadStepView::Ask(command, reading) => self.running(
                command,
                steps::TaskView::Load(reading, after),
            ),
            load::LoadStepView::Done(loaded) => self.after_load(loaded, after),
        }
    }

    /// What comes next once it is known what became of the first imports.
    pub open spec fn import_on(
        self,
        files: Seq<Seq<char>>,
        imports: Seq<outcomes::OutcomeView>,
    ) -> Turn {
        if imports.len() < files.len() {
            self.running(
                commands::import_command(commands::ArgView::Chosen(imports.len() as usize), None),
                steps::TaskView::Import(files, imports),
            )
        } else {
            self.reloading(steps::AfterView::Show(imported_status(files, imports)))
        }
    }

    /// What comes next once it is known what became of the first exports.
    pub open spec fn export_on(
        self,
        all: Seq<plans::PlanView>,
        folder: Seq<char>,
        exports: Seq<outcomes::OutcomeView>,
    ) -> Turn {
        if exports.len() < all.len() {
            let plan = all[exports.len() as int];
            self.running(
                commands::export_command(
                    plan.guid,
                    commands::ArgView::InChosenFolder(file_names::export_name(plan)),
                ),
                steps::TaskView::ExportAll(all, folder, exports),
            )
        } else {
            (self.saying(exported_status(all, folder, exports)), steps::StepView::Done)
        }
    }

    /// What follows a dialog for files; nothing where it was cancelled.
    pub open spec fn chosen(self, choice: steps::ChoiceView, paths: Seq<Seq<char>>) -> Turn {
        if paths.len() == 0 {
            (self, steps::StepView::Done)
        } else {
            match choice {
                steps::ChoiceView::Import => self.import_on(paths, Seq::empty()),
                steps::ChoiceView::Export(guid, name) => self.running(
                    commands::export_command(guid, commands::ArgView::Chosen(0)),
                    steps::TaskView::Export(name, paths[0]),
                ),
                steps::ChoiceView::ExportAll(all) => self.export_on(all, paths[0], Seq::empty()),
            }
        }
    }

    /// What comes next in an operation, by the answer to what it asked for last.
    pub open spec fn next(self, task: steps::TaskView, answer: outcomes::AnswerView) -> Turn {
        match (task, answer) {
            (steps::TaskView::Load(reading, after), _) => self.load_on(
                load::load_next(reading, answer),
                after,
            ),
            (steps::TaskView::Import(files, imports), _) => self.import_on(
                files,
                imports.push(outcomes::outcome_of(answer)),
            ),
            (steps::TaskView::ExportAll(all, folder, exports), _) => self.export_on(
                all,
                folder,
                exports.push(outcomes::outcome_of(answer)),
            ),
            (steps::TaskView::Export(name, path), Ok(_)) => (
                self.saying(
                    status::done("Exported \""@ + name + "\" to "@ + path),
                ),
                steps::StepView::Done,
            ),
            (steps::TaskView::Activate(name), Ok(_)) => self.reloading(
                steps::AfterView::Show(status::done("Activated \""@ + name + "\""@)),
            ),
            (steps::TaskView::ActivateToEdit(name), Ok(_)) => (
                self,
                steps::StepView::Ask(
                    actions::ActionView::OpenPowerOptions,
                    steps::TaskView::Edit(name),
                ),
            ),
            (steps::TaskView::Edit(name), Ok(_)) => self.reloading(
                steps::AfterView::Show(
                    status::done("Opened Windows editor for \""@ + name + "\""@),
                ),
            ),
            (steps::TaskView::Edit(_), Err(error)) => self.refusing(
                "Failed to open Windows power options: "@ + error,
            ),
            (steps::TaskView::Duplicate(name), Ok(output)) => {
                let line = status::done("Duplicated \""@ + name + "\""@);
                self.reloading(
                    match guid::guid_in(output) {
                        Some(new_guid) => steps::AfterView::Select(new_guid, line),
                        None => steps::AfterView::Show(line),
                    },
                )
            },
            (steps::TaskView::Rename(name), Ok(_)) => self.reloading(
                steps::AfterView::Show(status::done("Updated \""@ + name + "\""@)),
            ),
            (steps::TaskView::Delete(name), Ok(_)) => self.reloading(
                steps::AfterView::Show(status::done("Deleted \""@ + name + "\""@)),
            ),
            (steps::TaskView::Enable(duplication), _) => self.enable_on(
                duplicates::duplicate_next(duplication, answer),
            ),
            (steps::TaskView::Restore(restoration), _) => self.restore_on(
                restore::restore_next(restoration, answer),
            ),
            (steps::TaskView::OpenPage, Ok(_)) => (
                self.saying(status::done("Opened @fpsheaven on YouTube"@)),
                steps::StepView::Done,
            ),
            (steps::TaskView::OpenPage, Err(error)) => self.refusing(
                "Could not open YouTube: "@ + error,
            ),
            (_, Err(error)) => self.refusing(error),
        }
    }

    /// What follows the dialog for an import: nothing while no button was pressed.
    pub open spec fn import_dialog(
        self,
        kind: Option<FpsheavenPowerPlanKind>,
        cancel: bool,
    ) -> Turn {
        let closed = AppView { pending_fpsheaven_import: false, ..self };
        if !self.pending_fpsheaven_import {
            (self, steps::StepView::Done)
        } else if let Some(kind) = kind {
            closed.start_import(kind)
        } else if cancel {
            (closed, steps::StepView::Done)
        } else {
            (self, steps::StepView::Done)
        }
    }

    /// What follows the dialog for a restoration: nothing while no button was pressed.
    pub open spec fn reset_dialog(self, reset: bool, cancel: bool) -> Turn {
        let closed = AppView { pending_default_reset_error: None, ..self };
        if self.pending_default_reset_error is None {
            (self, steps::StepView::Done)
        } else if reset {
            closed.reset_anyway()
        } else if cancel {
            (
                closed.saying(status::news("Windows default reset canceled"@)),
                steps::StepView::Done,
            )
        } else {
            (self, steps::StepView::Done)
        }
    }

    /// What follows the dialog for a deletion: nothing while no button was pressed.
    pub open spec fn delete_dialog(self, confirmed: bool, cancel: bool) -> Turn {
        let closed = AppView { pending_delete_guid: None, ..self };
        match self.pending_delete_guid {
            Some(guid) => if confirmed {
                closed.delete(guid)
            } else if cancel {
                (closed, steps::StepView::Done)
            } else {
                (self, steps::StepView::Done)
            },
            None => (self, steps::StepView::Done),
        }
    }

    /// The name in the dialog for a deletion.
    pub open spec fn delete_name(self) -> Option<Seq<char>> {
        match self.pending_delete_guid {
            Some(guid) => match find_plan(self.plans, guid) {
                Some(at) => Some(self.plans[at].name),
                None => Some("Selected plan"@),
            },
            None => None,
        }
    }

    /// The buttons of the toolbar that can be pressed.
    pub open spec fn toolbar(self) -> ToolbarControls {
        let free = !self.importing();
        ToolbarControls {
            refresh: free,
            restore_defaults: free,
            import: free,
            export_all: free && self.plans.len() > 0,
            download: free,
            export: free && self.selected() is Some,
            delete: free && (self.selected() matches Some(plan) && !plan.active),
        }
    }

    /// The fields hold a name or a description that the selected plan does not have.
    pub open spec fn metadata_changed(self, plan: plans::PlanView) -> bool {
        text::trimmed(self.rename_text) != plan.name || text::trimmed(self.description_text)
            != plan.description
    }

    /// The buttons beside the selected plan that can be pressed.
    pub open spec fn details(self) -> Option<DetailsControls> {
        let free = !self.importing();
        match self.selected() {
            Some(plan) => Some(
                DetailsControls {
                    save: free && text::trimmed(self.rename_text).len() > 0
                        && self.metadata_changed(plan),
                    activate: free && !plan.active,
                    duplicate: free,
                    edit: free,
                    export: free,
                    delete: free && !plan.active,
                },
            ),
            None => None,
        }
    }
}

/// The buttons of the toolbar, and whether each can be pressed.
#[derive(Clone, Copy, PartialEq, Eq, Structural, Debug)]
pub struct ToolbarControls {
    /// "Refresh".
    pub refresh: bool,
    /// "Restore Defaults".
    pub restore_defaults: bool,
    /// "Import".
    pub import: bool,
    /// "Export All".
    pub export_all: bool,
    /// "Download FPSHEAVEN's power plan".
    pub download: bool,
    /// "Export", of the selected plan.
    pub export: bool,
    /// "Delete", of the selected plan.
    pub delete: bool,
}

/// The buttons beside the selected plan, and whether each can be pressed.
#[derive(Clone, Copy, PartialEq, Eq, Structural, Debug)]
pub struct DetailsControls {
    /// "Save".
    pub save: bool,
    /// "Activate".
    pub activate: bool,
    /// "Duplicate".
    pub duplicate: bool,
    /// "Activate & Edit".
    pub edit: bool,
    /// "Export".
    pub export: bool,
    /// "Delete".
    pub delete: bool,
}

/// One of the plans is none of Windows.
pub open spec fn has_custom(all: Seq<plans::PlanView>) -> bool {
    exists|i: int| 0 <= i < all.len() && !plans::is_default(#[trigger] all[i])
}

/// What is known of the searches in the answer to what an operation asked for last.
pub open spec fn answer_known(task: steps::TaskView, answer: outcomes::AnswerView) -> bool {
    match task {
        steps::TaskView::Load(reading, _) => load::answer_known(reading, answer),
        steps::TaskView::Duplicate(_) => answer matches Ok(output) ==> regexes::guid_known(output),
        steps::TaskView::Enable(duplication) => duplicates::answer_known(duplication, answer),
        steps::TaskView::Restore(restoration) => restore::answer_known(restoration, answer),
        _ => true,
    }
}

/// What a look at the import in the background found.
pub enum PollView {
    /// It has come to an end.
    Finished(Result<fpsheaven::ImportedView, Seq<char>>),
    /// It still runs.
    Pending,
    /// It stopped without a result.
    Stopped,
}

/// The report on an import of a FPSHEAVEN plan.
pub open spec fn import_message(
    kind: FpsheavenPowerPlanKind,
    imported: fpsheaven::ImportedView,
) -> Seq<char> {
    let message = "Imported and activated FPSHEAVEN "@ + kind.label_text() + " power plan from "@
        + imported.plan_path;
    match imported.replaced_active_plan_name {
        Some(name) => message + "; replaced \""@ + name + "\""@,
        None => message,
    }
}

/// The report on the import of some files.
pub open spec fn imported_status(
    files: Seq<Seq<char>>,
    imports: Seq<outcomes::OutcomeView>,
) -> status::StatusView {
    let failures = outcomes::failures(files, imports);
    let count = "Imported "@ + text::decimal(outcomes::successes(imports));
    if failures.len() == 0 {
        status::done(count + " power plan(s) successfully"@)
    } else {
        status::failed(
            count + " power plan(s); "@ + text::decimal(failures.len()) + " failed\n"@
                + text::joined(failures, "\n"@),
        )
    }
}

/// The report on the export of some plans.
pub open spec fn exported_status(
    all: Seq<plans::PlanView>,
    folder: Seq<char>,
    exports: Seq<outcomes::OutcomeView>,
) -> status::StatusView {
    let failures = outcomes::failures(restore::plan_names(all), exports);
    let count = "Exported "@ + text::decimal(outcomes::successes(exports));
    if failures.len() == 0 {
        status::done(count + " power plan(s) to "@ + folder)
    } else {
        status::failed(
            count + " power plan(s); "@ + text::decimal(failures.len()) + " failed\n"@
                + text::joined(failures, "\n"@),
        )
    }
}

} // verus!
