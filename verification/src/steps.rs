//! What an operation of the window asks for, and how far it has come.
use vstd::prelude::*;

use crate::actions;
use crate::actions::Action;
use crate::duplicates;
use crate::duplicates::DuplicateTask;
use crate::load;
use crate::load::LoadTask;
use crate::outcomes;
use crate::outcomes::Outcome;
use crate::plans;
use crate::plans::{FpsheavenPowerPlanKind, PowerPlan};
use crate::restore;
use crate::restore::RestoreTask;
use crate::status;
use crate::status::StatusMessage;
use crate::text;

verus! {

/// What follows once the list of plans was read anew.
#[derive(Debug)]
pub enum AfterLoad {
    /// Say so, or say why there is no list.
    Report(String),
    /// Show a status line, whether there is a list or not.
    Show(StatusMessage),
    /// Select a plan and show a status line, whether there is a list or not.
    Select(String, StatusMessage),
    /// Select a plan if it is in the list, and show a status line.
    SelectListed(String, StatusMessage),
    /// Restore the plans of Windows, or say why there is no list.
    Reset,
}

/// The contents of an [`AfterLoad`].
pub enum AfterView {
    /// Say so, or say why there is no list.
    Report(Seq<char>),
    /// Show a status line.
    Show(status::StatusView),
    /// Select a plan and show a status line.
    Select(Seq<char>, status::StatusView),
    /// Select a plan if it is in the list, and show a status line.
    SelectListed(Seq<char>, status::StatusView),
    /// Restore the plans of Windows.
    Reset,
}

impl View for AfterLoad {
    type V = AfterView;

    open spec fn view(&self) -> AfterView {
        match self {
            AfterLoad::Report(message) => AfterView::Report(message@),
            AfterLoad::Show(line) => AfterView::Show(line@),
            AfterLoad::Select(guid, line) => AfterView::Select(guid@, line@),
            AfterLoad::SelectListed(guid, line) => AfterView::SelectListed(guid@, line@),
            AfterLoad::Reset => AfterView::Reset,
        }
    }
}

/// How far an operation has come: what was asked for last, and what is needed to go on.
#[derive(Debug)]
pub enum Task {
    /// The list of plans is being read.
    Load {
        /// How far the reading has come.
        reading: LoadTask,
        /// What follows.
        then_do: AfterLoad,
    },
    /// The chosen file behind the known outcomes is being imported.
    Import {
        /// The chosen files as they are shown.
        files: Vec<String>,
        /// What became of the first of them.
        imports: Vec<Outcome>,
    },
    /// A plan is being exported.
    Export {
        /// The plan's name.
        name: String,
        /// The file as it is shown.
        path: String,
    },
    /// The plan behind the known outcomes is being exported.
    ExportAll {
        /// The plans to export.
        plans: Vec<PowerPlan>,
        /// The folder as it is shown.
        folder: String,
        /// What became of the first of them.
        exports: Vec<Outcome>,
    },
    /// A plan is being put in force.
    Activate {
        /// The plan's name.
        name: String,
    },
    /// A plan is being put in force before its settings are opened.
    ActivateToEdit {
        /// The plan's name.
        name: String,
    },
    /// The settings of the plan in force are being opened.
    Edit {
        /// The plan's name.
        name: String,
    },
    /// A plan is being duplicated.
    Duplicate {
        /// The plan's name.
        name: String,
    },
    /// A plan's name and description are being changed.
    Rename {
        /// The plan's name so far.
        name: String,
    },
    /// A plan is being deleted.
    Delete {
        /// The plan's name.
        name: String,
    },
    /// Missing default plans are being brought back.
    Enable {
        /// How far that has come.
        duplication: DuplicateTask,
    },
    /// The plans of Windows are being restored.
    Restore {
        /// How far that has come.
        restoration: RestoreTask,
    },
    /// A page is being opened.
    OpenPage,
}

/// The contents of a [`Task`].
pub enum TaskView {
    /// The list of plans is being read.
    Load(load::LoadView, AfterView),
    /// The chosen file behind the known outcomes is being imported.
    Import(Seq<Seq<char>>, Seq<outcomes::OutcomeView>),
    /// A plan is being exported.
    Export(Seq<char>, Seq<char>),
    /// The plan behind the known outcomes is being exported.
    ExportAll(Seq<plans::PlanView>, Seq<char>, Seq<outcomes::OutcomeView>),
    /// A plan is being put in force.
    Activate(Seq<char>),
    /// A plan is being put in force before its settings are opened.
    ActivateToEdit(Seq<char>),
    /// The settings of the plan in force are being opened.
    Edit(Seq<char>),
    /// A plan is being duplicated.
    Duplicate(Seq<char>),
    /// A plan's name and description are being changed.
    Rename(Seq<char>),
    /// A plan is being deleted.
    Delete(Seq<char>),
    /// Missing default plans are being brought back.
    Enable(duplicates::DuplicateView),
    /// The plans of Windows are being restored.
    Restore(restore::RestoreView),
    /// A page is being opened.
    OpenPage,
}

impl View for Task {
    type V = TaskView;

    open spec fn view(&self) -> TaskView {
        match self {
            Task::Load { reading, then_do } => TaskView::Load(reading@, then_do@),
            Task::Import { files, imports } => TaskView::Import(
                text::views(files@),
                outcomes::outcome_views(imports@),
            ),
            Task::Export { name, path } => TaskView::Export(name@, path@),
            Task::ExportAll { plans: all, folder, exports } => TaskView::ExportAll(
                plans::plan_views(all@),
                folder@,
                outcomes::outcome_views(exports@),
            ),
            Task::Activate { name } => TaskView::Activate(name@),
            Task::ActivateToEdit { name } => TaskView::ActivateToEdit(name@),
            Task::Edit { name } => TaskView::Edit(name@),
            Task::Duplicate { name } => TaskView::Duplicate(name@),
            Task::Rename { name } => TaskView::Rename(name@),
            Task::Delete { name } => TaskView::Delete(name@),
            Task::Enable { duplication } => TaskView::Enable(duplication@),
            Task::Restore { restoration } => TaskView::Restore(restoration@),
            Task::OpenPage => TaskView::OpenPage,
        }
    }
}

impl TaskView {
    /// The operation can go on.
    pub open spec fn wf(self) -> bool {
        match self {
            TaskView::Load(reading, _) => reading.wf(),
            TaskView::Import(files, imports) => imports.len() < files.len(),
            TaskView::ExportAll(all, _, exports) => exports.len() < all.len(),
            TaskView::Enable(duplication) => duplication.wf(),
            TaskView::Restore(restoration) => restoration.wf(),
            _ => true,
        }
    }
}

/// A dialog for files.
#[derive(Debug)]
pub enum Dialog {
    /// Power plan files to open, under the given title.
    OpenFiles(&'static str),
    /// A power plan file to save, under the given title and with the given name as a proposal.
    SaveFile(&'static str, String),
    /// A folder, under the given title.
    Folder(&'static str),
}

/// The contents of a [`Dialog`].
pub enum DialogView {
    /// Power plan files to open.
    OpenFiles(Seq<char>),
    /// A power plan file to save.
    SaveFile(Seq<char>, Seq<char>),
    /// A folder.
    Folder(Seq<char>),
}

impl View for Dialog {
    type V = DialogView;

    open spec fn view(&self) -> DialogView {
        match self {
            Dialog::OpenFiles(title) => DialogView::OpenFiles(title@),
            Dialog::SaveFile(title, name) => DialogView::SaveFile(title@, name@),
            Dialog::Folder(title) => DialogView::Folder(title@),
        }
    }
}

/// What a dialog is for.
#[derive(Debug)]
pub enum Choice {
    /// Files to import.
    Import,
    /// The file that a plan is exported to.
    Export {
        /// The plan's GUID.
        guid: String,
        /// The plan's name.
        name: String,
    },
    /// The folder that plans are exported to.
    ExportAll {
        /// The plans.
        plans: Vec<PowerPlan>,
    },
}

/// The contents of a [`Choice`].
pub enum ChoiceView {
    /// Files to import.
    Import,
    /// The file that a plan is exported to.
    Export(Seq<char>, Seq<char>),
    /// The folder that plans are exported to.
    ExportAll(Seq<plans::PlanView>),
}

impl View for Choice {
    type V = ChoiceView;

    open spec fn view(&self) -> ChoiceView {
        match self {
            Choice::Import => ChoiceView::Import,
            Choice::Export { guid, name } => ChoiceView::Export(guid@, name@),
            Choice::ExportAll { plans: all } => ChoiceView::ExportAll(plans::plan_views(all@)),
        }
    }
}

impl ChoiceView {
    /// Where plans are exported there are some.
    pub open spec fn wf(self) -> bool {
        self matches ChoiceView::ExportAll(all) ==> all.len() > 0
    }
}

/// What an operation asks for.
#[derive(Debug)]
pub enum Step {
    /// Nothing more.
    Done,
    /// Something to do, with which the operation goes on.
    Ask(Action, Task),
    /// A dialog to show, with which the operation goes on.
    Choose(Dialog, Choice),
    /// An import to start in the background.
    StartImport(FpsheavenPowerPlanKind),
    /// To be called again after the given number of milliseconds.
    Wait(u64),
}

/// The contents of a [`Step`].
pub enum StepView {
    /// Nothing more.
    Done,
    /// Something to do.
    Ask(actions::ActionView, TaskView),
    /// A dialog to show.
    Choose(DialogView, ChoiceView),
    /// An import to start in the background.
    StartImport(FpsheavenPowerPlanKind),
    /// To be called again after the given number of milliseconds.
    Wait(u64),
}

impl View for Step {
    type V = StepView;

    open spec fn view(&self) -> StepView {
        match self {
            Step::Done => StepView::Done,
            Step::Ask(action, task) => StepView::Ask(action@, task@),
            Step::Choose(dialog, choice) => StepView::Choose(dialog@, choice@),
            Step::StartImport(kind) => StepView::StartImport(*kind),
            Step::Wait(millis) => StepView::Wait(*millis),
        }
    }
}

impl StepView {
    /// The operation can go on, or it is over.
    pub open spec fn wf(self) -> bool {
        match self {
            StepView::Ask(_, task) => task.wf(),
            StepView::Choose(_, choice) => choice.wf(),
            _ => true,
        }
    }
}

} // verus!
