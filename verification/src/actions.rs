//! What the library asks of its surroundings.
use vstd::prelude::*;

use crate::commands;
use crate::commands::CommandLine;

verus! {

/// Something to do. The answer to each is an [`Answer`](crate::outcomes::Answer): a text, or the
/// reason why it failed.
#[derive(Debug)]
pub enum Action {
    /// Run a command; the answer is what it printed.
    Run(CommandLine),
    /// Create a new folder for backups; the answer is its path as it is shown.
    CreateBackupFolder,
    /// Remove the folder for backups with all that is in it; the answer does not matter.
    RemoveBackupFolder,
    /// Create the folder for downloads.
    CreateDownloadFolder,
    /// Create the folder that the archive is downloaded into.
    CreateArchiveFolder,
    /// Remove the folder for unpacked plans, where there is one, with all that is in it.
    ClearUnpackFolder,
    /// Create the folder for unpacked plans.
    CreateUnpackFolder,
    /// Remove the archive; the answer does not matter.
    RemoveArchive,
    /// Open the power options of Windows.
    OpenPowerOptions,
    /// Open a page in the browser.
    OpenPage(&'static str),
}

/// The contents of an [`Action`].
pub enum ActionView {
    /// Run a command.
    Run(commands::CommandView),
    /// Create a new folder for backups.
    CreateBackupFolder,
    /// Remove the folder for backups.
    RemoveBackupFolder,
    /// Create the folder for downloads.
    CreateDownloadFolder,
    /// Create the folder that the archive is downloaded into.
    CreateArchiveFolder,
    /// Remove the folder for unpacked plans.
    ClearUnpackFolder,
    /// Create the folder for unpacked plans.
    CreateUnpackFolder,
    /// Remove the archive.
    RemoveArchive,
    /// Open the power options of Windows.
    OpenPowerOptions,
    /// Open a page in the browser.
    OpenPage(Seq<char>),
}

impl View for Action {
    type V = ActionView;

    open spec fn view(&self) -> ActionView {
        match self {
            Action::Run(command) => ActionView::Run(command@),
            Action::CreateBackupFolder => ActionView::CreateBackupFolder,
            Action::RemoveBackupFolder => ActionView::RemoveBackupFolder,
            Action::CreateDownloadFolder => ActionView::CreateDownloadFolder,
            Action::CreateArchiveFolder => ActionView::CreateArchiveFolder,
            Action::ClearUnpackFolder => ActionView::ClearUnpackFolder,
            Action::CreateUnpackFolder => ActionView::CreateUnpackFolder,
            Action::RemoveArchive => ActionView::RemoveArchive,
            Action::OpenPowerOptions => ActionView::OpenPowerOptions,
            Action::OpenPage(url) => ActionView::OpenPage(url@),
        }
    }
}

} // verus!
