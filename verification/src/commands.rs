//! The commands that are run on Windows: what they are called with, and what is made of their
//! answer.
use vstd::prelude::*;
use vstd::utf8::*;

use crate::text;

verus! {

/// The page of the FPSHEAVEN channel.
pub const YOUTUBE_CHANNEL_URL: &'static str = "https://www.youtube.com/@fpsheaven";

/// The archive that holds the FPSHEAVEN plans.
pub const FPSHEAVEN_POWER_PLANS_URL: &'static str =
    "https://fpsheaven.com/wp-content/uploads/2026/06/fpsheaven_powerplans.zip";

/// The name under which the archive is kept.
pub const FPSHEAVEN_POWER_PLANS_ZIP_FILE: &'static str = "fpsheaven_powerplans.zip";

/// The folder into which the archive is unpacked.
pub const FPSHEAVEN_POWER_PLANS_FOLDER: &'static str = "FPSHEAVEN Power Plans";

/// The folder of this program's data.
pub const APP_DATA_FOLDER: &'static str = "Simple Power Plan Manager";

/// The folder for downloads in it.
pub const FPSHEAVEN_DOWNLOADS_FOLDER: &'static str = "FPSHEAVEN Downloads";

/// The program that opens a page of the control panel.
pub const CONTROL_PANEL: &'static str = "control.exe";

/// The page of the control panel with the settings of the plan in force.
pub const POWER_OPTIONS_PAGE: &'static str = "powercfg.cpl,,3";

/// The programs that are run.
#[derive(Clone, Copy, PartialEq, Eq, Structural, Debug)]
pub enum Program {
    /// The tool that manages power plans.
    Powercfg,
    /// The tool that reads the registry.
    Reg,
    /// The script interpreter.
    Powershell,
}

impl Program {
    /// The name under which the program is run.
    pub open spec fn name_text(self) -> Seq<char> {
        match self {
            Program::Powercfg => "powercfg"@,
            Program::Reg => "reg"@,
            Program::Powershell => "powershell.exe"@,
        }
    }

    /// The name under which the program is run.
    pub fn name(self) -> (r: &'static str)
        ensures
            r@ == self.name_text(),
    {
        match self {
            Program::Powercfg => "powercfg",
            Program::Reg => "reg",
            Program::Powershell => "powershell.exe",
        }
    }
}

/// An argument of a command. A file is given by where it comes from: its path is handed over as
/// the system has it, whatever characters it holds.
#[derive(Debug)]
pub enum Arg {
    /// The given text.
    Text(String),
    /// The path of a file that was chosen in a dialog, by its place among the chosen files.
    Chosen(usize),
    /// The path of a file with the given name in the folder that was chosen in a dialog.
    InChosenFolder(String),
    /// The path of a file with the given name in the backup folder.
    InBackupFolder(String),
    /// The path of an unpacked plan file, by its place among those files.
    Unpacked(usize),
}

/// The contents of an [`Arg`].
pub enum ArgView {
    /// The given text.
    Text(Seq<char>),
    /// A file that was chosen in a dialog.
    Chosen(usize),
    /// A file in the folder that was chosen in a dialog.
    InChosenFolder(Seq<char>),
    /// A file in the backup folder.
    InBackupFolder(Seq<char>),
    /// An unpacked plan file.
    Unpacked(usize),
}

impl View for Arg {
    type V = ArgView;

    open spec fn view(&self) -> ArgView {
        match self {
            Arg::Text(given) => ArgView::Text(given@),
            Arg::Chosen(at) => ArgView::Chosen(*at),
            Arg::InChosenFolder(name) => ArgView::InChosenFolder(name@),
            Arg::InBackupFolder(name) => ArgView::InBackupFolder(name@),
            Arg::Unpacked(at) => ArgView::Unpacked(*at),
        }
    }
}

/// The contents of some arguments.
pub open spec fn arg_views(args: Seq<Arg>) -> Seq<ArgView> {
    Seq::new(args.len(), |i: int| args[i]@)
}

/// A command to run.
#[derive(Debug)]
pub struct CommandLine {
    /// The program.
    pub program: Program,
    /// Whether the command is for Windows alone: elsewhere it fails without being run.
    pub needs_windows: bool,
    /// The arguments.
    pub args: Vec<Arg>,
}

/// The contents of a [`CommandLine`].
pub struct CommandView {
    /// The program.
    pub program: Program,
    /// Whether the command is for Windows alone.
    pub needs_windows: bool,
    /// The arguments.
    pub args: Seq<ArgView>,
}

impl View for CommandLine {
    type V = CommandView;

    open spec fn view(&self) -> CommandView {
        CommandView {
            program: self.program,
            needs_windows: self.needs_windows,
            args: arg_views(self.args@),
        }
    }
}

/// `powercfg` with the given arguments, on Windows alone.
pub open spec fn powercfg(args: Seq<ArgView>) -> CommandView {
    CommandView { program: Program::Powercfg, needs_windows: true, args }
}

/// The order to put a plan in force.
pub open spec fn set_active_command(guid: Seq<char>) -> CommandView {
    powercfg(seq![ArgView::Text("/setactive"@), ArgView::Text(guid)])
}

/// The order to delete a plan.
pub open spec fn delete_command(guid: Seq<char>) -> CommandView {
    powercfg(seq![ArgView::Text("/delete"@), ArgView::Text(guid)])
}

/// The order to duplicate a plan.
pub open spec fn duplicate_command(guid: Seq<char>) -> CommandView {
    powercfg(seq![ArgView::Text("/duplicatescheme"@), ArgView::Text(guid)])
}

/// The order to export a plan to a file.
pub open spec fn export_command(guid: Seq<char>, path: ArgView) -> CommandView {
    powercfg(seq![ArgView::Text("/export"@), path, ArgView::Text(guid)])
}

/// The arguments of the order to import a plan from a file, under a GUID of its own or under the
/// given one.
pub open spec fn import_args(path: ArgView, guid: Option<Seq<char>>) -> Seq<ArgView> {
    match guid {
        Some(guid) => seq![ArgView::Text("/import"@), path, ArgView::Text(guid)],
        None => seq![ArgView::Text("/import"@), path],
    }
}

/// The order to import a plan from a file.
pub open spec fn import_command(path: ArgView, guid: Option<Seq<char>>) -> CommandView {
    powercfg(import_args(path, guid))
}

/// The order to give a plan a name and, where one is given, a description.
pub open spec fn rename_command(
    guid: Seq<char>,
    name: Seq<char>,
    description: Option<Seq<char>>,
) -> CommandView {
    match description {
        Some(description) => powercfg(
            seq![
                ArgView::Text("/changename"@),
                ArgView::Text(guid),
                ArgView::Text(name),
                ArgView::Text(description),
            ],
        ),
        None => powercfg(
            seq![ArgView::Text("/changename"@), ArgView::Text(guid), ArgView::Text(name)],
        ),
    }
}

/// The question which plan is in force.
pub open spec fn active_command() -> CommandView {
    CommandView {
        program: Program::Powercfg,
        needs_windows: true,
        args: seq![ArgView::Text("/getactivescheme"@)],
    }
}

/// The question which plans there are.
pub open spec fn list_command() -> CommandView {
    powercfg(seq![ArgView::Text("/list"@)])
}

/// The order to restore the plans of Windows, with the given spelling of the switch.
pub open spec fn restore_command(switch: Seq<char>) -> CommandView {
    CommandView {
        program: Program::Powercfg,
        needs_windows: false,
        args: seq![ArgView::Text(switch)],
    }
}

/// The question for the description of a plan.
pub open spec fn description_command(guid: Seq<char>) -> CommandView {
    CommandView {
        program: Program::Reg,
        needs_windows: true,
        args: seq![
            ArgView::Text("query"@),
            ArgView::Text(
                "HKLM\\SYSTEM\\CurrentControlSet\\Control\\Power\\User\\PowerSchemes\\"@ + guid,
            ),
            ArgView::Text("/v"@),
            ArgView::Text("Description"@),
        ],
    }
}

/// The run of a script.
pub open spec fn script_command(script: Seq<char>) -> CommandView {
    CommandView {
        program: Program::Powershell,
        needs_windows: false,
        args: seq![
            ArgView::Text("-NoProfile"@),
            ArgView::Text("-NonInteractive"@),
            ArgView::Text("-ExecutionPolicy"@),
            ArgView::Text("Bypass"@),
            ArgView::Text("-Command"@),
            ArgView::Text(script),
        ],
    }
}

/// A text argument.
fn text_arg(given: &str) -> (r: Arg)
    ensures
        r@ == ArgView::Text(given@),
{
    Arg::Text(given.to_owned())
}

/// The command of `powercfg` with the given arguments, on Windows alone.
fn powercfg_with(args: Vec<Arg>) -> (r: CommandLine)
    ensures
        r@ == powercfg(arg_views(args@)),
{
    CommandLine { program: Program::Powercfg, needs_windows: true, args }
}

/// The arguments of the order to import a plan from a file.
pub fn import_power_plan_args(path: Arg, guid: Option<&str>) -> (r: Vec<Arg>)
    ensures
        arg_views(r@) == import_args(
            path@,
            match guid {
                Some(guid) => Some(guid@),
                None => None,
            },
        ),
        r@[1] == path,
{
    let mut args: Vec<Arg> = vec![text_arg("/import"), path];
    if let Some(guid) = guid {
        args.push(text_arg(guid));
    }
    assert(arg_views(args@) =~= import_args(
        path@,
        match guid {
            Some(guid) => Some(guid@),
            None => None,
        },
    ));
    args
}

/// The order to import a plan from a file, under a GUID that Windows chooses.
pub fn import_power_plan(path: Arg) -> (r: CommandLine)
    ensures
        r@ == import_command(path@, None),
{
    powercfg_with(import_power_plan_args(path, None))
}

/// The order to import a plan from a file under the given GUID.
pub fn import_power_plan_with_guid(path: Arg, guid: &str) -> (r: CommandLine)
    ensures
        r@ == import_command(path@, Some(guid@)),
{
    powercfg_with(import_power_plan_args(path, Some(guid)))
}

/// The order to export a plan to a file.
pub fn export_power_plan(guid: &str, path: Arg) -> (r: CommandLine)
    ensures
        r@ == export_command(guid@, path@),
{
    let args: Vec<Arg> = vec![text_arg("/export"), path, text_arg(guid)];
    assert(arg_views(args@) =~= export_command(guid@, path@).args);
    powercfg_with(args)
}

/// The order to put a plan in force.
pub fn set_active_plan(guid: &str) -> (r: CommandLine)
    ensures
        r@ == set_active_command(guid@),
{
    let args: Vec<Arg> = vec![text_arg("/setactive"), text_arg(guid)];
    assert(arg_views(args@) =~= set_active_command(guid@).args);
    powercfg_with(args)
}

/// The order to duplicate a plan.
pub fn duplicate_power_plan(guid: &str) -> (r: CommandLine)
    ensures
        r@ == duplicate_command(guid@),
{
    let args: Vec<Arg> = vec![text_arg("/duplicatescheme"), text_arg(guid)];
    assert(arg_views(args@) =~= duplicate_command(guid@).args);
    powercfg_with(args)
}

/// The order to give a plan a name and, where one is given, a description.
pub fn update_power_plan_metadata(guid: &str, name: &str, description: Option<&str>) -> (r:
    CommandLine)
    ensures
        r@ == rename_command(
            guid@,
            name@,
            match description {
                Some(description) => Some(description@),
                None => None,
            },
        ),
{
    let mut args: Vec<Arg> = vec![text_arg("/changename"), text_arg(guid), text_arg(name)];
    if let Some(description) = description {
        args.push(text_arg(description));
    }
    assert(arg_views(args@) =~= rename_command(
        guid@,
        name@,
        match description {
            Some(description) => Some(description@),
            None => None,
        },
    ).args);
    powercfg_with(args)
}

/// The order to delete a plan.
pub fn delete_power_plan(guid: &str) -> (r: CommandLine)
    ensures
        r@ == delete_command(guid@),
{
    let args: Vec<Arg> = vec![text_arg("/delete"), text_arg(guid)];
    assert(arg_views(args@) =~= delete_command(guid@).args);
    powercfg_with(args)
}

/// The question which plan is in force.
pub fn active_plan_query() -> (r: CommandLine)
    ensures
        r@ == active_command(),
{
    let args: Vec<Arg> = vec![text_arg("/getactivescheme")];
    assert(arg_views(args@) =~= active_command().args);
    powercfg_with(args)
}

/// The question which plans there are.
pub fn plan_list_query() -> (r: CommandLine)
    ensures
        r@ == list_command(),
{
    let args: Vec<Arg> = vec![text_arg("/list")];
    assert(arg_views(args@) =~= list_command().args);
    powercfg_with(args)
}

/// The question for the description of a plan.
pub fn description_query(guid: &str) -> (r: CommandLine)
    ensures
        r@ == description_command(guid@),
{
    let key = "HKLM\\SYSTEM\\CurrentControlSet\\Control\\Power\\User\\PowerSchemes\\".to_owned().concat(
        guid,
    );
    let args: Vec<Arg> = vec![
        text_arg("query"),
        Arg::Text(key),
        text_arg("/v"),
        text_arg("Description"),
    ];
    assert(arg_views(args@) =~= description_command(guid@).args);
    CommandLine { program: Program::Reg, needs_windows: true, args }
}

/// The order to restore the plans of Windows, with the given spelling of the switch.
pub fn restore_order(switch: &str) -> (r: CommandLine)
    ensures
        r@ == restore_command(switch@),
{
    let args: Vec<Arg> = vec![text_arg(switch)];
    assert(arg_views(args@) =~= restore_command(switch@).args);
    CommandLine { program: Program::Powercfg, needs_windows: false, args }
}

/// The run of a script.
pub fn run_powershell_script(script: &str) -> (r: CommandLine)
    ensures
        r@ == script_command(script@),
{
    let args: Vec<Arg> = vec![
        text_arg("-NoProfile"),
        text_arg("-NonInteractive"),
        text_arg("-ExecutionPolicy"),
        text_arg("Bypass"),
        text_arg("-Command"),
        text_arg(script),
    ];
    assert(arg_views(args@) =~= script_command(script@).args);
    CommandLine { program: Program::Powershell, needs_windows: false, args }
}

/// `value` with each apostrophe written twice.
pub open spec fn doubled(value: Seq<char>) -> Seq<char>
    decreases value.len(),
{
    if value.len() == 0 {
        Seq::empty()
    } else if value[0] == '\'' {
        seq!['\'', '\''] + doubled(value.drop_first())
    } else {
        seq![value[0]] + doubled(value.drop_first())
    }
}

/// `value` as a PowerShell string in apostrophes.
pub open spec fn quoted(value: Seq<char>) -> Seq<char> {
    "'"@ + doubled(value) + "'"@
}

/// What PowerShell reads between the apostrophes of a string: each pair of apostrophes is one, and
/// a single one would end the string.
pub open spec fn quote_contents(inside: Seq<char>) -> Option<Seq<char>>
    decreases inside.len(),
{
    if inside.len() == 0 {
        Some(Seq::empty())
    } else if inside[0] != '\'' {
        match quote_contents(inside.drop_first()) {
            Some(rest) => Some(seq![inside[0]] + rest),
            None => None,
        }
    } else if inside.len() > 1 && inside[1] == '\'' {
        match quote_contents(inside.skip(2)) {
            Some(rest) => Some(seq!['\''] + rest),
            None => None,
        }
    } else {
        None
    }
}

proof fn lemma_doubled_reads_back(value: Seq<char>)
    ensures
        quote_contents(doubled(value)) == Some(value),
    decreases value.len(),
{
    if value.len() > 0 {
        let rest = value.drop_first();
        lemma_doubled_reads_back(rest);
        if value[0] == '\'' {
            assert(doubled(value).skip(2) == doubled(rest));
        } else {
            assert(doubled(value).drop_first() == doubled(rest));
        }
        assert(seq![value[0]] + rest == value);
    }
}

/// Quoting loses nothing: PowerShell reads the quoted text as one string, which is the value, so
/// that no value can end its string early.
pub proof fn law_quoted_text_reads_back(value: Seq<char>)
    ensures
        quoted(value).first() == '\'',
        quoted(value).last() == '\'',
        quoted(value).len() >= 2,
        quote_contents(quoted(value).subrange(1, quoted(value).len() - 1)) == Some(value),
{
    reveal_strlit("'");
    lemma_doubled_reads_back(value);
    assert(quoted(value).subrange(1, quoted(value).len() - 1) == doubled(value));
}

/// `value` as a PowerShell string in apostrophes.
pub fn ps_single_quote(value: &str) -> (r: String)
    ensures
        r@ == quoted(value@),
{
    let chars = text::chars_of(value);
    let mut inside = String::new();
    let mut i: usize = 0;
    assert(value@.skip(0) == value@);
    while i < chars.len()
        invariant
            i <= chars.len(),
            chars@ == value@,
            inside@ + doubled(value@.skip(i as int)) == doubled(value@),
        decreases chars.len() - i,
    {
        let ghost before = inside@;
        let ghost rest = value@.skip(i as int);
        if chars[i] == '\'' {
            inside.push('\'');
            inside.push('\'');
            assert(inside@ == before + seq!['\'', '\'']);
        } else {
            inside.push(chars[i]);
            assert(inside@ == before + seq![rest[0]]);
        }
        i = i + 1;
        assert(rest.drop_first() == value@.skip(i as int));
        assert(inside@ + doubled(rest.drop_first()) == before + doubled(rest));
    }
    assert(inside@ == doubled(value@));
    "'".to_owned().concat(inside.as_str()).concat("'")
}

/// A path, given by its text, as a PowerShell string in apostrophes.
pub fn ps_single_quote_path(path: &str) -> (r: String)
    ensures
        r@ == quoted(path@),
{
    ps_single_quote(path)
}

/// The script that downloads `url` to the file `destination`.
pub open spec fn download_script(url: Seq<char>, destination: Seq<char>) -> Seq<char> {
    "$ErrorActionPreference = 'Stop'; [Net.ServicePointManager]::SecurityProtocol = [Net.SecurityProtocolType]::Tls12; Invoke-WebRequest -Uri "@
        + quoted(url) + " -OutFile "@ + quoted(destination) + " -UseBasicParsing"@
}

/// The script that unpacks the archive `zip` into the folder `destination`.
pub open spec fn extract_script(zip: Seq<char>, destination: Seq<char>) -> Seq<char> {
    "$ErrorActionPreference = 'Stop'; Expand-Archive -LiteralPath "@ + quoted(zip)
        + " -DestinationPath "@ + quoted(destination) + " -Force"@
}

/// The run of the script that downloads `url` to the file `destination`.
pub fn download_file(url: &str, destination: &str) -> (r: CommandLine)
    ensures
        r@ == script_command(download_script(url@, destination@)),
{
    let script =
        "$ErrorActionPreference = 'Stop'; [Net.ServicePointManager]::SecurityProtocol = [Net.SecurityProtocolType]::Tls12; Invoke-WebRequest -Uri ".to_owned().concat(
    ps_single_quote(url).as_str()).concat(" -OutFile ").concat(
        ps_single_quote_path(destination).as_str(),
    ).concat(" -UseBasicParsing");
    run_powershell_script(script.as_str())
}

/// The run of the script that unpacks the archive `zip` into the folder `destination`.
pub fn extract_zip(zip: &str, destination: &str) -> (r: CommandLine)
    ensures
        r@ == script_command(extract_script(zip@, destination@)),
{
    let script = "$ErrorActionPreference = 'Stop'; Expand-Archive -LiteralPath ".to_owned().concat(
        ps_single_quote_path(zip).as_str(),
    ).concat(" -DestinationPath ").concat(ps_single_quote_path(destination).as_str()).concat(
        " -Force",
    );
    run_powershell_script(script.as_str())
}

/// The complaint of a command that is for Windows alone.
pub open spec fn windows_only() -> Seq<char> {
    "This app manages Windows power plans and must be run on Windows"@
}

/// Success on Windows, a complaint elsewhere.
pub fn ensure_windows(on_windows: bool) -> (r: Result<(), String>)
    ensures
        match r {
            Ok(_) => on_windows,
            Err(error) => !on_windows && error@ == windows_only(),
        },
{
    if on_windows {
        Ok(())
    } else {
        Err("This app manages Windows power plans and must be run on Windows".to_owned())
    }
}

/// What `String::from_utf8_lossy` makes of some bytes.
pub uninterp spec fn utf8_lossy(bytes: Seq<u8>) -> Seq<char>;

/// `String::from_utf8_lossy`: the text that some bytes encode. Claimed are that the text depends on
/// the bytes alone, and that valid UTF-8 gives the text that it encodes. What stands in for the
/// invalid parts of other bytes is left to the name.
#[verifier::external_body]
pub(crate) fn from_utf8_lossy(bytes: &[u8]) -> (r: String)
    ensures
        r@ == utf8_lossy(bytes@),
        valid_utf8(bytes@) ==> r@ == decode_utf8(bytes@),
{
    String::from_utf8_lossy(bytes).into_owned()
}

/// What became of a command.
#[derive(Debug)]
pub enum Ran {
    /// It could not be started, for the given reason.
    NotStarted(String),
    /// It ended.
    Ended {
        /// Whether it reported success.
        success: bool,
        /// What it printed.
        stdout: Vec<u8>,
        /// What it printed as errors.
        stderr: Vec<u8>,
    },
}

/// The arguments of a command as they are shown, with spaces between them.
pub fn display_args(args: &Vec<String>) -> (r: String)
    ensures
        r@ == text::joined(text::views(args@), " "@),
{
    text::join(args, " ")
}

/// A printed text without white space at its ends.
pub open spec fn printed(bytes: Seq<u8>) -> Seq<char> {
    text::trimmed(utf8_lossy(bytes))
}

/// The details of a failure: what was printed as errors; where that is nothing, what was printed.
pub open spec fn failure_details(stdout: Seq<u8>, stderr: Seq<u8>) -> Seq<char> {
    let details = if printed(stderr).len() == 0 {
        printed(stdout)
    } else {
        printed(stderr)
    };
    if details.len() == 0 {
        "no error details returned"@
    } else {
        details
    }
}

/// The answer of a command: what it printed, or why it failed. `args` are its arguments as they
/// are shown.
pub fn run_command(program: &str, args: &Vec<String>, ran: Ran) -> (r: Result<String, String>)
    ensures
        match (ran, r) {
            (Ran::Ended { success: true, stdout, .. }, Ok(output)) => output@ == printed(stdout@),
            (Ran::Ended { success: false, stdout, stderr }, Err(error)) => error@ == program@
                + " "@ + text::joined(text::views(args@), " "@) + " failed: "@ + failure_details(
                stdout@,
                stderr@,
            ),
            (Ran::NotStarted(reason), Err(error)) => error@ == "Failed to run "@ + program@ + ": "@
                + reason@,
            _ => false,
        },
        ran matches Ran::Ended { stdout, stderr, .. } ==> {
            &&& valid_utf8(stdout@) ==> printed(stdout@) == text::trimmed(decode_utf8(stdout@))
            &&& valid_utf8(stderr@) ==> printed(stderr@) == text::trimmed(decode_utf8(stderr@))
        },
{
    match ran {
        Ran::NotStarted(reason) => Err(
            "Failed to run ".to_owned().concat(program).concat(": ").concat(reason.as_str()),
        ),
        Ran::Ended { success, stdout, stderr } => {
            let output = text::trim(from_utf8_lossy(stdout.as_slice()).as_str());
            let errors = text::trim(from_utf8_lossy(stderr.as_slice()).as_str());
            if success {
                return Ok(output);
            }
            let details = if errors.as_str().is_empty() {
                output
            } else {
                errors
            };
            let shown = if details.as_str().is_empty() {
                "no error details returned".to_owned()
            } else {
                details
            };
            Err(
                program.to_owned().concat(" ").concat(display_args(args).as_str()).concat(
                    " failed: ",
                ).concat(shown.as_str()),
            )
        },
    }
}

/// The folder below which downloads are kept: the user's local application data where the system
/// names it, else the folder for temporary files.
pub fn fpsheaven_download_base_dir_from<P>(local_app_data: Option<P>, temp_dir: P) -> (r: P)
    ensures
        r == match local_app_data {
            Some(folder) => folder,
            None => temp_dir,
        },
{
    match local_app_data {
        Some(folder) => folder,
        None => temp_dir,
    }
}

/// The folders, one in the other, that lead from the base folder to the downloads.
pub fn fpsheaven_download_dir() -> (r: [&'static str; 2])
    ensures
        r@ == seq![APP_DATA_FOLDER, FPSHEAVEN_DOWNLOADS_FOLDER],
{
    [APP_DATA_FOLDER, FPSHEAVEN_DOWNLOADS_FOLDER]
}

/// The names of the folders and of the archive are plain ASCII.
pub proof fn law_download_names_are_ascii()
    ensures
        is_ascii_chars(APP_DATA_FOLDER@),
        is_ascii_chars(FPSHEAVEN_DOWNLOADS_FOLDER@),
        is_ascii_chars(FPSHEAVEN_POWER_PLANS_FOLDER@),
        is_ascii_chars(FPSHEAVEN_POWER_PLANS_ZIP_FILE@),
{
    reveal_strlit("Simple Power Plan Manager");
    reveal_strlit("FPSHEAVEN Downloads");
    reveal_strlit("FPSHEAVEN Power Plans");
    reveal_strlit("fpsheaven_powerplans.zip");
}

} // verus!
