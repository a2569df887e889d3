//! The providers: for each terminal that a program can be relaunched in,
//! whether it is installed and how the program is started in it.
//!
//! A provider starts nothing itself. It reads a record of what is installed
//! and returns a plan: the launcher to run, its arguments and its working
//! directory. Whoever holds the plan runs it.

use crate::errors::{RelaunchError, TermResult};
use crate::shell::{shell_escape, shell_escape_args, shell_escaped, shell_escaped_args};
use crate::terminal::{OperatingSystem, TerminalType};
use crate::text::{push_all, push_str, str_eq, string_views};
use vstd::prelude::*;

verus! {

/// The argument that marks a process as one that was relaunched already.
pub const RELAUNCHED_ARGUMENT: &'static str = "--relaunched-term";

/// The registry key, under the current user, that Windows Terminal registers.
pub const WINDOWS_TERMINAL_INSTALL_PATH: &'static str =
    "SOFTWARE\\Microsoft\\Windows\\CurrentVersion\\App Paths\\wt.exe";

/// The application bundle of iTerm2.
pub const ITERM_APP: &'static str = "/Applications/iTerm.app";

/// The application bundle of Ghostty.
pub const GHOSTTY_APP: &'static str = "/Applications/Ghostty.app";

/// The application bundle of Kitty.
pub const KITTY_APP: &'static str = "/Applications/kitty.app";

/// The application bundle of Alacritty.
pub const ALACRITTY_APP: &'static str = "/Applications/alacritty.app";

/// The application bundle of WezTerm.
pub const WEZ_TERM_APP: &'static str = "/Applications/WezTerm.app";

/// The script for iTerm2, up to the command that it writes into the session.
/// It activates the application and waits, for at most 50 rounds of a tenth
/// of a second, until a window exists.
pub const ITERM_SCRIPT_HEAD: &'static str =
    "\ntell application \"iTerm\"\n    activate\n    repeat 50 times\n        if (count of windows) > 0 then exit repeat\n        delay 0.1\n    end repeat\n    if (count of windows) > 0 then\n        tell current session of current window\n            write text \"";

/// The script for iTerm2, from the end of the command on. Without a window
/// the script fails with error number 20.
pub const ITERM_SCRIPT_TAIL: &'static str =
    "\"\n        end tell\n    else\n        error \"no window\" number 20\n    end if\nend tell\n";

/// What is installed, as mathematical values.
pub struct InstalledView {
    /// The registry holds the key of Windows Terminal.
    pub windows_terminal_registered: bool,
    /// The paths that were found to exist.
    pub existing_paths: Set<Seq<char>>,
}

/// A record of the installed software that the providers ask about.
pub struct InstalledSoftware {
    windows_terminal_registered: bool,
    existing_paths: Vec<String>,
}

impl View for InstalledSoftware {
    type V = InstalledView;

    closed spec fn view(&self) -> InstalledView {
        InstalledView {
            windows_terminal_registered: self.windows_terminal_registered,
            existing_paths: string_views(self.existing_paths@).to_set(),
        }
    }
}

impl InstalledSoftware {
    /// A record in which nothing is installed.
    pub fn new() -> (r: InstalledSoftware)
        ensures
            !r@.windows_terminal_registered,
            r@.existing_paths == Set::<Seq<char>>::empty(),
    {
        let r = InstalledSoftware { windows_terminal_registered: false, existing_paths: Vec::new() };
        assert(r@.existing_paths =~= Set::<Seq<char>>::empty());
        r
    }

    /// Records whether the registry holds the key of Windows Terminal.
    pub fn set_windows_terminal_registered(&mut self, registered: bool)
        ensures
            final(self)@.windows_terminal_registered == registered,
            final(self)@.existing_paths == old(self)@.existing_paths,
    {
        self.windows_terminal_registered = registered;
    }

    /// Records that a path exists.
    pub fn add_existing_path(&mut self, path: &str)
        ensures
            final(self)@.windows_terminal_registered == old(self)@.windows_terminal_registered,
            final(self)@.existing_paths == old(self)@.existing_paths.insert(path@),
    {
        let ghost before = string_views(self.existing_paths@);
        push_str(&mut self.existing_paths, path);
        proof {
            let after = string_views(self.existing_paths@);
            assert(after == before.push(path@));
            assert forall|p: Seq<char>| after.contains(p) <==> (before.contains(p) || p == path@) by {
                if before.contains(p) {
                    let i = choose|i: int| 0 <= i < before.len() && before[i] == p;
                    assert(after[i] == p);
                }
                if p == path@ {
                    assert(after[before.len() as int] == p);
                }
            }
            assert(after.to_set() =~= before.to_set().insert(path@));
        }
    }

    /// Whether a path was recorded as existing.
    pub fn path_exists(&self, path: &str) -> (r: bool)
        ensures
            r == self@.existing_paths.contains(path@),
    {
        let ghost views = string_views(self.existing_paths@);
        let mut i: usize = 0;
        while i < self.existing_paths.len()
            invariant
                i <= self.existing_paths@.len(),
                views == string_views(self.existing_paths@),
                forall|j: int| 0 <= j < i ==> views[j] != path@,
            decreases self.existing_paths@.len() - i,
        {
            if str_eq(self.existing_paths[i].as_str(), path) {
                assert(views[i as int] == path@);
                return true;
            }
            i += 1;
        }
        false
    }

    /// Whether the registry holds the key of Windows Terminal.
    pub fn windows_terminal_registered(&self) -> (r: bool)
        ensures
            r == self@.windows_terminal_registered,
    {
        self.windows_terminal_registered
    }
}

/// What a relaunch starts from, as mathematical values.
pub struct ParamsView {
    pub exe: Seq<char>,
    pub cwd: Seq<char>,
    pub args: Seq<Seq<char>>,
}

/// What a relaunch starts from: the program, the directory it runs in and
/// the arguments that the new process gets.
#[derive(Debug, PartialEq, Eq)]
pub struct RelaunchParams {
    /// The path of the running program.
    pub exe: String,
    /// The working directory.
    pub cwd: String,
    /// The arguments of the new process, without the program's name.
    pub args: Vec<String>,
}

impl View for RelaunchParams {
    type V = ParamsView;

    open spec fn view(&self) -> ParamsView {
        ParamsView { exe: self.exe@, cwd: self.cwd@, args: string_views(self.args@) }
    }
}

/// The arguments of a process without the name it was called by.
pub open spec fn without_program_name(args: Seq<Seq<char>>) -> Seq<Seq<char>> {
    if args.len() > 0 {
        args.skip(1)
    } else {
        args
    }
}

/// The arguments of the relaunched process: the marker first, then the
/// arguments of this process, unchanged.
pub open spec fn relaunch_args(process_args: Seq<Seq<char>>) -> Seq<Seq<char>> {
    seq![RELAUNCHED_ARGUMENT@] + without_program_name(process_args)
}

/// Puts together what a relaunch starts from. `process_args` are the
/// arguments of this process, the first of which is the name it was called
/// by: that name is left out and the marker is put in front of the others.
pub fn get_relaunch_params(exe: String, cwd: String, process_args: &Vec<String>) -> (r:
    RelaunchParams)
    ensures
        r@.exe == exe@,
        r@.cwd == cwd@,
        r@.args == relaunch_args(string_views(process_args@)),
{
    let ghost given = string_views(process_args@);
    let mut args: Vec<String> = Vec::new();
    push_str(&mut args, RELAUNCHED_ARGUMENT);
    let mut i: usize = 1;
    assert(string_views(args@) =~= seq![RELAUNCHED_ARGUMENT@]);
    while i < process_args.len()
        invariant
            1 <= i,
            given == string_views(process_args@),
            i <= given.len() || given.len() == 0,
            given.len() > 0 ==> string_views(args@) == seq![RELAUNCHED_ARGUMENT@] + given.subrange(
                1,
                i as int,
            ),
            given.len() == 0 ==> string_views(args@) == seq![RELAUNCHED_ARGUMENT@],
        decreases process_args@.len() - i,
    {
        let ghost before = string_views(args@);
        push_str(&mut args, process_args[i].as_str());
        assert(given.subrange(1, i + 1) =~= given.subrange(1, i as int).push(given[i as int]));
        assert(string_views(args@) =~= seq![RELAUNCHED_ARGUMENT@] + given.subrange(1, i + 1));
        i += 1;
    }
    proof {
        if given.len() > 0 {
            assert(given.subrange(1, i as int) =~= given.skip(1));
        } else {
            assert(string_views(args@) =~= seq![RELAUNCHED_ARGUMENT@] + given);
        }
    }
    RelaunchParams { exe, cwd, args }
}

/// A plan as mathematical values.
pub struct LaunchPlanView {
    pub terminal: TerminalType,
    pub program: Seq<char>,
    pub args: Seq<Seq<char>>,
    pub working_dir: Option<Seq<char>>,
    pub wait: bool,
}

/// How to start the program in a terminal.
#[derive(Debug, PartialEq, Eq)]
pub struct LaunchPlan {
    /// The terminal that the plan starts.
    pub terminal: TerminalType,
    /// The launcher to run.
    pub program: String,
    /// The arguments of the launcher.
    pub args: Vec<String>,
    /// The directory to run the launcher in; `None` for that of this process.
    pub working_dir: Option<String>,
    /// Whether to wait for the launcher and judge the launch by its exit
    /// status. Without it the launcher is left running on its own.
    pub wait: bool,
}

impl View for LaunchPlan {
    type V = LaunchPlanView;

    open spec fn view(&self) -> LaunchPlanView {
        LaunchPlanView {
            terminal: self.terminal,
            program: self.program@,
            args: string_views(self.args@),
            working_dir: match self.working_dir {
                Some(dir) => Some(dir@),
                None => None,
            },
            wait: self.wait,
        }
    }
}

/// The application bundle whose presence shows that a terminal is installed.
pub open spec fn bundle_path(kind: TerminalType) -> Option<Seq<char>> {
    match kind {
        TerminalType::ITerm2 => Some(ITERM_APP@),
        TerminalType::Ghostty => Some(GHOSTTY_APP@),
        TerminalType::Kitty => Some(KITTY_APP@),
        TerminalType::Alacritty => Some(ALACRITTY_APP@),
        TerminalType::WezTerm => Some(WEZ_TERM_APP@),
        _ => None,
    }
}

/// The operating system on which the provider of a terminal can work:
/// Windows for Windows Terminal, macOS for the terminals that are started as
/// application bundles, none for the terminals without a provider.
pub open spec fn provider_supported(kind: TerminalType, os: OperatingSystem) -> bool {
    match kind {
        TerminalType::WindowsTerminal => os is Windows,
        _ => bundle_path(kind) is Some && os is MacOS,
    }
}

/// Whether a terminal counts as installed: its provider can work on the
/// operating system, and the registry key or the application bundle is there.
pub open spec fn installed(kind: TerminalType, os: OperatingSystem, software: InstalledView) -> bool {
    provider_supported(kind, os) && match kind {
        TerminalType::WindowsTerminal => software.windows_terminal_registered,
        _ => software.existing_paths.contains(bundle_path(kind)->0),
    }
}

/// The plan for Windows Terminal: a new tab that starts in the working
/// directory and runs the program with its arguments.
pub open spec fn windows_terminal_plan(params: ParamsView) -> LaunchPlanView {
    LaunchPlanView {
        terminal: TerminalType::WindowsTerminal,
        program: "wt"@,
        args: seq!["new-tab"@, "--startingDirectory"@, params.cwd, "--"@, params.exe] + params.args,
        working_dir: None,
        wait: false,
    }
}

/// The command line that iTerm2 is made to type: change to the working
/// directory, then replace the shell by the program. Every part that the
/// shell reads is quoted.
pub open spec fn iterm_command(params: ParamsView) -> Seq<char> {
    "cd "@ + shell_escaped(params.cwd) + "; exec "@ + shell_escaped(params.exe) + " "@
        + shell_escaped_args(params.args)
}

/// The plan for iTerm2: the script interpreter runs the script that writes
/// the command line into the current session, and is waited for.
pub open spec fn iterm_plan(params: ParamsView) -> LaunchPlanView {
    LaunchPlanView {
        terminal: TerminalType::ITerm2,
        program: "osascript"@,
        args: seq!["-e"@, ITERM_SCRIPT_HEAD@ + iterm_command(params) + ITERM_SCRIPT_TAIL@],
        working_dir: None,
        wait: true,
    }
}

/// The plan for a terminal that is started as an application bundle: a new
/// instance of the application, in the working directory, that gets the
/// program and its arguments, after `-e` where the terminal asks for it.
pub open spec fn open_app_plan(
    kind: TerminalType,
    app: Seq<char>,
    dash_e: bool,
    params: ParamsView,
) -> LaunchPlanView {
    LaunchPlanView {
        terminal: kind,
        program: "open"@,
        args: seq!["-na"@, app, "--args"@] + (if dash_e {
            seq!["-e"@]
        } else {
            Seq::<Seq<char>>::empty()
        }) + seq![params.exe] + params.args,
        working_dir: Some(params.cwd),
        wait: false,
    }
}

/// The plan by which the provider of a terminal starts the program.
pub open spec fn launch_plan(kind: TerminalType, params: ParamsView) -> LaunchPlanView {
    match kind {
        TerminalType::WindowsTerminal => windows_terminal_plan(params),
        TerminalType::ITerm2 => iterm_plan(params),
        TerminalType::Ghostty => open_app_plan(kind, "Ghostty"@, true, params),
        TerminalType::Kitty => open_app_plan(kind, "kitty"@, false, params),
        TerminalType::Alacritty => open_app_plan(kind, "alacritty"@, true, params),
        _ => open_app_plan(kind, "WezTerm"@, true, params),
    }
}

/// What a provider answers when asked for a plan: the plan of its terminal
/// where it can work on the operating system, else the error that names the
/// terminal.
pub open spec fn is_planned(
    r: TermResult<LaunchPlan>,
    kind: TerminalType,
    os: OperatingSystem,
    params: ParamsView,
) -> bool {
    match r {
        Ok(plan) => provider_supported(kind, os) && plan@ == launch_plan(kind, params),
        Err(e) => !provider_supported(kind, os) && e == RelaunchError::UnsupportedTerminalProvider(
            kind,
        ),
    }
}

/// What the library needs of a terminal to relaunch a program in it.
pub trait TerminalProvider {
    /// The terminal that the provider stands for.
    spec fn provided(&self) -> TerminalType;

    /// The terminal that this provider starts.
    fn terminal_type(&self) -> (r: TerminalType)
        ensures
            r == self.provided(),
    ;

    /// Whether the terminal is installed, going by the record. The answer
    /// is `false` on an operating system on which the provider cannot work.
    fn is_installed(&self, os: OperatingSystem, software: &InstalledSoftware) -> (r: bool)
        ensures
            r == installed(self.provided(), os, software@),
    ;

    /// The plan that starts the program in the terminal; an error where the
    /// provider cannot work on the operating system.
    fn relaunch_in_terminal(&self, os: OperatingSystem, params: &RelaunchParams) -> (r: TermResult<
        LaunchPlan,
    >)
        ensures
            is_planned(r, self.provided(), os, params@),
    ;
}

/// Whether the application bundle of a terminal is recorded, on macOS.
fn bundle_installed(os: OperatingSystem, software: &InstalledSoftware, path: &str) -> (r: bool)
    ensures
        r == (os is MacOS && software@.existing_paths.contains(path@)),
{
    match os {
        OperatingSystem::MacOS => software.path_exists(path),
        _ => false,
    }
}

/// Builds the plan of a terminal that is started as an application bundle.
fn plan_open_app(kind: TerminalType, app: &str, dash_e: bool, params: &RelaunchParams) -> (r:
    LaunchPlan)
    ensures
        r@ == open_app_plan(kind, app@, dash_e, params@),
{
    let mut args: Vec<String> = Vec::new();
    push_str(&mut args, "-na");
    push_str(&mut args, app);
    push_str(&mut args, "--args");
    if dash_e {
        push_str(&mut args, "-e");
    }
    push_str(&mut args, params.exe.as_str());
    push_all(&mut args, &params.args);
    let plan = LaunchPlan {
        terminal: kind,
        program: String::from_str("open"),
        args,
        working_dir: Some(params.cwd.clone()),
        wait: false,
    };
    assert(plan@.args =~= open_app_plan(kind, app@, dash_e, params@).args);
    plan
}

/// The provider of Windows Terminal.
pub struct WindowsTerminalProvider;

impl TerminalProvider for WindowsTerminalProvider {
    open spec fn provided(&self) -> TerminalType {
        TerminalType::WindowsTerminal
    }

    fn terminal_type(&self) -> (r: TerminalType) {
        TerminalType::WindowsTerminal
    }

    fn is_installed(&self, os: OperatingSystem, software: &InstalledSoftware) -> (r: bool) {
        match os {
            OperatingSystem::Windows => software.windows_terminal_registered(),
            _ => false,
        }
    }

    fn relaunch_in_terminal(&self, os: OperatingSystem, params: &RelaunchParams) -> (r: TermResult<
        LaunchPlan,
    >) {
        match os {
            OperatingSystem::Windows => {
                let mut args: Vec<String> = Vec::new();
                push_str(&mut args, "new-tab");
                push_str(&mut args, "--startingDirectory");
                push_str(&mut args, params.cwd.as_str());
                push_str(&mut args, "--");
                push_str(&mut args, params.exe.as_str());
                push_all(&mut args, &params.args);
                let plan = LaunchPlan {
                    terminal: TerminalType::WindowsTerminal,
                    program: String::from_str("wt"),
                    args,
                    working_dir: None,
                    wait: false,
                };
                assert(plan@.args =~= windows_terminal_plan(params@).args);
                Ok(plan)
            },
            _ => Err(RelaunchError::UnsupportedTerminalProvider(self.terminal_type())),
        }
    }
}

/// The provider of iTerm2.
pub struct ITerm2Provider;

impl TerminalProvider for ITerm2Provider {
    open spec fn provided(&self) -> TerminalType {
        TerminalType::ITerm2
    }

    fn terminal_type(&self) -> (r: TerminalType) {
        TerminalType::ITerm2
    }

    fn is_installed(&self, os: OperatingSystem, software: &InstalledSoftware) -> (r: bool) {
        bundle_installed(os, software, ITERM_APP)
    }

    fn relaunch_in_terminal(&self, os: OperatingSystem, params: &RelaunchParams) -> (r: TermResult<
        LaunchPlan,
    >) {
        match os {
            OperatingSystem::MacOS => {
                let quoted_wd = shell_escape(params.cwd.as_str());
                let quoted_exe = shell_escape(params.exe.as_str());
                let quoted_args = shell_escape_args(&params.args);

                let mut cmd = String::from_str("cd ");
                cmd.append(quoted_wd.as_str());
                cmd.append("; exec ");
                cmd.append(quoted_exe.as_str());
                cmd.append(" ");
                cmd.append(quoted_args.as_str());
                assert(cmd@ =~= iterm_command(params@));

                let mut script = String::from_str(ITERM_SCRIPT_HEAD);
                script.append(cmd.as_str());
                script.append(ITERM_SCRIPT_TAIL);

                let mut args: Vec<String> = Vec::new();
                push_str(&mut args, "-e");
                push_str(&mut args, script.as_str());
                let plan = LaunchPlan {
                    terminal: TerminalType::ITerm2,
                    program: String::from_str("osascript"),
                    args,
                    working_dir: None,
                    wait: true,
                };
                assert(plan@.args =~= iterm_plan(params@).args);
                Ok(plan)
            },
            _ => Err(RelaunchError::UnsupportedTerminalProvider(self.terminal_type())),
        }
    }
}

/// The provider of Ghostty.
pub struct GhosttyProvider;

impl TerminalProvider for GhosttyProvider {
    open spec fn provided(&self) -> TerminalType {
        TerminalType::Ghostty
    }

    fn terminal_type(&self) -> (r: TerminalType) {
        TerminalType::Ghostty
    }

    fn is_installed(&self, os: OperatingSystem, software: &InstalledSoftware) -> (r: bool) {
        bundle_installed(os, software, GHOSTTY_APP)
    }

    fn relaunch_in_terminal(&self, os: OperatingSystem, params: &RelaunchParams) -> (r: TermResult<
        LaunchPlan,
    >) {
        match os {
            OperatingSystem::MacOS => Ok(
                plan_open_app(self.terminal_type(), "Ghostty", true, params),
            ),
            _ => Err(RelaunchError::UnsupportedTerminalProvider(self.terminal_type())),
        }
    }
}

/// The provider of Kitty.
pub struct KittyProvider;

impl TerminalProvider for KittyProvider {
    open spec fn provided(&self) -> TerminalType {
        TerminalType::Kitty
    }

    fn terminal_type(&self) -> (r: TerminalType) {
        TerminalType::Kitty
    }

    fn is_installed(&self, os: OperatingSystem, software: &InstalledSoftware) -> (r: bool) {
        bundle_installed(os, software, KITTY_APP)
    }

    fn relaunch_in_terminal(&self, os: OperatingSystem, params: &RelaunchParams) -> (r: TermResult<
        LaunchPlan,
    >) {
        match os {
            OperatingSystem::MacOS => Ok(
                plan_open_app(self.terminal_type(), "kitty", false, params),
            ),
            _ => Err(RelaunchError::UnsupportedTerminalProvider(self.terminal_type())),
        }
    }
}

/// The provider of Alacritty.
pub struct AlacrittyProvider;

impl TerminalProvider for AlacrittyProvider {
    open spec fn provided(&self) -> TerminalType {
        TerminalType::Alacritty
    }

    fn terminal_type(&self) -> (r: TerminalType) {
        TerminalType::Alacritty
    }

    fn is_installed(&self, os: OperatingSystem, software: &InstalledSoftware) -> (r: bool) {
        bundle_installed(os, software, ALACRITTY_APP)
    }

    fn relaunch_in_terminal(&self, os: OperatingSystem, params: &RelaunchParams) -> (r: TermResult<
        LaunchPlan,
    >) {
        match os {
            OperatingSystem::MacOS => Ok(
                plan_open_app(self.terminal_type(), "alacritty", true, params),
            ),
            _ => Err(RelaunchError::UnsupportedTerminalProvider(self.terminal_type())),
        }
    }
}

/// The provider of WezTerm.
pub struct WezTermProvider;

impl TerminalProvider for WezTermProvider {
    open spec fn provided(&self) -> TerminalType {
        TerminalType::WezTerm
    }

    fn terminal_type(&self) -> (r: TerminalType) {
        TerminalType::WezTerm
    }

    fn is_installed(&self, os: OperatingSystem, software: &InstalledSoftware) -> (r: bool) {
        bundle_installed(os, software, WEZ_TERM_APP)
    }

    fn relaunch_in_terminal(&self, os: OperatingSystem, params: &RelaunchParams) -> (r: TermResult<
        LaunchPlan,
    >) {
        match os {
            OperatingSystem::MacOS => Ok(
                plan_open_app(self.terminal_type(), "WezTerm", true, params),
            ),
            _ => Err(RelaunchError::UnsupportedTerminalProvider(self.terminal_type())),
        }
    }
}

} // verus!
