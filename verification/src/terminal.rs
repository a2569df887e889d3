//! The terminals the library knows, the operating systems they run on and
//! the features each terminal supports.

use crate::text::str_eq;
use vstd::prelude::*;

verus! {

/// The kinds of terminal that can be told apart.
///
/// The order of the variants is the order of preference when several
/// preferred terminals are installed.
#[derive(Debug, Clone, Copy, PartialEq, Eq, PartialOrd, Ord, Hash, Structural)]
pub enum TerminalType {
    /// The terminal could not be identified.
    Unknown,
    /// The default Windows console (`cmd.exe` or `powershell.exe`).
    WindowsCMD,
    /// Windows Terminal (`wt.exe`).
    WindowsTerminal,
    /// The default macOS terminal (Terminal.app).
    MacOS,
    /// iTerm2 on macOS.
    ITerm2,
    /// Kitty on macOS.
    Kitty,
    /// Ghostty on macOS.
    Ghostty,
    /// Some other third-party terminal on macOS.
    ThirdPartyMacOSTerminal,
    /// A generic Linux terminal.
    LinuxTerminal,
    /// WezTerm, on any operating system.
    WezTerm,
    /// Alacritty, on any operating system.
    Alacritty,
    /// The terminal embedded in VS Code.
    VSCode,
    /// A terminal running inside Neovim.
    Nvim,
}

/// The operating system a process runs on.
#[derive(Debug, Clone, Copy, PartialEq, Eq, PartialOrd, Ord, Hash, Structural)]
pub enum OperatingSystem {
    Windows,
    MacOS,
    Linux,
    Unknown,
}

/// The operating system a terminal, or an identification rule, is meant for.
#[derive(Debug, Clone, Copy, PartialEq, Eq, PartialOrd, Ord, Hash, Structural)]
pub enum TargetOperatingSystem {
    /// Matches no operating system.
    Invalid,
    /// Windows only.
    Windows,
    /// macOS only.
    MacOS,
    /// Linux only.
    Linux,
    /// Every operating system.
    Any,
}

/// All terminal kinds, in declaration order.
pub open spec fn all_terminal_types() -> Seq<TerminalType> {
    seq![
        TerminalType::Unknown,
        TerminalType::WindowsCMD,
        TerminalType::WindowsTerminal,
        TerminalType::MacOS,
        TerminalType::ITerm2,
        TerminalType::Kitty,
        TerminalType::Ghostty,
        TerminalType::ThirdPartyMacOSTerminal,
        TerminalType::LinuxTerminal,
        TerminalType::WezTerm,
        TerminalType::Alacritty,
        TerminalType::VSCode,
        TerminalType::Nvim,
    ]
}

/// The operating system that a build target's name stands for.
pub open spec fn os_for_target(target: Seq<char>) -> OperatingSystem {
    if target == "windows"@ {
        OperatingSystem::Windows
    } else if target == "macos"@ {
        OperatingSystem::MacOS
    } else if target == "linux"@ {
        OperatingSystem::Linux
    } else {
        OperatingSystem::Unknown
    }
}

/// The default terminal of each operating system.
pub open spec fn default_terminal_for_os(os: OperatingSystem) -> TerminalType {
    match os {
        OperatingSystem::Windows => TerminalType::WindowsCMD,
        OperatingSystem::MacOS => TerminalType::MacOS,
        OperatingSystem::Linux => TerminalType::LinuxTerminal,
        OperatingSystem::Unknown => TerminalType::Unknown,
    }
}

impl TerminalType {
    /// The display name, as characters.
    pub open spec fn name_chars(self) -> Seq<char> {
        match self {
            TerminalType::Unknown => "Unknown"@,
            TerminalType::WindowsCMD => "Windows CMD"@,
            TerminalType::WindowsTerminal => "Windows Terminal"@,
            TerminalType::MacOS => "MacOS Terminal"@,
            TerminalType::ITerm2 => "iTerm2"@,
            TerminalType::Kitty => "Kitty"@,
            TerminalType::Ghostty => "Ghostty"@,
            TerminalType::ThirdPartyMacOSTerminal => "Third Party MacOS Terminal"@,
            TerminalType::LinuxTerminal => "Linux Terminal"@,
            TerminalType::Alacritty => "Alacritty"@,
            TerminalType::WezTerm => "WezTerm"@,
            TerminalType::VSCode => "VSCode Terminal"@,
            TerminalType::Nvim => "NVIM Terminal"@,
        }
    }

    /// The name of the executable, where one is known.
    pub open spec fn exec_name_chars(self) -> Option<Seq<char>> {
        match self {
            TerminalType::WindowsCMD => Some("cmd.exe"@),
            TerminalType::MacOS => Some("Terminal.app"@),
            TerminalType::WindowsTerminal => Some("wt.exe"@),
            TerminalType::VSCode => Some("Code.exe"@),
            TerminalType::ITerm2 => Some("iTerm2.app"@),
            _ => None,
        }
    }

    /// The operating system the terminal belongs to.
    pub open spec fn spec_target_os(self) -> TargetOperatingSystem {
        match self {
            TerminalType::WindowsCMD | TerminalType::WindowsTerminal => {
                TargetOperatingSystem::Windows
            },
            TerminalType::MacOS
            | TerminalType::ITerm2
            | TerminalType::Ghostty
            | TerminalType::Kitty
            | TerminalType::ThirdPartyMacOSTerminal => TargetOperatingSystem::MacOS,
            TerminalType::VSCode
            | TerminalType::Nvim
            | TerminalType::Alacritty
            | TerminalType::WezTerm => TargetOperatingSystem::Any,
            TerminalType::LinuxTerminal => TargetOperatingSystem::Linux,
            TerminalType::Unknown => TargetOperatingSystem::Invalid,
        }
    }

    /// Whether the terminal renders 24-bit ANSI colours.
    pub open spec fn spec_supports_rgb(self) -> bool {
        !(self is Unknown || self is MacOS)
    }

    /// Whether the terminal renders the whole of Unicode.
    pub open spec fn spec_supports_unicode(self) -> bool {
        !(self is Unknown || self is WindowsCMD || self is MacOS)
    }

    /// A terminal is preferred when it supports both features.
    pub open spec fn spec_is_preferred(self) -> bool {
        self.spec_supports_unicode() && self.spec_supports_rgb()
    }

    /// The characters of the verbose description: the name, the executable
    /// in parentheses where one is known, then one suffix per feature.
    pub open spec fn verbose_chars(self) -> Seq<char> {
        self.name_chars() + (match self.exec_name_chars() {
            Some(exec) => " ("@ + exec + ")"@,
            None => Seq::<char>::empty(),
        }) + (if self.spec_supports_unicode() {
            ", Full Unicode"@
        } else {
            Seq::<char>::empty()
        }) + (if self.spec_supports_rgb() {
            ", Enhanced Colours"@
        } else {
            Seq::<char>::empty()
        })
    }

    /// Every terminal kind, in declaration order.
    pub fn all() -> (r: Vec<TerminalType>)
        ensures
            r@ == all_terminal_types(),
    {
        let mut v: Vec<TerminalType> = Vec::new();
        v.push(TerminalType::Unknown);
        v.push(TerminalType::WindowsCMD);
        v.push(TerminalType::WindowsTerminal);
        v.push(TerminalType::MacOS);
        v.push(TerminalType::ITerm2);
        v.push(TerminalType::Kitty);
        v.push(TerminalType::Ghostty);
        v.push(TerminalType::ThirdPartyMacOSTerminal);
        v.push(TerminalType::LinuxTerminal);
        v.push(TerminalType::WezTerm);
        v.push(TerminalType::Alacritty);
        v.push(TerminalType::VSCode);
        v.push(TerminalType::Nvim);
        assert(v@ =~= all_terminal_types());
        v
    }

    /// The display name of the terminal.
    pub fn name(&self) -> (r: &'static str)
        ensures
            r@ == self.name_chars(),
    {
        match self {
            TerminalType::Unknown => "Unknown",
            TerminalType::WindowsCMD => "Windows CMD",
            TerminalType::WindowsTerminal => "Windows Terminal",
            TerminalType::MacOS => "MacOS Terminal",
            TerminalType::ITerm2 => "iTerm2",
            TerminalType::Kitty => "Kitty",
            TerminalType::Ghostty => "Ghostty",
            TerminalType::ThirdPartyMacOSTerminal => "Third Party MacOS Terminal",
            TerminalType::LinuxTerminal => "Linux Terminal",
            TerminalType::Alacritty => "Alacritty",
            TerminalType::WezTerm => "WezTerm",
            TerminalType::VSCode => "VSCode Terminal",
            TerminalType::Nvim => "NVIM Terminal",
        }
    }

    /// The name of the terminal's executable, if known.
    pub fn exec_name(&self) -> (r: Option<&'static str>)
        ensures
            r is Some == self.exec_name_chars() is Some,
            r is Some ==> r->0@ == self.exec_name_chars()->0,
    {
        match self {
            TerminalType::WindowsCMD => Some("cmd.exe"),
            TerminalType::MacOS => Some("Terminal.app"),
            TerminalType::WindowsTerminal => Some("wt.exe"),
            TerminalType::VSCode => Some("Code.exe"),
            TerminalType::ITerm2 => Some("iTerm2.app"),
            _ => None,
        }
    }

    /// The operating system this terminal runs on.
    pub fn target_os(&self) -> (r: TargetOperatingSystem)
        ensures
            r == self.spec_target_os(),
    {
        match self {
            TerminalType::WindowsCMD | TerminalType::WindowsTerminal => {
                TargetOperatingSystem::Windows
            },
            TerminalType::MacOS
            | TerminalType::ITerm2
            | TerminalType::Ghostty
            | TerminalType::Kitty
            | TerminalType::ThirdPartyMacOSTerminal => TargetOperatingSystem::MacOS,
            TerminalType::VSCode
            | TerminalType::Nvim
            | TerminalType::Alacritty
            | TerminalType::WezTerm => TargetOperatingSystem::Any,
            TerminalType::LinuxTerminal => TargetOperatingSystem::Linux,
            TerminalType::Unknown => TargetOperatingSystem::Invalid,
        }
    }

    /// `true` if the terminal supports RGB (ANSI) colours.
    pub fn supports_rgb_ansi_colours(&self) -> (r: bool)
        ensures
            r == self.spec_supports_rgb(),
    {
        match self {
            TerminalType::Unknown | TerminalType::MacOS => false,
            TerminalType::WindowsCMD
            | TerminalType::WindowsTerminal
            | TerminalType::VSCode
            | TerminalType::Nvim
            | TerminalType::ITerm2
            | TerminalType::ThirdPartyMacOSTerminal
            | TerminalType::Alacritty
            | TerminalType::WezTerm
            | TerminalType::Kitty
            | TerminalType::Ghostty
            | TerminalType::LinuxTerminal => true,
        }
    }

    /// `true` if the terminal supports full Unicode rendering.
    pub fn supports_full_unicode(&self) -> (r: bool)
        ensures
            r == self.spec_supports_unicode(),
    {
        match self {
            TerminalType::Unknown | TerminalType::WindowsCMD | TerminalType::MacOS => false,
            TerminalType::WindowsTerminal
            | TerminalType::VSCode
            | TerminalType::Nvim
            | TerminalType::ITerm2
            | TerminalType::ThirdPartyMacOSTerminal
            | TerminalType::Alacritty
            | TerminalType::WezTerm
            | TerminalType::Kitty
            | TerminalType::Ghostty
            | TerminalType::LinuxTerminal => true,
        }
    }

    /// `true` if the terminal supports every feature.
    pub fn is_preferred(&self) -> (r: bool)
        ensures
            r == self.spec_is_preferred(),
    {
        self.supports_full_unicode() && self.supports_rgb_ansi_colours()
    }

    /// The name of the terminal, its executable and the features it supports.
    pub fn verbose_format(&self) -> (r: String)
        ensures
            r@ == self.verbose_chars(),
    {
        let mut out = String::from_str(self.name());
        match self.exec_name() {
            Some(exec) => {
                out.append(" (");
                out.append(exec);
                out.append(")");
                assert(out@ =~= self.name_chars() + (" ("@ + self.exec_name_chars()->0 + ")"@));
            },
            None => {
                assert(out@ =~= self.name_chars() + Seq::<char>::empty());
            },
        }
        if self.supports_full_unicode() {
            out.append(", Full Unicode");
        } else {
            assert(out@ =~= out@ + Seq::<char>::empty());
        }
        if self.supports_rgb_ansi_colours() {
            out.append(", Enhanced Colours");
        } else {
            assert(out@ =~= out@ + Seq::<char>::empty());
        }
        out
    }
}

impl Default for TerminalType {
    /// The terminal assumed when nothing else is known.
    fn default() -> (r: TerminalType)
        ensures
            r == TerminalType::WindowsCMD,
    {
        TerminalType::WindowsCMD
    }
}

impl OperatingSystem {
    /// The display name, as characters.
    pub open spec fn name_chars(self) -> Seq<char> {
        match self {
            OperatingSystem::Windows => "Windows"@,
            OperatingSystem::MacOS => "MacOS"@,
            OperatingSystem::Linux => "Linux"@,
            OperatingSystem::Unknown => "Unknown"@,
        }
    }

    /// A process on `self` can use what is meant for `target`.
    pub open spec fn compatible(self, target: TargetOperatingSystem) -> bool {
        match target {
            TargetOperatingSystem::Any => true,
            TargetOperatingSystem::Windows => self is Windows,
            TargetOperatingSystem::MacOS => self is MacOS,
            TargetOperatingSystem::Linux => self is Linux,
            TargetOperatingSystem::Invalid => false,
        }
    }

    /// The operating system that the name of a build target stands for:
    /// `"windows"`, `"macos"` and `"linux"` are known, every other name
    /// gives `Unknown`.
    pub fn current(target_os: &str) -> (r: OperatingSystem)
        ensures
            r == os_for_target(target_os@),
    {
        if str_eq(target_os, "windows") {
            OperatingSystem::Windows
        } else if str_eq(target_os, "macos") {
            OperatingSystem::MacOS
        } else if str_eq(target_os, "linux") {
            OperatingSystem::Linux
        } else {
            OperatingSystem::Unknown
        }
    }

    /// The name of the operating system.
    pub fn name(&self) -> (r: &'static str)
        ensures
            r@ == self.name_chars(),
    {
        match self {
            OperatingSystem::Windows => "Windows",
            OperatingSystem::MacOS => "MacOS",
            OperatingSystem::Linux => "Linux",
            OperatingSystem::Unknown => "Unknown",
        }
    }

    /// `true` if a process on this operating system can use what targets `other`.
    pub fn compatible_with_target(&self, other: TargetOperatingSystem) -> (r: bool)
        ensures
            r == self.compatible(other),
    {
        match other {
            TargetOperatingSystem::Any => true,
            TargetOperatingSystem::Windows => matches!(self, OperatingSystem::Windows),
            TargetOperatingSystem::MacOS => matches!(self, OperatingSystem::MacOS),
            TargetOperatingSystem::Linux => matches!(self, OperatingSystem::Linux),
            TargetOperatingSystem::Invalid => false,
        }
    }
}

impl TargetOperatingSystem {
    /// The display name, as characters.
    pub open spec fn name_chars(self) -> Seq<char> {
        match self {
            TargetOperatingSystem::Windows => "Windows"@,
            TargetOperatingSystem::MacOS => "MacOS"@,
            TargetOperatingSystem::Linux => "Linux"@,
            TargetOperatingSystem::Any => "Any"@,
            TargetOperatingSystem::Invalid => "Invalid"@,
        }
    }

    /// The name of the target operating system.
    pub fn name(&self) -> (r: &'static str)
        ensures
            r@ == self.name_chars(),
    {
        match self {
            TargetOperatingSystem::Windows => "Windows",
            TargetOperatingSystem::MacOS => "MacOS",
            TargetOperatingSystem::Linux => "Linux",
            TargetOperatingSystem::Any => "Any",
            TargetOperatingSystem::Invalid => "Invalid",
        }
    }
}

/// The default terminal of an operating system.
pub fn get_default_terminal_for_os(os: OperatingSystem) -> (r: TerminalType)
    ensures
        r == default_terminal_for_os(os),
{
    match os {
        OperatingSystem::Windows => TerminalType::WindowsCMD,
        OperatingSystem::MacOS => TerminalType::MacOS,
        OperatingSystem::Linux => TerminalType::LinuxTerminal,
        OperatingSystem::Unknown => TerminalType::Unknown,
    }
}

/// The list of all terminal kinds holds every kind, and each only once.
pub proof fn lemma_all_terminal_types_is_complete(kind: TerminalType)
    ensures
        all_terminal_types().contains(kind),
        all_terminal_types().no_duplicates(),
        all_terminal_types().len() == 13,
{
    let all = all_terminal_types();
    let i: int = match kind {
        TerminalType::Unknown => 0,
        TerminalType::WindowsCMD => 1,
        TerminalType::WindowsTerminal => 2,
        TerminalType::MacOS => 3,
        TerminalType::ITerm2 => 4,
        TerminalType::Kitty => 5,
        TerminalType::Ghostty => 6,
        TerminalType::ThirdPartyMacOSTerminal => 7,
        TerminalType::LinuxTerminal => 8,
        TerminalType::WezTerm => 9,
        TerminalType::Alacritty => 10,
        TerminalType::VSCode => 11,
        TerminalType::Nvim => 12,
    };
    assert(all[i] == kind);
}

} // verus!
