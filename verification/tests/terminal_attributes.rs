use terminal_relaunch::{
    get_default_terminal_for_os, OperatingSystem, TargetOperatingSystem, TerminalType,
};

#[test]
fn all_lists_every_variant_in_declaration_order() {
    assert_eq!(
        TerminalType::all(),
        vec![
            TerminalType::Unknown,
            TerminalType::WindowsCMD,
            TerminalType::WindowsTerminal,
            TerminalType::MacOS,
            TerminalType::ITerm2,
            TerminalType::Kitty,
            TerminalType::Ghostty,
            TerminalType::ThirdPartyMacOSTerminal,
            TerminalType::LinuxTerminal,
            TerminalType::WezTerm,
            TerminalType::Alacritty,
            TerminalType::VSCode,
            TerminalType::Nvim,
        ]
    );
}

#[test]
fn exactly_one_variant_is_unknown() {
    let unknown = TerminalType::all()
        .into_iter()
        .filter(|t| *t == TerminalType::Unknown)
        .count();
    assert_eq!(unknown, 1);
}

#[test]
fn default_variant_is_windows_cmd() {
    assert_eq!(TerminalType::default(), TerminalType::WindowsCMD);
}

#[test]
fn names_of_terminals() {
    assert_eq!(TerminalType::Unknown.name(), "Unknown");
    assert_eq!(TerminalType::WindowsCMD.name(), "Windows CMD");
    assert_eq!(TerminalType::WindowsTerminal.name(), "Windows Terminal");
    assert_eq!(TerminalType::MacOS.name(), "MacOS Terminal");
    assert_eq!(TerminalType::ITerm2.name(), "iTerm2");
    assert_eq!(TerminalType::Kitty.name(), "Kitty");
    assert_eq!(TerminalType::Ghostty.name(), "Ghostty");
    assert_eq!(
        TerminalType::ThirdPartyMacOSTerminal.name(),
        "Third Party MacOS Terminal"
    );
    assert_eq!(TerminalType::LinuxTerminal.name(), "Linux Terminal");
    assert_eq!(TerminalType::Alacritty.name(), "Alacritty");
    assert_eq!(TerminalType::WezTerm.name(), "WezTerm");
    assert_eq!(TerminalType::VSCode.name(), "VSCode Terminal");
    assert_eq!(TerminalType::Nvim.name(), "NVIM Terminal");
}

#[test]
fn exec_names_of_terminals() {
    assert_eq!(TerminalType::WindowsCMD.exec_name(), Some("cmd.exe"));
    assert_eq!(TerminalType::MacOS.exec_name(), Some("Terminal.app"));
    assert_eq!(TerminalType::WindowsTerminal.exec_name(), Some("wt.exe"));
    assert_eq!(TerminalType::VSCode.exec_name(), Some("Code.exe"));
    assert_eq!(TerminalType::ITerm2.exec_name(), Some("iTerm2.app"));
    assert_eq!(TerminalType::Unknown.exec_name(), None);
    assert_eq!(TerminalType::Kitty.exec_name(), None);
    assert_eq!(TerminalType::Ghostty.exec_name(), None);
    assert_eq!(TerminalType::ThirdPartyMacOSTerminal.exec_name(), None);
    assert_eq!(TerminalType::LinuxTerminal.exec_name(), None);
    assert_eq!(TerminalType::WezTerm.exec_name(), None);
    assert_eq!(TerminalType::Alacritty.exec_name(), None);
    assert_eq!(TerminalType::Nvim.exec_name(), None);
}

#[test]
fn target_os_of_terminals() {
    assert_eq!(TerminalType::Unknown.target_os(), TargetOperatingSystem::Invalid);
    assert_eq!(TerminalType::WindowsCMD.target_os(), TargetOperatingSystem::Windows);
    assert_eq!(
        TerminalType::WindowsTerminal.target_os(),
        TargetOperatingSystem::Windows
    );
    assert_eq!(TerminalType::MacOS.target_os(), TargetOperatingSystem::MacOS);
    assert_eq!(TerminalType::ITerm2.target_os(), TargetOperatingSystem::MacOS);
    assert_eq!(TerminalType::Kitty.target_os(), TargetOperatingSystem::MacOS);
    assert_eq!(TerminalType::Ghostty.target_os(), TargetOperatingSystem::MacOS);
    assert_eq!(
        TerminalType::ThirdPartyMacOSTerminal.target_os(),
        TargetOperatingSystem::MacOS
    );
    assert_eq!(TerminalType::LinuxTerminal.target_os(), TargetOperatingSystem::Linux);
    assert_eq!(TerminalType::WezTerm.target_os(), TargetOperatingSystem::Any);
    assert_eq!(TerminalType::Alacritty.target_os(), TargetOperatingSystem::Any);
    assert_eq!(TerminalType::VSCode.target_os(), TargetOperatingSystem::Any);
    assert_eq!(TerminalType::Nvim.target_os(), TargetOperatingSystem::Any);
}

#[test]
fn rgb_support_is_missing_only_in_unknown_and_macos_terminal() {
    for t in TerminalType::all() {
        let expected = !matches!(t, TerminalType::Unknown | TerminalType::MacOS);
        assert_eq!(t.supports_rgb_ansi_colours(), expected, "{:?}", t);
    }
}

#[test]
fn unicode_support_is_missing_in_unknown_cmd_and_macos_terminal() {
    for t in TerminalType::all() {
        let expected = !matches!(
            t,
            TerminalType::Unknown | TerminalType::WindowsCMD | TerminalType::MacOS
        );
        assert_eq!(t.supports_full_unicode(), expected, "{:?}", t);
    }
}

#[test]
fn preferred_means_both_features() {
    for t in TerminalType::all() {
        assert_eq!(
            t.is_preferred(),
            t.supports_full_unicode() && t.supports_rgb_ansi_colours(),
            "{:?}",
            t
        );
    }
    assert!(!TerminalType::WindowsCMD.is_preferred());
    assert!(!TerminalType::MacOS.is_preferred());
    assert!(!TerminalType::Unknown.is_preferred());
    assert!(TerminalType::VSCode.is_preferred());
    assert!(TerminalType::Ghostty.is_preferred());
}

#[test]
fn verbose_format_with_executable_and_both_features() {
    assert_eq!(
        TerminalType::WindowsTerminal.verbose_format(),
        "Windows Terminal (wt.exe), Full Unicode, Enhanced Colours"
    );
    assert_eq!(
        TerminalType::VSCode.verbose_format(),
        "VSCode Terminal (Code.exe), Full Unicode, Enhanced Colours"
    );
    assert_eq!(
        TerminalType::ITerm2.verbose_format(),
        "iTerm2 (iTerm2.app), Full Unicode, Enhanced Colours"
    );
}

#[test]
fn verbose_format_with_one_feature() {
    assert_eq!(
        TerminalType::WindowsCMD.verbose_format(),
        "Windows CMD (cmd.exe), Enhanced Colours"
    );
}

#[test]
fn verbose_format_without_features() {
    assert_eq!(
        TerminalType::MacOS.verbose_format(),
        "MacOS Terminal (Terminal.app)"
    );
    assert_eq!(TerminalType::Unknown.verbose_format(), "Unknown");
}

#[test]
fn verbose_format_without_executable() {
    assert_eq!(
        TerminalType::Kitty.verbose_format(),
        "Kitty, Full Unicode, Enhanced Colours"
    );
    assert_eq!(
        TerminalType::LinuxTerminal.verbose_format(),
        "Linux Terminal, Full Unicode, Enhanced Colours"
    );
}

#[test]
fn operating_system_of_a_target_name() {
    assert_eq!(OperatingSystem::current("windows"), OperatingSystem::Windows);
    assert_eq!(OperatingSystem::current("macos"), OperatingSystem::MacOS);
    assert_eq!(OperatingSystem::current("linux"), OperatingSystem::Linux);
    assert_eq!(OperatingSystem::current("freebsd"), OperatingSystem::Unknown);
    assert_eq!(OperatingSystem::current(""), OperatingSystem::Unknown);
    assert_eq!(OperatingSystem::current("Windows"), OperatingSystem::Unknown);
    assert_eq!(OperatingSystem::current("linux "), OperatingSystem::Unknown);
}

#[test]
fn names_of_operating_systems() {
    assert_eq!(OperatingSystem::Windows.name(), "Windows");
    assert_eq!(OperatingSystem::MacOS.name(), "MacOS");
    assert_eq!(OperatingSystem::Linux.name(), "Linux");
    assert_eq!(OperatingSystem::Unknown.name(), "Unknown");
    assert_eq!(TargetOperatingSystem::Windows.name(), "Windows");
    assert_eq!(TargetOperatingSystem::MacOS.name(), "MacOS");
    assert_eq!(TargetOperatingSystem::Linux.name(), "Linux");
    assert_eq!(TargetOperatingSystem::Any.name(), "Any");
    assert_eq!(TargetOperatingSystem::Invalid.name(), "Invalid");
}

#[test]
fn any_target_is_compatible_with_every_system() {
    for os in [
        OperatingSystem::Windows,
        OperatingSystem::MacOS,
        OperatingSystem::Linux,
        OperatingSystem::Unknown,
    ] {
        assert!(os.compatible_with_target(TargetOperatingSystem::Any));
    }
}

#[test]
fn invalid_target_is_compatible_with_no_system() {
    for os in [
        OperatingSystem::Windows,
        OperatingSystem::MacOS,
        OperatingSystem::Linux,
        OperatingSystem::Unknown,
    ] {
        assert!(!os.compatible_with_target(TargetOperatingSystem::Invalid));
    }
}

#[test]
fn a_specific_target_is_compatible_with_its_own_system_only() {
    assert!(OperatingSystem::Windows.compatible_with_target(TargetOperatingSystem::Windows));
    assert!(!OperatingSystem::MacOS.compatible_with_target(TargetOperatingSystem::Windows));
    assert!(!OperatingSystem::Linux.compatible_with_target(TargetOperatingSystem::Windows));
    assert!(!OperatingSystem::Unknown.compatible_with_target(TargetOperatingSystem::Windows));
    assert!(OperatingSystem::MacOS.compatible_with_target(TargetOperatingSystem::MacOS));
    assert!(!OperatingSystem::Windows.compatible_with_target(TargetOperatingSystem::MacOS));
    assert!(OperatingSystem::Linux.compatible_with_target(TargetOperatingSystem::Linux));
    assert!(!OperatingSystem::MacOS.compatible_with_target(TargetOperatingSystem::Linux));
    assert!(!OperatingSystem::Unknown.compatible_with_target(TargetOperatingSystem::Linux));
}

#[test]
fn default_terminal_of_each_system() {
    assert_eq!(
        get_default_terminal_for_os(OperatingSystem::Windows),
        TerminalType::WindowsCMD
    );
    assert_eq!(
        get_default_terminal_for_os(OperatingSystem::MacOS),
        TerminalType::MacOS
    );
    assert_eq!(
        get_default_terminal_for_os(OperatingSystem::Linux),
        TerminalType::LinuxTerminal
    );
    assert_eq!(
        get_default_terminal_for_os(OperatingSystem::Unknown),
        TerminalType::Unknown
    );
}

#[test]
fn every_variant_is_listed_once() {
    let all = TerminalType::all();
    assert_eq!(all.len(), 13);
    for (i, a) in all.iter().enumerate() {
        for (j, b) in all.iter().enumerate() {
            assert_eq!(a == b, i == j);
        }
    }
}
