use terminal_relaunch::overrides::{NO_OVERRIDE, OVERRIDE_FALSE, OVERRIDE_TRUE};
use terminal_relaunch::{
    is_rgb_ansi_overridden, is_unicode_overridden, read_override, resolve_full_unicode,
    resolve_rgb_ansi_colours, set_rgb_ansi_override, set_unicode_support_override, store_override,
    FeatureOverrides, TerminalType,
};

#[test]
fn stored_states() {
    assert_eq!(NO_OVERRIDE, 0);
    assert_eq!(OVERRIDE_TRUE, 1);
    assert_eq!(OVERRIDE_FALSE, 2);
    let mut cell: u8 = 9;
    store_override(&mut cell, Some(true));
    assert_eq!(cell, 1);
    store_override(&mut cell, Some(false));
    assert_eq!(cell, 2);
    store_override(&mut cell, None);
    assert_eq!(cell, 0);
}

#[test]
fn read_states() {
    assert_eq!(read_override(&0), None);
    assert_eq!(read_override(&1), Some(true));
    assert_eq!(read_override(&2), Some(false));
    assert_eq!(read_override(&3), None);
    assert_eq!(read_override(&255), None);
}

#[test]
fn store_then_read_gives_the_override_back() {
    for supports in [None, Some(true), Some(false)] {
        let mut cell: u8 = 0;
        store_override(&mut cell, supports);
        assert_eq!(read_override(&cell), supports);
    }
}

#[test]
fn nothing_is_overridden_at_first() {
    let overrides = FeatureOverrides::new();
    assert_eq!(is_unicode_overridden(&overrides), None);
    assert_eq!(is_rgb_ansi_overridden(&overrides), None);
}

#[test]
fn without_override_the_terminal_decides() {
    let overrides = FeatureOverrides::new();
    for t in TerminalType::all() {
        assert_eq!(resolve_full_unicode(&overrides, t), t.supports_full_unicode());
        assert_eq!(
            resolve_rgb_ansi_colours(&overrides, t),
            t.supports_rgb_ansi_colours()
        );
    }
}

#[test]
fn unicode_override_takes_precedence_and_can_be_cleared() {
    let mut overrides = FeatureOverrides::new();
    assert!(!TerminalType::WindowsCMD.supports_full_unicode());
    assert!(!resolve_full_unicode(&overrides, TerminalType::WindowsCMD));

    set_unicode_support_override(&mut overrides, Some(true));
    assert_eq!(is_unicode_overridden(&overrides), Some(true));
    assert!(resolve_full_unicode(&overrides, TerminalType::WindowsCMD));
    assert!(resolve_full_unicode(&overrides, TerminalType::Unknown));

    set_unicode_support_override(&mut overrides, Some(false));
    assert_eq!(is_unicode_overridden(&overrides), Some(false));
    assert!(TerminalType::Kitty.supports_full_unicode());
    assert!(!resolve_full_unicode(&overrides, TerminalType::Kitty));

    set_unicode_support_override(&mut overrides, None);
    assert_eq!(is_unicode_overridden(&overrides), None);
    assert!(!resolve_full_unicode(&overrides, TerminalType::WindowsCMD));
    assert!(resolve_full_unicode(&overrides, TerminalType::Kitty));
}

#[test]
fn rgb_override_takes_precedence_and_can_be_cleared() {
    let mut overrides = FeatureOverrides::new();
    assert!(!resolve_rgb_ansi_colours(&overrides, TerminalType::MacOS));
    set_rgb_ansi_override(&mut overrides, Some(true));
    assert_eq!(is_rgb_ansi_overridden(&overrides), Some(true));
    assert!(resolve_rgb_ansi_colours(&overrides, TerminalType::MacOS));
    set_rgb_ansi_override(&mut overrides, Some(false));
    assert!(!resolve_rgb_ansi_colours(&overrides, TerminalType::WindowsTerminal));
    set_rgb_ansi_override(&mut overrides, None);
    assert_eq!(is_rgb_ansi_overridden(&overrides), None);
    assert!(!resolve_rgb_ansi_colours(&overrides, TerminalType::MacOS));
    assert!(resolve_rgb_ansi_colours(&overrides, TerminalType::WindowsTerminal));
}

#[test]
fn the_two_overrides_are_independent() {
    let mut overrides = FeatureOverrides::new();
    set_unicode_support_override(&mut overrides, Some(true));
    assert_eq!(is_rgb_ansi_overridden(&overrides), None);
    // The colour signal still follows the terminal, not the Unicode override.
    assert!(!resolve_rgb_ansi_colours(&overrides, TerminalType::MacOS));
    assert!(resolve_rgb_ansi_colours(&overrides, TerminalType::WindowsCMD));

    set_rgb_ansi_override(&mut overrides, Some(false));
    assert_eq!(is_unicode_overridden(&overrides), Some(true));
    assert!(resolve_full_unicode(&overrides, TerminalType::MacOS));
    assert!(!resolve_rgb_ansi_colours(&overrides, TerminalType::WindowsCMD));

    set_unicode_support_override(&mut overrides, None);
    assert_eq!(is_rgb_ansi_overridden(&overrides), Some(false));
}
