//! Overrides of the two detected features. Each override has three states:
//! none, forced on, forced off. An override, where one is set, decides what a
//! feature query answers; otherwise the terminal's own attribute does.

use crate::terminal::TerminalType;
use vstd::prelude::*;

verus! {

/// The stored state that stands for "no override".
pub const NO_OVERRIDE: u8 = 0;

/// The stored state that forces a feature on.
pub const OVERRIDE_TRUE: u8 = 1;

/// The stored state that forces a feature off.
pub const OVERRIDE_FALSE: u8 = 2;

/// The stored state of an override.
pub open spec fn encode_override(supports: Option<bool>) -> u8 {
    match supports {
        Some(true) => OVERRIDE_TRUE,
        Some(false) => OVERRIDE_FALSE,
        None => NO_OVERRIDE,
    }
}

/// The override that a stored state stands for. Every state but the two
/// forcing ones means "no override".
pub open spec fn decode_override(state: u8) -> Option<bool> {
    if state == OVERRIDE_TRUE {
        Some(true)
    } else if state == OVERRIDE_FALSE {
        Some(false)
    } else {
        None
    }
}

/// What a feature query answers: the override where one is set, else the
/// terminal's own attribute.
pub open spec fn resolve(forced: Option<bool>, detected: bool) -> bool {
    match forced {
        Some(state) => state,
        None => detected,
    }
}

/// The two overrides as mathematical values.
pub struct OverridesView {
    pub unicode: Option<bool>,
    pub rgb: Option<bool>,
}

/// The overrides of both features, each in its stored state.
#[derive(Debug, Clone, Copy)]
pub struct FeatureOverrides {
    unicode: u8,
    rgb: u8,
}

impl View for FeatureOverrides {
    type V = OverridesView;

    closed spec fn view(&self) -> OverridesView {
        OverridesView { unicode: decode_override(self.unicode), rgb: decode_override(self.rgb) }
    }
}

/// Stores an override into its cell.
pub fn store_override(target: &mut u8, supports: Option<bool>)
    ensures
        *final(target) == encode_override(supports),
        decode_override(*final(target)) == supports,
{
    match supports {
        Some(true) => {
            *target = OVERRIDE_TRUE;
        },
        Some(false) => {
            *target = OVERRIDE_FALSE;
        },
        None => {
            *target = NO_OVERRIDE;
        },
    }
}

/// Reads the override that a cell holds.
pub fn read_override(target: &u8) -> (r: Option<bool>)
    ensures
        r == decode_override(*target),
{
    let state: u8 = *target;
    if state == OVERRIDE_TRUE {
        Some(true)
    } else if state == OVERRIDE_FALSE {
        Some(false)
    } else {
        None
    }
}

impl FeatureOverrides {
    /// No feature is overridden.
    pub fn new() -> (r: FeatureOverrides)
        ensures
            r@.unicode is None,
            r@.rgb is None,
    {
        FeatureOverrides { unicode: NO_OVERRIDE, rgb: NO_OVERRIDE }
    }
}

/// Overrides the detected Unicode support; `None` clears the override. The
/// override of the colour support is left as it is.
pub fn set_unicode_support_override(overrides: &mut FeatureOverrides, supports: Option<bool>)
    ensures
        final(overrides)@.unicode == supports,
        final(overrides)@.rgb == old(overrides)@.rgb,
{
    let mut cell: u8 = overrides.unicode;
    store_override(&mut cell, supports);
    overrides.unicode = cell;
}

/// Overrides the detected RGB colour support; `None` clears the override.
/// The override of the Unicode support is left as it is.
pub fn set_rgb_ansi_override(overrides: &mut FeatureOverrides, supports: Option<bool>)
    ensures
        final(overrides)@.rgb == supports,
        final(overrides)@.unicode == old(overrides)@.unicode,
{
    let mut cell: u8 = overrides.rgb;
    store_override(&mut cell, supports);
    overrides.rgb = cell;
}

/// The override of the Unicode support, `None` where detection decides.
pub fn is_unicode_overridden(overrides: &FeatureOverrides) -> (r: Option<bool>)
    ensures
        r == overrides@.unicode,
{
    read_override(&overrides.unicode)
}

/// The override of the RGB colour support, `None` where detection decides.
pub fn is_rgb_ansi_overridden(overrides: &FeatureOverrides) -> (r: Option<bool>)
    ensures
        r == overrides@.rgb,
{
    read_override(&overrides.rgb)
}

/// Whether full Unicode is to be used in `terminal`: the override where one
/// is set, else what the terminal supports.
pub fn resolve_full_unicode(overrides: &FeatureOverrides, terminal: TerminalType) -> (r: bool)
    ensures
        r == resolve(overrides@.unicode, terminal.spec_supports_unicode()),
{
    match is_unicode_overridden(overrides) {
        Some(state) => state,
        None => terminal.supports_full_unicode(),
    }
}

/// Whether RGB colours are to be used in `terminal`: the override where one
/// is set, else what the terminal supports. The Unicode override has no say.
pub fn resolve_rgb_ansi_colours(overrides: &FeatureOverrides, terminal: TerminalType) -> (r: bool)
    ensures
        r == resolve(overrides@.rgb, terminal.spec_supports_rgb()),
{
    match is_rgb_ansi_overridden(overrides) {
        Some(state) => state,
        None => terminal.supports_rgb_ansi_colours(),
    }
}

/// Storing an override and reading it back gives the override.
pub proof fn lemma_override_round_trip(supports: Option<bool>)
    ensures
        decode_override(encode_override(supports)) == supports,
{
}

/// An override takes precedence over detection, and clearing it gives
/// detection back: forced on, a feature is reported as supported even by a
/// terminal that lacks it; forced off, as unsupported even by one that has
/// it; cleared, as the terminal's own attribute says.
pub proof fn lemma_override_precedence(detected: bool)
    ensures
        resolve(Some(true), detected),
        !resolve(Some(false), detected),
        resolve(None, detected) == detected,
{
}

} // verus!
