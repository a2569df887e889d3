//! Signatures: single conditions on the environment that tell which terminal
//! a process runs in.

use crate::environment::{console_delegation_set, EnvironmentSnapshot, EnvironmentView};
use crate::terminal::OperatingSystem;
use crate::text::{eq_ignore_ascii_case, eq_ignoring_ascii_case};
use vstd::prelude::*;

verus! {

/// The environment variable that names the terminal program.
pub const TERM_PROGRAM_VAR: &'static str = "TERM_PROGRAM";

/// The environment variable that names the terminal type.
pub const TERM_VAR: &'static str = "TERM";

/// A condition that can be tested against an environment snapshot.
#[derive(Debug, PartialEq, Eq, Hash)]
pub enum TerminalSignature {
    /// The environment variable is set, to any value.
    EnvVarExists(&'static str),
    /// The environment variable is set to the value, up to ASCII case.
    EnvVar(&'static str, &'static str),
    /// `TERM_PROGRAM` is set to the value, up to ASCII case.
    TermProgram(&'static str),
    /// `TERM` is set to the value, up to ASCII case.
    TermVar(&'static str),
    /// Windows delegates the console to another console host.
    WindowsConsoleDelegationSet,
    /// At least one of the signatures holds.
    Any(Vec<TerminalSignature>),
}

/// A signature as a mathematical value.
pub enum SignatureView {
    EnvVarExists(Seq<char>),
    EnvVar(Seq<char>, Seq<char>),
    TermProgram(Seq<char>),
    TermVar(Seq<char>),
    WindowsConsoleDelegationSet,
    Any(Seq<SignatureView>),
}

/// The views of a list of signatures, in order.
pub open spec fn signature_views(sigs: Seq<TerminalSignature>) -> Seq<SignatureView>
    decreases sigs,
{
    Seq::new(
        sigs.len(),
        |i: int|
            if 0 <= i < sigs.len() {
                sigs[i].view()
            } else {
                SignatureView::WindowsConsoleDelegationSet
            },
    )
}

impl View for TerminalSignature {
    type V = SignatureView;

    open spec fn view(&self) -> SignatureView
        decreases self,
    {
        match self {
            TerminalSignature::EnvVarExists(name) => SignatureView::EnvVarExists(name@),
            TerminalSignature::EnvVar(name, value) => SignatureView::EnvVar(name@, value@),
            TerminalSignature::TermProgram(value) => SignatureView::TermProgram(value@),
            TerminalSignature::TermVar(value) => SignatureView::TermVar(value@),
            TerminalSignature::WindowsConsoleDelegationSet => {
                SignatureView::WindowsConsoleDelegationSet
            },
            TerminalSignature::Any(sigs) => SignatureView::Any(signature_views(sigs@)),
        }
    }
}

/// The variable is set and its value equals `value` up to ASCII case.
pub open spec fn var_equals(env: EnvironmentView, name: Seq<char>, value: Seq<char>) -> bool {
    env.vars.contains_key(name) && eq_ignoring_ascii_case(env.vars[name], value)
}

/// The console delegation counts on Windows only.
pub open spec fn windows_delegation_active(env: EnvironmentView, os: OperatingSystem) -> bool {
    os is Windows && console_delegation_set(env)
}

impl SignatureView {
    /// Whether the signature holds of an environment on an operating system.
    pub open spec fn holds(self, env: EnvironmentView, os: OperatingSystem) -> bool
        decreases self,
    {
        match self {
            SignatureView::EnvVarExists(name) => env.vars.contains_key(name),
            SignatureView::EnvVar(name, value) => var_equals(env, name, value),
            SignatureView::TermProgram(value) => var_equals(env, TERM_PROGRAM_VAR@, value),
            SignatureView::TermVar(value) => var_equals(env, TERM_VAR@, value),
            SignatureView::WindowsConsoleDelegationSet => windows_delegation_active(env, os),
            SignatureView::Any(sigs) => exists|i: int|
                0 <= i < sigs.len() && (#[trigger] sigs[i]).holds(env, os),
        }
    }
}

/// Every signature of the list holds.
pub open spec fn all_hold(sigs: Seq<SignatureView>, env: EnvironmentView, os: OperatingSystem) -> bool {
    forall|i: int| 0 <= i < sigs.len() ==> (#[trigger] sigs[i]).holds(env, os)
}

/// Whether Windows delegates its console to another console host. Off
/// Windows this is `false`, whatever the snapshot holds.
pub fn check_for_windows_registry_delegation(os: OperatingSystem, env: &EnvironmentSnapshot) -> (r:
    bool)
    ensures
        r == windows_delegation_active(env@, os),
{
    match os {
        OperatingSystem::Windows => env.console_delegated(),
        _ => false,
    }
}

/// Whether a variable is set to a value, up to ASCII case.
pub fn env_var_equals(env: &EnvironmentSnapshot, name: &str, value: &str) -> (r: bool)
    ensures
        r == var_equals(env@, name@, value@),
{
    match env.var(name) {
        Some(found) => eq_ignore_ascii_case(found, value),
        None => false,
    }
}

impl TerminalSignature {
    /// Whether the signature holds of the snapshot, for a process on `os`.
    pub fn check(&self, env: &EnvironmentSnapshot, os: OperatingSystem) -> (r: bool)
        ensures
            r == self@.holds(env@, os),
        decreases self,
    {
        match self {
            TerminalSignature::EnvVarExists(name) => env.var(name).is_some(),
            TerminalSignature::EnvVar(name, value) => env_var_equals(env, name, value),
            TerminalSignature::TermProgram(value) => env_var_equals(env, TERM_PROGRAM_VAR, value),
            TerminalSignature::TermVar(value) => env_var_equals(env, TERM_VAR, value),
            TerminalSignature::WindowsConsoleDelegationSet => {
                check_for_windows_registry_delegation(os, env)
            },
            TerminalSignature::Any(sigs) => {
                let ghost views = signature_views(sigs@);
                proof {
                    lemma_any_holds_iff_some_element_holds(views, env@, os);
                }
                let mut i: usize = 0;
                while i < sigs.len()
                    invariant
                        i <= sigs@.len(),
                        views == signature_views(sigs@),
                        *self == TerminalSignature::Any(*sigs),
                        self@ == SignatureView::Any(views),
                        self@.holds(env@, os) <==> exists|k: int|
                            0 <= k < views.len() && (#[trigger] views[k]).holds(env@, os),
                        forall|j: int| 0 <= j < i ==> !(#[trigger] views[j]).holds(env@, os),
                    decreases sigs@.len() - i,
                {
                    assert(decreases_to!(*self => self->Any_0@[i as int]));
                    if sigs[i].check(env, os) {
                        assert(views[i as int].holds(env@, os));
                        return true;
                    }
                    i += 1;
                }
                false
            },
        }
    }
}

/// Whether every signature of a list holds; the first that fails decides.
pub fn check_all(sigs: &Vec<TerminalSignature>, env: &EnvironmentSnapshot, os: OperatingSystem) -> (r:
    bool)
    ensures
        r == all_hold(signature_views(sigs@), env@, os),
{
    let ghost views = signature_views(sigs@);
    let mut i: usize = 0;
    while i < sigs.len()
        invariant
            i <= sigs@.len(),
            views == signature_views(sigs@),
            forall|j: int| 0 <= j < i ==> (#[trigger] views[j]).holds(env@, os),
        decreases sigs@.len() - i,
    {
        if !sigs[i].check(env, os) {
            assert(!views[i as int].holds(env@, os));
            return false;
        }
        i += 1;
    }
    true
}

/// An or-combination holds exactly when at least one of its elements holds,
/// and fails exactly when every element fails.
pub proof fn lemma_any_holds_iff_some_element_holds(
    sigs: Seq<SignatureView>,
    env: EnvironmentView,
    os: OperatingSystem,
)
    ensures
        SignatureView::Any(sigs).holds(env, os) <==> exists|i: int|
            0 <= i < sigs.len() && (#[trigger] sigs[i]).holds(env, os),
        !SignatureView::Any(sigs).holds(env, os) <==> forall|i: int|
            0 <= i < sigs.len() ==> !(#[trigger] sigs[i]).holds(env, os),
{
    let a = SignatureView::Any(sigs);
    assert(a->Any_0 == sigs);
    assert(a.holds(env, os) == (exists|i: int|
            0 <= i < sigs.len() && (#[trigger] sigs[i]).holds(env, os)));
}

} // verus!
