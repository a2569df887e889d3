//! The decisions of a relaunch: whether to try one, which terminal to take,
//! how to start it, and what the outcome of the start means.
//!
//! The functions here decide and plan. Starting the launcher and ending the
//! process are left to the caller, who reports back what happened.

use crate::errors::{RelaunchError, TermResult};
use crate::terminal::{all_terminal_types, OperatingSystem, TerminalType};
use crate::terminal_providers::{
    bundle_path, installed, launch_plan, relaunch_args, AlacrittyProvider, GhosttyProvider, ITerm2Provider,
    InstalledSoftware, InstalledView, KittyProvider, LaunchPlan, ParamsView, RelaunchParams,
    TerminalProvider, WezTermProvider, WindowsTerminalProvider, RELAUNCHED_ARGUMENT,
};
use crate::text::{str_eq, string_views};
use vstd::prelude::*;

verus! {

/// The exit code of a process that was relaunched, unless another is given.
pub const DEFAULT_EXIT_CODE: i32 = 0;

/// The terminals that have a provider.
pub open spec fn has_provider(kind: TerminalType) -> bool {
    kind is WindowsTerminal || bundle_path(kind) is Some
}

/// The preferred terminals of an operating system, in declaration order.
pub open spec fn preferred_terminals(os: OperatingSystem) -> Seq<TerminalType> {
    all_terminal_types().filter(
        |kind: TerminalType| kind.spec_is_preferred() && os.compatible(kind.spec_target_os()),
    )
}

/// The first terminal of the list that has a provider and is installed.
pub open spec fn first_installed(
    kinds: Seq<TerminalType>,
    os: OperatingSystem,
    software: InstalledView,
) -> Option<TerminalType>
    decreases kinds.len(),
{
    if kinds.len() == 0 {
        None
    } else if has_provider(kinds.first()) && installed(kinds.first(), os, software) {
        Some(kinds.first())
    } else {
        first_installed(kinds.drop_first(), os, software)
    }
}

/// The terminal to relaunch in: the first preferred terminal of the
/// operating system that has a provider and is installed.
pub open spec fn alternative_terminal(os: OperatingSystem, software: InstalledView) -> Option<
    TerminalType,
> {
    first_installed(preferred_terminals(os), os, software)
}

/// The arguments hold the marker of a relaunched process.
pub open spec fn marked_as_relaunched(args: Seq<Seq<char>>) -> bool {
    args.contains(RELAUNCHED_ARGUMENT@)
}

/// A relaunch is tried by a process that was not relaunched itself and
/// whose terminal is not a preferred one.
pub open spec fn relaunch_wanted(args: Seq<Seq<char>>, current: TerminalType) -> bool {
    !marked_as_relaunched(args) && !current.spec_is_preferred()
}

/// The preferred terminals of an operating system, in declaration order.
pub fn get_preferred_terminals_for_os(os: OperatingSystem) -> (r: Vec<TerminalType>)
    ensures
        r@ == preferred_terminals(os),
{
    let all = TerminalType::all();
    let ghost pred = |kind: TerminalType|
        kind.spec_is_preferred() && os.compatible(kind.spec_target_os());
    let mut kept: Vec<TerminalType> = Vec::new();
    let mut i: usize = 0;
    proof {
        reveal(Seq::filter);
        assert(all@.take(0) =~= Seq::<TerminalType>::empty());
    }
    while i < all.len()
        invariant
            i <= all@.len(),
            all@ == all_terminal_types(),
            pred == |kind: TerminalType|
                kind.spec_is_preferred() && os.compatible(kind.spec_target_os()),
            kept@ == all@.take(i as int).filter(pred),
        decreases all@.len() - i,
    {
        let kind = all[i];
        proof {
            reveal(Seq::filter);
            assert(all@.take(i + 1).drop_last() =~= all@.take(i as int));
            assert(all@.take(i + 1).last() == kind);
        }
        if kind.is_preferred() && os.compatible_with_target(kind.target_os()) {
            kept.push(kind);
        }
        i += 1;
    }
    assert(all@.take(i as int) =~= all@);
    kept
}

/// Whether the arguments of the process hold the marker of a relaunch.
pub fn has_been_relaunched(args: &Vec<String>) -> (r: bool)
    ensures
        r == marked_as_relaunched(string_views(args@)),
{
    let ghost views = string_views(args@);
    let mut i: usize = 0;
    while i < args.len()
        invariant
            i <= args@.len(),
            views == string_views(args@),
            forall|j: int| 0 <= j < i ==> views[j] != RELAUNCHED_ARGUMENT@,
        decreases args@.len() - i,
    {
        if str_eq(args[i].as_str(), RELAUNCHED_ARGUMENT) {
            assert(views[i as int] == RELAUNCHED_ARGUMENT@);
            return true;
        }
        i += 1;
    }
    false
}

/// Whether to look for a preferred terminal and relaunch in it: not in a
/// process that was relaunched already, whatever its terminal is, and not in
/// a terminal that is preferred.
pub fn should_attempt_relaunch(args: &Vec<String>, current: TerminalType) -> (r: bool)
    ensures
        r == relaunch_wanted(string_views(args@), current),
        marked_as_relaunched(string_views(args@)) ==> !r,
        current.spec_is_preferred() ==> !r,
{
    !has_been_relaunched(args) && !current.is_preferred()
}

/// The provider of a terminal, for the terminals that have one.
pub fn get_provider_for_terminal(terminal_type: TerminalType) -> (r: Option<
    Box<dyn TerminalProvider>,
>)
    ensures
        r is Some == has_provider(terminal_type),
        r is Some ==> r->0.provided() == terminal_type,
{
    match terminal_type {
        TerminalType::WindowsTerminal => Some(Box::new(WindowsTerminalProvider)),
        TerminalType::ITerm2 => Some(Box::new(ITerm2Provider)),
        TerminalType::Ghostty => Some(Box::new(GhosttyProvider)),
        TerminalType::Kitty => Some(Box::new(KittyProvider)),
        TerminalType::Alacritty => Some(Box::new(AlacrittyProvider)),
        TerminalType::WezTerm => Some(Box::new(WezTermProvider)),
        _ => None,
    }
}

/// The provider of the terminal to relaunch in: that of the first preferred
/// terminal of the operating system which has a provider and is installed.
/// `None` where there is no such terminal.
pub fn find_alternative_terminal(os: OperatingSystem, software: &InstalledSoftware) -> (r: Option<
    Box<dyn TerminalProvider>,
>)
    ensures
        r is Some == alternative_terminal(os, software@) is Some,
        r is Some ==> alternative_terminal(os, software@) == Some(r->0.provided()),
{
    let kinds = get_preferred_terminals_for_os(os);
    let mut i: usize = 0;
    assert(kinds@.skip(0) =~= kinds@);
    while i < kinds.len()
        invariant
            i <= kinds@.len(),
            kinds@ == preferred_terminals(os),
            first_installed(kinds@, os, software@) == first_installed(
                kinds@.skip(i as int),
                os,
                software@,
            ),
        decreases kinds@.len() - i,
    {
        proof {
            assert(kinds@.skip(i as int).first() == kinds@[i as int]);
            assert(kinds@.skip(i as int).drop_first() =~= kinds@.skip(i + 1));
        }
        match get_provider_for_terminal(kinds[i]) {
            Some(provider) => {
                if provider.is_installed(os, software) {
                    let found = Some(provider);
                    assert(found->0.provided() == kinds@[i as int]);
                    return found;
                }
            },
            None => {},
        }
        i += 1;
    }
    assert(kinds@.skip(i as int).len() == 0);
    None
}

/// The plan that relaunches the program in a preferred terminal. Fails with
/// `NoAlternativeTerminalFound` exactly when no preferred terminal is
/// installed; otherwise the plan is that of the terminal chosen.
pub fn try_relaunch_in_preferred_terminal(
    os: OperatingSystem,
    software: &InstalledSoftware,
    params: &RelaunchParams,
) -> (r: TermResult<LaunchPlan>)
    ensures
        match alternative_terminal(os, software@) {
            Some(kind) => r is Ok && r->Ok_0@ == launch_plan(kind, params@),
            None => r is Err && r->Err_0 == RelaunchError::NoAlternativeTerminalFound,
        },
{
    proof {
        lemma_first_installed_is_installed(preferred_terminals(os), os, software@);
    }
    match find_alternative_terminal(os, software) {
        Some(provider) => provider.relaunch_in_terminal(os, params),
        None => Err(RelaunchError::NoAlternativeTerminalFound),
    }
}

/// What `relaunch_if_available` answers.
pub open spec fn is_relaunch_decision(
    r: TermResult<Option<LaunchPlan>>,
    args: Seq<Seq<char>>,
    current: TerminalType,
    os: OperatingSystem,
    software: InstalledView,
    params: ParamsView,
) -> bool {
    if !relaunch_wanted(args, current) {
        r is Ok && r->Ok_0 is None
    } else {
        match alternative_terminal(os, software) {
            Some(kind) => r is Ok && r->Ok_0 is Some && r->Ok_0->0@ == launch_plan(kind, params),
            None => r is Err && r->Err_0 == RelaunchError::NoAlternativeTerminalFound,
        }
    }
}

/// Decides on a relaunch. `Ok(None)`: none is wanted, because the process
/// was relaunched already or runs in a preferred terminal. `Ok(Some(plan))`:
/// the plan to carry out. `Err`: a relaunch is wanted and no preferred
/// terminal is installed.
pub fn relaunch_if_available(
    args: &Vec<String>,
    current: TerminalType,
    os: OperatingSystem,
    software: &InstalledSoftware,
    params: &RelaunchParams,
) -> (r: TermResult<Option<LaunchPlan>>)
    ensures
        is_relaunch_decision(r, string_views(args@), current, os, software@, params@),
{
    if should_attempt_relaunch(args, current) {
        match try_relaunch_in_preferred_terminal(os, software, params) {
            Ok(plan) => Ok(Some(plan)),
            Err(e) => Err(e),
        }
    } else {
        Ok(None)
    }
}

/// What came of starting the launcher of a plan.
#[derive(Debug)]
pub enum LaunchOutcome {
    /// The launcher was started and left on its own.
    Started,
    /// The launcher was waited for: whether it ended with success, and its
    /// exit code where it had one.
    Finished { success: bool, code: Option<i32> },
    /// The launcher could not be started, or could not be waited for.
    Failed(std::io::Error),
}

/// Judges the outcome of a launch: a launcher that was started, or that
/// ended with success, has relaunched the program; one that ended without
/// success has failed to launch the terminal; an error of the start is
/// handed on.
pub fn launch_result(terminal: TerminalType, outcome: LaunchOutcome) -> (r: TermResult<()>)
    ensures
        match outcome {
            LaunchOutcome::Started => r is Ok,
            LaunchOutcome::Finished { success, code } => if success {
                r is Ok
            } else {
                r is Err && r->Err_0 == RelaunchError::FailedToLaunchTerminal(terminal, code)
            },
            LaunchOutcome::Failed(e) => r is Err && r->Err_0 == RelaunchError::IOError(e),
        },
{
    match outcome {
        LaunchOutcome::Started => Ok(()),
        LaunchOutcome::Finished { success, code } => {
            if success {
                Ok(())
            } else {
                Err(RelaunchError::FailedToLaunchTerminal(terminal, code))
            }
        },
        LaunchOutcome::Failed(e) => Err(RelaunchError::IOError(e)),
    }
}

/// What the process does after the attempt: `Ok(Some(code))`, it ends with
/// `code`, exactly when the relaunch was performed; `Ok(None)`, it goes on,
/// when none was wanted; the error of the attempt otherwise.
pub fn relaunch_if_available_and_exit_with(performed: TermResult<bool>, exit_code: i32) -> (r:
    TermResult<Option<i32>>)
    ensures
        match performed {
            Ok(done) => r is Ok && r->Ok_0 == (if done {
                Some(exit_code)
            } else {
                None
            }),
            Err(e) => r is Err && r->Err_0 == e,
        },
{
    match performed {
        Ok(true) => Ok(Some(exit_code)),
        Ok(false) => Ok(None),
        Err(e) => Err(e),
    }
}

/// As `relaunch_if_available_and_exit_with`, with the exit code 0.
pub fn relaunch_if_available_and_exit(performed: TermResult<bool>) -> (r: TermResult<Option<i32>>)
    ensures
        match performed {
            Ok(done) => r is Ok && r->Ok_0 == (if done {
                Some(DEFAULT_EXIT_CODE)
            } else {
                None
            }),
            Err(e) => r is Err && r->Err_0 == e,
        },
{
    relaunch_if_available_and_exit_with(performed, DEFAULT_EXIT_CODE)
}

/// Where a relaunch stands.
#[derive(Debug)]
pub enum RelaunchState {
    /// Nothing was decided yet.
    NotAttempted,
    /// A terminal was chosen; its plan is being carried out.
    Relaunching(LaunchPlan),
    /// The program runs in the new terminal; this process is to end.
    Exited,
    /// The relaunch failed; the process goes on in its terminal.
    Failed(RelaunchError),
    /// No relaunch was wanted; the process goes on.
    Continuing,
}

impl RelaunchState {
    /// In the states `Exited`, `Failed` and `Continuing` nothing follows.
    pub open spec fn is_terminal(self) -> bool {
        self is Exited || self is Failed || self is Continuing
    }

    /// The first step, from `NotAttempted`: to `Continuing` where no
    /// relaunch is wanted, to `Failed` where none is possible, and to
    /// `Relaunching` with the plan of the terminal chosen.
    pub fn begin(
        args: &Vec<String>,
        current: TerminalType,
        os: OperatingSystem,
        software: &InstalledSoftware,
        params: &RelaunchParams,
    ) -> (r: RelaunchState)
        ensures
            !relaunch_wanted(string_views(args@), current) ==> r is Continuing,
            relaunch_wanted(string_views(args@), current) ==> match alternative_terminal(
                os,
                software@,
            ) {
                Some(kind) => r is Relaunching && r->Relaunching_0@ == launch_plan(kind, params@),
                None => r is Failed && r->Failed_0 == RelaunchError::NoAlternativeTerminalFound,
            },
    {
        match relaunch_if_available(args, current, os, software, params) {
            Ok(None) => RelaunchState::Continuing,
            Ok(Some(plan)) => RelaunchState::Relaunching(plan),
            Err(e) => RelaunchState::Failed(e),
        }
    }

    /// The second step, once the launcher of the plan was run: from
    /// `Relaunching` to `Exited` where the launch succeeded and to `Failed`
    /// where it did not. Every other state stays as it is.
    pub fn finish(self, outcome: LaunchOutcome) -> (r: RelaunchState)
        ensures
            !(self is Relaunching) ==> r == self,
            self is Relaunching ==> r.is_terminal() && !(r is Continuing),
            self is Relaunching ==> match outcome {
                LaunchOutcome::Started => r is Exited,
                LaunchOutcome::Finished { success, code } => if success {
                    r is Exited
                } else {
                    r is Failed && r->Failed_0 == RelaunchError::FailedToLaunchTerminal(
                        self->Relaunching_0.terminal,
                        code,
                    )
                },
                LaunchOutcome::Failed(e) => r is Failed && r->Failed_0 == RelaunchError::IOError(e),
            },
    {
        match self {
            RelaunchState::Relaunching(plan) => match launch_result(plan.terminal, outcome) {
                Ok(()) => RelaunchState::Exited,
                Err(e) => RelaunchState::Failed(e),
            },
            other => other,
        }
    }

    /// What the attempt came to, once it is over: `Ok(true)` after a
    /// relaunch, `Ok(false)` where none was wanted, the error where it
    /// failed. `None` while the attempt is not over.
    pub fn outcome(self) -> (r: Option<TermResult<bool>>)
        ensures
            r is Some == self.is_terminal(),
            self is Exited ==> r == Some(TermResult::<bool>::Ok(true)),
            self is Continuing ==> r == Some(TermResult::<bool>::Ok(false)),
            self is Failed ==> r == Some(TermResult::<bool>::Err(self->Failed_0)),
    {
        match self {
            RelaunchState::Exited => Some(Ok(true)),
            RelaunchState::Continuing => Some(Ok(false)),
            RelaunchState::Failed(e) => Some(Err(e)),
            _ => None,
        }
    }
}

/// The terminal that [`first_installed`] finds has a provider and is
/// installed, is one of the list, and no terminal before it in the list has
/// both; it finds none exactly when no terminal of the list has both.
pub proof fn lemma_first_installed_is_installed(
    kinds: Seq<TerminalType>,
    os: OperatingSystem,
    software: InstalledView,
)
    ensures
        match first_installed(kinds, os, software) {
            Some(kind) => has_provider(kind) && installed(kind, os, software) && exists|i: int|
                0 <= i < kinds.len() && kinds[i] == kind && forall|j: int|
                    0 <= j < i ==> !(has_provider(#[trigger] kinds[j]) && installed(
                        kinds[j],
                        os,
                        software,
                    )),
            None => forall|i: int|
                0 <= i < kinds.len() ==> !(has_provider(#[trigger] kinds[i]) && installed(
                    kinds[i],
                    os,
                    software,
                )),
        },
    decreases kinds.len(),
{
    if kinds.len() == 0 {
    } else if has_provider(kinds.first()) && installed(kinds.first(), os, software) {
        assert(kinds[0] == kinds.first());
    } else {
        let rest = kinds.drop_first();
        lemma_first_installed_is_installed(rest, os, software);
        assert(forall|i: int| 0 <= i < rest.len() ==> rest[i] == kinds[i + 1]);
        match first_installed(rest, os, software) {
            Some(kind) => {
                let k = choose|i: int|
                    0 <= i < rest.len() && rest[i] == kind && forall|j: int|
                        0 <= j < i ==> !(has_provider(#[trigger] rest[j]) && installed(
                            rest[j],
                            os,
                            software,
                        ));
                assert(kinds[k + 1] == kind);
                assert forall|j: int| 0 <= j < k + 1 implies !(has_provider(#[trigger] kinds[j])
                    && installed(kinds[j], os, software)) by {
                    if j > 0 {
                        assert(rest[j - 1] == kinds[j]);
                    }
                }
            },
            None => {
                assert forall|i: int| 0 <= i < kinds.len() implies !(has_provider(
                    #[trigger] kinds[i],
                ) && installed(kinds[i], os, software)) by {
                    if i > 0 {
                        assert(rest[i - 1] == kinds[i]);
                    }
                }
            },
        }
    }
}

/// A process that carries the marker never tries a relaunch, whatever
/// terminal it runs in.
pub proof fn lemma_relaunched_process_never_relaunches(args: Seq<Seq<char>>, current: TerminalType)
    requires
        marked_as_relaunched(args),
    ensures
        !relaunch_wanted(args, current),
{
}

/// The arguments that a relaunch hands to the new process carry the marker
/// in the first place, so the new process, whatever name it is called by
/// and whatever terminal it finds itself in, decides against a relaunch.
pub proof fn lemma_relaunch_is_not_repeated(
    process_args: Seq<Seq<char>>,
    program: Seq<char>,
    current: TerminalType,
)
    ensures
        relaunch_args(process_args)[0] == RELAUNCHED_ARGUMENT@,
        !relaunch_wanted(seq![program] + relaunch_args(process_args), current),
{
    let next = seq![program] + relaunch_args(process_args);
    assert(next[1] == RELAUNCHED_ARGUMENT@);
}

/// A terminal is among the preferred terminals of an operating system
/// exactly when it supports both features and runs on that system.
pub proof fn lemma_preferred_terminals_membership(os: OperatingSystem, kind: TerminalType)
    ensures
        preferred_terminals(os).contains(kind) <==> kind.spec_is_preferred() && os.compatible(
            kind.spec_target_os(),
        ),
{
    let pred = |kind: TerminalType|
        kind.spec_is_preferred() && os.compatible(kind.spec_target_os());
    let all = all_terminal_types();
    let kept = all.filter(pred);
    crate::terminal::lemma_all_terminal_types_is_complete(kind);
    if kept.contains(kind) {
        let j = choose|j: int| 0 <= j < kept.len() && kept[j] == kind;
        all.lemma_filter_pred(pred, j);
    }
    if pred(kind) {
        let i = choose|i: int| 0 <= i < all.len() && all[i] == kind;
        all.lemma_filter_contains(pred, i);
    }
}

/// No alternative is found exactly when no preferred terminal of the
/// operating system has a provider and is installed.
pub proof fn lemma_no_alternative_iff_none_installed(os: OperatingSystem, software: InstalledView)
    ensures
        alternative_terminal(os, software) is None <==> forall|kind: TerminalType|
            !(#[trigger] kind.spec_is_preferred() && os.compatible(kind.spec_target_os())
                && has_provider(kind) && installed(kind, os, software)),
{
    let kinds = preferred_terminals(os);
    lemma_first_installed_is_installed(kinds, os, software);
    if alternative_terminal(os, software) is None {
        assert forall|kind: TerminalType|
            !(#[trigger] kind.spec_is_preferred() && os.compatible(kind.spec_target_os())
                && has_provider(kind) && installed(kind, os, software)) by {
            lemma_preferred_terminals_membership(os, kind);
            if kinds.contains(kind) {
                let i = choose|i: int| 0 <= i < kinds.len() && kinds[i] == kind;
                assert(!(has_provider(kinds[i]) && installed(kinds[i], os, software)));
            }
        }
    } else {
        let found = alternative_terminal(os, software)->0;
        assert(kinds.contains(found));
        lemma_preferred_terminals_membership(os, found);
        assert(found.spec_is_preferred());
    }
}

} // verus!
