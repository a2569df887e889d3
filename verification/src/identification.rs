//! The identifier tables and the classifier that walks them.

use crate::environment::{EnvironmentSnapshot, EnvironmentView};
use crate::signature::{all_hold, check_all, signature_views, SignatureView, TerminalSignature};
use crate::terminal::{
    default_terminal_for_os, get_default_terminal_for_os, OperatingSystem, TargetOperatingSystem,
    TerminalType,
};
use vstd::prelude::*;

verus! {

/// A terminal together with the signatures that identify it: the terminal is
/// recognised when every signature holds.
#[derive(Debug, PartialEq, Eq, Hash)]
pub struct TerminalIdentifier {
    /// The terminal that the signatures identify.
    pub kind: TerminalType,
    /// The operating system on which the identifier is tried.
    pub target_os: TargetOperatingSystem,
    /// The signatures, all of which must hold.
    pub signatures: Vec<TerminalSignature>,
}

/// An identifier as a mathematical value.
pub struct IdentifierView {
    pub kind: TerminalType,
    pub target_os: TargetOperatingSystem,
    pub signatures: Seq<SignatureView>,
}

impl View for TerminalIdentifier {
    type V = IdentifierView;

    open spec fn view(&self) -> IdentifierView {
        IdentifierView {
            kind: self.kind,
            target_os: self.target_os,
            signatures: signature_views(self.signatures@),
        }
    }
}

/// The views of a list of identifiers, in order.
pub open spec fn identifier_views(ids: Seq<TerminalIdentifier>) -> Seq<IdentifierView> {
    ids.map_values(|id: TerminalIdentifier| id@)
}

/// An identifier with one signature.
pub open spec fn single(
    kind: TerminalType,
    target_os: TargetOperatingSystem,
    signature: SignatureView,
) -> IdentifierView {
    IdentifierView { kind, target_os, signatures: seq![signature] }
}

/// The identifiers that are tried first, in order of precedence.
pub open spec fn primary_identifiers() -> Seq<IdentifierView> {
    seq![
        single(
            TerminalType::VSCode,
            TargetOperatingSystem::Any,
            SignatureView::TermProgram("vscode"@),
        ),
        single(
            TerminalType::Nvim,
            TargetOperatingSystem::Any,
            SignatureView::EnvVarExists("NVIM"@),
        ),
        single(
            TerminalType::ITerm2,
            TargetOperatingSystem::Any,
            SignatureView::EnvVarExists("ITERM_SESSION_ID"@),
        ),
        single(
            TerminalType::Alacritty,
            TargetOperatingSystem::Any,
            SignatureView::EnvVarExists("ALACRITTY_LOG"@),
        ),
        single(
            TerminalType::WezTerm,
            TargetOperatingSystem::Any,
            SignatureView::TermProgram("WezTerm"@),
        ),
        single(
            TerminalType::Kitty,
            TargetOperatingSystem::MacOS,
            SignatureView::TermVar("xterm-kitty"@),
        ),
        single(
            TerminalType::Ghostty,
            TargetOperatingSystem::MacOS,
            SignatureView::TermProgram("ghostty"@),
        ),
    ]
}

/// The identifiers that are tried only when no primary identifier matched:
/// their signatures are loose, and would shadow a more specific terminal.
pub open spec fn final_identifiers() -> Seq<IdentifierView> {
    seq![
        single(
            TerminalType::WindowsTerminal,
            TargetOperatingSystem::Windows,
            SignatureView::Any(
                seq![
                    SignatureView::WindowsConsoleDelegationSet,
                    SignatureView::EnvVarExists("WT_SESSION"@),
                ],
            ),
        ),
        single(
            TerminalType::MacOS,
            TargetOperatingSystem::MacOS,
            SignatureView::TermProgram("Apple_Terminal"@),
        ),
    ]
}

/// Every identifier: the primary ones, then the final ones.
pub open spec fn all_identifiers() -> Seq<IdentifierView> {
    primary_identifiers() + final_identifiers()
}

/// The identifiers of a list that are tried on an operating system, in the
/// order of the list.
pub open spec fn keep_compatible(ids: Seq<IdentifierView>, os: OperatingSystem) -> Seq<
    IdentifierView,
> {
    ids.filter(|id: IdentifierView| os.compatible(id.target_os))
}

/// The identifiers that are tried on an operating system.
pub open spec fn possible_identifiers(os: OperatingSystem) -> Seq<IdentifierView> {
    keep_compatible(all_identifiers(), os)
}

impl IdentifierView {
    /// An identifier matches when all of its signatures hold.
    pub open spec fn matches(self, env: EnvironmentView, os: OperatingSystem) -> bool {
        all_hold(self.signatures, env, os)
    }
}

/// The terminal of the first identifier of the list that matches.
pub open spec fn first_match(ids: Seq<IdentifierView>, env: EnvironmentView, os: OperatingSystem)
    -> Option<TerminalType>
    decreases ids.len(),
{
    if ids.len() == 0 {
        None
    } else if ids.first().matches(env, os) {
        Some(ids.first().kind)
    } else {
        first_match(ids.drop_first(), env, os)
    }
}

/// The terminal that a process on `os` with environment `env` runs in: that
/// of the first matching identifier, or else the default terminal of `os`.
pub open spec fn classify(env: EnvironmentView, os: OperatingSystem) -> TerminalType {
    match first_match(possible_identifiers(os), env, os) {
        Some(kind) => kind,
        None => default_terminal_for_os(os),
    }
}

fn identifier(kind: TerminalType, target_os: TargetOperatingSystem, signature: TerminalSignature)
    -> (r: TerminalIdentifier)
    ensures
        r@ == single(kind, target_os, signature@),
{
    let mut signatures: Vec<TerminalSignature> = Vec::new();
    signatures.push(signature);
    assert(signature_views(signatures@) =~= seq![signature@]);
    TerminalIdentifier { kind, target_os, signatures }
}

/// The identifiers that are tried first.
pub fn terminal_identifiers() -> (r: Vec<TerminalIdentifier>)
    ensures
        identifier_views(r@) == primary_identifiers(),
{
    let mut ids: Vec<TerminalIdentifier> = Vec::new();
    ids.push(
        identifier(
            TerminalType::VSCode,
            TargetOperatingSystem::Any,
            TerminalSignature::TermProgram("vscode"),
        ),
    );
    ids.push(
        identifier(
            TerminalType::Nvim,
            TargetOperatingSystem::Any,
            TerminalSignature::EnvVarExists("NVIM"),
        ),
    );
    ids.push(
        identifier(
            TerminalType::ITerm2,
            TargetOperatingSystem::Any,
            TerminalSignature::EnvVarExists("ITERM_SESSION_ID"),
        ),
    );
    ids.push(
        identifier(
            TerminalType::Alacritty,
            TargetOperatingSystem::Any,
            TerminalSignature::EnvVarExists("ALACRITTY_LOG"),
        ),
    );
    ids.push(
        identifier(
            TerminalType::WezTerm,
            TargetOperatingSystem::Any,
            TerminalSignature::TermProgram("WezTerm"),
        ),
    );
    ids.push(
        identifier(
            TerminalType::Kitty,
            TargetOperatingSystem::MacOS,
            TerminalSignature::TermVar("xterm-kitty"),
        ),
    );
    ids.push(
        identifier(
            TerminalType::Ghostty,
            TargetOperatingSystem::MacOS,
            TerminalSignature::TermProgram("ghostty"),
        ),
    );
    assert(identifier_views(ids@) =~= primary_identifiers());
    ids
}

/// The identifiers that are tried last.
pub fn final_terminal_identifiers() -> (r: Vec<TerminalIdentifier>)
    ensures
        identifier_views(r@) == final_identifiers(),
{
    let mut either: Vec<TerminalSignature> = Vec::new();
    either.push(TerminalSignature::WindowsConsoleDelegationSet);
    either.push(TerminalSignature::EnvVarExists("WT_SESSION"));
    assert(signature_views(either@) =~= seq![
        SignatureView::WindowsConsoleDelegationSet,
        SignatureView::EnvVarExists("WT_SESSION"@),
    ]);
    let mut ids: Vec<TerminalIdentifier> = Vec::new();
    ids.push(
        identifier(
            TerminalType::WindowsTerminal,
            TargetOperatingSystem::Windows,
            TerminalSignature::Any(either),
        ),
    );
    ids.push(
        identifier(
            TerminalType::MacOS,
            TargetOperatingSystem::MacOS,
            TerminalSignature::TermProgram("Apple_Terminal"),
        ),
    );
    assert(identifier_views(ids@) =~= final_identifiers());
    ids
}

/// Every identifier: the primary ones, then those that are tried last.
pub fn get_all_terminal_identifiers() -> (r: Vec<TerminalIdentifier>)
    ensures
        identifier_views(r@) == all_identifiers(),
{
    let mut ids = terminal_identifiers();
    let mut last = final_terminal_identifiers();
    let ghost first_part = ids@;
    let ghost last_part = last@;
    ids.append(&mut last);
    assert(identifier_views(ids@) =~= identifier_views(first_part) + identifier_views(last_part));
    ids
}

/// The identifiers that are tried on an operating system, in table order.
pub fn get_possible_terminal_identifiers_for(os: OperatingSystem) -> (r: Vec<TerminalIdentifier>)
    ensures
        identifier_views(r@) == possible_identifiers(os),
{
    let mut rest = get_all_terminal_identifiers();
    let mut kept: Vec<TerminalIdentifier> = Vec::new();
    let ghost total = all_identifiers();
    let ghost mut done: int = 0;
    assert(total.take(0) =~= Seq::<IdentifierView>::empty());
    assert(total.skip(0) =~= total);
    proof {
        reveal(Seq::filter);
    }
    while rest.len() > 0
        invariant
            0 <= done <= total.len(),
            total == all_identifiers(),
            identifier_views(rest@) == total.skip(done),
            identifier_views(kept@) == keep_compatible(total.take(done), os),
        decreases rest@.len(),
    {
        let ghost before_rest = rest@;
        let ghost before_kept = kept@;
        let id = rest.remove(0);
        proof {
            reveal(Seq::filter);
            let views_before = identifier_views(before_rest);
            assert(views_before.len() == before_rest.len());
            assert(views_before[0] == id@);
            assert(total.skip(done)[0] == total[done]);
            assert(identifier_views(rest@) =~= views_before.skip(1));
            assert(identifier_views(rest@) =~= total.skip(done + 1));
            assert(total.take(done + 1).drop_last() =~= total.take(done));
            assert(total.take(done + 1).last() == total[done]);
        }
        if os.compatible_with_target(id.target_os) {
            kept.push(id);
            assert(identifier_views(kept@) =~= identifier_views(before_kept).push(id@));
        }
        proof {
            done = done + 1;
        }
    }
    assert(total.take(done) =~= total);
    kept
}

/// Identifies the terminal of a process that runs on `os` in the recorded
/// environment: the terminal of the first identifier for `os` whose
/// signatures all hold, and the default terminal of `os` when none matches.
pub fn find_current_terminal(os: OperatingSystem, env: &EnvironmentSnapshot) -> (r: TerminalType)
    ensures
        r == classify(env@, os),
{
    let ids = get_possible_terminal_identifiers_for(os);
    let ghost views = identifier_views(ids@);
    let mut i: usize = 0;
    assert(views.skip(0) =~= views);
    while i < ids.len()
        invariant
            i <= ids@.len(),
            views == identifier_views(ids@),
            views == possible_identifiers(os),
            first_match(views, env@, os) == first_match(views.skip(i as int), env@, os),
        decreases ids@.len() - i,
    {
        proof {
            assert(views.skip(i as int).first() == ids@[i as int]@);
            assert(views.skip(i as int).drop_first() =~= views.skip(i + 1));
        }
        if check_all(&ids[i].signatures, env, os) {
            assert(views.skip(i as int).first().matches(env@, os));
            return ids[i].kind;
        }
        assert(!views.skip(i as int).first().matches(env@, os));
        i += 1;
    }
    assert(views.skip(i as int).len() == 0);
    get_default_terminal_for_os(os)
}

/// The terminal of the process, identified at most once: the first answer
/// is kept and given again, whatever the environment has become since.
#[derive(Debug, Clone, Copy)]
pub struct CurrentTerminal {
    detected: Option<TerminalType>,
}

impl View for CurrentTerminal {
    type V = Option<TerminalType>;

    closed spec fn view(&self) -> Option<TerminalType> {
        self.detected
    }
}

impl CurrentTerminal {
    /// Nothing was identified yet.
    pub fn new() -> (r: CurrentTerminal)
        ensures
            r@ is None,
    {
        CurrentTerminal { detected: None }
    }

    /// The terminal of the process: the one identified before where there is
    /// one, else the one identified now, which is kept.
    pub fn get(&mut self, os: OperatingSystem, env: &EnvironmentSnapshot) -> (r: TerminalType)
        ensures
            r == (match old(self)@ {
                Some(kind) => kind,
                None => classify(env@, os),
            }),
            final(self)@ == Some(r),
    {
        match self.detected {
            Some(kind) => kind,
            None => {
                let kind = find_current_terminal(os, env);
                self.detected = Some(kind);
                kind
            },
        }
    }
}

/// The first match is the earliest identifier of the list that matches:
/// there is a match exactly when some identifier matches, and the terminal
/// is that of the matching identifier before which none matches.
pub proof fn lemma_first_match_is_earliest(
    ids: Seq<IdentifierView>,
    env: EnvironmentView,
    os: OperatingSystem,
)
    ensures
        first_match(ids, env, os) is None <==> forall|i: int|
            0 <= i < ids.len() ==> !(#[trigger] ids[i]).matches(env, os),
        first_match(ids, env, os) is Some ==> exists|i: int|
            0 <= i < ids.len() && (#[trigger] ids[i]).matches(env, os) && first_match(
                ids,
                env,
                os,
            ) == Some(ids[i].kind) && forall|j: int|
                0 <= j < i ==> !(#[trigger] ids[j]).matches(env, os),
    decreases ids.len(),
{
    if ids.len() == 0 {
    } else if ids.first().matches(env, os) {
        assert(ids[0].matches(env, os));
    } else {
        let rest = ids.drop_first();
        lemma_first_match_is_earliest(rest, env, os);
        assert(forall|i: int| 0 <= i < rest.len() ==> rest[i] == ids[i + 1]);
        if first_match(rest, env, os) is Some {
            let k = choose|i: int|
                0 <= i < rest.len() && (#[trigger] rest[i]).matches(env, os) && first_match(
                    rest,
                    env,
                    os,
                ) == Some(rest[i].kind) && forall|j: int|
                    0 <= j < i ==> !(#[trigger] rest[j]).matches(env, os);
            assert(ids[k + 1].matches(env, os));
            assert forall|j: int| 0 <= j < k + 1 implies !(#[trigger] ids[j]).matches(env, os) by {
                if j > 0 {
                    assert(rest[j - 1] == ids[j]);
                }
            }
        } else {
            assert forall|i: int| 0 <= i < ids.len() implies !(#[trigger] ids[i]).matches(
                env,
                os,
            ) by {
                if i > 0 {
                    assert(rest[i - 1] == ids[i]);
                }
            }
        }
    }
}

/// Classification depends on nothing but what the snapshot holds and the
/// operating system: snapshots with the same contents are classified alike.
pub proof fn lemma_classification_is_deterministic(
    a: EnvironmentView,
    b: EnvironmentView,
    os: OperatingSystem,
)
    requires
        a.vars =~= b.vars,
        a.delegation_console == b.delegation_console,
        a.delegation_terminal == b.delegation_terminal,
    ensures
        classify(a, os) == classify(b, os),
{
}

/// When no identifier for the operating system matches, the classifier
/// returns the default terminal of that operating system, which is never
/// `Unknown` on Windows, macOS or Linux.
pub proof fn lemma_fallback_is_default(env: EnvironmentView, os: OperatingSystem)
    requires
        forall|i: int|
            0 <= i < possible_identifiers(os).len() ==> !(#[trigger] possible_identifiers(
                os,
            )[i]).matches(env, os),
    ensures
        classify(env, os) == default_terminal_for_os(os),
        !(os is Unknown) ==> classify(env, os) != TerminalType::Unknown,
{
    lemma_first_match_is_earliest(possible_identifiers(os), env, os);
}

/// The identifier of VS Code comes first on every operating system.
pub proof fn lemma_vscode_is_tried_first(os: OperatingSystem)
    ensures
        possible_identifiers(os).len() > 0,
        possible_identifiers(os).first() == single(
            TerminalType::VSCode,
            TargetOperatingSystem::Any,
            SignatureView::TermProgram("vscode"@),
        ),
{
    let head = seq![primary_identifiers()[0]];
    let tail = all_identifiers().skip(1);
    let pred = |id: IdentifierView| os.compatible(id.target_os);
    assert(all_identifiers() =~= head + tail);
    Seq::filter_distributes_over_add(head, tail, pred);
    assert(head.filter(pred) =~= head) by {
        reveal_with_fuel(Seq::filter, 2);
        assert(head.drop_last() =~= Seq::<IdentifierView>::empty());
    }
    assert(possible_identifiers(os) == head + tail.filter(pred));
}

/// Where `TERM_PROGRAM` is `vscode`, up to ASCII case, the terminal is that
/// of VS Code, on every operating system and whatever else is set.
pub proof fn lemma_vscode_wins(env: EnvironmentView, os: OperatingSystem)
    requires
        crate::signature::var_equals(env, crate::signature::TERM_PROGRAM_VAR@, "vscode"@),
    ensures
        classify(env, os) == TerminalType::VSCode,
{
    lemma_vscode_is_tried_first(os);
    let first = possible_identifiers(os).first();
    assert(first.signatures[0].holds(env, os));
    assert(first.matches(env, os));
}

} // verus!
