//! A snapshot of what identification reads: the environment variables of the
//! process and the console delegation that Windows keeps in its registry.

use crate::text::str_eq;
use vstd::prelude::*;

verus! {

/// What a snapshot holds, as mathematical values.
pub struct EnvironmentView {
    /// The variables that are set, each with its value.
    pub vars: Map<Seq<char>, Seq<char>>,
    /// The registry value `DelegationConsole`, if it could be read.
    pub delegation_console: Option<Seq<char>>,
    /// The registry value `DelegationTerminal`, if it could be read.
    pub delegation_terminal: Option<Seq<char>>,
}

/// The value that a list of bindings gives a name: the last binding of the
/// name decides.
pub open spec fn lookup(bindings: Seq<(String, String)>, name: Seq<char>) -> Option<Seq<char>>
    decreases bindings.len(),
{
    if bindings.len() == 0 {
        None
    } else if bindings.last().0@ == name {
        Some(bindings.last().1@)
    } else {
        lookup(bindings.drop_last(), name)
    }
}

/// The map that a list of bindings stands for.
pub open spec fn bindings_map(bindings: Seq<(String, String)>) -> Map<Seq<char>, Seq<char>> {
    Map::new(
        |name: Seq<char>| lookup(bindings, name) is Some,
        |name: Seq<char>| lookup(bindings, name)->0,
    )
}

/// The state of the process and of the operating system at one moment,
/// as far as identification depends on it.
pub struct EnvironmentSnapshot {
    bindings: Vec<(String, String)>,
    delegation_console: Option<String>,
    delegation_terminal: Option<String>,
}

impl View for EnvironmentSnapshot {
    type V = EnvironmentView;

    closed spec fn view(&self) -> EnvironmentView {
        EnvironmentView {
            vars: bindings_map(self.bindings@),
            delegation_console: match self.delegation_console {
                Some(s) => Some(s@),
                None => None,
            },
            delegation_terminal: match self.delegation_terminal {
                Some(s) => Some(s@),
                None => None,
            },
        }
    }
}

impl EnvironmentSnapshot {
    /// A snapshot with no variable set and no console delegation.
    pub fn new() -> (r: EnvironmentSnapshot)
        ensures
            r@.vars == Map::<Seq<char>, Seq<char>>::empty(),
            r@.delegation_console is None,
            r@.delegation_terminal is None,
    {
        let r = EnvironmentSnapshot {
            bindings: Vec::new(),
            delegation_console: None,
            delegation_terminal: None,
        };
        assert(r@.vars =~= Map::<Seq<char>, Seq<char>>::empty());
        r
    }

    /// Sets a variable, replacing the value it had.
    pub fn set_var(&mut self, name: &str, value: &str)
        ensures
            final(self)@.vars == old(self)@.vars.insert(name@, value@),
            final(self)@.delegation_console == old(self)@.delegation_console,
            final(self)@.delegation_terminal == old(self)@.delegation_terminal,
    {
        let ghost before = self.bindings@;
        self.bindings.push((String::from_str(name), String::from_str(value)));
        proof {
            let after = self.bindings@;
            assert(after.drop_last() =~= before);
            assert forall|k: Seq<char>| lookup(after, k) == (if k == name@ {
                Some(value@)
            } else {
                lookup(before, k)
            }) by {}
            assert(bindings_map(after) =~= bindings_map(before).insert(name@, value@));
        }
    }

    /// Records the console delegation: the two registry values, each `None`
    /// where it could not be read.
    pub fn set_console_delegation(&mut self, console: Option<String>, terminal: Option<String>)
        ensures
            final(self)@.vars == old(self)@.vars,
            final(self)@.delegation_console == (match console {
                Some(s) => Some(s@),
                None => None,
            }),
            final(self)@.delegation_terminal == (match terminal {
                Some(s) => Some(s@),
                None => None,
            }),
    {
        self.delegation_console = console;
        self.delegation_terminal = terminal;
    }

    /// The value of a variable, or `None` where it is not set.
    pub fn var(&self, name: &str) -> (r: Option<&str>)
        ensures
            r is Some == self@.vars.contains_key(name@),
            r is Some ==> r->0@ == self@.vars[name@],
    {
        let mut i: usize = self.bindings.len();
        assert(self.bindings@.take(i as int) =~= self.bindings@);
        while i > 0
            invariant
                i <= self.bindings@.len(),
                lookup(self.bindings@, name@) == lookup(self.bindings@.take(i as int), name@),
            decreases i,
        {
            let ghost prefix = self.bindings@.take(i as int);
            assert(prefix.drop_last() =~= self.bindings@.take(i - 1));
            assert(prefix.last() == self.bindings@[i - 1]);
            i -= 1;
            if str_eq(self.bindings[i].0.as_str(), name) {
                return Some(self.bindings[i].1.as_str());
            }
        }
        assert(self.bindings@.take(0).len() == 0);
        None
    }

    /// Whether Windows hands the console over to another host: both
    /// delegation values are present and they differ.
    pub fn console_delegated(&self) -> (r: bool)
        ensures
            r == console_delegation_set(self@),
    {
        match (&self.delegation_console, &self.delegation_terminal) {
            (Some(console), Some(terminal)) => !str_eq(console.as_str(), terminal.as_str()),
            _ => false,
        }
    }
}

/// Both delegation values are present and unequal.
pub open spec fn console_delegation_set(env: EnvironmentView) -> bool {
    &&& env.delegation_console is Some
    &&& env.delegation_terminal is Some
    &&& env.delegation_console->0 != env.delegation_terminal->0
}

} // verus!
