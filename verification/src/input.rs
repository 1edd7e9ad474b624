//! Keys, and the key map that binds them to commands, mode by mode.
use vstd::prelude::*;
use crate::commands::Command;

verus! {

/// A key press.
#[derive(Clone, Copy, Debug, PartialEq, Eq, Structural)]
pub enum Key {
    Char(char),
    Ctrl(char),
    Enter,
    Esc,
    Tab,
    Backspace,
    Delete,
    Up,
    Down,
    Left,
    Right,
    Home,
    End,
    PageUp,
    PageDown,
}

/// One entry of a key map: in the mode of this name, this key runs this
/// command.
#[derive(Debug)]
pub struct Binding {
    pub mode: String,
    pub key: Key,
    pub command: Command,
}

/// What a list of bindings resolves a key to in a mode: the command of the
/// last binding for that mode and key, so that a later binding overrides an
/// earlier one.
pub open spec fn resolve(bindings: Seq<Binding>, mode: Seq<char>, key: Key) -> Option<Command>
    decreases bindings.len(),
{
    if bindings.len() == 0 {
        None
    } else if bindings.last().mode@ == mode && bindings.last().key == key {
        Some(bindings.last().command)
    } else {
        resolve(bindings.drop_last(), mode, key)
    }
}

/// Of two lists of bindings, one after the other, the second decides
/// wherever it binds the key, and the first elsewhere.
pub proof fn lemma_resolve_appended(
    first: Seq<Binding>,
    second: Seq<Binding>,
    mode: Seq<char>,
    key: Key,
)
    ensures
        resolve(first + second, mode, key) == match resolve(second, mode, key) {
            Some(command) => Some(command),
            None => resolve(first, mode, key),
        },
    decreases second.len(),
{
    if second.len() == 0 {
        assert(first + second =~= first);
    } else {
        assert((first + second).drop_last() =~= first + second.drop_last());
        lemma_resolve_appended(first, second.drop_last(), mode, key);
    }
}

/// A mapping from a mode's name and a key to a command.
#[derive(Debug)]
pub struct KeyMap {
    bindings: Vec<Binding>,
}

impl KeyMap {
    /// The command that the map gives for a key in a mode, if any.
    pub closed spec fn lookup(&self, mode: Seq<char>, key: Key) -> Option<Command> {
        resolve(self.bindings@, mode, key)
    }

    /// A key map without bindings.
    pub fn new() -> (map: KeyMap)
        ensures
            forall|mode: Seq<char>, key: Key| map.lookup(mode, key).is_none(),
    {
        KeyMap { bindings: Vec::new() }
    }

    /// Binds a key to a command in a mode, in place of what it was bound to
    /// there. Other keys and other modes keep their commands.
    pub fn bind(&mut self, mode: &str, key: Key, command: Command)
        ensures
            forall|m: Seq<char>, k: Key|
                final(self).lookup(m, k) == if m == mode@ && k == key {
                    Some(command)
                } else {
                    old(self).lookup(m, k)
                },
    {
        let binding = Binding { mode: mode.to_owned(), key, command };
        self.bindings.push(binding);
        proof {
            assert(self.bindings@.drop_last() =~= old(self).bindings@);
        }
    }

    /// Takes the bindings of `other` into this map. Where both bind a key
    /// in a mode, the binding of `other` holds; all other bindings of both
    /// stay.
    pub fn merge(&mut self, other: KeyMap)
        ensures
            forall|mode: Seq<char>, key: Key|
                final(self).lookup(mode, key) == match other.lookup(mode, key) {
                    Some(command) => Some(command),
                    None => old(self).lookup(mode, key),
                },
    {
        let mut other = other;
        let ghost added = other.bindings@;
        self.bindings.append(&mut other.bindings);
        proof {
            assert forall|mode: Seq<char>, key: Key|
                resolve(self.bindings@, mode, key) == match resolve(added, mode, key) {
                    Some(command) => Some(command),
                    None => resolve(old(self).bindings@, mode, key),
                } by {
                lemma_resolve_appended(old(self).bindings@, added, mode, key);
            }
        }
    }

    /// The command bound to a key in a mode, if there is one.
    pub fn command_for(&self, mode: &str, key: &Key) -> (command: Option<Command>)
        ensures
            command == self.lookup(mode@, *key),
    {
        let wanted = mode.to_owned();
        let mut i = self.bindings.len();
        proof {
            assert(self.bindings@.take(i as int) =~= self.bindings@);
        }
        while i > 0
            invariant
                i <= self.bindings.len(),
                wanted@ == mode@,
                resolve(self.bindings@, mode@, *key) == resolve(
                    self.bindings@.take(i as int),
                    mode@,
                    *key,
                ),
            decreases i,
        {
            let binding = &self.bindings[i - 1];
            proof {
                assert(self.bindings@.take(i as int).drop_last() =~= self.bindings@.take(i - 1));
            }
            if binding.mode == wanted && binding.key == *key {
                return Some(binding.command);
            }
            i = i - 1;
        }
        None
    }
}

} // verus!
