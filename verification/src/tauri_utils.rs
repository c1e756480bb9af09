//! Helpers that connect the fuzzer and Tauri.

use vstd::prelude::*;
use crate::text::{concat, same_text};

verus! {

/// The command named in an invoke request.
pub open spec fn invoked_command(tauri_plugin: Option<Seq<char>>, cmd_name: Seq<char>) -> Seq<char> {
    match tauri_plugin {
        None => cmd_name,
        Some(plugin) => "plugin:"@ + plugin + "|"@ + cmd_name,
    }
}

/// The command of an invoke request for the Tauri command `cmd_name`: a custom command is
/// named as it is, the command of a plugin follows the pattern `plugin:{plugin}|{command}`.
pub fn invoke_command_name(tauri_plugin: Option<String>, cmd_name: &str) -> (cmd: String)
    ensures
        cmd@ == invoked_command(
            match tauri_plugin {
                None => None,
                Some(p) => Some(p@),
            },
            cmd_name@,
        ),
{
    match tauri_plugin {
        None => String::from_str(cmd_name),
        Some(plugin) => {
            let mut cmd: String = String::from_str("plugin:");
            cmd = concat(cmd, plugin.as_str());
            cmd = concat(cmd, "|");
            concat(cmd, cmd_name)
        },
    }
}

#[verifier::external_type_specification]
#[verifier::external_body]
pub struct ExJsonValue(serde_json::Value);

/// The arguments of a Tauri command: JSON values, each under the name of its parameter.
pub struct CommandArgs {
    names: Vec<String>,
    values: Vec<serde_json::Value>,
}

impl CommandArgs {
    /// One value for each name, and no name twice.
    pub closed spec fn wf(self) -> bool {
        &&& self.names@.len() == self.values@.len()
        &&& forall|i: int, j: int|
            0 <= i < j < self.names@.len() ==> #[trigger] self.names@[i]@ != #[trigger] self.names@[j]@
    }

    /// Whether an argument is named `name`.
    pub closed spec fn names_argument(self, name: Seq<char>) -> bool {
        exists|i: int| 0 <= i < self.names@.len() && #[trigger] self.names@[i]@ == name
    }

    /// Where the argument named `name` is stored.
    spec fn position(self, name: Seq<char>) -> int {
        choose|i: int| 0 <= i < self.names@.len() && #[trigger] self.names@[i]@ == name
    }

    /// The arguments, by name.
    pub closed spec fn arguments(self) -> Map<Seq<char>, serde_json::Value> {
        Map::new(|name: Seq<char>| self.names_argument(name), |name: Seq<char>| self.values@[self.position(name)])
    }

    /// Creates a `CommandArgs` with no argument.
    pub fn new() -> (args: CommandArgs)
        ensures
            args.wf(),
            args@ == Map::<Seq<char>, serde_json::Value>::empty(),
    {
        let args = CommandArgs { names: Vec::new(), values: Vec::new() };
        assert(args@ =~= Map::<Seq<char>, serde_json::Value>::empty());
        args
    }

    /// Stores `value` under `key`, and returns what was stored there before.
    pub fn insert(&mut self, key: String, value: serde_json::Value) -> (previous: Option<serde_json::Value>)
        requires
            old(self).wf(),
        ensures
            final(self).wf(),
            final(self)@ == old(self)@.insert(key@, value),
            previous == (if old(self)@.dom().contains(key@) { Some(old(self)@[key@]) } else { None }),
    {
        let ghost before = *self;
        let mut i: usize = 0;
        while i < self.names.len()
            invariant
                *self == before,
                *old(self) == before,
                before.wf(),
                0 <= i <= before.names@.len(),
                forall|j: int| 0 <= j < i ==> #[trigger] before.names@[j]@ != key@,
            decreases before.names@.len() - i,
        {
            if same_text(self.names[i].as_str(), key.as_str()) {
                let previous = self.values.remove(i);
                self.values.insert(i, value);
                proof {
                    assert(self.values@ =~= before.values@.update(i as int, value));
                    assert(before.names_argument(key@));
                    let p = before.position(key@);
                    assert(p == i);
                    assert(self.names == before.names);
                    assert forall|name: Seq<char>| #[trigger] self.names_argument(name) && name != key@ implies self.position(name) == before.position(name) && self.position(name) != i by {}
                    assert(self@ =~= before@.insert(key@, value));
                }
                return Some(previous);
            }
            i = i + 1;
        }
        self.names.push(key);
        self.values.push(value);
        proof {
            let n = before.names@.len() as int;
            assert(self.names@ == before.names@.push(key));
            assert(self.values@ == before.values@.push(value));
            assert(!before.names_argument(key@));
            assert(self.names@[n]@ == key@);
            assert(self.names_argument(key@));
            assert(self.position(key@) == n);
            assert forall|name: Seq<char>| #[trigger] before.names_argument(name) implies self.names_argument(name)
                && self.position(name) == before.position(name) by {
                let p = before.position(name);
                assert(self.names@[p]@ == name);
            }
            assert forall|name: Seq<char>| #[trigger] self.names_argument(name) && name != key@ implies before.names_argument(name) by {
                let q = self.position(name);
                assert(before.names@[q]@ == name);
            }
            assert(self@ =~= before@.insert(key@, value));
        }
        None
    }

    /// The value stored under `key`, if any.
    pub fn get(&self, key: &str) -> (value: Option<&serde_json::Value>)
        requires
            self.wf(),
        ensures
            value == (if self@.dom().contains(key@) { Some(&self@[key@]) } else { None }),
    {
        let mut i: usize = 0;
        while i < self.names.len()
            invariant
                self.wf(),
                0 <= i <= self.names@.len(),
                forall|j: int| 0 <= j < i ==> #[trigger] self.names@[j]@ != key@,
            decreases self.names@.len() - i,
        {
            if same_text(self.names[i].as_str(), key) {
                proof {
                    assert(self.names_argument(key@));
                    assert(self.position(key@) == i);
                }
                return Some(&self.values[i]);
            }
            i = i + 1;
        }
        None
    }
}

impl View for CommandArgs {
    type V = Map<Seq<char>, serde_json::Value>;

    open spec fn view(&self) -> Map<Seq<char>, serde_json::Value> {
        self.arguments()
    }
}

} // verus!
