//! Options of the `fuzz` command.

use vstd::prelude::*;

verus! {

/// What `fuzz` is told on the command line.
pub struct Options {
    /// Target directory; the Tauri project found from the working directory otherwise
    pub directory: Option<String>,
    /// The target to be fuzzed, usually the name of a fuzz target binary of the manifest
    pub fuzz_target: String,
}

impl Options {
    /// The arguments handed to `cargo` in the `fuzz` directory: run the target binary.
    pub fn cargo_arguments(&self) -> (args: Vec<String>)
        ensures
            args@.len() == 3,
            args@[0]@ == "run"@,
            args@[1]@ == "--bin"@,
            args@[2]@ == self.fuzz_target@,
    {
        let mut args: Vec<String> = Vec::new();
        args.push(String::from_str("run"));
        args.push(String::from_str("--bin"));
        args.push(self.fuzz_target.clone());
        args
    }
}

} // verus!
