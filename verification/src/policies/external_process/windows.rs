//! Policies on the creation of child processes and on their exit code, on Windows.

use vstd::prelude::*;
use crate::engine::{
    ConditionOnParameters, ConditionOnParametersWithStorage, ConditionOnReturnValueWithStorage,
    FunctionPolicy, FuzzPolicy, Rule, TextEncoding,
};
use crate::policies::copy_names;
use crate::text::{concat, debug_strings, debug_text_of_strings};

verus! {

/// Library of the process functions
pub const KERNEL32: &'static str = "KERNEL32.DLL";

/// The policy that blocks `GetExitCodeProcess` when the exit code it reports is not 0.
pub open spec fn blocks_exit_code_error(p: FunctionPolicy) -> bool {
    &&& p.name@ == "GetExitCodeProcess"@
    &&& p.lib@ == KERNEL32@
    &&& p.rule == Rule::OnEntryAndExit(ConditionOnParametersWithStorage::StoreParameter(1),
        ConditionOnReturnValueWithStorage::ExitCodeError, None)
    &&& p.nb_parameters == 2
    &&& p.description@ == "[`"@ + "GetExitCodeProcess"@ + "`] exit code from child process is non-0 "@
    &&& !p.is_rust_function
}

/// Policy that blocks the execution anytime a child process returns an error: at entry of
/// `GetExitCodeProcess` the rule stores the pointer (second parameter) where the exit code is
/// written; at exit, when the call succeeded, it reads the code.
pub fn block_on_child_process_error_status() -> (policy: FuzzPolicy)
    ensures
        policy@.len() == 1,
        blocks_exit_code_error(policy@[0]),
{
    let f: &str = "GetExitCodeProcess";
    let mut policy: FuzzPolicy = Vec::new();
    policy.push(FunctionPolicy {
        name: String::from_str(f),
        lib: String::from_str(KERNEL32),
        rule: Rule::OnEntryAndExit(
            ConditionOnParametersWithStorage::StoreParameter(1),
            ConditionOnReturnValueWithStorage::ExitCodeError,
            None,
        ),
        description: concat(concat(String::from_str("[`"), f), "`] exit code from child process is non-0 "),
        nb_parameters: 2,
        is_rust_function: false,
    });
    policy
}

/// Store the status pointer positioned as second parameter, for the check at exit
pub fn store_status_ptr() -> (c: ConditionOnParametersWithStorage)
    ensures
        c == ConditionOnParametersWithStorage::StoreParameter(1),
{
    ConditionOnParametersWithStorage::StoreParameter(1)
}

/// Check at exit the exit code written through the stored pointer
pub fn is_return_value_an_error() -> (c: ConditionOnReturnValueWithStorage)
    ensures
        c == ConditionOnReturnValueWithStorage::ExitCodeError,
{
    ConditionOnReturnValueWithStorage::ExitCodeError
}

/// The policy `p` blocks the process-creation function `name` (whose strings have encoding
/// `encoding`) when its command runs one of the `blocked` binaries.
pub open spec fn blocks_process_creation(p: FunctionPolicy, name: Seq<char>, encoding: TextEncoding, blocked: Seq<Seq<char>>) -> bool {
    &&& p.name@ == name
    &&& p.lib@ == KERNEL32@
    &&& p.rule matches Rule::OnEntry(ConditionOnParameters::CommandLineContains(e, names))
        && e == encoding && names.deep_view() == blocked
    &&& p.nb_parameters == 10
    &&& p.description@ == "[`"@ + name + "`] These executables are not allowed: "@ + debug_text_of_strings(blocked)
    &&& !p.is_rust_function
}

fn process_creation_policy(f: &str, encoding: TextEncoding, blocked_binaries: &Vec<String>, listed: &String) -> (p: FunctionPolicy)
    requires
        listed@ == debug_text_of_strings(blocked_binaries.deep_view()),
    ensures
        blocks_process_creation(p, f@, encoding, blocked_binaries.deep_view()),
{
    FunctionPolicy {
        name: String::from_str(f),
        lib: String::from_str(KERNEL32),
        rule: Rule::OnEntry(ConditionOnParameters::CommandLineContains(encoding, copy_names(blocked_binaries))),
        description: concat(concat(concat(String::from_str("[`"), f), "`] These executables are not allowed: "), listed.as_str()),
        nb_parameters: 10,
        is_rust_function: false,
    }
}

/// Block the child processes created through `CreateProcessA` or `CreateProcessW` whose
/// executable path or command line contains one of the blocked binaries
pub fn block_on_entry(blocked_binaries: Vec<String>) -> (policy: FuzzPolicy)
    ensures
        policy@.len() == 2,
        blocks_process_creation(policy@[0], "CreateProcessA"@, TextEncoding::Ansi, blocked_binaries.deep_view()),
        blocks_process_creation(policy@[1], "CreateProcessW"@, TextEncoding::Wide, blocked_binaries.deep_view()),
{
    let listed: String = debug_strings(&blocked_binaries);
    let mut policy: FuzzPolicy = Vec::new();
    policy.push(process_creation_policy("CreateProcessA", TextEncoding::Ansi, &blocked_binaries, &listed));
    policy.push(process_creation_policy("CreateProcessW", TextEncoding::Wide, &blocked_binaries, &listed));
    policy
}

} // verus!
