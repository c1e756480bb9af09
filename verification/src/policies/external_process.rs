//! Policies on the creation of child processes and on their exit status.

use vstd::prelude::*;
use crate::engine::{
    ConditionOnParameters, ConditionOnParametersWithStorage, ConditionOnReturnValue,
    ConditionOnReturnValueWithStorage, FunctionPolicy, FuzzPolicy, Rule,
};
use crate::policies::{copy_names, LIBC};
use crate::text::{concat, debug_strings, debug_text_of_strings};

pub mod windows;

verus! {

/// The functions that the Rust `Command` API gives to start an external binary in a new
/// process.
pub open spec fn rust_process_creation_functions() -> Seq<Seq<char>> {
    seq!["std::process::Command::output"@, "std::process::Command::status"@, "std::process::Command::spawn"@]
}

/// The functions that the Rust `Command` API gives to get the return value of an external
/// binary that has been started.
pub open spec fn rust_process_status_functions() -> Seq<Seq<char>> {
    seq![
        "std::process::Command::output"@,
        "std::process::Command::status"@,
        "std::process::Child::wait"@,
        "std::process::Child::try_wait"@,
        "std::process::Child::wait_with_output"@,
    ]
}

/// The libc functions that wait for a child process.
pub open spec fn libc_wait_functions() -> Seq<Seq<char>> {
    seq!["wait"@, "waitid"@, "waitpid"@]
}

/// Description of a policy that blocks the external binaries `blocked`.
pub open spec fn binaries_blocked_text(blocked: Seq<Seq<char>>) -> Seq<char> {
    "Invocation to external binaries is blocked: "@ + debug_text_of_strings(blocked) + "]"@
}

/// Description of a policy on the error status of the child process of `f`.
pub open spec fn error_status_text(f: Seq<char>) -> Seq<char> {
    "External binary "@ + f + " returned with error status"@
}

/// The policy `p` blocks the Rust function `name` of `current_bin` when it starts one of the
/// `blocked` binaries.
pub open spec fn blocks_rust_process_creation(p: FunctionPolicy, name: Seq<char>, current_bin: Seq<char>, blocked: Seq<Seq<char>>) -> bool {
    &&& p.name@ == name
    &&& p.lib@ == current_bin
    &&& p.rule matches Rule::OnEntry(ConditionOnParameters::ProgramIn(names)) && names.deep_view() == blocked
    &&& p.nb_parameters == 2
    &&& p.description@ == binaries_blocked_text(blocked)
    &&& p.is_rust_function
}

fn rust_process_creation_policy(f: &str, current_bin: &String, blocked_binaries: &Vec<String>, description: &String) -> (p: FunctionPolicy)
    ensures
        p.name@ == f@,
        p.lib@ == current_bin@,
        p.rule matches Rule::OnEntry(ConditionOnParameters::ProgramIn(names)) && names.deep_view() == blocked_binaries.deep_view(),
        p.nb_parameters == 2,
        p.description@ == description@,
        p.is_rust_function,
{
    FunctionPolicy {
        name: String::from_str(f),
        lib: current_bin.clone(),
        rule: Rule::OnEntry(ConditionOnParameters::ProgramIn(copy_names(blocked_binaries))),
        description: description.clone(),
        nb_parameters: 2,
        is_rust_function: true,
    }
}

/// Policy that blocks the creation of child processes that execute one of the blocked
/// binaries. It only monitors child processes created through the Rust `std::process::Command`
/// API, whose functions live in the fuzzed binary `current_bin`.
pub fn block_on_entry(blocked_binaries: Vec<String>, current_bin: String) -> (policy: FuzzPolicy)
    ensures
        policy@.len() == 3,
        forall|i: int| 0 <= i < 3 ==> #[trigger] blocks_rust_process_creation(policy@[i],
            rust_process_creation_functions()[i], current_bin@, blocked_binaries.deep_view()),
{
    let listed: String = debug_strings(&blocked_binaries);
    let description: String = concat(concat(String::from_str("Invocation to external binaries is blocked: "), listed.as_str()), "]");
    let mut policy: FuzzPolicy = Vec::new();
    policy.push(rust_process_creation_policy("std::process::Command::output", &current_bin, &blocked_binaries, &description));
    policy.push(rust_process_creation_policy("std::process::Command::status", &current_bin, &blocked_binaries, &description));
    policy.push(rust_process_creation_policy("std::process::Command::spawn", &current_bin, &blocked_binaries, &description));
    policy
}

/// The policy `p` blocks the Rust function `name` of `current_bin` when the child process it
/// reports on failed.
pub open spec fn blocks_rust_error_status(p: FunctionPolicy, name: Seq<char>, current_bin: Seq<char>) -> bool {
    &&& p.name@ == name
    &&& p.lib@ == current_bin
    &&& p.rule matches Rule::OnExit(ConditionOnReturnValue::RustProcessApiError(n)) && n@ == name
    &&& p.nb_parameters == 2
    &&& p.description@ == error_status_text(name)
    &&& p.is_rust_function
}

fn rust_error_status_policy(f: &str, current_bin: &String) -> (p: FunctionPolicy)
    ensures
        blocks_rust_error_status(p, f@, current_bin@),
{
    FunctionPolicy {
        name: String::from_str(f),
        lib: current_bin.clone(),
        rule: Rule::OnExit(ConditionOnReturnValue::RustProcessApiError(String::from_str(f))),
        description: concat(concat(String::from_str("External binary "), f), " returned with error status"),
        nb_parameters: 2,
        is_rust_function: true,
    }
}

/// Policy that blocks the Rust `std::process` functions of `current_bin` when the external
/// binary they started returned with an error status.
pub fn block_on_rust_api_error_status(current_bin: String) -> (policy: FuzzPolicy)
    ensures
        policy@.len() == 5,
        forall|i: int| 0 <= i < 5 ==> #[trigger] blocks_rust_error_status(policy@[i],
            rust_process_status_functions()[i], current_bin@),
{
    let mut policy: FuzzPolicy = Vec::new();
    policy.push(rust_error_status_policy("std::process::Command::output", &current_bin));
    policy.push(rust_error_status_policy("std::process::Command::status", &current_bin));
    policy.push(rust_error_status_policy("std::process::Child::wait", &current_bin));
    policy.push(rust_error_status_policy("std::process::Child::try_wait", &current_bin));
    policy.push(rust_error_status_policy("std::process::Child::wait_with_output", &current_bin));
    policy
}

/// The policy `p` blocks the libc function `name` when the child process it waited for
/// exited with a non-zero code.
pub open spec fn blocks_child_error_status(p: FunctionPolicy, name: Seq<char>) -> bool {
    &&& p.name@ == name
    &&& p.lib@ == LIBC@
    &&& p.rule matches Rule::OnEntryAndExit(ConditionOnParametersWithStorage::StoreWaitStatusPointer(n), check, None)
        && n@ == name
        && check == (if name == "waitid"@ { ConditionOnReturnValueWithStorage::ChildInfoError }
            else { ConditionOnReturnValueWithStorage::WaitStatusError })
    &&& p.nb_parameters == 3
    &&& p.description@ == error_status_text(name)
    &&& !p.is_rust_function
}

fn child_error_status_policy(f: &str, check: ConditionOnReturnValueWithStorage) -> (p: FunctionPolicy)
    requires
        check == (if f@ == "waitid"@ { ConditionOnReturnValueWithStorage::ChildInfoError }
            else { ConditionOnReturnValueWithStorage::WaitStatusError }),
    ensures
        blocks_child_error_status(p, f@),
{
    FunctionPolicy {
        name: String::from_str(f),
        lib: String::from_str(LIBC),
        rule: Rule::OnEntryAndExit(
            ConditionOnParametersWithStorage::StoreWaitStatusPointer(String::from_str(f)),
            check,
            None,
        ),
        description: concat(concat(String::from_str("External binary "), f), " returned with error status"),
        nb_parameters: 3,
        is_rust_function: false,
    }
}

/// Policy that blocks the libc functions `wait`, `waitid` and `waitpid` when the child process
/// they waited for exited with an error status, or when waiting failed (-1 was returned). At
/// entry the rule stores the pointer that the function fills with the child's status; at exit
/// it reads the exit code from there.
pub fn block_on_child_process_error_status() -> (policy: FuzzPolicy)
    ensures
        policy@.len() == 3,
        forall|i: int| 0 <= i < 3 ==> #[trigger] blocks_child_error_status(policy@[i], libc_wait_functions()[i]),
{
    let mut policy: FuzzPolicy = Vec::new();
    proof {
        reveal_strlit("wait");
        reveal_strlit("waitid");
        reveal_strlit("waitpid");
    }
    policy.push(child_error_status_policy("wait", ConditionOnReturnValueWithStorage::WaitStatusError));
    policy.push(child_error_status_policy("waitid", ConditionOnReturnValueWithStorage::ChildInfoError));
    policy.push(child_error_status_policy("waitpid", ConditionOnReturnValueWithStorage::WaitStatusError));
    policy
}

} // verus!
