//! Policy on the execution of other programs.

use vstd::prelude::*;
use crate::engine::{ConditionOnParameters, FunctionPolicy, FuzzPolicy, Rule};
use crate::policies::{block_on_entry, monitors, LIBC};
use crate::text::concat;

verus! {

/// Policy that blocks every call to `execve`
pub fn block_execv_on_error() -> (policy: FuzzPolicy)
    ensures
        policy@.len() == 1,
        monitors(policy@[0], "execve"@, LIBC@, Rule::OnEntry(ConditionOnParameters::Always), 2,
            "Access to ["@ + "execve"@ + "] is blocked"@, false),
{
    let f: &str = "execve";
    let description: String = concat(concat(String::from_str("Access to ["), f), "] is blocked");
    let mut policy: FuzzPolicy = Vec::new();
    policy.push(FunctionPolicy {
        name: String::from_str(f),
        lib: String::from_str(LIBC),
        rule: Rule::OnEntry(block_on_entry()),
        description,
        nb_parameters: 2,
        is_rust_function: false,
    });
    policy
}

} // verus!
