//! A template to create a `FuzzPolicy`.

use vstd::prelude::*;
use crate::engine::{ConditionOnParameters, FunctionPolicy, FuzzPolicy, Rule};
use crate::policies::{block_on_entry, monitors, LIBC};

verus! {

/// A template policy: a `FuzzPolicy` is a vector of `FunctionPolicy`; each one attaches
/// itself to a function, and its rule is checked when the function is executed.
pub fn no_file_access() -> (policy: FuzzPolicy)
    ensures
        policy@.len() == 2,
        monitors(policy@[0], "open"@, LIBC@, Rule::OnEntry(ConditionOnParameters::Always), 2,
            "Access to [fopen] denied"@, false),
        monitors(policy@[1], "open64"@, LIBC@, Rule::OnEntry(ConditionOnParameters::Always), 2,
            "Access to [open64] denied"@, false),
{
    let mut policy: FuzzPolicy = Vec::new();
    policy.push(FunctionPolicy {
        // Name of the function monitored
        name: String::from_str("open"),
        // Library in which the function monitored resides
        lib: String::from_str(LIBC),
        // Rule that the function will need to follow to respect the `FunctionPolicy`
        rule: Rule::OnEntry(block_on_entry()),
        // Description used when an execution does not respect the rule
        description: String::from_str("Access to [fopen] denied"),
        // Number of parameters the function takes
        nb_parameters: 2,
        // Whether the monitored function is a Rust function
        is_rust_function: false,
    });
    // A second function that can violate the security policy
    policy.push(FunctionPolicy {
        name: String::from_str("open64"),
        lib: String::from_str(LIBC),
        rule: Rule::OnEntry(block_on_entry()),
        description: String::from_str("Access to [open64] denied"),
        nb_parameters: 2,
        is_rust_function: false,
    });
    policy
}

} // verus!
