//! The security policies: for each monitored function, its library and the rule it follows.

use vstd::prelude::*;
use crate::engine::{ConditionOnParameters, FunctionPolicy, FuzzPolicy, Rule};

pub mod execv;
pub mod external_process;
pub mod filesystem;
pub mod policy_template;

verus! {

/// Name of the C standard library as it appears in module paths
pub const LIBC: &'static str = "libc.";

/// A policy that monitors nothing
pub fn no_policy() -> (policy: FuzzPolicy)
    ensures
        policy@.len() == 0,
{
    Vec::new()
}

/// Condition that blocks every call on entry
pub fn block_on_entry() -> (c: ConditionOnParameters)
    ensures
        c is Always,
{
    ConditionOnParameters::Always
}

/// The policy `p` monitors the function `name` of `lib` with rule `rule`, described by
/// `description`, taking `nb_parameters` parameters.
pub open spec fn monitors(
    p: FunctionPolicy,
    name: Seq<char>,
    lib: Seq<char>,
    rule: Rule,
    nb_parameters: u32,
    description: Seq<char>,
    is_rust_function: bool,
) -> bool {
    &&& p.name@ == name
    &&& p.lib@ == lib
    &&& p.rule == rule
    &&& p.nb_parameters == nb_parameters
    &&& p.description@ == description
    &&& p.is_rust_function == is_rust_function
}

/// Description of a policy that denies every call to `f`.
pub open spec fn access_denied(f: Seq<char>) -> Seq<char> {
    "Access to ["@ + f + "] denied"@
}

/// Copies of the names, in order.
pub fn copy_names(names: &Vec<String>) -> (r: Vec<String>)
    ensures
        r.deep_view() == names.deep_view(),
{
    let mut r: Vec<String> = Vec::new();
    let mut i: usize = 0;
    while i < names.len()
        invariant
            i <= names@.len(),
            r@.len() == i,
            forall|j: int| 0 <= j < i ==> #[trigger] r@[j]@ == names@[j]@,
        decreases names@.len() - i,
    {
        r.push(names[i].clone());
        i = i + 1;
    }
    assert(r.deep_view() =~= names.deep_view());
    r
}

} // verus!
