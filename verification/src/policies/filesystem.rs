//! Policies on file system access through libc.

use vstd::prelude::*;
use crate::engine::{ConditionOnParameters, FunctionPolicy, FuzzPolicy, Rule};
use crate::policies::{access_denied, block_on_entry, copy_names, monitors, LIBC};
use crate::text::{concat, debug_strings, debug_text_of_strings};

pub mod windows;

verus! {

/// Value of the access-mode bits of the `open` flags for read-only access
pub const READ_ONLY_FLAG: usize = 0;
/// Value of the access-mode bits of the `open` flags for write-only access
pub const WRITE_ONLY_FLAG: usize = 1;
/// Value of the access-mode bits of the `open` flags for read-write access
pub const READ_WRITE_FLAG: usize = 2;
/// Mask of the access-mode bits of the `open` flags
pub const ACCESS_MODE_MASK: usize = 3;

/// Condition that blocks a call unless its flags (second parameter) ask for read-only access
pub fn read_only_flag() -> (c: ConditionOnParameters)
    ensures
        c == (ConditionOnParameters::ParameterMaskedOtherThan { index: 1, mask: ACCESS_MODE_MASK, value: READ_ONLY_FLAG }),
{
    ConditionOnParameters::ParameterMaskedOtherThan { index: 1, mask: ACCESS_MODE_MASK, value: READ_ONLY_FLAG }
}

/// Condition that blocks a call unless its flags (second parameter) ask for write-only access
pub fn is_write_only_flag() -> (c: ConditionOnParameters)
    ensures
        c == (ConditionOnParameters::ParameterMaskedOtherThan { index: 1, mask: ACCESS_MODE_MASK, value: WRITE_ONLY_FLAG }),
{
    ConditionOnParameters::ParameterMaskedOtherThan { index: 1, mask: ACCESS_MODE_MASK, value: WRITE_ONLY_FLAG }
}

/// Policy on one libc function taking two parameters.
fn libc_policy(f: &str, rule: Rule, description: String) -> (p: FunctionPolicy)
    ensures
        monitors(p, f@, LIBC@, rule, 2, description@, false),
{
    FunctionPolicy { name: String::from_str(f), lib: String::from_str(LIBC), rule, description, nb_parameters: 2, is_rust_function: false }
}

/// Description of a policy that allows `f` only with one access mode.
pub open spec fn only_allowed_with(f: Seq<char>, mode: Seq<char>) -> Seq<char> {
    "Access to ["@ + f + "] is only allowed with "@ + mode + " access"@
}

/// Description of a policy that allows `f` only with one access mode.
fn only_allowed_text(f: &str, mode: &str) -> (s: String)
    ensures
        s@ == only_allowed_with(f@, mode@),
{
    concat(concat(concat(concat(String::from_str("Access to ["), f), "] is only allowed with "), mode), " access")
}

/// `prefix`, the name `f`, then `suffix`.
fn around(prefix: &str, f: &str, suffix: &str) -> (s: String)
    ensures
        s@ == prefix@ + f@ + suffix@,
{
    concat(concat(String::from_str(prefix), f), suffix)
}

/// Policy that blocks every call that opens a file
pub fn no_file_access() -> (policy: FuzzPolicy)
    ensures
        policy@.len() == 3,
        monitors(policy@[0], "fopen"@, LIBC@, Rule::OnEntry(ConditionOnParameters::Always), 2, access_denied("fopen"@), false),
        monitors(policy@[1], "open"@, LIBC@, Rule::OnEntry(ConditionOnParameters::Always), 2, access_denied("open"@), false),
        monitors(policy@[2], "open64"@, LIBC@, Rule::OnEntry(ConditionOnParameters::Always), 2, access_denied("open64"@), false),
{
    let mut policy: FuzzPolicy = Vec::new();
    policy.push(libc_policy("fopen", Rule::OnEntry(block_on_entry()), around("Access to [", "fopen", "] denied")));
    policy.push(libc_policy("open", Rule::OnEntry(block_on_entry()), around("Access to [", "open", "] denied")));
    policy.push(libc_policy("open64", Rule::OnEntry(block_on_entry()), around("Access to [", "open64", "] denied")));
    policy
}

/// Policy where files may only be opened read-only: a call that opens a file is blocked unless
/// its flags ask for read-only access
pub fn read_only_access() -> (policy: FuzzPolicy)
    ensures
        policy@.len() == 3,
        monitors(policy@[0], "fopen"@, LIBC@, Rule::OnEntry(ConditionOnParameters::ParameterMaskedOtherThan { index: 1, mask: ACCESS_MODE_MASK, value: READ_ONLY_FLAG }), 2,
            only_allowed_with("fopen"@, "read-only"@), false),
        monitors(policy@[1], "open"@, LIBC@, Rule::OnEntry(ConditionOnParameters::ParameterMaskedOtherThan { index: 1, mask: ACCESS_MODE_MASK, value: READ_ONLY_FLAG }), 2,
            only_allowed_with("open"@, "read-only"@), false),
        monitors(policy@[2], "open64"@, LIBC@, Rule::OnEntry(ConditionOnParameters::ParameterMaskedOtherThan { index: 1, mask: ACCESS_MODE_MASK, value: READ_ONLY_FLAG }), 2,
            only_allowed_with("open64"@, "read-only"@), false),
{
    let mut policy: FuzzPolicy = Vec::new();
    policy.push(libc_policy("fopen", Rule::OnEntry(read_only_flag()), only_allowed_text("fopen", "read-only")));
    policy.push(libc_policy("open", Rule::OnEntry(read_only_flag()), only_allowed_text("open", "read-only")));
    policy.push(libc_policy("open64", Rule::OnEntry(read_only_flag()), only_allowed_text("open64", "read-only")));
    policy
}

/// Policy where files may only be opened write-only: a call that opens a file is blocked unless
/// its flags ask for write-only access
pub fn write_only_access() -> (policy: FuzzPolicy)
    ensures
        policy@.len() == 3,
        monitors(policy@[0], "fopen"@, LIBC@, Rule::OnEntry(ConditionOnParameters::ParameterMaskedOtherThan { index: 1, mask: ACCESS_MODE_MASK, value: WRITE_ONLY_FLAG }), 2,
            only_allowed_with("fopen"@, "write-only"@), false),
        monitors(policy@[1], "open"@, LIBC@, Rule::OnEntry(ConditionOnParameters::ParameterMaskedOtherThan { index: 1, mask: ACCESS_MODE_MASK, value: WRITE_ONLY_FLAG }), 2,
            only_allowed_with("open"@, "write-only"@), false),
        monitors(policy@[2], "open64"@, LIBC@, Rule::OnEntry(ConditionOnParameters::ParameterMaskedOtherThan { index: 1, mask: ACCESS_MODE_MASK, value: WRITE_ONLY_FLAG }), 2,
            only_allowed_with("open64"@, "write-only"@), false),
{
    let mut policy: FuzzPolicy = Vec::new();
    policy.push(libc_policy("fopen", Rule::OnEntry(is_write_only_flag()), only_allowed_text("fopen", "write-only")));
    policy.push(libc_policy("open", Rule::OnEntry(is_write_only_flag()), only_allowed_text("open", "write-only")));
    policy.push(libc_policy("open64", Rule::OnEntry(is_write_only_flag()), only_allowed_text("open64", "write-only")));
    policy
}

/// The policy `p` blocks the opening of files whose name ends with one of `blocked_files`.
pub open spec fn blocks_file_names(p: FunctionPolicy, name: Seq<char>, blocked_files: Seq<Seq<char>>) -> bool {
    &&& p.name@ == name
    &&& p.lib@ == LIBC@
    &&& p.rule matches Rule::OnEntry(ConditionOnParameters::FileNameEndsWith(files)) && files.deep_view() == blocked_files
    &&& p.nb_parameters == 2
    &&& p.description@ == "Access to following files is denied: "@ + debug_text_of_strings(blocked_files)
    &&& !p.is_rust_function
}

/// Block access to the files whose name ends with one of `blocked_files`
pub fn no_access_to_filenames(blocked_files: Vec<String>) -> (policy: FuzzPolicy)
    ensures
        policy@.len() == 3,
        blocks_file_names(policy@[0], "fopen"@, blocked_files.deep_view()),
        blocks_file_names(policy@[1], "open"@, blocked_files.deep_view()),
        blocks_file_names(policy@[2], "open64"@, blocked_files.deep_view()),
{
    let listed: String = debug_strings(&blocked_files);
    let description: String = concat(String::from_str("Access to following files is denied: "), listed.as_str());
    let mut policy: FuzzPolicy = Vec::new();
    policy.push(libc_policy("fopen", Rule::OnEntry(ConditionOnParameters::FileNameEndsWith(copy_names(&blocked_files))), description.clone()));
    policy.push(libc_policy("open", Rule::OnEntry(ConditionOnParameters::FileNameEndsWith(copy_names(&blocked_files))), description.clone()));
    policy.push(libc_policy("open64", Rule::OnEntry(ConditionOnParameters::FileNameEndsWith(copy_names(&blocked_files))), description));
    policy
}

} // verus!
