//! Policies on file system access through `ntdll.dll` on Windows.

use vstd::prelude::*;
use crate::engine::{ConditionOnParameters, FunctionPolicy, FuzzPolicy, Rule};
use crate::policies::{block_on_entry, copy_names, monitors};
use crate::text::{concat, debug_strings, debug_text_of_strings};

verus! {

/// Library of the file functions
pub const FILE_CRT: &'static str = "ntdll.dll";
/// Function that opens files (`NtCreateFile`)
pub const OPEN_FILE: &'static str = "NtCreateFile";
/// Mask of the generic access rights in an access mask
pub const GENERIC_MASK: u32 = 0xf000_0000;
/// Generic read access right (`GENERIC_READ`)
pub const GENERIC_READ: u32 = 0x8000_0000;
/// Generic write access right (`GENERIC_WRITE`)
pub const GENERIC_WRITE: u32 = 0x4000_0000;

/// Condition that blocks a call unless its desired access (second parameter) is generic read access
pub fn is_read_only_flag() -> (c: ConditionOnParameters)
    ensures
        c == (ConditionOnParameters::ParameterMaskedOtherThan { index: 1, mask: GENERIC_MASK as usize, value: GENERIC_READ as usize }),
{
    ConditionOnParameters::ParameterMaskedOtherThan { index: 1, mask: GENERIC_MASK as usize, value: GENERIC_READ as usize }
}

/// Condition that blocks a call unless its desired access (second parameter) is generic write access
pub fn is_write_only_flag() -> (c: ConditionOnParameters)
    ensures
        c == (ConditionOnParameters::ParameterMaskedOtherThan { index: 1, mask: GENERIC_MASK as usize, value: GENERIC_WRITE as usize }),
{
    ConditionOnParameters::ParameterMaskedOtherThan { index: 1, mask: GENERIC_MASK as usize, value: GENERIC_WRITE as usize }
}

/// Policy on `NtCreateFile`.
fn open_file_policy(rule: Rule, description: String) -> (policy: FuzzPolicy)
    ensures
        policy@.len() == 1,
        monitors(policy@[0], OPEN_FILE@, FILE_CRT@, rule, 11, description@, false),
{
    let mut policy: FuzzPolicy = Vec::new();
    policy.push(FunctionPolicy {
        name: String::from_str(OPEN_FILE),
        lib: String::from_str(FILE_CRT),
        rule,
        description,
        nb_parameters: 11,
        is_rust_function: false,
    });
    policy
}

/// Policy that blocks every call to `NtCreateFile`
pub fn no_file_access() -> (policy: FuzzPolicy)
    ensures
        policy@.len() == 1,
        monitors(policy@[0], OPEN_FILE@, FILE_CRT@, Rule::OnEntry(ConditionOnParameters::Always), 11,
            "Access to [ntdll.dll::NtCreateFile] denied"@, false),
{
    open_file_policy(Rule::OnEntry(block_on_entry()), String::from_str("Access to [ntdll.dll::NtCreateFile] denied"))
}

/// Policy where file access can only be read-only: a call is blocked unless it asks for
/// generic read access
pub fn read_only_access() -> (policy: FuzzPolicy)
    ensures
        policy@.len() == 1,
        monitors(policy@[0], OPEN_FILE@, FILE_CRT@,
            Rule::OnEntry(ConditionOnParameters::ParameterMaskedOtherThan { index: 1, mask: GENERIC_MASK as usize, value: GENERIC_READ as usize }), 11,
            "Access to [ntdll.dll::NtCreateFile] restricted to read-only"@, false),
{
    open_file_policy(Rule::OnEntry(is_read_only_flag()), String::from_str("Access to [ntdll.dll::NtCreateFile] restricted to read-only"))
}

/// Policy where file access can only be write-only: a call is blocked unless it asks for
/// generic write access.
pub fn write_only_access() -> (policy: FuzzPolicy)
    ensures
        policy@.len() == 1,
        monitors(policy@[0], OPEN_FILE@, FILE_CRT@,
            Rule::OnEntry(ConditionOnParameters::ParameterMaskedOtherThan { index: 1, mask: GENERIC_MASK as usize, value: GENERIC_WRITE as usize }), 11,
            "Access to [ntdll.dll::NtCreateFile] restricted to write-only"@, false),
{
    open_file_policy(Rule::OnEntry(is_write_only_flag()), String::from_str("Access to [ntdll.dll::NtCreateFile] restricted to write-only"))
}

/// Block access to the files whose name ends with one of `blocked_files`
pub fn no_access_to_filenames(blocked_files: Vec<String>) -> (policy: FuzzPolicy)
    ensures
        policy@.len() == 1,
        policy@[0].name@ == OPEN_FILE@,
        policy@[0].lib@ == FILE_CRT@,
        policy@[0].rule matches Rule::OnEntry(ConditionOnParameters::ObjectNameEndsWith(files))
            && files.deep_view() == blocked_files.deep_view(),
        policy@[0].nb_parameters == 11,
        policy@[0].description@ == "Access to files "@ + debug_text_of_strings(blocked_files.deep_view()) + " denied"@,
        !policy@[0].is_rust_function,
{
    let listed: String = debug_strings(&blocked_files);
    let description: String = concat(concat(String::from_str("Access to files "), listed.as_str()), " denied");
    open_file_policy(Rule::OnEntry(ConditionOnParameters::ObjectNameEndsWith(copy_names(&blocked_files))), description)
}

} // verus!
