//! Properties of the rules and policies that span several evaluations.

use vstd::prelude::*;
use crate::engine::{
    exit_status_of, memory_needed, rule_after, verdict, ConditionOnParameters,
    ConditionOnParametersWithStorage, ConditionOnReturnValue, ConditionOnReturnValueWithStorage,
    Context, FunctionPolicy, MemoryRead, MemoryValue, Rule, RuleErrorView,
};
use crate::engine::{process_result_kind, rule_evaluable, wait_failed, CLD_EXITED, suffix_of_one_of, ProcessResultKind, ProcessStatus};
use crate::policies::external_process::{blocks_child_error_status, blocks_rust_error_status, blocks_rust_process_creation};
use crate::policies::filesystem::{ACCESS_MODE_MASK, READ_ONLY_FLAG, WRITE_ONLY_FLAG};
use crate::random_bytes::{be_prefix, byte_or_zero};
use crate::regs::{reg_number, Regs};
use crate::policies::external_process::windows::blocks_exit_code_error;
use crate::tauri_utils::CommandArgs;
use crate::listener::{candidates, path_tokens, split_from};

verus! {

/// A rule is only evaluated in its own context: a rule checked at entry never blocks when the
/// function returns, a rule checked at exit never blocks when the function is entered, and
/// neither reads memory or changes in the other context.
pub proof fn lemma_rules_only_apply_in_their_context(
    entry: ConditionOnParameters,
    exit: ConditionOnReturnValue,
    params: Vec<usize>,
    return_value: usize,
    memory: MemoryValue,
)
    ensures
        verdict(Rule::OnEntry(entry), Context::LeaveContext(return_value), memory) == Ok::<bool, RuleErrorView>(false),
        rule_after(Rule::OnEntry(entry), Context::LeaveContext(return_value)) == Rule::OnEntry(entry),
        memory_needed(Rule::OnEntry(entry), Context::LeaveContext(return_value)) == MemoryRead::Nothing,
        verdict(Rule::OnExit(exit), Context::EntryContext(params), memory) == Ok::<bool, RuleErrorView>(false),
        rule_after(Rule::OnExit(exit), Context::EntryContext(params)) == Rule::OnExit(exit),
        memory_needed(Rule::OnExit(exit), Context::EntryContext(params)) == MemoryRead::Nothing,
{
}

/// The rule that blocks every call on entry blocks every call, whatever its parameters.
pub proof fn lemma_block_on_entry_blocks_every_call(params: Vec<usize>, memory: MemoryValue)
    ensures
        verdict(Rule::OnEntry(ConditionOnParameters::Always), Context::EntryContext(params), memory)
            == Ok::<bool, RuleErrorView>(true),
{
}

/// What a rule with storage stores when the function is entered is what it uses when the
/// function returns: once an entry has stored a value, the exit check reads memory through
/// that value, and never reports that the storage is empty.
pub proof fn lemma_entry_storage_is_seen_at_exit(
    store: ConditionOnParametersWithStorage,
    check: ConditionOnReturnValueWithStorage,
    storage: Option<usize>,
    params: Vec<usize>,
    return_value: usize,
    memory: MemoryValue,
)
    requires
        crate::engine::stored_parameter(store, params@) is Some,
    ensures
        ({
            let p = crate::engine::stored_parameter(store, params@)->0;
            let after = rule_after(Rule::OnEntryAndExit(store, check, storage), Context::EntryContext(params));
            &&& after == Rule::OnEntryAndExit(store, check, Some(p))
            &&& check == ConditionOnReturnValueWithStorage::WaitStatusError && !wait_failed(return_value) ==>
                memory_needed(after, Context::LeaveContext(return_value)) == MemoryRead::WaitStatus(p)
            &&& check == ConditionOnReturnValueWithStorage::ChildInfoError && !wait_failed(return_value) ==>
                memory_needed(after, Context::LeaveContext(return_value)) == MemoryRead::ChildInfo(p)
            &&& check == ConditionOnReturnValueWithStorage::ExitCodeError && return_value != 0 ==>
                memory_needed(after, Context::LeaveContext(return_value)) == MemoryRead::ExitCode(p)
            &&& !(verdict(after, Context::LeaveContext(return_value), memory) matches
                Err(RuleErrorView::ExpectedStorageEmpty(_)))
        }),
{
}

/// A child process may not exit with an error: with the policy on the libc `wait` and
/// `waitpid` functions, once the call was entered with its status pointer, the call is blocked
/// when it returns exactly when waiting failed (-1 was returned) or the wait status read
/// through that pointer holds a non-zero exit code.
pub proof fn lemma_child_error_status_blocks_exactly_failed_children(
    p: FunctionPolicy,
    name: Seq<char>,
    params: Vec<usize>,
    return_value: usize,
    status: i32,
)
    requires
        blocks_child_error_status(p, name),
        name == "wait"@ || name == "waitpid"@,
        params@.len() >= 2,
    ensures
        ({
            let after = rule_after(p.rule, Context::EntryContext(params));
            let pointer = if name == "wait"@ { params@[0] } else { params@[1] };
            &&& rule_evaluable(p.rule, Context::EntryContext(params))
            &&& verdict(p.rule, Context::EntryContext(params), MemoryValue::Nothing) == Ok::<bool, RuleErrorView>(false)
            &&& rule_evaluable(after, Context::LeaveContext(usize::MAX))
            &&& verdict(after, Context::LeaveContext(usize::MAX), MemoryValue::Nothing) == Ok::<bool, RuleErrorView>(true)
            &&& !wait_failed(return_value) ==>
                memory_needed(after, Context::LeaveContext(return_value)) == MemoryRead::WaitStatus(pointer)
            &&& !wait_failed(return_value) ==>
                verdict(after, Context::LeaveContext(return_value), MemoryValue::WaitStatus(status))
                    == Ok::<bool, RuleErrorView>(exit_status_of(status) != 0)
        }),
{
    reveal_strlit("wait");
    reveal_strlit("waitid");
    reveal_strlit("waitpid");
}

/// The same holds of `waitid`: once the call was entered with its `siginfo_t` pointer (third
/// parameter), the call is blocked when it returns exactly when waiting failed (-1 was
/// returned) or the `siginfo_t` reports a child that exited with a non-zero code.
pub proof fn lemma_waitid_blocks_exactly_failed_children(
    p: FunctionPolicy,
    params: Vec<usize>,
    return_value: usize,
    code: i32,
    status: i32,
)
    requires
        blocks_child_error_status(p, "waitid"@),
        params@.len() >= 3,
    ensures
        ({
            let after = rule_after(p.rule, Context::EntryContext(params));
            &&& rule_evaluable(p.rule, Context::EntryContext(params))
            &&& verdict(p.rule, Context::EntryContext(params), MemoryValue::Nothing) == Ok::<bool, RuleErrorView>(false)
            &&& rule_evaluable(after, Context::LeaveContext(usize::MAX))
            &&& verdict(after, Context::LeaveContext(usize::MAX), MemoryValue::Nothing) == Ok::<bool, RuleErrorView>(true)
            &&& !wait_failed(return_value) ==>
                memory_needed(after, Context::LeaveContext(return_value)) == MemoryRead::ChildInfo(params@[2])
            &&& !wait_failed(return_value) ==>
                verdict(after, Context::LeaveContext(return_value), MemoryValue::ChildInfo(code, status))
                    == Ok::<bool, RuleErrorView>(code == CLD_EXITED && status != 0)
        }),
{
    reveal_strlit("wait");
    reveal_strlit("waitid");
    reveal_strlit("waitpid");
}

/// On Windows, with the policy on `GetExitCodeProcess`: once the call was entered with the
/// pointer where the exit code is written, a call that succeeded (non-zero return value) is
/// blocked exactly when the exit code read through that pointer is not 0; a call that failed
/// is never blocked.
pub proof fn lemma_exit_code_error_blocks_exactly_failed_children(
    p: FunctionPolicy,
    params: Vec<usize>,
    return_value: usize,
    code: u32,
)
    requires
        blocks_exit_code_error(p),
        params@.len() >= 2,
    ensures
        ({
            let after = rule_after(p.rule, Context::EntryContext(params));
            &&& return_value != 0 ==> memory_needed(after, Context::LeaveContext(return_value)) == MemoryRead::ExitCode(params@[1])
            &&& verdict(after, Context::LeaveContext(return_value), MemoryValue::ExitCode(code))
                == Ok::<bool, RuleErrorView>(return_value != 0 && code != 0)
        }),
{
}

/// Each register has its own number, between 0 and 17: a register is found again from its
/// number.
pub proof fn lemma_register_numbers_are_distinct(a: Regs, b: Regs)
    ensures
        0 <= reg_number(a) < 18,
        reg_number(a) == reg_number(b) ==> a == b,
{
}

/// With a policy on a Rust `std::process` function that reports on a child process, the call is
/// never blocked when it is entered, and when it returns it is blocked exactly when the child
/// exited with a status that is not a success. `Child::try_wait` is also blocked when the
/// child is still running.
pub proof fn lemma_rust_error_status_blocks_exactly_failed_children(
    p: FunctionPolicy,
    name: Seq<char>,
    current_bin: Seq<char>,
    params: Vec<usize>,
    return_value: usize,
    success: bool,
)
    requires
        blocks_rust_error_status(p, name, current_bin),
        process_result_kind(name) is Some,
    ensures
        verdict(p.rule, Context::EntryContext(params), MemoryValue::Nothing) == Ok::<bool, RuleErrorView>(false),
        rule_evaluable(p.rule, Context::LeaveContext(return_value)),
        memory_needed(p.rule, Context::LeaveContext(return_value))
            == MemoryRead::ProcessResult(process_result_kind(name)->0, return_value),
        verdict(p.rule, Context::LeaveContext(return_value), MemoryValue::Process(ProcessStatus::Exited(success)))
            == Ok::<bool, RuleErrorView>(!success),
        process_result_kind(name) == Some(ProcessResultKind::OptionalExitStatus) ==>
            verdict(p.rule, Context::LeaveContext(return_value), MemoryValue::Process(ProcessStatus::StillRunning))
                == Ok::<bool, RuleErrorView>(true),
{
}

/// With a policy on a Rust function that starts a process, a call with its `Command` is blocked
/// exactly when the program of the command ends one of the blocked binaries; the program is read
/// from the `Command` pointed by the second parameter.
pub proof fn lemma_blocked_binaries_are_blocked_on_entry(
    p: FunctionPolicy,
    name: Seq<char>,
    current_bin: Seq<char>,
    blocked: Seq<Seq<char>>,
    params: Vec<usize>,
    program: String,
)
    requires
        blocks_rust_process_creation(p, name, current_bin, blocked),
        params@.len() >= 2,
    ensures
        memory_needed(p.rule, Context::EntryContext(params)) == MemoryRead::CommandProgram(params@[1]),
        verdict(p.rule, Context::EntryContext(params), MemoryValue::Text(program))
            == Ok::<bool, RuleErrorView>(suffix_of_one_of(program@, blocked)),
{
}

/// The read-only and the write-only file policies of libc never both let the same call through:
/// a call that opens a file read-only is blocked by the write-only policy, and the other way round.
pub proof fn lemma_access_modes_exclude_each_other(params: Vec<usize>, memory: MemoryValue)
    requires
        params@.len() >= 2,
    ensures
        ({
            let read_only = Rule::OnEntry(ConditionOnParameters::ParameterMaskedOtherThan {
                index: 1, mask: ACCESS_MODE_MASK, value: READ_ONLY_FLAG });
            let write_only = Rule::OnEntry(ConditionOnParameters::ParameterMaskedOtherThan {
                index: 1, mask: ACCESS_MODE_MASK, value: WRITE_ONLY_FLAG });
            &&& verdict(read_only, Context::EntryContext(params), memory) is Ok
            &&& verdict(write_only, Context::EntryContext(params), memory) is Ok
            &&& verdict(read_only, Context::EntryContext(params), memory) == Ok::<bool, RuleErrorView>(false)
                ==> verdict(write_only, Context::EntryContext(params), memory) == Ok::<bool, RuleErrorView>(true)
        }),
{
}

/// What is read from the arguments of a command is what was last stored under that name;
/// storing under one name leaves the other names as they were.
pub proof fn lemma_command_args_read_what_was_stored(
    args: CommandArgs,
    key: Seq<char>,
    value: serde_json::Value,
    other: Seq<char>,
)
    requires
        other != key,
    ensures
        args@.insert(key, value).dom().contains(key),
        args@.insert(key, value)[key] == value,
        args@.insert(key, value).dom().contains(other) == args@.dom().contains(other),
        args@.dom().contains(other) ==> args@.insert(key, value)[other] == args@[other],
{
}

/// A value built from random bytes depends on its first `n` bytes only: two byte strings that
/// agree there (a missing byte counting as 0) give the same value.
pub proof fn lemma_only_leading_bytes_matter(a: Seq<u8>, b: Seq<u8>, n: nat)
    requires
        forall|i: int| 0 <= i < n ==> #[trigger] byte_or_zero(a, i) == byte_or_zero(b, i),
    ensures
        be_prefix(a, n) == be_prefix(b, n),
    decreases n,
{
    if n > 0 {
        lemma_only_leading_bytes_matter(a, b, (n - 1) as nat);
        assert(byte_or_zero(a, n - 1) == byte_or_zero(b, n - 1));
    }
}

/// `t` is the end of `s`.
pub open spec fn text_ends_with(s: Seq<char>, t: Seq<char>) -> bool {
    t.len() <= s.len() && s.subrange(s.len() - t.len(), s.len() as int) == t
}

/// `t` occurs in `s`.
pub open spec fn text_holds(s: Seq<char>, t: Seq<char>) -> bool {
    exists|i: int| 0 <= i && i + t.len() <= s.len() && #[trigger] s.subrange(i, i + t.len()) == t
}

/// A rule on the program that a Rust `Command` runs blocks the call exactly when the program
/// ends one of the blocked binaries, whichever of them it is: the verdict depends on every
/// blocked binary, not on their order.
pub proof fn lemma_program_rule_blocks_exactly_the_ends_of_blocked_binaries(
    names: Vec<String>,
    params: Vec<usize>,
    program: String,
)
    requires
        params@.len() >= 2,
    ensures
        verdict(Rule::OnEntry(ConditionOnParameters::ProgramIn(names)), Context::EntryContext(params), MemoryValue::Text(program))
            == Ok::<bool, RuleErrorView>(exists|i: int| 0 <= i < names@.len() && #[trigger] text_ends_with(names@[i]@, program@)),
        forall|i: int| 0 <= i < names@.len() && text_ends_with(#[trigger] names@[i]@, program@) ==>
            verdict(Rule::OnEntry(ConditionOnParameters::ProgramIn(names)), Context::EntryContext(params), MemoryValue::Text(program))
                == Ok::<bool, RuleErrorView>(true),
{
    let dv = names.deep_view();
    assert forall|i: int| 0 <= i < names@.len() implies dv[i] == #[trigger] names@[i]@ by {}
    let found = exists|i: int| 0 <= i < names@.len() && #[trigger] text_ends_with(names@[i]@, program@);
    if found {
        let i = choose|i: int| 0 <= i < names@.len() && #[trigger] text_ends_with(names@[i]@, program@);
        assert(crate::text::is_suffix(dv[i], program@));
    }
    if suffix_of_one_of(program@, dv) {
        let i = choose|i: int| 0 <= i < dv.len() && crate::text::is_suffix(#[trigger] dv[i], program@);
        assert(text_ends_with(names@[i]@, program@));
    }
}

/// A rule on a file name blocks the call exactly when the name ends with one of the blocked
/// names, whichever of them it is; so does the rule on an `NtCreateFile` object name.
pub proof fn lemma_file_rules_block_exactly_the_names_ending_a_blocked_name(
    names: Vec<String>,
    params: Vec<usize>,
    file: String,
)
    ensures
        params@.len() >= 1 ==>
            verdict(Rule::OnEntry(ConditionOnParameters::FileNameEndsWith(names)), Context::EntryContext(params), MemoryValue::Text(file))
                == Ok::<bool, RuleErrorView>(exists|i: int| 0 <= i < names@.len() && #[trigger] text_ends_with(file@, names@[i]@)),
        params@.len() >= 3 ==>
            verdict(Rule::OnEntry(ConditionOnParameters::ObjectNameEndsWith(names)), Context::EntryContext(params), MemoryValue::Text(file))
                == Ok::<bool, RuleErrorView>(exists|i: int| 0 <= i < names@.len() && #[trigger] text_ends_with(file@, names@[i]@)),
{
    let dv = names.deep_view();
    assert forall|i: int| 0 <= i < names@.len() implies dv[i] == #[trigger] names@[i]@ by {}
    let found = exists|i: int| 0 <= i < names@.len() && #[trigger] text_ends_with(file@, names@[i]@);
    if found {
        let i = choose|i: int| 0 <= i < names@.len() && #[trigger] text_ends_with(file@, names@[i]@);
        assert(crate::text::is_suffix(file@, dv[i]));
    }
    if crate::engine::ends_with_one_of(file@, dv) {
        let i = choose|i: int| 0 <= i < dv.len() && crate::text::is_suffix(file@, #[trigger] dv[i]);
        assert(text_ends_with(file@, names@[i]@));
    }
}

/// The result of a Rust `std::process` function is read in its own layout: `Command::output`
/// and `Child::wait_with_output` give an `io::Result<Output>`, `Command::status` and
/// `Child::wait` an `io::Result<ExitStatus>`, `Child::try_wait` an
/// `io::Result<Option<ExitStatus>>`, found where the return value points. The rule cannot be
/// evaluated for any other function.
pub proof fn lemma_process_results_are_read_in_their_layout(name: String, v: usize)
    ensures
        ({
            let rule = Rule::OnExit(ConditionOnReturnValue::RustProcessApiError(name));
            let leave = Context::LeaveContext(v);
            &&& (name@ == "std::process::Command::output"@ || name@ == "std::process::Child::wait_with_output"@) ==>
                rule_evaluable(rule, leave) && memory_needed(rule, leave) == MemoryRead::ProcessResult(ProcessResultKind::Output, v)
            &&& (name@ == "std::process::Command::status"@ || name@ == "std::process::Child::wait"@) ==>
                rule_evaluable(rule, leave) && memory_needed(rule, leave) == MemoryRead::ProcessResult(ProcessResultKind::ExitStatus, v)
            &&& name@ == "std::process::Child::try_wait"@ ==>
                rule_evaluable(rule, leave) && memory_needed(rule, leave) == MemoryRead::ProcessResult(ProcessResultKind::OptionalExitStatus, v)
            &&& !(name@ == "std::process::Command::output"@ || name@ == "std::process::Child::wait_with_output"@
                || name@ == "std::process::Command::status"@ || name@ == "std::process::Child::wait"@
                || name@ == "std::process::Child::try_wait"@) ==> !rule_evaluable(rule, leave)
        }),
{
    reveal_strlit("std::process::Command::output");
    reveal_strlit("std::process::Child::wait_with_output");
    reveal_strlit("std::process::Command::status");
    reveal_strlit("std::process::Child::wait");
    reveal_strlit("std::process::Child::try_wait");
    let output = "std::process::Command::output"@;
    let with_output = "std::process::Child::wait_with_output"@;
    let status = "std::process::Command::status"@;
    let wait = "std::process::Child::wait"@;
    let try_wait = "std::process::Child::try_wait"@;
    assert(output[23] != status[23]);
    assert(output[15] != try_wait[15]);
    assert(status[15] != try_wait[15]);
    assert(output.len() != with_output.len() && output.len() != wait.len());
    assert(with_output.len() != status.len() && with_output.len() != wait.len() && with_output.len() != try_wait.len());
    assert(status.len() != wait.len() && wait.len() != try_wait.len());
}

/// A condition on a masked parameter compares exactly the masked bits of that parameter with
/// the value, for every index, mask and value: `ParameterMasked` blocks when they are equal,
/// `ParameterMaskedOtherThan` when they differ. Too few parameters is an error. So under the
/// Windows read-only policy, a call asking for generic read and write access is blocked.
pub proof fn lemma_masked_conditions_compare_the_masked_bits(
    params: Vec<usize>,
    index: usize,
    mask: usize,
    value: usize,
    memory: MemoryValue,
)
    ensures
        index < params@.len() ==> verdict(Rule::OnEntry(ConditionOnParameters::ParameterMasked { index, mask, value }),
            Context::EntryContext(params), memory) == Ok::<bool, RuleErrorView>(params@[index as int] & mask == value),
        index < params@.len() ==> verdict(Rule::OnEntry(ConditionOnParameters::ParameterMaskedOtherThan { index, mask, value }),
            Context::EntryContext(params), memory) == Ok::<bool, RuleErrorView>(params@[index as int] & mask != value),
        index >= params@.len() ==> verdict(Rule::OnEntry(ConditionOnParameters::ParameterMaskedOtherThan { index, mask, value }),
            Context::EntryContext(params), memory) == Err::<bool, RuleErrorView>(RuleErrorView::NumberOfParametersDontMatch(params@.len() as usize)),
        index >= params@.len() ==> verdict(Rule::OnEntry(ConditionOnParameters::ParameterMasked { index, mask, value }),
            Context::EntryContext(params), memory) == Err::<bool, RuleErrorView>(RuleErrorView::NumberOfParametersDontMatch(params@.len() as usize)),
        params@.len() >= 2 && params@[1] & 0xf000_0000 == 0xc000_0000 ==>
            verdict(Rule::OnEntry(ConditionOnParameters::ParameterMaskedOtherThan { index: 1, mask: 0xf000_0000, value: 0x8000_0000 }),
                Context::EntryContext(params), memory) == Ok::<bool, RuleErrorView>(true),
{
}

/// Every symbol found for the Rust function of path `name` contains each token of the path and
/// is neither a `$got` nor a `$GT` variant; every such symbol among `symbols` is found.
pub proof fn lemma_matching_symbols_name_the_function(symbols: Seq<Seq<char>>, name: Seq<char>)
    ensures
        ({
            let tokens = path_tokens(name);
            let found = candidates(symbols, tokens);
            &&& found.len() <= symbols.len()
            &&& forall|i: int| 0 <= i < found.len() ==> {
                &&& !text_holds(#[trigger] found[i], "$got"@)
                &&& !text_holds(found[i], "$GT"@)
                &&& forall|k: int| 0 <= k < tokens.len() ==> text_holds(found[i], #[trigger] tokens[k])
            }
            &&& forall|j: int| 0 <= j < symbols.len()
                && !text_holds(symbols[j], "$got"@) && !text_holds(symbols[j], "$GT"@)
                && (forall|k: int| 0 <= k < tokens.len() ==> text_holds(symbols[j], #[trigger] tokens[k]))
                ==> #[trigger] found.contains(symbols[j])
        }),
{
    let tokens = path_tokens(name);
    let pred = |s: Seq<char>| crate::listener::names_function(s, tokens);
    symbols.filter_lemma(pred);
    let found = candidates(symbols, tokens);
    assert(found == symbols.filter(pred));
    assert forall|s: Seq<char>, t: Seq<char>| text_holds(s, t) == crate::text::contains_text(s, t) by {
        if text_holds(s, t) {
            let i = choose|i: int| 0 <= i && i + t.len() <= s.len() && #[trigger] s.subrange(i, i + t.len()) == t;
            assert(crate::text::occurs_at(s, t, i));
        }
        if crate::text::contains_text(s, t) {
            let i = choose|i: int| crate::text::occurs_at(s, t, i);
            assert(s.subrange(i, i + t.len()) == t);
        }
    }
    assert forall|i: int| 0 <= i < found.len() implies {
        &&& !text_holds(#[trigger] found[i], "$got"@)
        &&& !text_holds(found[i], "$GT"@)
        &&& forall|k: int| 0 <= k < tokens.len() ==> text_holds(found[i], #[trigger] tokens[k])
    } by {
        assert(pred(found[i]));
        assert forall|k: int| 0 <= k < tokens.len() implies text_holds(found[i], #[trigger] tokens[k]) by {
            assert(crate::text::contains_text(found[i], tokens[k]));
        }
    }
    assert forall|j: int| 0 <= j < symbols.len()
        && !text_holds(symbols[j], "$got"@) && !text_holds(symbols[j], "$GT"@)
        && (forall|k: int| 0 <= k < tokens.len() ==> text_holds(symbols[j], #[trigger] tokens[k]))
        implies #[trigger] found.contains(symbols[j]) by {
        assert forall|k: int| 0 <= k < tokens.len() implies crate::text::contains_text(symbols[j], #[trigger] tokens[k]) by {
            assert(text_holds(symbols[j], tokens[k]));
        }
        assert(pred(symbols[j]));
    }
}

/// The tokens joined again, with `::` between two of them.
pub open spec fn joined_path(tokens: Seq<Seq<char>>) -> Seq<char>
    decreases tokens.len(),
{
    if tokens.len() <= 1 {
        if tokens.len() == 1 { tokens[0] } else { Seq::empty() }
    } else {
        tokens[0] + "::"@ + joined_path(tokens.drop_first())
    }
}

proof fn lemma_split_from_joins_back(s: Seq<char>, i: int, cur: Seq<char>)
    requires
        0 <= i <= s.len(),
        !text_holds(cur, "::"@),
        cur.len() > 0 && cur.last() == ':' ==> i >= s.len() || s[i] != ':',
    ensures
        split_from(s, i, cur).len() >= 1,
        joined_path(split_from(s, i, cur)) == cur + s.subrange(i, s.len() as int),
        forall|k: int| 0 <= k < split_from(s, i, cur).len() ==> !text_holds(#[trigger] split_from(s, i, cur)[k], "::"@),
    decreases s.len() - i,
{
    reveal_strlit("::");
    if i >= s.len() {
        assert(cur + s.subrange(i, s.len() as int) =~= cur);
    } else if i + 1 < s.len() && s[i] == ':' && s[i + 1] == ':' {
        assert(!text_holds(Seq::<char>::empty(), "::"@));
        lemma_split_from_joins_back(s, i + 2, Seq::empty());
        let rest = split_from(s, i + 2, Seq::empty());
        let all = seq![cur] + rest;
        assert(all.drop_first() =~= rest);
        assert(all[0] == cur);
        assert(joined_path(all) == cur + "::"@ + joined_path(rest));
        assert(Seq::<char>::empty() + s.subrange(i + 2, s.len() as int) =~= s.subrange(i + 2, s.len() as int));
        assert(cur + "::"@ + s.subrange(i + 2, s.len() as int) =~= cur + s.subrange(i, s.len() as int));
        assert forall|k: int| 0 <= k < all.len() implies !text_holds(#[trigger] all[k], "::"@) by {
            if k > 0 {
                assert(all[k] == rest[k - 1]);
            }
        }
    } else {
        let next = cur.push(s[i]);
        assert(!text_holds(next, "::"@)) by {
            if text_holds(next, "::"@) {
                let j = choose|j: int| 0 <= j && j + 2 <= next.len() && #[trigger] next.subrange(j, j + 2) == "::"@;
                if j + 2 <= cur.len() {
                    assert(cur.subrange(j, j + 2) =~= next.subrange(j, j + 2));
                } else {
                    assert(next.subrange(j, j + 2)[0] == next[j]);
                    assert(next.subrange(j, j + 2)[1] == next[j + 1]);
                }
            }
        }
        lemma_split_from_joins_back(s, i + 1, next);
        assert(next + s.subrange(i + 1, s.len() as int) =~= cur + s.subrange(i, s.len() as int));
    }
}

/// The tokens of a Rust path are its pieces between two `::`: joined again with `::` they give
/// back the path, and no token holds `::`.
pub proof fn lemma_path_tokens_cut_at_each_separator(name: Seq<char>)
    ensures
        path_tokens(name).len() >= 1,
        joined_path(path_tokens(name)) == name,
        forall|k: int| 0 <= k < path_tokens(name).len() ==> !text_holds(#[trigger] path_tokens(name)[k], "::"@),
{
    reveal_strlit("::");
    assert(!text_holds(Seq::<char>::empty(), "::"@));
    lemma_split_from_joins_back(name, 0, Seq::empty());
    assert(Seq::<char>::empty() + name.subrange(0, name.len() as int) =~= name);
}

} // verus!
