//! Definition of a security policy for the fuzzer, and the evaluation of its rules.
//!
//! A rule looks at the registers of a monitored call: its parameters when the function is
//! entered, its return value when it returns. Some rules also need a value that lives in the
//! memory of the monitored process (a file name, the status of a child process). The rule
//! tells which value it needs ([`Rule::memory_read`]); the runtime reads it and hands it to
//! the evaluation ([`Rule::should_block`]).

use vstd::prelude::*;
use crate::text::{concat, contains, contains_text, decimal, decimal_string, ends_with, is_suffix, same_text};

verus! {

#[verifier::external_type_specification]
#[verifier::external_body]
pub struct ExUtf8Error(std::str::Utf8Error);

/// A list of function policies: the security policy applied while fuzzing.
pub type FuzzPolicy = Vec<FunctionPolicy>;

/// Policy set around a function
#[derive(Debug, Clone)]
pub struct FunctionPolicy {
    /// Function name
    pub name: String,
    /// Lib in which the function resides
    pub lib: String,
    /// Conditions that define the policy
    pub rule: Rule,
    /// Number of arguments that the function takes
    pub nb_parameters: u32,
    /// Description of the function policy
    pub description: String,
    /// If the function monitored is a Rust function.
    /// Rust function names are mangled during compilation
    pub is_rust_function: bool,
}

/// Encoding of the strings given to a process-creation function.
#[derive(Debug, Clone, Copy, PartialEq, Eq, Structural)]
pub enum TextEncoding {
    /// 8-bit characters (`LPCSTR`)
    Ansi,
    /// UTF-16 characters (`LPCWSTR`)
    Wide,
}

/// Condition on the parameters of a function, checked when the function is entered.
/// It holds when the call must be blocked.
#[derive(Debug, Clone)]
pub enum ConditionOnParameters {
    /// Never block
    Never,
    /// Block every call
    Always,
    /// Block when `parameters[index] & mask == value`
    ParameterMasked { index: usize, mask: usize, value: usize },
    /// Block when `parameters[index] & mask != value`
    ParameterMaskedOtherThan { index: usize, mask: usize, value: usize },
    /// Block when the file name (a C string pointed by the first parameter) ends with one of
    /// the names
    FileNameEndsWith(Vec<String>),
    /// Block when the object name (in the `OBJECT_ATTRIBUTES` pointed by the third parameter
    /// of `NtCreateFile`) ends with one of the names
    ObjectNameEndsWith(Vec<String>),
    /// Block when the program of the Rust `Command` pointed by the second parameter is a
    /// suffix of one of the blocked binaries
    ProgramIn(Vec<String>),
    /// Block when the executable path (first parameter) or the command line (second parameter)
    /// given to a process-creation function contains one of the blocked binaries
    CommandLineContains(TextEncoding, Vec<String>),
}

/// Condition on the return value of a function, checked when the function returns.
/// It holds when the call must be blocked.
#[derive(Debug, Clone)]
pub enum ConditionOnReturnValue {
    /// Never block
    Never,
    /// Block when `return_value & mask == value`
    ReturnValueMasked { mask: usize, value: usize },
    /// Block when the Rust `std::process` function named here reports that the child process
    /// failed (or, for `try_wait`, is still running). The return value points to the
    /// function's `io::Result`.
    RustProcessApiError(String),
}

/// What a rule stores when the function is entered, for its evaluation at exit.
#[derive(Debug, Clone)]
pub enum ConditionOnParametersWithStorage {
    /// Store this value
    StoreValue(usize),
    /// Store the parameter at this index
    StoreParameter(usize),
    /// Store the pointer that the libc wait function named here fills with the child's status:
    /// the `int` status of `wait` and `waitpid`, the `siginfo_t` of `waitid`
    StoreWaitStatusPointer(String),
}

/// Condition checked when the function returns, with the value stored at entry.
/// It holds when the call must be blocked.
#[derive(Debug, Clone)]
pub enum ConditionOnReturnValueWithStorage {
    /// Never block
    Never,
    /// Block when the libc wait function failed (it returned -1), or when the wait status
    /// stored at entry holds a non-zero exit code
    WaitStatusError,
    /// Block when `waitid` failed (it returned -1), or when the `siginfo_t` stored at entry
    /// reports a child that exited with a non-zero code
    ChildInfoError,
    /// Block when `GetExitCodeProcess` succeeded and wrote a non-zero exit code
    ExitCodeError,
}

/// Rule that the function has to adhere to respect the policy
#[derive(Debug, Clone)]
pub enum Rule {
    /// Rule is checked on function entry given a condition on parameters
    OnEntry(ConditionOnParameters),
    /// Rule is checked on function exit given the return value
    OnExit(ConditionOnReturnValue),
    /// Rule is checked both on function entry and exit.
    /// The last field stores information gathered at entry and used at exit.
    OnEntryAndExit(ConditionOnParametersWithStorage, ConditionOnReturnValueWithStorage, Option<usize>),
}

/// Errors that may happen when evaluating a rule given a context
#[derive(Debug)]
pub enum RuleError {
    /// The number of parameters given in the context does not match the number of
    /// parameters expected by the rule
    NumberOfParametersDontMatch(usize),
    /// Error while converting a string
    StringConversionError(std::str::Utf8Error),
    /// Error while trying to convert a parameter into Rust type
    ParametersTypeConversionError(String),
    /// Generic error that happened during the rule evaluation
    EvaluationError(String),
    /// A value was expected to be found in storage when evaluating a rule at a function exit
    ExpectedStorageEmpty(String),
}

/// A [`RuleError`] with its messages as sequences of characters.
pub ghost enum RuleErrorView {
    NumberOfParametersDontMatch(usize),
    StringConversionError,
    ParametersTypeConversionError(Seq<char>),
    EvaluationError(Seq<char>),
    ExpectedStorageEmpty(Seq<char>),
}

impl View for RuleError {
    type V = RuleErrorView;

    open spec fn view(&self) -> RuleErrorView {
        match self {
            RuleError::NumberOfParametersDontMatch(n) => RuleErrorView::NumberOfParametersDontMatch(*n),
            RuleError::StringConversionError(_) => RuleErrorView::StringConversionError,
            RuleError::ParametersTypeConversionError(m) => RuleErrorView::ParametersTypeConversionError(m@),
            RuleError::EvaluationError(m) => RuleErrorView::EvaluationError(m@),
            RuleError::ExpectedStorageEmpty(m) => RuleErrorView::ExpectedStorageEmpty(m@),
        }
    }
}

/// The outcome of an evaluation, with its error taken by its view.
pub open spec fn outcome(r: Result<bool, RuleError>) -> Result<bool, RuleErrorView> {
    match r {
        Ok(b) => Ok(b),
        Err(e) => Err(e@),
    }
}

/// Context when evaluating if a function is respecting the specified policy.
/// The parameters are known when entering the function, the return value when leaving it.
#[derive(Debug, Clone)]
pub enum Context {
    EntryContext(Vec<usize>),
    LeaveContext(usize),
}

/// How the result of a Rust `std::process` function is laid out in memory.
#[derive(Debug, Clone, Copy, PartialEq, Eq, Structural)]
pub enum ProcessResultKind {
    /// `io::Result<Output>`
    Output,
    /// `io::Result<ExitStatus>`
    ExitStatus,
    /// `io::Result<Option<ExitStatus>>`
    OptionalExitStatus,
}

/// A value of the monitored process's memory that a rule needs.
#[derive(Debug, Clone, Copy, PartialEq, Eq, Structural)]
pub enum MemoryRead {
    /// Nothing is needed
    Nothing,
    /// The NUL-terminated string at this address
    CString(usize),
    /// The program of the Rust `Command` at this address
    CommandProgram(usize),
    /// The object name of the `OBJECT_ATTRIBUTES` at this address
    ObjectName(usize),
    /// The strings (possibly null) at these two addresses, in this encoding
    CommandLine(TextEncoding, usize, usize),
    /// The result of a Rust `std::process` function at this address
    ProcessResult(ProcessResultKind, usize),
    /// The `c_int` wait status at this address
    WaitStatus(usize),
    /// The `siginfo_t` at this address
    ChildInfo(usize),
    /// The `DWORD` exit code at this address
    ExitCode(usize),
}

/// The state of a child process, as reported by a Rust `std::process` function.
#[derive(Debug, Clone, Copy, PartialEq, Eq, Structural)]
pub enum ProcessStatus {
    /// The process exited; `true` when its status is a success
    Exited(bool),
    /// The process has not exited yet
    StillRunning,
}

/// A value read from the monitored process's memory.
#[derive(Debug, Clone)]
pub enum MemoryValue {
    /// Nothing was read
    Nothing,
    /// A string
    Text(String),
    /// A string that could not be decoded
    UndecodableText,
    /// Two strings, each of which may be absent (null pointer)
    TextPair(Option<String>, Option<String>),
    /// The state of a child process
    Process(ProcessStatus),
    /// A wait status
    WaitStatus(i32),
    /// The `si_code` and `si_status` of a `siginfo_t`
    ChildInfo(i32, i32),
    /// An exit code
    ExitCode(u32),
}

/// Message of the error given when the memory value is not the one the rule reads.
pub open spec fn unexpected_memory_message() -> Seq<char> {
    "The value read from memory does not match the rule"@
}

/// Message of the error given when an object name cannot be decoded.
pub open spec fn undecodable_name_message() -> Seq<char> {
    "Failed to get Unicode string from parameter"@
}

/// The `si_code` of a child that exited (`CLD_EXITED`).
pub const CLD_EXITED: i32 = 1;

/// The return value of a libc wait function that failed: -1, as a register.
pub open spec fn wait_failed(value: usize) -> bool {
    value == usize::MAX
}

/// Message of the error given when the status pointer was not stored at entry.
pub open spec fn missing_status_pointer_message() -> Seq<char> {
    "Status pointer was not stored for evaluation of error"@
}

/// Some name in `names` is a suffix of `s`.
pub open spec fn ends_with_one_of(s: Seq<char>, names: Seq<Seq<char>>) -> bool {
    exists|i: int| 0 <= i < names.len() && is_suffix(s, #[trigger] names[i])
}

/// `s` is a suffix of some name in `names`.
pub open spec fn suffix_of_one_of(s: Seq<char>, names: Seq<Seq<char>>) -> bool {
    exists|i: int| 0 <= i < names.len() && is_suffix(#[trigger] names[i], s)
}

/// The command (when there is one) contains some name in `names`.
pub open spec fn command_contains_one_of(command: Option<Seq<char>>, names: Seq<Seq<char>>) -> bool {
    match command {
        None => false,
        Some(c) => exists|i: int| 0 <= i < names.len() && contains_text(c, #[trigger] names[i]),
    }
}

/// The view of an optional string.
pub open spec fn optional_text(s: Option<String>) -> Option<Seq<char>> {
    match s {
        None => None,
        Some(t) => Some(t@),
    }
}

/// The layout of the result of the monitored Rust `std::process` function `name`.
pub open spec fn process_result_kind(name: Seq<char>) -> Option<ProcessResultKind> {
    if name == "std::process::Command::output"@ || name == "std::process::Child::wait_with_output"@ {
        Some(ProcessResultKind::Output)
    } else if name == "std::process::Command::status"@ || name == "std::process::Child::wait"@ {
        Some(ProcessResultKind::ExitStatus)
    } else if name == "std::process::Child::try_wait"@ {
        Some(ProcessResultKind::OptionalExitStatus)
    } else {
        None
    }
}

/// The index of the status pointer among the parameters of the libc wait function `name`.
pub open spec fn wait_status_parameter(name: Seq<char>) -> Option<usize> {
    if name == "wait"@ {
        Some(0usize)
    } else if name == "waitpid"@ {
        Some(1usize)
    } else if name == "waitid"@ {
        Some(2usize)
    } else {
        None
    }
}

/// The exit code held in a wait status (`WEXITSTATUS`).
pub open spec fn exit_status_of(status: i32) -> i32 {
    (status >> 8) & 0xff
}

/// The rule can be evaluated in this context. Elsewhere the evaluation does not return:
/// the rule names a function that it does not know how to monitor, or a libc wait function
/// returned a value that is neither a valid `isize` nor -1.
pub open spec fn rule_evaluable(rule: Rule, context: Context) -> bool {
    match (rule, context) {
        (Rule::OnExit(ConditionOnReturnValue::RustProcessApiError(name)), Context::LeaveContext(_)) =>
            process_result_kind(name@) is Some,
        (Rule::OnEntryAndExit(ConditionOnParametersWithStorage::StoreWaitStatusPointer(name), _, _), Context::EntryContext(_)) =>
            wait_status_parameter(name@) is Some,
        (Rule::OnEntryAndExit(_, ConditionOnReturnValueWithStorage::WaitStatusError, _), Context::LeaveContext(v)) =>
            v <= isize::MAX || wait_failed(v),
        (Rule::OnEntryAndExit(_, ConditionOnReturnValueWithStorage::ChildInfoError, _), Context::LeaveContext(v)) =>
            v <= isize::MAX || wait_failed(v),
        _ => true,
    }
}

/// The memory value that a rule reads to be evaluated in a context.
pub open spec fn memory_needed(rule: Rule, context: Context) -> MemoryRead {
    match (rule, context) {
        (Rule::OnEntry(c), Context::EntryContext(params)) => match c {
            ConditionOnParameters::FileNameEndsWith(_) =>
                if params@.len() >= 1 { MemoryRead::CString(params@[0]) } else { MemoryRead::Nothing },
            ConditionOnParameters::ObjectNameEndsWith(_) =>
                if params@.len() >= 3 { MemoryRead::ObjectName(params@[2]) } else { MemoryRead::Nothing },
            ConditionOnParameters::ProgramIn(_) =>
                if params@.len() >= 2 { MemoryRead::CommandProgram(params@[1]) } else { MemoryRead::Nothing },
            ConditionOnParameters::CommandLineContains(enc, _) =>
                if params@.len() >= 2 { MemoryRead::CommandLine(enc, params@[0], params@[1]) } else { MemoryRead::Nothing },
            _ => MemoryRead::Nothing,
        },
        (Rule::OnExit(ConditionOnReturnValue::RustProcessApiError(name)), Context::LeaveContext(v)) =>
            match process_result_kind(name@) {
                Some(kind) => MemoryRead::ProcessResult(kind, v),
                None => MemoryRead::Nothing,
            },
        (Rule::OnEntryAndExit(_, ConditionOnReturnValueWithStorage::WaitStatusError, Some(p)), Context::LeaveContext(v)) =>
            if wait_failed(v) { MemoryRead::Nothing } else { MemoryRead::WaitStatus(p) },
        (Rule::OnEntryAndExit(_, ConditionOnReturnValueWithStorage::ChildInfoError, Some(p)), Context::LeaveContext(v)) =>
            if wait_failed(v) { MemoryRead::Nothing } else { MemoryRead::ChildInfo(p) },
        (Rule::OnEntryAndExit(_, ConditionOnReturnValueWithStorage::ExitCodeError, Some(p)), Context::LeaveContext(v)) =>
            if v != 0 { MemoryRead::ExitCode(p) } else { MemoryRead::Nothing },
        _ => MemoryRead::Nothing,
    }
}

/// Too few parameters for the rule.
pub open spec fn too_few(params: Seq<usize>) -> Result<bool, RuleErrorView> {
    Err(RuleErrorView::NumberOfParametersDontMatch(params.len() as usize))
}

/// The memory value is not the one the rule reads.
pub open spec fn unexpected_memory() -> Result<bool, RuleErrorView> {
    Err(RuleErrorView::EvaluationError(unexpected_memory_message()))
}

/// Verdict of a condition on parameters.
pub open spec fn entry_verdict(c: ConditionOnParameters, params: Seq<usize>, memory: MemoryValue) -> Result<bool, RuleErrorView> {
    match c {
        ConditionOnParameters::Never => Ok(false),
        ConditionOnParameters::Always => Ok(true),
        ConditionOnParameters::ParameterMasked { index, mask, value } =>
            if index < params.len() { Ok(params[index as int] & mask == value) } else { too_few(params) },
        ConditionOnParameters::ParameterMaskedOtherThan { index, mask, value } =>
            if index < params.len() { Ok(params[index as int] & mask != value) } else { too_few(params) },
        ConditionOnParameters::FileNameEndsWith(names) =>
            if params.len() < 1 {
                too_few(params)
            } else {
                match memory {
                    MemoryValue::Text(s) => Ok(ends_with_one_of(s@, names.deep_view())),
                    _ => unexpected_memory(),
                }
            },
        ConditionOnParameters::ObjectNameEndsWith(names) =>
            if params.len() < 3 {
                too_few(params)
            } else {
                match memory {
                    MemoryValue::Text(s) => Ok(ends_with_one_of(s@, names.deep_view())),
                    MemoryValue::UndecodableText =>
                        Err(RuleErrorView::ParametersTypeConversionError(undecodable_name_message())),
                    _ => unexpected_memory(),
                }
            },
        ConditionOnParameters::ProgramIn(names) =>
            if params.len() < 2 {
                too_few(params)
            } else {
                match memory {
                    MemoryValue::Text(s) => Ok(suffix_of_one_of(s@, names.deep_view())),
                    _ => unexpected_memory(),
                }
            },
        ConditionOnParameters::CommandLineContains(_, names) =>
            if params.len() < 2 {
                too_few(params)
            } else {
                match memory {
                    MemoryValue::TextPair(path, line) => Ok(
                        command_contains_one_of(optional_text(path), names.deep_view())
                        || command_contains_one_of(optional_text(line), names.deep_view())),
                    _ => unexpected_memory(),
                }
            },
    }
}

/// Verdict of a condition on the return value.
pub open spec fn exit_verdict(c: ConditionOnReturnValue, value: usize, memory: MemoryValue) -> Result<bool, RuleErrorView> {
    match c {
        ConditionOnReturnValue::Never => Ok(false),
        ConditionOnReturnValue::ReturnValueMasked { mask, value: expected } => Ok(value & mask == expected),
        ConditionOnReturnValue::RustProcessApiError(name) =>
            match memory {
                MemoryValue::Process(ProcessStatus::Exited(success)) => Ok(!success),
                MemoryValue::Process(ProcessStatus::StillRunning) =>
                    if process_result_kind(name@) == Some(ProcessResultKind::OptionalExitStatus) {
                        Ok(true)
                    } else {
                        unexpected_memory()
                    },
                _ => unexpected_memory(),
            },
    }
}

/// The parameter that a storing condition stores, if the parameters suffice.
pub open spec fn stored_parameter(c: ConditionOnParametersWithStorage, params: Seq<usize>) -> Option<usize> {
    match c {
        ConditionOnParametersWithStorage::StoreValue(v) => Some(v),
        ConditionOnParametersWithStorage::StoreParameter(i) =>
            if i < params.len() { Some(params[i as int]) } else { None },
        ConditionOnParametersWithStorage::StoreWaitStatusPointer(name) =>
            match wait_status_parameter(name@) {
                Some(i) => if i < params.len() { Some(params[i as int]) } else { None },
                None => None,
            },
    }
}

/// Verdict of a condition with storage, at exit.
pub open spec fn stored_exit_verdict(c: ConditionOnReturnValueWithStorage, value: usize, storage: Option<usize>, memory: MemoryValue) -> Result<bool, RuleErrorView> {
    match c {
        ConditionOnReturnValueWithStorage::Never => Ok(false),
        ConditionOnReturnValueWithStorage::WaitStatusError =>
            if wait_failed(value) {
                Ok(true)
            } else {
                match storage {
                    None => Err(RuleErrorView::ExpectedStorageEmpty(missing_status_pointer_message())),
                    Some(_) => match memory {
                        MemoryValue::WaitStatus(s) => Ok(exit_status_of(s) != 0),
                        _ => unexpected_memory(),
                    },
                }
            },
        ConditionOnReturnValueWithStorage::ChildInfoError =>
            if wait_failed(value) {
                Ok(true)
            } else {
                match storage {
                    None => Err(RuleErrorView::ExpectedStorageEmpty(missing_status_pointer_message())),
                    Some(_) => match memory {
                        MemoryValue::ChildInfo(code, status) => Ok(code == CLD_EXITED && status != 0),
                        _ => unexpected_memory(),
                    },
                }
            },
        ConditionOnReturnValueWithStorage::ExitCodeError =>
            if value == 0 {
                Ok(false)
            } else {
                match storage {
                    None => Err(RuleErrorView::ExpectedStorageEmpty(missing_status_pointer_message())),
                    Some(_) => match memory {
                        MemoryValue::ExitCode(code) => Ok(code != 0),
                        _ => unexpected_memory(),
                    },
                }
            },
    }
}

/// What evaluating `rule` in `context` with `memory` returns.
/// Rules are only evaluated in their own context: an entry rule given a leave context, and an
/// exit rule given an entry context, never block.
pub open spec fn verdict(rule: Rule, context: Context, memory: MemoryValue) -> Result<bool, RuleErrorView> {
    match rule {
        Rule::OnEntry(c) => match context {
            Context::EntryContext(params) => entry_verdict(c, params@, memory),
            Context::LeaveContext(_) => Ok(false),
        },
        Rule::OnExit(c) => match context {
            Context::EntryContext(_) => Ok(false),
            Context::LeaveContext(v) => exit_verdict(c, v, memory),
        },
        Rule::OnEntryAndExit(store, check, storage) => match context {
            Context::EntryContext(params) => match stored_parameter(store, params@) {
                Some(_) => Ok(false),
                None => too_few(params@),
            },
            Context::LeaveContext(v) => stored_exit_verdict(check, v, storage, memory),
        },
    }
}

/// The rule after its evaluation in `context`: a rule with storage records, when entered,
/// the value it stores; every other evaluation leaves the rule as it was.
pub open spec fn rule_after(rule: Rule, context: Context) -> Rule {
    match (rule, context) {
        (Rule::OnEntryAndExit(store, check, storage), Context::EntryContext(params)) =>
            match stored_parameter(store, params@) {
                Some(p) => Rule::OnEntryAndExit(store, check, Some(p)),
                None => Rule::OnEntryAndExit(store, check, storage),
            },
        _ => rule,
    }
}


/// Whether the file name ends with one of the blocked file names.
pub fn rule_no_access_to_filenames(names: &Vec<String>, s: &str) -> (r: bool)
    ensures
        r == ends_with_one_of(s@, names.deep_view()),
{
    let mut i: usize = 0;
    while i < names.len()
        invariant
            i <= names@.len(),
            forall|j: int| 0 <= j < i ==> !is_suffix(s@, #[trigger] names.deep_view()[j]),
        decreases names@.len() - i,
    {
        if ends_with(s, names[i].as_str()) {
            assert(names.deep_view()[i as int] == names@[i as int]@);
            return true;
        }
        i = i + 1;
    }
    false
}

/// Whether the binary run by a Rust `Command` is a suffix of one of the blocked binaries.
pub fn block_monitored_binaries_on_entry(names: &Vec<String>, s: &str) -> (r: bool)
    ensures
        r == suffix_of_one_of(s@, names.deep_view()),
{
    let mut i: usize = 0;
    while i < names.len()
        invariant
            i <= names@.len(),
            forall|j: int| 0 <= j < i ==> !is_suffix(#[trigger] names.deep_view()[j], s@),
        decreases names@.len() - i,
    {
        if ends_with(names[i].as_str(), s) {
            assert(names.deep_view()[i as int] == names@[i as int]@);
            return true;
        }
        i = i + 1;
    }
    false
}

/// Whether the command (when there is one) contains one of the blocked binaries.
/// The check is loose: a command that merely contains the name of a blocked binary counts.
pub fn contains_blocked_binaries(command: &Option<String>, names: &Vec<String>) -> (r: bool)
    ensures
        r == command_contains_one_of(optional_text(*command), names.deep_view()),
{
    match command {
        None => false,
        Some(c) => {
            let mut i: usize = 0;
            assert(optional_text(*command) == Some(c@));
            while i < names.len()
                invariant
                    i <= names@.len(),
                    optional_text(*command) == Some(c@),
                    forall|j: int| 0 <= j < i ==> !contains_text(c@, #[trigger] names.deep_view()[j]),
                decreases names@.len() - i,
            {
                if contains(c.as_str(), names[i].as_str()) {
                    assert(names.deep_view()[i as int] == names@[i as int]@);
                    assert(contains_text(c@, names.deep_view()[i as int]));
                    return true;
                }
                i = i + 1;
            }
            false
        },
    }
}

/// The layout of the result of the monitored Rust `std::process` function `name`.
pub fn process_result_kind_of(name: &str) -> (r: Option<ProcessResultKind>)
    ensures
        r == process_result_kind(name@),
{
    if same_text(name, "std::process::Command::output") || same_text(name, "std::process::Child::wait_with_output") {
        Some(ProcessResultKind::Output)
    } else if same_text(name, "std::process::Command::status") || same_text(name, "std::process::Child::wait") {
        Some(ProcessResultKind::ExitStatus)
    } else if same_text(name, "std::process::Child::try_wait") {
        Some(ProcessResultKind::OptionalExitStatus)
    } else {
        None
    }
}

/// The index of the status pointer among the parameters of the libc wait function `name`.
pub fn wait_status_parameter_of(name: &str) -> (r: Option<usize>)
    ensures
        r == wait_status_parameter(name@),
{
    if same_text(name, "wait") {
        Some(0)
    } else if same_text(name, "waitpid") {
        Some(1)
    } else if same_text(name, "waitid") {
        Some(2)
    } else {
        None
    }
}

/// The exit code held in a wait status, by `libc::WEXITSTATUS`; the contract claims that libc
/// computes it as `(status >> 8) & 0xff`, as its source does on Linux and the BSDs (not on
/// Haiku or VxWorks, where the policies on libc wait functions are not used).
#[verifier::external_body]
fn wait_exit_status(status: i32) -> (code: i32)
    ensures
        code == exit_status_of(status),
{
    libc::WEXITSTATUS(status)
}

fn too_few_parameters(params: &Vec<usize>) -> (r: Result<bool, RuleError>)
    ensures
        outcome(r) == too_few(params@),
{
    Err(RuleError::NumberOfParametersDontMatch(params.len()))
}

fn unexpected_memory_error() -> (r: Result<bool, RuleError>)
    ensures
        outcome(r) == unexpected_memory(),
{
    Err(RuleError::EvaluationError(String::from_str("The value read from memory does not match the rule")))
}

fn missing_status_pointer() -> (r: Result<bool, RuleError>)
    ensures
        outcome(r) == Err::<bool, RuleErrorView>(RuleErrorView::ExpectedStorageEmpty(missing_status_pointer_message())),
{
    Err(RuleError::ExpectedStorageEmpty(String::from_str("Status pointer was not stored for evaluation of error")))
}

impl ConditionOnParameters {
    /// Evaluate the condition on the parameters of a call
    fn check(&self, params: &Vec<usize>, memory: &MemoryValue) -> (r: Result<bool, RuleError>)
        ensures
            outcome(r) == entry_verdict(*self, params@, *memory),
    {
        match self {
            ConditionOnParameters::Never => Ok(false),
            ConditionOnParameters::Always => Ok(true),
            ConditionOnParameters::ParameterMasked { index, mask, value } => {
                if *index < params.len() {
                    Ok(params[*index] & *mask == *value)
                } else {
                    too_few_parameters(params)
                }
            },
            ConditionOnParameters::ParameterMaskedOtherThan { index, mask, value } => {
                if *index < params.len() {
                    Ok(params[*index] & *mask != *value)
                } else {
                    too_few_parameters(params)
                }
            },
            ConditionOnParameters::FileNameEndsWith(names) => {
                if params.len() < 1 {
                    too_few_parameters(params)
                } else {
                    match memory {
                        MemoryValue::Text(s) => Ok(rule_no_access_to_filenames(names, s.as_str())),
                        _ => unexpected_memory_error(),
                    }
                }
            },
            ConditionOnParameters::ObjectNameEndsWith(names) => {
                if params.len() < 3 {
                    too_few_parameters(params)
                } else {
                    match memory {
                        MemoryValue::Text(s) => Ok(rule_no_access_to_filenames(names, s.as_str())),
                        MemoryValue::UndecodableText => Err(RuleError::ParametersTypeConversionError(
                            String::from_str("Failed to get Unicode string from parameter"),
                        )),
                        _ => unexpected_memory_error(),
                    }
                }
            },
            ConditionOnParameters::ProgramIn(names) => {
                if params.len() < 2 {
                    too_few_parameters(params)
                } else {
                    match memory {
                        MemoryValue::Text(s) => Ok(block_monitored_binaries_on_entry(names, s.as_str())),
                        _ => unexpected_memory_error(),
                    }
                }
            },
            ConditionOnParameters::CommandLineContains(_, names) => {
                if params.len() < 2 {
                    too_few_parameters(params)
                } else {
                    match memory {
                        MemoryValue::TextPair(path, line) => {
                            let in_path: bool = contains_blocked_binaries(path, names);
                            let in_line: bool = contains_blocked_binaries(line, names);
                            Ok(in_path || in_line)
                        },
                        _ => unexpected_memory_error(),
                    }
                }
            },
        }
    }
}

impl ConditionOnReturnValue {
    /// Evaluate the condition on the return value of a call
    fn check(&self, value: usize, memory: &MemoryValue) -> (r: Result<bool, RuleError>)
        ensures
            outcome(r) == exit_verdict(*self, value, *memory),
    {
        match self {
            ConditionOnReturnValue::Never => Ok(false),
            ConditionOnReturnValue::ReturnValueMasked { mask, value: expected } => Ok(value & *mask == *expected),
            ConditionOnReturnValue::RustProcessApiError(name) => match memory {
                MemoryValue::Process(ProcessStatus::Exited(success)) => Ok(!*success),
                MemoryValue::Process(ProcessStatus::StillRunning) => {
                    if process_result_kind_of(name.as_str()) == Some(ProcessResultKind::OptionalExitStatus) {
                        Ok(true)
                    } else {
                        unexpected_memory_error()
                    }
                },
                _ => unexpected_memory_error(),
            },
        }
    }
}

impl ConditionOnParametersWithStorage {
    /// The value to store when entering a call, if the parameters suffice
    fn stored(&self, params: &Vec<usize>) -> (r: Option<usize>)
        ensures
            r == stored_parameter(*self, params@),
    {
        match self {
            ConditionOnParametersWithStorage::StoreValue(v) => Some(*v),
            ConditionOnParametersWithStorage::StoreParameter(i) => {
                if *i < params.len() { Some(params[*i]) } else { None }
            },
            ConditionOnParametersWithStorage::StoreWaitStatusPointer(name) => {
                match wait_status_parameter_of(name.as_str()) {
                    Some(i) => if i < params.len() { Some(params[i]) } else { None },
                    None => None,
                }
            },
        }
    }
}

impl ConditionOnReturnValueWithStorage {
    /// Evaluate the condition at exit, given what was stored at entry
    fn check(&self, value: usize, storage: Option<usize>, memory: &MemoryValue) -> (r: Result<bool, RuleError>)
        ensures
            outcome(r) == stored_exit_verdict(*self, value, storage, *memory),
    {
        match self {
            ConditionOnReturnValueWithStorage::Never => Ok(false),
            ConditionOnReturnValueWithStorage::WaitStatusError => {
                if value == usize::MAX {
                    Ok(true)
                } else {
                    match storage {
                        None => missing_status_pointer(),
                        Some(_) => match memory {
                            MemoryValue::WaitStatus(s) => Ok(wait_exit_status(*s) != 0),
                            _ => unexpected_memory_error(),
                        },
                    }
                }
            },
            ConditionOnReturnValueWithStorage::ChildInfoError => {
                if value == usize::MAX {
                    Ok(true)
                } else {
                    match storage {
                        None => missing_status_pointer(),
                        Some(_) => match memory {
                            MemoryValue::ChildInfo(code, status) => Ok(*code == CLD_EXITED && *status != 0),
                            _ => unexpected_memory_error(),
                        },
                    }
                }
            },
            ConditionOnReturnValueWithStorage::ExitCodeError => {
                if value == 0 {
                    Ok(false)
                } else {
                    match storage {
                        None => missing_status_pointer(),
                        Some(_) => match memory {
                            MemoryValue::ExitCode(code) => Ok(*code != 0),
                            _ => unexpected_memory_error(),
                        },
                    }
                }
            },
        }
    }
}

impl Rule {
    /// Whether the rule can be evaluated in `context` (see [`rule_evaluable`])
    pub fn is_evaluable(&self, context: &Context) -> (r: bool)
        ensures
            r == rule_evaluable(*self, *context),
    {
        match (self, context) {
            (Rule::OnExit(ConditionOnReturnValue::RustProcessApiError(name)), Context::LeaveContext(_)) =>
                process_result_kind_of(name.as_str()).is_some(),
            (Rule::OnEntryAndExit(ConditionOnParametersWithStorage::StoreWaitStatusPointer(name), _, _), Context::EntryContext(_)) =>
                wait_status_parameter_of(name.as_str()).is_some(),
            (Rule::OnEntryAndExit(_, ConditionOnReturnValueWithStorage::WaitStatusError, _), Context::LeaveContext(v)) =>
                *v <= isize::MAX as usize || *v == usize::MAX,
            (Rule::OnEntryAndExit(_, ConditionOnReturnValueWithStorage::ChildInfoError, _), Context::LeaveContext(v)) =>
                *v <= isize::MAX as usize || *v == usize::MAX,
            _ => true,
        }
    }

    /// The value of the monitored process's memory that the rule reads in `context`
    pub fn memory_read(&self, context: &Context) -> (r: MemoryRead)
        ensures
            r == memory_needed(*self, *context),
    {
        match (self, context) {
            (Rule::OnEntry(c), Context::EntryContext(params)) => match c {
                ConditionOnParameters::FileNameEndsWith(_) =>
                    if params.len() >= 1 { MemoryRead::CString(params[0]) } else { MemoryRead::Nothing },
                ConditionOnParameters::ObjectNameEndsWith(_) =>
                    if params.len() >= 3 { MemoryRead::ObjectName(params[2]) } else { MemoryRead::Nothing },
                ConditionOnParameters::ProgramIn(_) =>
                    if params.len() >= 2 { MemoryRead::CommandProgram(params[1]) } else { MemoryRead::Nothing },
                ConditionOnParameters::CommandLineContains(enc, _) =>
                    if params.len() >= 2 { MemoryRead::CommandLine(*enc, params[0], params[1]) } else { MemoryRead::Nothing },
                _ => MemoryRead::Nothing,
            },
            (Rule::OnExit(ConditionOnReturnValue::RustProcessApiError(name)), Context::LeaveContext(v)) =>
                match process_result_kind_of(name.as_str()) {
                    Some(kind) => MemoryRead::ProcessResult(kind, *v),
                    None => MemoryRead::Nothing,
                },
            (Rule::OnEntryAndExit(_, ConditionOnReturnValueWithStorage::WaitStatusError, Some(p)), Context::LeaveContext(v)) =>
                if *v == usize::MAX { MemoryRead::Nothing } else { MemoryRead::WaitStatus(*p) },
            (Rule::OnEntryAndExit(_, ConditionOnReturnValueWithStorage::ChildInfoError, Some(p)), Context::LeaveContext(v)) =>
                if *v == usize::MAX { MemoryRead::Nothing } else { MemoryRead::ChildInfo(*p) },
            (Rule::OnEntryAndExit(_, ConditionOnReturnValueWithStorage::ExitCodeError, Some(p)), Context::LeaveContext(v)) =>
                if *v != 0 { MemoryRead::ExitCode(*p) } else { MemoryRead::Nothing },
            _ => MemoryRead::Nothing,
        }
    }

    /// Evaluate if the rule is broken given a context and the memory value it reads.
    /// `Ok(true)` means that the call does not respect the policy and should be blocked.
    /// Entry rules are not evaluated in a leave context, nor exit rules in an entry context.
    pub fn should_block(&mut self, context: &Context, memory: &MemoryValue) -> (r: Result<bool, RuleError>)
        requires
            rule_evaluable(*old(self), *context),
        ensures
            outcome(r) == verdict(*old(self), *context, *memory),
            *final(self) == rule_after(*old(self), *context),
    {
        match self {
            Rule::OnEntry(c) => match context {
                Context::EntryContext(params) => c.check(params, memory),
                Context::LeaveContext(_) => Ok(false),
            },
            Rule::OnExit(c) => match context {
                Context::EntryContext(_) => Ok(false),
                Context::LeaveContext(v) => c.check(*v, memory),
            },
            Rule::OnEntryAndExit(store, check, storage) => match context {
                Context::EntryContext(params) => match store.stored(params) {
                    Some(p) => {
                        *storage = Some(p);
                        Ok(false)
                    },
                    None => too_few_parameters(params),
                },
                Context::LeaveContext(v) => check.check(*v, *storage, memory),
            },
        }
    }
}

/// Debug text of a rule: its kind.
pub open spec fn rule_text(rule: Rule) -> Seq<char> {
    match rule {
        Rule::OnEntry(_) => "Rule::OnEntry"@,
        Rule::OnExit(_) => "Rule::OnExit"@,
        Rule::OnEntryAndExit(_, _, _) => "Rule::OnEntryAndExit"@,
    }
}

/// The numbers of `v` in decimal, separated by ", ".
pub open spec fn joined_decimals(v: Seq<usize>) -> Seq<char>
    decreases v.len(),
{
    if v.len() == 0 {
        Seq::empty()
    } else if v.len() == 1 {
        decimal(v[0] as nat)
    } else {
        joined_decimals(v.drop_last()) + ", "@ + decimal(v.last() as nat)
    }
}

/// Debug text of a list of numbers: `[1, 2, 3]`.
pub open spec fn list_text(v: Seq<usize>) -> Seq<char> {
    "["@ + joined_decimals(v) + "]"@
}

/// Debug text of a context.
pub open spec fn context_text(context: Context) -> Seq<char> {
    match context {
        Context::EntryContext(params) => "Function entry with parameters: "@ + list_text(params@),
        Context::LeaveContext(v) => "Function exit with return value as usize: "@ + decimal(v as nat),
    }
}

/// The message that reports a broken policy.
pub open spec fn infringement_text(policy: FunctionPolicy, context: Context) -> Seq<char> {
    "Policy was broken at function ["@ + policy.name@ + "].\nDescription: "@ + policy.description@
        + "\nRule: "@ + rule_text(policy.rule) + "\nContext: "@ + context_text(context)
}

/// Debug text of a list of numbers.
pub fn list_string(v: &Vec<usize>) -> (s: String)
    ensures
        s@ == list_text(v@),
{
    let mut joined: String = String::new();
    let mut i: usize = 0;
    while i < v.len()
        invariant
            i <= v@.len(),
            joined@ == joined_decimals(v@.subrange(0, i as int)),
        decreases v@.len() - i,
    {
        let ghost prefix = v@.subrange(0, i + 1);
        assert(prefix.drop_last() =~= v@.subrange(0, i as int));
        if i == 0 {
            joined = decimal_string(v[i]);
        } else {
            joined = concat(joined, ", ");
            let d: String = decimal_string(v[i]);
            joined = concat(joined, d.as_str());
        }
        i = i + 1;
    }
    assert(v@.subrange(0, v@.len() as int) =~= v@);
    let r: String = concat(String::from_str("["), joined.as_str());
    concat(r, "]")
}

impl Rule {
    /// Debug text of the rule: its kind
    pub fn describe(&self) -> (s: String)
        ensures
            s@ == rule_text(*self),
    {
        match self {
            Rule::OnEntry(_) => String::from_str("Rule::OnEntry"),
            Rule::OnExit(_) => String::from_str("Rule::OnExit"),
            Rule::OnEntryAndExit(_, _, _) => String::from_str("Rule::OnEntryAndExit"),
        }
    }
}

impl Context {
    /// Debug text of the context
    pub fn describe(&self) -> (s: String)
        ensures
            s@ == context_text(*self),
    {
        match self {
            Context::EntryContext(params) => {
                let l: String = list_string(params);
                concat(String::from_str("Function entry with parameters: "), l.as_str())
            },
            Context::LeaveContext(v) => {
                let d: String = decimal_string(*v);
                concat(String::from_str("Function exit with return value as usize: "), d.as_str())
            },
        }
    }
}

impl FunctionPolicy {
    /// Check the function policy in the specified context and if the invocation should be blocked.
    /// The evaluation must neither fail nor be out of the rule's reach (the caller checks
    /// both, see [`Rule::is_evaluable`] and [`Rule::should_block`]).
    pub fn should_block(&mut self, context: &Context, memory: &MemoryValue) -> (blocked: bool)
        requires
            rule_evaluable(old(self).rule, *context),
            verdict(old(self).rule, *context, *memory) is Ok,
        ensures
            verdict(old(self).rule, *context, *memory) == Ok::<bool, RuleErrorView>(blocked),
            final(self).rule == rule_after(old(self).rule, *context),
            final(self).name == old(self).name,
            final(self).lib == old(self).lib,
            final(self).nb_parameters == old(self).nb_parameters,
            final(self).description == old(self).description,
            final(self).is_rust_function == old(self).is_rust_function,
    {
        match self.rule.should_block(context, memory) {
            Ok(b) => b,
            Err(_) => false,
        }
    }

    /// The message that reports that the policy was broken in `context`
    pub fn policy_infringement_message(&self, context: &Context) -> (s: String)
        ensures
            s@ == infringement_text(*self, *context),
    {
        let mut s: String = String::from_str("Policy was broken at function [");
        s = concat(s, self.name.as_str());
        s = concat(s, "].\nDescription: ");
        s = concat(s, self.description.as_str());
        s = concat(s, "\nRule: ");
        let r: String = self.rule.describe();
        s = concat(s, r.as_str());
        s = concat(s, "\nContext: ");
        let c: String = context.describe();
        s = concat(s, c.as_str());
        s
    }
}

} // verus!
