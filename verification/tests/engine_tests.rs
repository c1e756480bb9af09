use tauri_fuzz::engine::{
    ConditionOnParameters, ConditionOnParametersWithStorage, ConditionOnReturnValue,
    ConditionOnReturnValueWithStorage, Context, FunctionPolicy, MemoryRead, MemoryValue,
    ProcessResultKind, ProcessStatus, Rule, RuleError, TextEncoding,
};
use tauri_fuzz::policies::block_on_entry;

fn entry(params: Vec<usize>) -> Context {
    Context::EntryContext(params)
}

#[test]
fn rule_on_parameters() {
    // Block on function entry
    let mut rule = Rule::OnEntry(block_on_entry());
    let context = entry(vec![]);
    assert!(rule.should_block(&context, &MemoryValue::Nothing).unwrap());

    // Check parameters
    let mut rule1 = Rule::OnEntry(ConditionOnParameters::ParameterMasked { index: 0, mask: usize::MAX, value: 1 });
    let mut rule2 = Rule::OnEntry(ConditionOnParameters::ParameterMasked { index: 1, mask: 1, value: 0 });
    let mut rule3 = Rule::OnEntry(ConditionOnParameters::ParameterMasked { index: 2, mask: usize::MAX, value: 4 });
    let context = entry(vec![1, 2, 3]);
    assert!(rule1.should_block(&context, &MemoryValue::Nothing).unwrap());
    assert!(rule2.should_block(&context, &MemoryValue::Nothing).unwrap());
    assert!(!rule3.should_block(&context, &MemoryValue::Nothing).unwrap());
}

#[test]
fn rule_on_return_value() {
    let mut rule = Rule::OnExit(ConditionOnReturnValue::ReturnValueMasked { mask: usize::MAX, value: 1 });
    let mut rule2 = Rule::OnExit(ConditionOnReturnValue::ReturnValueMasked { mask: usize::MAX, value: 4 });
    let context = Context::LeaveContext(1);
    assert!(rule.should_block(&context, &MemoryValue::Nothing).unwrap());
    assert!(!rule2.should_block(&context, &MemoryValue::Nothing).unwrap());
}

#[test]
fn rule_wrong_context() {
    // Entry context with leave rule
    let context = entry(vec![]);
    let mut rule = Rule::OnExit(ConditionOnReturnValue::Never);
    assert!(!rule.should_block(&context, &MemoryValue::Nothing).unwrap());

    // Leave context with entry rule
    let context = Context::LeaveContext(0);
    let mut rule = Rule::OnEntry(block_on_entry());
    assert!(!rule.should_block(&context, &MemoryValue::Nothing).unwrap());

    // Entry context with not enough parameters
    let mut rule = Rule::OnEntry(ConditionOnParameters::ParameterMasked { index: 2, mask: usize::MAX, value: 4 });
    let context = entry(vec![1, 2]);
    assert!(rule.should_block(&context, &MemoryValue::Nothing).is_err());
}

#[test]
fn rule_on_entry_and_exit() {
    let entry_context = entry(vec![1, 2, 3]);
    let leave_context = Context::LeaveContext(4);
    let mut rule = Rule::OnEntryAndExit(
        ConditionOnParametersWithStorage::StoreValue(4),
        ConditionOnReturnValueWithStorage::Never,
        None,
    );
    assert!(!rule.should_block(&entry_context, &MemoryValue::Nothing).unwrap());
    match &rule {
        Rule::OnEntryAndExit(_, _, stored_value) => {
            assert!(stored_value.is_some());
            assert_eq!(4, stored_value.unwrap());
        }
        _ => unreachable!(),
    }
    assert!(!rule.should_block(&leave_context, &MemoryValue::Nothing).unwrap());
}

#[test]
fn too_few_parameters_reports_their_number() {
    let mut rule = Rule::OnEntry(ConditionOnParameters::FileNameEndsWith(vec!["secret".to_string()]));
    match rule.should_block(&entry(vec![]), &MemoryValue::Nothing) {
        Err(RuleError::NumberOfParametersDontMatch(n)) => assert_eq!(n, 0),
        other => panic!("unexpected {:?}", other),
    }
}

#[test]
fn file_name_rule_reads_the_first_parameter() {
    let mut rule = Rule::OnEntry(ConditionOnParameters::FileNameEndsWith(vec!["secret.txt".to_string()]));
    let context = entry(vec![0x1000, 0]);
    assert_eq!(rule.memory_read(&context), MemoryRead::CString(0x1000));
    assert!(rule.should_block(&context, &MemoryValue::Text("/home/me/secret.txt".to_string())).unwrap());
    assert!(!rule.should_block(&context, &MemoryValue::Text("/home/me/public.txt".to_string())).unwrap());
    match rule.should_block(&context, &MemoryValue::Nothing) {
        Err(RuleError::EvaluationError(m)) => assert_eq!(m, "The value read from memory does not match the rule"),
        other => panic!("unexpected {:?}", other),
    }
}

#[test]
fn object_name_rule_reports_undecodable_names() {
    let mut rule = Rule::OnEntry(ConditionOnParameters::ObjectNameEndsWith(vec!["x.txt".to_string()]));
    let context = entry(vec![1, 2, 0x2000]);
    assert_eq!(rule.memory_read(&context), MemoryRead::ObjectName(0x2000));
    assert!(rule.should_block(&context, &MemoryValue::Text("C:\\x.txt".to_string())).unwrap());
    match rule.should_block(&context, &MemoryValue::UndecodableText) {
        Err(RuleError::ParametersTypeConversionError(m)) => assert_eq!(m, "Failed to get Unicode string from parameter"),
        other => panic!("unexpected {:?}", other),
    }
}

#[test]
fn program_rule_blocks_suffixes_of_blocked_binaries() {
    let mut rule = Rule::OnEntry(ConditionOnParameters::ProgramIn(vec!["/usr/bin/rm".to_string()]));
    let context = entry(vec![0, 0x3000]);
    assert_eq!(rule.memory_read(&context), MemoryRead::CommandProgram(0x3000));
    assert!(rule.should_block(&context, &MemoryValue::Text("rm".to_string())).unwrap());
    assert!(!rule.should_block(&context, &MemoryValue::Text("ls".to_string())).unwrap());
}

#[test]
fn command_line_rule_checks_path_and_line() {
    let mut rule = Rule::OnEntry(ConditionOnParameters::CommandLineContains(TextEncoding::Wide, vec!["calc.exe".to_string()]));
    let context = entry(vec![0x10, 0x20]);
    assert_eq!(rule.memory_read(&context), MemoryRead::CommandLine(TextEncoding::Wide, 0x10, 0x20));
    let blocked = MemoryValue::TextPair(None, Some("cmd /c calc.exe".to_string()));
    assert!(rule.should_block(&context, &blocked).unwrap());
    let allowed = MemoryValue::TextPair(Some("C:\\notepad.exe".to_string()), None);
    assert!(!rule.should_block(&context, &allowed).unwrap());
}

#[test]
fn rust_process_rule_blocks_failures() {
    let mut rule = Rule::OnExit(ConditionOnReturnValue::RustProcessApiError("std::process::Child::try_wait".to_string()));
    let context = Context::LeaveContext(0x40);
    assert!(rule.is_evaluable(&context));
    assert_eq!(rule.memory_read(&context), MemoryRead::ProcessResult(ProcessResultKind::OptionalExitStatus, 0x40));
    assert!(rule.should_block(&context, &MemoryValue::Process(ProcessStatus::StillRunning)).unwrap());
    assert!(rule.should_block(&context, &MemoryValue::Process(ProcessStatus::Exited(false))).unwrap());
    assert!(!rule.should_block(&context, &MemoryValue::Process(ProcessStatus::Exited(true))).unwrap());

    let unknown = Rule::OnExit(ConditionOnReturnValue::RustProcessApiError("std::process::Command::spawn".to_string()));
    assert!(!unknown.is_evaluable(&context));
}

#[test]
fn wait_status_rule_reads_the_stored_pointer() {
    let mut rule = Rule::OnEntryAndExit(
        ConditionOnParametersWithStorage::StoreWaitStatusPointer("waitpid".to_string()),
        ConditionOnReturnValueWithStorage::WaitStatusError,
        None,
    );
    // Nothing stored yet
    match rule.should_block(&Context::LeaveContext(7), &MemoryValue::Nothing) {
        Err(RuleError::ExpectedStorageEmpty(m)) => assert_eq!(m, "Status pointer was not stored for evaluation of error"),
        other => panic!("unexpected {:?}", other),
    }
    assert!(!rule.should_block(&entry(vec![7, 0xbeef, 0]), &MemoryValue::Nothing).unwrap());
    let leave = Context::LeaveContext(7);
    assert_eq!(rule.memory_read(&leave), MemoryRead::WaitStatus(0xbeef));
    // exit code 1
    assert!(rule.should_block(&leave, &MemoryValue::WaitStatus(0x100)).unwrap());
    // exit code 0, killed by a signal
    assert!(!rule.should_block(&leave, &MemoryValue::WaitStatus(0x09)).unwrap());
    // -1: waiting failed, whatever was stored
    let failed = Context::LeaveContext(usize::MAX);
    assert!(rule.is_evaluable(&failed));
    assert_eq!(rule.memory_read(&failed), MemoryRead::Nothing);
    assert!(rule.should_block(&failed, &MemoryValue::Nothing).unwrap());
    assert!(!rule.is_evaluable(&Context::LeaveContext(usize::MAX - 1)));
}

#[test]
fn exit_code_rule_ignores_failed_calls() {
    let mut rule = Rule::OnEntryAndExit(
        ConditionOnParametersWithStorage::StoreParameter(1),
        ConditionOnReturnValueWithStorage::ExitCodeError,
        None,
    );
    assert!(!rule.should_block(&Context::LeaveContext(0), &MemoryValue::Nothing).unwrap());
    assert!(rule.should_block(&Context::LeaveContext(1), &MemoryValue::Nothing).is_err());
    assert!(!rule.should_block(&entry(vec![5, 0x500]), &MemoryValue::Nothing).unwrap());
    assert_eq!(rule.memory_read(&Context::LeaveContext(1)), MemoryRead::ExitCode(0x500));
    assert!(rule.should_block(&Context::LeaveContext(1), &MemoryValue::ExitCode(3)).unwrap());
    assert!(!rule.should_block(&Context::LeaveContext(1), &MemoryValue::ExitCode(0)).unwrap());
}

#[test]
fn infringement_message_names_policy_rule_and_context() {
    let policy = FunctionPolicy {
        name: "open".to_string(),
        lib: "libc.".to_string(),
        rule: Rule::OnEntry(ConditionOnParameters::Always),
        nb_parameters: 2,
        description: "Access to [open] denied".to_string(),
        is_rust_function: false,
    };
    assert_eq!(
        policy.policy_infringement_message(&entry(vec![1, 22, 333])),
        "Policy was broken at function [open].\nDescription: Access to [open] denied\nRule: Rule::OnEntry\nContext: Function entry with parameters: [1, 22, 333]"
    );
    assert_eq!(
        Context::LeaveContext(4096).describe(),
        "Function exit with return value as usize: 4096"
    );
    assert_eq!(entry(vec![]).describe(), "Function entry with parameters: []");
}

#[test]
fn function_policy_should_block_follows_its_rule() {
    let mut policy = FunctionPolicy {
        name: "open".to_string(),
        lib: "libc.".to_string(),
        rule: Rule::OnEntry(ConditionOnParameters::ParameterMasked { index: 1, mask: 3, value: 1 }),
        nb_parameters: 2,
        description: String::new(),
        is_rust_function: false,
    };
    assert!(policy.should_block(&entry(vec![0, 0o101]), &MemoryValue::Nothing));
    assert!(!policy.should_block(&entry(vec![0, 0o102]), &MemoryValue::Nothing));
    assert!(!policy.should_block(&Context::LeaveContext(3), &MemoryValue::Nothing));
}
