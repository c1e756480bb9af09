use tauri_fuzz::engine::{
    ConditionOnParameters, ConditionOnParametersWithStorage, ConditionOnReturnValue,
    ConditionOnReturnValueWithStorage, Context, MemoryRead, MemoryValue, ProcessStatus, Rule, TextEncoding,
};
use tauri_fuzz::policies::{execv, external_process, filesystem, no_policy, policy_template, LIBC};

#[test]
fn no_policy_is_empty() {
    assert!(no_policy().is_empty());
}

#[test]
fn execv_policy_blocks_execve() {
    let policy = execv::block_execv_on_error();
    assert_eq!(policy.len(), 1);
    assert_eq!(policy[0].name, "execve");
    assert_eq!(policy[0].lib, LIBC);
    assert_eq!(policy[0].description, "Access to [execve] is blocked");
    assert_eq!(policy[0].nb_parameters, 2);
    let mut rule = policy[0].rule.clone();
    assert!(rule.should_block(&Context::EntryContext(vec![0, 0]), &MemoryValue::Nothing).unwrap());
}

#[test]
fn no_file_access_monitors_open_functions() {
    let policy = filesystem::no_file_access();
    let names: Vec<&str> = policy.iter().map(|p| p.name.as_str()).collect();
    assert_eq!(names, vec!["fopen", "open", "open64"]);
    assert_eq!(policy[1].description, "Access to [open] denied");
    assert!(policy.iter().all(|p| p.lib == "libc." && p.nb_parameters == 2 && !p.is_rust_function));
}

#[test]
fn read_only_access_blocks_other_access_modes() {
    let policy = filesystem::read_only_access();
    assert_eq!(policy[0].description, "Access to [fopen] is only allowed with read-only access");
    let mut rule = policy[1].rule.clone();
    // O_RDONLY
    assert!(!rule.should_block(&Context::EntryContext(vec![0, 0]), &MemoryValue::Nothing).unwrap());
    // O_RDONLY | O_CLOEXEC
    assert!(!rule.should_block(&Context::EntryContext(vec![0, 0o2000000]), &MemoryValue::Nothing).unwrap());
    // O_WRONLY | O_CREAT
    assert!(rule.should_block(&Context::EntryContext(vec![0, 0o101]), &MemoryValue::Nothing).unwrap());
    // O_RDWR
    assert!(rule.should_block(&Context::EntryContext(vec![0, 0o2]), &MemoryValue::Nothing).unwrap());
}

#[test]
fn write_only_access_blocks_other_access_modes() {
    let policy = filesystem::write_only_access();
    assert_eq!(policy[2].description, "Access to [open64] is only allowed with write-only access");
    let mut rule = policy[2].rule.clone();
    assert!(!rule.should_block(&Context::EntryContext(vec![0, 0o1]), &MemoryValue::Nothing).unwrap());
    assert!(rule.should_block(&Context::EntryContext(vec![0, 0o2]), &MemoryValue::Nothing).unwrap());
    assert!(rule.should_block(&Context::EntryContext(vec![0, 0]), &MemoryValue::Nothing).unwrap());
}

#[test]
fn no_access_to_filenames_blocks_the_named_files() {
    let policy = filesystem::no_access_to_filenames(vec!["secret.txt".to_string(), "id_rsa".to_string()]);
    assert_eq!(policy.len(), 3);
    assert_eq!(policy[0].description, "Access to following files is denied: [\"secret.txt\", \"id_rsa\"]");
    let mut rule = policy[0].rule.clone();
    let context = Context::EntryContext(vec![0x10, 0]);
    assert!(rule.should_block(&context, &MemoryValue::Text("/root/.ssh/id_rsa".to_string())).unwrap());
    assert!(!rule.should_block(&context, &MemoryValue::Text("/root/.ssh/id_rsa.pub".to_string())).unwrap());
}

#[test]
fn windows_file_policies() {
    let policy = filesystem::windows::no_file_access();
    assert_eq!(policy[0].name, "NtCreateFile");
    assert_eq!(policy[0].lib, "ntdll.dll");
    assert_eq!(policy[0].description, "Access to [ntdll.dll::NtCreateFile] denied");
    assert_eq!(policy[0].nb_parameters, 11);

    let mut read_only = filesystem::windows::read_only_access()[0].rule.clone();
    assert!(!read_only.should_block(&Context::EntryContext(vec![0, 0x8012_0089]), &MemoryValue::Nothing).unwrap());
    assert!(read_only.should_block(&Context::EntryContext(vec![0, 0x4011_0080]), &MemoryValue::Nothing).unwrap());

    assert_eq!(
        filesystem::windows::write_only_access()[0].description,
        "Access to [ntdll.dll::NtCreateFile] restricted to write-only"
    );
    let mut write_only = filesystem::windows::write_only_access()[0].rule.clone();
    assert!(!write_only.should_block(&Context::EntryContext(vec![0, 0x4011_0080]), &MemoryValue::Nothing).unwrap());
    assert!(write_only.should_block(&Context::EntryContext(vec![0, 0x8012_0089]), &MemoryValue::Nothing).unwrap());

    let names = filesystem::windows::no_access_to_filenames(vec!["a.txt".to_string()]);
    assert_eq!(names[0].description, "Access to files [\"a.txt\"] denied");
    match &names[0].rule {
        Rule::OnEntry(ConditionOnParameters::ObjectNameEndsWith(files)) => assert_eq!(files, &vec!["a.txt".to_string()]),
        _ => panic!("unexpected rule"),
    }
}

#[test]
fn policy_template_monitors_open_and_open64() {
    let policy = policy_template::no_file_access();
    assert_eq!(policy.len(), 2);
    assert_eq!(policy[0].name, "open");
    assert_eq!(policy[0].description, "Access to [fopen] denied");
    assert_eq!(policy[1].name, "open64");
}

#[test]
fn block_on_entry_monitors_rust_command_api() {
    let policy = external_process::block_on_entry(vec!["/bin/ls".to_string()], "/tmp/fuzzer".to_string());
    let names: Vec<&str> = policy.iter().map(|p| p.name.as_str()).collect();
    assert_eq!(names, vec!["std::process::Command::output", "std::process::Command::status", "std::process::Command::spawn"]);
    assert_eq!(policy[0].lib, "/tmp/fuzzer");
    assert!(policy[0].is_rust_function);
    assert_eq!(policy[0].description, "Invocation to external binaries is blocked: [\"/bin/ls\"]]");
    let mut rule = policy[2].rule.clone();
    let context = Context::EntryContext(vec![0, 0x99]);
    assert!(rule.should_block(&context, &MemoryValue::Text("ls".to_string())).unwrap());
    assert!(!rule.should_block(&context, &MemoryValue::Text("cat".to_string())).unwrap());
}

#[test]
fn rust_api_error_status_monitors_five_functions() {
    let policy = external_process::block_on_rust_api_error_status("/tmp/fuzzer".to_string());
    assert_eq!(policy.len(), 5);
    assert_eq!(policy[3].name, "std::process::Child::try_wait");
    assert_eq!(policy[3].description, "External binary std::process::Child::try_wait returned with error status");
    match &policy[4].rule {
        Rule::OnExit(ConditionOnReturnValue::RustProcessApiError(n)) => assert_eq!(n, "std::process::Child::wait_with_output"),
        _ => panic!("unexpected rule"),
    }
}

#[test]
fn child_process_error_status_monitors_wait_functions() {
    let policy = external_process::block_on_child_process_error_status();
    let names: Vec<&str> = policy.iter().map(|p| p.name.as_str()).collect();
    assert_eq!(names, vec!["wait", "waitid", "waitpid"]);
    assert_eq!(policy[0].nb_parameters, 3);
    let mut wait = policy[0].rule.clone();
    assert!(!wait.should_block(&Context::EntryContext(vec![0x700, 0, 0]), &MemoryValue::Nothing).unwrap());
    // exit code 2
    assert!(wait.should_block(&Context::LeaveContext(42), &MemoryValue::WaitStatus(0x200)).unwrap());
    assert!(!wait.should_block(&Context::LeaveContext(42), &MemoryValue::WaitStatus(0)).unwrap());
    // waiting failed
    assert!(wait.should_block(&Context::LeaveContext(usize::MAX), &MemoryValue::Nothing).unwrap());

    let mut waitid = policy[1].rule.clone();
    let entry = Context::EntryContext(vec![1, 4242, 0x7000]);
    assert!(waitid.is_evaluable(&entry));
    assert!(!waitid.should_block(&entry, &MemoryValue::Nothing).unwrap());
    let leave = Context::LeaveContext(0);
    assert_eq!(waitid.memory_read(&leave), MemoryRead::ChildInfo(0x7000));
    // exited with code 3
    assert!(waitid.should_block(&leave, &MemoryValue::ChildInfo(1, 3)).unwrap());
    assert!(!waitid.should_block(&leave, &MemoryValue::ChildInfo(1, 0)).unwrap());
    // killed by signal 9
    assert!(!waitid.should_block(&leave, &MemoryValue::ChildInfo(2, 9)).unwrap());
    assert!(waitid.should_block(&Context::LeaveContext(usize::MAX), &MemoryValue::Nothing).unwrap());
}

#[test]
fn windows_process_policies() {
    let policy = external_process::windows::block_on_child_process_error_status();
    assert_eq!(policy[0].name, "GetExitCodeProcess");
    assert_eq!(policy[0].lib, "KERNEL32.DLL");
    assert_eq!(policy[0].description, "[`GetExitCodeProcess`] exit code from child process is non-0 ");
    match &policy[0].rule {
        Rule::OnEntryAndExit(ConditionOnParametersWithStorage::StoreParameter(1), ConditionOnReturnValueWithStorage::ExitCodeError, None) => {}
        _ => panic!("unexpected rule"),
    }

    let creation = external_process::windows::block_on_entry(vec!["calc.exe".to_string()]);
    assert_eq!(creation.len(), 2);
    assert_eq!(creation[1].name, "CreateProcessW");
    assert_eq!(creation[1].nb_parameters, 10);
    assert_eq!(creation[0].description, "[`CreateProcessA`] These executables are not allowed: [\"calc.exe\"]");
    match &creation[1].rule {
        Rule::OnEntry(ConditionOnParameters::CommandLineContains(TextEncoding::Wide, _)) => {}
        _ => panic!("unexpected rule"),
    }
}

#[test]
fn rust_api_error_status_blocks_failed_children_only() {
    let policy = external_process::block_on_rust_api_error_status("/tmp/fuzzer".to_string());
    let entry = Context::EntryContext(vec![0x10, 0x20]);
    let leave = Context::LeaveContext(0x7ff0);
    for p in &policy {
        let mut rule = p.rule.clone();
        assert!(!rule.should_block(&entry, &MemoryValue::Nothing).unwrap());
        assert!(rule.should_block(&leave, &MemoryValue::Process(ProcessStatus::Exited(false))).unwrap());
        assert!(!rule.should_block(&leave, &MemoryValue::Process(ProcessStatus::Exited(true))).unwrap());
    }
    let mut try_wait = policy[3].rule.clone();
    assert!(try_wait.should_block(&leave, &MemoryValue::Process(ProcessStatus::StillRunning)).unwrap());
    let mut wait = policy[2].rule.clone();
    assert!(wait.should_block(&leave, &MemoryValue::Process(ProcessStatus::StillRunning)).is_err());
}

#[test]
fn read_only_and_write_only_never_both_allow_a_call() {
    let mut read_only = filesystem::read_only_access()[0].rule.clone();
    let mut write_only = filesystem::write_only_access()[0].rule.clone();
    for flags in [0usize, 0o1, 0o2, 0o3, 0o101, 0o1002, 0o2000000] {
        let context = Context::EntryContext(vec![0, flags]);
        let read_allowed = !read_only.should_block(&context, &MemoryValue::Nothing).unwrap();
        let write_allowed = !write_only.should_block(&context, &MemoryValue::Nothing).unwrap();
        assert!(!(read_allowed && write_allowed));
    }
}
