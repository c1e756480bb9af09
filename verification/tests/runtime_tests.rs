use tauri_fuzz::engine::{ConditionOnParameters, Context, FunctionPolicy, MemoryValue, Rule};
use tauri_fuzz::listener::{
    find_module, found_listeners, has_module, is_syscall_instruction, matching_symbols, resolve_function_name, FunctionListener, InterceptionSwitch,
    ListenerVerdict, SymbolLookup,
};

fn policy(name: &str, rust: bool, rule: Rule) -> FunctionPolicy {
    FunctionPolicy {
        name: name.to_string(),
        lib: "libc.".to_string(),
        rule,
        nb_parameters: 2,
        description: "Access to [open] denied".to_string(),
        is_rust_function: rust,
    }
}

#[test]
fn switch_turns_on_and_off() {
    let mut s = InterceptionSwitch::new();
    assert!(!s.is_active());
    s.activate();
    assert!(s.is_active());
    s.deactivate();
    assert!(!s.is_active());
}

#[test]
fn listener_only_checks_while_monitoring() {
    let mut l = FunctionListener::new(policy("open", false, Rule::OnEntry(ConditionOnParameters::Always)));
    assert_eq!(l.function_name, "open");
    let context = Context::EntryContext(vec![1, 2]);
    assert!(matches!(l.on_call(false, &context, &MemoryValue::Nothing), ListenerVerdict::Proceed));
    match l.on_call(true, &context, &MemoryValue::Nothing) {
        ListenerVerdict::Intercept(m) => assert_eq!(
            m,
            "Intercepting call to [open].\nPolicy was broken at function [open].\nDescription: Access to [open] denied\nRule: Rule::OnEntry\nContext: Function entry with parameters: [1, 2]"
        ),
        other => panic!("unexpected {:?}", other),
    }
    assert!(matches!(l.on_call(true, &Context::LeaveContext(0), &MemoryValue::Nothing), ListenerVerdict::Proceed));
}

#[test]
fn listener_reports_failed_evaluations() {
    let rule = Rule::OnEntry(ConditionOnParameters::ParameterMasked { index: 5, mask: 1, value: 1 });
    let mut l = FunctionListener::new(policy("open", false, rule));
    assert!(matches!(
        l.on_call(true, &Context::EntryContext(vec![1]), &MemoryValue::Nothing),
        ListenerVerdict::EvaluationFailed(_)
    ));
}

#[test]
fn module_search_takes_the_first_match() {
    let modules = vec!["/usr/lib/ld.so".to_string(), "/usr/lib/libc.so.6".to_string(), "/opt/libc.so".to_string()];
    assert!(has_module(&modules, "libc."));
    assert_eq!(find_module(&modules, "libc."), 1);
    assert!(!has_module(&modules, "kernel32"));
}

#[test]
fn c_functions_are_found_under_their_name() {
    let p = policy("open", false, Rule::OnEntry(ConditionOnParameters::Always));
    match resolve_function_name(&p, &vec![]) {
        SymbolLookup::Found(n) => assert_eq!(n, "open"),
        other => panic!("unexpected {:?}", other),
    }
}

#[test]
fn rust_functions_are_found_among_mangled_symbols() {
    let p = policy("std::process::Command::output", true, Rule::OnEntry(ConditionOnParameters::Always));
    let symbols = vec![
        "_ZN3std7process7Command6output17h1234E".to_string(),
        "_ZN3std7process7Command6output17h1234E$got".to_string(),
        "_ZN3std7process7Command6status17h5678E".to_string(),
    ];
    match resolve_function_name(&p, &symbols) {
        SymbolLookup::Found(n) => assert_eq!(n, "_ZN3std7process7Command6output17h1234E"),
        other => panic!("unexpected {:?}", other),
    }
    assert!(matches!(resolve_function_name(&p, &vec!["main".to_string()]), SymbolLookup::NotLoaded));
    assert_eq!(matching_symbols(&p.name, &symbols), vec![symbols[0].clone()]);
    let twice = vec![symbols[0].clone(), "_ZN3std7process7Command6output17hffffE".to_string()];
    assert_eq!(matching_symbols(&p.name, &twice), twice);
}

#[test]
fn syscall_mnemonic() {
    assert!(is_syscall_instruction("syscall"));
    assert!(!is_syscall_instruction("sysenter"));
}

#[test]
fn only_found_functions_get_a_listener() {
    let policies = vec![
        policy("open", false, Rule::OnEntry(ConditionOnParameters::Always)),
        policy("fopen", false, Rule::OnEntry(ConditionOnParameters::Never)),
        policy("open64", false, Rule::OnEntry(ConditionOnParameters::Always)),
    ];
    let listeners = found_listeners(policies, &vec![true, false, true]);
    let names: Vec<&str> = listeners.iter().map(|l| l.function_name.as_str()).collect();
    assert_eq!(names, vec!["open", "open64"]);
    assert_eq!(listeners[1].policy.name, "open64");
    assert!(found_listeners(vec![], &vec![]).is_empty());
}
