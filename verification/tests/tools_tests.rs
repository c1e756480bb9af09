use tauri_fuzz::cli::{
    folder_has_tauri_config, is_tauri_config_file, locate_tauri_dir, prettyprint_level,
    underscored_crate_name, verbosity_level, LogLevel, TauriDir, WalkedEntry,
};
use tauri_fuzz::fuzzer_options::{first_core, fuzzing_cores, push_path, SimpleFuzzerConfig};
use tauri_fuzz::random_bytes::FromRandomBytes;
use tauri_fuzz::regs::{function_argument_reg, get_sync_backdoor_arch_regs, Regs, SyncBackdoorArgs};
use tauri_fuzz::cli::fuzz::Options as FuzzOptions;
use tauri_fuzz::cli::init::{
    crate_name, output_path, render_file, template_data, CargoManifest, InitError, ManifestPackage,
};
use tauri_fuzz::cli::lookup_depth;
use tauri_fuzz::tauri_utils::{invoke_command_name, CommandArgs};
use tauri_fuzz::text::{contains, decimal_string, ends_with};

#[test]
fn parse_toml_configuration() {
    let parsed = SimpleFuzzerConfig {
        solutions_dir: String::new(),
        stdout: "/dev/stdout".to_string(),
        nb_of_cores: 1,
        corpus_input: vec![],
        with_coverage: true,
        broker_port: 8888,
    };
    let config = parsed.with_solutions_dir("", "foo");
    assert_eq!(
        config,
        SimpleFuzzerConfig {
            solutions_dir: "fuzz_solutions/foo".to_string(),
            stdout: "/dev/stdout".to_string(),
            nb_of_cores: 1,
            corpus_input: vec![],
            with_coverage: true,
            broker_port: 8888
        }
    );
}

#[test]
fn settings_follow_the_configuration() {
    let config = SimpleFuzzerConfig {
        solutions_dir: "/fuzz/fuzz_solutions/greet".to_string(),
        stdout: "/dev/null".to_string(),
        nb_of_cores: 12,
        corpus_input: vec!["corpus".to_string()],
        with_coverage: false,
        broker_port: 1337,
    };
    let s = config.into_settings();
    let ids: Vec<usize> = s.cores.ids.iter().map(|c| c.0).collect();
    assert_eq!(ids, (1..=12).collect::<Vec<usize>>());
    assert!(s.remote_broker_addr.is_none());
    assert!(!s.asan && !s.detect_leaks && !s.continue_on_error);
    assert!(s.disable_excludes && s.allocation_backtraces && s.max_allocation_panics && s.verbose);
    assert_eq!(s.cmplog_cores.ids.iter().map(|c| c.0).collect::<Vec<usize>>(), vec![1]);
    assert_eq!(s.asan_cores.ids.iter().map(|c| c.0).collect::<Vec<usize>>(), vec![1]);
    assert_eq!(s.max_allocation, 1073741824);
    assert_eq!(s.max_total_allocation, 4294967296);
    assert_eq!(s.configuration, "default configuration");
    assert_eq!(s.timeout_secs, 0);
    assert!(s.libs_to_instrument.is_empty() && s.dont_instrument.is_empty() && s.tokens.is_empty());
    assert!(s.replay.is_none() && s.repeat.is_none());
    assert_eq!(s.output, "/fuzz/fuzz_solutions/greet");
    assert!(s.disable_coverage);
    assert!(!s.cmplog && !s.drcov);
    assert_eq!(s.input, vec!["corpus".to_string()]);
    assert_eq!(s.broker_port, 1337);
}

#[test]
fn paths_are_pushed_like_pathbuf() {
    assert_eq!(push_path("/fuzz", "fuzz_solutions"), "/fuzz/fuzz_solutions");
    assert_eq!(push_path("/fuzz/", "x"), "/fuzz/x");
    assert_eq!(push_path("/fuzz", "/abs"), "/abs");
    for (base, part) in [("a/b", "c"), ("", "d"), ("e/", "f"), ("g", "/h")] {
        let mut p = std::path::PathBuf::from(base);
        p.push(part);
        assert_eq!(push_path(base, part), p.to_string_lossy());
    }
}

#[test]
fn verbosity_maps_to_levels() {
    assert_eq!(verbosity_level(0), LogLevel::Info);
    assert_eq!(verbosity_level(1), LogLevel::Debug);
    assert_eq!(verbosity_level(2), LogLevel::Trace);
    assert_eq!(verbosity_level(200), LogLevel::Trace);
    assert_eq!(prettyprint_level(LogLevel::Warn), "Warn");
    assert_eq!(prettyprint_level(LogLevel::Error), "Error");
}

#[test]
fn tauri_config_files_are_recognized() {
    assert!(is_tauri_config_file(Some("tauri.conf.json")));
    assert!(is_tauri_config_file(Some("Tauri.toml")));
    assert!(!is_tauri_config_file(Some("tauri.toml")));
    assert!(!is_tauri_config_file(None));
    assert!(folder_has_tauri_config(&vec!["src".to_string(), "tauri.conf.json5".to_string()]));
    assert!(!folder_has_tauri_config(&vec!["Cargo.toml".to_string()]));
}

#[test]
fn tauri_dir_search_order() {
    let walked = vec![
        WalkedEntry { is_dir: true, has_tauri_config: false, file_name: Some("src".to_string()) },
        WalkedEntry { is_dir: false, has_tauri_config: false, file_name: Some("Tauri.toml".to_string()) },
        WalkedEntry { is_dir: true, has_tauri_config: true, file_name: Some("app".to_string()) },
    ];
    assert_eq!(locate_tauri_dir(true, true, &walked), TauriDir::Current);
    assert_eq!(locate_tauri_dir(false, true, &walked), TauriDir::SrcTauri);
    assert_eq!(locate_tauri_dir(false, false, &walked), TauriDir::ParentOfWalked(1));
    assert_eq!(locate_tauri_dir(false, false, &walked[2..].to_vec()), TauriDir::Walked(0));
    assert_eq!(locate_tauri_dir(false, false, &vec![]), TauriDir::NotFound);
}

#[test]
fn crate_names_are_underscored() {
    assert_eq!(underscored_crate_name("tauri-app"), "tauri_app");
    assert_eq!(underscored_crate_name("a-b-c_d"), "a_b_c_d");
}

#[test]
fn integers_from_random_bytes() {
    assert_eq!(u8::from_random_bytes(&[0xab, 0xcd]).unwrap(), 0xab);
    assert_eq!(u16::from_random_bytes(&[0xab, 0xcd]).unwrap(), 0xabcd);
    assert_eq!(u32::from_random_bytes(&[0x01]).unwrap(), 0x0100_0000);
    assert_eq!(u64::from_random_bytes(&[]).unwrap(), 0);
    assert_eq!(u128::from_random_bytes(&[0xff; 20]).unwrap(), u128::MAX);
    assert_eq!(i8::from_random_bytes(&[0xff]).unwrap(), -1);
    assert_eq!(i16::from_random_bytes(&[0x80, 0x00]).unwrap(), i16::MIN);
    assert_eq!(i32::from_random_bytes(&[0x7f, 0xff, 0xff, 0xff]).unwrap(), i32::MAX);
    assert_eq!(i64::from_random_bytes(&[0xff; 8]).unwrap(), -1);
    assert_eq!(i128::from_random_bytes(&[0x80]).unwrap(), i128::MIN);
    let bytes = [1u8, 2, 3, 4, 5, 6, 7, 8, 9];
    assert_eq!(usize::from_random_bytes(&bytes).unwrap(), usize::from_be_bytes(bytes[..std::mem::size_of::<usize>()].try_into().unwrap()));
    assert_eq!(isize::from_random_bytes(&[0xff; 9]).unwrap(), -1);
}

#[test]
fn only_the_leading_bytes_are_read() {
    assert_eq!(u16::from_random_bytes(&[0x12, 0x34, 0x56]).unwrap(), u16::from_random_bytes(&[0x12, 0x34]).unwrap());
    assert_eq!(u32::from_random_bytes(&[0x12, 0x34]).unwrap(), u32::from_random_bytes(&[0x12, 0x34, 0, 0, 0x99]).unwrap());
    assert_eq!(i8::from_random_bytes(&[0x80, 0x01]).unwrap(), i8::from_random_bytes(&[0x80, 0xff]).unwrap());
}

#[test]
fn strings_from_random_bytes() {
    assert_eq!(String::from_random_bytes(b"hello").unwrap(), "hello");
    assert_eq!(String::from_random_bytes(&[b'a', 0xff, b'b']).unwrap(), "a\u{fffd}b");
    assert_eq!(<&str>::from_random_bytes(b"hi").unwrap(), "hi");
    assert!(<&str>::from_random_bytes(&[0xc3]).is_err());
}

#[test]
fn registers() {
    assert_eq!(get_sync_backdoor_arch_regs(SyncBackdoorArgs::Cmd), Regs::Rax);
    assert_eq!(get_sync_backdoor_arch_regs(SyncBackdoorArgs::Arg4), Regs::R10);
    assert_eq!(Regs::sp(), Regs::Rsp);
    assert_eq!(Regs::pc().number(), 16);
    for n in 0..18 {
        assert_eq!(Regs::from_number(n).unwrap().number(), n);
    }
    assert_eq!(Regs::from_number(18), None);
    assert_eq!(function_argument_reg(1), Ok(Regs::Rsi));
    assert_eq!(function_argument_reg(2), Err("Unsupported argument: 2".to_string()));
    assert_eq!(function_argument_reg(-7), Err("Unsupported argument: -7".to_string()));
    assert_eq!(function_argument_reg(i32::MIN), Err(format!("Unsupported argument: {}", i32::MIN)));
}

#[test]
fn invoke_commands_of_plugins() {
    assert_eq!(invoke_command_name(None, "greet"), "greet");
    assert_eq!(invoke_command_name(Some("fs".to_string()), "read_file"), "plugin:fs|read_file");
}

#[test]
fn text_helpers() {
    assert_eq!(decimal_string(0), "0");
    assert_eq!(decimal_string(1234567890), "1234567890");
    assert!(ends_with("libc.so.6", "so.6"));
    assert!(!ends_with("a", "ba"));
    assert!(contains("cmd /c calc.exe", "calc"));
    assert!(contains("abc", ""));
    assert!(!contains("abc", "abcd"));
}

#[test]
fn command_args_keep_one_value_per_name() {
    let mut args = CommandArgs::new();
    assert_eq!(args.get("path"), None);
    assert_eq!(args.insert("path".to_string(), serde_json::Value::from("/tmp/foo")), None);
    assert_eq!(args.insert("count".to_string(), serde_json::Value::from(3)), None);
    assert_eq!(
        args.insert("path".to_string(), serde_json::Value::from("/tmp/bar")),
        Some(serde_json::Value::from("/tmp/foo"))
    );
    assert_eq!(args.get("path"), Some(&serde_json::Value::from("/tmp/bar")));
    assert_eq!(args.get("count"), Some(&serde_json::Value::from(3)));
    assert_eq!(args.get("other"), None);
}

#[test]
fn fuzz_runs_the_target_binary() {
    let options = FuzzOptions { directory: None, fuzz_target: "read_foo".to_string() };
    assert_eq!(options.cargo_arguments(), vec!["run".to_string(), "--bin".to_string(), "read_foo".to_string()]);
}

#[test]
fn crate_name_comes_from_the_options_then_the_manifest() {
    let manifest = |name: Option<&str>| {
        Some(CargoManifest { package: Some(ManifestPackage { name: name.map(|n| n.to_string()) }) })
    };
    assert_eq!(crate_name(Some("given".to_string()), manifest(Some("pkg"))).unwrap(), "given");
    assert_eq!(crate_name(Some("given".to_string()), None).unwrap(), "given");
    assert_eq!(crate_name(None, manifest(Some("my-app"))).unwrap(), "my-app");
    assert!(matches!(crate_name(None, manifest(None)), Err(InitError::NoPackageName)));
    assert!(matches!(crate_name(None, Some(CargoManifest { package: None })), Err(InitError::NoPackageName)));
    assert!(matches!(crate_name(None, None), Err(InitError::NoPackageName)));
}

#[test]
fn templates_are_rendered_with_the_crate_name() {
    let data = template_data("my-app");
    assert_eq!(
        data,
        vec![
            ("crate_name_underscored".to_string(), "my_app".to_string()),
            ("crate_name".to_string(), "my-app".to_string()),
        ]
    );
    let (path, text) = render_file("fuzz_targets/_template_.rs", "path: {{crate_name_underscored}}::greet, <{{crate_name}}>", &data).unwrap();
    assert_eq!(path, "fuzz_targets/_template_.rs");
    assert_eq!(text, "path: my_app::greet, <my-app>");
    let (path, _) = render_file("Cargo.crate-manifest", "name = \"{{crate_name}}-fuzz\"", &data).unwrap();
    assert_eq!(path, "Cargo.toml");
    assert!(matches!(render_file("a.rs", "{{#if}}", &data), Err(InitError::Template(_))));
}

#[test]
fn manifest_templates_are_written_as_toml() {
    assert_eq!(output_path("Cargo.crate-manifest"), "Cargo.toml");
    assert_eq!(output_path("sub/Cargo.crate-manifest"), "sub/Cargo.toml");
    assert_eq!(output_path(".crate-manifest"), ".crate-manifest");
    assert_eq!(output_path("sub/.crate-manifest"), "sub/.crate-manifest");
    assert_eq!(output_path("fuzz_targets/_template_.rs"), "fuzz_targets/_template_.rs");
}

#[test]
fn lookup_depth_is_read_like_a_usize() {
    assert_eq!(lookup_depth(None), Ok(3));
    assert_eq!(lookup_depth(Some("5")), Ok(5));
    assert_eq!(lookup_depth(Some("+7")), Ok(7));
    assert_eq!(lookup_depth(Some("007")), Ok(7));
    assert!(lookup_depth(Some("")).is_err());
    assert!(lookup_depth(Some("+")).is_err());
    assert!(lookup_depth(Some("-1")).is_err());
    assert!(lookup_depth(Some("3a")).is_err());
    assert!(lookup_depth(Some("99999999999999999999999")).is_err());
    assert_eq!(lookup_depth(Some(&usize::MAX.to_string())), Ok(usize::MAX));
    for text in ["12", "+0", " 1", "1_000", "18446744073709551616"] {
        assert_eq!(lookup_depth(Some(text)).ok(), text.parse::<usize>().ok());
    }
}

#[test]
fn fuzzing_cores_are_the_first_ones() {
    let ids: Vec<usize> = fuzzing_cores(4).unwrap().ids.iter().map(|c| c.0).collect();
    assert_eq!(ids, vec![1, 2, 3, 4]);
    assert!(fuzzing_cores(0).is_err());
    let one: Vec<usize> = first_core().ids.iter().map(|c| c.0).collect();
    assert_eq!(one, vec![1]);
}
