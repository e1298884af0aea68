use llbot_cli::launch::{
    find_pmhq_exe, get_exe_name, headless_from_config, launch_mode, platform_arch_token,
    pmhq_candidates, qq_path_arg, should_show_terminal_qrcode, worker_args, worker_precheck,
    LaunchMode,
};
use llbot_cli::supervisor::WorkerSlot;

fn args(list: &[&str]) -> Vec<String> {
    list.iter().map(|s| s.to_string()).collect()
}

#[test]
fn mode_precedence_is_help_version_update() {
    assert_eq!(launch_mode(&args(&["--help"])), LaunchMode::Help);
    assert_eq!(launch_mode(&args(&["-h", "--version"])), LaunchMode::Help);
    assert_eq!(launch_mode(&args(&["--version", "--update"])), LaunchMode::Version);
    assert_eq!(launch_mode(&args(&["-v"])), LaunchMode::Version);
    assert_eq!(launch_mode(&args(&["--update"])), LaunchMode::Update);
    assert_eq!(launch_mode(&args(&["--port=9"])), LaunchMode::Run);
    assert_eq!(launch_mode(&args(&[])), LaunchMode::Run);
}

#[test]
fn exe_names_per_platform() {
    assert_eq!(get_exe_name("pmhq", true), "pmhq.exe");
    assert_eq!(get_exe_name("pmhq", false), "pmhq");
    assert_eq!(get_exe_name("node", true), "node.exe");
}

#[test]
fn platform_tokens_for_worker_builds() {
    assert_eq!(platform_arch_token("windows", "x86_64"), "win-x64");
    assert_eq!(platform_arch_token("windows", "aarch64"), "win-x64");
    assert_eq!(platform_arch_token("linux", "x86_64"), "linux-x64");
    assert_eq!(platform_arch_token("linux", "aarch64"), "linux-arm64");
    assert_eq!(platform_arch_token("linux", "riscv64"), "");
    assert_eq!(platform_arch_token("macos", "aarch64"), "macos-arm64");
    assert_eq!(platform_arch_token("macos", "x86_64"), "macos-x64");
    assert_eq!(platform_arch_token("freebsd", "x86_64"), "");
}

#[test]
fn worker_candidates_most_specific_first() {
    assert_eq!(pmhq_candidates("windows", "x86_64"), vec!["pmhq-win-x64.exe", "pmhq.exe"]);
    assert_eq!(pmhq_candidates("linux", "aarch64"), vec!["pmhq-linux-arm64", "pmhq"]);
    assert_eq!(pmhq_candidates("freebsd", "x86_64"), vec!["pmhq"]);
}

#[test]
fn first_existing_candidate_wins() {
    let names = args(&["pmhq-linux-x64", "pmhq"]);
    assert_eq!(find_pmhq_exe(&names, &vec![false, true]), Some(1));
    assert_eq!(find_pmhq_exe(&names, &vec![true, true]), Some(0));
    assert_eq!(find_pmhq_exe(&names, &vec![false, false]), None);
}

#[test]
fn missing_worker_fails_before_any_port_search() {
    // the precheck decides from the executable's presence alone; no port
    // is involved, and the message names the searched directory
    let r = worker_precheck(None, "bin/pmhq");
    let msg = r.unwrap_err();
    assert!(msg.contains("bin/pmhq"));
}

#[test]
fn present_worker_passes_the_precheck() {
    let r = worker_precheck(Some("bin/pmhq/pmhq".to_string()), "bin/pmhq");
    assert_eq!(r.unwrap(), "bin/pmhq/pmhq");
}

#[test]
fn terminal_qr_decision() {
    assert!(should_show_terminal_qrcode(false, &args(&[]), None));
    assert!(should_show_terminal_qrcode(true, &args(&["--headless"]), None));
    assert!(should_show_terminal_qrcode(true, &args(&[]), Some(true)));
    assert!(!should_show_terminal_qrcode(true, &args(&[]), Some(false)));
    assert!(!should_show_terminal_qrcode(true, &args(&[]), None));
}

#[test]
fn headless_flag_read_from_configuration() {
    assert_eq!(headless_from_config("{\"headless\":true}"), Some(true));
    assert_eq!(headless_from_config("{\"headless\":false}"), Some(false));
    assert_eq!(headless_from_config("{\"other\":1}"), None);
    assert_eq!(headless_from_config("not json"), None);
}

#[test]
fn path_flag_is_extracted_and_stripped() {
    assert_eq!(qq_path_arg(&args(&["--port=9", "--qq-path=C:\\QQ"])), Some("C:\\QQ".to_string()));
    assert_eq!(qq_path_arg(&args(&["--port=9"])), None);
    // repeated prefixes are all stripped, as trim_start_matches strips them
    assert_eq!(qq_path_arg(&args(&["--qq-path=--qq-path=x"])), Some("x".to_string()));
}

#[test]
fn worker_argument_vector() {
    let user = args(&["--headless", "--x"]);
    let v = worker_args(13000, &user, "bin/llbot", "bin/llbot/node");
    assert_eq!(
        v,
        vec![
            "--port",
            "13000",
            "--headless",
            "--x",
            "--sub-cmd-workdir",
            "bin/llbot",
            "--sub-cmd",
            "bin/llbot/node",
            "--enable-source-maps",
            "llbot.js",
            "--",
            "--pmhq-port=13000",
        ]
    );
}

#[test]
fn terminate_is_idempotent_success() {
    // a consumed or never-armed slot terminates with success, twice over
    let mut slot = WorkerSlot::empty();
    assert!(slot.terminate());
    assert!(slot.terminate());
}
