use llbot_cli::update::{
    check_running_processes, check_update, get_local_version, get_platform_info, is_yes,
    local_version_of, pick_update_executable, running_from_tasklist, target_dir_for,
    update_helper_script, update_row, updates_to_apply, version_file_rel_path, ComponentPackages,
    UpdateInfo,
};

#[test]
fn platform_tokens_for_known_platforms() {
    assert_eq!(get_platform_info("windows", "x86_64"), ("win".to_string(), "x64".to_string()));
    assert_eq!(get_platform_info("linux", "aarch64"), ("linux".to_string(), "arm64".to_string()));
    assert_eq!(get_platform_info("macos", "x86_64"), ("darwin".to_string(), "x64".to_string()));
}

#[test]
fn platform_tokens_pass_unknown_through() {
    assert_eq!(get_platform_info("freebsd", "riscv64"), ("freebsd".to_string(), "riscv64".to_string()));
}

#[test]
fn component_packages_for_platform() {
    let p = ComponentPackages::for_current_platform("linux", "x86_64");
    assert_eq!(p.cli_package, "llbot-cli-linux-x64");
    assert_eq!(p.pmhq_package, "pmhq-dist-linux-x64");
    assert_eq!(p.llbot_package, "llonebot-dist");
}

#[test]
fn update_check_not_installed_against_resolved() {
    // a fresh installation against a resolved 2.0.0, with a mirror that
    // confirmed hosting the artifact
    let info = check_update(
        "LLBot",
        "llonebot-dist",
        "not installed",
        Some("2.0.0"),
        "https://registry.npmmirror.com",
    );
    assert!(info.has_update);
    assert_eq!(info.latest_version, "2.0.0");
    assert_eq!(
        info.tarball_url,
        Some("https://registry.npmmirror.com/llonebot-dist/-/llonebot-dist-2.0.0.tgz".to_string())
    );
}

#[test]
fn update_check_resolution_failure_is_nonfatal() {
    let info = check_update("PMHQ", "pmhq-dist-win-x64", "1.0.0", None, "https://r");
    assert_eq!(info.latest_version, "unknown");
    assert!(!info.has_update);
    assert_eq!(info.tarball_url, None);
}

#[test]
fn update_check_equal_versions_yield_no_update() {
    let info = check_update("PMHQ", "pmhq-dist-win-x64", "1.4.0", Some("1.4.0"), "https://r");
    assert!(!info.has_update);
    assert_eq!(info.tarball_url, None);
    assert_eq!(info.latest_version, "1.4.0");
}

#[test]
fn version_file_paths_per_component() {
    assert_eq!(version_file_rel_path("pmhq"), Some("bin/pmhq/package.json"));
    assert_eq!(version_file_rel_path("llbot"), Some("bin/llbot/package.json"));
    assert_eq!(version_file_rel_path("node"), Some("bin/llbot/package.json"));
    assert_eq!(version_file_rel_path("other"), None);
}

#[test]
fn local_version_sentinels() {
    assert_eq!(get_local_version("other", None), "unknown");
    assert_eq!(get_local_version("pmhq", None), "not installed");
    assert_eq!(get_local_version("llbot", Some("not json at all")), "not installed");
    assert_eq!(get_local_version("llbot", Some("{\"name\":\"x\"}")), "not installed");
}

#[test]
fn local_version_read_from_version_field() {
    assert_eq!(get_local_version("pmhq", Some("{\"version\":\"1.2.3\"}")), "1.2.3");
    assert_eq!(local_version_of(Some("1.2.3")), "1.2.3");
    assert_eq!(local_version_of(None), "not installed");
}

#[test]
fn update_row_is_padded() {
    let info = UpdateInfo {
        name: "PMHQ".to_string(),
        current_version: "1.0.0".to_string(),
        latest_version: "1.1.0".to_string(),
        has_update: true,
        tarball_url: Some("u".to_string()),
    };
    assert_eq!(update_row(&info), "PMHQ          1.0.0           1.1.0           update available");
    let same = UpdateInfo {
        name: "LLBot".to_string(),
        current_version: "2.0.0".to_string(),
        latest_version: "2.0.0".to_string(),
        has_update: false,
        tarball_url: None,
    };
    assert_eq!(update_row(&same), "LLBot         2.0.0           2.0.0           up to date");
}

#[test]
fn yes_answers() {
    assert!(is_yes("y"));
    assert!(is_yes("YES"));
    assert!(is_yes("  Yes \n"));
    assert!(!is_yes("no"));
    assert!(!is_yes(""));
    assert!(!is_yes("yess"));
}

fn mk(name: &str, has_update: bool, url: Option<&str>) -> UpdateInfo {
    UpdateInfo {
        name: name.to_string(),
        current_version: "1".to_string(),
        latest_version: "2".to_string(),
        has_update,
        tarball_url: url.map(|u| u.to_string()),
    }
}

#[test]
fn updates_to_apply_picks_confirmed_updates() {
    let infos = vec![
        mk("a", true, Some("u1")),
        mk("b", false, None),
        mk("c", true, None),
        mk("d", true, Some("u2")),
    ];
    assert_eq!(updates_to_apply(&infos), vec![0, 3]);
    assert_eq!(updates_to_apply(&vec![]), Vec::<usize>::new());
}

#[test]
fn target_directories_per_component() {
    assert_eq!(target_dir_for("PMHQ"), Some("bin/pmhq"));
    assert_eq!(target_dir_for("LLBot"), Some("bin/llbot"));
    assert_eq!(target_dir_for("LLBot CLI"), None);
}

#[test]
fn update_executable_is_picked_by_name() {
    let names = vec!["readme.md".to_string(), "llbot-new".to_string(), "llbot".to_string()];
    assert_eq!(pick_update_executable(&names, "llbot"), Some(1));
    let none = vec!["readme.md".to_string(), "data.bin".to_string()];
    assert_eq!(pick_update_executable(&none, "llbot"), None);
}

#[test]
fn no_processes_without_a_task_list() {
    assert!(check_running_processes().is_empty());
}

#[test]
fn tasklist_rows_are_filtered_and_parsed() {
    let output = "\"QQ.exe\",\"1234\",\"Console\"\r\n\"other.exe\",\"9\"\r\n\"pmhq.exe\",\"77\"\n";
    let rows = running_from_tasklist(output);
    assert_eq!(rows.len(), 2);
    assert_eq!(rows[0], ("QQ.exe".to_string(), 1234));
    assert_eq!(rows[1], ("pmhq.exe".to_string(), 77));
}

#[test]
fn tasklist_matching_ignores_ascii_case() {
    let rows = running_from_tasklist("\"qq.EXE\",\"5\"");
    assert_eq!(rows, vec![("qq.EXE".to_string(), 5)]);
}

#[test]
fn tasklist_rows_without_numeric_pid_are_dropped() {
    assert!(running_from_tasklist("\"QQ.exe\",\"abc\"").is_empty());
    assert!(running_from_tasklist("no commas here").is_empty());
    assert!(running_from_tasklist("").is_empty());
}

#[test]
fn helper_script_carries_the_swap_plan() {
    let script = update_helper_script(4242, "C:\\a\\llbot.exe.bak", "C:\\a\\llbot.exe", "C:\\t\\llbot-new.exe", "C:\\a\\_cli_update_temp");
    assert!(script.starts_with("@echo off\r\n"));
    assert!(script.contains("PID eq 4242"));
    assert!(script.contains("find /I \"4242\""));
    assert!(script.contains("move /y \"C:\\a\\llbot.exe\" \"C:\\a\\llbot.exe.bak\""));
    assert!(script.contains("copy /y \"C:\\t\\llbot-new.exe\" \"C:\\a\\llbot.exe\""));
    assert!(script.contains("move /y \"C:\\a\\llbot.exe.bak\" \"C:\\a\\llbot.exe\""));
    assert!(script.contains("rmdir /s /q \"C:\\a\\_cli_update_temp\""));
    assert!(script.ends_with("exit\r\n"));
}
