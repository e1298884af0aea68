use llbot_cli::registry::{
    best_registry, first_success, get_tarball_url, latest_url, official_registry,
    registry_mirrors, status_is_ok, version_from_reply, version_url,
};

#[test]
fn official_registry_endpoint() {
    assert_eq!(official_registry(), "https://registry.npmjs.org");
}

#[test]
fn mirror_endpoints_in_order() {
    let mirrors = registry_mirrors();
    assert_eq!(mirrors.len(), 3);
    assert_eq!(mirrors[0], "https://registry.npmmirror.com");
    assert_eq!(mirrors[1], "https://mirrors.huaweicloud.com/repository/npm");
    assert_eq!(mirrors[2], "https://mirrors.cloud.tencent.com/npm");
}

#[test]
fn latest_url_escapes_scoped_names() {
    assert_eq!(
        latest_url("https://registry.npmjs.org", "@scope/pkg"),
        "https://registry.npmjs.org/@scope%2Fpkg/latest"
    );
    assert_eq!(latest_url("https://r", "llonebot-dist"), "https://r/llonebot-dist/latest");
}

#[test]
fn version_url_names_the_exact_version() {
    assert_eq!(version_url("https://r", "pmhq-dist-win-x64", "2.1.0"), "https://r/pmhq-dist-win-x64/2.1.0");
    assert_eq!(version_url("https://r", "@s/p", "1.0.0"), "https://r/@s%2Fp/1.0.0");
}

#[test]
fn tarball_url_uses_short_name() {
    assert_eq!(
        get_tarball_url("https://r", "llonebot-dist", "1.2.3"),
        "https://r/llonebot-dist/-/llonebot-dist-1.2.3.tgz"
    );
    assert_eq!(
        get_tarball_url("https://r", "@scope/pkg", "0.1.0"),
        "https://r/@scope/pkg/-/pkg-0.1.0.tgz"
    );
}

#[test]
fn first_success_takes_earliest_arrival() {
    let arrivals = vec![None, Some("1.2.3".to_string()), Some("9.9.9".to_string())];
    assert_eq!(first_success(&arrivals), Some("1.2.3".to_string()));
}

#[test]
fn first_success_ignores_later_arrivals() {
    let early = vec![Some("a".to_string()), None];
    let with_late = vec![Some("a".to_string()), Some("b".to_string())];
    assert_eq!(first_success(&early), first_success(&with_late));
}

#[test]
fn first_success_of_failures_is_none() {
    assert_eq!(first_success(&vec![None, None, None]), None);
    assert_eq!(first_success(&vec![]), None);
}

#[test]
fn best_registry_prefers_first_confirmation() {
    let confirmations = vec![None, Some("https://m2".to_string())];
    assert_eq!(best_registry(&confirmations, "https://primary"), "https://m2");
}

#[test]
fn best_registry_falls_back_to_primary() {
    let confirmations: Vec<Option<String>> = vec![None, None, None];
    assert_eq!(best_registry(&confirmations, "https://primary"), "https://primary");
}

#[test]
fn version_resolves_only_from_a_confirmed_reply() {
    assert_eq!(version_from_reply(200, "{\"version\":\"1.2.3\"}"), Some("1.2.3".to_string()));
    assert_eq!(version_from_reply(404, "{\"version\":\"1.2.3\"}"), None);
    assert_eq!(version_from_reply(200, "not json"), None);
    assert_eq!(version_from_reply(200, "{\"name\":\"x\"}"), None);
    assert_eq!(version_from_reply(200, "{\"version\":7}"), None);
}

#[test]
fn only_status_200_confirms() {
    assert!(status_is_ok(200));
    assert!(!status_is_ok(201));
    assert!(!status_is_ok(404));
    assert!(!status_is_ok(301));
}
