use lapce_thrift::config::{collect_strings, member_of, resolve_config, ConfigValue, ServerChoice};
use lapce_thrift::flow::{download_error, download_failure_report, error_report, explicit_locator, release_url};
use lapce_thrift::platform::{binary_name, resolve_binary_name, Arch, Os};
use lapce_thrift::text::{joined, same_text};

fn s(t: &str) -> String {
    t.to_string()
}

fn lsp(members: Vec<(String, ConfigValue)>) -> Option<ConfigValue> {
    Some(ConfigValue::Object(vec![(s("lsp"), ConfigValue::Object(members))]))
}

#[test]
fn empty_options_use_default() {
    assert!(matches!(resolve_config(&None), ServerChoice::UseDefault));
    assert!(matches!(resolve_config(&Some(ConfigValue::Object(vec![]))), ServerChoice::UseDefault));
}

#[test]
fn args_keep_strings_in_order_and_skip_others() {
    let options = lsp(vec![
        (s("serverArgs"), ConfigValue::Array(vec![
            ConfigValue::Str(s("-a")),
            ConfigValue::Other,
            ConfigValue::Array(vec![]),
            ConfigValue::Str(s("-b")),
        ])),
        (s("serverPath"), ConfigValue::Str(s("/bin/ls"))),
    ]);
    match resolve_config(&options) {
        ServerChoice::Explicit { path, args } => {
            assert_eq!(path, "/bin/ls");
            assert_eq!(args, vec![s("-a"), s("-b")]);
        }
        other => panic!("unexpected {:?}", other),
    }
}

#[test]
fn empty_or_non_string_path_uses_default() {
    let options = lsp(vec![(s("serverPath"), ConfigValue::Str(s("")))]);
    assert!(matches!(resolve_config(&options), ServerChoice::UseDefault));
    let options = lsp(vec![(s("serverPath"), ConfigValue::Other)]);
    assert!(matches!(resolve_config(&options), ServerChoice::UseDefault));
    let options = Some(ConfigValue::Object(vec![(s("lsp"), ConfigValue::Str(s("x")))]));
    assert!(matches!(resolve_config(&options), ServerChoice::UseDefault));
    let options = Some(ConfigValue::Array(vec![]));
    assert!(matches!(resolve_config(&options), ServerChoice::UseDefault));
}

#[test]
fn args_not_an_array_give_no_args() {
    let options = lsp(vec![
        (s("serverArgs"), ConfigValue::Str(s("--foo"))),
        (s("serverPath"), ConfigValue::Str(s("p"))),
    ]);
    match resolve_config(&options) {
        ServerChoice::Explicit { path, args } => {
            assert_eq!(path, "p");
            assert!(args.is_empty());
        }
        other => panic!("unexpected {:?}", other),
    }
}

#[test]
fn member_lookup_takes_first_match() {
    let v = ConfigValue::Object(vec![
        (s("k"), ConfigValue::Str(s("first"))),
        (s("k"), ConfigValue::Str(s("second"))),
    ]);
    match member_of(&v, "k") {
        Some(ConfigValue::Str(t)) => assert_eq!(t, "first"),
        other => panic!("unexpected {:?}", other),
    }
    assert!(member_of(&v, "K").is_none());
    assert!(member_of(&ConfigValue::Other, "k").is_none());
}

#[test]
fn collect_strings_of_empty_is_empty() {
    assert!(collect_strings(&vec![]).is_empty());
}

#[test]
fn binary_names_follow_template() {
    assert_eq!(binary_name(Os::Linux, Arch::Amd64), "thriftls-linux-amd64");
    assert_eq!(binary_name(Os::Darwin, Arch::Amd64), "thriftls-darwin-amd64");
    assert_eq!(binary_name(Os::Windows, Arch::Amd64), "thriftls-windows-amd64.exe");
    assert_eq!(binary_name(Os::Windows, Arch::Arm64), "thriftls-windows-arm64.exe");
}

#[test]
fn host_names_map_exactly() {
    assert_eq!(Os::from_host("macos"), Some(Os::Darwin));
    assert_eq!(Os::from_host("windows"), Some(Os::Windows));
    assert_eq!(Os::from_host("Linux"), None);
    assert_eq!(Os::from_host("darwin"), None);
    assert_eq!(Arch::from_host("x86_64"), Some(Arch::Amd64));
    assert_eq!(Arch::from_host("amd64"), None);
    assert_eq!(Arch::from_host(""), None);
}

#[test]
fn resolved_name_is_deterministic() {
    let os = Some(s("linux"));
    let arch = Some(s("aarch64"));
    let a = resolve_binary_name(&os, &arch);
    let b = resolve_binary_name(&os, &arch);
    assert_eq!(a, Some(s("thriftls-linux-arm64")));
    assert_eq!(a, b);
    assert_eq!(resolve_binary_name(&Some(s("plan9")), &arch), None);
}

#[test]
fn messages_and_addresses() {
    assert_eq!(explicit_locator("/x"), "urn:/x");
    assert_eq!(
        release_url("thriftls-darwin-amd64"),
        "https://github.com/joyme123/thrift-ls/releases/download/v0.1.0/thriftls-darwin-amd64"
    );
    assert_eq!(download_error("boom"), "download error: boom");
    assert_eq!(error_report("boom"), "plugin returned with error: boom");
    assert_eq!(
        download_failure_report(Ok(s("gone"))),
        "plugin returned with error: download error: gone"
    );
    assert_eq!(download_failure_report(Err(s("bad"))), "plugin returned with error: bad");
}

#[test]
fn text_helpers() {
    assert!(same_text("", ""));
    assert!(same_text("héllo", "héllo"));
    assert!(!same_text("abc", "abd"));
    assert!(!same_text("ab", "abc"));
    assert_eq!(joined("ab", "cd"), "abcd");
}
