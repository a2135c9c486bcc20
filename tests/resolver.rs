use lapce_elixir::{
    default_filename, initialize, is_initialize, is_supported_architecture, is_supported_os,
    server_args, explicit_server_path, DocumentFilter, Environment, LspSettings, Resolution,
    ResolveError, SkipReason, INITIALIZE_METHOD,
};

fn settings(path: Option<&str>, args: Vec<Option<&str>>) -> LspSettings {
    LspSettings {
        server_path: path.map(String::from),
        server_args: args.into_iter().map(|a| a.map(String::from)).collect(),
    }
}

fn env(arch: Option<&str>, os: Option<&str>, root: Option<&str>) -> Environment {
    Environment {
        architecture: arch.map(String::from),
        operating_system: os.map(String::from),
        install_root: root.map(String::from),
    }
}

fn assert_language_selector(filters: &[DocumentFilter]) {
    assert_eq!(filters.len(), 1);
    assert_eq!(filters[0].language.as_deref(), Some("elixir"));
    assert!(filters[0].scheme.is_none());
    assert!(filters[0].pattern.is_none());
}

fn started(r: Resolution) -> (String, Vec<String>) {
    match r {
        Resolution::Started(d) => {
            assert_language_selector(&d.filters);
            (d.locator, d.args)
        }
        other => panic!("expected a launch, got {:?}", other),
    }
}

const ROOT: &str = "file:///plugins/elixir/";

#[test]
fn explicit_path_with_args_on_any_platform() {
    let s = settings(Some("/usr/bin/custom-ls"), vec![Some("--stdio")]);
    for e in [
        env(Some("x86_64"), Some("linux"), Some(ROOT)),
        env(Some("riscv64"), Some("haiku"), None),
        env(None, None, None),
    ] {
        let (locator, args) = started(initialize(&s, &e));
        assert_eq!(locator, "urn:/usr/bin/custom-ls");
        assert_eq!(args, vec!["--stdio".to_string()]);
    }
}

#[test]
fn explicit_path_is_normalized_as_uri() {
    let s = settings(Some("/opt/elixir ls/run"), vec![]);
    let (locator, args) = started(initialize(&s, &env(None, None, None)));
    assert_eq!(locator, "urn:/opt/elixir%20ls/run");
    assert!(args.is_empty());
}

#[test]
fn non_string_args_are_dropped_in_order() {
    let s = settings(
        Some("elixir-ls"),
        vec![Some("--a"), None, Some("--b"), None, Some("--c")],
    );
    let (_, args) = started(initialize(&s, &env(Some("x86_64"), Some("linux"), Some(ROOT))));
    assert_eq!(args, vec!["--a", "--b", "--c"]);
}

#[test]
fn server_args_keeps_only_strings() {
    let s = settings(None, vec![None, Some("x"), None, Some("y")]);
    assert_eq!(server_args(&s), vec!["x", "y"]);
    assert!(server_args(&settings(None, vec![])).is_empty());
    assert!(server_args(&settings(None, vec![None, None])).is_empty());
}

#[test]
fn explicit_server_path_needs_non_empty_string() {
    assert_eq!(explicit_server_path(&settings(Some("p"), vec![])).map(|p| p.as_str()), Some("p"));
    assert!(explicit_server_path(&settings(Some(""), vec![])).is_none());
    assert!(explicit_server_path(&settings(None, vec![])).is_none());
}

#[test]
fn default_launch_on_linux_x86_64() {
    let s = settings(None, vec![]);
    let (locator, args) = started(initialize(&s, &env(Some("x86_64"), Some("linux"), Some(ROOT))));
    assert_eq!(locator, "file:///plugins/elixir/elixir-ls-release/language_server.sh");
    assert!(args.is_empty());
}

#[test]
fn default_launch_on_windows_uses_bat() {
    let s = settings(None, vec![]);
    let (locator, args) =
        started(initialize(&s, &env(Some("x86_64"), Some("windows"), Some(ROOT))));
    assert_eq!(locator, "file:///plugins/elixir/elixir-ls-release/language_server.bat");
    assert!(args.is_empty());
}

#[test]
fn default_launch_on_macos_aarch64() {
    let s = settings(None, vec![]);
    let (locator, _) = started(initialize(&s, &env(Some("aarch64"), Some("macos"), Some(ROOT))));
    assert!(locator.ends_with("language_server.sh"));
    assert_eq!(locator, "file:///plugins/elixir/elixir-ls-release/language_server.sh");
}

#[test]
fn empty_server_path_falls_back_to_default_without_args() {
    let s = settings(Some(""), vec![Some("--stdio")]);
    let (locator, args) = started(initialize(&s, &env(Some("x86_64"), Some("linux"), Some(ROOT))));
    assert_eq!(locator, "file:///plugins/elixir/elixir-ls-release/language_server.sh");
    assert!(args.is_empty());
}

#[test]
fn unsupported_architecture_is_skipped() {
    let s = settings(None, vec![]);
    for os in [Some("linux"), Some("windows"), Some("plan9"), None] {
        for arch in [Some("x86"), Some("riscv64"), Some(""), None] {
            let r = initialize(&s, &env(arch, os, Some(ROOT)));
            assert!(matches!(r, Resolution::Skipped(SkipReason::UnsupportedArchitecture)));
        }
    }
}

#[test]
fn unsupported_os_is_skipped() {
    let s = settings(None, vec![]);
    for os in [Some("freebsd"), Some("Linux"), Some(""), None] {
        let r = initialize(&s, &env(Some("aarch64"), os, Some(ROOT)));
        assert!(matches!(r, Resolution::Skipped(SkipReason::UnsupportedOperatingSystem)));
    }
}

#[test]
fn missing_install_root_fails() {
    let r = initialize(&settings(None, vec![]), &env(Some("x86_64"), Some("linux"), None));
    assert!(matches!(r, Resolution::Failed(ResolveError::InstallRootUnavailable)));
}

#[test]
fn invalid_install_root_fails() {
    let r = initialize(
        &settings(None, vec![]),
        &env(Some("x86_64"), Some("linux"), Some("not a uri")),
    );
    assert!(matches!(r, Resolution::Failed(ResolveError::InvalidInstallRoot)));
}

#[test]
fn invalid_server_path_fails() {
    let r = initialize(&settings(Some("//["), vec![]), &env(Some("x86_64"), Some("linux"), Some(ROOT)));
    assert!(matches!(r, Resolution::Failed(ResolveError::InvalidServerPath)));
}

#[test]
fn only_initialize_is_handled() {
    assert_eq!(INITIALIZE_METHOD, "initialize");
    assert!(is_initialize("initialize"));
    assert!(!is_initialize("shutdown"));
    assert!(!is_initialize("Initialize"));
    assert!(!is_initialize("initialized"));
    assert!(!is_initialize(""));
}

#[test]
fn platform_allow_lists() {
    assert!(is_supported_architecture("x86_64"));
    assert!(is_supported_architecture("aarch64"));
    assert!(!is_supported_architecture("arm"));
    assert!(is_supported_os("macos"));
    assert!(is_supported_os("linux"));
    assert!(is_supported_os("windows"));
    assert!(!is_supported_os("android"));
}

#[test]
fn default_filename_per_os() {
    assert_eq!(default_filename("windows"), "elixir-ls-release/language_server.bat");
    assert_eq!(default_filename("linux"), "elixir-ls-release/language_server.sh");
    assert_eq!(default_filename("macos"), "elixir-ls-release/language_server.sh");
}
