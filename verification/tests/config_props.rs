use cargo_prebuilt::config::{
    parse_packages, parse_pub_keys, parse_reports, resolve, Arguments, ColorChoice, ConfigFile,
    ConfigFileIndexes, ConfigFilePrebuilt, Defaults, FileOutcome, ReportType,
};
use cargo_prebuilt::errors::ConfigError;
use cargo_prebuilt::kvmap::KvMap;

fn defaults() -> Defaults {
    Defaults {
        target: "x86_64-unknown-linux-gnu".to_string(),
        index: "gh-pub:example.com/default/index".to_string(),
        index_keys: "DEFAULTKEY1,DEFAULTKEY2".to_string(),
        path: "/home/u/.cargo/bin".to_string(),
        report_path: "/home/u/.local/share/reports".to_string(),
    }
}

fn prebuilt_section() -> ConfigFilePrebuilt {
    ConfigFilePrebuilt {
        target: None,
        safe: None,
        index_key: None,
        no_sig: None,
        no_hash: None,
        hash_bins: None,
        path: None,
        report_path: None,
        no_create_path: None,
        reports: None,
        out: None,
        color: None,
        no_color: None,
    }
}

#[test]
fn cli_wins_over_env_over_file_over_default() {
    let mut cli = Arguments::new();
    let mut env = Arguments::new();
    cli.target = Some("cli-target".to_string());
    env.target = Some("env-target".to_string());
    cli.no_sig = Some(true);
    let mut pre = prebuilt_section();
    pre.target = Some("file-target".to_string());
    let file = FileOutcome::Parsed(ConfigFile { prebuilt: Some(pre), index: None });
    let (cfg, _) = resolve(cli, env, file, &defaults()).unwrap();
    assert_eq!(cfg.target, "cli-target");

    let mut env = Arguments::new();
    env.target = Some("env-target".to_string());
    env.no_sig = Some(true);
    let mut pre = prebuilt_section();
    pre.target = Some("file-target".to_string());
    let file = FileOutcome::Parsed(ConfigFile { prebuilt: Some(pre), index: None });
    let (cfg, _) = resolve(Arguments::new(), env, file, &defaults()).unwrap();
    assert_eq!(cfg.target, "env-target");

    let mut pre = prebuilt_section();
    pre.target = Some("file-target".to_string());
    pre.no_sig = Some(true);
    let file = FileOutcome::Parsed(ConfigFile { prebuilt: Some(pre), index: None });
    let (cfg, _) = resolve(Arguments::new(), Arguments::new(), file, &defaults()).unwrap();
    assert_eq!(cfg.target, "file-target");

    let mut cli = Arguments::new();
    cli.no_sig = Some(true);
    let (cfg, _) = resolve(cli, Arguments::new(), FileOutcome::Missing, &defaults()).unwrap();
    assert_eq!(cfg.target, "x86_64-unknown-linux-gnu");
}

#[test]
fn switch_set_by_cli_blocks_file_value() {
    let mut cli = Arguments::new();
    cli.no_sig = Some(true);
    cli.safe = Some(false);
    let mut pre = prebuilt_section();
    pre.safe = Some(true);
    let file = FileOutcome::Parsed(ConfigFile { prebuilt: Some(pre), index: None });
    let (cfg, _) = resolve(cli, Arguments::new(), file, &defaults()).unwrap();
    assert!(!cfg.safe);

    let mut cli = Arguments::new();
    cli.no_sig = Some(true);
    let mut pre = prebuilt_section();
    pre.safe = Some(true);
    let file = FileOutcome::Parsed(ConfigFile { prebuilt: Some(pre), index: None });
    let (cfg, _) = resolve(cli, Arguments::new(), file, &defaults()).unwrap();
    assert!(cfg.safe);
}

#[test]
fn default_index_gets_baked_in_keys() {
    let cli = Arguments::new();
    let (cfg, _) = resolve(cli, Arguments::new(), FileOutcome::Missing, &defaults()).unwrap();
    assert_eq!(cfg.index, "gh-pub:example.com/default/index");
    assert_eq!(cfg.pub_keys, vec!["DEFAULTKEY1".to_string(), "DEFAULTKEY2".to_string()]);
    assert!(!cfg.no_sig);
}

#[test]
fn keyless_custom_index_fails_before_any_network() {
    let mut cli = Arguments::new();
    cli.index = Some("gh-pub:example.com/other/index".to_string());
    match resolve(cli, Arguments::new(), FileOutcome::Missing, &defaults()) {
        Err(ConfigError::MissingTrustKey) => {}
        other => panic!("expected the missing-trust-key error, got {:?}", other.map(|_| ())),
    }
}

#[test]
fn keyless_custom_index_passes_when_signatures_are_off() {
    let mut cli = Arguments::new();
    cli.index = Some("gh-pub:example.com/other/index".to_string());
    cli.no_sig = Some(true);
    let (cfg, _) = resolve(cli, Arguments::new(), FileOutcome::Missing, &defaults()).unwrap();
    assert_eq!(cfg.pub_keys.len(), 0);
    assert!(cfg.no_sig);
}

#[test]
fn conflicting_index_and_key_is_an_error() {
    let mut cli = Arguments::new();
    cli.index = Some("gh-pub:example.com/a".to_string());
    cli.index_key = Some("mine".to_string());
    match resolve(cli, Arguments::new(), FileOutcome::Missing, &defaults()) {
        Err(ConfigError::ConflictingIndex) => {}
        other => panic!("expected the conflict error, got {:?}", other.map(|_| ())),
    }
}

#[test]
fn unparsable_file_is_an_error() {
    let mut cli = Arguments::new();
    cli.no_sig = Some(true);
    match resolve(cli, Arguments::new(), FileOutcome::Unparsable, &defaults()) {
        Err(ConfigError::FileParse) => {}
        other => panic!("expected the parse error, got {:?}", other.map(|_| ())),
    }
}

#[test]
fn demanded_file_must_exist() {
    let mut cli = Arguments::new();
    cli.require_config = Some(true);
    match resolve(cli, Arguments::new(), FileOutcome::Missing, &defaults()) {
        Err(ConfigError::FileRequired) => {}
        other => panic!("expected the file-required error, got {:?}", other.map(|_| ())),
    }
}

#[test]
fn ci_mode_ignores_the_file() {
    let mut cli = Arguments::new();
    cli.ci = Some(true);
    cli.no_sig = Some(true);
    let mut pre = prebuilt_section();
    pre.target = Some("file-target".to_string());
    let file = FileOutcome::Parsed(ConfigFile { prebuilt: Some(pre), index: None });
    let (cfg, _) = resolve(cli, Arguments::new(), file, &defaults()).unwrap();
    assert_eq!(cfg.target, "x86_64-unknown-linux-gnu");
}

#[test]
fn index_key_pulls_locator_and_trust_from_file() {
    let mut table: KvMap<ConfigFileIndexes> = KvMap::new();
    table.insert(
        "work".to_string(),
        ConfigFileIndexes {
            index: "gh-pri:example.com/work/index".to_string(),
            pub_key: Some(vec!["WORKKEY".to_string()]),
            auth: Some("auth-token-1".to_string()),
        },
    );
    let mut cli = Arguments::new();
    cli.index_key = Some("work".to_string());
    let file = FileOutcome::Parsed(ConfigFile { prebuilt: None, index: Some(table) });
    let (cfg, _) = resolve(cli, Arguments::new(), file, &defaults()).unwrap();
    assert_eq!(cfg.index, "gh-pri:example.com/work/index");
    assert_eq!(cfg.pub_keys, vec!["WORKKEY".to_string()]);
    assert_eq!(cfg.auth.as_deref(), Some("auth-token-1"));
}

#[test]
fn explicit_index_imports_matching_entry_keys() {
    let mut table: KvMap<ConfigFileIndexes> = KvMap::new();
    table.insert(
        "mine".to_string(),
        ConfigFileIndexes {
            index: "gh-pub:example.com/mine/index".to_string(),
            pub_key: Some(vec!["MINEKEY".to_string()]),
            auth: None,
        },
    );
    let mut cli = Arguments::new();
    cli.index = Some("gh-pub:example.com/mine/index".to_string());
    let file = FileOutcome::Parsed(ConfigFile { prebuilt: None, index: Some(table) });
    let (cfg, _) = resolve(cli, Arguments::new(), file, &defaults()).unwrap();
    assert_eq!(cfg.pub_keys, vec!["MINEKEY".to_string()]);
}

#[test]
fn color_flags_resolve_tristate() {
    let mut cli = Arguments::new();
    cli.no_sig = Some(true);
    cli.color = Some(true);
    let (_, choice) = resolve(cli, Arguments::new(), FileOutcome::Missing, &defaults()).unwrap();
    assert_eq!(choice, ColorChoice::ForceOn);

    let mut cli = Arguments::new();
    cli.no_sig = Some(true);
    cli.color = Some(true);
    cli.no_color = Some(true);
    let (_, choice) = resolve(cli, Arguments::new(), FileOutcome::Missing, &defaults()).unwrap();
    assert_eq!(choice, ColorChoice::ForceOff);

    let mut cli = Arguments::new();
    cli.no_sig = Some(true);
    let (_, choice) = resolve(cli, Arguments::new(), FileOutcome::Missing, &defaults()).unwrap();
    assert_eq!(choice, ColorChoice::Auto);
}

#[test]
fn reports_default_to_license_download() {
    let mut cli = Arguments::new();
    cli.no_sig = Some(true);
    let (cfg, _) = resolve(cli, Arguments::new(), FileOutcome::Missing, &defaults()).unwrap();
    assert_eq!(cfg.reports, vec![ReportType::LicenseDL]);
}

#[test]
fn pub_keys_parse_from_csv() {
    let keys = parse_pub_keys(Some("A,B,C".to_string()));
    assert_eq!(keys, vec!["A".to_string(), "B".to_string(), "C".to_string()]);
    assert_eq!(parse_pub_keys(None), Vec::<String>::new());
}

#[test]
fn reports_parse_and_deduplicate() {
    let r = parse_reports(Some("license,deps,license".to_string())).unwrap().unwrap();
    assert_eq!(r, vec![ReportType::LicenseDL, ReportType::DepsDL]);
}

#[test]
fn unknown_report_kind_is_returned_as_error() {
    match parse_reports(Some("license,nonsense".to_string())) {
        Err(e) => assert_eq!(e, "nonsense"),
        Ok(_) => panic!("expected the unknown kind to be rejected"),
    }
}

#[test]
fn packages_parse_and_deduplicate() {
    let p = parse_packages("a@1.0.0,b,a@1.0.0".to_string());
    assert_eq!(p, vec!["a@1.0.0".to_string(), "b".to_string()]);
}

#[test]
fn report_type_round_trips() {
    for (name, t) in [
        ("license", ReportType::LicenseDL),
        ("deps", ReportType::DepsDL),
        ("audit", ReportType::AuditDL),
        ("info_json", ReportType::InfoJsonDL),
        ("license_event", ReportType::LicenseEvent),
        ("deps_event", ReportType::DepsEvent),
        ("audit_event", ReportType::AuditEvent),
        ("info_json_event", ReportType::InfoJsonEvent),
    ] {
        assert_eq!(ReportType::try_from(name), Ok(t));
        assert_eq!(t.as_str(), name);
    }
    assert_eq!(ReportType::try_from("other"), Err(()));
}
