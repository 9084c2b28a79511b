use nextest_lines::settings::{
    Args, Config, ConcreteJobRef, ConfigFile, Job, JobEntry, NameOrAlias, Settings, SettingsError,
};

fn job(name: &str, command: &[&str]) -> JobEntry {
    JobEntry {
        name: name.to_string(),
        job: Job { command: command.iter().map(|s| s.to_string()).collect() },
    }
}

#[test]
fn defaults() {
    let s = Settings::default();
    assert!(s.wrap && s.help_line && s.default_watch);
    assert!(!s.summary && !s.reverse && !s.show_changes_count);
    assert_eq!(s.grace_period_ms, 5);
    assert_eq!(s.default_job, ConcreteJobRef::named("check"));
}

#[test]
fn config_overrides_what_it_sets() {
    let mut s = Settings::default();
    let config = Config {
        summary: Some(true),
        wrap: Some(false),
        grace_period_ms: Some(20),
        ignore: vec!["target".to_string()],
        jobs: vec![job("check", &["cargo", "check"])],
        ..Config::default()
    };
    s.apply_config(&config);
    s.apply_config(&Config { ignore: vec!["docs".to_string()], ..Config::default() });
    assert!(s.summary);
    assert!(!s.wrap);
    assert!(s.help_line);
    assert_eq!(s.grace_period_ms, 20);
    assert_eq!(s.ignore, vec!["target".to_string(), "docs".to_string()]);
    assert_eq!(s.jobs, vec![job("check", &["cargo", "check"])]);
}

#[test]
fn args_override_config() {
    let mut s = Settings::default();
    s.apply_config(&Config { summary: Some(true), ..Config::default() });
    let args = Args {
        no_summary: true,
        help_line: true,
        no_help_line: true,
        reverse: true,
        features: Some("a,b".to_string()),
        additional_job_args: vec!["--all".to_string()],
        job: Some(ConcreteJobRef::named("test")),
        ..Args::default()
    };
    s.apply_args(&args);
    assert!(!s.summary);
    assert!(!s.help_line);
    assert!(s.reverse);
    assert_eq!(s.features, Some("a,b".to_string()));
    assert_eq!(s.additional_job_args, vec!["--all".to_string()]);
    assert_eq!(s.arg_job, Some(ConcreteJobRef::named("test")));
}

#[test]
fn check_refuses_missing_jobs() {
    let mut s = Settings::default();
    assert_eq!(s.check(), Err(SettingsError::NoJob));
    s.apply_config(&Config { jobs: vec![job("test", &["cargo", "test"])], ..Config::default() });
    assert_eq!(s.check(), Err(SettingsError::DefaultJobNotFound("check".to_string())));
    s.default_job = ConcreteJobRef { name_or_alias: NameOrAlias::Alias("clippy".to_string()) };
    assert_eq!(s.check(), Ok(()));
    s.default_job = ConcreteJobRef::named("test");
    assert_eq!(s.check(), Ok(()));
}

#[test]
fn read_layers_files_in_order() {
    let base = Config { jobs: vec![job("check", &["cargo", "check"])], ..Config::default() };
    let files = vec![
        ConfigFile {
            path: "prefs.toml".to_string(),
            config: Config { wrap: Some(false), ..Config::default() },
        },
        ConfigFile {
            path: "bacon.toml".to_string(),
            config: Config {
                wrap: Some(true),
                default_job: Some(ConcreteJobRef::named("test")),
                jobs: vec![job("test", &["cargo", "test"])],
                ..Config::default()
            },
        },
    ];
    let s = Settings::read(&Args::default(), &base, &files).unwrap();
    assert!(s.wrap);
    assert_eq!(s.config_files, vec!["prefs.toml".to_string(), "bacon.toml".to_string()]);
    assert_eq!(s.default_job, ConcreteJobRef::named("test"));
    assert_eq!(s.jobs.len(), 2);
    let bad = vec![ConfigFile {
        path: "bacon.toml".to_string(),
        config: Config { default_job: Some(ConcreteJobRef::named("run")), ..Config::default() },
    }];
    assert_eq!(
        Settings::read(&Args::default(), &base, &bad).unwrap_err(),
        SettingsError::DefaultJobNotFound("run".to_string())
    );
    assert_eq!(
        Settings::read(&Args::default(), &Config::default(), &vec![]).unwrap_err(),
        SettingsError::NoJob
    );
}

#[test]
fn register_config_file_appends() {
    let mut s = Settings::default();
    s.register_config_file("a.toml".to_string());
    s.register_config_file("b.toml".to_string());
    assert_eq!(s.config_files, vec!["a.toml".to_string(), "b.toml".to_string()]);
}
