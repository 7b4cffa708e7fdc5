use tcrm_task::tasks::config::{EnvVars, StreamSource, TaskConfig};
use tcrm_task::tasks::error::TaskError;

fn strings(v: &[&str]) -> Vec<String> {
    v.iter().map(|s| s.to_string()).collect()
}

fn env_of(v: &[(&str, &str)]) -> Vec<(String, String)> {
    v.iter().map(|(k, x)| (k.to_string(), x.to_string())).collect()
}

fn is_invalid(r: Result<(), TaskError>) -> bool {
    matches!(r, Err(TaskError::InvalidConfiguration(_)))
}

#[test]
fn config_validation() {
    let config = TaskConfig::new("echo").args(strings(&["hello"]));
    assert!(config.validate().is_ok());

    let config = TaskConfig::new("");
    assert!(is_invalid(config.validate()));

    let config = TaskConfig::new("  echo  ");
    assert!(is_invalid(config.validate()));

    let long_cmd = "a".repeat(4097);
    let config = TaskConfig::new(&long_cmd);
    assert!(is_invalid(config.validate()));

    let config = TaskConfig::new("echo").timeout_ms(0);
    assert!(is_invalid(config.validate()));

    let config = TaskConfig::new("echo").timeout_ms(30);
    assert!(config.validate().is_ok());

    let config = TaskConfig::new("echo").args(strings(&[""]));
    assert!(is_invalid(config.validate()));

    let config = TaskConfig::new("echo").args(strings(&[" hello "]));
    assert!(is_invalid(config.validate()));

    let long_arg = "a".repeat(4097);
    let config = TaskConfig::new("echo").args(vec![long_arg]);
    assert!(is_invalid(config.validate()));

    let config = TaskConfig::new("echo").working_dir("/non/existent/dir");
    assert!(is_invalid(config.validate()));

    let config = TaskConfig::new("echo").working_dir("/tmp");
    assert!(config.validate().is_ok());

    let dir_str = format!(" {} ", "/tmp");
    let config = TaskConfig::new("echo").working_dir(&dir_str);
    assert!(is_invalid(config.validate()));

    let config = TaskConfig::new("echo").env(env_of(&[("", "value")]));
    assert!(is_invalid(config.validate()));

    let config = TaskConfig::new("echo").env(env_of(&[("KEY WITH SPACE", "value")]));
    assert!(is_invalid(config.validate()));

    let config = TaskConfig::new("echo").env(env_of(&[("KEY=BAD", "value")]));
    assert!(is_invalid(config.validate()));

    let config = TaskConfig::new("echo").env(vec![("A".repeat(1025), "value".to_string())]);
    assert!(is_invalid(config.validate()));

    let config = TaskConfig::new("echo").env(env_of(&[("KEY", " value ")]));
    assert!(is_invalid(config.validate()));

    let config = TaskConfig::new("echo").env(vec![("KEY".to_string(), "A".repeat(4097))]);
    assert!(is_invalid(config.validate()));

    let config = TaskConfig::new("echo").env(env_of(&[("KEY", "some value")]));
    assert!(config.validate().is_ok());

    let mut config = TaskConfig::new("echo");
    config.ready_indicator = Some(String::new());
    assert!(is_invalid(config.validate()));

    let mut config = TaskConfig::new("echo");
    config.ready_indicator = Some("  READY  ".to_string());
    assert!(config.validate().is_ok());

    let mut config = TaskConfig::new("echo");
    config.ready_indicator = Some("READY".to_string());
    assert!(config.validate().is_ok());
}

#[test]
fn config_config_builder() {
    let config = TaskConfig::new("cargo")
        .args(strings(&["build", "--release"]))
        .working_dir("/home/user/project")
        .env(env_of(&[("RUST_LOG", "debug"), ("CARGO_TARGET_DIR", "target")]))
        .timeout_ms(300)
        .enable_stdin(true);

    assert_eq!(config.command, "cargo");
    assert_eq!(config.args, Some(vec!["build".to_string(), "--release".to_string()]));
    assert_eq!(config.working_dir, Some("/home/user/project".to_string()));
    assert!(config.env.is_some());
    assert_eq!(config.timeout_ms, Some(300));
    assert_eq!(config.enable_stdin, Some(true));
}

#[test]
fn tests_validation() {
    let unexpected = |r: Result<(), TaskError>| {
        if !is_invalid(r.clone()) {
            panic!("unexpected result: {:?}", r);
        }
    };

    let config = TaskConfig::new("echo").args(strings(&["hello"]));
    assert!(config.validate().is_ok());

    unexpected(TaskConfig::new("").validate());
    unexpected(TaskConfig::new("  echo  ").validate());
    unexpected(TaskConfig::new("echo").timeout_ms(0).validate());

    let config = TaskConfig::new("echo").timeout_ms(30);
    assert!(config.validate().is_ok());

    unexpected(TaskConfig::new("echo").args(strings(&[""])).validate());
    unexpected(TaskConfig::new("echo").args(strings(&[" hello "])).validate());
    unexpected(TaskConfig::new("echo").working_dir("/non/existent/dir").validate());

    let config = TaskConfig::new("echo").working_dir("/tmp");
    assert!(config.validate().is_ok());

    unexpected(TaskConfig::new("echo").env(env_of(&[("", "value")])).validate());
    unexpected(TaskConfig::new("echo").env(env_of(&[("KEY WITH SPACE", "value")])).validate());

    let config = TaskConfig::new("echo").env(env_of(&[("KEY", "some value")]));
    assert!(config.validate().is_ok());
}

#[test]
fn tests_config_builder() {
    let config = TaskConfig::new("cargo")
        .args(strings(&["build", "--release"]))
        .working_dir("/home/user/project")
        .env(env_of(&[("RUST_LOG", "debug"), ("CARGO_TARGET_DIR", "target")]))
        .timeout_ms(300)
        .enable_stdin(true);

    assert_eq!(config.command, "cargo");
    assert_eq!(config.args, Some(vec!["build".to_string(), "--release".to_string()]));
    assert_eq!(config.working_dir, Some("/home/user/project".to_string()));
    assert!(config.env.is_some());
    assert_eq!(config.timeout_ms, Some(300));
    assert_eq!(config.enable_stdin, Some(true));
}

#[test]
fn config_defaults_and_setters() {
    let config = TaskConfig::new("run");
    assert_eq!(config.enable_stdin, Some(false));
    assert_eq!(config.ready_indicator_source, Some(StreamSource::Stdout));
    assert_eq!(config.use_process_group, Some(true));
    assert!(config.is_process_group_enabled());
    assert!(!TaskConfig::new("run").use_process_group(false).is_process_group_enabled());
    let mut unset = TaskConfig::new("run");
    unset.use_process_group = None;
    assert!(unset.is_process_group_enabled());
    assert_eq!(StreamSource::default(), StreamSource::Stdout);
    let d = TaskConfig::default();
    assert_eq!(d.command, "");
    assert_eq!(d.use_process_group, Some(true));
}

#[test]
fn env_keeps_each_key_once_with_its_last_value() {
    let config = TaskConfig::new("run").env(env_of(&[("A", "1"), ("B", "2"), ("A", "3")]));
    assert_eq!(config.env.unwrap().as_pairs(), &env_of(&[("A", "3"), ("B", "2")]));
}

#[test]
fn validation_messages() {
    let msg = |r: Result<(), TaskError>| match r {
        Err(TaskError::InvalidConfiguration(m)) => m,
        other => panic!("unexpected result: {:?}", other),
    };
    assert_eq!(msg(TaskConfig::new("echo").timeout_ms(0).validate()), "Timeout must be greater than 0");
    let mut c = TaskConfig::new("echo");
    c.ready_indicator = Some(String::new());
    assert_eq!(msg(c.validate()), "Ready indicator cannot be empty");
    // The command is checked before the timeout.
    assert_eq!(msg(TaskConfig::new("").timeout_ms(0).validate()), "Command cannot be empty");
    assert_eq!(
        msg(TaskConfig::new("echo").working_dir("/x").validate_with_dir_status(true, false)),
        "Working directory is not a directory: /x"
    );
    assert!(TaskConfig::new("echo").working_dir("/x").validate_with_dir_status(true, true).is_ok());
}

#[test]
fn env_vars_keep_order_and_each_key_once() {

    let e = EnvVars::from_pairs(env_of(&[("B", "1"), ("A", "2"), ("B", "3")]));
    assert_eq!(e.len(), 2);
    assert_eq!(e.as_pairs(), &env_of(&[("B", "3"), ("A", "2")]));
    assert_eq!(e.clone(), e);
    assert_eq!(EnvVars::new().len(), 0);
    let c = TaskConfig::new("run").env(env_of(&[("K", "v")]));
    assert_eq!(c.clone().env, c.env);
}
