use tcrm_task::tasks::error::TaskError;
use tcrm_task::tasks::security::SecurityValidator;

#[test]
fn validate_command_rejects_empty() {
    assert!(SecurityValidator::validate_command("").is_err());
    assert!(SecurityValidator::validate_command("   ").is_err());
}

#[test]
fn validate_command_accepts_shell_features() {
    let shell_commands = [
        "ls | grep pattern",
        "echo hello > output.txt",
        "make && npm test",
        "command1; command2",
        "echo $PATH",
        "ls $(pwd)",
        "cat file.txt | head -n 10",
    ];

    for cmd in &shell_commands {
        assert!(
            SecurityValidator::validate_command(cmd).is_ok(),
            "Should accept shell feature: {}",
            cmd
        );
    }
}

#[test]
fn validate_command_rejects_obvious_injection() {
    let dangerous_commands = [
        "command\0with\0nulls",
        "eval(malicious_code)",
        "exec(rm -rf /)",
        "command\r\necho injected",
    ];

    for cmd in &dangerous_commands {
        assert!(
            SecurityValidator::validate_command(cmd).is_err(),
            "Should reject obvious injection: {}",
            cmd
        );
    }
}

#[test]
fn validate_command_strict_blocks_shell_features() {
    let shell_commands = ["ls | grep pattern", "echo hello > output.txt", "make && npm test"];

    for cmd in &shell_commands {
        assert!(
            SecurityValidator::validate_command_strict(cmd).is_err(),
            "Strict validation should reject: {}",
            cmd
        );
    }
}

#[test]
fn validate_command_accepts_safe_commands() {
    let safe_commands = [
        "echo",
        "ls",
        "cat",
        "grep",
        "node",
        "python",
        "ls -la",
        "grep pattern file.txt",
        "node script.js",
    ];

    for cmd in &safe_commands {
        assert!(SecurityValidator::validate_command(cmd).is_ok(), "Should accept: {}", cmd);
    }
}

#[test]
fn validate_args_accepts_normal_args() {
    let normal_args = vec![
        "arg1".to_string(),
        "--flag".to_string(),
        "file.txt".to_string(),
        "path/to/file".to_string(),
    ];

    assert!(SecurityValidator::validate_args(&normal_args).is_ok());
}

#[test]
fn validate_args_rejects_null_bytes() {
    let dangerous_args = vec!["arg\0with\0nulls".to_string()];

    assert!(SecurityValidator::validate_args(&dangerous_args).is_err());
}

#[test]
fn validate_working_dir_accepts_relative_paths() {
    assert!(SecurityValidator::validate_working_dir(".").is_ok());
}

#[test]
fn validate_working_dir_rejects_nonexistent() {
    assert!(SecurityValidator::validate_working_dir("/nonexistent/path").is_err());
}

#[test]
fn validate_env_vars_rejects_spaces_in_keys() {
    let env = vec![("KEY WITH SPACE".to_string(), "value".to_string())];
    assert!(SecurityValidator::validate_env_vars(&env).is_err());
}

#[test]
fn validate_env_vars_accepts_normal_vars() {
    let env = vec![
        ("PATH".to_string(), "/usr/bin:/bin".to_string()),
        ("CUSTOM_VAR".to_string(), "some value with spaces".to_string()),
    ];
    assert!(SecurityValidator::validate_env_vars(&env).is_ok());
}

#[test]
fn validate_env_vars_rejects_invalid_keys() {
    let env = vec![("KEY=BAD".to_string(), "value".to_string())];
    assert!(SecurityValidator::validate_env_vars(&env).is_err());
}

#[test]
fn validate_env_vars_rejects_null_chars() {
    let env = vec![("KEY".to_string(), "value\0with\0nulls".to_string())];
    assert!(SecurityValidator::validate_env_vars(&env).is_err());
}

#[test]
fn security_messages_name_the_first_broken_rule() {
    let msg = |r: Result<(), TaskError>| match r {
        Err(TaskError::InvalidConfiguration(m)) => m,
        other => panic!("unexpected result: {:?}", other),
    };
    assert_eq!(msg(SecurityValidator::validate_command("  ")), "Command cannot be empty");
    assert_eq!(
        msg(SecurityValidator::validate_command(" echo")),
        "Command cannot have leading or trailing whitespace"
    );
    assert_eq!(
        msg(SecurityValidator::validate_command(&"a".repeat(4097))),
        "Command length exceeds maximum allowed length"
    );
    assert!(SecurityValidator::validate_command(&"a".repeat(4096)).is_ok());
    assert_eq!(
        msg(SecurityValidator::validate_args(&vec!["ok".to_string(), " x".to_string()])),
        "Argument ' x' cannot have leading/trailing whitespace"
    );
    assert_eq!(
        msg(SecurityValidator::validate_args(&vec!["".to_string()])),
        "Arguments cannot be empty"
    );
    assert_eq!(
        msg(SecurityValidator::validate_env_vars(&vec![("A B".to_string(), "v".to_string())])),
        "Environment variable key 'A B' cannot contain spaces"
    );
    assert_eq!(
        msg(SecurityValidator::validate_env_vars(&vec![("K".to_string(), " v".to_string())])),
        "Environment variable 'K' value cannot have leading/trailing whitespace"
    );
    assert_eq!(
        msg(SecurityValidator::validate_working_dir("/nonexistent/path")),
        "Working directory does not exist: /nonexistent/path"
    );
    assert_eq!(
        msg(SecurityValidator::validate_command_strict("a;b")),
        "Command contains shell metacharacters (use validate_command for developer tools)"
    );
}

#[test]
fn strict_validation_refuses_exactly_the_listed_characters() {
    let refused = [';', '&', '|', '`', '$', '(', ')', '{', '}', '[', ']', '<', '>', '\n', '\r'];
    for ch in refused {
        let cmd = format!("echo a{}b", ch);
        assert!(matches!(
            SecurityValidator::validate_command_strict(&cmd),
            Err(TaskError::InvalidConfiguration(_))
        ));
    }
    for cmd in ["ls -la", "echo a#b", "cp a.txt b.txt", "python3 -c print", "a=b", "x*y?z", "~/bin/run!"] {
        assert!(SecurityValidator::validate_command_strict(cmd).is_ok(), "{}", cmd);
    }
    assert!(SecurityValidator::validate_command_strict("   ").is_err());
    assert!(SecurityValidator::validate_command_strict("").is_err());
}

#[test]
fn env_validation_passes_or_fails_whatever_the_order() {
    let good = ("PATH".to_string(), "/usr/bin".to_string());
    let bad = ("MY VAR".to_string(), "x".to_string());
    let other = ("HOME".to_string(), "/root".to_string());
    let a = vec![good.clone(), bad.clone(), other.clone()];
    let b = vec![other.clone(), good.clone(), bad.clone()];
    assert!(SecurityValidator::validate_env_vars(&a).is_err());
    assert!(SecurityValidator::validate_env_vars(&b).is_err());
    let c = vec![good.clone(), other.clone()];
    let d = vec![other, good];
    assert!(SecurityValidator::validate_env_vars(&c).is_ok());
    assert!(SecurityValidator::validate_env_vars(&d).is_ok());
}

#[test]
fn validate_working_dir_rejects_a_file() {
    match SecurityValidator::validate_working_dir("/bin/sh") {
        Err(TaskError::InvalidConfiguration(m)) => {
            assert_eq!(m, "Working directory is not a directory: /bin/sh")
        }
        other => panic!("unexpected result: {:?}", other),
    }
    assert!(SecurityValidator::validate_working_dir("/").is_ok());
}
