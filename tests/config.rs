use optima_ops::config::{expand_tilde, expand_tilde_with, AppConfig, Environment, ServiceType};

#[test]
fn test_expand_tilde() {
    let path = "~/test/path";
    let expanded = expand_tilde(path);
    assert!(!expanded.starts_with("~"));
    assert!(expanded.ends_with("/test/path"));

    let path = "/absolute/path";
    assert_eq!(expand_tilde(path), "/absolute/path");
}

#[test]
fn expand_tilde_with_given_home() {
    assert_eq!(expand_tilde_with("~/.ssh/key", Some("/home/ops")), "/home/ops/.ssh/key");
    assert_eq!(expand_tilde_with("~/.ssh/key", None), "~/.ssh/key");
    assert_eq!(expand_tilde_with("~user/x", Some("/home/ops")), "~user/x");
}

#[test]
fn environment_names_and_aliases() {
    assert_eq!(Environment::from_str("PROD"), Some(Environment::Production));
    assert_eq!(Environment::from_str("staging"), Some(Environment::Stage));
    assert_eq!(Environment::from_str("Dev"), Some(Environment::Development));
    assert_eq!(Environment::from_str("shared"), Some(Environment::Shared));
    assert_eq!(Environment::from_str("qa"), None);
    assert_eq!(Environment::Stage.as_str(), "stage");
    assert_eq!(Environment::Development.to_string(), "development");
    assert_eq!(Environment::Shared.get_env_info().rds_host, "");
    assert_eq!(Environment::Production.get_env_info().docker_network, "optima-prod");
}

#[test]
fn default_configuration() {
    let c = AppConfig::defaults();
    assert_eq!(c.get_environment(), Environment::Production);
    assert_eq!(c.get_ec2_config(None).host, "ec2-prod.optima.shop");
    assert_eq!(c.get_ec2_config(Some(Environment::Shared)).host, "shared.optima.onl");
    assert_eq!(c.get_aws_config().region, "ap-southeast-1");
    assert_eq!(c.get_all_services().len(), 5);
    assert_eq!(c.get_services_by_type(ServiceType::MCP).len(), 1);
    assert_eq!(c.get_service("commerce-backend").unwrap().port, Some(8200));
    assert!(c.get_service("missing").is_none());
    assert_eq!(
        c.key_path_with(None, None, Some("/root")),
        "/root/.ssh/optima-ec2-key"
    );
    assert_eq!(c.key_path_with(None, Some("/keys/k"), Some("/root")), "/keys/k");
}

#[test]
fn environment_override() {
    let c = AppConfig::with_override(
        AppConfig::default_config(),
        AppConfig::default_services_config(),
        Some("Staging"),
    );
    assert_eq!(c.get_environment(), Environment::Stage);
    let d = AppConfig::with_override(
        AppConfig::default_config(),
        AppConfig::default_services_config(),
        Some("nowhere"),
    );
    assert_eq!(d.get_environment(), Environment::Production);
}

#[test]
fn service_selection() {
    let c = AppConfig::defaults();
    assert_eq!(c.select_services("all", None).len(), 5);
    assert_eq!(c.select_services("core", None).len(), 4);
    let mcp = c.select_services("mcp", None);
    assert_eq!(mcp.len(), 1);
    assert_eq!(mcp[0].name, "comfy-mcp");
    let named = c.select_services("all", Some("commerce"));
    assert_eq!(named.len(), 1);
    assert_eq!(named[0].name, "commerce-backend");
    assert!(c.select_services("core", Some("comfy")).is_empty());
}
