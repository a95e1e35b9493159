use optima_ops::environments::{
    get_all_environments, get_ec2_prod_config, get_ecs_stage_config, get_environment,
    EnvironmentType, ServiceCategory,
};

#[test]
fn test_environment_type_from_str() {
    assert_eq!(EnvironmentType::from_str("ec2-prod"), Some(EnvironmentType::Ec2Prod));
    assert_eq!(EnvironmentType::from_str("ecs-stage"), Some(EnvironmentType::EcsStage));
    assert_eq!(EnvironmentType::from_str("invalid"), None);
}

#[test]
fn test_get_all_environments() {
    let envs = get_all_environments();
    assert_eq!(envs.len(), 4);
}

#[test]
fn test_ec2_prod_has_services() {
    let config = get_ec2_prod_config();
    assert!(!config.services.is_empty());
    assert!(config.ec2_host.is_some());
    assert!(config.cluster_name.is_none());
}

#[test]
fn test_ecs_stage_has_cluster() {
    let config = get_ecs_stage_config();
    assert!(config.cluster_name.is_some());
    assert!(config.ec2_host.is_none());
}

#[test]
fn environment_type_names() {
    assert_eq!(EnvironmentType::EcsProd.as_str(), "ecs-prod");
    assert_eq!(EnvironmentType::Ec2Prod.display_name(), "EC2 Prod");
    assert_eq!(EnvironmentType::Shared.to_string(), "Shared");
    assert!(EnvironmentType::EcsStage.is_ecs());
    assert!(!EnvironmentType::EcsStage.is_ec2());
    assert!(EnvironmentType::Shared.is_ec2());
    assert_eq!(EnvironmentType::all().len(), 4);
    assert_eq!(EnvironmentType::from_str("EC2-PROD"), None);
}

#[test]
fn services_by_category() {
    let stage = get_environment(EnvironmentType::EcsStage);
    assert_eq!(stage.services.len(), 21);
    assert_eq!(stage.get_services_by_category(ServiceCategory::BiService).len(), 3);
    assert_eq!(stage.get_services_by_category(ServiceCategory::Migration).len(), 5);
    let shared = get_environment(EnvironmentType::Shared);
    let infra = shared.get_services_by_category(ServiceCategory::Infrastructure);
    assert_eq!(infra.len(), 3);
    assert_eq!(infra[0].name, "infisical");
    assert!(shared.get_services_by_category(ServiceCategory::Core).is_empty());
    assert_eq!(ServiceCategory::McpTool.display_name(), "MCP Tools");
}

#[test]
fn categories_cover_every_service() {
    let categories = [
        ServiceCategory::Core,
        ServiceCategory::McpTool,
        ServiceCategory::BiService,
        ServiceCategory::Migration,
        ServiceCategory::Scheduled,
        ServiceCategory::Infrastructure,
    ];
    for env in get_all_environments() {
        let total: usize = categories
            .iter()
            .map(|c| env.get_services_by_category(*c).len())
            .sum();
        assert_eq!(total, env.services.len());
    }
}
