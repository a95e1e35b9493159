use optima_ops::github::{
    all_runs_url, default_deployment_services, dispatch_url, get_status_class, get_status_text,
    split_repo, workflow_runs_url, workflows_url, Actor, DeploymentStatus, RunInfo, WorkflowRun,
};
use optima_ops::error::OpsCLIError;

fn run(status: &str, conclusion: Option<&str>, title: Option<&str>) -> WorkflowRun {
    WorkflowRun {
        id: 42,
        name: "Deploy".to_string(),
        head_branch: "main".to_string(),
        head_sha: "abc".to_string(),
        status: status.to_string(),
        conclusion: conclusion.map(|c| c.to_string()),
        html_url: "https://github.com/o/r/actions/runs/42".to_string(),
        created_at: "2024-05-01T10:20:30Z".to_string(),
        updated_at: "2024-05-01T10:25:00Z".to_string(),
        run_started_at: None,
        actor: Actor { login: "octo".to_string(), avatar_url: String::new() },
        triggering_actor: None,
        event: "push".to_string(),
        display_title: title.map(|t| t.to_string()),
    }
}

#[test]
fn status_classes_and_texts() {
    assert_eq!(get_status_class("completed", Some("success")), "bg-green-100 text-green-800");
    assert_eq!(get_status_class("completed", Some("failure")), "bg-red-100 text-red-800");
    assert_eq!(get_status_class("in_progress", None), "bg-yellow-100 text-yellow-800");
    assert_eq!(get_status_class("queued", Some("x")), "bg-blue-100 text-blue-800");
    assert_eq!(get_status_class("completed", None), "bg-gray-100 text-gray-800");
    assert_eq!(get_status_text("completed", Some("skipped")), "跳过");
    assert_eq!(get_status_text("waiting", None), "等待中");
    assert_eq!(get_status_text("odd", None), "未知");
}

#[test]
fn request_urls() {
    assert_eq!(
        workflow_runs_url("Optima-Chat", "user-auth", "deploy-ecs.yml", 5),
        "https://api.github.com/repos/Optima-Chat/user-auth/actions/workflows/deploy-ecs.yml/runs?per_page=5"
    );
    assert_eq!(
        all_runs_url("o", "r", 100),
        "https://api.github.com/repos/o/r/actions/runs?per_page=100"
    );
    assert_eq!(workflows_url("o", "r"), "https://api.github.com/repos/o/r/actions/workflows");
    assert_eq!(
        dispatch_url("o", "r", "w.yml"),
        "https://api.github.com/repos/o/r/actions/workflows/w.yml/dispatches"
    );
}

#[test]
fn repo_split() {
    let (owner, name) = split_repo("Optima-Chat/user-auth").unwrap();
    assert_eq!(owner, "Optima-Chat");
    assert_eq!(name, "user-auth");
    match split_repo("a/b/c") {
        Err(OpsCLIError::Validation(m)) => assert_eq!(m, "Invalid repo format: a/b/c"),
        _ => panic!("expected a validation error"),
    }
    assert!(split_repo("plain").is_err());
}

#[test]
fn deployment_status_from_runs() {
    let services = default_deployment_services();
    assert_eq!(services.len(), 6);
    assert_eq!(services[5].repo, "Optima-Chat/optima-ai-shell");
    let inputs = services[0].default_inputs.clone().unwrap();
    assert_eq!(inputs, vec![("environment".to_string(), "stage".to_string())]);
    let status =
        DeploymentStatus::from_runs(services[0].clone(), vec![run("queued", None, None)]).unwrap();
    assert!(status.latest_run.is_some());
    assert_eq!(status.recent_runs.len(), 1);
    assert_eq!(
        status.workflow_url,
        "https://github.com/Optima-Chat/user-auth/actions/workflows/deploy-ecs.yml"
    );
    assert_eq!(status.repo_url, "https://github.com/Optima-Chat/user-auth");
    let empty = DeploymentStatus::from_runs(services[1].clone(), Vec::new()).unwrap();
    assert!(empty.latest_run.is_none());
}

#[test]
fn run_info_listing() {
    let info = RunInfo::from_run(run("completed", Some("success"), None));
    assert_eq!(info.created_date, "2024-05-01");
    assert_eq!(info.status_text, "成功");
    assert_eq!(info.status_class, "bg-green-100 text-green-800");
    assert_eq!(info.actor, "octo");
    assert_eq!(info.display_title, "Deploy");
    let titled = RunInfo::from_run(run("in_progress", None, Some("Release v2")));
    assert_eq!(titled.display_title, "Release v2");
    assert_eq!(titled.status_text, "运行中");
}
