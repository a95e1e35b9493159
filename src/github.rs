//! GitHub Actions: workflow run records, status badges, request URLs and the
//! deployable services.
use vstd::prelude::*;
use vstd::string::*;
use crate::error::OpsCLIError;
use crate::inventory::{lemma_split_nonempty, split_fields, split_on};
use crate::text::{decimal, decimal_of, str_eq};

verus! {

/// Base URL of the GitHub REST API.
pub open spec fn api_base() -> Seq<char> {
    "https://api.github.com"@
}

/// Workflow run status.
#[derive(Debug, Clone)]
pub struct WorkflowRun {
    pub id: i64,
    pub name: String,
    pub head_branch: String,
    pub head_sha: String,
    pub status: String,
    pub conclusion: Option<String>,
    pub html_url: String,
    pub created_at: String,
    pub updated_at: String,
    pub run_started_at: Option<String>,
    pub actor: Actor,
    pub triggering_actor: Option<Actor>,
    pub event: String,
    pub display_title: Option<String>,
}

#[derive(Debug, Clone)]
pub struct Actor {
    pub login: String,
    pub avatar_url: String,
}

/// Workflow info.
#[derive(Debug, Clone)]
pub struct Workflow {
    pub id: i64,
    pub name: String,
    pub path: String,
    pub state: String,
    pub html_url: String,
}

/// Workflow dispatch input definition.
#[derive(Debug, Clone)]
pub struct WorkflowInput {
    pub name: String,
    pub description: Option<String>,
    pub required: bool,
    pub default: Option<String>,
    pub input_type: Option<String>,
    pub options: Option<Vec<String>>,
}

/// Service deployment configuration. `default_inputs` holds the workflow
/// inputs sent with a dispatch, as name and value pairs.
#[derive(Debug, Clone)]
pub struct DeploymentService {
    pub name: String,
    pub display_name: String,
    pub repo: String,
    pub workflow_file: String,
    pub default_inputs: Option<Vec<(String, String)>>,
}

/// Deployment status summary for a service.
#[derive(Debug, Clone)]
pub struct DeploymentStatus {
    pub service: DeploymentService,
    pub latest_run: Option<WorkflowRun>,
    pub recent_runs: Vec<WorkflowRun>,
    pub workflow_url: String,
    pub repo_url: String,
}

/// The characters of an optional text.
pub open spec fn opt_chars(o: Option<&str>) -> Option<Seq<char>> {
    match o {
        Some(s) => Some(s@),
        None => None,
    }
}

/// Badge class for a run's status and conclusion.
pub open spec fn status_class_of(status: Seq<char>, conclusion: Option<Seq<char>>) -> Seq<char> {
    if status == "completed"@ && conclusion == Some("success"@) {
        "bg-green-100 text-green-800"@
    } else if status == "completed"@ && conclusion == Some("failure"@) {
        "bg-red-100 text-red-800"@
    } else if status == "completed"@ && conclusion == Some("cancelled"@) {
        "bg-gray-100 text-gray-800"@
    } else if status == "in_progress"@ {
        "bg-yellow-100 text-yellow-800"@
    } else if status == "queued"@ {
        "bg-blue-100 text-blue-800"@
    } else {
        "bg-gray-100 text-gray-800"@
    }
}

/// Display text for a run's status and conclusion.
pub open spec fn status_text_of(status: Seq<char>, conclusion: Option<Seq<char>>) -> Seq<char> {
    if status == "completed"@ && conclusion == Some("success"@) {
        "成功"@
    } else if status == "completed"@ && conclusion == Some("failure"@) {
        "失败"@
    } else if status == "completed"@ && conclusion == Some("cancelled"@) {
        "已取消"@
    } else if status == "completed"@ && conclusion == Some("skipped"@) {
        "跳过"@
    } else if status == "in_progress"@ {
        "运行中"@
    } else if status == "queued"@ {
        "排队中"@
    } else if status == "waiting"@ {
        "等待中"@
    } else {
        "未知"@
    }
}

/// Whether `o` holds exactly the text `s`.
fn opt_is(o: Option<&str>, s: &str) -> (r: bool)
    ensures
        r == (opt_chars(o) == Some(s@)),
{
    match o {
        Some(v) => str_eq(v, s),
        None => false,
    }
}

/// Get status badge class for workflow conclusion.
pub fn get_status_class(status: &str, conclusion: Option<&str>) -> (r: &'static str)
    ensures
        r@ == status_class_of(status@, opt_chars(conclusion)),
{
    let completed = str_eq(status, "completed");
    if completed && opt_is(conclusion, "success") {
        "bg-green-100 text-green-800"
    } else if completed && opt_is(conclusion, "failure") {
        "bg-red-100 text-red-800"
    } else if completed && opt_is(conclusion, "cancelled") {
        "bg-gray-100 text-gray-800"
    } else if str_eq(status, "in_progress") {
        "bg-yellow-100 text-yellow-800"
    } else if str_eq(status, "queued") {
        "bg-blue-100 text-blue-800"
    } else {
        "bg-gray-100 text-gray-800"
    }
}

/// Get status display text.
pub fn get_status_text(status: &str, conclusion: Option<&str>) -> (r: &'static str)
    ensures
        r@ == status_text_of(status@, opt_chars(conclusion)),
{
    let completed = str_eq(status, "completed");
    if completed && opt_is(conclusion, "success") {
        "成功"
    } else if completed && opt_is(conclusion, "failure") {
        "失败"
    } else if completed && opt_is(conclusion, "cancelled") {
        "已取消"
    } else if completed && opt_is(conclusion, "skipped") {
        "跳过"
    } else if str_eq(status, "in_progress") {
        "运行中"
    } else if str_eq(status, "queued") {
        "排队中"
    } else if str_eq(status, "waiting") {
        "等待中"
    } else {
        "未知"
    }
}

/// URL listing the runs of one workflow.
pub open spec fn workflow_runs_url_of(owner: Seq<char>, repo: Seq<char>, workflow_id: Seq<char>, per_page: u8) -> Seq<char> {
    api_base() + "/repos/"@ + owner + "/"@ + repo + "/actions/workflows/"@ + workflow_id
        + "/runs?per_page="@ + decimal_of(per_page as nat)
}

/// URL listing all runs of a repository.
pub open spec fn all_runs_url_of(owner: Seq<char>, repo: Seq<char>, per_page: u8) -> Seq<char> {
    api_base() + "/repos/"@ + owner + "/"@ + repo + "/actions/runs?per_page="@ + decimal_of(per_page as nat)
}

/// URL listing the workflows of a repository.
pub open spec fn workflows_url_of(owner: Seq<char>, repo: Seq<char>) -> Seq<char> {
    api_base() + "/repos/"@ + owner + "/"@ + repo + "/actions/workflows"@
}

/// URL that dispatches a workflow.
pub open spec fn dispatch_url_of(owner: Seq<char>, repo: Seq<char>, workflow_id: Seq<char>) -> Seq<char> {
    api_base() + "/repos/"@ + owner + "/"@ + repo + "/actions/workflows/"@ + workflow_id + "/dispatches"@
}

fn repo_prefix(owner: &str, repo: &str) -> (r: String)
    ensures
        r@ == api_base() + "/repos/"@ + owner@ + "/"@ + repo@,
{
    let mut r = String::from_str("https://api.github.com");
    r.append("/repos/");
    r.append(owner);
    r.append("/");
    r.append(repo);
    r
}

pub fn workflow_runs_url(owner: &str, repo: &str, workflow_id: &str, per_page: u8) -> (r: String)
    ensures
        r@ == workflow_runs_url_of(owner@, repo@, workflow_id@, per_page),
{
    let mut r = repo_prefix(owner, repo);
    r.append("/actions/workflows/");
    r.append(workflow_id);
    r.append("/runs?per_page=");
    let digits = decimal(per_page as u64);
    r.append(digits.as_str());
    r
}

pub fn all_runs_url(owner: &str, repo: &str, per_page: u8) -> (r: String)
    ensures
        r@ == all_runs_url_of(owner@, repo@, per_page),
{
    let mut r = repo_prefix(owner, repo);
    r.append("/actions/runs?per_page=");
    let digits = decimal(per_page as u64);
    r.append(digits.as_str());
    r
}

pub fn workflows_url(owner: &str, repo: &str) -> (r: String)
    ensures
        r@ == workflows_url_of(owner@, repo@),
{
    let mut r = repo_prefix(owner, repo);
    r.append("/actions/workflows");
    r
}

pub fn dispatch_url(owner: &str, repo: &str, workflow_id: &str) -> (r: String)
    ensures
        r@ == dispatch_url_of(owner@, repo@, workflow_id@),
{
    let mut r = repo_prefix(owner, repo);
    r.append("/actions/workflows/");
    r.append(workflow_id);
    r.append("/dispatches");
    r
}

/// Owner and name of a repository written `owner/name`: exactly two parts
/// separated by `/`; otherwise an error naming the repository.
pub fn split_repo(repo: &str) -> (r: Result<(String, String), OpsCLIError>)
    ensures
        split_on(repo@, '/').len() == 2 ==> (r matches Ok(p) && p.0@ == split_on(repo@, '/')[0]
            && p.1@ == split_on(repo@, '/')[1]),
        split_on(repo@, '/').len() != 2 ==> (r matches Err(OpsCLIError::Validation(m)) && m@
            == "Invalid repo format: "@ + repo@),
{
    let mut parts = split_fields(repo, '/');
    if parts.len() != 2 {
        let mut m = String::from_str("Invalid repo format: ");
        m.append(repo);
        return Err(OpsCLIError::Validation(m));
    }
    assert(parts.deep_view()[0] == parts@[0]@ && parts.deep_view()[1] == parts@[1]@);
    let name = parts.pop().unwrap();
    let owner = parts.pop().unwrap();
    Ok((owner, name))
}

/// Web page of a repository.
pub open spec fn repo_url_of(repo: Seq<char>) -> Seq<char> {
    "https://github.com/"@ + repo
}

/// Web page of a repository's workflow.
pub open spec fn workflow_page_of(repo: Seq<char>, workflow_file: Seq<char>) -> Seq<char> {
    "https://github.com/"@ + repo + "/actions/workflows/"@ + workflow_file
}

impl DeploymentStatus {
    /// The status of `service` given its recent runs, newest first; the
    /// latest run is present exactly when there are runs. Fails when the
    /// service's repository is not written `owner/name`.
    pub fn from_runs(service: DeploymentService, runs: Vec<WorkflowRun>) -> (r: Result<DeploymentStatus, OpsCLIError>)
        ensures
            split_on(service.repo@, '/').len() != 2 ==> r is Err,
            split_on(service.repo@, '/').len() == 2 ==> (r matches Ok(d) && d.service == service
                && d.recent_runs@ == runs@ && (d.latest_run is Some <==> runs@.len() > 0)
                && d.workflow_url@ == workflow_page_of(service.repo@, service.workflow_file@)
                && d.repo_url@ == repo_url_of(service.repo@)),
    {
        match split_repo(service.repo.as_str()) {
            Err(e) => return Err(e),
            Ok(_) => {},
        }
        let latest_run = if runs.len() > 0 {
            Some(runs[0].clone())
        } else {
            None
        };
        let mut workflow_url = String::from_str("https://github.com/");
        workflow_url.append(service.repo.as_str());
        workflow_url.append("/actions/workflows/");
        workflow_url.append(service.workflow_file.as_str());
        let mut repo_url = String::from_str("https://github.com/");
        repo_url.append(service.repo.as_str());
        Ok(DeploymentStatus { service, latest_run, recent_runs: runs, workflow_url, repo_url })
    }
}

/// The names of the services that can be deployed, in display order.
pub open spec fn deployment_names() -> Seq<Seq<char>> {
    seq![
        "user-auth"@,
        "mcp-host"@,
        "commerce-backend"@,
        "agentic-chat"@,
        "optima-bi"@,
        "optima-ai-shell"@,
    ]
}

/// A deployable service with the standard ECS workflow and the `stage`
/// environment as its default input.
fn stage_service(name: &str, display_name: &str, repo: &str) -> (r: DeploymentService)
    ensures
        r.name@ == name@,
        r.display_name@ == display_name@,
        r.repo@ == repo@,
        r.workflow_file@ == "deploy-ecs.yml"@,
        r.default_inputs matches Some(v) && v@.len() == 1 && v@[0].0@ == "environment"@ && v@[0].1@
            == "stage"@,
{
    let inputs = vec![(String::from_str("environment"), String::from_str("stage"))];
    DeploymentService {
        name: String::from_str(name),
        display_name: String::from_str(display_name),
        repo: String::from_str(repo),
        workflow_file: String::from_str("deploy-ecs.yml"),
        default_inputs: Some(inputs),
    }
}

/// Default deployment services configuration: each deploys with the ECS
/// workflow of its repository, to `stage` by default.
pub fn default_deployment_services() -> (r: Vec<DeploymentService>)
    ensures
        r@.len() == deployment_names().len(),
        forall|i: int| 0 <= i < r@.len() ==> (#[trigger] r@[i]).name@ == deployment_names()[i]
            && r@[i].repo@ == "Optima-Chat/"@ + deployment_names()[i] && r@[i].workflow_file@
            == "deploy-ecs.yml"@,
{
    let r = vec![
        stage_service("user-auth", "User Auth", "Optima-Chat/user-auth"),
        stage_service("mcp-host", "MCP Host", "Optima-Chat/mcp-host"),
        stage_service("commerce-backend", "Commerce Backend", "Optima-Chat/commerce-backend"),
        stage_service("agentic-chat", "Agentic Chat", "Optima-Chat/agentic-chat"),
        stage_service("optima-bi", "Optima BI", "Optima-Chat/optima-bi"),
        stage_service("optima-ai-shell", "AI Shell", "Optima-Chat/optima-ai-shell"),
    ];
    proof {
        reveal_strlit("Optima-Chat/");
        reveal_strlit("user-auth");
        reveal_strlit("Optima-Chat/user-auth");
        reveal_strlit("mcp-host");
        reveal_strlit("Optima-Chat/mcp-host");
        reveal_strlit("commerce-backend");
        reveal_strlit("Optima-Chat/commerce-backend");
        reveal_strlit("agentic-chat");
        reveal_strlit("Optima-Chat/agentic-chat");
        reveal_strlit("optima-bi");
        reveal_strlit("Optima-Chat/optima-bi");
        reveal_strlit("optima-ai-shell");
        reveal_strlit("Optima-Chat/optima-ai-shell");
        assert("Optima-Chat/user-auth"@ =~= "Optima-Chat/"@ + "user-auth"@);
        assert("Optima-Chat/mcp-host"@ =~= "Optima-Chat/"@ + "mcp-host"@);
        assert("Optima-Chat/commerce-backend"@ =~= "Optima-Chat/"@ + "commerce-backend"@);
        assert("Optima-Chat/agentic-chat"@ =~= "Optima-Chat/"@ + "agentic-chat"@);
        assert("Optima-Chat/optima-bi"@ =~= "Optima-Chat/"@ + "optima-bi"@);
        assert("Optima-Chat/optima-ai-shell"@ =~= "Optima-Chat/"@ + "optima-ai-shell"@);
    }
    r
}

/// The part of a timestamp before its first `T` (the date), or all of it.
pub open spec fn date_part_of(ts: Seq<char>) -> Seq<char> {
    split_on(ts, 'T')[0]
}

/// A workflow run as the dashboard lists it.
pub struct RunInfo {
    pub id: i64,
    pub status: String,
    pub status_text: String,
    pub status_class: String,
    pub conclusion: Option<String>,
    pub html_url: String,
    pub created_at: String,
    pub created_date: String,
    pub actor: String,
    pub event: String,
    pub display_title: String,
}

impl RunInfo {
    /// The listing entry of a run: its badge class and text, the date part of
    /// its creation time, its actor's login, and its display title (the run's
    /// name when it has none).
    pub fn from_run(run: WorkflowRun) -> (r: RunInfo)
        ensures
            r.id == run.id,
            r.status@ == run.status@,
            r.conclusion == run.conclusion,
            r.status_class@ == status_class_of(
                run.status@,
                match run.conclusion {
                    Some(c) => Some(c@),
                    None => None,
                },
            ),
            r.status_text@ == status_text_of(
                run.status@,
                match run.conclusion {
                    Some(c) => Some(c@),
                    None => None,
                },
            ),
            r.created_at@ == run.created_at@,
            r.created_date@ == date_part_of(run.created_at@),
            r.actor@ == run.actor.login@,
            r.html_url@ == run.html_url@,
            r.event@ == run.event@,
            r.display_title@ == match run.display_title {
                Some(t) => t@,
                None => run.name@,
            },
    {
        let conclusion: Option<&str> = match &run.conclusion {
            Some(c) => Some(c.as_str()),
            None => None,
        };
        let status_class = String::from_str(get_status_class(run.status.as_str(), conclusion));
        let status_text = String::from_str(get_status_text(run.status.as_str(), conclusion));
        let mut date_fields = split_fields(run.created_at.as_str(), 'T');
        proof {
            lemma_split_nonempty(run.created_at@, 'T', Seq::empty());
        }
        assert(date_fields.deep_view()[0] == date_fields@[0]@);
        let created_date = date_fields.swap_remove(0);
        let display_title = match run.display_title {
            Some(t) => t,
            None => run.name,
        };
        RunInfo {
            id: run.id,
            status: run.status,
            status_text,
            status_class,
            conclusion: run.conclusion,
            html_url: run.html_url,
            created_at: run.created_at,
            created_date,
            actor: run.actor.login,
            event: run.event,
            display_title,
        }
    }
}

} // verus!
