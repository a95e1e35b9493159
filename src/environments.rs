//! The environment catalogue: the four deployment environments of the
//! dashboard and the services that run in each.
use vstd::prelude::*;
use vstd::string::*;
use crate::text::str_eq;

verus! {

/// Environment type for the dashboard.
#[derive(Debug, Clone, Copy, PartialEq, Eq, Hash, Structural)]
pub enum EnvironmentType {
    Ec2Prod,
    EcsStage,
    EcsProd,
    Shared,
}

/// The identifier of an environment type.
pub open spec fn env_type_id(e: EnvironmentType) -> Seq<char> {
    match e {
        EnvironmentType::Ec2Prod => "ec2-prod"@,
        EnvironmentType::EcsStage => "ecs-stage"@,
        EnvironmentType::EcsProd => "ecs-prod"@,
        EnvironmentType::Shared => "shared"@,
    }
}

/// The display name of an environment type.
pub open spec fn env_type_display(e: EnvironmentType) -> Seq<char> {
    match e {
        EnvironmentType::Ec2Prod => "EC2 Prod"@,
        EnvironmentType::EcsStage => "ECS Stage"@,
        EnvironmentType::EcsProd => "ECS Prod"@,
        EnvironmentType::Shared => "Shared"@,
    }
}

/// The environment type an identifier names, matched exactly.
pub open spec fn env_type_of_id(s: Seq<char>) -> Option<EnvironmentType> {
    if s == "ec2-prod"@ {
        Some(EnvironmentType::Ec2Prod)
    } else if s == "ecs-stage"@ {
        Some(EnvironmentType::EcsStage)
    } else if s == "ecs-prod"@ {
        Some(EnvironmentType::EcsProd)
    } else if s == "shared"@ {
        Some(EnvironmentType::Shared)
    } else {
        None
    }
}

/// All environment types, in display order.
pub open spec fn all_env_types() -> Seq<EnvironmentType> {
    seq![
        EnvironmentType::Ec2Prod,
        EnvironmentType::EcsStage,
        EnvironmentType::EcsProd,
        EnvironmentType::Shared,
    ]
}

impl EnvironmentType {
    pub fn as_str(&self) -> (r: &'static str)
        ensures
            r@ == env_type_id(*self),
    {
        match self {
            EnvironmentType::Ec2Prod => "ec2-prod",
            EnvironmentType::EcsStage => "ecs-stage",
            EnvironmentType::EcsProd => "ecs-prod",
            EnvironmentType::Shared => "shared",
        }
    }

    pub fn display_name(&self) -> (r: &'static str)
        ensures
            r@ == env_type_display(*self),
    {
        match self {
            EnvironmentType::Ec2Prod => "EC2 Prod",
            EnvironmentType::EcsStage => "ECS Stage",
            EnvironmentType::EcsProd => "ECS Prod",
            EnvironmentType::Shared => "Shared",
        }
    }

    /// The text shown for the environment type: its display name.
    pub fn to_string(&self) -> (r: String)
        ensures
            r@ == env_type_display(*self),
    {
        String::from_str(self.display_name())
    }

    pub fn from_str(s: &str) -> (r: Option<EnvironmentType>)
        ensures
            r == env_type_of_id(s@),
    {
        if str_eq(s, "ec2-prod") {
            Some(EnvironmentType::Ec2Prod)
        } else if str_eq(s, "ecs-stage") {
            Some(EnvironmentType::EcsStage)
        } else if str_eq(s, "ecs-prod") {
            Some(EnvironmentType::EcsProd)
        } else if str_eq(s, "shared") {
            Some(EnvironmentType::Shared)
        } else {
            None
        }
    }

    pub fn all() -> (r: Vec<EnvironmentType>)
        ensures
            r@ == all_env_types(),
    {
        let r = vec![
            EnvironmentType::Ec2Prod,
            EnvironmentType::EcsStage,
            EnvironmentType::EcsProd,
            EnvironmentType::Shared,
        ];
        assert(r@ =~= all_env_types());
        r
    }

    pub fn is_ecs(&self) -> (r: bool)
        ensures
            r == (*self == EnvironmentType::EcsStage || *self == EnvironmentType::EcsProd),
    {
        match self {
            EnvironmentType::EcsStage | EnvironmentType::EcsProd => true,
            _ => false,
        }
    }

    pub fn is_ec2(&self) -> (r: bool)
        ensures
            r == (*self == EnvironmentType::Ec2Prod || *self == EnvironmentType::Shared),
    {
        match self {
            EnvironmentType::Ec2Prod | EnvironmentType::Shared => true,
            _ => false,
        }
    }
}

/// Service category within an environment.
#[derive(Debug, Clone, Copy, PartialEq, Eq, Structural)]
pub enum ServiceCategory {
    Core,
    McpTool,
    BiService,
    Migration,
    Scheduled,
    Infrastructure,
}

/// The display name of a service category.
pub open spec fn category_display(c: ServiceCategory) -> Seq<char> {
    match c {
        ServiceCategory::Core => "Core Services"@,
        ServiceCategory::McpTool => "MCP Tools"@,
        ServiceCategory::BiService => "BI Services"@,
        ServiceCategory::Migration => "Migration Tasks"@,
        ServiceCategory::Scheduled => "Scheduled Tasks"@,
        ServiceCategory::Infrastructure => "Infrastructure"@,
    }
}

impl ServiceCategory {
    pub fn display_name(&self) -> (r: &'static str)
        ensures
            r@ == category_display(*self),
    {
        match self {
            ServiceCategory::Core => "Core Services",
            ServiceCategory::McpTool => "MCP Tools",
            ServiceCategory::BiService => "BI Services",
            ServiceCategory::Migration => "Migration Tasks",
            ServiceCategory::Scheduled => "Scheduled Tasks",
            ServiceCategory::Infrastructure => "Infrastructure",
        }
    }
}

/// Service definition.
#[derive(Debug, Clone)]
pub struct ServiceDef {
    pub name: &'static str,
    pub display_name: &'static str,
    pub category: ServiceCategory,
    pub port: Option<u16>,
    pub container_name: Option<&'static str>,
    pub github_repo: Option<&'static str>,
    pub domain: Option<&'static str>,
}

/// Environment configuration.
#[derive(Debug, Clone)]
pub struct EnvironmentConfig {
    pub env_type: EnvironmentType,
    pub ec2_host: Option<&'static str>,
    pub cluster_name: Option<&'static str>,
    pub domain_suffix: &'static str,
    pub services: Vec<ServiceDef>,
}

/// The characters of an optional text.
pub open spec fn opt_view(o: Option<&str>) -> Option<Seq<char>> {
    match o {
        Some(s) => Some(s@),
        None => None,
    }
}

/// The names of a list of services.
pub open spec fn names_of(v: Seq<ServiceDef>) -> Seq<Seq<char>> {
    v.map_values(|s: ServiceDef| s.name@)
}

/// The categories of a list of services.
pub open spec fn categories_of(v: Seq<ServiceDef>) -> Seq<ServiceCategory> {
    v.map_values(|s: ServiceDef| s.category)
}

/// Dereferences a sequence of borrowed service definitions.
pub open spec fn defs_of(v: Seq<&ServiceDef>) -> Seq<ServiceDef> {
    v.map_values(|s: &ServiceDef| *s)
}

/// EC2 host, cluster name and domain suffix of each environment.
pub open spec fn env_header(e: EnvironmentType) -> (Option<Seq<char>>, Option<Seq<char>>, Seq<char>) {
    match e {
        EnvironmentType::Ec2Prod => (Some("ec2-prod.optima.shop"@), None, ".optima.shop"@),
        EnvironmentType::EcsStage => (None, Some("optima-stage-cluster"@), ".stage.optima.onl"@),
        EnvironmentType::EcsProd => (None, Some("optima-prod-cluster"@), ".optima.onl"@),
        EnvironmentType::Shared => (Some("shared.optima.onl"@), None, ".optima.onl"@),
    }
}

/// The names of the services of each environment, in catalogue order.
pub open spec fn service_names(e: EnvironmentType) -> Seq<Seq<char>> {
    match e {
        EnvironmentType::Ec2Prod => seq![
            "user-auth"@,
            "user-auth-admin"@,
            "commerce-backend"@,
            "mcp-host"@,
            "agentic-chat"@,
            "comfy-mcp"@,
            "fetch-mcp"@,
            "research-mcp"@,
            "shopify-mcp"@,
            "commerce-mcp"@,
            "ads-mcp"@,
            "chart-mcp"@,
        ],
        EnvironmentType::EcsStage => seq![
            "user-auth"@,
            "user-auth-admin"@,
            "commerce-backend"@,
            "mcp-host"@,
            "agentic-chat"@,
            "comfy-mcp"@,
            "fetch-mcp"@,
            "research-mcp"@,
            "shopify-mcp"@,
            "chart-mcp"@,
            "commerce-mcp"@,
            "ads-mcp"@,
            "bi-backend"@,
            "bi-dashboard"@,
            "bi-mcp"@,
            "user-auth-migration"@,
            "mcp-host-migration"@,
            "agentic-chat-migration"@,
            "commerce-backend-migration"@,
            "ads-mcp-migration"@,
            "ads-billing-checker"@,
        ],
        EnvironmentType::EcsProd => seq![
            "user-auth"@,
            "user-auth-admin"@,
            "commerce-backend"@,
            "mcp-host"@,
            "agentic-chat"@,
            "comfy-mcp"@,
            "fetch-mcp"@,
            "research-mcp"@,
            "user-auth-migration"@,
            "mcp-host-migration"@,
        ],
        EnvironmentType::Shared => seq!["infisical"@, "buildkit"@, "dev-machine"@],
    }
}

/// The categories of the services of each environment, in catalogue order.
pub open spec fn service_categories(e: EnvironmentType) -> Seq<ServiceCategory> {
    match e {
        EnvironmentType::Ec2Prod => seq![
            ServiceCategory::Core,
            ServiceCategory::Core,
            ServiceCategory::Core,
            ServiceCategory::Core,
            ServiceCategory::Core,
            ServiceCategory::McpTool,
            ServiceCategory::McpTool,
            ServiceCategory::McpTool,
            ServiceCategory::McpTool,
            ServiceCategory::McpTool,
            ServiceCategory::McpTool,
            ServiceCategory::McpTool,
        ],
        EnvironmentType::EcsStage => seq![
            ServiceCategory::Core,
            ServiceCategory::Core,
            ServiceCategory::Core,
            ServiceCategory::Core,
            ServiceCategory::Core,
            ServiceCategory::McpTool,
            ServiceCategory::McpTool,
            ServiceCategory::McpTool,
            ServiceCategory::McpTool,
            ServiceCategory::McpTool,
            ServiceCategory::McpTool,
            ServiceCategory::McpTool,
            ServiceCategory::BiService,
            ServiceCategory::BiService,
            ServiceCategory::BiService,
            ServiceCategory::Migration,
            ServiceCategory::Migration,
            ServiceCategory::Migration,
            ServiceCategory::Migration,
            ServiceCategory::Migration,
            ServiceCategory::Scheduled,
        ],
        EnvironmentType::EcsProd => seq![
            ServiceCategory::Core,
            ServiceCategory::Core,
            ServiceCategory::Core,
            ServiceCategory::Core,
            ServiceCategory::Core,
            ServiceCategory::McpTool,
            ServiceCategory::McpTool,
            ServiceCategory::McpTool,
            ServiceCategory::Migration,
            ServiceCategory::Migration,
        ],
        EnvironmentType::Shared => seq![
            ServiceCategory::Infrastructure,
            ServiceCategory::Infrastructure,
            ServiceCategory::Infrastructure,
        ],
    }
}

/// `c` is the catalogue entry of environment `e`: its type, hosts, suffix,
/// and its services' names and categories in order.
pub open spec fn describes(c: EnvironmentConfig, e: EnvironmentType) -> bool {
    &&& c.env_type == e
    &&& (opt_view(c.ec2_host), opt_view(c.cluster_name), c.domain_suffix@) == env_header(e)
    &&& names_of(c.services@) == service_names(e)
    &&& categories_of(c.services@) == service_categories(e)
}

proof fn lemma_defs_push(v: Seq<&ServiceDef>, x: &ServiceDef)
    ensures
        defs_of(v.push(x)) == defs_of(v).push(*x),
{
    assert(defs_of(v.push(x)) =~= defs_of(v).push(*x));
}

impl EnvironmentConfig {
    /// The services of one category, in catalogue order.
    pub fn get_services_by_category(&self, category: ServiceCategory) -> (r: Vec<&ServiceDef>)
        ensures
            defs_of(r@) == self.services@.filter(|s: ServiceDef| s.category == category),
    {
        let mut r: Vec<&ServiceDef> = Vec::new();
        let mut i: usize = 0;
        while i < self.services.len()
            invariant
                0 <= i <= self.services@.len(),
                defs_of(r@) == self.services@.subrange(0, i as int).filter(
                    |s: ServiceDef| s.category == category,
                ),
            decreases self.services@.len() - i,
        {
            let ghost before = r@;
            assert(self.services@.subrange(0, i + 1).drop_last() =~= self.services@.subrange(0, i as int));
            proof {
                reveal(Seq::filter);
            }
            if self.services[i].category == category {
                r.push(&self.services[i]);
                proof {
                    lemma_defs_push(before, &self.services@[i as int]);
                }
            }
            i += 1;
        }
        assert(self.services@.subrange(0, self.services@.len() as int) =~= self.services@);
        r
    }
}

/// Number of services of category `c` in `v`.
pub open spec fn count_in(v: Seq<ServiceDef>, c: ServiceCategory) -> nat {
    v.filter(|s: ServiceDef| s.category == c).len()
}

/// The category lists partition the services: the numbers of services of
/// the six categories add up to the number of services.
pub proof fn lemma_categories_partition(v: Seq<ServiceDef>)
    ensures
        count_in(v, ServiceCategory::Core) + count_in(v, ServiceCategory::McpTool) + count_in(
            v,
            ServiceCategory::BiService,
        ) + count_in(v, ServiceCategory::Migration) + count_in(v, ServiceCategory::Scheduled)
            + count_in(v, ServiceCategory::Infrastructure) == v.len(),
    decreases v.len(),
{
    reveal(Seq::filter);
    if v.len() > 0 {
        lemma_categories_partition(v.drop_last());
    }
}

/// Get all environment configurations.
pub fn get_all_environments() -> (r: Vec<EnvironmentConfig>)
    ensures
        r@.len() == 4,
        forall|i: int| 0 <= i < 4 ==> describes(#[trigger] r@[i], all_env_types()[i]),
{
    vec![get_ec2_prod_config(), get_ecs_stage_config(), get_ecs_prod_config(), get_shared_config()]
}

/// Get a specific environment configuration.
pub fn get_environment(env_type: EnvironmentType) -> (r: EnvironmentConfig)
    ensures
        describes(r, env_type),
{
    match env_type {
        EnvironmentType::Ec2Prod => get_ec2_prod_config(),
        EnvironmentType::EcsStage => get_ecs_stage_config(),
        EnvironmentType::EcsProd => get_ecs_prod_config(),
        EnvironmentType::Shared => get_shared_config(),
    }
}

pub fn get_ec2_prod_config() -> (r: EnvironmentConfig)
    ensures
        describes(r, EnvironmentType::Ec2Prod),
{
    let services = vec![
        ServiceDef {
            name: "user-auth",
            display_name: "User Auth",
            category: ServiceCategory::Core,
            port: Some(8292),
            container_name: Some("optima-user-auth-prod"),
            github_repo: Some("Optima-Chat/user-auth"),
            domain: Some("auth.optima.shop"),
        },
        ServiceDef {
            name: "user-auth-admin",
            display_name: "Auth Admin",
            category: ServiceCategory::Core,
            port: Some(8291),
            container_name: Some("optima-user-auth-admin-prod"),
            github_repo: Some("Optima-Chat/user-auth"),
            domain: Some("portal.admin.optima.shop"),
        },
        ServiceDef {
            name: "commerce-backend",
            display_name: "Commerce",
            category: ServiceCategory::Core,
            port: Some(8293),
            container_name: Some("optima-commerce-backend-prod"),
            github_repo: Some("Optima-Chat/commerce-backend"),
            domain: Some("api.optima.shop"),
        },
        ServiceDef {
            name: "mcp-host",
            display_name: "MCP Host",
            category: ServiceCategory::Core,
            port: Some(8294),
            container_name: Some("optima-mcp-host-prod"),
            github_repo: Some("Optima-Chat/mcp-host"),
            domain: Some("mcp.optima.shop"),
        },
        ServiceDef {
            name: "agentic-chat",
            display_name: "Agentic Chat",
            category: ServiceCategory::Core,
            port: Some(8296),
            container_name: Some("optima-agentic-chat-prod"),
            github_repo: Some("Optima-Chat/agentic-chat"),
            domain: Some("ai.optima.shop"),
        },
        ServiceDef {
            name: "comfy-mcp",
            display_name: "Comfy MCP",
            category: ServiceCategory::McpTool,
            port: Some(8261),
            container_name: Some("optima-comfy-mcp-prod"),
            github_repo: Some("Optima-Chat/comfy-mcp"),
            domain: Some("mcp-comfy.optima.shop"),
        },
        ServiceDef {
            name: "fetch-mcp",
            display_name: "Fetch MCP",
            category: ServiceCategory::McpTool,
            port: Some(8250),
            container_name: Some("optima-fetch-mcp-prod"),
            github_repo: Some("Optima-Chat/fetch-mcp"),
            domain: Some("mcp-fetch.optima.shop"),
        },
        ServiceDef {
            name: "research-mcp",
            display_name: "Research MCP",
            category: ServiceCategory::McpTool,
            port: Some(8220),
            container_name: Some("optima-perplexity-mcp-prod"),
            github_repo: Some("Optima-Chat/perplexity-mcp"),
            domain: Some("mcp-research.optima.shop"),
        },
        ServiceDef {
            name: "shopify-mcp",
            display_name: "Shopify MCP",
            category: ServiceCategory::McpTool,
            port: Some(8210),
            container_name: Some("optima-shopify-mcp-prod"),
            github_repo: Some("Optima-Chat/shopify-mcp"),
            domain: Some("mcp-shopify.optima.shop"),
        },
        ServiceDef {
            name: "commerce-mcp",
            display_name: "Commerce MCP",
            category: ServiceCategory::McpTool,
            port: Some(8270),
            container_name: Some("optima-commerce-mcp-prod"),
            github_repo: Some("Optima-Chat/commerce-mcp"),
            domain: Some("mcp-commerce.optima.shop"),
        },
        ServiceDef {
            name: "ads-mcp",
            display_name: "Ads MCP",
            category: ServiceCategory::McpTool,
            port: Some(8240),
            container_name: Some("optima-google-ads-mcp-prod"),
            github_repo: Some("Optima-Chat/google-ads-mcp"),
            domain: Some("mcp-ads.optima.shop"),
        },
        ServiceDef {
            name: "chart-mcp",
            display_name: "Chart MCP",
            category: ServiceCategory::McpTool,
            port: Some(8230),
            container_name: Some("optima-chart-mcp-prod"),
            github_repo: Some("Optima-Chat/chart-mcp"),
            domain: Some("mcp-chart.optima.shop"),
        },
    ];
    assert(names_of(services@) =~= service_names(EnvironmentType::Ec2Prod));
    assert(categories_of(services@) =~= service_categories(EnvironmentType::Ec2Prod));
    EnvironmentConfig {
        env_type: EnvironmentType::Ec2Prod,
        ec2_host: Some("ec2-prod.optima.shop"),
        cluster_name: None,
        domain_suffix: ".optima.shop",
        services,
    }
}

pub fn get_ecs_stage_config() -> (r: EnvironmentConfig)
    ensures
        describes(r, EnvironmentType::EcsStage),
{
    let services = vec![
        ServiceDef {
            name: "user-auth",
            display_name: "User Auth",
            category: ServiceCategory::Core,
            port: Some(8000),
            container_name: None,
            github_repo: Some("Optima-Chat/user-auth"),
            domain: Some("auth.stage.optima.onl"),
        },
        ServiceDef {
            name: "user-auth-admin",
            display_name: "Auth Admin",
            category: ServiceCategory::Core,
            port: Some(3000),
            container_name: None,
            github_repo: Some("Optima-Chat/user-auth"),
            domain: Some("portal.admin.stage.optima.onl"),
        },
        ServiceDef {
            name: "commerce-backend",
            display_name: "Commerce",
            category: ServiceCategory::Core,
            port: Some(8200),
            container_name: None,
            github_repo: Some("Optima-Chat/commerce-backend"),
            domain: Some("api.stage.optima.onl"),
        },
        ServiceDef {
            name: "mcp-host",
            display_name: "MCP Host",
            category: ServiceCategory::Core,
            port: Some(8300),
            container_name: None,
            github_repo: Some("Optima-Chat/mcp-host"),
            domain: Some("host.mcp.stage.optima.onl"),
        },
        ServiceDef {
            name: "agentic-chat",
            display_name: "Agentic Chat",
            category: ServiceCategory::Core,
            port: Some(3000),
            container_name: None,
            github_repo: Some("Optima-Chat/agentic-chat"),
            domain: Some("ai.stage.optima.onl"),
        },
        ServiceDef {
            name: "comfy-mcp",
            display_name: "Comfy MCP",
            category: ServiceCategory::McpTool,
            port: Some(8000),
            container_name: None,
            github_repo: Some("Optima-Chat/comfy-mcp"),
            domain: Some("comfy.mcp.stage.optima.onl"),
        },
        ServiceDef {
            name: "fetch-mcp",
            display_name: "Fetch MCP",
            category: ServiceCategory::McpTool,
            port: Some(8000),
            container_name: None,
            github_repo: Some("Optima-Chat/fetch-mcp"),
            domain: Some("fetch.mcp.stage.optima.onl"),
        },
        ServiceDef {
            name: "research-mcp",
            display_name: "Research MCP",
            category: ServiceCategory::McpTool,
            port: Some(8000),
            container_name: None,
            github_repo: Some("Optima-Chat/perplexity-mcp"),
            domain: Some("research.mcp.stage.optima.onl"),
        },
        ServiceDef {
            name: "shopify-mcp",
            display_name: "Shopify MCP",
            category: ServiceCategory::McpTool,
            port: Some(8000),
            container_name: None,
            github_repo: Some("Optima-Chat/shopify-mcp"),
            domain: Some("shopify.mcp.stage.optima.onl"),
        },
        ServiceDef {
            name: "chart-mcp",
            display_name: "Chart MCP",
            category: ServiceCategory::McpTool,
            port: Some(8000),
            container_name: None,
            github_repo: Some("Optima-Chat/chart-mcp"),
            domain: Some("chart.mcp.stage.optima.onl"),
        },
        ServiceDef {
            name: "commerce-mcp",
            display_name: "Commerce MCP",
            category: ServiceCategory::McpTool,
            port: Some(8000),
            container_name: None,
            github_repo: Some("Optima-Chat/commerce-mcp"),
            domain: Some("commerce.mcp.stage.optima.onl"),
        },
        ServiceDef {
            name: "ads-mcp",
            display_name: "Ads MCP",
            category: ServiceCategory::McpTool,
            port: Some(8000),
            container_name: None,
            github_repo: Some("Optima-Chat/google-ads-mcp"),
            domain: Some("ads.mcp.stage.optima.onl"),
        },
        ServiceDef {
            name: "bi-backend",
            display_name: "BI Backend",
            category: ServiceCategory::BiService,
            port: Some(8000),
            container_name: None,
            github_repo: Some("Optima-Chat/optima-bi"),
            domain: Some("bi.stage.optima.onl"),
        },
        ServiceDef {
            name: "bi-dashboard",
            display_name: "BI Dashboard",
            category: ServiceCategory::BiService,
            port: Some(3000),
            container_name: None,
            github_repo: Some("Optima-Chat/optima-bi"),
            domain: Some("dashboard.bi.stage.optima.onl"),
        },
        ServiceDef {
            name: "bi-mcp",
            display_name: "BI MCP",
            category: ServiceCategory::BiService,
            port: Some(8000),
            container_name: None,
            github_repo: Some("Optima-Chat/optima-bi"),
            domain: Some("mcp.bi.stage.optima.onl"),
        },
        ServiceDef {
            name: "user-auth-migration",
            display_name: "User Auth Migration",
            category: ServiceCategory::Migration,
            port: None,
            container_name: None,
            github_repo: Some("Optima-Chat/user-auth"),
            domain: None,
        },
        ServiceDef {
            name: "mcp-host-migration",
            display_name: "MCP Host Migration",
            category: ServiceCategory::Migration,
            port: None,
            container_name: None,
            github_repo: Some("Optima-Chat/mcp-host"),
            domain: None,
        },
        ServiceDef {
            name: "agentic-chat-migration",
            display_name: "Agentic Chat Migration",
            category: ServiceCategory::Migration,
            port: None,
            container_name: None,
            github_repo: Some("Optima-Chat/agentic-chat"),
            domain: None,
        },
        ServiceDef {
            name: "commerce-backend-migration",
            display_name: "Commerce Migration",
            category: ServiceCategory::Migration,
            port: None,
            container_name: None,
            github_repo: Some("Optima-Chat/commerce-backend"),
            domain: None,
        },
        ServiceDef {
            name: "ads-mcp-migration",
            display_name: "Ads MCP Migration",
            category: ServiceCategory::Migration,
            port: None,
            container_name: None,
            github_repo: Some("Optima-Chat/google-ads-mcp"),
            domain: None,
        },
        ServiceDef {
            name: "ads-billing-checker",
            display_name: "Ads Billing Checker",
            category: ServiceCategory::Scheduled,
            port: None,
            container_name: None,
            github_repo: Some("Optima-Chat/google-ads-mcp"),
            domain: None,
        },
    ];
    assert(names_of(services@) =~= service_names(EnvironmentType::EcsStage));
    assert(categories_of(services@) =~= service_categories(EnvironmentType::EcsStage));
    EnvironmentConfig {
        env_type: EnvironmentType::EcsStage,
        ec2_host: None,
        cluster_name: Some("optima-stage-cluster"),
        domain_suffix: ".stage.optima.onl",
        services,
    }
}

pub fn get_ecs_prod_config() -> (r: EnvironmentConfig)
    ensures
        describes(r, EnvironmentType::EcsProd),
{
    let services = vec![
        ServiceDef {
            name: "user-auth",
            display_name: "User Auth",
            category: ServiceCategory::Core,
            port: Some(8000),
            container_name: None,
            github_repo: Some("Optima-Chat/user-auth"),
            domain: Some("auth.optima.onl"),
        },
        ServiceDef {
            name: "user-auth-admin",
            display_name: "Auth Admin",
            category: ServiceCategory::Core,
            port: Some(3000),
            container_name: None,
            github_repo: Some("Optima-Chat/user-auth"),
            domain: Some("portal.admin.optima.onl"),
        },
        ServiceDef {
            name: "commerce-backend",
            display_name: "Commerce",
            category: ServiceCategory::Core,
            port: Some(8200),
            container_name: None,
            github_repo: Some("Optima-Chat/commerce-backend"),
            domain: Some("api.optima.onl"),
        },
        ServiceDef {
            name: "mcp-host",
            display_name: "MCP Host",
            category: ServiceCategory::Core,
            port: Some(8300),
            container_name: None,
            github_repo: Some("Optima-Chat/mcp-host"),
            domain: Some("host.mcp.optima.onl"),
        },
        ServiceDef {
            name: "agentic-chat",
            display_name: "Agentic Chat",
            category: ServiceCategory::Core,
            port: Some(3000),
            container_name: None,
            github_repo: Some("Optima-Chat/agentic-chat"),
            domain: Some("ai.optima.onl"),
        },
        ServiceDef {
            name: "comfy-mcp",
            display_name: "Comfy MCP",
            category: ServiceCategory::McpTool,
            port: Some(8000),
            container_name: None,
            github_repo: Some("Optima-Chat/comfy-mcp"),
            domain: Some("comfy.mcp.optima.onl"),
        },
        ServiceDef {
            name: "fetch-mcp",
            display_name: "Fetch MCP",
            category: ServiceCategory::McpTool,
            port: Some(8000),
            container_name: None,
            github_repo: Some("Optima-Chat/fetch-mcp"),
            domain: Some("fetch.mcp.optima.onl"),
        },
        ServiceDef {
            name: "research-mcp",
            display_name: "Research MCP",
            category: ServiceCategory::McpTool,
            port: Some(8000),
            container_name: None,
            github_repo: Some("Optima-Chat/perplexity-mcp"),
            domain: Some("research.mcp.optima.onl"),
        },
        ServiceDef {
            name: "user-auth-migration",
            display_name: "User Auth Migration",
            category: ServiceCategory::Migration,
            port: None,
            container_name: None,
            github_repo: Some("Optima-Chat/user-auth"),
            domain: None,
        },
        ServiceDef {
            name: "mcp-host-migration",
            display_name: "MCP Host Migration",
            category: ServiceCategory::Migration,
            port: None,
            container_name: None,
            github_repo: Some("Optima-Chat/mcp-host"),
            domain: None,
        },
    ];
    assert(names_of(services@) =~= service_names(EnvironmentType::EcsProd));
    assert(categories_of(services@) =~= service_categories(EnvironmentType::EcsProd));
    EnvironmentConfig {
        env_type: EnvironmentType::EcsProd,
        ec2_host: None,
        cluster_name: Some("optima-prod-cluster"),
        domain_suffix: ".optima.onl",
        services,
    }
}

pub fn get_shared_config() -> (r: EnvironmentConfig)
    ensures
        describes(r, EnvironmentType::Shared),
{
    let services = vec![
        ServiceDef {
            name: "infisical",
            display_name: "Infisical",
            category: ServiceCategory::Infrastructure,
            port: Some(5080),
            container_name: Some("infisical"),
            github_repo: None,
            domain: Some("secrets.optima.shop"),
        },
        ServiceDef {
            name: "buildkit",
            display_name: "BuildKit",
            category: ServiceCategory::Infrastructure,
            port: None,
            container_name: Some("buildkitd"),
            github_repo: None,
            domain: None,
        },
        ServiceDef {
            name: "dev-machine",
            display_name: "Dev Machine",
            category: ServiceCategory::Infrastructure,
            port: None,
            container_name: None,
            github_repo: None,
            domain: Some("dev.optima.onl"),
        },
    ];
    assert(names_of(services@) =~= service_names(EnvironmentType::Shared));
    assert(categories_of(services@) =~= service_categories(EnvironmentType::Shared));
    EnvironmentConfig {
        env_type: EnvironmentType::Shared,
        ec2_host: Some("shared.optima.onl"),
        cluster_name: None,
        domain_suffix: ".optima.onl",
        services,
    }
}

} // verus!
