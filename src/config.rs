//! Configuration: deployment environments, EC2 connection details, AWS
//! settings and the service roster.
use vstd::prelude::*;
use vstd::string::*;
use crate::text::{chars_of, contains_seq, is_infix, lower_of, lowercase, starts_with_seq, str_eq};

verus! {

/// Environment type for deployment targets.
#[derive(Debug, Clone, Copy, PartialEq, Eq, Structural)]
pub enum Environment {
    Production,
    Stage,
    Shared,
    Development,
}

/// The canonical name of an environment.
pub open spec fn environment_name(e: Environment) -> Seq<char> {
    match e {
        Environment::Production => "production"@,
        Environment::Stage => "stage"@,
        Environment::Shared => "shared"@,
        Environment::Development => "development"@,
    }
}

/// The environment a lower-cased name stands for, aliases included.
pub open spec fn environment_of_lower(l: Seq<char>) -> Option<Environment> {
    if l == "production"@ || l == "prod"@ {
        Some(Environment::Production)
    } else if l == "stage"@ || l == "staging"@ {
        Some(Environment::Stage)
    } else if l == "shared"@ {
        Some(Environment::Shared)
    } else if l == "development"@ || l == "dev"@ {
        Some(Environment::Development)
    } else {
        None
    }
}

/// Environment-specific information.
pub struct EnvInfo {
    pub ec2_host: &'static str,
    pub rds_host: &'static str,
    pub docker_network: &'static str,
}

/// Host names and network of each environment: EC2 host, RDS host (empty
/// where there is none) and Docker network.
pub open spec fn env_info_of(e: Environment) -> (Seq<char>, Seq<char>, Seq<char>) {
    match e {
        Environment::Production => (
            "ec2-prod.optima.shop"@,
            "optima-prod-postgres.ctg866o0ehac.ap-southeast-1.rds.amazonaws.com"@,
            "optima-prod"@,
        ),
        Environment::Stage => (
            "ec2-stage.optima.shop"@,
            "optima-stage-postgres.ctg866o0ehac.ap-southeast-1.rds.amazonaws.com"@,
            "optima-stage"@,
        ),
        Environment::Shared => ("shared.optima.onl"@, ""@, "optima-shared"@),
        Environment::Development => (
            "ec2-dev.optima.shop"@,
            "optima-dev-postgres.ctg866o0ehac.ap-southeast-1.rds.amazonaws.com"@,
            "optima-dev"@,
        ),
    }
}

impl Environment {
    pub fn as_str(&self) -> (r: &'static str)
        ensures
            r@ == environment_name(*self),
    {
        match self {
            Environment::Production => "production",
            Environment::Stage => "stage",
            Environment::Shared => "shared",
            Environment::Development => "development",
        }
    }

    /// The environment for a name given in lower case.
    pub fn from_lower(l: &str) -> (r: Option<Environment>)
        ensures
            r == environment_of_lower(l@),
    {
        if str_eq(l, "production") || str_eq(l, "prod") {
            Some(Environment::Production)
        } else if str_eq(l, "stage") || str_eq(l, "staging") {
            Some(Environment::Stage)
        } else if str_eq(l, "shared") {
            Some(Environment::Shared)
        } else if str_eq(l, "development") || str_eq(l, "dev") {
            Some(Environment::Development)
        } else {
            None
        }
    }

    /// The environment a name stands for, without regard to case.
    pub fn from_str(s: &str) -> (r: Option<Environment>)
        ensures
            r == environment_of_lower(lower_of(s@)),
    {
        let l = lowercase(s);
        Environment::from_lower(l.as_str())
    }

    /// The text shown for the environment: its canonical name.
    pub fn to_string(&self) -> (r: String)
        ensures
            r@ == environment_name(*self),
    {
        String::from_str(self.as_str())
    }

    pub fn get_env_info(&self) -> (r: EnvInfo)
        ensures
            (r.ec2_host@, r.rds_host@, r.docker_network@) == env_info_of(*self),
    {
        match self {
            Environment::Production => EnvInfo {
                ec2_host: "ec2-prod.optima.shop",
                rds_host: "optima-prod-postgres.ctg866o0ehac.ap-southeast-1.rds.amazonaws.com",
                docker_network: "optima-prod",
            },
            Environment::Stage => EnvInfo {
                ec2_host: "ec2-stage.optima.shop",
                rds_host: "optima-stage-postgres.ctg866o0ehac.ap-southeast-1.rds.amazonaws.com",
                docker_network: "optima-stage",
            },
            Environment::Shared => EnvInfo {
                ec2_host: "shared.optima.onl",
                rds_host: "",
                docker_network: "optima-shared",
            },
            Environment::Development => EnvInfo {
                ec2_host: "ec2-dev.optima.shop",
                rds_host: "optima-dev-postgres.ctg866o0ehac.ap-southeast-1.rds.amazonaws.com",
                docker_network: "optima-dev",
            },
        }
    }
}

/// EC2 connection configuration.
#[derive(Debug, Clone)]
pub struct EC2Config {
    pub host: String,
    pub user: String,
    pub key_path: String,
}

/// AWS configuration.
#[derive(Debug, Clone)]
pub struct AWSConfig {
    pub region: String,
    pub profile: Option<String>,
}

/// Main configuration file structure.
#[derive(Debug, Clone)]
pub struct ConfigFile {
    pub environment: Environment,
    pub ec2: EC2ConfigMap,
    pub aws: AWSConfig,
}

/// EC2 configurations for all environments.
#[derive(Debug, Clone)]
pub struct EC2ConfigMap {
    pub production: EC2Config,
    pub stage: EC2Config,
    pub shared: EC2Config,
    pub development: EC2Config,
}

/// Service type classification.
#[derive(Debug, Clone, Copy, PartialEq, Eq, Structural)]
pub enum ServiceType {
    Core,
    MCP,
}

/// Individual service configuration.
#[derive(Debug, Clone)]
pub struct ServiceConfig {
    pub name: String,
    pub repo: String,
    pub container: String,
    pub health_endpoint: String,
    pub service_type: ServiceType,
    pub port: Option<u16>,
    pub has_database: bool,
    pub has_redis: bool,
}

/// Services configuration file structure.
#[derive(Debug, Clone)]
pub struct ServicesConfigFile {
    pub services: ServicesMap,
}

/// Services grouped by type.
#[derive(Debug, Clone)]
pub struct ServicesMap {
    pub core: Vec<ServiceConfig>,
    pub mcp: Vec<ServiceConfig>,
}

/// The EC2 entry of `map` for environment `e`.
pub open spec fn ec2_entry(map: EC2ConfigMap, e: Environment) -> EC2Config {
    match e {
        Environment::Production => map.production,
        Environment::Stage => map.stage,
        Environment::Shared => map.shared,
        Environment::Development => map.development,
    }
}

/// Dereferences a sequence of borrowed services.
pub open spec fn derefs(v: Seq<&ServiceConfig>) -> Seq<ServiceConfig> {
    v.map_values(|s: &ServiceConfig| *s)
}

/// Index of the first service named `name` in `v` at index `i` or later.
pub open spec fn first_named_from(v: Seq<ServiceConfig>, name: Seq<char>, i: int) -> Option<int>
    decreases v.len() - i,
{
    if i < 0 || i >= v.len() {
        None
    } else if v[i].name@ == name {
        Some(i)
    } else {
        first_named_from(v, name, i + 1)
    }
}

/// Index of the first service named `name` in `v`, if any.
pub open spec fn first_named(v: Seq<ServiceConfig>, name: Seq<char>) -> Option<int> {
    first_named_from(v, name, 0)
}

proof fn lemma_derefs_push(v: Seq<&ServiceConfig>, x: &ServiceConfig)
    ensures
        derefs(v.push(x)) == derefs(v).push(*x),
{
    assert(derefs(v.push(x)) =~= derefs(v).push(*x));
}

/// The service type a filter word names: `core` or `mcp`; any other word
/// selects all services.
pub open spec fn type_filter_of(word: Seq<char>) -> Option<ServiceType> {
    if word == "core"@ {
        Some(ServiceType::Core)
    } else if word == "mcp"@ {
        Some(ServiceType::MCP)
    } else {
        None
    }
}

/// Whether a service's name passes an optional substring filter.
pub open spec fn name_passes(name_filter: Option<Seq<char>>, s: ServiceConfig) -> bool {
    match name_filter {
        Some(n) => is_infix(n, s.name@),
        None => true,
    }
}

/// The environment in force: the override when it names one, else the
/// configured default.
pub open spec fn selected_environment(override_lower: Option<Seq<char>>, configured: Environment) -> Environment {
    match override_lower {
        Some(l) => match environment_of_lower(l) {
            Some(e) => e,
            None => configured,
        },
        None => configured,
    }
}

/// `path` with a leading `~` replaced by `home` when it starts with `~/` and
/// the home directory is known; else `path` itself.
pub open spec fn expanded_path(path: Seq<char>, home: Option<Seq<char>>) -> Seq<char> {
    if "~/"@.is_prefix_of(path) && home is Some {
        home->0 + path.subrange(1, path.len() as int)
    } else {
        path
    }
}

/// Relies on `dirs::home_dir`: the current user's home directory when the
/// platform reports one, as text when it is valid Unicode.
#[verifier::external_body]
fn home_dir() -> (r: Option<String>) {
    dirs::home_dir().and_then(|p| p.to_str().map(|s| s.to_string()))
}

/// Expands a leading `~/` of `path` with the given home directory.
pub fn expand_tilde_with(path: &str, home: Option<&str>) -> (r: String)
    ensures
        r@ == expanded_path(path@, match home {
            Some(h) => Some(h@),
            None => None,
        }),
{
    let p = chars_of(path);
    let tilde = chars_of("~/");
    if starts_with_seq(&p, &tilde) {
        match home {
            Some(h) => {
                proof {
                    reveal_strlit("~/");
                }
                let mut r = String::from_str(h);
                r.append(path.substring_char(1, p.len()));
                return r;
            },
            None => {},
        }
    }
    String::from_str(path)
}

/// Expands a leading `~/` of `path` to the current user's home directory.
/// A path that does not start with `~/` is returned unchanged; one that does
/// keeps everything after the `~`, whatever the home directory is.
pub fn expand_tilde(path: &str) -> (r: String)
    ensures
        !"~/"@.is_prefix_of(path@) ==> r@ == path@,
        "~/"@.is_prefix_of(path@) ==> path@.subrange(1, path@.len() as int).is_suffix_of(r@),
{
    let home = home_dir();
    let r = match home {
        Some(h) => expand_tilde_with(path, Some(h.as_str())),
        None => expand_tilde_with(path, None),
    };
    proof {
        let tail = path@.subrange(1, path@.len() as int);
        if "~/"@.is_prefix_of(path@) {
            reveal_strlit("~/");
            assert(r@.subrange(r@.len() - tail.len(), r@.len() as int) =~= tail);
        }
    }
    r
}

/// Application configuration manager.
#[derive(Clone)]
pub struct AppConfig {
    config: ConfigFile,
    services: ServicesConfigFile,
    current_env: Environment,
}

impl AppConfig {
    /// The main configuration.
    pub closed spec fn config_view(&self) -> ConfigFile {
        self.config
    }

    /// The service roster.
    pub closed spec fn services_view(&self) -> ServicesConfigFile {
        self.services
    }

    /// The environment in force.
    pub closed spec fn env_view(&self) -> Environment {
        self.current_env
    }

    /// Configuration from its parts.
    pub fn from_parts(config: ConfigFile, services: ServicesConfigFile, current_env: Environment) -> (r: AppConfig)
        ensures
            r.config_view() == config,
            r.services_view() == services,
            r.env_view() == current_env,
    {
        AppConfig { config, services, current_env }
    }

    /// Configuration from loaded files and an optional environment override
    /// (any case); an override that names no environment is ignored.
    pub fn with_override(config: ConfigFile, services: ServicesConfigFile, env_override: Option<&str>) -> (r: AppConfig)
        ensures
            r.config_view() == config,
            r.services_view() == services,
            r.env_view() == selected_environment(
                match env_override {
                    Some(s) => Some(lower_of(s@)),
                    None => None,
                },
                config.environment,
            ),
    {
        let configured = config.environment;
        let current_env = match env_override {
            Some(s) => match Environment::from_str(s) {
                Some(e) => e,
                None => configured,
            },
            None => configured,
        };
        AppConfig { config, services, current_env }
    }

    /// Configuration with the built-in defaults and their environment.
    pub fn defaults() -> (r: AppConfig)
        ensures
            is_default_config(r.config_view()),
            r.env_view() == Environment::Production,
            is_default_services(r.services_view()),
    {
        let config = AppConfig::default_config();
        let services = AppConfig::default_services_config();
        AppConfig { current_env: config.environment, config, services }
    }

    pub fn get_environment(&self) -> (r: Environment)
        ensures
            r == self.env_view(),
    {
        self.current_env
    }

    /// The EC2 entry of `env`, or of the environment in force.
    pub fn get_ec2_config(&self, env: Option<Environment>) -> (r: &EC2Config)
        ensures
            *r == ec2_entry(
                self.config_view().ec2,
                match env {
                    Some(e) => e,
                    None => self.env_view(),
                },
            ),
    {
        let env = match env {
            Some(e) => e,
            None => self.current_env,
        };
        match env {
            Environment::Production => &self.config.ec2.production,
            Environment::Stage => &self.config.ec2.stage,
            Environment::Shared => &self.config.ec2.shared,
            Environment::Development => &self.config.ec2.development,
        }
    }

    pub fn get_aws_config(&self) -> (r: &AWSConfig)
        ensures
            *r == self.config_view().aws,
    {
        &self.config.aws
    }

    /// All services: the core ones, then the MCP ones.
    pub fn get_all_services(&self) -> (r: Vec<&ServiceConfig>)
        ensures
            derefs(r@) == self.services_view().services.core@ + self.services_view().services.mcp@,
    {
        let mut r: Vec<&ServiceConfig> = Vec::new();
        let core = &self.services.services.core;
        let mcp = &self.services.services.mcp;
        let mut i: usize = 0;
        while i < core.len()
            invariant
                0 <= i <= core@.len(),
                derefs(r@) == core@.subrange(0, i as int),
            decreases core@.len() - i,
        {
            let ghost before = r@;
            r.push(&core[i]);
            proof {
                lemma_derefs_push(before, &core@[i as int]);
            }
            i += 1;
            assert(derefs(r@) =~= core@.subrange(0, i as int));
        }
        let mut j: usize = 0;
        while j < mcp.len()
            invariant
                0 <= j <= mcp@.len(),
                derefs(r@) == core@ + mcp@.subrange(0, j as int),
            decreases mcp@.len() - j,
        {
            let ghost before = r@;
            r.push(&mcp[j]);
            proof {
                lemma_derefs_push(before, &mcp@[j as int]);
            }
            j += 1;
            assert(derefs(r@) =~= core@ + mcp@.subrange(0, j as int));
        }
        assert(core@ + mcp@.subrange(0, mcp@.len() as int) =~= core@ + mcp@);
        r
    }

    /// The services of one type.
    pub fn get_services_by_type(&self, service_type: ServiceType) -> (r: Vec<&ServiceConfig>)
        ensures
            derefs(r@) == match service_type {
                ServiceType::Core => self.services_view().services.core@,
                ServiceType::MCP => self.services_view().services.mcp@,
            },
    {
        let list = match service_type {
            ServiceType::Core => &self.services.services.core,
            ServiceType::MCP => &self.services.services.mcp,
        };
        let mut r: Vec<&ServiceConfig> = Vec::new();
        let mut i: usize = 0;
        while i < list.len()
            invariant
                0 <= i <= list@.len(),
                derefs(r@) == list@.subrange(0, i as int),
            decreases list@.len() - i,
        {
            let ghost before = r@;
            r.push(&list[i]);
            proof {
                lemma_derefs_push(before, &list@[i as int]);
            }
            i += 1;
            assert(derefs(r@) =~= list@.subrange(0, i as int));
        }
        assert(list@.subrange(0, list@.len() as int) =~= list@);
        r
    }

    /// The first service (core before MCP) with the given name.
    pub fn get_service(&self, name: &str) -> (r: Option<&ServiceConfig>)
        ensures
            ({
                let all = self.services_view().services.core@ + self.services_view().services.mcp@;
                match first_named(all, name@) {
                    Some(i) => r is Some && *(r->0) == all[i],
                    None => r is None,
                }
            }),
    {
        let all = self.get_all_services();
        let ghost v = derefs(all@);
        let mut i: usize = 0;
        while i < all.len()
            invariant
                v == derefs(all@),
                v == self.services_view().services.core@ + self.services_view().services.mcp@,
                0 <= i <= all@.len(),
                first_named(v, name@) == first_named_from(v, name@, i as int),
            decreases all@.len() - i,
        {
            assert(v[i as int] == *all@[i as int]);
            if str_eq(all[i].name.as_str(), name) {
                return Some(all[i]);
            }
            i += 1;
        }
        None
    }

    /// The services a listing selects: those of the type the filter word
    /// names (all for any other word), then those whose name contains
    /// `name_filter`, in roster order.
    pub fn select_services(&self, type_word: &str, name_filter: Option<&str>) -> (r: Vec<&ServiceConfig>)
        ensures
            ({
                let base = match type_filter_of(type_word@) {
                    Some(t) => match t {
                        ServiceType::Core => self.services_view().services.core@,
                        ServiceType::MCP => self.services_view().services.mcp@,
                    },
                    None => self.services_view().services.core@ + self.services_view().services.mcp@,
                };
                let nf = match name_filter {
                    Some(n) => Some(n@),
                    None => None::<Seq<char>>,
                };
                derefs(r@) == base.filter(|s: ServiceConfig| name_passes(nf, s))
            }),
    {
        let base = if str_eq(type_word, "core") {
            self.get_services_by_type(ServiceType::Core)
        } else if str_eq(type_word, "mcp") {
            self.get_services_by_type(ServiceType::MCP)
        } else {
            self.get_all_services()
        };
        let ghost nf = match name_filter {
            Some(n) => Some(n@),
            None => None::<Seq<char>>,
        };
        let ghost b = derefs(base@);
        let needle: Vec<char> = match name_filter {
            Some(n) => chars_of(n),
            None => Vec::new(),
        };
        let mut r: Vec<&ServiceConfig> = Vec::new();
        let mut i: usize = 0;
        while i < base.len()
            invariant
                b == derefs(base@),
                0 <= i <= base@.len(),
                name_filter is Some ==> needle@ == nf->0,
                nf == match name_filter {
                    Some(n) => Some(n@),
                    None => None::<Seq<char>>,
                },
                derefs(r@) == b.subrange(0, i as int).filter(|s: ServiceConfig| name_passes(nf, s)),
            decreases base@.len() - i,
        {
            let ghost before = r@;
            assert(b.subrange(0, i + 1).drop_last() =~= b.subrange(0, i as int));
            assert(b[i as int] == *base@[i as int]);
            proof {
                reveal(Seq::filter);
            }
            let item = base[i];
            let keep = match name_filter {
                Some(_) => {
                    let name = chars_of(item.name.as_str());
                    contains_seq(&name, &needle)
                },
                None => true,
            };
            if keep {
                r.push(item);
                proof {
                    lemma_derefs_push(before, item);
                }
            }
            i += 1;
        }
        assert(b.subrange(0, b.len() as int) =~= b);
        r
    }

    /// The private-key path for `env`: the override when given, else the
    /// configured one, with a leading `~/` expanded by `home`.
    pub fn key_path_with(&self, env: Option<Environment>, key_override: Option<&str>, home: Option<&str>) -> (r: String)
        ensures
            r@ == expanded_path(
                match key_override {
                    Some(k) => k@,
                    None => ec2_entry(
                        self.config_view().ec2,
                        match env {
                            Some(e) => e,
                            None => self.env_view(),
                        },
                    ).key_path@,
                },
                match home {
                    Some(h) => Some(h@),
                    None => None,
                },
            ),
    {
        match key_override {
            Some(k) => expand_tilde_with(k, home),
            None => expand_tilde_with(self.get_ec2_config(env).key_path.as_str(), home),
        }
    }

    /// The built-in main configuration.
    pub fn default_config() -> (r: ConfigFile)
        ensures
            is_default_config(r),
    {
        ConfigFile {
            environment: Environment::Production,
            ec2: EC2ConfigMap {
                production: EC2Config {
                    host: String::from_str("ec2-prod.optima.shop"),
                    user: String::from_str("ec2-user"),
                    key_path: String::from_str("~/.ssh/optima-ec2-key"),
                },
                stage: EC2Config {
                    host: String::from_str("ec2-stage.optima.shop"),
                    user: String::from_str("ec2-user"),
                    key_path: String::from_str("~/.ssh/optima-ec2-key"),
                },
                shared: EC2Config {
                    host: String::from_str("shared.optima.onl"),
                    user: String::from_str("ec2-user"),
                    key_path: String::from_str("~/.ssh/optima-ec2-key"),
                },
                development: EC2Config {
                    host: String::from_str("ec2-dev.optima.shop"),
                    user: String::from_str("ec2-user"),
                    key_path: String::from_str("~/.ssh/optima-ec2-key"),
                },
            },
            aws: AWSConfig { region: String::from_str("ap-southeast-1"), profile: None },
        }
    }

    /// The built-in service roster: four core services and one MCP service.
    pub fn default_services_config() -> (r: ServicesConfigFile)
        ensures
            is_default_services(r),
    {
        let core = vec![
            ServiceConfig {
                name: String::from_str("user-auth"),
                repo: String::from_str("Optima-Chat/user-auth"),
                container: String::from_str("optima-user-auth-prod"),
                health_endpoint: String::from_str("https://auth.optima.shop/health"),
                service_type: ServiceType::Core,
                port: Some(8100),
                has_database: true,
                has_redis: true,
            },
            ServiceConfig {
                name: String::from_str("mcp-host"),
                repo: String::from_str("Optima-Chat/mcp-host"),
                container: String::from_str("optima-mcp-host-prod"),
                health_endpoint: String::from_str("https://mcp.optima.shop/health"),
                service_type: ServiceType::Core,
                port: Some(8300),
                has_database: true,
                has_redis: false,
            },
            ServiceConfig {
                name: String::from_str("commerce-backend"),
                repo: String::from_str("Optima-Chat/commerce-backend"),
                container: String::from_str("optima-commerce-backend-prod"),
                health_endpoint: String::from_str("https://api.optima.shop/health"),
                service_type: ServiceType::Core,
                port: Some(8200),
                has_database: true,
                has_redis: true,
            },
            ServiceConfig {
                name: String::from_str("agentic-chat"),
                repo: String::from_str("Optima-Chat/agentic-chat"),
                container: String::from_str("optima-agentic-chat-prod"),
                health_endpoint: String::from_str("https://ai.optima.shop/health"),
                service_type: ServiceType::Core,
                port: Some(8250),
                has_database: true,
                has_redis: false,
            },
        ];
        let mcp = vec![
            ServiceConfig {
                name: String::from_str("comfy-mcp"),
                repo: String::from_str("Optima-Chat/comfy-mcp"),
                container: String::from_str("optima-comfy-mcp-prod"),
                health_endpoint: String::from_str("https://mcp-comfy.optima.shop"),
                service_type: ServiceType::MCP,
                port: Some(8261),
                has_database: false,
                has_redis: false,
            },
        ];
        ServicesConfigFile { services: ServicesMap { core, mcp } }
    }
}

/// The built-in service roster: four core services and one MCP service,
/// by name and type in roster order.
pub open spec fn is_default_services(r: ServicesConfigFile) -> bool {
    &&& r.services.core@.len() == 4
    &&& r.services.mcp@.len() == 1
    &&& r.services.core@[0].name@ == "user-auth"@
    &&& r.services.core@[1].name@ == "mcp-host"@
    &&& r.services.core@[2].name@ == "commerce-backend"@
    &&& r.services.core@[3].name@ == "agentic-chat"@
    &&& r.services.mcp@[0].name@ == "comfy-mcp"@
    &&& forall|i: int| 0 <= i < 4 ==> (#[trigger] r.services.core@[i]).service_type == ServiceType::Core
    &&& r.services.mcp@[0].service_type == ServiceType::MCP
}

/// An EC2 entry with the default user and key path.
pub open spec fn default_ec2(host: Seq<char>) -> (Seq<char>, Seq<char>, Seq<char>) {
    (host, "ec2-user"@, "~/.ssh/optima-ec2-key"@)
}

/// Whether an EC2 entry holds the given host, user and key path.
pub open spec fn ec2_is(c: EC2Config, v: (Seq<char>, Seq<char>, Seq<char>)) -> bool {
    c.host@ == v.0 && c.user@ == v.1 && c.key_path@ == v.2
}

/// The built-in main configuration, as a predicate on its fields.
pub open spec fn is_default_config(c: ConfigFile) -> bool {
    &&& c.environment == Environment::Production
    &&& ec2_is(c.ec2.production, default_ec2("ec2-prod.optima.shop"@))
    &&& ec2_is(c.ec2.stage, default_ec2("ec2-stage.optima.shop"@))
    &&& ec2_is(c.ec2.shared, default_ec2("shared.optima.onl"@))
    &&& ec2_is(c.ec2.development, default_ec2("ec2-dev.optima.shop"@))
    &&& c.aws.region@ == "ap-southeast-1"@
    &&& c.aws.profile is None
}

} // verus!
