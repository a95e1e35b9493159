//! Infrastructure status: EC2, ECS, RDS and load-balancer summaries.
//!
//! The status served is a fixed fixture stamped with the time it was taken.
use vstd::prelude::*;
use vstd::string::*;

verus! {

/// EC2 instance status.
#[derive(Debug, Clone)]
pub struct Ec2Status {
    pub instance_id: String,
    pub name: String,
    pub state: String,
    pub instance_type: String,
    pub public_ip: Option<String>,
    pub private_ip: Option<String>,
}

/// ECS service status.
#[derive(Debug, Clone)]
pub struct EcsServiceStatus {
    pub service_name: String,
    pub cluster: String,
    pub desired_count: i32,
    pub running_count: i32,
    pub pending_count: i32,
    pub status: String,
}

/// ECS cluster status.
#[derive(Debug, Clone)]
pub struct EcsClusterStatus {
    pub cluster_name: String,
    pub status: String,
    pub running_tasks: i32,
    pub pending_tasks: i32,
    pub registered_container_instances: i32,
}

/// RDS instance status.
#[derive(Debug, Clone)]
pub struct RdsStatus {
    pub identifier: String,
    pub engine: String,
    pub status: String,
    pub endpoint: Option<String>,
    pub instance_class: String,
}

/// ALB status.
#[derive(Debug, Clone)]
pub struct AlbStatus {
    pub name: String,
    pub dns_name: String,
    pub state: String,
    pub target_groups: Vec<TargetGroupStatus>,
}

/// Target group status.
#[derive(Debug, Clone)]
pub struct TargetGroupStatus {
    pub name: String,
    pub healthy_count: i32,
    pub unhealthy_count: i32,
}

/// Combined infrastructure status.
#[derive(Debug, Clone)]
pub struct InfrastructureStatus {
    pub ec2_instances: Vec<Ec2Status>,
    pub ecs_clusters: Vec<EcsClusterStatus>,
    pub ecs_services: Vec<EcsServiceStatus>,
    pub rds_instances: Vec<RdsStatus>,
    pub albs: Vec<AlbStatus>,
    pub last_updated: Option<String>,
    pub error: Option<String>,
}

/// A status with no resources, no time stamp and no error.
pub open spec fn is_empty_status(s: InfrastructureStatus) -> bool {
    &&& s.ec2_instances@.len() == 0
    &&& s.ecs_clusters@.len() == 0
    &&& s.ecs_services@.len() == 0
    &&& s.rds_instances@.len() == 0
    &&& s.albs@.len() == 0
    &&& s.last_updated is None
}

impl InfrastructureStatus {
    /// An empty status.
    pub fn new() -> (r: InfrastructureStatus)
        ensures
            is_empty_status(r),
            r.error is None,
    {
        InfrastructureStatus {
            ec2_instances: Vec::new(),
            ecs_clusters: Vec::new(),
            ecs_services: Vec::new(),
            rds_instances: Vec::new(),
            albs: Vec::new(),
            last_updated: None,
            error: None,
        }
    }

    /// An empty status that carries an error.
    pub fn with_error(error: String) -> (r: InfrastructureStatus)
        ensures
            is_empty_status(r),
            r.error == Some(error),
    {
        let mut r = InfrastructureStatus::new();
        r.error = Some(error);
        r
    }
}

/// Relies on chrono's `From<SystemTime> for DateTime<Utc>` and
/// `DateTime::to_rfc3339`: the system clock's time in UTC as RFC 3339 text,
/// also for a clock set before 1970. Nothing is promised of its value.
#[verifier::external_body]
fn now_rfc3339() -> (r: String) {
    chrono::DateTime::<chrono::Utc>::from(std::time::SystemTime::now()).to_rfc3339()
}

/// Infrastructure client for one AWS region.
pub struct InfraClient {
    region: String,
}

impl InfraClient {
    /// The region the client reports on.
    pub closed spec fn region_view(&self) -> Seq<char> {
        self.region@
    }

    pub fn new(region: &str) -> (r: InfraClient)
        ensures
            r.region_view() == region@,
    {
        InfraClient { region: String::from_str(region) }
    }

    pub fn region(&self) -> (r: &str)
        ensures
            r@ == self.region_view(),
    {
        self.region.as_str()
    }

    /// The infrastructure status, stamped with the current time.
    pub fn get_status(&self) -> (r: InfrastructureStatus)
        ensures
            is_fixture(r),
            r.last_updated is Some,
    {
        let now = now_rfc3339();
        self.get_mock_status(now)
    }

    /// The fixture status stamped with `last_updated`: one EC2 instance, one
    /// ECS cluster with two services, one RDS instance and one load balancer
    /// with one target group, all healthy.
    pub fn get_mock_status(&self, last_updated: String) -> (r: InfrastructureStatus)
        ensures
            is_fixture(r),
            r.last_updated == Some(last_updated),
    {
        InfrastructureStatus {
            ec2_instances: vec![
                Ec2Status {
                    instance_id: String::from_str("i-0abc123def456"),
                    name: String::from_str("optima-prod"),
                    state: String::from_str("running"),
                    instance_type: String::from_str("t3.medium"),
                    public_ip: Some(String::from_str("54.123.45.67")),
                    private_ip: Some(String::from_str("10.0.1.100")),
                },
            ],
            ecs_clusters: vec![
                EcsClusterStatus {
                    cluster_name: String::from_str("optima-cluster"),
                    status: String::from_str("ACTIVE"),
                    running_tasks: 5,
                    pending_tasks: 0,
                    registered_container_instances: 2,
                },
            ],
            ecs_services: vec![
                EcsServiceStatus {
                    service_name: String::from_str("user-auth-stage"),
                    cluster: String::from_str("optima-cluster"),
                    desired_count: 1,
                    running_count: 1,
                    pending_count: 0,
                    status: String::from_str("ACTIVE"),
                },
                EcsServiceStatus {
                    service_name: String::from_str("commerce-backend-stage"),
                    cluster: String::from_str("optima-cluster"),
                    desired_count: 1,
                    running_count: 1,
                    pending_count: 0,
                    status: String::from_str("ACTIVE"),
                },
            ],
            rds_instances: vec![
                RdsStatus {
                    identifier: String::from_str("optima-prod-postgres"),
                    engine: String::from_str("postgres"),
                    status: String::from_str("available"),
                    endpoint: Some(String::from_str("optima-prod-postgres.xxx.rds.amazonaws.com")),
                    instance_class: String::from_str("db.t3.medium"),
                },
            ],
            albs: vec![
                AlbStatus {
                    name: String::from_str("optima-prod-alb"),
                    dns_name: String::from_str("optima-prod-alb-xxx.ap-southeast-1.elb.amazonaws.com"),
                    state: String::from_str("active"),
                    target_groups: vec![
                        TargetGroupStatus {
                            name: String::from_str("user-auth-tg"),
                            healthy_count: 1,
                            unhealthy_count: 0,
                        },
                    ],
                },
            ],
            last_updated: Some(last_updated),
            error: None,
        }
    }
}

/// The fixture status: its resources by name and state, with no error.
pub open spec fn is_fixture(s: InfrastructureStatus) -> bool {
    &&& s.error is None
    &&& s.ec2_instances@.len() == 1
    &&& s.ec2_instances@[0].instance_id@ == "i-0abc123def456"@
    &&& s.ec2_instances@[0].state@ == "running"@
    &&& s.ecs_clusters@.len() == 1
    &&& s.ecs_clusters@[0].cluster_name@ == "optima-cluster"@
    &&& s.ecs_clusters@[0].running_tasks == 5
    &&& s.ecs_services@.len() == 2
    &&& s.ecs_services@[0].service_name@ == "user-auth-stage"@
    &&& s.ecs_services@[1].service_name@ == "commerce-backend-stage"@
    &&& s.rds_instances@.len() == 1
    &&& s.rds_instances@[0].identifier@ == "optima-prod-postgres"@
    &&& s.albs@.len() == 1
    &&& s.albs@[0].name@ == "optima-prod-alb"@
    &&& s.albs@[0].target_groups@.len() == 1
    &&& s.albs@[0].target_groups@[0].healthy_count == 1
    &&& s.albs@[0].target_groups@[0].unhealthy_count == 0
}

} // verus!
