//! `GET /health/rpc`: the health report over the Soroban RPC node and Horizon.
use vstd::prelude::*;

use crate::soroban::ClientError;
use crate::types::{DependencyHealth, HealthStatus, RpcHealthResponse};

verus! {

/// The health of a dependency whose probe ended with `outcome`: healthy with
/// `healthy_detail`, or degraded with the error's message.
pub open spec fn dependency_spec(outcome: Result<(), ClientError>, healthy_detail: Seq<char>) -> (
    HealthStatus,
    Seq<char>,
) {
    match outcome {
        Ok(_) => (HealthStatus::Healthy, healthy_detail),
        Err(e) => (HealthStatus::Degraded, e.message@),
    }
}

/// The health of a dependency whose probe ended with `outcome`.
pub fn dependency_health(outcome: &Result<(), ClientError>, healthy_detail: &str) -> (d:
    DependencyHealth)
    ensures
        d.detail matches Some(t) && (d.status, t@) == dependency_spec(*outcome, healthy_detail@),
{
    match outcome {
        Ok(_) => DependencyHealth {
            status: HealthStatus::Healthy,
            detail: Some(healthy_detail.to_owned()),
        },
        Err(e) => DependencyHealth {
            status: HealthStatus::Degraded,
            detail: Some(e.message.clone()),
        },
    }
}

/// The HTTP status for an overall health: 200 when healthy, 503 when degraded.
pub open spec fn health_http_status(s: HealthStatus) -> u16 {
    match s {
        HealthStatus::Healthy => 200,
        HealthStatus::Degraded => 503,
    }
}

/// The health report for the outcomes of the Soroban RPC and Horizon probes,
/// with its HTTP status: healthy (200) only when both dependencies are, else
/// degraded (503). Dependencies are listed by name: `horizon`, `soroban_rpc`.
pub fn rpc_health_report(soroban_rpc: Result<(), ClientError>, horizon: Result<(), ClientError>) -> (r:
    (u16, RpcHealthResponse))
    ensures
        r.1.status == (if soroban_rpc is Ok && horizon is Ok {
            HealthStatus::Healthy
        } else {
            HealthStatus::Degraded
        }),
        r.0 == health_http_status(r.1.status),
        r.1.dependencies@.len() == 2,
        r.1.dependencies@[0].0@ == "horizon"@,
        r.1.dependencies@[1].0@ == "soroban_rpc"@,
        r.1.dependencies@[0].1.detail matches Some(t) && (r.1.dependencies@[0].1.status, t@)
            == dependency_spec(horizon, "Horizon health endpoint responded"@),
        r.1.dependencies@[1].1.detail matches Some(t) && (r.1.dependencies@[1].1.status, t@)
            == dependency_spec(soroban_rpc, "Soroban RPC responded to getLatestLedger"@),
{
    let soroban_health = dependency_health(&soroban_rpc, "Soroban RPC responded to getLatestLedger");
    let horizon_health = dependency_health(&horizon, "Horizon health endpoint responded");
    let overall = if soroban_health.status == HealthStatus::Healthy && horizon_health.status
        == HealthStatus::Healthy {
        HealthStatus::Healthy
    } else {
        HealthStatus::Degraded
    };
    let code: u16 = match overall {
        HealthStatus::Healthy => 200,
        HealthStatus::Degraded => 503,
    };
    let mut dependencies: Vec<(String, DependencyHealth)> = Vec::new();
    dependencies.push(("horizon".to_owned(), horizon_health));
    dependencies.push(("soroban_rpc".to_owned(), soroban_health));
    (code, RpcHealthResponse { status: overall, dependencies })
}

} // verus!
