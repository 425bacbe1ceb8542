use vstd::prelude::*;

verus! {

/// The state of one dependency: reachable, or the error met while reaching it.
#[derive(Debug, Clone)]
pub struct ComponentStatus {
    pub ok: bool,
    pub error: Option<String>,
}

/// The body of the health check.
#[derive(Debug, Clone)]
pub struct HealthResponse {
    pub status: &'static str,
    pub db: ComponentStatus,
    pub rpc: ComponentStatus,
}

/// HTTP 200 OK.
pub const STATUS_OK: u16 = 200;

/// HTTP 503 Service Unavailable.
pub const STATUS_SERVICE_UNAVAILABLE: u16 = 503;

/// The health check's answer: `ok` with HTTP 200 when both the database and the RPC node
/// are reachable, otherwise `degraded` with HTTP 503; the component states are reported
/// as they are.
pub fn health_response(db: ComponentStatus, rpc: ComponentStatus) -> (r: (u16, HealthResponse))
    ensures
        (db.ok && rpc.ok) ==> r.0 == STATUS_OK && r.1.status@ == "ok"@,
        !(db.ok && rpc.ok) ==> r.0 == STATUS_SERVICE_UNAVAILABLE && r.1.status@ == "degraded"@,
        r.1.db == db,
        r.1.rpc == rpc,
{
    let all_ok = db.ok && rpc.ok;
    let status = if all_ok {
        "ok"
    } else {
        "degraded"
    };
    let code = if all_ok {
        STATUS_OK
    } else {
        STATUS_SERVICE_UNAVAILABLE
    };
    (code, HealthResponse { status, db, rpc })
}

/// The state of a dependency after a check: reachable when the check succeeded, otherwise
/// the check's error message.
pub fn component_status(check: Result<(), String>) -> (r: ComponentStatus)
    ensures
        match check {
            Ok(()) => r.ok && r.error is None,
            Err(e) => !r.ok && r.error == Some(e),
        },
{
    match check {
        Ok(()) => ComponentStatus { ok: true, error: None },
        Err(e) => ComponentStatus { ok: false, error: Some(e) },
    }
}

} // verus!
