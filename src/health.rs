//! Liveness and readiness answers of the services.

use vstd::prelude::*;

verus! {

/// A service's overall health.
#[derive(Clone, Copy, Debug, PartialEq, Eq, Structural)]
pub enum HealthStatus {
    Healthy,
    Degraded,
    Down,
}

/// A degraded service still serves: only `Down` is reported as unavailable.
pub open spec fn status_code_of(s: HealthStatus) -> u16 {
    match s {
        HealthStatus::Down => 503,
        _ => 200,
    }
}

impl HealthStatus {
    /// The status as it is written in responses.
    pub fn as_str(&self) -> (r: &'static str)
        ensures
            r@ == (match *self {
                HealthStatus::Healthy => "ok"@,
                HealthStatus::Degraded => "degraded"@,
                HealthStatus::Down => "down"@,
            }),
    {
        match self {
            HealthStatus::Healthy => "ok",
            HealthStatus::Degraded => "degraded",
            HealthStatus::Down => "down",
        }
    }

    /// The HTTP status a readiness probe answers with.
    pub fn http_status(&self) -> (r: u16)
        ensures
            r == status_code_of(*self),
    {
        match self {
            HealthStatus::Down => 503,
            _ => 200,
        }
    }
}

/// The answer of a liveness probe.
pub struct LiveResponse {
    pub status: HealthStatus,
    pub service: String,
}

/// A running service is alive.
pub fn live(service: &str) -> (r: LiveResponse)
    ensures
        r.status == HealthStatus::Healthy,
        r.service@ == service@,
{
    LiveResponse { status: HealthStatus::Healthy, service: service.to_string() }
}

/// An error text is present and reads `msg`.
pub open spec fn error_is(error: Option<String>, msg: Seq<char>) -> bool {
    error matches Some(e) && e@ == msg
}

/// The outcome of a database round trip.
pub struct DbCheck {
    pub ok: bool,
    pub latency_ms: Option<u128>,
    pub error: Option<String>,
}

/// A database check from the round trip's latency or its error text.
pub fn db_check(result: Result<u128, String>) -> (r: DbCheck)
    ensures
        match result {
            Ok(ms) => r.ok && r.latency_ms == Some(ms) && r.error is None,
            Err(e) => !r.ok && r.latency_ms is None && r.error == Some(e),
        },
{
    match result {
        Ok(ms) => DbCheck { ok: true, latency_ms: Some(ms), error: None },
        Err(e) => DbCheck { ok: false, latency_ms: None, error: Some(e) },
    }
}

/// The outcome of a probe of the email service's liveness endpoint.
pub enum EmailServiceProbe {
    /// No address of the email service is configured.
    NotConfigured,
    /// The HTTP client could not be built.
    ClientFailed(String),
    /// The service answered, with a success status or not.
    Responded { success: bool, status_text: String, latency_ms: u128 },
    /// The service could not be reached.
    Unreachable { error: String, latency_ms: u128 },
}

/// The email service's health as the auth service sees it.
pub struct EmailServiceCheck {
    pub ok: bool,
    pub configured: bool,
    pub latency_ms: Option<u128>,
    pub error: Option<String>,
}

/// Reads a probe of the email service.
pub fn email_service_check(probe: EmailServiceProbe) -> (r: EmailServiceCheck)
    ensures
        match probe {
            EmailServiceProbe::NotConfigured => !r.ok && !r.configured && r.latency_ms is None
                && error_is(r.error, "EMAIL_SERVICE_URL not configured"@),
            EmailServiceProbe::ClientFailed(msg) => !r.ok && r.configured && r.latency_ms is None
                && error_is(r.error, "Failed to create HTTP client: "@ + msg@),
            EmailServiceProbe::Responded { success, status_text, latency_ms } => r.ok == success && r.configured
                && r.latency_ms == Some(latency_ms) && if success {
                r.error is None
            } else {
                error_is(r.error, "Email service returned status: "@ + status_text@)
            },
            EmailServiceProbe::Unreachable { error, latency_ms } => !r.ok && r.configured && r.latency_ms == Some(
                latency_ms,
            ) && error_is(r.error, "Failed to connect to email service: "@ + error@),
        },
{
    match probe {
        EmailServiceProbe::NotConfigured => EmailServiceCheck {
            ok: false,
            configured: false,
            latency_ms: None,
            error: Some("EMAIL_SERVICE_URL not configured".to_string()),
        },
        EmailServiceProbe::ClientFailed(msg) => EmailServiceCheck {
            ok: false,
            configured: true,
            latency_ms: None,
            error: Some("Failed to create HTTP client: ".to_string().concat(msg.as_str())),
        },
        EmailServiceProbe::Responded { success, status_text, latency_ms } => if success {
            EmailServiceCheck { ok: true, configured: true, latency_ms: Some(latency_ms), error: None }
        } else {
            EmailServiceCheck {
                ok: false,
                configured: true,
                latency_ms: Some(latency_ms),
                error: Some("Email service returned status: ".to_string().concat(status_text.as_str())),
            }
        },
        EmailServiceProbe::Unreachable { error, latency_ms } => EmailServiceCheck {
            ok: false,
            configured: true,
            latency_ms: Some(latency_ms),
            error: Some("Failed to connect to email service: ".to_string().concat(error.as_str())),
        },
    }
}

/// The auth service is down without its database, degraded when a
/// configured email service fails, and healthy otherwise; an email service
/// that is not configured is optional.
pub open spec fn auth_status(db_ok: bool, email_configured: bool, email_ok: bool) -> HealthStatus {
    if !db_ok {
        HealthStatus::Down
    } else if email_configured && !email_ok {
        HealthStatus::Degraded
    } else {
        HealthStatus::Healthy
    }
}

/// The answer of the auth service's readiness probe.
pub struct ReadyResponse {
    pub status: HealthStatus,
    pub service: String,
    pub db: DbCheck,
    pub email_service: EmailServiceCheck,
}

/// The auth service's readiness from its two checks, with the HTTP status to
/// answer with.
pub fn ready(service: &str, db: DbCheck, email_service: EmailServiceCheck) -> (r: (u16, ReadyResponse))
    ensures
        r.1.status == auth_status(db.ok, email_service.configured, email_service.ok),
        r.0 == status_code_of(r.1.status),
        r.1.service@ == service@,
        r.1.db == db,
        r.1.email_service == email_service,
{
    let status = if !db.ok {
        HealthStatus::Down
    } else if email_service.configured && !email_service.ok {
        HealthStatus::Degraded
    } else {
        HealthStatus::Healthy
    };
    let code = status.http_status();
    (code, ReadyResponse { status, service: service.to_string(), db, email_service })
}

} // verus!
