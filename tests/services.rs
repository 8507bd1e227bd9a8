use handshake::catalog::{
    catalog_ready, check_order_party, check_seller, nominatim_base, page_limit, page_offset, search_url,
};
use handshake::cors::CORS;
use handshake::error::AuthError;
use handshake::health::{db_check, email_service_check, live, ready, EmailServiceProbe, HealthStatus};
use handshake::mailer::{
    basic_authorization, check_send_reply, classify_mailjet_status, custom_email, mail_ready, order_notification_email,
    order_subject, render_order_notification, render_verification_email, verification_email,
    verification_email_html, CustomEmailRequest, EmailConfig, EmailResponse, OrderNotificationRequest,
    VerificationEmailRequest,
};
use handshake::otp::decimal_text;

#[test]
fn liveness_is_always_ok() {
    let r = live("auth-service");
    assert_eq!(r.status, HealthStatus::Healthy);
    assert_eq!(r.service, "auth-service");
    assert_eq!(HealthStatus::Healthy.as_str(), "ok");
    assert_eq!(HealthStatus::Degraded.as_str(), "degraded");
    assert_eq!(HealthStatus::Down.as_str(), "down");
}

#[test]
fn database_failure_means_down() {
    let db = db_check(Err("connection refused".to_string()));
    assert!(!db.ok);
    assert_eq!(db.latency_ms, None);
    assert_eq!(db.error.as_deref(), Some("connection refused"));
    let email = email_service_check(EmailServiceProbe::NotConfigured);
    let (code, resp) = ready("auth-service", db, email);
    assert_eq!(code, 503);
    assert_eq!(resp.status, HealthStatus::Down);
}

#[test]
fn failing_configured_email_service_degrades() {
    let db = db_check(Ok(3));
    assert_eq!(db.latency_ms, Some(3));
    let email = email_service_check(EmailServiceProbe::Responded {
        success: false,
        status_text: "500 Internal Server Error".to_string(),
        latency_ms: 12,
    });
    assert_eq!(email.error.as_deref(), Some("Email service returned status: 500 Internal Server Error"));
    let (code, resp) = ready("auth-service", db, email);
    assert_eq!(code, 200);
    assert_eq!(resp.status, HealthStatus::Degraded);
}

#[test]
fn unconfigured_email_service_is_optional() {
    let email = email_service_check(EmailServiceProbe::NotConfigured);
    assert!(!email.configured);
    assert_eq!(email.error.as_deref(), Some("EMAIL_SERVICE_URL not configured"));
    let (code, resp) = ready("auth-service", db_check(Ok(1)), email);
    assert_eq!(code, 200);
    assert_eq!(resp.status, HealthStatus::Healthy);
}

#[test]
fn email_probe_failures_are_described() {
    let c = email_service_check(EmailServiceProbe::ClientFailed("tls".to_string()));
    assert_eq!(c.error.as_deref(), Some("Failed to create HTTP client: tls"));
    assert!(c.configured);
    let u = email_service_check(EmailServiceProbe::Unreachable { error: "timeout".to_string(), latency_ms: 5000 });
    assert_eq!(u.error.as_deref(), Some("Failed to connect to email service: timeout"));
    assert_eq!(u.latency_ms, Some(5000));
    let ok = email_service_check(EmailServiceProbe::Responded {
        success: true,
        status_text: "200 OK".to_string(),
        latency_ms: 4,
    });
    assert!(ok.ok);
    assert_eq!(ok.error, None);
}

#[test]
fn catalog_readiness_follows_the_database() {
    let (code, resp) = catalog_ready("product-service", db_check(Ok(2)));
    assert_eq!(code, 200);
    assert_eq!(resp.status, HealthStatus::Healthy);
    let (code, resp) = catalog_ready("product-service", db_check(Err("down".to_string())));
    assert_eq!(code, 503);
    assert_eq!(resp.status, HealthStatus::Down);
}

#[test]
fn mail_readiness() {
    let (code, resp) = mail_ready("email-service", false, Ok(1), 1);
    assert_eq!(code, 503);
    assert_eq!(resp.status, HealthStatus::Down);
    assert!(!resp.mailjet.credentials_configured);
    let (code, resp) = mail_ready("email-service", true, Ok(40), 41);
    assert_eq!(code, 200);
    assert_eq!(resp.mailjet.latency_ms, Some(40));
    let (code, resp) = mail_ready("email-service", true, Err("bad".to_string()), 41);
    assert_eq!(code, 503);
    assert_eq!(resp.mailjet.latency_ms, Some(41));
    assert_eq!(resp.mailjet.error.as_deref(), Some("bad"));
}

#[test]
fn mailjet_statuses_are_classified() {
    assert_eq!(classify_mailjet_status(200, "200 OK", 30), Ok(30));
    assert_eq!(classify_mailjet_status(204, "204 No Content", 31), Ok(31));
    assert_eq!(
        classify_mailjet_status(401, "401 Unauthorized", 30),
        Err("Mailjet API authentication failed - check credentials".to_string())
    );
    assert_eq!(
        classify_mailjet_status(503, "503 Service Unavailable", 30),
        Err("Mailjet API returned status: 503 Service Unavailable".to_string())
    );
}

#[test]
fn send_replies_are_checked() {
    assert_eq!(check_send_reply(&vec![]), Err("No messages in Mailjet response".to_string()));
    assert_eq!(check_send_reply(&vec!["success".to_string()]), Ok(()));
    assert_eq!(
        check_send_reply(&vec!["error".to_string(), "success".to_string()]),
        Err("Mailjet message status: error".to_string())
    );
}

#[test]
fn basic_authorization_is_base64_of_key_and_secret() {
    assert_eq!(basic_authorization("user", "pass"), "Basic dXNlcjpwYXNz");
    assert_eq!(basic_authorization("a", ""), "Basic YTo=");
    assert_eq!(basic_authorization("ab", ""), "Basic YWI6");
}

#[test]
fn email_settings_need_both_keys() {
    let missing = EmailConfig::from_settings(None, Some("s".to_string()), None, None);
    assert_eq!(missing.err().as_deref(), Some("MAILJET_API_KEY not set"));
    let missing = EmailConfig::from_settings(Some("k".to_string()), None, None, None);
    assert_eq!(missing.err().as_deref(), Some("MAILJET_SECRET_KEY not set"));
    let cfg = EmailConfig::from_settings(Some("k".to_string()), Some("s".to_string()), None, None).unwrap();
    assert_eq!(cfg.from_email, "noreply@handshake.local");
    assert_eq!(cfg.from_name, "Handshake Marketplace");
    assert_eq!(cfg.authorization(), "Basic azpz");
    let cfg = EmailConfig::from_settings(
        Some("k".to_string()),
        Some("s".to_string()),
        Some("shop@x.com".to_string()),
        Some("Shop".to_string()),
    )
    .unwrap();
    assert_eq!(cfg.from_email, "shop@x.com");
    assert_eq!(cfg.from_name, "Shop");
}

#[test]
fn templates_are_rendered_with_their_variables() {
    let body = render_verification_email("Alice", "012345").unwrap();
    assert_eq!(body, verification_email_html("Alice", "012345"));
    let order = render_order_notification("Bo", "Lamp", 17, "Depok").unwrap();
    assert!(order.contains("<h2>Hello, Bo!</h2>"));
    assert!(order.contains("Your order #17 for <strong>Lamp</strong> is confirmed."));
    assert!(order.contains("Meeting point: Depok"));
}

#[test]
fn outgoing_emails_are_composed() {
    let v = verification_email(&VerificationEmailRequest {
        to_email: "a@x.com".to_string(),
        to_name: "A".to_string(),
        verification_code: "999000".to_string(),
    })
    .unwrap();
    assert_eq!(v.to_email, "a@x.com");
    assert_eq!(v.subject, "Verify your Handshake account");
    assert!(v.html_body.contains("<div class=\"code\">999000</div>"));
    let o = order_notification_email(&OrderNotificationRequest {
        to_email: "b@x.com".to_string(),
        to_name: "B".to_string(),
        product_title: "Desk".to_string(),
        order_id: -3,
        midpoint_address: "Bogor".to_string(),
    })
    .unwrap();
    assert_eq!(o.subject, "Order Confirmation - Desk");
    assert!(o.html_body.contains("Your order #-3 for <strong>Desk</strong>"));
    assert_eq!(order_subject("Chair"), "Order Confirmation - Chair");
    let c = custom_email(&CustomEmailRequest {
        to_email: "c@x.com".to_string(),
        subject: "Hello".to_string(),
        body: "<p>Hi</p>".to_string(),
    });
    assert_eq!(c.subject, "Hello");
    assert_eq!(c.html_body, "<p>Hi</p>");
    let r = EmailResponse::sent("Email sent successfully");
    assert!(r.success);
    assert_eq!(r.message, "Email sent successfully");
}

#[test]
fn smtp_body_carries_name_and_code() {
    let body = verification_email_html("Alice", "123456");
    assert!(body.contains("<h2>Welcome, Alice!</h2>"));
    assert!(body.contains("<div class=\"code\">123456</div>"));
    assert!(body.contains("This code will expire in 15 minutes."));
}

#[test]
fn decimal_text_writes_integers() {
    assert_eq!(decimal_text(0), "0");
    assert_eq!(decimal_text(7), "7");
    assert_eq!(decimal_text(120), "120");
    assert_eq!(decimal_text(-45), "-45");
    assert_eq!(decimal_text(i32::MAX), "2147483647");
    assert_eq!(decimal_text(i32::MIN), "-2147483648");
}

#[test]
fn listing_pages_are_bounded() {
    assert_eq!(page_limit(None), 20);
    assert_eq!(page_limit(Some(5)), 5);
    assert_eq!(page_limit(Some(100)), 100);
    assert_eq!(page_limit(Some(500)), 100);
    assert_eq!(page_offset(None), 0);
    assert_eq!(page_offset(Some(40)), 40);
}

#[test]
fn only_the_parties_may_act() {
    assert_eq!(check_seller(3, 3), Ok(()));
    assert_eq!(check_seller(3, 4), Err(AuthError::Forbidden));
    assert_eq!(check_order_party(1, 2, 1), Ok(()));
    assert_eq!(check_order_party(1, 2, 2), Ok(()));
    assert_eq!(check_order_party(1, 2, 3), Err(AuthError::Forbidden));
}

#[test]
fn geocoding_query_is_percent_encoded() {
    assert_eq!(nominatim_base(None), "http://localhost:8080");
    assert_eq!(nominatim_base(Some("http://geo:9000".to_string())), "http://geo:9000");
    assert_eq!(
        search_url("http://geo", "Jl. Sudirman 1, Jakarta"),
        "http://geo/search?q=Jl.%20Sudirman%201%2C%20Jakarta&format=json&limit=1"
    );
    assert_eq!(search_url("http://geo", "caf\u{e9}~_-"), "http://geo/search?q=caf%C3%A9~_-&format=json&limit=1");
}

#[test]
fn cors_headers_allow_any_origin() {
    let cors = CORS;
    assert_eq!(cors.name(), "Add CORS headers to responses");
    let headers = cors.headers("POST, GET, OPTIONS");
    assert_eq!(headers.len(), 4);
    assert_eq!(headers[0], ("Access-Control-Allow-Origin".to_string(), "*".to_string()));
    assert_eq!(headers[1], ("Access-Control-Allow-Methods".to_string(), "POST, GET, OPTIONS".to_string()));
    assert_eq!(headers[2], ("Access-Control-Allow-Headers".to_string(), "*, Authorization".to_string()));
    assert_eq!(headers[3], ("Access-Control-Allow-Credentials".to_string(), "true".to_string()));
}
