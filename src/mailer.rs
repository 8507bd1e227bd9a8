//! The mail service's rules: Mailjet settings and authorization, reply and
//! status checks, template rendering, and the verification body sent over
//! SMTP.

use vstd::prelude::*;
use vstd::utf8::encode_utf8;

use base64::Engine;

use crate::health::{error_is, HealthStatus};
use crate::otp::{decimal_text, int_text};
use crate::store::same_text;

verus! {

/// The base64 alphabet of RFC 4648.
pub open spec fn base64_alphabet() -> Seq<char> {
    seq![
        'A', 'B', 'C', 'D', 'E', 'F', 'G', 'H', 'I', 'J', 'K', 'L', 'M', 'N', 'O', 'P',
        'Q', 'R', 'S', 'T', 'U', 'V', 'W', 'X', 'Y', 'Z', 'a', 'b', 'c', 'd', 'e', 'f',
        'g', 'h', 'i', 'j', 'k', 'l', 'm', 'n', 'o', 'p', 'q', 'r', 's', 't', 'u', 'v',
        'w', 'x', 'y', 'z', '0', '1', '2', '3', '4', '5', '6', '7', '8', '9', '+', '/',
    ]
}

/// Standard base64 with padding: each group of three bytes becomes four
/// characters of six bits each, and a last group of one or two bytes is
/// padded with `=`.
pub open spec fn base64_standard(b: Seq<u8>) -> Seq<char>
    decreases b.len(),
{
    let a = base64_alphabet();
    let x = if b.len() > 0 { b[0] as int } else { 0 };
    let y = if b.len() > 1 { b[1] as int } else { 0 };
    let z = if b.len() > 2 { b[2] as int } else { 0 };
    if b.len() == 0 {
        Seq::empty()
    } else if b.len() == 1 {
        seq![a[x / 4], a[(x % 4) * 16], '=', '=']
    } else if b.len() == 2 {
        seq![a[x / 4], a[(x % 4) * 16 + y / 16], a[(y % 16) * 4], '=']
    } else {
        seq![a[x / 4], a[(x % 4) * 16 + y / 16], a[(y % 16) * 4 + z / 64], a[z % 64]]
            + base64_standard(b.subrange(3, b.len() as int))
    }
}

/// Relies on base64's STANDARD engine (`Engine::encode`): standard base64 with
/// padding of the text's UTF-8 bytes.
#[verifier::external_body]
fn base64_encode(data: &str) -> (r: String)
    ensures
        r@ == base64_standard(encode_utf8(data@)),
{
    base64::engine::general_purpose::STANDARD.encode(data)
}

/// The template of the verification email; it calls no function.
pub const VERIFICATION_TEMPLATE: &'static str = "\n<!DOCTYPE html>\n<html>\n<head>\n    <style>\n        body { font-family: Arial, sans-serif; line-height: 1.6; color: #333; }\n        .container { max-width: 600px; margin: 0 auto; padding: 20px; }\n        .header { background-color: #4F46E5; color: white; padding: 20px; text-align: center; }\n        .content { background-color: #f4f4f4; padding: 30px; }\n        .code { font-size: 32px; font-weight: bold; color: #4F46E5; text-align: center; letter-spacing: 5px; padding: 20px; background: white; border-radius: 5px; }\n        .footer { text-align: center; padding: 20px; font-size: 12px; color: #666; }\n    </style>\n</head>\n<body>\n    <div class=\"container\">\n        <div class=\"header\">\n            <h1>Handshake Marketplace</h1>\n        </div>\n        <div class=\"content\">\n            <h2>Welcome, {{ name }}!</h2>\n            <p>Thank you for registering with Handshake Marketplace. To complete your registration, please verify your email address using the code below:</p>\n            <div class=\"code\">{{ code }}</div>\n            <p>This code will expire in 15 minutes.</p>\n            <p>If you didn't create an account with Handshake, please ignore this email.</p>\n        </div>\n        <div class=\"footer\">\n            <p>© 2026 Handshake Marketplace. All rights reserved.</p>\n        </div>\n    </div>\n</body>\n</html>\n        ";

/// The template of the order confirmation email; it calls no function.
pub const ORDER_NOTIFICATION_TEMPLATE: &'static str = "<!DOCTYPE html>\n<html>\n<body>\n    <h1>Handshake Marketplace</h1>\n    <h2>Hello, {{ name }}!</h2>\n    <p>Your order #{{ order_id }} for <strong>{{ product_title }}</strong> is confirmed.</p>\n    <p>Meeting point: {{ midpoint_address }}</p>\n    <p>&copy; 2026 Handshake Marketplace. All rights reserved.</p>\n</body>\n</html>\n";

/// The templates this library renders. Neither calls a function, so none
/// reads the environment through tera's `get_env`.
pub open spec fn is_library_template(template: Seq<char>) -> bool {
    template == VERIFICATION_TEMPLATE@ || template == ORDER_NOTIFICATION_TEMPLATE@
}

/// What tera renders, without autoescaping, for a template that calls no
/// function reading outside state, with each name bound to its text; `None`
/// when it fails to render.
pub uninterp spec fn rendered(template: Seq<char>, vars: Seq<(Seq<char>, Seq<char>)>) -> Option<Seq<char>>;

/// The names and texts of template variables, as character sequences.
pub open spec fn text_pairs(vars: Seq<(String, String)>) -> Seq<(Seq<char>, Seq<char>)> {
    vars.map_values(|p: (String, String)| (p.0@, p.1@))
}

/// Relies on tera::Tera::one_off with autoescaping off, the context holding
/// each variable as a string. Limited to the library's templates, which call
/// no function, the output depends on the template and the variables alone.
#[verifier::external_body]
fn render_with(template: &str, vars: &Vec<(String, String)>) -> (r: Option<String>)
    requires
        is_library_template(template@),
    ensures
        match r {
            Some(s) => rendered(template@, text_pairs(vars@)) == Some(s@),
            None => rendered(template@, text_pairs(vars@)) is None,
        },
{
    let mut context = tera::Context::new();
    for (name, value) in vars {
        context.insert(name.as_str(), value);
    }
    tera::Tera::one_off(template, &context, false).ok()
}

/// Mailjet account settings.
pub struct EmailConfig {
    pub mailjet_api_key: String,
    pub mailjet_secret_key: String,
    pub from_email: String,
    pub from_name: String,
}

impl EmailConfig {
    /// Settings from looked-up values: both keys are required, and the sender
    /// defaults to `noreply@handshake.local`, named `Handshake Marketplace`.
    pub fn from_settings(
        api_key: Option<String>,
        secret_key: Option<String>,
        from_email: Option<String>,
        from_name: Option<String>,
    ) -> (r: Result<EmailConfig, String>)
        ensures
            api_key is None ==> (r matches Err(e) && e@ == "MAILJET_API_KEY not set"@),
            api_key is Some && secret_key is None ==> (r matches Err(e) && e@ == "MAILJET_SECRET_KEY not set"@),
            api_key is Some && secret_key is Some ==> (r matches Ok(c) && Some(c.mailjet_api_key) == api_key
                && Some(c.mailjet_secret_key) == secret_key && c.from_email@ == (match from_email {
                Some(f) => f@,
                None => "noreply@handshake.local"@,
            }) && c.from_name@ == (match from_name {
                Some(f) => f@,
                None => "Handshake Marketplace"@,
            })),
    {
        let mailjet_api_key = match api_key {
            Some(k) => k,
            None => return Err("MAILJET_API_KEY not set".to_string()),
        };
        let mailjet_secret_key = match secret_key {
            Some(k) => k,
            None => return Err("MAILJET_SECRET_KEY not set".to_string()),
        };
        let from_email = match from_email {
            Some(f) => f,
            None => "noreply@handshake.local".to_string(),
        };
        let from_name = match from_name {
            Some(f) => f,
            None => "Handshake Marketplace".to_string(),
        };
        Ok(EmailConfig { mailjet_api_key, mailjet_secret_key, from_email, from_name })
    }

    /// The HTTP Basic `Authorization` value for the Mailjet API:
    /// `Basic ` and the base64 of `key:secret`.
    pub fn authorization(&self) -> (r: String)
        ensures
            r@ == "Basic "@ + base64_standard(encode_utf8(self.mailjet_api_key@ + ":"@ + self.mailjet_secret_key@)),
    {
        basic_authorization(self.mailjet_api_key.as_str(), self.mailjet_secret_key.as_str())
    }
}

/// The HTTP Basic `Authorization` value for a key and a secret.
pub fn basic_authorization(api_key: &str, secret_key: &str) -> (r: String)
    ensures
        r@ == "Basic "@ + base64_standard(encode_utf8(api_key@ + ":"@ + secret_key@)),
{
    let pair = api_key.to_string().concat(":").concat(secret_key);
    let encoded = base64_encode(pair.as_str());
    "Basic ".to_string().concat(encoded.as_str())
}

/// Mailjet accepted a send when it reports at least one message and the
/// first one has the status `success`.
pub fn check_send_reply(statuses: &Vec<String>) -> (r: Result<(), String>)
    ensures
        statuses@.len() == 0 ==> (r matches Err(e) && e@ == "No messages in Mailjet response"@),
        statuses@.len() > 0 && statuses@[0]@ == "success"@ ==> r is Ok,
        statuses@.len() > 0 && statuses@[0]@ != "success"@ ==> (r matches Err(e) && e@ == "Mailjet message status: "@
            + statuses@[0]@),
{
    if statuses.len() == 0 {
        return Err("No messages in Mailjet response".to_string());
    }
    let first = &statuses[0];
    if same_text(first.as_str(), "success") {
        Ok(())
    } else {
        Err("Mailjet message status: ".to_string().concat(first.as_str()))
    }
}

/// Reads the status of Mailjet's contact endpoint: any success status
/// means reachable with working credentials; 401 means wrong credentials.
pub fn classify_mailjet_status(status: u16, status_text: &str, latency_ms: u128) -> (r: Result<u128, String>)
    ensures
        200 <= status <= 299 ==> r == Ok::<u128, String>(latency_ms),
        status == 401 ==> (r matches Err(e) && e@ == "Mailjet API authentication failed - check credentials"@),
        !(200 <= status <= 299) && status != 401 ==> (r matches Err(e) && e@ == "Mailjet API returned status: "@
            + status_text@),
{
    if 200 <= status && status <= 299 {
        Ok(latency_ms)
    } else if status == 401 {
        Err("Mailjet API authentication failed - check credentials".to_string())
    } else {
        Err("Mailjet API returned status: ".to_string().concat(status_text))
    }
}

/// Mailjet's health as the email service sees it.
pub struct MailjetCheck {
    pub ok: bool,
    pub credentials_configured: bool,
    pub latency_ms: Option<u128>,
    pub error: Option<String>,
}

/// The answer of the email service's readiness probe.
pub struct ReadyResponse {
    pub status: HealthStatus,
    pub service: String,
    pub mailjet: MailjetCheck,
}

/// The email service is ready only with its credentials configured and
/// Mailjet reachable with them. `probe` is the outcome of the Mailjet call
/// and `elapsed_ms` the time it took, which a failed probe reports.
pub fn mail_ready(service: &str, credentials_configured: bool, probe: Result<u128, String>, elapsed_ms: u128) -> (r: (
    u16,
    ReadyResponse,
))
    ensures
        r.1.service@ == service@,
        r.1.mailjet.credentials_configured == credentials_configured,
        !credentials_configured ==> r.0 == 503 && r.1.status == HealthStatus::Down && !r.1.mailjet.ok
            && r.1.mailjet.latency_ms is None && error_is(
            r.1.mailjet.error,
            "Mailjet credentials not configured (MAILJET_API_KEY, MAILJET_SECRET_KEY, FROM_EMAIL required)"@,
        ),
        credentials_configured ==> match probe {
            Ok(ms) => r.0 == 200 && r.1.status == HealthStatus::Healthy && r.1.mailjet.ok && r.1.mailjet.latency_ms == Some(ms)
                && r.1.mailjet.error is None,
            Err(e) => r.0 == 503 && r.1.status == HealthStatus::Down && !r.1.mailjet.ok && r.1.mailjet.latency_ms
                == Some(elapsed_ms) && r.1.mailjet.error == Some(e),
        },
{
    if !credentials_configured {
        return (503, ReadyResponse {
            status: HealthStatus::Down,
            service: service.to_string(),
            mailjet: MailjetCheck {
                ok: false,
                credentials_configured: false,
                latency_ms: None,
                error: Some(
                    "Mailjet credentials not configured (MAILJET_API_KEY, MAILJET_SECRET_KEY, FROM_EMAIL required)".to_string(),
                ),
            },
        });
    }
    match probe {
        Ok(ms) => (200, ReadyResponse {
            status: HealthStatus::Healthy,
            service: service.to_string(),
            mailjet: MailjetCheck { ok: true, credentials_configured: true, latency_ms: Some(ms), error: None },
        }),
        Err(e) => (503, ReadyResponse {
            status: HealthStatus::Down,
            service: service.to_string(),
            mailjet: MailjetCheck { ok: false, credentials_configured: true, latency_ms: Some(elapsed_ms), error: Some(e) },
        }),
    }
}


/// The SMTP verification body up to the account's name.
pub const VERIFICATION_HTML_HEAD: &'static str = "\n<!DOCTYPE html>\n<html>\n<head>\n    <style>\n        body { font-family: Arial, sans-serif; line-height: 1.6; color: #333; }\n        .container { max-width: 600px; margin: 0 auto; padding: 20px; }\n        .header { background-color: #4F46E5; color: white; padding: 20px; text-align: center; }\n        .content { background-color: #f4f4f4; padding: 30px; }\n        .code { font-size: 32px; font-weight: bold; color: #4F46E5; text-align: center; letter-spacing: 5px; padding: 20px; background: white; border-radius: 5px; }\n        .footer { text-align: center; padding: 20px; font-size: 12px; color: #666; }\n    </style>\n</head>\n<body>\n    <div class=\"container\">\n        <div class=\"header\">\n            <h1>Handshake Marketplace</h1>\n        </div>\n        <div class=\"content\">\n            <h2>Welcome, ";

/// The SMTP verification body between the name and the passcode.
pub const VERIFICATION_HTML_MIDDLE: &'static str = "!</h2>\n            <p>Thank you for registering with Handshake Marketplace. To complete your registration, please verify your email address using the code below:</p>\n            <div class=\"code\">";

/// The SMTP verification body after the passcode.
pub const VERIFICATION_HTML_TAIL: &'static str = "</div>\n            <p>This code will expire in 15 minutes.</p>\n            <p>If you didn't create an account with Handshake, please ignore this email.</p>\n        </div>\n        <div class=\"footer\">\n            <p>© 2026 Handshake Marketplace. All rights reserved.</p>\n        </div>\n    </div>\n</body>\n</html>\n        ";

/// The HTML body of the verification email the auth service sends over SMTP.
pub fn verification_email_html(name: &str, code: &str) -> (r: String)
    ensures
        r@ == VERIFICATION_HTML_HEAD@ + name@ + VERIFICATION_HTML_MIDDLE@ + code@ + VERIFICATION_HTML_TAIL@,
{
    VERIFICATION_HTML_HEAD.to_string().concat(name).concat(VERIFICATION_HTML_MIDDLE).concat(code).concat(
        VERIFICATION_HTML_TAIL,
    )
}

/// The subject of a verification email.
pub const VERIFICATION_SUBJECT: &'static str = "Verify your Handshake account";

/// A request to send a verification email.
pub struct VerificationEmailRequest {
    pub to_email: String,
    pub to_name: String,
    pub verification_code: String,
}

/// A request to confirm an order by email.
pub struct OrderNotificationRequest {
    pub to_email: String,
    pub to_name: String,
    pub product_title: String,
    pub order_id: i32,
    pub midpoint_address: String,
}

/// A request to send an email as given.
pub struct CustomEmailRequest {
    pub to_email: String,
    pub subject: String,
    pub body: String,
}

/// The answer of the email service.
pub struct EmailResponse {
    pub success: bool,
    pub message: String,
}

impl EmailResponse {
    /// A successful send, with its message.
    pub fn sent(message: &str) -> (r: EmailResponse)
        ensures
            r.success,
            r.message@ == message@,
    {
        EmailResponse { success: true, message: message.to_string() }
    }
}

/// An email ready for delivery.
pub struct OutgoingEmail {
    pub to_email: String,
    pub subject: String,
    pub html_body: String,
}

/// Renders the verification template with `name` and `code`.
pub fn render_verification_email(name: &str, code: &str) -> (r: Result<String, String>)
    ensures
        ({
            let vars = seq![("name"@, name@), ("code"@, code@)];
            match r {
                Ok(body) => rendered(VERIFICATION_TEMPLATE@, vars) == Some(body@),
                Err(e) => rendered(VERIFICATION_TEMPLATE@, vars) is None && e@ == "Failed to render template"@,
            }
        }),
{
    let mut vars: Vec<(String, String)> = Vec::new();
    vars.push(("name".to_string(), name.to_string()));
    vars.push(("code".to_string(), code.to_string()));
    assert(text_pairs(vars@) =~= seq![("name"@, name@), ("code"@, code@)]);
    match render_with(VERIFICATION_TEMPLATE, &vars) {
        Some(body) => Ok(body),
        None => Err("Failed to render template".to_string()),
    }
}

/// Renders the order confirmation template with `name`, `product_title`,
/// `order_id` (in decimal) and `midpoint_address`.
pub fn render_order_notification(
    name: &str,
    product_title: &str,
    order_id: i32,
    midpoint_address: &str,
) -> (r: Result<String, String>)
    ensures
        ({
            let vars = seq![
                ("name"@, name@),
                ("product_title"@, product_title@),
                ("order_id"@, int_text(order_id as int)),
                ("midpoint_address"@, midpoint_address@),
            ];
            match r {
                Ok(body) => rendered(ORDER_NOTIFICATION_TEMPLATE@, vars) == Some(body@),
                Err(e) => rendered(ORDER_NOTIFICATION_TEMPLATE@, vars) is None && e@ == "Failed to render template"@,
            }
        }),
{
    let mut vars: Vec<(String, String)> = Vec::new();
    vars.push(("name".to_string(), name.to_string()));
    vars.push(("product_title".to_string(), product_title.to_string()));
    vars.push(("order_id".to_string(), decimal_text(order_id)));
    vars.push(("midpoint_address".to_string(), midpoint_address.to_string()));
    assert(text_pairs(vars@) =~= seq![
        ("name"@, name@),
        ("product_title"@, product_title@),
        ("order_id"@, int_text(order_id as int)),
        ("midpoint_address"@, midpoint_address@),
    ]);
    match render_with(ORDER_NOTIFICATION_TEMPLATE, &vars) {
        Some(body) => Ok(body),
        None => Err("Failed to render template".to_string()),
    }
}

/// The subject of an order confirmation.
pub fn order_subject(product_title: &str) -> (r: String)
    ensures
        r@ == "Order Confirmation - "@ + product_title@,
{
    "Order Confirmation - ".to_string().concat(product_title)
}

/// The verification email for a request.
pub fn verification_email(request: &VerificationEmailRequest) -> (r: Result<OutgoingEmail, String>)
    ensures
        ({
            let vars = seq![("name"@, request.to_name@), ("code"@, request.verification_code@)];
            match r {
                Ok(m) => rendered(VERIFICATION_TEMPLATE@, vars) == Some(m.html_body@) && m.to_email@ == request.to_email@
                    && m.subject@ == VERIFICATION_SUBJECT@,
                Err(_) => rendered(VERIFICATION_TEMPLATE@, vars) is None,
            }
        }),
{
    let html_body = render_verification_email(request.to_name.as_str(), request.verification_code.as_str())?;
    Ok(OutgoingEmail { to_email: request.to_email.clone(), subject: VERIFICATION_SUBJECT.to_string(), html_body })
}

/// The order confirmation email for a request.
pub fn order_notification_email(request: &OrderNotificationRequest) -> (r: Result<OutgoingEmail, String>)
    ensures
        ({
            let vars = seq![
                ("name"@, request.to_name@),
                ("product_title"@, request.product_title@),
                ("order_id"@, int_text(request.order_id as int)),
                ("midpoint_address"@, request.midpoint_address@),
            ];
            match r {
                Ok(m) => rendered(ORDER_NOTIFICATION_TEMPLATE@, vars) == Some(m.html_body@) && m.to_email@ == request.to_email@
                    && m.subject@ == "Order Confirmation - "@ + request.product_title@,
                Err(_) => rendered(ORDER_NOTIFICATION_TEMPLATE@, vars) is None,
            }
        }),
{
    let html_body = render_order_notification(
        request.to_name.as_str(),
        request.product_title.as_str(),
        request.order_id,
        request.midpoint_address.as_str(),
    )?;
    Ok(OutgoingEmail {
        to_email: request.to_email.clone(),
        subject: order_subject(request.product_title.as_str()),
        html_body,
    })
}

/// A custom email is sent as given.
pub fn custom_email(request: &CustomEmailRequest) -> (r: OutgoingEmail)
    ensures
        r.to_email@ == request.to_email@,
        r.subject@ == request.subject@,
        r.html_body@ == request.body@,
{
    OutgoingEmail {
        to_email: request.to_email.clone(),
        subject: request.subject.clone(),
        html_body: request.body.clone(),
    }
}

} // verus!
