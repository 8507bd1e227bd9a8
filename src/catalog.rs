//! The product and order services' rules: paging, who may act on a product
//! or an order, readiness, and the geocoding query.

use vstd::prelude::*;
use vstd::utf8::encode_utf8;

use crate::error::AuthError;
use crate::health::{DbCheck, HealthStatus};

verus! {

/// The page size used when a listing names none.
pub const DEFAULT_PAGE_LIMIT: i64 = 20;

/// The largest page size a listing returns.
pub const MAX_PAGE_LIMIT: i64 = 100;

/// The page size of a listing: the requested one, 20 when none is given,
/// and never more than 100.
pub fn page_limit(limit: Option<i64>) -> (r: i64)
    ensures
        r == (match limit {
            Some(l) => if l < MAX_PAGE_LIMIT { l } else { MAX_PAGE_LIMIT },
            None => DEFAULT_PAGE_LIMIT,
        }),
{
    let l = match limit {
        Some(l) => l,
        None => DEFAULT_PAGE_LIMIT,
    };
    if l < MAX_PAGE_LIMIT {
        l
    } else {
        MAX_PAGE_LIMIT
    }
}

/// The offset of a listing: the requested one, or the start.
pub fn page_offset(offset: Option<i64>) -> (r: i64)
    ensures
        r == (match offset {
            Some(o) => o,
            None => 0,
        }),
{
    match offset {
        Some(o) => o,
        None => 0,
    }
}

/// Only a product's seller may change or delete it.
pub fn check_seller(seller_id: i32, user_id: i32) -> (r: Result<(), AuthError>)
    ensures
        seller_id == user_id ==> r is Ok,
        seller_id != user_id ==> r == Err::<(), AuthError>(AuthError::Forbidden),
{
    if seller_id != user_id {
        Err(AuthError::Forbidden)
    } else {
        Ok(())
    }
}

/// Only an order's buyer or seller may see it.
pub fn check_order_party(buyer_id: i32, seller_id: i32, user_id: i32) -> (r: Result<(), AuthError>)
    ensures
        (buyer_id == user_id || seller_id == user_id) ==> r is Ok,
        !(buyer_id == user_id || seller_id == user_id) ==> r == Err::<(), AuthError>(AuthError::Forbidden),
{
    if buyer_id != user_id && seller_id != user_id {
        Err(AuthError::Forbidden)
    } else {
        Ok(())
    }
}

/// The answer of the product service's readiness probe.
pub struct ReadyResponse {
    pub status: HealthStatus,
    pub service: String,
    pub db: DbCheck,
}

/// The product service is ready exactly when its database answers.
pub fn catalog_ready(service: &str, db: DbCheck) -> (r: (u16, ReadyResponse))
    ensures
        db.ok ==> r.0 == 200 && r.1.status == HealthStatus::Healthy,
        !db.ok ==> r.0 == 503 && r.1.status == HealthStatus::Down,
        r.1.service@ == service@,
        r.1.db == db,
{
    if db.ok {
        (200, ReadyResponse { status: HealthStatus::Healthy, service: service.to_string(), db })
    } else {
        (503, ReadyResponse { status: HealthStatus::Down, service: service.to_string(), db })
    }
}

/// Bytes that percent-encoding leaves as they are: ASCII letters and digits,
/// `-`, `.`, `_` and `~`.
pub open spec fn is_unreserved(b: u8) -> bool {
    (48 <= b <= 57) || (65 <= b <= 90) || (97 <= b <= 122) || b == 45 || b == 46 || b == 95 || b == 126
}

/// The ASCII code of an upper-case hexadecimal digit.
pub open spec fn hex_digit(d: int) -> u8 {
    if d < 10 {
        (48 + d) as u8
    } else {
        (55 + d) as u8
    }
}

/// Percent-encoding: unreserved bytes stay, every other byte becomes `%`
/// and two upper-case hexadecimal digits.
pub open spec fn percent_encoded(b: Seq<u8>) -> Seq<u8>
    decreases b.len(),
{
    if b.len() == 0 {
        Seq::empty()
    } else if is_unreserved(b[0]) {
        seq![b[0]] + percent_encoded(b.drop_first())
    } else {
        seq![37u8, hex_digit(b[0] as int / 16), hex_digit(b[0] as int % 16)] + percent_encoded(b.drop_first())
    }
}

/// Relies on urlencoding::encode: every UTF-8 byte but ASCII letters, digits,
/// `-`, `.`, `_` and `~` is percent-encoded with upper-case digits.
#[verifier::external_body]
fn url_encode(text: &str) -> (r: String)
    ensures
        encode_utf8(r@) == percent_encoded(encode_utf8(text@)),
{
    urlencoding::encode(text).into_owned()
}

/// The geocoding server to ask: the configured one, or a local one.
pub fn nominatim_base(configured: Option<String>) -> (r: String)
    ensures
        r@ == (match configured {
            Some(c) => c@,
            None => "http://localhost:8080"@,
        }),
{
    match configured {
        Some(c) => c,
        None => "http://localhost:8080".to_string(),
    }
}

/// The query that looks up the best match for an address.
pub fn search_url(base: &str, address: &str) -> (r: String)
    ensures
        exists|q: Seq<char>|
            encode_utf8(q) == percent_encoded(encode_utf8(address@)) && r@ == base@ + "/search?q="@ + q
                + "&format=json&limit=1"@,
{
    let q = url_encode(address);
    let r = base.to_string().concat("/search?q=").concat(q.as_str()).concat("&format=json&limit=1");
    assert(r@ == base@ + "/search?q="@ + q@ + "&format=json&limit=1"@);
    r
}

} // verus!
