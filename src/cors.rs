//! Cross-origin response headers.

use vstd::prelude::*;

verus! {

/// Cross-origin headers added to every response.
pub struct CORS;

/// The headers a response receives, given the methods it allows.
pub open spec fn cors_headers(allow_methods: Seq<char>) -> Seq<(Seq<char>, Seq<char>)> {
    seq![
        ("Access-Control-Allow-Origin"@, "*"@),
        ("Access-Control-Allow-Methods"@, allow_methods),
        ("Access-Control-Allow-Headers"@, "*, Authorization"@),
        ("Access-Control-Allow-Credentials"@, "true"@),
    ]
}

impl CORS {
    /// The name the headers are registered under.
    pub fn name(&self) -> (r: &'static str)
        ensures
            r@ == "Add CORS headers to responses"@,
    {
        "Add CORS headers to responses"
    }

    /// The headers to set on a response, in order.
    pub fn headers(&self, allow_methods: &str) -> (r: Vec<(String, String)>)
        ensures
            r@.map_values(|p: (String, String)| (p.0@, p.1@)) == cors_headers(allow_methods@),
    {
        let mut r: Vec<(String, String)> = Vec::new();
        r.push(("Access-Control-Allow-Origin".to_string(), "*".to_string()));
        r.push(("Access-Control-Allow-Methods".to_string(), allow_methods.to_string()));
        r.push(("Access-Control-Allow-Headers".to_string(), "*, Authorization".to_string()));
        r.push(("Access-Control-Allow-Credentials".to_string(), "true".to_string()));
        assert(r@.map_values(|p: (String, String)| (p.0@, p.1@)) =~= cors_headers(allow_methods@));
        r
    }
}

} // verus!
