use vstd::prelude::*;

verus! {

/// Header names.
pub const X_CONTENT_TYPE_OPTIONS: &'static str = "X-Content-Type-Options";
pub const X_FRAME_OPTIONS: &'static str = "X-Frame-Options";
pub const X_XSS_PROTECTION: &'static str = "X-XSS-Protection";
pub const STRICT_TRANSPORT_SECURITY: &'static str = "Strict-Transport-Security";
pub const CONTENT_SECURITY_POLICY: &'static str = "Content-Security-Policy";
pub const REFERRER_POLICY: &'static str = "Referrer-Policy";
pub const PERMISSIONS_POLICY: &'static str = "Permissions-Policy";

/// Header values.
pub const NOSNIFF: &'static str = "nosniff";
pub const DENY: &'static str = "DENY";
pub const XSS_BLOCK: &'static str = "1; mode=block";
pub const HSTS_VALUE: &'static str = "max-age=31536000; includeSubDomains";
pub const CSP_API_VALUE: &'static str = "default-src 'none'; frame-ancestors 'none'";
pub const REFERRER_POLICY_VALUE: &'static str = "strict-origin-when-cross-origin";
pub const PERMISSIONS_POLICY_VALUE: &'static str = "geolocation=(), microphone=(), camera=()";

/// The deployment name under which HSTS is sent.
pub const PRODUCTION: &'static str = "production";

/// What `str::to_lowercase` makes of `s`.
pub uninterp spec fn lower_of(s: Seq<char>) -> Seq<char>;

/// Relies on `str::to_lowercase` of std: the result depends on the characters
/// of `s` alone.
#[verifier::external_body]
fn lowercase(s: &str) -> (r: String)
    ensures
        r@ == lower_of(s@),
{
    s.to_lowercase()
}

/// Whether an already lower-cased deployment name is the production one.
pub fn is_production(lowered: &String) -> (r: bool)
    ensures
        r == (lowered@ == PRODUCTION@),
{
    *lowered == String::from_str(PRODUCTION)
}

/// Whether HSTS is sent under the deployment name `rust_env`: only when it
/// is set and reads "production" in any case.
pub fn hsts_for_environment(rust_env: Option<&str>) -> (r: bool)
    ensures
        r == match rust_env {
            Some(v) => lower_of(v@) == PRODUCTION@,
            None => false,
        },
{
    match rust_env {
        Some(v) => is_production(&lowercase(v)),
        None => false,
    }
}

/// The security headers added to every response: HSTS only in production.
#[derive(Clone, Copy, Debug)]
pub struct SecurityHeadersLayer {
    pub include_hsts: bool,
}

/// The headers, as (name, value) pairs, that a layer adds.
pub open spec fn header_list(include_hsts: bool) -> Seq<(Seq<char>, Seq<char>)> {
    let base = seq![
        (X_CONTENT_TYPE_OPTIONS@, NOSNIFF@),
        (X_FRAME_OPTIONS@, DENY@),
        (X_XSS_PROTECTION@, XSS_BLOCK@),
        (CONTENT_SECURITY_POLICY@, CSP_API_VALUE@),
        (REFERRER_POLICY@, REFERRER_POLICY_VALUE@),
        (PERMISSIONS_POLICY@, PERMISSIONS_POLICY_VALUE@),
    ];
    if include_hsts {
        base.push((STRICT_TRANSPORT_SECURITY@, HSTS_VALUE@))
    } else {
        base
    }
}

/// The characters of each name and value.
pub open spec fn pair_views(v: Seq<(String, String)>) -> Seq<(Seq<char>, Seq<char>)> {
    v.map_values(|p: (String, String)| (p.0@, p.1@))
}

fn push_header(v: &mut Vec<(String, String)>, name: &str, value: &str)
    ensures
        pair_views(final(v)@) == pair_views(old(v)@).push((name@, value@)),
{
    let ghost before = v@;
    v.push((String::from_str(name), String::from_str(value)));
    proof {
        assert(pair_views(v@) =~= pair_views(before).push((name@, value@)));
    }
}

impl SecurityHeadersLayer {
    pub fn new(include_hsts: bool) -> (r: Self)
        ensures
            r.include_hsts == include_hsts,
    {
        SecurityHeadersLayer { include_hsts }
    }

    /// The layer for the deployment name `rust_env`.
    pub fn for_environment(rust_env: Option<&str>) -> (r: Self)
        ensures
            r.include_hsts == match rust_env {
                Some(v) => lower_of(v@) == PRODUCTION@,
                None => false,
            },
    {
        Self::new(hsts_for_environment(rust_env))
    }

    /// The headers this layer sets on each response, in order.
    pub fn security_headers(&self) -> (r: Vec<(String, String)>)
        ensures
            pair_views(r@) == header_list(self.include_hsts),
    {
        let mut v: Vec<(String, String)> = Vec::new();
        proof {
            assert(pair_views(v@) =~= Seq::<(Seq<char>, Seq<char>)>::empty());
        }
        push_header(&mut v, X_CONTENT_TYPE_OPTIONS, NOSNIFF);
        push_header(&mut v, X_FRAME_OPTIONS, DENY);
        push_header(&mut v, X_XSS_PROTECTION, XSS_BLOCK);
        push_header(&mut v, CONTENT_SECURITY_POLICY, CSP_API_VALUE);
        push_header(&mut v, REFERRER_POLICY, REFERRER_POLICY_VALUE);
        push_header(&mut v, PERMISSIONS_POLICY, PERMISSIONS_POLICY_VALUE);
        if self.include_hsts {
            push_header(&mut v, STRICT_TRANSPORT_SECURITY, HSTS_VALUE);
        }
        proof {
            assert(pair_views(v@) =~= header_list(self.include_hsts));
        }
        v
    }
}

/// The security headers layer for the deployment name `rust_env`.
pub fn create_security_headers_layer(rust_env: Option<&str>) -> (r: SecurityHeadersLayer)
    ensures
        r.include_hsts == match rust_env {
            Some(v) => lower_of(v@) == PRODUCTION@,
            None => false,
        },
{
    SecurityHeadersLayer::for_environment(rust_env)
}

} // verus!
