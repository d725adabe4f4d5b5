//! Origin gating: the fixed allowlist consulted on every inbound
//! connection, and the CORS header set attached to every response.

use vstd::prelude::*;

verus! {

/// The set of origins that may receive a response, fixed at startup and
/// never mutated afterwards.
pub struct OriginAllowlist {
    origins: Vec<String>,
}

/// Whether `origin` stands in the allowlist `origins`.
pub open spec fn spec_allows(origins: Seq<Seq<char>>, origin: Seq<char>) -> bool {
    origins.contains(origin)
}

impl OriginAllowlist {
    /// The origins as a sequence of character sequences.
    pub closed spec fn view(&self) -> Seq<Seq<char>> {
        self.origins.deep_view()
    }

    /// Fixes the allowlist.
    pub fn new(origins: Vec<String>) -> (r: Self)
        ensures
            r@ == origins.deep_view(),
    {
        OriginAllowlist { origins }
    }

    /// The origins, in the order they were given.
    pub fn origins(&self) -> (r: &Vec<String>)
        ensures
            r.deep_view() == self@,
    {
        &self.origins
    }

    /// Decides whether a request that declared `origin` may receive the
    /// allow-origin header: exactly when the origin stands in the list.
    pub fn is_allowed(&self, origin: &str) -> (r: bool)
        ensures
            r == spec_allows(self@, origin@),
    {
        let target = origin.to_owned();
        let n = self.origins.len();
        let mut i: usize = 0;
        while i < n
            invariant
                n == self.origins.len(),
                i <= n,
                target@ == origin@,
                forall|j: int| 0 <= j < i ==> self@[j] != origin@,
            decreases n - i,
        {
            if self.origins[i] == target {
                assert(self@[i as int] == origin@);
                return true;
            }
            i = i + 1;
        }
        assert(forall|j: int| 0 <= j < self@.len() ==> self@[j] != origin@);
        false
    }
}

/// The CORS headers attached to every response of the bridge: headers are
/// always wildcard, methods are always restricted to POST and OPTIONS,
/// and the allow-origin header names the request's origin exactly when
/// that origin stands in the allowlist.
pub struct CorsHeaders {
    pub allow_origin: Option<String>,
    pub allow_headers: String,
    pub allow_methods: String,
}

impl CorsHeaders {
    /// What a correctly gated header set looks like for a request that
    /// declared `origin` against the allowlist `origins`: an unlisted or
    /// absent origin never receives the allow-origin header.
    pub open spec fn well_formed(
        &self,
        origins: Seq<Seq<char>>,
        origin: Option<Seq<char>>,
    ) -> bool {
        &&& self.allow_headers@ == "*"@
        &&& self.allow_methods@ == "POST, OPTIONS"@
        &&& match origin {
            Some(o) => self.allow_origin matches Some(a) <==> spec_allows(origins, o),
            None => self.allow_origin is None,
        }
        &&& match self.allow_origin {
            Some(a) => origin == Some(a@),
            None => true,
        }
    }
}

/// Builds the CORS header set for a request that declared `origin` (or
/// declared none), gated by the allowlist.
pub fn cors_headers(allowlist: &OriginAllowlist, origin: Option<&String>) -> (r: CorsHeaders)
    ensures
        r.well_formed(
            allowlist@,
            match origin {
                Some(o) => Some(o@),
                None => None,
            },
        ),
{
    let allow_origin = match origin {
        Some(o) => {
            if allowlist.is_allowed(o.as_str()) {
                Some(o.clone())
            } else {
                None
            }
        }
        None => None,
    };
    CorsHeaders {
        allow_origin,
        allow_headers: "*".to_owned(),
        allow_methods: "POST, OPTIONS".to_owned(),
    }
}

/// A request whose declared origin is absent from the allowlist is still
/// answered — every outcome of the bridge carries a response — but its
/// well-formed header set never includes the allow-origin header.
pub proof fn lemma_unlisted_origin_gets_no_allow_origin(
    h: CorsHeaders,
    origins: Seq<Seq<char>>,
    o: Seq<char>,
)
    requires
        h.well_formed(origins, Some(o)),
        !spec_allows(origins, o),
    ensures
        h.allow_origin is None,
{
}

} // verus!
