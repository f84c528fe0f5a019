//! Geolocation enrichment: the coarse location attached to a security event.

use vstd::prelude::*;

verus! {

/// What a lookup of an IP address found.
pub struct IpInfoResponse {
    pub city: Option<String>,
    pub country: Option<String>,
}

impl Default for IpInfoResponse {
    fn default() -> (r: IpInfoResponse)
        ensures
            r.city is None,
            r.country is None,
    {
        IpInfoResponse { city: None, country: None }
    }
}

/// A client of the geolocation provider, holding its access token.
pub struct GeoLocator {
    token: String,
}

impl View for GeoLocator {
    type V = Seq<char>;

    closed spec fn view(&self) -> Seq<char> {
        self.token@
    }
}

impl GeoLocator {
    /// A locator that authenticates to the provider with `token`.
    pub fn new(token: String) -> (r: GeoLocator)
        ensures
            r@ == token@,
    {
        GeoLocator { token }
    }

    /// The provider's access token.
    pub fn token(&self) -> (r: &str)
        ensures
            r@ == self@,
    {
        self.token.as_str()
    }
}

/// The placeholder for a location part that could not be resolved.
pub open spec fn unknown_text() -> Seq<char> {
    seq!['u', 'n', 'k', 'n', 'o', 'w', 'n']
}

/// A location part, or the placeholder when it is missing.
pub open spec fn part_or_unknown(part: Option<String>) -> Seq<char> {
    match part {
        Some(p) => p@,
        None => unknown_text(),
    }
}

/// The placeholder text for an unresolved location part.
fn unknown() -> (r: String)
    ensures
        r@ == unknown_text(),
{
    proof {
        reveal_strlit("unknown");
    }
    let r = "unknown".to_owned();
    assert(r@ =~= unknown_text());
    r
}

/// The (city, country) of a lookup; a failed lookup, or a missing part,
/// degrades to "unknown".
pub fn resolve_location(found: Option<IpInfoResponse>) -> (r: (String, String))
    ensures
        match found {
            Some(info) => r.0@ == part_or_unknown(info.city) && r.1@ == part_or_unknown(
                info.country,
            ),
            None => r.0@ == unknown_text() && r.1@ == unknown_text(),
        },
{
    match found {
        None => (unknown(), unknown()),
        Some(info) => {
            let city = match info.city {
                Some(c) => c,
                None => unknown(),
            };
            let country = match info.country {
                Some(c) => c,
                None => unknown(),
            };
            (city, country)
        },
    }
}

} // verus!
