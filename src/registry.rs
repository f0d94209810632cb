use vstd::prelude::*;

verus! {

/// The endpoint that issues pull tokens.
pub const TOKEN_ENDPOINT: &'static str = "https://auth.docker.io/token?service=registry.docker.io&scope=repository:library/";

/// The registry's repository root for official images.
pub const REGISTRY_LIBRARY: &'static str = "https://registry.hub.docker.com/v2/library/";

/// The media type named in the `Accept` header of manifest requests.
pub const MANIFEST_MEDIA_TYPE: &'static str = "application/vnd.docker.distribution.manifest.v2+json";

/// The URL that issues a token scoped to pulling `name`.
pub open spec fn token_url_of(name: Seq<char>) -> Seq<char> {
    TOKEN_ENDPOINT@ + name + ":pull"@
}

/// The URL of the manifest of `name` at a tag or a digest.
pub open spec fn manifest_url_of(name: Seq<char>, reference: Seq<char>) -> Seq<char> {
    REGISTRY_LIBRARY@ + name + "/manifests/"@ + reference
}

/// The URL of the blob `digest` of `name`.
pub open spec fn blob_url_of(name: Seq<char>, digest: Seq<char>) -> Seq<char> {
    REGISTRY_LIBRARY@ + name + "/blobs/"@ + digest
}

/// The value of the `Authorization` header for a bearer token.
pub open spec fn bearer_of(token: Seq<char>) -> Seq<char> {
    "Bearer "@ + token
}

pub fn token_url(name: &str) -> (r: String)
    ensures
        r@ == token_url_of(name@),
{
    let mut u = String::from_str(TOKEN_ENDPOINT);
    u.append(name);
    u.append(":pull");
    u
}

pub fn manifest_url(name: &str, reference: &str) -> (r: String)
    ensures
        r@ == manifest_url_of(name@, reference@),
{
    let mut u = String::from_str(REGISTRY_LIBRARY);
    u.append(name);
    u.append("/manifests/");
    u.append(reference);
    u
}

pub fn blob_url(name: &str, digest: &str) -> (r: String)
    ensures
        r@ == blob_url_of(name@, digest@),
{
    let mut u = String::from_str(REGISTRY_LIBRARY);
    u.append(name);
    u.append("/blobs/");
    u.append(digest);
    u
}

pub fn bearer(token: &str) -> (r: String)
    ensures
        r@ == bearer_of(token@),
{
    let mut h = String::from_str("Bearer ");
    h.append(token);
    h
}

} // verus!
