//! Paths of the discovery endpoints.
use vstd::prelude::*;
use vstd::string::StringExecFns;

verus! {

/// The path of the server's version endpoint.
pub fn version_path() -> (r: String)
    ensures
        r@ == "/version"@,
{
    proof {
        reveal_strlit("/version");
    }
    String::from_str("/version")
}

/// The path that lists the API groups.
pub fn api_groups_path() -> (r: String)
    ensures
        r@ == "/apis"@,
{
    proof {
        reveal_strlit("/apis");
    }
    String::from_str("/apis")
}

/// The path that lists the resources of a group version.
pub fn api_group_resources_path(apiversion: &str) -> (r: String)
    ensures
        r@ == "/apis/"@ + apiversion@,
{
    proof {
        reveal_strlit("/apis/");
    }
    String::from_str("/apis/").concat(apiversion)
}

/// The path that lists the versions of the core group.
pub fn core_api_versions_path() -> (r: String)
    ensures
        r@ == "/api"@,
{
    proof {
        reveal_strlit("/api");
    }
    String::from_str("/api")
}

/// The path that lists the resources of a core group version.
pub fn core_api_resources_path(version: &str) -> (r: String)
    ensures
        r@ == "/api/"@ + version@,
{
    proof {
        reveal_strlit("/api/");
    }
    String::from_str("/api/").concat(version)
}

} // verus!
