use vstd::prelude::*;

verus! {

/// A user name and an optional password.
pub type BasicAuth = (String, Option<String>);

/// A key for the services' API, with an optional prefix.
#[derive(Clone, Debug, PartialEq, Eq)]
pub struct ApiKey {
    pub prefix: Option<String>,
    pub key: String,
}

/// Where the engine's services are reached when nothing else is configured.
pub const DEFAULT_BASE_PATH: &'static str = "http://localhost:3130";

/// The base path of the services: the configured one where there is one,
/// else the default.
pub fn base_path_or_default(configured: Option<String>) -> (r: String)
    ensures
        configured matches Some(p) ==> r@ == p@,
        configured is None ==> r@ == DEFAULT_BASE_PATH@,
{
    match configured {
        Some(path) => path,
        None => DEFAULT_BASE_PATH.to_owned(),
    }
}

} // verus!
