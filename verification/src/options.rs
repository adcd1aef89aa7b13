//! The settings of the deployment tool.
use vstd::prelude::*;
use crate::components::Component;

verus! {

/// The environment that the tool deploys to.
#[derive(Debug, PartialEq, Eq, Clone, Copy, Structural)]
pub enum Environment {
    Test,
    Staging,
    Prod,
}

/// The name of an environment, as it is printed.
pub open spec fn environment_name(env: Environment) -> Seq<char> {
    match env {
        Environment::Test => "Test"@,
        Environment::Staging => "Staging"@,
        Environment::Prod => "Prod"@,
    }
}

impl Environment {
    /// The name of the environment.
    pub fn to_string(&self) -> (r: String)
        ensures
            r@ == environment_name(*self),
    {
        match self {
            Environment::Test => "Test".to_owned(),
            Environment::Staging => "Staging".to_owned(),
            Environment::Prod => "Prod".to_owned(),
        }
    }
}

impl Default for Environment {
    fn default() -> (r: Environment)
        ensures
            r == Environment::Test,
    {
        Environment::Test
    }
}

/// What the tool is asked to do.
#[derive(Clone, Debug)]
pub enum Commands {
    Status { component: Component },
    Deploy { component: Component },
    Image {
        component: Component,
        cargo_registry_cache: Option<String>,
        target_cache: Option<String>,
    },
}

/// The settings of the tool.
#[derive(Clone, Debug)]
pub struct Options {
    pub env: Environment,
    pub command: Option<Commands>,
    pub image_registry: String,
    pub image_tag: String,
}

/// The registry that images go to where none is named.
pub fn default_image_registry() -> (r: &'static str)
    ensures
        r@ == "quay.io/kwiesmueller"@,
{
    "quay.io/kwiesmueller"
}

/// The directory that the build keeps its output in where none is named.
pub fn default_target_cache() -> (r: &'static str)
    ensures
        r@ == "./target_buildah"@,
{
    "./target_buildah"
}

/// The tag of an image: the version that the tool was built from, or
/// `unknown` where that is not known.
pub open spec fn version_or_unknown(version: Option<&str>) -> Seq<char> {
    match version {
        Some(version) => version@,
        None => "unknown"@,
    }
}

/// The tag of an image where none is named.
pub fn default_image_tag<'a>(version: Option<&'a str>) -> (r: &'a str)
    ensures
        r@ == version_or_unknown(version),
{
    match version {
        Some(version) => version,
        None => "unknown",
    }
}

/// The home directory: what the environment names, or `/tmp/` where it
/// names none.
pub fn home_dir(home: Option<String>) -> (r: String)
    ensures
        r@ == match home {
            Some(home) => home@,
            None => "/tmp/"@,
        },
{
    match home {
        Some(home) => home,
        None => "/tmp/".to_owned(),
    }
}

} // verus!
