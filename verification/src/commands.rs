//! The operations that the front-end can call by name.

use crate::error::{result_view, stringified, text_failure_view, BridgeError};
use crate::loader::{load, loaded, ReadFailure};
use crate::locator::{is_service_config, service_config_locator, ResolvedPath, ResourceLocator};
use vstd::prelude::*;

verus! {

/// What precedes the name in a greeting.
pub open spec fn greeting_prefix() -> Seq<char> {
    "Hello, "@
}

/// What follows the name in a greeting.
pub open spec fn greeting_suffix() -> Seq<char> {
    "! You've been greeted from Rust!"@
}

/// The greeting for `name`: the name, taken verbatim, between the fixed prefix
/// and the fixed suffix.
pub open spec fn greeting(name: Seq<char>) -> Seq<char> {
    greeting_prefix() + name + greeting_suffix()
}

/// Greets `name`. The name is copied as it is: no character of it is
/// interpreted, so a name that holds `{}` or is empty is greeted like any other.
pub fn greet(name: &str) -> (out: String)
    ensures
        out@ == greeting(name@),
{
    let mut out = String::from_str("Hello, ");
    out.append(name);
    out.append("! You've been greeted from Rust!");
    out
}

/// The name can be read back from its greeting: it is what stands between the
/// prefix and the suffix, and the greeting is exactly as long as the three parts.
pub proof fn lemma_greeting_round_trip(name: Seq<char>)
    ensures
        greeting(name).len() == greeting_prefix().len() + name.len() + greeting_suffix().len(),
        greeting(name).subrange(0, greeting_prefix().len() as int) == greeting_prefix(),
        greeting(name).subrange(
            greeting_prefix().len() as int,
            (greeting_prefix().len() + name.len()) as int,
        ) == name,
        greeting(name).subrange(
            (greeting_prefix().len() + name.len()) as int,
            greeting(name).len() as int,
        ) == greeting_suffix(),
{
}

/// Two names with the same greeting are the same name.
pub proof fn lemma_greeting_injective(first: Seq<char>, second: Seq<char>)
    requires
        greeting(first) == greeting(second),
    ensures
        first == second,
{
    lemma_greeting_round_trip(first);
    lemma_greeting_round_trip(second);
}

/// Loads the service configuration: the fixed resource of the bundle, through
/// the host's resolver and reader. It takes no input from the caller, and a
/// failure is handed back as its message.
pub fn load_service_config<R, F>(resolver: R, reader: F) -> (out: Result<toml::Value, String>) where
    R: FnOnce(&ResourceLocator) -> Result<ResolvedPath, String>,
    F: FnOnce(&ResolvedPath) -> Result<String, ReadFailure>,

    requires
        forall|locator: ResourceLocator|
            is_service_config(locator) ==> call_requires(resolver, (&locator,)),
        forall|locator: ResourceLocator, resolved: ResolvedPath|
            is_service_config(locator) && call_ensures(
                resolver,
                (&locator,),
                Ok::<ResolvedPath, String>(resolved),
            ) ==> call_requires(reader, (&resolved,)),
    ensures
        exists|locator: ResourceLocator, result: Result<toml::Value, BridgeError>|
            is_service_config(locator) && #[trigger] loaded(&locator, resolver, reader, result)
                && text_failure_view(out) == stringified(result_view(result)),
{
    let locator = service_config_locator();
    let result = load(&locator, resolver, reader);
    match result {
        Ok(document) => Ok(document),
        Err(failure) => Err(failure.message()),
    }
}

} // verus!
