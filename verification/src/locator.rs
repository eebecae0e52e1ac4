//! Naming a bundled resource, and the concrete path it resolves to.

use vstd::prelude::*;

verus! {

/// The kind of host directory that anchors a logical path. The host decides
/// where each kind lies in the installation.
#[derive(Debug, Clone, Copy, PartialEq, Eq, Structural)]
pub enum BaseKind {
    /// The directory of the resources bundled with the application.
    Resource,
    /// The application's configuration directory.
    Config,
    /// The application's data directory.
    Data,
    /// The application's cache directory.
    Cache,
    /// The directory for temporary files.
    Temp,
}

/// A logical, base-relative name for a bundled file. Built for one call and
/// never changed.
#[derive(Debug, PartialEq, Eq)]
pub struct ResourceLocator {
    pub logical_path: String,
    pub base: BaseKind,
}

impl Clone for ResourceLocator {
    fn clone(&self) -> (out: Self)
        ensures
            out == *self,
    {
        ResourceLocator { logical_path: self.logical_path.clone(), base: self.base }
    }
}

/// The concrete filesystem path that the host resolved a locator to. It lives
/// for one load only.
#[derive(Debug, PartialEq, Eq)]
pub struct ResolvedPath {
    pub path: String,
}

impl Clone for ResolvedPath {
    fn clone(&self) -> (out: Self)
        ensures
            out == *self,
    {
        ResolvedPath { path: self.path.clone() }
    }
}

impl View for ResolvedPath {
    type V = Seq<char>;

    open spec fn view(&self) -> Seq<char> {
        self.path@
    }
}

/// The logical path of the service configuration inside the bundle.
pub open spec fn service_config_path() -> Seq<char> {
    "resources/config/serviceConfig.toml"@
}

/// Whether `locator` names the service configuration: its fixed logical path,
/// under the bundled-resource directory.
pub open spec fn is_service_config(locator: ResourceLocator) -> bool {
    locator.logical_path@ == service_config_path() && locator.base == BaseKind::Resource
}

/// The locator of the service configuration.
pub fn service_config_locator() -> (out: ResourceLocator)
    ensures
        is_service_config(out),
{
    ResourceLocator {
        logical_path: String::from_str("resources/config/serviceConfig.toml"),
        base: BaseKind::Resource,
    }
}

} // verus!
