//! Dependency provisioning: deciding when the server package must be
//! (re)installed.
//!
//! The install itself is host work; the library only supplies the decision.
//! The comparison is textual equality between the version string reported by
//! the host and the pinned version of the [`PackageSpec`]: a moving tag (such
//! as `"latest"`) that the host resolves to a concrete version number will
//! therefore mismatch on every query and trigger a reinstall each time. That
//! policy is deliberate and stated in [`needs_install_spec`].

use vstd::prelude::*;

verus! {

/// Identifies the external package and the exact version string that must be
/// installed.
pub struct PackageSpec {
    pub name: String,
    pub version: String,
}

/// The name of the package that provides the context server.
pub fn package_name() -> (r: String)
    ensures
        r@ == "@upstash/context7-mcp"@,
{
    "@upstash/context7-mcp".to_owned()
}

/// The version string the package is pinned to.
pub fn package_version() -> (r: String)
    ensures
        r@ == "latest"@,
{
    "latest".to_owned()
}

/// The package specification used for every provisioning decision.
pub fn server_package_spec() -> (r: PackageSpec)
    ensures
        r.name@ == "@upstash/context7-mcp"@,
        r.version@ == "latest"@,
{
    PackageSpec { name: package_name(), version: package_version() }
}

/// An install is needed exactly when the reported installed version is not
/// textually equal to the pinned version.
pub open spec fn needs_install_spec(installed: Option<Seq<char>>, pinned: Seq<char>) -> bool {
    match installed {
        Option::None => true,
        Option::Some(v) => v != pinned,
    }
}

/// Decides whether the package named by `spec` must be installed, given the
/// version string the host reports as currently installed (`None` when the
/// package was never installed).
pub fn needs_install(installed: &Option<String>, spec: &PackageSpec) -> (r: bool)
    ensures
        r == needs_install_spec(
            match installed {
                Option::None => Option::None,
                Option::Some(v) => Option::Some(v@),
            },
            spec.version@,
        ),
{
    match installed {
        Option::None => true,
        Option::Some(v) => !v.eq(&spec.version),
    }
}

/// Provisioning is idempotent under an echoing version query: once a query
/// reports exactly the pinned version, no further install is triggered; and
/// whenever the query reports anything else (for example a concrete version
/// number resolved from a moving tag), an install is triggered on every call.
pub proof fn lemma_provision_idempotent(reported: Option<Seq<char>>, pinned: Seq<char>)
    ensures
        reported == Option::Some(pinned) ==> !needs_install_spec(reported, pinned),
        (reported matches Option::Some(v) && v != pinned) ==> needs_install_spec(
            reported,
            pinned,
        ),
        reported is None ==> needs_install_spec(reported, pinned),
{
}

} // verus!
