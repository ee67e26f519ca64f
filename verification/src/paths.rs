//! Plain-string paths under the user's directories.
//!
//! The platform lookups come from the `dirs` crate and the filesystem;
//! both depend on the environment, so the wrappers promise nothing about
//! their outcome and the callers state what holds whatever came back.

use vstd::prelude::*;

verus! {

use vstd::string::StringExecFns;

/// Relies on `dirs::home_dir`: the user's home directory, if the
/// platform reports one, as a plain string. Depends on the environment.
#[verifier::external_body]
pub fn home_dir_string() -> Option<String> {
    dirs::home_dir().and_then(|p| p.into_os_string().into_string().ok())
}

/// Relies on `dirs::config_dir`: the user's configuration directory, if
/// the platform reports one, as a plain string. Depends on the
/// environment.
#[verifier::external_body]
pub fn config_dir_string() -> Option<String> {
    dirs::config_dir().and_then(|p| p.into_os_string().into_string().ok())
}

/// Relies on `std::path::Path::exists`: whether something exists at the
/// path right now. Depends on the filesystem, so nothing is assumed.
#[verifier::external_body]
pub fn path_exists(path: &str) -> bool {
    std::path::Path::new(path).exists()
}

/// `base` with one more component appended after a path separator.
pub fn join_path(base: &str, component: &str) -> (r: String)
    ensures
        r@ == base@ + "/"@ + component@,
{
    let mut s = String::from_str(base);
    s.append("/");
    s.append(component);
    s
}

} // verus!
