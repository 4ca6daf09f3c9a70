use vstd::prelude::*;

use crate::config;
use crate::config::Privilege;
use crate::scope::view_opt;

verus! {

/// Failure to locate an input file.
#[derive(Clone, Copy, Debug, PartialEq, Eq, Structural)]
pub enum LocateError {
    /// The home directory could not be determined, so the manifest
    /// fallback path cannot be formed. Fatal for the default-path
    /// branch.
    HomeNotFound,
}

/// The default template location for a privilege class, relative to
/// the current working directory. USER and UNSPEC share a default.
pub open spec fn spec_default_template(privilege: Privilege) -> Seq<char> {
    match privilege {
        Privilege::SYSTEM => config::SYSTEM_UNIT_FILE_TEMPLATE@,
        Privilege::USER => config::USER_UNIT_FILE_TEMPLATE@,
        Privilege::UNSPEC => config::USER_UNIT_FILE_TEMPLATE@,
    }
}

/// The privilege-specific default template path.
pub fn default_template_path(privilege: Privilege) -> (r: &'static str)
    ensures
        r@ == spec_default_template(privilege),
{
    match privilege {
        Privilege::SYSTEM => config::SYSTEM_UNIT_FILE_TEMPLATE,
        Privilege::USER => config::USER_UNIT_FILE_TEMPLATE,
        Privilege::UNSPEC => config::USER_UNIT_FILE_TEMPLATE,
    }
}

/// A directory path joined with a relative path by a separator.
pub open spec fn spec_join(dir: Seq<char>, rel: Seq<char>) -> Seq<char> {
    dir + "/"@ + rel
}

/// Joins a directory path and a relative path with a separator.
pub fn join_path(dir: &String, rel: &str) -> (r: String)
    ensures
        r@ == spec_join(dir@, rel@),
{
    let mut r = dir.clone();
    r.append("/");
    r.append(rel);
    r
}

/// Which path the template is read from: an explicit override that
/// exists as a regular file wins; otherwise the privilege-specific
/// default under the current working directory.
pub open spec fn spec_template_path(
    explicit: Option<Seq<char>>,
    explicit_is_file: bool,
    privilege: Privilege,
    cwd: Seq<char>,
) -> Seq<char> {
    match explicit {
        Some(p) => if explicit_is_file {
            p
        } else {
            spec_join(cwd, spec_default_template(privilege))
        },
        None => spec_join(cwd, spec_default_template(privilege)),
    }
}

/// Resolves the template path. `explicit_is_file` reports whether the
/// explicit override exists and is a regular file; an override that
/// does not is passed over in favour of the default, it is not an
/// error here.
pub fn locate_template_path(
    explicit: Option<String>,
    explicit_is_file: bool,
    privilege: Privilege,
    cwd: &String,
) -> (r: String)
    ensures
        r@ == spec_template_path(view_opt(explicit), explicit_is_file, privilege, cwd@),
{
    match explicit {
        Some(p) => {
            if explicit_is_file {
                p
            } else {
                join_path(cwd, default_template_path(privilege))
            }
        },
        None => join_path(cwd, default_template_path(privilege)),
    }
}

/// The manifest fallback location under the home directory.
pub open spec fn spec_manifest_fallback(home: Seq<char>) -> Seq<char> {
    spec_join(home, ".pixi/manifests/pixi-global.toml"@)
}

/// Forms the manifest fallback path from the home directory, or fails
/// when the home directory cannot be determined.
pub fn manifest_fallback_path(home: Option<String>) -> (r: Result<String, LocateError>)
    ensures
        home matches Some(h) ==> (r matches Ok(p) && p@ == spec_manifest_fallback(h@)),
        home is None ==> (r matches Err(e) && e == LocateError::HomeNotFound),
{
    match home {
        Some(h) => Ok(join_path(&h, ".pixi/manifests/pixi-global.toml")),
        None => Err(LocateError::HomeNotFound),
    }
}

/// Which source the manifest text comes from: the explicit path's
/// already-read content, or the fallback path under the home
/// directory.
pub enum ManifestSource {
    Explicit,
    Fallback(String),
}

/// Decides where the manifest is read from. An explicit path whose
/// read succeeded wins; on any explicit read failure — or with no
/// explicit path — the fallback under the home directory is chosen,
/// and only that default-path branch fails when the home directory
/// cannot be determined. `explicit_read_ok` reports whether an
/// explicit path was given and reading it succeeded.
pub fn choose_manifest_source(explicit_read_ok: bool, home: Option<String>) -> (r: Result<
    ManifestSource,
    LocateError,
>)
    ensures
        explicit_read_ok ==> (r matches Ok(c) && c is Explicit),
        !explicit_read_ok ==> (home matches Some(h) ==> (r matches Ok(c) && c matches
        ManifestSource::Fallback(p) && p@ == spec_manifest_fallback(h@))),
        !explicit_read_ok ==> (home is None ==> (r matches Err(e) && e
            == LocateError::HomeNotFound)),
{
    if explicit_read_ok {
        Ok(ManifestSource::Explicit)
    } else {
        match manifest_fallback_path(home) {
            Ok(p) => Ok(ManifestSource::Fallback(p)),
            Err(e) => Err(e),
        }
    }
}

} // verus!
