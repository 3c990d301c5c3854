//! Platform directories and path joining, through the `directories` crate and
//! `std::path`.

use vstd::prelude::*;
use directories::ProjectDirs;

verus! {

/// The per-project platform directories computed by the `directories` crate.
#[verifier::external_type_specification]
#[verifier::external_body]
pub struct ExProjectDirs(ProjectDirs);

/// The identity under which the platform directories of this application
/// are looked up: qualifier `dev`, organization `robert`, application
/// `github-status` (so the config lives in e.g. `~/.config/github-status`).
pub fn app_identity() -> (r: (&'static str, &'static str, &'static str))
    ensures
        r.0@ == "dev"@,
        r.1@ == "robert"@,
        r.2@ == "github-status"@,
{
    ("dev", "robert", "github-status")
}

/// Calls `directories::ProjectDirs::from`. The result depends on the user's
/// home directory and platform, so nothing is claimed of it.
#[verifier::external_body]
pub(crate) fn project_dirs(qualifier: &str, organization: &str, application: &str) -> Option<
    ProjectDirs,
> {
    ProjectDirs::from(qualifier, organization, application)
}

/// Calls `ProjectDirs::config_dir`, as a (lossily converted) string. Nothing
/// is claimed of the directory.
#[verifier::external_body]
pub(crate) fn platform_config_dir(dirs: &ProjectDirs) -> String {
    dirs.config_dir().to_string_lossy().into_owned()
}

/// Calls `ProjectDirs::data_local_dir`, as a (lossily converted) string.
/// Nothing is claimed of the directory.
#[verifier::external_body]
pub(crate) fn platform_data_local_dir(dirs: &ProjectDirs) -> String {
    dirs.data_local_dir().to_string_lossy().into_owned()
}

/// A plain relative file name: not empty, not starting with `.`, and free of
/// path separators and drive colons, so that it is a single normal component
/// on every platform.
pub open spec fn plain_file_name(name: Seq<char>) -> bool {
    &&& name.len() > 0
    &&& name[0] != '.'
    &&& forall|i: int| 0 <= i < name.len() ==> name[i] != '/' && name[i] != '\\' && name[i] != ':'
}

/// Calls `std::path::Path::join`, as a (lossily converted) string. As its
/// documentation (and that of `PathBuf::push`) says, a relative path is
/// appended to the base, so when `name` is a plain file name the joined path
/// ends with it; the lossy conversion only replaces ill-formed sequences,
/// which such a name has none of. Which separator is inserted differs
/// between platforms and is not claimed, nor anything when `name` is not a
/// plain file name.
#[verifier::external_body]
pub(crate) fn path_join(base: &str, name: &str) -> (r: String)
    ensures
        plain_file_name(name@) ==> name@.is_suffix_of(r@),
{
    std::path::Path::new(base).join(name).to_string_lossy().into_owned()
}

} // verus!
