//! How the running application was installed.

use vstd::prelude::*;
use vstd::utf8::*;

use crate::paths::{path_starts_with, same_path};

verus! {

/// How the running application was installed, which determines how a wrapper
/// update is applied.
#[derive(Debug, Clone, Copy, PartialEq, Eq, Structural)]
pub enum InstallType {
    /// A native package, with a record of the system's package manager.
    Packaged,
    /// An installation in the user's home directory.
    UserLocal,
}

/// The environment variable that names the directory of the running application.
pub const APP_DIR_VARIABLE: &'static str = "CODEX_LINUX_APP_DIR";

/// Where a native package installs the application.
pub const PACKAGED_ROOT: &'static str = "/opt/codex-desktop";

/// Where a native package installs the bundle that packages are built with.
pub const PACKAGED_BUNDLE: &'static str = "/opt/codex-desktop/update-builder";

/// What the directory of the running application tells: packaged where it lies
/// under the root of the package, local where it lies under the home directory,
/// and nothing elsewhere.
pub open spec fn type_from_environment(app_dir: Option<Seq<u8>>, home: Option<Seq<u8>>) -> Option<
    InstallType,
> {
    match app_dir {
        None => None,
        Some(dir) => if crate::paths::starts_with(dir, encode_utf8(PACKAGED_ROOT@)) {
            Some(InstallType::Packaged)
        } else if home matches Some(h) && crate::paths::starts_with(dir, h) {
            Some(InstallType::UserLocal)
        } else {
            None
        },
    }
}

/// Whether packages are built with the bundle of the native package.
pub open spec fn uses_packaged_bundle(bundle_root: Seq<u8>) -> bool {
    crate::paths::components(bundle_root) == crate::paths::components(encode_utf8(PACKAGED_BUNDLE@))
}

/// How the application was installed. Where its directory does not tell, it is
/// packaged if the bundle is the package's and the package manager knows it.
pub open spec fn install_type(
    app_dir: Option<Seq<u8>>,
    home: Option<Seq<u8>>,
    bundle_root: Seq<u8>,
    package_installed: bool,
) -> InstallType {
    match type_from_environment(app_dir, home) {
        Some(t) => t,
        None => if uses_packaged_bundle(bundle_root) && package_installed {
            InstallType::Packaged
        } else {
            InstallType::UserLocal
        },
    }
}

/// What the directory of the running application tells.
pub fn install_type_from_environment(app_dir: Option<&[u8]>, home: Option<&[u8]>) -> (found: Option<
    InstallType,
>)
    ensures
        found == type_from_environment(crate::paths::option_bytes(app_dir), crate::paths::option_bytes(home)),
{
    match app_dir {
        None => None,
        Some(dir) => {
            if path_starts_with(dir, PACKAGED_ROOT.as_bytes()) {
                return Some(InstallType::Packaged);
            }
            match home {
                Some(h) => if path_starts_with(dir, h) {
                    Some(InstallType::UserLocal)
                } else {
                    None
                },
                None => None,
            }
        },
    }
}

/// Whether it takes the package manager to tell how the application was
/// installed.
pub fn needs_package_query(
    app_dir: Option<&[u8]>,
    home: Option<&[u8]>,
    bundle_root: &[u8],
) -> (needed: bool)
    ensures
        needed <==> type_from_environment(crate::paths::option_bytes(app_dir), crate::paths::option_bytes(home)) is None
            && uses_packaged_bundle(bundle_root@),
{
    match install_type_from_environment(app_dir, home) {
        Some(_) => false,
        None => same_path(bundle_root, PACKAGED_BUNDLE.as_bytes()),
    }
}

/// How the application was installed, where `app_dir` is the directory of the
/// running application, `home` the user's home directory, `bundle_root` that of
/// the bundle in use, and `package_installed` what the package manager says.
pub fn detect_install_type(
    app_dir: Option<&[u8]>,
    home: Option<&[u8]>,
    bundle_root: &[u8],
    package_installed: bool,
) -> (found: InstallType)
    ensures
        found == install_type(
            crate::paths::option_bytes(app_dir),
            crate::paths::option_bytes(home),
            bundle_root@,
            package_installed,
        ),
{
    match install_type_from_environment(app_dir, home) {
        Some(t) => t,
        None => {
            if package_installed && same_path(bundle_root, PACKAGED_BUNDLE.as_bytes()) {
                InstallType::Packaged
            } else {
                InstallType::UserLocal
            }
        },
    }
}

/// The package manager need not be asked where it makes no difference: whatever
/// it says, the type is the same.
pub proof fn law_package_query_is_not_needed(
    app_dir: Option<Seq<u8>>,
    home: Option<Seq<u8>>,
    bundle_root: Seq<u8>,
)
    requires
        type_from_environment(app_dir, home) is Some || !uses_packaged_bundle(bundle_root),
    ensures
        install_type(app_dir, home, bundle_root, true) == install_type(
            app_dir,
            home,
            bundle_root,
            false,
        ),
{
}

/// What lies under the root of the package is packaged, wherever the home
/// directory is.
pub proof fn law_under_package_root_is_packaged(rel: Seq<u8>, home: Option<Seq<u8>>)
    requires
        crate::paths::path_head(rel).len() == 0,
    ensures
        type_from_environment(
            Some(crate::paths::joined(encode_utf8(PACKAGED_ROOT@), rel)),
            home,
        ) == Some(InstallType::Packaged),
{
    crate::paths::law_join_stays_under_base(encode_utf8(PACKAGED_ROOT@), rel);
}

/// What lies under the home directory, and not under the root of the package, is
/// local.
pub proof fn law_under_home_is_user_local(home: Seq<u8>, rel: Seq<u8>)
    requires
        crate::paths::path_head(rel).len() == 0,
        !crate::paths::starts_with(
            crate::paths::joined(home, rel),
            encode_utf8(PACKAGED_ROOT@),
        ),
    ensures
        type_from_environment(Some(crate::paths::joined(home, rel)), Some(home)) == Some(
            InstallType::UserLocal,
        ),
{
    crate::paths::law_join_stays_under_base(home, rel);
}

/// The place of the running application tells the type before anything else does:
/// under the root of the package it is packaged, else under the home directory it
/// is local, and only elsewhere, or where no place is known, the bundle and the
/// package manager decide, who have to agree on a package.
pub proof fn law_place_tells_the_type(
    app_dir: Option<Seq<u8>>,
    home: Option<Seq<u8>>,
    bundle_root: Seq<u8>,
    package_installed: bool,
)
    ensures
        ({
            let told = type_from_environment(app_dir, home);
            let found = install_type(app_dir, home, bundle_root, package_installed);
            let under_root = app_dir is Some && crate::paths::starts_with(
                app_dir->0,
                encode_utf8("/opt/codex-desktop"@),
            );
            let under_home = app_dir is Some && home is Some && crate::paths::starts_with(
                app_dir->0,
                home->0,
            );
            let package_bundle = crate::paths::components(bundle_root) == crate::paths::components(
                encode_utf8("/opt/codex-desktop/update-builder"@),
            );
            &&& told is None <==> !under_root && !under_home
            &&& told == Some(InstallType::Packaged) <==> under_root
            &&& told is Some ==> found == told->0
            &&& told is None ==> (found == InstallType::Packaged <==> package_bundle
                && package_installed)
            &&& uses_packaged_bundle(bundle_root) <==> package_bundle
        }),
{
}

} // verus!
