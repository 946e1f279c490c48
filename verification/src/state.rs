//! What the updater is configured with, where it keeps things, and what it
//! remembers between runs.

use vstd::prelude::*;

verus! {

/// The configuration of the updater.
#[derive(Debug)]
pub struct RuntimeConfig {
    /// Whether newer wrapper builds are tracked at all.
    pub enable_wrapper_updates: bool,
    /// The repository of the wrapper; blank for the usual one.
    pub wrapper_remote: String,
    /// The branch of the wrapper; blank for the usual one.
    pub wrapper_branch: String,
    /// Where the bundle lies that packages are built with.
    pub builder_bundle_root: Vec<u8>,
    /// Where the updater works.
    pub workspace_root: Vec<u8>,
    /// Where the disk image of the application can be had.
    pub dmg_url: String,
}

/// The files and directories of the updater.
#[derive(Debug)]
pub struct RuntimePaths {
    pub state_file: Vec<u8>,
    pub cache_dir: Vec<u8>,
}

/// Where things lie that earlier runs have fetched.
#[derive(Debug)]
pub struct ArtifactPaths {
    pub dmg_path: Option<Vec<u8>>,
}

/// What the updater remembers between runs.
#[derive(Debug)]
pub struct PersistedState {
    /// How far the last wrapper update came.
    pub wrapper_status: Option<String>,
    /// The newer wrapper build that was found and not yet installed.
    pub wrapper_candidate: Option<String>,
    /// The version of the installed package.
    pub installed_version: String,
    pub artifact_paths: ArtifactPaths,
}

/// The status of an update that is under way.
pub const STATUS_APPLYING: &'static str = "applying";

/// The status of an update that is done.
pub const STATUS_INSTALLED: &'static str = "installed";

/// The status of an update that did not succeed.
pub const STATUS_FAILED: &'static str = "failed";

/// `state` has the status `status`.
pub open spec fn has_status(state: PersistedState, status: Seq<char>) -> bool {
    state.wrapper_status matches Some(text) && text@ == status
}

/// `a` and `b` differ in the status at most.
pub open spec fn same_but_status(a: PersistedState, b: PersistedState) -> bool {
    &&& a.wrapper_candidate == b.wrapper_candidate
    &&& a.installed_version == b.installed_version
    &&& a.artifact_paths == b.artifact_paths
}

/// Records how far a wrapper update has come. The caller saves the state.
pub fn set_wrapper_status(state: &mut PersistedState, status: &str)
    ensures
        has_status(*final(state), status@),
        same_but_status(*final(state), *old(state)),
{
    state.wrapper_status = Some(status.to_string());
}

impl PersistedState {
    /// Forgets the newer wrapper build that was found.
    pub fn clear_wrapper_update_candidate(&mut self)
        ensures
            final(self).wrapper_candidate is None,
            final(self).wrapper_status == old(self).wrapper_status,
            final(self).installed_version == old(self).installed_version,
            final(self).artifact_paths == old(self).artifact_paths,
    {
        self.wrapper_candidate = None;
    }
}

/// A status is the text that is recorded, and a change of the status leaves the
/// pending build, the installed version and the image as they are.
pub proof fn law_status_is_the_recorded_text(
    a: PersistedState,
    b: PersistedState,
    status: Seq<char>,
)
    ensures
        has_status(a, status) <==> (a.wrapper_status is Some && a.wrapper_status->0@ == status),
        same_but_status(a, b) <==> a.wrapper_candidate == b.wrapper_candidate
            && a.installed_version == b.installed_version && a.artifact_paths.dmg_path
            == b.artifact_paths.dmg_path,
{
}

} // verus!
