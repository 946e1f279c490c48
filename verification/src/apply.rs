//! Applying a pending wrapper update: how the application was installed decides
//! how it is done, and what came of it is recorded.

use vstd::prelude::*;
use vstd::slice::*;
use vstd::utf8::*;

use crate::install_type::{
    detect_install_type, needs_package_query, InstallType, APP_DIR_VARIABLE,
};
use crate::paths::HOME_VARIABLE;
use crate::state::{
    set_wrapper_status, PersistedState, RuntimeConfig, RuntimePaths, STATUS_APPLYING,
    STATUS_FAILED, STATUS_INSTALLED,
};

verus! {

/// What is printed where updates are not tracked.
pub const DISABLED_NOTICE: &'static str =
    "Wrapper update tracking is disabled; nothing to apply.";

/// The notification that an update was installed.
pub const INSTALLED_TITLE: &'static str = "Codex Desktop Linux updated";

pub const INSTALLED_BODY: &'static str = "The newer Linux wrapper build has been installed.";

/// How far an update has come: each state but the last three waits for the answer
/// to one step.
#[derive(Debug)]
pub enum ApplyState {
    /// Prints that updates are not tracked.
    PrintDisabled,
    /// Saves that the update is under way.
    SaveApplying,
    /// Reads the environment.
    ReadEnvironment,
    /// Asks the package manager about the package.
    QueryPackage,
    /// Applies the update in the user's home directory.
    ApplyUserLocal,
    /// Applies the update as a native package.
    ApplyPackaged,
    /// Saves that the update is installed.
    SaveInstalled,
    /// Sends a notification of that.
    NotifyInstalled,
    /// Saves that the update failed.
    SaveFailed,
    /// There was nothing to apply.
    Disabled,
    /// The update is over with success.
    Finished,
    /// The update is over without success.
    Failed,
}

/// What came of a step.
#[derive(Debug)]
pub enum ApplyEvent {
    /// The step is done.
    Done,
    /// The step failed.
    Failed,
    /// The directory of the running application and the home directory.
    Environment { app_dir: Option<Vec<u8>>, home: Option<Vec<u8>> },
    /// The answer to a question.
    Answer(bool),
}

/// The state that applies an update to an installation of the type `found`.
pub open spec fn apply_for(found: InstallType) -> ApplyState {
    match found {
        InstallType::Packaged => ApplyState::ApplyPackaged,
        InstallType::UserLocal => ApplyState::ApplyUserLocal,
    }
}

/// The state after `event` in `state`, where packages are built with the bundle
/// at `bundle_root`. An event that is no answer to the step in hand changes
/// nothing. Whether printing, saving and notifying succeed makes no difference.
pub open spec fn apply_next(
    state: ApplyState,
    bundle_root: Seq<u8>,
    event: ApplyEvent,
) -> ApplyState {
    match (state, event) {
        (
            ApplyState::PrintDisabled,
            ApplyEvent::Done | ApplyEvent::Failed,
        ) => ApplyState::Disabled,
        (
            ApplyState::SaveApplying,
            ApplyEvent::Done | ApplyEvent::Failed,
        ) => ApplyState::ReadEnvironment,
        (ApplyState::ReadEnvironment, ApplyEvent::Environment { app_dir, home }) => {
            let dir = crate::paths::option_path(app_dir);
            let user = crate::paths::option_path(home);
            if crate::install_type::type_from_environment(dir, user) is None
                && crate::install_type::uses_packaged_bundle(bundle_root) {
                ApplyState::QueryPackage
            } else {
                apply_for(crate::install_type::install_type(dir, user, bundle_root, false))
            }
        },
        (ApplyState::QueryPackage, ApplyEvent::Answer(installed)) => apply_for(
            crate::install_type::install_type(None, None, bundle_root, installed),
        ),
        (
            ApplyState::ApplyUserLocal | ApplyState::ApplyPackaged,
            ApplyEvent::Done,
        ) => ApplyState::SaveInstalled,
        (
            ApplyState::ApplyUserLocal | ApplyState::ApplyPackaged,
            ApplyEvent::Failed,
        ) => ApplyState::SaveFailed,
        (
            ApplyState::SaveInstalled,
            ApplyEvent::Done | ApplyEvent::Failed,
        ) => ApplyState::NotifyInstalled,
        (
            ApplyState::NotifyInstalled,
            ApplyEvent::Done | ApplyEvent::Failed,
        ) => ApplyState::Finished,
        (ApplyState::SaveFailed, ApplyEvent::Done | ApplyEvent::Failed) => ApplyState::Failed,
        (state, _) => state,
    }
}

/// The update itself was carried out in `state`, and `event` says with what
/// result.
pub open spec fn is_result(state: ApplyState, event: ApplyEvent) -> bool {
    &&& state is ApplyUserLocal || state is ApplyPackaged
    &&& event is Done || event is Failed
}

/// The record `persisted` tells how far `state` has come.
pub open spec fn tells_progress(state: ApplyState, persisted: PersistedState) -> bool {
    match state {
        ApplyState::PrintDisabled | ApplyState::Disabled => true,
        ApplyState::SaveInstalled | ApplyState::NotifyInstalled | ApplyState::Finished => {
            &&& crate::state::has_status(persisted, STATUS_INSTALLED@)
            &&& persisted.wrapper_candidate is None
        },
        ApplyState::SaveFailed | ApplyState::Failed => crate::state::has_status(
            persisted,
            STATUS_FAILED@,
        ),
        _ => crate::state::has_status(persisted, STATUS_APPLYING@),
    }
}

fn apply_state_for(found: InstallType) -> (state: ApplyState)
    ensures
        state == apply_for(found),
{
    match found {
        InstallType::Packaged => ApplyState::ApplyPackaged,
        InstallType::UserLocal => ApplyState::ApplyUserLocal,
    }
}

/// The state in which an update begins. Where updates are not tracked there is
/// nothing to apply and nothing is recorded; else the update is recorded as
/// under way.
pub fn apply_start(config: &RuntimeConfig, persisted: &mut PersistedState) -> (state: ApplyState)
    ensures
        config.enable_wrapper_updates ==> state is SaveApplying && crate::state::has_status(
            *final(persisted),
            STATUS_APPLYING@,
        ) && crate::state::same_but_status(*final(persisted), *old(persisted)),
        !config.enable_wrapper_updates ==> state is PrintDisabled && *final(persisted) == *old(
            persisted,
        ),
        tells_progress(state, *final(persisted)),
        config.enable_wrapper_updates ==> (final(persisted).wrapper_status matches Some(text)
            && text@ == "applying"@),
        final(persisted).wrapper_candidate == old(persisted).wrapper_candidate,
        final(persisted).installed_version == old(persisted).installed_version,
        final(persisted).artifact_paths == old(persisted).artifact_paths,
{
    if !config.enable_wrapper_updates {
        return ApplyState::PrintDisabled;
    }
    set_wrapper_status(persisted, STATUS_APPLYING);
    ApplyState::SaveApplying
}

fn borrowed(path: &Option<Vec<u8>>) -> (bytes: Option<&[u8]>)
    ensures
        crate::paths::option_bytes(bytes) == crate::paths::option_path(*path),
{
    match path {
        Some(p) => Some(p.as_slice()),
        None => None,
    }
}

/// The state after `event` in `state`. A successful update is recorded as
/// installed and is no longer pending; a failed one is recorded as failed and
/// stays pending. The record keeps telling how far the update has come.
pub fn apply_step(
    state: ApplyState,
    config: &RuntimeConfig,
    persisted: &mut PersistedState,
    event: ApplyEvent,
) -> (next: ApplyState)
    ensures
        next == apply_next(state, config.builder_bundle_root@, event),
        !is_result(state, event) ==> *final(persisted) == *old(persisted),
        is_result(state, event) && event is Done ==> {
            &&& crate::state::has_status(*final(persisted), STATUS_INSTALLED@)
            &&& final(persisted).wrapper_candidate is None
            &&& final(persisted).installed_version == old(persisted).installed_version
            &&& final(persisted).artifact_paths == old(persisted).artifact_paths
        },
        is_result(state, event) && event is Failed ==> {
            &&& crate::state::has_status(*final(persisted), STATUS_FAILED@)
            &&& crate::state::same_but_status(*final(persisted), *old(persisted))
        },
        tells_progress(state, *old(persisted)) ==> tells_progress(next, *final(persisted)),
        (state is ApplyUserLocal || state is ApplyPackaged) && event is Done ==> (
        final(persisted).wrapper_status matches Some(text) && text@ == "installed"@
            && final(persisted).wrapper_candidate is None),
        (state is ApplyUserLocal || state is ApplyPackaged) && event is Failed ==> (
        final(persisted).wrapper_status matches Some(text) && text@ == "failed"@
            && final(persisted).wrapper_candidate == old(persisted).wrapper_candidate),
        !(state is ApplyUserLocal || state is ApplyPackaged) || !(event is Done || event is Failed)
            ==> *final(persisted) == *old(persisted),
        final(persisted).installed_version == old(persisted).installed_version,
        final(persisted).artifact_paths == old(persisted).artifact_paths,
{
    let bundle_root = config.builder_bundle_root.as_slice();
    match (state, event) {
        (
            ApplyState::PrintDisabled,
            ApplyEvent::Done | ApplyEvent::Failed,
        ) => ApplyState::Disabled,
        (
            ApplyState::SaveApplying,
            ApplyEvent::Done | ApplyEvent::Failed,
        ) => ApplyState::ReadEnvironment,
        (ApplyState::ReadEnvironment, ApplyEvent::Environment { app_dir, home }) => {
            let dir = borrowed(&app_dir);
            let user = borrowed(&home);
            if needs_package_query(dir, user, bundle_root) {
                ApplyState::QueryPackage
            } else {
                apply_state_for(detect_install_type(dir, user, bundle_root, false))
            }
        },
        (ApplyState::QueryPackage, ApplyEvent::Answer(installed)) => apply_state_for(
            detect_install_type(None, None, bundle_root, installed),
        ),
        (ApplyState::ApplyUserLocal | ApplyState::ApplyPackaged, ApplyEvent::Done) => {
            set_wrapper_status(persisted, STATUS_INSTALLED);
            persisted.clear_wrapper_update_candidate();
            ApplyState::SaveInstalled
        },
        (ApplyState::ApplyUserLocal | ApplyState::ApplyPackaged, ApplyEvent::Failed) => {
            set_wrapper_status(persisted, STATUS_FAILED);
            ApplyState::SaveFailed
        },
        (
            ApplyState::SaveInstalled,
            ApplyEvent::Done | ApplyEvent::Failed,
        ) => ApplyState::NotifyInstalled,
        (
            ApplyState::NotifyInstalled,
            ApplyEvent::Done | ApplyEvent::Failed,
        ) => ApplyState::Finished,
        (ApplyState::SaveFailed, ApplyEvent::Done | ApplyEvent::Failed) => ApplyState::Failed,
        (state, _) => state,
    }
}

/// A step to carry out.
#[derive(Debug)]
pub enum ApplyAction {
    /// Print a line.
    Print { line: &'static str },
    /// Save the state of the updater to this file.
    Save { file: Vec<u8> },
    /// Read these variables: the first names the directory of the running
    /// application, the second the home directory.
    ReadEnvironment { app_dir: &'static str, home: &'static str },
    QueryPackage,
    ApplyUserLocal,
    ApplyPackaged,
    /// Send a notification.
    Notify { title: &'static str, body: &'static str },
    /// There is nothing left to do.
    Nothing,
}

/// The step that `state` waits for.
pub fn apply_action(state: &ApplyState, paths: &RuntimePaths) -> (action: ApplyAction)
    ensures
        match *state {
            ApplyState::PrintDisabled => {
                action matches ApplyAction::Print { line } && line@ == DISABLED_NOTICE@
            },
            ApplyState::SaveApplying => {
                action matches ApplyAction::Save { file } && file@ == paths.state_file@
            },
            ApplyState::ReadEnvironment => {
                action matches ApplyAction::ReadEnvironment { app_dir, home } && app_dir@
                    == APP_DIR_VARIABLE@ && home@ == HOME_VARIABLE@
            },
            ApplyState::QueryPackage => action is QueryPackage,
            ApplyState::ApplyUserLocal => action is ApplyUserLocal,
            ApplyState::ApplyPackaged => action is ApplyPackaged,
            ApplyState::SaveInstalled => {
                action matches ApplyAction::Save { file } && file@ == paths.state_file@
            },
            ApplyState::NotifyInstalled => {
                action matches ApplyAction::Notify { title, body } && title@ == INSTALLED_TITLE@
                    && body@ == INSTALLED_BODY@
            },
            ApplyState::SaveFailed => {
                action matches ApplyAction::Save { file } && file@ == paths.state_file@
            },
            ApplyState::Disabled => action is Nothing,
            ApplyState::Finished => action is Nothing,
            ApplyState::Failed => action is Nothing,
        },
{
    match state {
        ApplyState::PrintDisabled => ApplyAction::Print { line: DISABLED_NOTICE },
        ApplyState::SaveApplying => ApplyAction::Save {
            file: slice_to_vec(paths.state_file.as_slice()),
        },
        ApplyState::ReadEnvironment => ApplyAction::ReadEnvironment {
            app_dir: APP_DIR_VARIABLE,
            home: HOME_VARIABLE,
        },
        ApplyState::QueryPackage => ApplyAction::QueryPackage,
        ApplyState::ApplyUserLocal => ApplyAction::ApplyUserLocal,
        ApplyState::ApplyPackaged => ApplyAction::ApplyPackaged,
        ApplyState::SaveInstalled => ApplyAction::Save {
            file: slice_to_vec(paths.state_file.as_slice()),
        },
        ApplyState::NotifyInstalled => ApplyAction::Notify {
            title: INSTALLED_TITLE,
            body: INSTALLED_BODY,
        },
        ApplyState::SaveFailed => ApplyAction::Save {
            file: slice_to_vec(paths.state_file.as_slice()),
        },
        ApplyState::Disabled => ApplyAction::Nothing,
        ApplyState::Finished => ApplyAction::Nothing,
        ApplyState::Failed => ApplyAction::Nothing,
    }
}

/// The state of an update after `events`, from `start` on.
pub open spec fn apply_run(
    start: ApplyState,
    bundle_root: Seq<u8>,
    events: Seq<ApplyEvent>,
) -> ApplyState
    decreases events.len(),
{
    if events.len() == 0 {
        start
    } else {
        apply_next(
            apply_run(start, bundle_root, events.drop_last()),
            bundle_root,
            events.last(),
        )
    }
}

/// Where updates are not tracked nothing is applied: a run never comes to
/// anything but the notice.
pub proof fn law_disabled_applies_nothing(bundle_root: Seq<u8>, events: Seq<ApplyEvent>)
    ensures
        ({
            let state = apply_run(ApplyState::PrintDisabled, bundle_root, events);
            state is PrintDisabled || state is Disabled
        }),
    decreases events.len(),
{
    if events.len() > 0 {
        law_disabled_applies_nothing(bundle_root, events.drop_last());
    }
}

/// Once the update itself is carried out, its result stands: success ends in
/// success and failure in failure, whatever comes of saving and telling it.
pub proof fn law_result_stands(
    applying: ApplyState,
    bundle_root: Seq<u8>,
    saved: ApplyEvent,
    notified: ApplyEvent,
)
    requires
        applying is ApplyUserLocal || applying is ApplyPackaged,
        saved is Done || saved is Failed,
        notified is Done || notified is Failed,
    ensures
        ({
            let installed = apply_next(applying, bundle_root, ApplyEvent::Done);
            let failed = apply_next(applying, bundle_root, ApplyEvent::Failed);
            &&& apply_next(apply_next(installed, bundle_root, saved), bundle_root, notified)
                == ApplyState::Finished
            &&& apply_next(failed, bundle_root, saved) == ApplyState::Failed
        }),
{
}

/// The event at `i` says, by `success`, what the update itself came to.
pub open spec fn result_at(
    bundle_root: Seq<u8>,
    events: Seq<ApplyEvent>,
    i: int,
    success: bool,
) -> bool {
    &&& 0 <= i < events.len()
    &&& ({
        let state = apply_run(ApplyState::SaveApplying, bundle_root, events.take(i));
        state is ApplyUserLocal || state is ApplyPackaged
    })
    &&& if success {
        events[i] is Done
    } else {
        events[i] is Failed
    }
}

/// An update is over with success only after the update itself succeeded, and
/// over without success only after it failed: whether anything could be saved or
/// told changes neither.
pub proof fn law_outcome_is_result_of_update(bundle_root: Seq<u8>, events: Seq<ApplyEvent>)
    ensures
        ({
            let state = apply_run(ApplyState::SaveApplying, bundle_root, events);
            &&& state is SaveInstalled || state is NotifyInstalled || state is Finished ==> exists|
                i: int,
            |
                result_at(bundle_root, events, i, true)
            &&& state is SaveFailed || state is Failed ==> exists|i: int|
                result_at(bundle_root, events, i, false)
            &&& !(state is PrintDisabled) && !(state is Disabled)
        }),
    decreases events.len(),
{
    if events.len() > 0 {
        let front = events.drop_last();
        let last = events.len() - 1;
        law_outcome_is_result_of_update(bundle_root, front);
        assert(events.take(last) =~= front);
        let before = apply_run(ApplyState::SaveApplying, bundle_root, front);
        if before is ApplyUserLocal || before is ApplyPackaged {
            if events.last() is Done {
                assert(result_at(bundle_root, events, last, true));
            } else if events.last() is Failed {
                assert(result_at(bundle_root, events, last, false));
            }
        } else if before is SaveInstalled || before is NotifyInstalled || before is Finished {
            let i = choose|i: int| result_at(bundle_root, front, i, true);
            assert(front.take(i) =~= events.take(i));
            assert(result_at(bundle_root, events, i, true));
        } else if before is SaveFailed || before is Failed {
            let i = choose|i: int| result_at(bundle_root, front, i, false);
            assert(front.take(i) =~= events.take(i));
            assert(result_at(bundle_root, events, i, false));
        }
    }
}

/// The environment was read at `i`.
pub open spec fn environment_at(
    bundle_root: Seq<u8>,
    events: Seq<ApplyEvent>,
    i: int,
    app_dir: Option<Vec<u8>>,
    home: Option<Vec<u8>>,
) -> bool {
    &&& 0 <= i < events.len()
    &&& apply_run(ApplyState::SaveApplying, bundle_root, events.take(i)) is ReadEnvironment
    &&& events[i] == ApplyEvent::Environment { app_dir, home }
}

/// The type of the installation that the environment tells, with `installed` as
/// the word of the package manager.
pub open spec fn type_told(
    bundle_root: Seq<u8>,
    app_dir: Option<Vec<u8>>,
    home: Option<Vec<u8>>,
    installed: bool,
) -> InstallType {
    crate::install_type::install_type(
        crate::paths::option_path(app_dir),
        crate::paths::option_path(home),
        bundle_root,
        installed,
    )
}

proof fn lemma_environment_stays(
    bundle_root: Seq<u8>,
    events: Seq<ApplyEvent>,
    i: int,
    app_dir: Option<Vec<u8>>,
    home: Option<Vec<u8>>,
)
    requires
        events.len() > 0,
        environment_at(bundle_root, events.drop_last(), i, app_dir, home),
    ensures
        environment_at(bundle_root, events, i, app_dir, home),
{
    assert(events.drop_last().take(i) =~= events.take(i));
}

/// The environment does not tell the type of the installation: the package
/// manager is asked.
pub open spec fn is_left_to_package(
    bundle_root: Seq<u8>,
    app_dir: Option<Vec<u8>>,
    home: Option<Vec<u8>>,
) -> bool {
    &&& crate::install_type::type_from_environment(
        crate::paths::option_path(app_dir),
        crate::paths::option_path(home),
    ) is None
    &&& crate::install_type::uses_packaged_bundle(bundle_root)
}

/// The package manager gave its word at `j`.
pub open spec fn package_answer_at(
    bundle_root: Seq<u8>,
    events: Seq<ApplyEvent>,
    j: int,
    installed: bool,
) -> bool {
    &&& 0 <= j < events.len()
    &&& apply_run(ApplyState::SaveApplying, bundle_root, events.take(j)) is QueryPackage
    &&& events[j] == ApplyEvent::Answer(installed)
}

/// The installation is of the type `found` by the word that the package manager
/// gave after `i`.
pub open spec fn package_tells(
    bundle_root: Seq<u8>,
    events: Seq<ApplyEvent>,
    i: int,
    app_dir: Option<Vec<u8>>,
    home: Option<Vec<u8>>,
    found: InstallType,
) -> bool {
    exists|j: int, installed: bool|
        i < j && #[trigger] package_answer_at(bundle_root, events, j, installed) && found
            == type_told(bundle_root, app_dir, home, installed)
}

/// The installation is of the type `found` by the environment that was read at
/// `i`: that tells the type, whatever the package manager would say, or else the
/// package manager was asked and told it.
pub open spec fn is_told_at(
    bundle_root: Seq<u8>,
    events: Seq<ApplyEvent>,
    i: int,
    app_dir: Option<Vec<u8>>,
    home: Option<Vec<u8>>,
    found: InstallType,
) -> bool {
    &&& environment_at(bundle_root, events, i, app_dir, home)
    &&& if is_left_to_package(bundle_root, app_dir, home) {
        package_tells(bundle_root, events, i, app_dir, home, found)
    } else {
        forall|installed: bool|
            found == #[trigger] type_told(bundle_root, app_dir, home, installed)
    }
}

/// The installation is of the type `found` by what was read and answered.
pub open spec fn is_told(
    bundle_root: Seq<u8>,
    events: Seq<ApplyEvent>,
    found: InstallType,
) -> bool {
    exists|i: int, app_dir: Option<Vec<u8>>, home: Option<Vec<u8>>|
        is_told_at(bundle_root, events, i, app_dir, home, found)
}

/// The package manager is to be asked, since the environment that was read does
/// not tell the type.
pub open spec fn is_package_asked(bundle_root: Seq<u8>, events: Seq<ApplyEvent>) -> bool {
    exists|i: int, app_dir: Option<Vec<u8>>, home: Option<Vec<u8>>| #[trigger]
        environment_at(bundle_root, events, i, app_dir, home) && is_left_to_package(
            bundle_root,
            app_dir,
            home,
        )
}

proof fn lemma_told_stays(bundle_root: Seq<u8>, events: Seq<ApplyEvent>, found: InstallType)
    requires
        events.len() > 0,
        is_told(bundle_root, events.drop_last(), found),
    ensures
        is_told(bundle_root, events, found),
{
    let front = events.drop_last();
    let (i, app_dir, home) = choose|i: int, app_dir: Option<Vec<u8>>, home: Option<Vec<u8>>|
        is_told_at(bundle_root, front, i, app_dir, home, found);
    lemma_environment_stays(bundle_root, events, i, app_dir, home);
    if is_left_to_package(bundle_root, app_dir, home) {
        let (j, installed) = choose|j: int, installed: bool|
            i < j && #[trigger] package_answer_at(bundle_root, front, j, installed) && found
                == type_told(bundle_root, app_dir, home, installed);
        assert(front.take(j) =~= events.take(j));
        assert(package_answer_at(bundle_root, events, j, installed));
    }
    assert(is_told_at(bundle_root, events, i, app_dir, home, found));
}

/// How an update is applied is decided by the type of the installation: a run
/// applies it in one way only if that is the way for the type that the
/// environment, and where that does not tell, the answer of the package manager,
/// showed. The package manager is asked only where the environment does not tell.
pub proof fn law_type_decides_how_to_apply(bundle_root: Seq<u8>, events: Seq<ApplyEvent>)
    ensures
        ({
            let state = apply_run(ApplyState::SaveApplying, bundle_root, events);
            &&& state is QueryPackage ==> is_package_asked(bundle_root, events)
            &&& state is ApplyPackaged ==> is_told(bundle_root, events, InstallType::Packaged)
            &&& state is ApplyUserLocal ==> is_told(bundle_root, events, InstallType::UserLocal)
        }),
    decreases events.len(),
{
    if events.len() > 0 {
        let front = events.drop_last();
        let last = events.len() - 1;
        law_type_decides_how_to_apply(bundle_root, front);
        assert(events.take(last) =~= front);
        let before = apply_run(ApplyState::SaveApplying, bundle_root, front);
        if before is ReadEnvironment {
            match events.last() {
                ApplyEvent::Environment { app_dir, home } => {
                    assert(environment_at(bundle_root, events, last, app_dir, home));
                    if !is_left_to_package(bundle_root, app_dir, home) {
                        let found = type_told(bundle_root, app_dir, home, false);
                        assert(is_told_at(bundle_root, events, last, app_dir, home, found));
                    }
                },
                _ => {},
            }
        } else if before is QueryPackage {
            let (i, app_dir, home) = choose|
                i: int,
                app_dir: Option<Vec<u8>>,
                home: Option<Vec<u8>>,
            | #[trigger]
                environment_at(bundle_root, front, i, app_dir, home) && is_left_to_package(
                    bundle_root,
                    app_dir,
                    home,
                );
            lemma_environment_stays(bundle_root, events, i, app_dir, home);
            match events.last() {
                ApplyEvent::Answer(installed) => {
                    let found = type_told(bundle_root, app_dir, home, installed);
                    assert(package_answer_at(bundle_root, events, last, installed));
                    assert(is_told_at(bundle_root, events, i, app_dir, home, found));
                },
                _ => {},
            }
        } else if before is ApplyPackaged {
            lemma_told_stays(bundle_root, events, InstallType::Packaged);
        } else if before is ApplyUserLocal {
            lemma_told_stays(bundle_root, events, InstallType::UserLocal);
        }
    }
}

/// What the steps of a native package and of its image remember leaves the
/// record of the update alone: it keeps telling how far the update has come.
pub proof fn law_record_survives_rebuild(
    state: ApplyState,
    persisted: PersistedState,
    packaged: crate::packaged::PackagedState,
    packaged_event: crate::packaged::PackagedEvent,
    image: crate::disk_image::ImageState,
    image_event: crate::disk_image::ImageEvent,
)
    requires
        tells_progress(state, persisted),
    ensures
        tells_progress(
            state,
            crate::packaged::packaged_memory(packaged, packaged_event, persisted),
        ),
        tells_progress(state, crate::disk_image::image_memory(image, image_event, persisted)),
{
}

/// The environment leads on, whatever it holds: an application under the root of
/// the package is updated as a package wherever the home directory is, one that is
/// not there but under the home directory is updated there, and any other is left
/// to the package manager if the bundle is the package's, and is local if not.
pub proof fn law_environment_leads_on(
    bundle_root: Seq<u8>,
    app_dir: Option<Vec<u8>>,
    home: Option<Vec<u8>>,
)
    ensures
        ({
            let next = apply_next(
                ApplyState::ReadEnvironment,
                bundle_root,
                ApplyEvent::Environment { app_dir, home },
            );
            let under_root = app_dir is Some && crate::paths::starts_with(
                app_dir->0@,
                encode_utf8("/opt/codex-desktop"@),
            );
            let under_home = app_dir is Some && home is Some && crate::paths::starts_with(
                app_dir->0@,
                home->0@,
            );
            let package_bundle = crate::paths::components(bundle_root) == crate::paths::components(
                encode_utf8("/opt/codex-desktop/update-builder"@),
            );
            &&& under_root ==> next is ApplyPackaged
            &&& !under_root && under_home ==> next is ApplyUserLocal
            &&& !under_root && !under_home && package_bundle ==> next is QueryPackage
            &&& !under_root && !under_home && !package_bundle ==> next is ApplyUserLocal
        }),
{
}

/// The word of the package manager decides where it is asked for: a package that
/// it knows, built with the package's bundle, is updated as one, and else the
/// installation is local.
pub proof fn law_package_answer_leads_on(bundle_root: Seq<u8>, installed: bool)
    ensures
        ({
            let next = apply_next(
                ApplyState::QueryPackage,
                bundle_root,
                ApplyEvent::Answer(installed),
            );
            let package_bundle = crate::paths::components(bundle_root) == crate::paths::components(
                encode_utf8("/opt/codex-desktop/update-builder"@),
            );
            &&& installed && package_bundle ==> next is ApplyPackaged
            &&& !installed || !package_bundle ==> next is ApplyUserLocal
        }),
{
}

proof fn lemma_apply_push(
    start: ApplyState,
    bundle_root: Seq<u8>,
    events: Seq<ApplyEvent>,
    event: ApplyEvent,
)
    ensures
        apply_run(start, bundle_root, events.push(event)) == apply_next(
            apply_run(start, bundle_root, events),
            bundle_root,
            event,
        ),
{
    assert(events.push(event).drop_last() =~= events);
}

/// An update comes to its end: once saving is over with, the environment is read,
/// the package manager has answered, the update itself is carried out and its
/// result is saved and told, the update is over, with success exactly if the
/// update itself had success. Where the environment tells the type, the end comes
/// without the package manager too. On the way stand the update itself, the saving
/// of its result and, after success, the notification, and nothing else.
pub proof fn law_update_comes_to_its_end(
    bundle_root: Seq<u8>,
    begun: ApplyEvent,
    app_dir: Option<Vec<u8>>,
    home: Option<Vec<u8>>,
    installed: bool,
    result: ApplyEvent,
    saved: ApplyEvent,
    told: ApplyEvent,
)
    requires
        begun is Done || begun is Failed,
        result is Done || result is Failed,
        saved is Done || saved is Failed,
        told is Done || told is Failed,
    ensures
        ({
            let start = ApplyState::SaveApplying;
            let read = seq![begun, ApplyEvent::Environment { app_dir, home }];
            let asked = read.push(ApplyEvent::Answer(installed));
            let decided = apply_run(start, bundle_root, asked);
            let tried = apply_run(start, bundle_root, asked.push(result));
            let kept = apply_run(start, bundle_root, asked.push(result).push(saved));
            let end = apply_run(start, bundle_root, asked.push(result).push(saved).push(told));
            &&& apply_run(start, bundle_root, seq![begun]) is ReadEnvironment
            &&& decided is ApplyPackaged || decided is ApplyUserLocal
            &&& !(apply_run(start, bundle_root, read) is QueryPackage) ==> decided == apply_run(
                start,
                bundle_root,
                read,
            )
            &&& result is Done ==> tried is SaveInstalled && kept is NotifyInstalled
                && end is Finished
            &&& result is Failed ==> tried is SaveFailed && kept is Failed && end is Failed
        }),
{
    let start = ApplyState::SaveApplying;
    let environment = ApplyEvent::Environment { app_dir, home };
    let none = Seq::<ApplyEvent>::empty();
    let one = none.push(begun);
    let read = one.push(environment);
    let asked = read.push(ApplyEvent::Answer(installed));
    assert(seq![begun] =~= one);
    assert(seq![begun, environment] =~= read);
    lemma_apply_push(start, bundle_root, none, begun);
    lemma_apply_push(start, bundle_root, one, environment);
    lemma_apply_push(start, bundle_root, read, ApplyEvent::Answer(installed));
    lemma_apply_push(start, bundle_root, asked, result);
    lemma_apply_push(start, bundle_root, asked.push(result), saved);
    lemma_apply_push(start, bundle_root, asked.push(result).push(saved), told);
}

/// Each state of an update has its causes and no other: it is entered by the
/// answer that leads to it, and left by the answer to its own step alone.
pub proof fn law_update_states_have_causes(
    state: ApplyState,
    bundle_root: Seq<u8>,
    event: ApplyEvent,
)
    ensures
        ({
            let next = apply_next(state, bundle_root, event);
            let over = event is Done || event is Failed;
            let applying = state is ApplyUserLocal || state is ApplyPackaged;
            let decides = (state is ReadEnvironment && event is Environment) || (
            state is QueryPackage && event is Answer);
            &&& next is PrintDisabled <==> state is PrintDisabled && !over
            &&& next is Disabled <==> state is Disabled || (state is PrintDisabled && over)
            &&& next is SaveApplying <==> state is SaveApplying && !over
            &&& next is ReadEnvironment <==> (state is ReadEnvironment && !(event is Environment))
                || (state is SaveApplying && over)
            &&& next is QueryPackage ==> (state is QueryPackage && !(event is Answer)) || (
            state is ReadEnvironment && event is Environment)
            &&& state is QueryPackage && !(event is Answer) ==> next is QueryPackage
            &&& next is ApplyPackaged || next is ApplyUserLocal ==> decides || (applying && !over
                && next == state)
            &&& applying && !over ==> next == state
            &&& next is SaveInstalled <==> (state is SaveInstalled && !over) || (applying
                && event is Done)
            &&& next is NotifyInstalled <==> (state is NotifyInstalled && !over) || (
            state is SaveInstalled && over)
            &&& next is Finished <==> state is Finished || (state is NotifyInstalled && over)
            &&& next is SaveFailed <==> (state is SaveFailed && !over) || (applying
                && event is Failed)
            &&& next is Failed <==> state is Failed || (state is SaveFailed && over)
        }),
{
}

/// The record says what an update came to in words: it is under way, installed
/// with nothing pending, or failed. It is rewritten with the result of the update
/// itself, and only then.
pub proof fn law_record_says_how_far(state: ApplyState, event: ApplyEvent, p: PersistedState)
    ensures
        is_result(state, event) <==> (state is ApplyUserLocal || state is ApplyPackaged) && (
        event is Done || event is Failed),
        state is SaveApplying || state is ReadEnvironment || state is QueryPackage
            || state is ApplyUserLocal || state is ApplyPackaged ==> (tells_progress(state, p) <==> (
        p.wrapper_status is Some && p.wrapper_status->0@ == "applying"@)),
        state is SaveInstalled || state is NotifyInstalled || state is Finished ==> (
        tells_progress(state, p) <==> (p.wrapper_status is Some && p.wrapper_status->0@
            == "installed"@ && p.wrapper_candidate is None)),
        state is SaveFailed || state is Failed ==> (tells_progress(state, p) <==> (
        p.wrapper_status is Some && p.wrapper_status->0@ == "failed"@)),
{
}

} // verus!
