//! The disk image that packages are built from: the one that an earlier run has
//! fetched, or a new download.

use vstd::prelude::*;
use vstd::slice::*;
use vstd::utf8::*;

use crate::paths::path_join;
use crate::state::{PersistedState, RuntimeConfig, RuntimePaths};

verus! {

/// The directory for downloads, in the workspace.
pub const DOWNLOADS_NAME: &'static str = "downloads";

/// How far the image has come.
#[derive(Debug, Clone, Copy, PartialEq, Eq, Structural)]
pub enum ImageState {
    /// Asks whether the image of an earlier run is still there.
    CheckCache,
    /// Prepares a download.
    BuildClient,
    /// Downloads.
    Download,
    /// Saves where the download lies.
    Save,
    /// The image lies where the state of the updater says.
    Ready,
    /// No download could be prepared.
    ClientFailed,
    /// The download failed.
    DownloadFailed,
}

/// What came of a step.
#[derive(Debug)]
pub enum ImageEvent {
    /// The answer to a question.
    Answer(bool),
    /// The download lies here.
    Downloaded(Vec<u8>),
    /// The step is done.
    Done,
    /// The step failed.
    Failed,
}

/// The state in which the search for an image begins.
pub open spec fn image_begin(persisted: PersistedState) -> ImageState {
    if persisted.artifact_paths.dmg_path is Some {
        ImageState::CheckCache
    } else {
        ImageState::BuildClient
    }
}

/// The state after `event` in `state`. An event that is no answer to the step in
/// hand changes nothing. Whether saving succeeds makes no difference.
pub open spec fn image_next(state: ImageState, event: ImageEvent) -> ImageState {
    match (state, event) {
        (ImageState::CheckCache, ImageEvent::Answer(there)) => if there {
            ImageState::Ready
        } else {
            ImageState::BuildClient
        },
        (ImageState::BuildClient, ImageEvent::Done) => ImageState::Download,
        (ImageState::BuildClient, ImageEvent::Failed) => ImageState::ClientFailed,
        (ImageState::Download, ImageEvent::Downloaded(_)) => ImageState::Save,
        (ImageState::Download, ImageEvent::Failed) => ImageState::DownloadFailed,
        (ImageState::Save, ImageEvent::Done | ImageEvent::Failed) => ImageState::Ready,
        (state, _) => state,
    }
}

/// What the updater remembers after `event` in `state`: where a download lies.
pub open spec fn image_memory(
    state: ImageState,
    event: ImageEvent,
    persisted: PersistedState,
) -> PersistedState {
    match (state, event) {
        (ImageState::Download, ImageEvent::Downloaded(path)) => PersistedState {
            artifact_paths: crate::state::ArtifactPaths { dmg_path: Some(path) },
            ..persisted
        },
        _ => persisted,
    }
}

/// The state in which the search for an image begins.
pub fn image_start(persisted: &PersistedState) -> (state: ImageState)
    ensures
        state == image_begin(*persisted),
{
    match &persisted.artifact_paths.dmg_path {
        Some(_) => ImageState::CheckCache,
        None => ImageState::BuildClient,
    }
}

/// The state after `event` in `state`; where a download lies is remembered.
pub fn image_step(state: ImageState, persisted: &mut PersistedState, event: ImageEvent) -> (next:
    ImageState)
    ensures
        next == image_next(state, event),
        *final(persisted) == image_memory(state, event, *old(persisted)),
{
    match (state, event) {
        (ImageState::CheckCache, ImageEvent::Answer(there)) => if there {
            ImageState::Ready
        } else {
            ImageState::BuildClient
        },
        (ImageState::BuildClient, ImageEvent::Done) => ImageState::Download,
        (ImageState::BuildClient, ImageEvent::Failed) => ImageState::ClientFailed,
        (ImageState::Download, ImageEvent::Downloaded(path)) => {
            persisted.artifact_paths.dmg_path = Some(path);
            ImageState::Save
        },
        (ImageState::Download, ImageEvent::Failed) => ImageState::DownloadFailed,
        (ImageState::Save, ImageEvent::Done | ImageEvent::Failed) => ImageState::Ready,
        (state, _) => state,
    }
}

/// A step to carry out.
#[derive(Debug)]
pub enum ImageAction {
    /// Tell whether this is there.
    Exists { path: Vec<u8> },
    BuildClient,
    /// Download this to this directory.
    Download { url: String, directory: Vec<u8> },
    /// Save the state of the updater to this file.
    Save { file: Vec<u8> },
    /// There is nothing left to do.
    Nothing,
}

/// `action` is the step that `state` waits for.
pub open spec fn is_image_action(
    state: ImageState,
    config: RuntimeConfig,
    persisted: PersistedState,
    paths: RuntimePaths,
    action: ImageAction,
) -> bool {
    match state {
        ImageState::CheckCache => match persisted.artifact_paths.dmg_path {
            Some(image) => action matches ImageAction::Exists { path } && path@ == image@,
            None => action is Nothing,
        },
        ImageState::BuildClient => action is BuildClient,
        ImageState::Download => {
            action matches ImageAction::Download { url, directory } && url@ == config.dmg_url@
                && directory@ == crate::paths::joined(
                config.workspace_root@,
                encode_utf8(DOWNLOADS_NAME@),
            )
        },
        ImageState::Save => {
            action matches ImageAction::Save { file } && file@ == paths.state_file@
        },
        ImageState::Ready => action is Nothing,
        ImageState::ClientFailed => action is Nothing,
        ImageState::DownloadFailed => action is Nothing,
    }
}

/// The step that `state` waits for.
pub fn image_action(
    state: ImageState,
    config: &RuntimeConfig,
    persisted: &PersistedState,
    paths: &RuntimePaths,
) -> (action: ImageAction)
    ensures
        is_image_action(state, *config, *persisted, *paths, action),
{
    match state {
        ImageState::CheckCache => match &persisted.artifact_paths.dmg_path {
            Some(image) => ImageAction::Exists { path: slice_to_vec(image.as_slice()) },
            None => ImageAction::Nothing,
        },
        ImageState::BuildClient => ImageAction::BuildClient,
        ImageState::Download => ImageAction::Download {
            url: config.dmg_url.clone(),
            directory: path_join(config.workspace_root.as_slice(), DOWNLOADS_NAME.as_bytes()),
        },
        ImageState::Save => ImageAction::Save {
            file: slice_to_vec(paths.state_file.as_slice()),
        },
        ImageState::Ready => ImageAction::Nothing,
        ImageState::ClientFailed => ImageAction::Nothing,
        ImageState::DownloadFailed => ImageAction::Nothing,
    }
}

/// What a failure is told under: a download that fails is named, a client that
/// cannot be built speaks for itself.
pub fn image_failure_context(state: ImageState) -> (context: Option<String>)
    ensures
        crate::text::option_text(context) == (if state == ImageState::DownloadFailed {
            Some("Failed to download upstream DMG for wrapper rebuild"@)
        } else {
            None
        }),
{
    match state {
        ImageState::DownloadFailed => Some(
            "Failed to download upstream DMG for wrapper rebuild".to_string(),
        ),
        _ => None,
    }
}

/// The image, once it is ready: it lies where the state of the updater says.
pub fn image_path(state: ImageState, persisted: &PersistedState) -> (path: Option<Vec<u8>>)
    ensures
        crate::paths::option_path(path) == (if state == ImageState::Ready {
            crate::paths::option_path(persisted.artifact_paths.dmg_path)
        } else {
            None
        }),
{
    match state {
        ImageState::Ready => match &persisted.artifact_paths.dmg_path {
            Some(image) => Some(slice_to_vec(image.as_slice())),
            None => None,
        },
        _ => None,
    }
}

/// The state and the memory after `events`.
pub open spec fn image_run(persisted: PersistedState, events: Seq<ImageEvent>) -> (
    ImageState,
    PersistedState,
)
    decreases events.len(),
{
    if events.len() == 0 {
        (image_begin(persisted), persisted)
    } else {
        let (state, memory) = image_run(persisted, events.drop_last());
        (image_next(state, events.last()), image_memory(state, events.last(), memory))
    }
}

/// A search that is over with success has an image, and the updater remembers
/// where: either the one that it remembered before, which is still there, or a
/// download. Nothing else that it remembers has changed.
pub proof fn law_ready_image_is_remembered(persisted: PersistedState, events: Seq<ImageEvent>)
    ensures
        ({
            let (state, memory) = image_run(persisted, events);
            &&& state == ImageState::Ready ==> memory.artifact_paths.dmg_path is Some
            &&& state == ImageState::Ready ==> {
                ||| memory == persisted && events.contains(ImageEvent::Answer(true))
                ||| events.contains(ImageEvent::Downloaded(memory.artifact_paths.dmg_path->0))
            }
            &&& memory.wrapper_status == persisted.wrapper_status
            &&& memory.wrapper_candidate == persisted.wrapper_candidate
            &&& memory.installed_version == persisted.installed_version
        }),
{
    lemma_image_run(persisted, events);
}

proof fn lemma_image_run(persisted: PersistedState, events: Seq<ImageEvent>)
    ensures
        ({
            let (state, memory) = image_run(persisted, events);
            &&& state == ImageState::CheckCache ==> memory == persisted
                && persisted.artifact_paths.dmg_path is Some
            &&& state == ImageState::BuildClient ==> memory == persisted
            &&& state == ImageState::Download ==> memory == persisted
            &&& state == ImageState::Save ==> memory.artifact_paths.dmg_path is Some
                && events.contains(ImageEvent::Downloaded(memory.artifact_paths.dmg_path->0))
            &&& state == ImageState::Ready ==> memory.artifact_paths.dmg_path is Some && {
                ||| memory == persisted && events.contains(ImageEvent::Answer(true))
                ||| events.contains(ImageEvent::Downloaded(memory.artifact_paths.dmg_path->0))
            }
            &&& memory.wrapper_status == persisted.wrapper_status
            &&& memory.wrapper_candidate == persisted.wrapper_candidate
            &&& memory.installed_version == persisted.installed_version
        }),
    decreases events.len(),
{
    if events.len() > 0 {
        let front = events.drop_last();
        lemma_image_run(persisted, front);
        assert(events[events.len() - 1] == events.last());
        assert(events.contains(events.last()));
        assert forall|e: ImageEvent| front.contains(e) implies events.contains(e) by {
            let i = choose|i: int| 0 <= i < front.len() && front[i] == e;
            assert(events[i] == e);
        }
    }
}

/// Downloads lie under the workspace.
pub proof fn law_downloads_are_under_workspace(workspace_root: Seq<u8>)
    ensures
        crate::paths::starts_with(
            crate::paths::joined(workspace_root, encode_utf8(DOWNLOADS_NAME@)),
            workspace_root,
        ),
{
    let name = encode_utf8(DOWNLOADS_NAME@);
    reveal_strlit("downloads");
    is_ascii_chars_encode_utf8(DOWNLOADS_NAME@);
    assert(name.len() == 9);
    assert forall|i: int| 0 <= i < name.len() implies name[i] != 0x2f by {}
    crate::paths::lemma_single_name(name);
    crate::paths::law_join_stays_under_base(workspace_root, name);
}

/// Each state of the search has its causes and no other. No download has failed
/// unless the download itself did, and a download that succeeded is ready once the
/// saving is over, whatever comes of that.
pub proof fn law_image_states_have_causes(state: ImageState, event: ImageEvent)
    ensures
        ({
            let next = image_next(state, event);
            let over = event is Done || event is Failed;
            &&& next is CheckCache <==> state is CheckCache && !(event is Answer)
            &&& next is BuildClient <==> (state is BuildClient && !over) || (state is CheckCache
                && event == ImageEvent::Answer(false))
            &&& next is Download <==> (state is Download && !(event is Downloaded)
                && !(event is Failed)) || (state is BuildClient && event is Done)
            &&& next is Save <==> (state is Save && !over) || (state is Download
                && event is Downloaded)
            &&& next is Ready <==> state is Ready || (state is Save && over) || (state is CheckCache
                && event == ImageEvent::Answer(true))
            &&& next is ClientFailed <==> state is ClientFailed || (state is BuildClient
                && event is Failed)
            &&& next is DownloadFailed <==> state is DownloadFailed || (state is Download
                && event is Failed)
        }),
{
}

/// What the updater remembers changes with a download alone, which replaces the
/// path of the image and nothing else.
pub proof fn law_only_download_is_remembered(
    state: ImageState,
    event: ImageEvent,
    persisted: PersistedState,
)
    ensures
        ({
            let memory = image_memory(state, event, persisted);
            &&& memory.wrapper_status == persisted.wrapper_status
            &&& memory.wrapper_candidate == persisted.wrapper_candidate
            &&& memory.installed_version == persisted.installed_version
            &&& state is Download && event is Downloaded ==> memory.artifact_paths.dmg_path == Some(
                event->Downloaded_0,
            )
            &&& !(state is Download) || !(event is Downloaded) ==> memory == persisted
        }),
{
}

proof fn lemma_image_push(persisted: PersistedState, events: Seq<ImageEvent>, event: ImageEvent)
    ensures
        ({
            let (state, memory) = image_run(persisted, events);
            image_run(persisted, events.push(event)) == (
                image_next(state, event),
                image_memory(state, event, memory),
            )
        }),
{
    assert(events.push(event).drop_last() =~= events);
}

/// A search succeeds if its steps do. An image that is remembered and still there
/// is ready, and stays remembered as it is. Where none is remembered or the one
/// that is has vanished, a download makes an image ready that lies where the
/// download does, whatever comes of saving that. A client or a download that fails
/// leaves the memory as it was.
pub proof fn law_search_succeeds(persisted: PersistedState, path: Vec<u8>, saved: ImageEvent)
    requires
        saved is Done || saved is Failed,
    ensures
        ({
            let cached = persisted.artifact_paths.dmg_path is Some;
            let gone = if cached {
                seq![ImageEvent::Answer(false)]
            } else {
                Seq::empty()
            };
            let fetched = gone.push(ImageEvent::Done).push(ImageEvent::Downloaded(path));
            let (end, memory) = image_run(persisted, fetched.push(saved));
            &&& cached ==> image_run(persisted, seq![ImageEvent::Answer(true)]) == (
                ImageState::Ready,
                persisted,
            )
            &&& end is Ready
            &&& memory.artifact_paths.dmg_path == Some(path)
            &&& memory.wrapper_status == persisted.wrapper_status
            &&& memory.wrapper_candidate == persisted.wrapper_candidate
            &&& memory.installed_version == persisted.installed_version
            &&& image_run(persisted, gone.push(ImageEvent::Failed)) == (
                ImageState::ClientFailed,
                persisted,
            )
            &&& image_run(persisted, gone.push(ImageEvent::Done).push(ImageEvent::Failed)) == (
                ImageState::DownloadFailed,
                persisted,
            )
        }),
{
    let cached = persisted.artifact_paths.dmg_path is Some;
    let none = Seq::<ImageEvent>::empty();
    let gone = if cached {
        seq![ImageEvent::Answer(false)]
    } else {
        none
    };
    let built = gone.push(ImageEvent::Done);
    let fetched = built.push(ImageEvent::Downloaded(path));
    assert(seq![ImageEvent::Answer(true)] =~= none.push(ImageEvent::Answer(true)));
    assert(seq![ImageEvent::Answer(false)] =~= none.push(ImageEvent::Answer(false)));
    lemma_image_push(persisted, none, ImageEvent::Answer(true));
    lemma_image_push(persisted, none, ImageEvent::Answer(false));
    assert(image_run(persisted, gone) == (ImageState::BuildClient, persisted));
    lemma_image_push(persisted, gone, ImageEvent::Done);
    lemma_image_push(persisted, gone, ImageEvent::Failed);
    lemma_image_push(persisted, built, ImageEvent::Downloaded(path));
    lemma_image_push(persisted, built, ImageEvent::Failed);
    lemma_image_push(persisted, fetched, saved);
}

/// A search begins with the remembered image exactly if there is one, and asks of
/// it, fetches and saves what the configuration and the memory name: the image at
/// the path that is remembered, the configured address, a directory `downloads` in
/// the workspace and the file for the state.
pub proof fn law_search_asks_for_what_is_named(
    state: ImageState,
    config: RuntimeConfig,
    persisted: PersistedState,
    paths: RuntimePaths,
    action: ImageAction,
)
    requires
        is_image_action(state, config, persisted, paths, action),
    ensures
        image_begin(persisted) is CheckCache <==> persisted.artifact_paths.dmg_path is Some,
        image_begin(persisted) is BuildClient <==> persisted.artifact_paths.dmg_path is None,
        action is Exists <==> state is CheckCache && persisted.artifact_paths.dmg_path is Some,
        action matches ImageAction::Exists { path } ==> path@
            == persisted.artifact_paths.dmg_path->0@,
        action is BuildClient <==> state is BuildClient,
        action is Download <==> state is Download,
        action matches ImageAction::Download { url, directory } ==> url@ == config.dmg_url@
            && directory@ == crate::paths::joined(
            config.workspace_root@,
            encode_utf8("downloads"@),
        ),
        action is Save <==> state is Save,
        action matches ImageAction::Save { file } ==> file@ == paths.state_file@,
{
}

} // verus!
