//! Applying a wrapper update to a native package: the wrapper's source is
//! fetched, a package is built from it and the disk image, and the package is
//! installed. Without the tools to build it, nothing of this begins.

use vstd::prelude::*;
use vstd::slice::*;

use crate::paths::SEARCH_PATH_VARIABLE;
use crate::state::{PersistedState, RuntimePaths};
use crate::text::shown_text;

verus! {

/// A tool that a build needs and cannot do without.
#[derive(Debug, Clone, Copy, PartialEq, Eq, Structural)]
pub enum BuildTool {
    /// The build tool of the updater.
    Cargo,
    /// An extractor for disk images, for which either of two programs will do.
    SevenZip,
    /// The runtime of the application's own build steps.
    Node,
}

/// The name of a tool.
pub open spec fn tool_name(tool: BuildTool) -> Seq<char> {
    match tool {
        BuildTool::Cargo => "cargo"@,
        BuildTool::SevenZip => "7zz"@,
        BuildTool::Node => "node"@,
    }
}

/// The programs that are looked for.
pub const CARGO: &'static str = "cargo";

pub const SEVEN_ZZ: &'static str = "7zz";

/// Stands in for the former.
pub const SEVEN_Z: &'static str = "7z";

pub const NODE: &'static str = "node";

/// The first tool that is missing of those that have to be installed, given
/// which programs are there.
pub open spec fn missing_tool(has_cargo: bool, has_7zz: bool, has_7z: bool) -> Option<BuildTool> {
    if !has_cargo {
        Some(BuildTool::Cargo)
    } else if !has_7zz && !has_7z {
        Some(BuildTool::SevenZip)
    } else {
        None
    }
}

/// The first tool that is missing for a rebuild, which takes `node` besides those
/// that have to be installed: it may come with a bundled runtime.
pub open spec fn missing_for_rebuild(
    has_cargo: bool,
    has_7zz: bool,
    has_7z: bool,
    has_node: bool,
) -> Option<BuildTool> {
    match missing_tool(has_cargo, has_7zz, has_7z) {
        Some(missing) => Some(missing),
        None => if has_node {
            None
        } else {
            Some(BuildTool::Node)
        },
    }
}

fn first_missing_tool(has_cargo: bool, has_7zz: bool, has_7z: bool) -> (missing: Option<BuildTool>)
    ensures
        missing == missing_tool(has_cargo, has_7zz, has_7z),
{
    if !has_cargo {
        Some(BuildTool::Cargo)
    } else if !has_7zz && !has_7z {
        Some(BuildTool::SevenZip)
    } else {
        None
    }
}

fn first_missing_for_rebuild(
    has_cargo: bool,
    has_7zz: bool,
    has_7z: bool,
    has_node: bool,
) -> (missing: Option<BuildTool>)
    ensures
        missing == missing_for_rebuild(has_cargo, has_7zz, has_7z, has_node),
{
    match first_missing_tool(has_cargo, has_7zz, has_7z) {
        Some(missing) => Some(missing),
        None => if has_node {
            None
        } else {
            Some(BuildTool::Node)
        },
    }
}

fn tool_label(tool: BuildTool) -> (label: &'static str)
    ensures
        label@ == tool_name(tool),
{
    match tool {
        BuildTool::Cargo => CARGO,
        BuildTool::SevenZip => SEVEN_ZZ,
        BuildTool::Node => NODE,
    }
}

/// The first build dependency that has to be installed and is missing, or nothing
/// where they are there: `cargo`, and `7zz` or in its place `7z`. A rebuild takes
/// `node` besides, which may come with a bundled runtime.
pub fn missing_build_dependency(has_cargo: bool, has_7zz: bool, has_7z: bool) -> (missing: Option<
    &'static str,
>)
    ensures
        missing is None <==> missing_tool(has_cargo, has_7zz, has_7z) is None,
        missing matches Some(label) ==> (missing_tool(has_cargo, has_7zz, has_7z) matches Some(tool)
            && label@ == tool_name(tool)),
        missing is None <==> has_cargo && (has_7zz || has_7z),
        missing matches Some(label) ==> label@ == (if has_cargo {
            "7zz"@
        } else {
            "cargo"@
        }),
{
    match first_missing_tool(has_cargo, has_7zz, has_7z) {
        Some(tool) => Some(tool_label(tool)),
        None => None,
    }
}

/// The title of the notification that a tool is missing.
pub const MISSING_TITLE: &'static str = "Codex Desktop Linux update available";

/// What is told where `label` is missing.
pub open spec fn missing_notice(label: Seq<char>) -> Seq<char> {
    "A newer Codex Desktop Linux build is available, but '"@ + label
        + "' is needed to rebuild it. Install the build tools or update the package manually."@
}

fn missing_text(tool: BuildTool) -> (text: String)
    ensures
        text@ == missing_notice(tool_name(tool)),
{
    let mut text = "A newer Codex Desktop Linux build is available, but '".to_string();
    text.append(tool_label(tool));
    text.append(
        "' is needed to rebuild it. Install the build tools or update the package manually.",
    );
    text
}

/// Why an update fails.
#[derive(Debug)]
pub enum PackagedFailure {
    /// This tool is missing.
    Missing(BuildTool),
    Source,
    Image,
    Version,
    Build,
    Executable,
    Launch,
    /// The installation ended with a status that is told so.
    Status(String),
}

/// How far an update has come: each state but the last two waits for the answer
/// to one step.
#[derive(Debug)]
pub enum PackagedState {
    /// Looks for the tools.
    CheckTools,
    /// Sends a notification that a tool is missing.
    NotifyMissing { missing: BuildTool },
    /// Prints that a tool is missing.
    PrintMissing { missing: BuildTool },
    /// Gets the source of the wrapper.
    EnsureSource,
    /// Gets the disk image.
    FindImage { source: Vec<u8> },
    /// Derives the version of the package.
    DeriveVersion { source: Vec<u8>, image: Vec<u8> },
    /// Builds the package.
    Build { source: Vec<u8>, image: Vec<u8>, version: String },
    /// Finds the running program.
    FindExecutable { package: Vec<u8> },
    /// Installs the package with the rights that it takes.
    Install { package: Vec<u8>, executable: Vec<u8> },
    /// Asks for the version that is installed now.
    ReadVersion,
    /// Saves the state of the updater.
    Save,
    Installed,
    Failed(PackagedFailure),
}

/// What came of a step.
#[derive(Debug)]
pub enum PackagedEvent {
    /// Which programs were found, and whether a bundled runtime provides `node`.
    Tools {
        has_cargo: bool,
        has_7zz: bool,
        has_7z: bool,
        has_node: bool,
        has_bundled_node: bool,
    },
    /// The step is done.
    Done,
    /// The step failed.
    Failed,
    /// The source, the image, the package or the program lies here.
    Found(Vec<u8>),
    /// The version of the package, or the one that is installed.
    Version(String),
    /// The installation ended with a status.
    Exited { success: bool, status: String },
}

/// The state after `event` in `state`. An event that is no answer to the step in
/// hand changes nothing. Whether notifying, printing and saving succeed makes no
/// difference.
pub open spec fn packaged_next(state: PackagedState, event: PackagedEvent) -> PackagedState {
    match (state, event) {
        (
            PackagedState::CheckTools,
            PackagedEvent::Tools { has_cargo, has_7zz, has_7z, has_node, has_bundled_node },
        ) => match missing_for_rebuild(has_cargo, has_7zz, has_7z, has_node || has_bundled_node) {
            Some(missing) => PackagedState::NotifyMissing { missing },
            None => PackagedState::EnsureSource,
        },
        (
            PackagedState::NotifyMissing { missing },
            PackagedEvent::Done | PackagedEvent::Failed,
        ) => PackagedState::PrintMissing { missing },
        (
            PackagedState::PrintMissing { missing },
            PackagedEvent::Done | PackagedEvent::Failed,
        ) => PackagedState::Failed(PackagedFailure::Missing(missing)),
        (PackagedState::EnsureSource, PackagedEvent::Found(source)) => PackagedState::FindImage {
            source,
        },
        (PackagedState::EnsureSource, PackagedEvent::Failed) => PackagedState::Failed(
            PackagedFailure::Source,
        ),
        (
            PackagedState::FindImage { source },
            PackagedEvent::Found(image),
        ) => PackagedState::DeriveVersion { source, image },
        (PackagedState::FindImage { .. }, PackagedEvent::Failed) => PackagedState::Failed(
            PackagedFailure::Image,
        ),
        (
            PackagedState::DeriveVersion { source, image },
            PackagedEvent::Version(version),
        ) => PackagedState::Build { source, image, version },
        (PackagedState::DeriveVersion { .. }, PackagedEvent::Failed) => PackagedState::Failed(
            PackagedFailure::Version,
        ),
        (PackagedState::Build { .. }, PackagedEvent::Found(package)) => PackagedState::FindExecutable {
            package,
        },
        (PackagedState::Build { .. }, PackagedEvent::Failed) => PackagedState::Failed(
            PackagedFailure::Build,
        ),
        (
            PackagedState::FindExecutable { package },
            PackagedEvent::Found(executable),
        ) => PackagedState::Install { package, executable },
        (PackagedState::FindExecutable { .. }, PackagedEvent::Failed) => PackagedState::Failed(
            PackagedFailure::Executable,
        ),
        (PackagedState::Install { .. }, PackagedEvent::Exited { success, status }) => if success {
            PackagedState::ReadVersion
        } else {
            PackagedState::Failed(PackagedFailure::Status(status))
        },
        (PackagedState::Install { .. }, PackagedEvent::Failed) => PackagedState::Failed(
            PackagedFailure::Launch,
        ),
        (PackagedState::ReadVersion, PackagedEvent::Version(_)) => PackagedState::Save,
        (
            PackagedState::Save,
            PackagedEvent::Done | PackagedEvent::Failed,
        ) => PackagedState::Installed,
        (state, _) => state,
    }
}

/// What the updater remembers after `event` in `state`: the version that is
/// installed now.
pub open spec fn packaged_memory(
    state: PackagedState,
    event: PackagedEvent,
    persisted: PersistedState,
) -> PersistedState {
    match (state, event) {
        (PackagedState::ReadVersion, PackagedEvent::Version(version)) => PersistedState {
            installed_version: version,
            ..persisted
        },
        _ => persisted,
    }
}

/// The state in which an update begins.
pub fn packaged_start() -> (state: PackagedState)
    ensures
        state == packaged_run(Seq::empty()),
{
    PackagedState::CheckTools
}

/// The state after `event` in `state`; the version that is installed now is
/// remembered.
pub fn packaged_step(
    state: PackagedState,
    persisted: &mut PersistedState,
    event: PackagedEvent,
) -> (next: PackagedState)
    ensures
        next == packaged_next(state, event),
        *final(persisted) == packaged_memory(state, event, *old(persisted)),
{
    match (state, event) {
        (
            PackagedState::CheckTools,
            PackagedEvent::Tools { has_cargo, has_7zz, has_7z, has_node, has_bundled_node },
        ) => match first_missing_for_rebuild(
            has_cargo,
            has_7zz,
            has_7z,
            has_node || has_bundled_node,
        ) {
            Some(missing) => PackagedState::NotifyMissing { missing },
            None => PackagedState::EnsureSource,
        },
        (
            PackagedState::NotifyMissing { missing },
            PackagedEvent::Done | PackagedEvent::Failed,
        ) => PackagedState::PrintMissing { missing },
        (
            PackagedState::PrintMissing { missing },
            PackagedEvent::Done | PackagedEvent::Failed,
        ) => PackagedState::Failed(PackagedFailure::Missing(missing)),
        (PackagedState::EnsureSource, PackagedEvent::Found(source)) => PackagedState::FindImage {
            source,
        },
        (PackagedState::EnsureSource, PackagedEvent::Failed) => PackagedState::Failed(
            PackagedFailure::Source,
        ),
        (
            PackagedState::FindImage { source },
            PackagedEvent::Found(image),
        ) => PackagedState::DeriveVersion { source, image },
        (PackagedState::FindImage { .. }, PackagedEvent::Failed) => PackagedState::Failed(
            PackagedFailure::Image,
        ),
        (
            PackagedState::DeriveVersion { source, image },
            PackagedEvent::Version(version),
        ) => PackagedState::Build { source, image, version },
        (PackagedState::DeriveVersion { .. }, PackagedEvent::Failed) => PackagedState::Failed(
            PackagedFailure::Version,
        ),
        (PackagedState::Build { .. }, PackagedEvent::Found(package)) => PackagedState::FindExecutable {
            package,
        },
        (PackagedState::Build { .. }, PackagedEvent::Failed) => PackagedState::Failed(
            PackagedFailure::Build,
        ),
        (
            PackagedState::FindExecutable { package },
            PackagedEvent::Found(executable),
        ) => PackagedState::Install { package, executable },
        (PackagedState::FindExecutable { .. }, PackagedEvent::Failed) => PackagedState::Failed(
            PackagedFailure::Executable,
        ),
        (PackagedState::Install { .. }, PackagedEvent::Exited { success, status }) => if success {
            PackagedState::ReadVersion
        } else {
            PackagedState::Failed(PackagedFailure::Status(status))
        },
        (PackagedState::Install { .. }, PackagedEvent::Failed) => PackagedState::Failed(
            PackagedFailure::Launch,
        ),
        (PackagedState::ReadVersion, PackagedEvent::Version(version)) => {
            persisted.installed_version = version;
            PackagedState::Save
        },
        (
            PackagedState::Save,
            PackagedEvent::Done | PackagedEvent::Failed,
        ) => PackagedState::Installed,
        (state, _) => state,
    }
}

/// A step to carry out.
#[derive(Debug)]
pub enum PackagedAction {
    /// Look for these programs in the directories that this variable names, and for
    /// the last one in a bundled runtime too.
    CheckTools {
        variable: &'static str,
        cargo: &'static str,
        seven_zz: &'static str,
        seven_z: &'static str,
        node: &'static str,
    },
    /// Send a notification.
    Notify { title: &'static str, body: String },
    /// Print a line.
    Print { line: String },
    EnsureSource,
    FindImage,
    /// Derive the version of a package that is built from this image.
    DeriveVersion { image: Vec<u8> },
    /// Build a package of this version from this source and this image.
    Build { source: Vec<u8>, version: String, image: Vec<u8> },
    FindExecutable,
    /// Let this program install this package with the rights that it takes.
    Install { executable: Vec<u8>, package: Vec<u8> },
    ReadVersion,
    /// Save the state of the updater to this file.
    Save { file: Vec<u8> },
    /// There is nothing left to do.
    Nothing,
}

/// `action` is the step that `state` waits for.
pub open spec fn is_packaged_action(
    state: PackagedState,
    paths: RuntimePaths,
    action: PackagedAction,
) -> bool {
    match state {
        PackagedState::CheckTools => {
            action matches PackagedAction::CheckTools { variable, cargo, seven_zz, seven_z, node }
                && variable@ == SEARCH_PATH_VARIABLE@ && cargo@ == tool_name(BuildTool::Cargo)
                && seven_zz@ == tool_name(BuildTool::SevenZip) && seven_z@ == SEVEN_Z@ && node@
                == tool_name(BuildTool::Node)
        },
        PackagedState::NotifyMissing { missing } => {
            action matches PackagedAction::Notify { title, body } && title@ == MISSING_TITLE@
                && body@ == missing_notice(tool_name(missing))
        },
        PackagedState::PrintMissing { missing } => {
            action matches PackagedAction::Print { line } && line@ == missing_notice(
                tool_name(missing),
            )
        },
        PackagedState::EnsureSource => action is EnsureSource,
        PackagedState::FindImage { .. } => action is FindImage,
        PackagedState::DeriveVersion { image, .. } => {
            action matches PackagedAction::DeriveVersion { image: file } && file@ == image@
        },
        PackagedState::Build { source, image, version } => {
            action matches PackagedAction::Build { source: tree, version: text, image: file }
                && tree@ == source@ && text@ == version@ && file@ == image@
        },
        PackagedState::FindExecutable { .. } => action is FindExecutable,
        PackagedState::Install { package, executable } => {
            action matches PackagedAction::Install { executable: program, package: file }
                && program@ == executable@ && file@ == package@
        },
        PackagedState::ReadVersion => action is ReadVersion,
        PackagedState::Save => {
            action matches PackagedAction::Save { file } && file@ == paths.state_file@
        },
        PackagedState::Installed => action is Nothing,
        PackagedState::Failed(_) => action is Nothing,
    }
}

/// The step that `state` waits for.
pub fn packaged_action(state: &PackagedState, paths: &RuntimePaths) -> (action: PackagedAction)
    ensures
        is_packaged_action(*state, *paths, action),
{
    match state {
        PackagedState::CheckTools => PackagedAction::CheckTools {
            variable: SEARCH_PATH_VARIABLE,
            cargo: CARGO,
            seven_zz: SEVEN_ZZ,
            seven_z: SEVEN_Z,
            node: NODE,
        },
        PackagedState::NotifyMissing { missing } => PackagedAction::Notify {
            title: MISSING_TITLE,
            body: missing_text(*missing),
        },
        PackagedState::PrintMissing { missing } => PackagedAction::Print {
            line: missing_text(*missing),
        },
        PackagedState::EnsureSource => PackagedAction::EnsureSource,
        PackagedState::FindImage { .. } => PackagedAction::FindImage,
        PackagedState::DeriveVersion { image, .. } => PackagedAction::DeriveVersion {
            image: slice_to_vec(image.as_slice()),
        },
        PackagedState::Build { source, image, version } => PackagedAction::Build {
            source: slice_to_vec(source.as_slice()),
            version: version.clone(),
            image: slice_to_vec(image.as_slice()),
        },
        PackagedState::FindExecutable { .. } => PackagedAction::FindExecutable,
        PackagedState::Install { package, executable } => PackagedAction::Install {
            executable: slice_to_vec(executable.as_slice()),
            package: slice_to_vec(package.as_slice()),
        },
        PackagedState::ReadVersion => PackagedAction::ReadVersion,
        PackagedState::Save => PackagedAction::Save {
            file: slice_to_vec(paths.state_file.as_slice()),
        },
        PackagedState::Installed => PackagedAction::Nothing,
        PackagedState::Failed(_) => PackagedAction::Nothing,
    }
}

/// What a failure is told under; nothing where what failed speaks for itself.
pub open spec fn packaged_failure(failure: PackagedFailure) -> Option<Seq<char>> {
    match failure {
        PackagedFailure::Missing(tool) => Some(missing_notice(tool_name(tool))),
        PackagedFailure::Source => None,
        PackagedFailure::Image => None,
        PackagedFailure::Version => None,
        PackagedFailure::Build => Some("wrapper package rebuild failed"@),
        PackagedFailure::Executable => Some("Failed to resolve updater binary path"@),
        PackagedFailure::Launch => Some(
            "Failed to launch pkexec for wrapper update installation"@,
        ),
        PackagedFailure::Status(status) => Some(
            "privileged wrapper install exited with status "@ + status@,
        ),
    }
}

/// What `failure` is told under.
pub fn packaged_failure_text(failure: &PackagedFailure) -> (text: Option<String>)
    ensures
        crate::text::option_text(text) == packaged_failure(*failure),
{
    match failure {
        PackagedFailure::Missing(tool) => Some(missing_text(*tool)),
        PackagedFailure::Source => None,
        PackagedFailure::Image => None,
        PackagedFailure::Version => None,
        PackagedFailure::Build => Some("wrapper package rebuild failed".to_string()),
        PackagedFailure::Executable => Some("Failed to resolve updater binary path".to_string()),
        PackagedFailure::Launch => Some(
            "Failed to launch pkexec for wrapper update installation".to_string(),
        ),
        PackagedFailure::Status(status) => {
            let mut text = "privileged wrapper install exited with status ".to_string();
            text.append(status.as_str());
            Some(text)
        },
    }
}

/// What is told where the image at `path` cannot be read to derive a version from
/// it.
pub fn image_read_failure_text(path: &[u8]) -> (text: String)
    ensures
        text@ == "Failed to read "@ + crate::text::shown(path@),
{
    let mut text = "Failed to read ".to_string();
    text.append(shown_text(path).as_str());
    text
}

/// The state of an update after `events`.
pub open spec fn packaged_run(events: Seq<PackagedEvent>) -> PackagedState
    decreases events.len(),
{
    if events.len() == 0 {
        PackagedState::CheckTools
    } else {
        packaged_next(packaged_run(events.drop_last()), events.last())
    }
}

proof fn lemma_packaged_push(events: Seq<PackagedEvent>, event: PackagedEvent)
    ensures
        packaged_run(events.push(event)) == packaged_next(packaged_run(events), event),
{
    assert(events.push(event).drop_last() =~= events);
}

/// The search for the tools found every one.
pub open spec fn finds_all(event: PackagedEvent) -> bool {
    event matches PackagedEvent::Tools { has_cargo, has_7zz, has_7z, has_node, has_bundled_node }
        && missing_for_rebuild(has_cargo, has_7zz, has_7z, has_node || has_bundled_node) is None
}

/// An update in which every step succeeds is installed, whatever comes of saving
/// the state.
pub proof fn law_update_succeeds(
    tools: PackagedEvent,
    source: Vec<u8>,
    image: Vec<u8>,
    version: String,
    package: Vec<u8>,
    executable: Vec<u8>,
    exit: PackagedEvent,
    installed: String,
    saved: PackagedEvent,
)
    requires
        finds_all(tools),
        exit matches PackagedEvent::Exited { success, .. } && success,
        saved is Done || saved is Failed,
    ensures
        packaged_run(
            seq![
                tools,
                PackagedEvent::Found(source),
                PackagedEvent::Found(image),
                PackagedEvent::Version(version),
                PackagedEvent::Found(package),
                PackagedEvent::Found(executable),
                exit,
                PackagedEvent::Version(installed),
                saved,
            ],
        ) == PackagedState::Installed,
{
    let s0 = Seq::<PackagedEvent>::empty();
    let s1 = s0.push(tools);
    let s2 = s1.push(PackagedEvent::Found(source));
    let s3 = s2.push(PackagedEvent::Found(image));
    let s4 = s3.push(PackagedEvent::Version(version));
    let s5 = s4.push(PackagedEvent::Found(package));
    let s6 = s5.push(PackagedEvent::Found(executable));
    let s7 = s6.push(exit);
    let s8 = s7.push(PackagedEvent::Version(installed));
    lemma_packaged_push(s0, tools);
    lemma_packaged_push(s1, PackagedEvent::Found(source));
    lemma_packaged_push(s2, PackagedEvent::Found(image));
    lemma_packaged_push(s3, PackagedEvent::Version(version));
    lemma_packaged_push(s4, PackagedEvent::Found(package));
    lemma_packaged_push(s5, PackagedEvent::Found(executable));
    lemma_packaged_push(s6, exit);
    lemma_packaged_push(s7, PackagedEvent::Version(installed));
    lemma_packaged_push(s8, saved);
    assert(seq![
        tools,
        PackagedEvent::Found(source),
        PackagedEvent::Found(image),
        PackagedEvent::Version(version),
        PackagedEvent::Found(package),
        PackagedEvent::Found(executable),
        exit,
        PackagedEvent::Version(installed),
        saved,
    ] =~= s8.push(saved));
}

/// A rebuild has begun.
pub open spec fn is_rebuilding(state: PackagedState) -> bool {
    match state {
        PackagedState::CheckTools => false,
        PackagedState::NotifyMissing { .. } => false,
        PackagedState::PrintMissing { .. } => false,
        PackagedState::Failed(PackagedFailure::Missing(_)) => false,
        _ => true,
    }
}

/// Nothing of a rebuild begins before the tools are known to be there: in every
/// run that has begun one, the answer to the search for the tools was that none
/// is missing.
pub proof fn law_tools_precede_rebuild(events: Seq<PackagedEvent>)
    requires
        is_rebuilding(packaged_run(events)),
    ensures
        exists|i: int|
            {
                &&& 0 <= i < events.len()
                &&& #[trigger] packaged_run(events.take(i)) is CheckTools
                &&& finds_all(events[i])
            },
    decreases events.len(),
{
    let front = events.drop_last();
    let last = events.len() - 1;
    assert(events.take(last) =~= front);
    if is_rebuilding(packaged_run(front)) {
        law_tools_precede_rebuild(front);
        let i = choose|i: int|
            {
                &&& 0 <= i < front.len()
                &&& #[trigger] packaged_run(front.take(i)) is CheckTools
                &&& finds_all(front[i])
            };
        assert(front.take(i) =~= events.take(i));
        assert(packaged_run(events.take(i)) is CheckTools);
    } else {
        assert(packaged_run(events.take(last)) is CheckTools);
    }
}

/// A rebuild begins exactly if `cargo`, an extractor and `node` are all there, the
/// last one as a program or in a bundled runtime; where one is missing, the answer
/// to the search for the tools leads to the notification that names it. A missing
/// tool of those that have to be installed is always the one that is named.
pub proof fn law_every_tool_is_needed(
    has_cargo: bool,
    has_7zz: bool,
    has_7z: bool,
    has_node: bool,
    has_bundled_node: bool,
)
    ensures
        ({
            let next = packaged_next(
                PackagedState::CheckTools,
                PackagedEvent::Tools { has_cargo, has_7zz, has_7z, has_node, has_bundled_node },
            );
            let all_there = has_cargo && (has_7zz || has_7z) && (has_node || has_bundled_node);
            &&& missing_tool(has_cargo, has_7zz, has_7z) matches Some(missing) ==> next
                == PackagedState::NotifyMissing { missing }
            &&& all_there ==> next == PackagedState::EnsureSource
            &&& !all_there ==> (next matches PackagedState::NotifyMissing { missing }
                && tool_name(missing) == (if !has_cargo {
                "cargo"@
            } else if !has_7zz && !has_7z {
                "7zz"@
            } else {
                "node"@
            }))
        }),
{
}

/// A missing tool ends the update with a notification and a failure: from the
/// notification on, every answer leads there, and nothing else is done.
pub proof fn law_missing_tool_only_notifies(missing: BuildTool, event: PackagedEvent)
    ensures
        ({
            let notify = PackagedState::NotifyMissing { missing };
            let print = PackagedState::PrintMissing { missing };
            let failed = PackagedState::Failed(PackagedFailure::Missing(missing));
            &&& packaged_next(notify, event) == notify || packaged_next(notify, event) == print
            &&& packaged_next(print, event) == print || packaged_next(print, event) == failed
            &&& packaged_next(failed, event) == failed
        }),
{
}

/// An update that is over with success has installed the package that was built:
/// the installation ended with success, and the version that is installed now
/// was asked for after that.
pub proof fn law_installed_means_success(events: Seq<PackagedEvent>)
    requires
        packaged_run(events) is Installed,
    ensures
        exists|i: int, j: int|
            {
                &&& 0 <= i < j < events.len()
                &&& #[trigger] packaged_run(events.take(i)) is Install
                &&& events[i] matches PackagedEvent::Exited { success, .. } && success
                &&& #[trigger] packaged_run(events.take(j)) is ReadVersion
                &&& events[j] is Version
            },
{
    let k = lemma_save_precedes_installed(events);
    let before_k = events.take(k);
    let j = lemma_version_precedes_save(before_k);
    assert(before_k.take(j) =~= events.take(j));
    let before_j = events.take(j);
    let i = lemma_install_precedes_version(before_j);
    assert(before_j.take(i) =~= events.take(i));
    assert(packaged_run(events.take(i)) is Install);
    assert(packaged_run(events.take(j)) is ReadVersion);
}

/// What an update works with.
pub enum Material {
    Source,
    Image,
    Version,
    Package,
}

/// `state` waits for `what`.
pub open spec fn is_asked_for(state: PackagedState, what: Material) -> bool {
    match what {
        Material::Source => state is EnsureSource,
        Material::Image => state is FindImage,
        Material::Version => state is DeriveVersion,
        Material::Package => state is Build,
    }
}

/// The event at `i` is the answer `event` to the step that asks for `what`.
pub open spec fn answered(
    events: Seq<PackagedEvent>,
    i: int,
    what: Material,
    event: PackagedEvent,
) -> bool {
    &&& 0 <= i < events.len()
    &&& is_asked_for(packaged_run(events.take(i)), what)
    &&& events[i] == event
}

/// The step that asks for `what` was answered by `event`.
pub open spec fn was_answered(
    events: Seq<PackagedEvent>,
    what: Material,
    event: PackagedEvent,
) -> bool {
    exists|i: int| #[trigger] answered(events, i, what, event)
}

/// What a build works on was found for it: the source, the image and the version
/// are answers to the steps that ask for them.
pub open spec fn build_is_founded(
    events: Seq<PackagedEvent>,
    source: Vec<u8>,
    image: Vec<u8>,
    version: String,
) -> bool {
    &&& was_answered(events, Material::Source, PackagedEvent::Found(source))
    &&& was_answered(events, Material::Image, PackagedEvent::Found(image))
    &&& was_answered(events, Material::Version, PackagedEvent::Version(version))
}

proof fn lemma_answered_stays(
    events: Seq<PackagedEvent>,
    what: Material,
    event: PackagedEvent,
)
    requires
        events.len() > 0,
        was_answered(events.drop_last(), what, event),
    ensures
        was_answered(events, what, event),
{
    let front = events.drop_last();
    let i = choose|i: int| #[trigger] answered(front, i, what, event);
    assert(front.take(i) =~= events.take(i));
    assert(answered(events, i, what, event));
}

proof fn lemma_answered_now(
    events: Seq<PackagedEvent>,
    what: Material,
)
    requires
        events.len() > 0,
        is_asked_for(packaged_run(events.drop_last()), what),
    ensures
        was_answered(events, what, events.last()),
{
    assert(events.take(events.len() - 1) =~= events.drop_last());
    assert(answered(events, events.len() - 1, what, events.last()));
}

/// A package is built from the source that was fetched, the image that was found
/// and the version that was derived, and what is installed is the package that
/// was built.
pub proof fn law_what_is_built_was_found(events: Seq<PackagedEvent>)
    ensures
        packaged_run(events) matches PackagedState::Build { source, image, version }
            ==> build_is_founded(events, source, image, version),
        packaged_run(events) matches PackagedState::Install { package, .. } ==> was_answered(
            events,
            Material::Package,
            PackagedEvent::Found(package),
        ),
{
    lemma_material_was_found(events);
}

proof fn lemma_material_was_found(events: Seq<PackagedEvent>)
    ensures
        match packaged_run(events) {
            PackagedState::FindImage { source } => was_answered(
                events,
                Material::Source,
                PackagedEvent::Found(source),
            ),
            PackagedState::DeriveVersion { source, image } => {
                &&& was_answered(events, Material::Source, PackagedEvent::Found(source))
                &&& was_answered(events, Material::Image, PackagedEvent::Found(image))
            },
            PackagedState::Build { source, image, version } => build_is_founded(
                events,
                source,
                image,
                version,
            ),
            PackagedState::FindExecutable { package } => was_answered(
                events,
                Material::Package,
                PackagedEvent::Found(package),
            ),
            PackagedState::Install { package, .. } => was_answered(
                events,
                Material::Package,
                PackagedEvent::Found(package),
            ),
            _ => true,
        },
    decreases events.len(),
{
    if events.len() > 0 {
        let front = events.drop_last();
        lemma_material_was_found(front);
        match packaged_run(front) {
            PackagedState::EnsureSource => lemma_answered_now(events, Material::Source),
            PackagedState::FindImage { source } => {
                lemma_answered_stays(events, Material::Source, PackagedEvent::Found(source));
                lemma_answered_now(events, Material::Image);
            },
            PackagedState::DeriveVersion { source, image } => {
                lemma_answered_stays(events, Material::Source, PackagedEvent::Found(source));
                lemma_answered_stays(events, Material::Image, PackagedEvent::Found(image));
                lemma_answered_now(events, Material::Version);
            },
            PackagedState::Build { source, image, version } => {
                lemma_answered_stays(events, Material::Source, PackagedEvent::Found(source));
                lemma_answered_stays(events, Material::Image, PackagedEvent::Found(image));
                lemma_answered_stays(events, Material::Version, PackagedEvent::Version(version));
                lemma_answered_now(events, Material::Package);
            },
            PackagedState::FindExecutable { package } => {
                lemma_answered_stays(events, Material::Package, PackagedEvent::Found(package));
            },
            PackagedState::Install { package, .. } => {
                lemma_answered_stays(events, Material::Package, PackagedEvent::Found(package));
            },
            _ => {},
        }
    }
}

proof fn lemma_save_precedes_installed(events: Seq<PackagedEvent>) -> (i: int)
    requires
        packaged_run(events) is Installed,
    ensures
        0 <= i < events.len(),
        packaged_run(events.take(i)) is Save,
    decreases events.len(),
{
    let front = events.drop_last();
    assert(events.take(events.len() - 1) =~= front);
    if packaged_run(front) is Installed {
        let i = lemma_save_precedes_installed(front);
        assert(front.take(i) =~= events.take(i));
        i
    } else {
        events.len() - 1
    }
}

proof fn lemma_version_precedes_save(events: Seq<PackagedEvent>) -> (i: int)
    requires
        packaged_run(events) is Save,
    ensures
        0 <= i < events.len(),
        packaged_run(events.take(i)) is ReadVersion,
        events[i] is Version,
    decreases events.len(),
{
    let front = events.drop_last();
    assert(events.take(events.len() - 1) =~= front);
    if packaged_run(front) is Save {
        let i = lemma_version_precedes_save(front);
        assert(front.take(i) =~= events.take(i));
        i
    } else {
        events.len() - 1
    }
}

proof fn lemma_install_precedes_version(events: Seq<PackagedEvent>) -> (i: int)
    requires
        packaged_run(events) is ReadVersion,
    ensures
        0 <= i < events.len(),
        packaged_run(events.take(i)) is Install,
        events[i] matches PackagedEvent::Exited { success, .. } && success,
    decreases events.len(),
{
    let front = events.drop_last();
    assert(events.take(events.len() - 1) =~= front);
    if packaged_run(front) is ReadVersion {
        let i = lemma_install_precedes_version(front);
        assert(front.take(i) =~= events.take(i));
        i
    } else {
        events.len() - 1
    }
}

/// An update in which every step succeeds hands on what was found: the source, the
/// image and the version to the build, the package that was built and the running
/// program to the installation. It begins as soon as `cargo`, one of the two
/// extractors and `node` are there, and is over once the state is saved.
pub proof fn law_update_hands_on_what_was_found(
    tools: PackagedEvent,
    source: Vec<u8>,
    image: Vec<u8>,
    version: String,
    package: Vec<u8>,
    executable: Vec<u8>,
    status: String,
    installed: String,
    saved: PackagedEvent,
)
    requires
        tools matches PackagedEvent::Tools { has_cargo, has_7zz, has_7z, has_node, has_bundled_node }
            && has_cargo && (has_7zz || has_7z) && (has_node || has_bundled_node),
        saved is Done || saved is Failed,
    ensures
        ({
            let s1 = Seq::<PackagedEvent>::empty().push(tools);
            let s2 = s1.push(PackagedEvent::Found(source));
            let s3 = s2.push(PackagedEvent::Found(image));
            let s4 = s3.push(PackagedEvent::Version(version));
            let s5 = s4.push(PackagedEvent::Found(package));
            let s6 = s5.push(PackagedEvent::Found(executable));
            let s7 = s6.push(PackagedEvent::Exited { success: true, status });
            let s8 = s7.push(PackagedEvent::Version(installed));
            &&& packaged_run(Seq::empty()) is CheckTools
            &&& packaged_run(s1) is EnsureSource
            &&& packaged_run(s2) == PackagedState::FindImage { source }
            &&& packaged_run(s3) == PackagedState::DeriveVersion { source, image }
            &&& packaged_run(s4) == PackagedState::Build { source, image, version }
            &&& packaged_run(s5) == PackagedState::FindExecutable { package }
            &&& packaged_run(s6) == PackagedState::Install { package, executable }
            &&& packaged_run(s7) is ReadVersion
            &&& packaged_run(s8) is Save
            &&& packaged_run(s8.push(saved)) is Installed
        }),
{
    let s0 = Seq::<PackagedEvent>::empty();
    let s1 = s0.push(tools);
    let s2 = s1.push(PackagedEvent::Found(source));
    let s3 = s2.push(PackagedEvent::Found(image));
    let s4 = s3.push(PackagedEvent::Version(version));
    let s5 = s4.push(PackagedEvent::Found(package));
    let s6 = s5.push(PackagedEvent::Found(executable));
    let s7 = s6.push(PackagedEvent::Exited { success: true, status });
    let s8 = s7.push(PackagedEvent::Version(installed));
    lemma_packaged_push(s0, tools);
    lemma_packaged_push(s1, PackagedEvent::Found(source));
    lemma_packaged_push(s2, PackagedEvent::Found(image));
    lemma_packaged_push(s3, PackagedEvent::Version(version));
    lemma_packaged_push(s4, PackagedEvent::Found(package));
    lemma_packaged_push(s5, PackagedEvent::Found(executable));
    lemma_packaged_push(s6, PackagedEvent::Exited { success: true, status });
    lemma_packaged_push(s7, PackagedEvent::Version(installed));
    lemma_packaged_push(s8, saved);
}

/// An update fails exactly with the step that does: one of its own steps failed,
/// the installation did not end with success, or it was told that a tool is
/// missing. What is told names that step, with the tool or the status; where
/// getting the source, the image or the version failed, that speaks for itself.
pub proof fn law_failure_names_the_failed_step(state: PackagedState, event: PackagedEvent)
    ensures
        ({
            let next = packaged_next(state, event);
            let own = state is EnsureSource || state is FindImage || state is DeriveVersion
                || state is Build || state is FindExecutable || state is Install;
            let refused = event matches PackagedEvent::Exited { success, .. } && !success;
            let over = event is Done || event is Failed;
            &&& next is Failed <==> state is Failed || (own && event is Failed) || (
            state is Install && refused) || (state is PrintMissing && over)
            &&& state is Failed ==> next == state
            &&& next is Failed && (state is EnsureSource || state is FindImage
                || state is DeriveVersion) ==> packaged_failure(next->Failed_0) is None
            &&& next is Failed && state is Build ==> packaged_failure(next->Failed_0) == Some(
                "wrapper package rebuild failed"@,
            )
            &&& next is Failed && state is FindExecutable ==> packaged_failure(next->Failed_0)
                == Some("Failed to resolve updater binary path"@)
            &&& next is Failed && state is Install && event is Failed ==> packaged_failure(
                next->Failed_0,
            ) == Some("Failed to launch pkexec for wrapper update installation"@)
            &&& next is Failed && state is Install && event is Exited ==> packaged_failure(
                next->Failed_0,
            ) == Some("privileged wrapper install exited with status "@ + event->status@)
            &&& next is Failed && state is PrintMissing ==> next->Failed_0 == (
            PackagedFailure::Missing(state->PrintMissing_missing))
        }),
{
}

/// What is told of a missing tool names it, and is the same in the notification,
/// in the line that is printed and in the failure.
pub proof fn law_missing_tool_is_named(tool: BuildTool, event: PackagedEvent)
    ensures
        ({
            let name = match tool {
                BuildTool::Cargo => "cargo"@,
                BuildTool::SevenZip => "7zz"@,
                BuildTool::Node => "node"@,
            };
            let notice = "A newer Codex Desktop Linux build is available, but '"@ + name
                + "' is needed to rebuild it. Install the build tools or update the package manually."@;
            let over = event is Done || event is Failed;
            &&& tool_name(tool) == name
            &&& missing_notice(tool_name(tool)) == notice
            &&& packaged_failure(PackagedFailure::Missing(tool)) == Some(notice)
            &&& over ==> packaged_next(PackagedState::NotifyMissing { missing: tool }, event)
                == (PackagedState::PrintMissing { missing: tool })
            &&& over ==> packaged_next(PackagedState::PrintMissing { missing: tool }, event)
                == PackagedState::Failed(PackagedFailure::Missing(tool))
        }),
{
}

/// An update stands still exactly as long as the answer to its step is out: any
/// other event changes nothing, and neither does one after the end.
pub proof fn law_update_waits_for_its_answer(state: PackagedState, event: PackagedEvent)
    ensures
        ({
            let next = packaged_next(state, event);
            let over = event is Done || event is Failed;
            let found = event is Found || event is Failed;
            &&& state is CheckTools ==> (next == state <==> !(event is Tools))
            &&& state is NotifyMissing || state is PrintMissing || state is Save ==> (next == state
                <==> !over)
            &&& state is EnsureSource || state is FindImage || state is Build
                || state is FindExecutable ==> (next == state <==> !found)
            &&& state is DeriveVersion ==> (next == state <==> !(event is Version)
                && !(event is Failed))
            &&& state is Install ==> (next == state <==> !(event is Exited) && !(event is Failed))
            &&& state is ReadVersion ==> (next == state <==> !(event is Version))
            &&& state is Installed || state is Failed ==> next == state
        }),
{
}

/// The version that is asked for after the installation is remembered, and nothing
/// else that the updater remembers changes with a step.
pub proof fn law_only_version_is_remembered(
    state: PackagedState,
    event: PackagedEvent,
    persisted: PersistedState,
)
    ensures
        ({
            let memory = packaged_memory(state, event, persisted);
            &&& memory.wrapper_status == persisted.wrapper_status
            &&& memory.wrapper_candidate == persisted.wrapper_candidate
            &&& memory.artifact_paths == persisted.artifact_paths
            &&& state is ReadVersion && event is Version ==> memory.installed_version
                == event->Version_0
            &&& !(state is ReadVersion) || !(event is Version) ==> memory == persisted
        }),
{
}

/// Each step works on what the state holds: the version is derived from the image,
/// the package is built from the source, the version and the image, the program
/// installs the package, and the state is saved to its file. The tools are looked
/// for in the search path, under the names by which they are missed.
pub proof fn law_update_asks_for_what_it_holds(
    state: PackagedState,
    paths: RuntimePaths,
    action: PackagedAction,
)
    requires
        is_packaged_action(state, paths, action),
    ensures
        action is CheckTools <==> state is CheckTools,
        action matches PackagedAction::CheckTools { variable, cargo, seven_zz, seven_z, node }
            ==> variable@ == "PATH"@ && cargo@ == "cargo"@ && seven_zz@ == "7zz"@ && seven_z@
            == "7z"@ && node@ == "node"@,
        action is Notify <==> state is NotifyMissing,
        action matches PackagedAction::Notify { title, body } ==> title@
            == "Codex Desktop Linux update available"@ && body@ == missing_notice(
            tool_name(state->NotifyMissing_missing),
        ),
        action is Print <==> state is PrintMissing,
        action matches PackagedAction::Print { line } ==> line@ == missing_notice(
            tool_name(state->PrintMissing_missing),
        ),
        action is EnsureSource <==> state is EnsureSource,
        action is FindImage <==> state is FindImage,
        action is DeriveVersion <==> state is DeriveVersion,
        action matches PackagedAction::DeriveVersion { image } ==> image@
            == state->DeriveVersion_image@,
        action is Build <==> state is Build,
        action matches PackagedAction::Build { source, version, image } ==> source@
            == state->Build_source@ && version@ == state->version@ && image@ == state->Build_image@,
        action is FindExecutable <==> state is FindExecutable,
        action is Install <==> state is Install,
        action matches PackagedAction::Install { executable, package } ==> executable@
            == state->executable@ && package@ == state->Install_package@,
        action is ReadVersion <==> state is ReadVersion,
        action is Save <==> state is Save,
        action matches PackagedAction::Save { file } ==> file@ == paths.state_file@,
        action is Nothing <==> state is Installed || state is Failed,
{
}

} // verus!
