//! The source of the wrapper: which repository it is taken from, and the steps
//! that clone or refresh a checkout of it under the cache directory.

use vstd::prelude::*;
use vstd::slice::*;
use vstd::utf8::*;

use crate::paths::path_join;
use crate::state::{RuntimeConfig, RuntimePaths};
use crate::text::{debug_text, shown_text};
use crate::windows::non_empty;

verus! {

/// The repository of the wrapper where nothing else is configured.
pub const DEFAULT_WRAPPER_REMOTE: &'static str =
    "https://github.com/ilysenko/codex-desktop-linux.git";

/// The branch of the wrapper where none is configured.
pub const DEFAULT_WRAPPER_BRANCH: &'static str = "main";

/// The directory of the checkout, in the cache directory.
pub const CHECKOUT_NAME: &'static str = "wrapper-src";

/// The name by which a git checkout is known.
pub const GIT_DIRECTORY: &'static str = ".git";

/// The repository of the wrapper: the configured one, or the one that the bundle
/// was checked out from, or the usual one.
pub open spec fn remote_for(
    configured: Seq<char>,
    bundle_is_checkout: bool,
    origin: Option<Seq<char>>,
) -> Seq<char> {
    if crate::text::trimmed(configured).len() > 0 {
        crate::text::trimmed(configured)
    } else if bundle_is_checkout && origin is Some {
        origin->0
    } else {
        DEFAULT_WRAPPER_REMOTE@
    }
}

/// The repository of the wrapper, where `bundle_is_checkout` says whether the
/// bundle is a git checkout and `origin` what git names as its origin.
pub fn resolve_wrapper_remote(
    config: &RuntimeConfig,
    bundle_is_checkout: bool,
    origin: Option<&String>,
) -> (remote: String)
    ensures
        remote@ == remote_for(
            config.wrapper_remote@,
            bundle_is_checkout,
            match origin {
                Some(text) => Some(text@),
                None => None,
            },
        ),
{
    let trimmed = config.wrapper_remote.as_str().trim();
    if !trimmed.is_empty() {
        return trimmed.to_string();
    }
    if bundle_is_checkout {
        match origin {
            Some(text) => {
                return text.clone();
            },
            None => {},
        }
    }
    DEFAULT_WRAPPER_REMOTE.to_string()
}

/// Whether it takes a look at the bundle to tell the repository: only where none
/// is configured.
pub fn needs_bundle_origin(config: &RuntimeConfig) -> (needed: bool)
    ensures
        needed <==> crate::text::trimmed(config.wrapper_remote@).len() == 0,
{
    config.wrapper_remote.as_str().trim().is_empty()
}

/// The branch for the configured text `configured`.
pub open spec fn branch_for(configured: Seq<char>) -> Seq<char> {
    if crate::text::trimmed(configured).len() == 0 {
        DEFAULT_WRAPPER_BRANCH@
    } else {
        crate::text::trimmed(configured)
    }
}

/// The branch of the wrapper.
pub fn wrapper_branch(config: &RuntimeConfig) -> (branch: String)
    ensures
        branch@ == branch_for(config.wrapper_branch@),
{
    let trimmed = config.wrapper_branch.as_str().trim();
    if trimmed.is_empty() {
        DEFAULT_WRAPPER_BRANCH.to_string()
    } else {
        trimmed.to_string()
    }
}

/// Where the checkout lies, given the cache directory.
pub open spec fn checkout_in(cache_dir: Seq<u8>) -> Seq<u8> {
    crate::paths::joined(cache_dir, encode_utf8(CHECKOUT_NAME@))
}

/// Where the checkout lies.
pub fn checkout_path(paths: &RuntimePaths) -> (dest: Vec<u8>)
    ensures
        dest@ == checkout_in(paths.cache_dir@),
{
    path_join(paths.cache_dir.as_slice(), CHECKOUT_NAME.as_bytes())
}

/// What a program printed, and whether it succeeded.
#[derive(Debug)]
pub struct CommandOutput {
    pub success: bool,
    pub stdout: Vec<u8>,
}

/// What is captured of a program that printed `text`: the text without the white
/// space around it, unless nothing is left of it.
pub fn captured_text(text: &str) -> (captured: Option<String>)
    ensures
        crate::text::option_text(captured) == crate::text::unless_empty(
            crate::text::trimmed(text@),
        ),
{
    non_empty(text.trim().to_string())
}

/// What is captured of a git command: what it printed, unless it could not be
/// run, failed or printed nothing.
pub fn git_capture(output: Option<CommandOutput>) -> (captured: Option<String>)
    ensures
        crate::text::option_text(captured) == match output {
            Some(o) => if o.success {
                crate::text::unless_empty(
                    crate::text::trimmed(crate::text::shown(o.stdout@)),
                )
            } else {
                None
            },
            None => None,
        },
{
    match output {
        Some(o) => {
            if !o.success {
                return None;
            }
            captured_text(shown_text(o.stdout.as_slice()).as_str())
        },
        None => None,
    }
}

/// How a program ended.
#[derive(Debug)]
pub enum CommandExit {
    /// It could not be started.
    NotLaunched,
    /// It ended with a status, told as `status`.
    Exited { success: bool, status: String },
}

/// What is told of a git command that failed.
pub open spec fn git_failure(args: Seq<Seq<char>>, exit: CommandExit) -> Option<Seq<char>> {
    match exit {
        CommandExit::NotLaunched => Some("Failed to run git for wrapper source"@),
        CommandExit::Exited { success, status } => if success {
            None
        } else {
            Some(
                "git "@ + crate::text::debug_list(args) + " exited with status "@ + status@,
            )
        },
    }
}

/// What the git command with the arguments `args` came to, from how it ended.
pub fn run_git(args: &Vec<String>, exit: &CommandExit) -> (result: Result<(), String>)
    ensures
        match git_failure(crate::text::texts(args@), *exit) {
            None => result is Ok,
            Some(text) => result matches Err(told) && told@ == text,
        },
{
    match exit {
        CommandExit::NotLaunched => Err("Failed to run git for wrapper source".to_string()),
        CommandExit::Exited { success, status } => {
            if *success {
                Ok(())
            } else {
                let mut text = "git ".to_string();
                text.append(debug_text(args).as_str());
                text.append(" exited with status ");
                text.append(status.as_str());
                Err(text)
            }
        },
    }
}

/// The variables that keep git from asking anybody for anything.
pub fn git_environment() -> (variables: Vec<(&'static str, &'static str)>)
    ensures
        variables@.len() == 4,
        variables@[0].0@ == "GIT_TERMINAL_PROMPT"@ && variables@[0].1@ == "0"@,
        variables@[1].0@ == "GIT_ASKPASS"@ && variables@[1].1@ == "true"@,
        variables@[2].0@ == "SSH_ASKPASS"@ && variables@[2].1@ == "true"@,
        variables@[3].0@ == "GCM_INTERACTIVE"@ && variables@[3].1@ == "never"@,
{
    vec![
        ("GIT_TERMINAL_PROMPT", "0"),
        ("GIT_ASKPASS", "true"),
        ("SSH_ASKPASS", "true"),
        ("GCM_INTERACTIVE", "never"),
    ]
}

/// The command that names the origin of the checkout `root`.
pub open spec fn origin_command(root: Seq<u8>) -> Seq<Seq<char>> {
    seq!["-C"@, crate::text::shown(root), "remote"@, "get-url"@, "origin"@]
}

/// The command that fetches `branch` of `remote` into the checkout `dest`.
pub open spec fn fetch_command(dest: Seq<u8>, remote: Seq<char>, branch: Seq<char>) -> Seq<Seq<char>> {
    seq![
        "-C"@,
        crate::text::shown(dest),
        "fetch"@,
        "--depth"@,
        "1"@,
        "--quiet"@,
        remote,
        branch,
    ]
}

/// The command that puts the checkout `dest` to what was fetched.
pub open spec fn reset_command(dest: Seq<u8>) -> Seq<Seq<char>> {
    seq![
        "-C"@,
        crate::text::shown(dest),
        "reset"@,
        "--hard"@,
        "--quiet"@,
        "FETCH_HEAD"@,
    ]
}

/// The command that removes from the checkout `dest` what is not part of it.
pub open spec fn clean_command(dest: Seq<u8>) -> Seq<Seq<char>> {
    seq!["-C"@, crate::text::shown(dest), "clean"@, "-fdx"@, "--quiet"@]
}

/// The command that clones `branch` of `remote` to `dest`.
pub open spec fn clone_command(dest: Seq<u8>, remote: Seq<char>, branch: Seq<char>) -> Seq<Seq<char>> {
    seq![
        "clone"@,
        "--depth"@,
        "1"@,
        "--branch"@,
        branch,
        "--single-branch"@,
        "--quiet"@,
        remote,
        crate::text::shown(dest),
    ]
}

fn origin_arguments(root: &[u8]) -> (args: Vec<String>)
    ensures
        crate::text::texts(args@) == origin_command(root@),
{
    let args = vec![
        "-C".to_string(),
        shown_text(root),
        "remote".to_string(),
        "get-url".to_string(),
        "origin".to_string(),
    ];
    proof {
        assert(crate::text::texts(args@) =~= origin_command(root@));
    }
    args
}

fn fetch_arguments(dest: &[u8], remote: String, branch: String) -> (args: Vec<String>)
    ensures
        crate::text::texts(args@) == fetch_command(dest@, remote@, branch@),
{
    let args = vec![
        "-C".to_string(),
        shown_text(dest),
        "fetch".to_string(),
        "--depth".to_string(),
        "1".to_string(),
        "--quiet".to_string(),
        remote,
        branch,
    ];
    proof {
        assert(crate::text::texts(args@) =~= fetch_command(dest@, remote@, branch@));
    }
    args
}

fn reset_arguments(dest: &[u8]) -> (args: Vec<String>)
    ensures
        crate::text::texts(args@) == reset_command(dest@),
{
    let args = vec![
        "-C".to_string(),
        shown_text(dest),
        "reset".to_string(),
        "--hard".to_string(),
        "--quiet".to_string(),
        "FETCH_HEAD".to_string(),
    ];
    proof {
        assert(crate::text::texts(args@) =~= reset_command(dest@));
    }
    args
}

fn clean_arguments(dest: &[u8]) -> (args: Vec<String>)
    ensures
        crate::text::texts(args@) == clean_command(dest@),
{
    let args = vec![
        "-C".to_string(),
        shown_text(dest),
        "clean".to_string(),
        "-fdx".to_string(),
        "--quiet".to_string(),
    ];
    proof {
        assert(crate::text::texts(args@) =~= clean_command(dest@));
    }
    args
}

fn clone_arguments(dest: &[u8], remote: String, branch: String) -> (args: Vec<String>)
    ensures
        crate::text::texts(args@) == clone_command(dest@, remote@, branch@),
{
    let args = vec![
        "clone".to_string(),
        "--depth".to_string(),
        "1".to_string(),
        "--branch".to_string(),
        branch,
        "--single-branch".to_string(),
        "--quiet".to_string(),
        remote,
        shown_text(dest),
    ];
    proof {
        assert(crate::text::texts(args@) =~= clone_command(dest@, remote@, branch@));
    }
    args
}

/// A step that can fail.
#[derive(Debug, Clone, Copy, PartialEq, Eq, Structural)]
pub enum SourceStep {
    Fetch,
    Reset,
    Clean,
    CreateCache,
    Clone,
}

/// How far the source has come: each state but the last two waits for the answer
/// to one step. `checkout` and `origin` hold what was learnt of the bundle.
#[derive(Debug)]
pub enum SourceState {
    /// Asks whether the bundle is a git checkout.
    CheckBundle,
    /// Asks git for the origin of the bundle.
    CaptureOrigin,
    /// Asks whether there is a checkout of the wrapper.
    CheckCheckout { checkout: bool, origin: Option<String> },
    /// Fetches into the checkout.
    Fetch { checkout: bool, origin: Option<String> },
    /// Puts the checkout to what was fetched.
    Reset,
    /// Cleans the checkout.
    Clean,
    /// Creates the cache directory.
    CreateCache { checkout: bool, origin: Option<String> },
    /// Removes what lies where the checkout goes.
    ClearDestination { checkout: bool, origin: Option<String> },
    /// Clones.
    Clone { checkout: bool, origin: Option<String> },
    /// The checkout is there and up to date.
    Ready,
    Failed(SourceStep),
}

/// What came of a step.
#[derive(Debug)]
pub enum SourceEvent {
    /// The answer to a question.
    Answer(bool),
    /// What git named as the origin.
    Captured(Option<String>),
    /// The step is done.
    Done,
    /// The step failed.
    Failed,
}

/// The state in which the work on the source begins, given the configured
/// repository: the bundle is looked at only where there is none.
pub open spec fn source_begin(configured: Seq<char>) -> SourceState {
    if crate::text::trimmed(configured).len() == 0 {
        SourceState::CheckBundle
    } else {
        SourceState::CheckCheckout { checkout: false, origin: None }
    }
}

/// The state after `event` in `state`. An event that is no answer to the step in
/// hand changes nothing. Whether anything was removed makes no difference.
pub open spec fn source_next(state: SourceState, event: SourceEvent) -> SourceState {
    match (state, event) {
        (SourceState::CheckBundle, SourceEvent::Answer(yes)) => if yes {
            SourceState::CaptureOrigin
        } else {
            SourceState::CheckCheckout { checkout: false, origin: None }
        },
        (SourceState::CaptureOrigin, SourceEvent::Captured(origin)) => SourceState::CheckCheckout {
            checkout: true,
            origin,
        },
        (SourceState::CheckCheckout { checkout, origin }, SourceEvent::Answer(yes)) => if yes {
            SourceState::Fetch { checkout, origin }
        } else {
            SourceState::CreateCache { checkout, origin }
        },
        (SourceState::Fetch { .. }, SourceEvent::Done) => SourceState::Reset,
        (SourceState::Fetch { .. }, SourceEvent::Failed) => SourceState::Failed(SourceStep::Fetch),
        (SourceState::Reset, SourceEvent::Done) => SourceState::Clean,
        (SourceState::Reset, SourceEvent::Failed) => SourceState::Failed(SourceStep::Reset),
        (SourceState::Clean, SourceEvent::Done) => SourceState::Ready,
        (SourceState::Clean, SourceEvent::Failed) => SourceState::Failed(SourceStep::Clean),
        (
            SourceState::CreateCache { checkout, origin },
            SourceEvent::Done,
        ) => SourceState::ClearDestination { checkout, origin },
        (SourceState::CreateCache { .. }, SourceEvent::Failed) => SourceState::Failed(
            SourceStep::CreateCache,
        ),
        (
            SourceState::ClearDestination { checkout, origin },
            SourceEvent::Done | SourceEvent::Failed,
        ) => SourceState::Clone { checkout, origin },
        (SourceState::Clone { .. }, SourceEvent::Done) => SourceState::Ready,
        (SourceState::Clone { .. }, SourceEvent::Failed) => SourceState::Failed(SourceStep::Clone),
        (state, _) => state,
    }
}

/// The state in which the work on the source begins.
pub fn source_start(config: &RuntimeConfig) -> (state: SourceState)
    ensures
        state == source_begin(config.wrapper_remote@),
{
    if needs_bundle_origin(config) {
        SourceState::CheckBundle
    } else {
        SourceState::CheckCheckout { checkout: false, origin: None }
    }
}

/// The state after `event` in `state`.
pub fn source_step(state: SourceState, event: SourceEvent) -> (next: SourceState)
    ensures
        next == source_next(state, event),
{
    match (state, event) {
        (SourceState::CheckBundle, SourceEvent::Answer(yes)) => if yes {
            SourceState::CaptureOrigin
        } else {
            SourceState::CheckCheckout { checkout: false, origin: None }
        },
        (SourceState::CaptureOrigin, SourceEvent::Captured(origin)) => SourceState::CheckCheckout {
            checkout: true,
            origin,
        },
        (SourceState::CheckCheckout { checkout, origin }, SourceEvent::Answer(yes)) => if yes {
            SourceState::Fetch { checkout, origin }
        } else {
            SourceState::CreateCache { checkout, origin }
        },
        (SourceState::Fetch { .. }, SourceEvent::Done) => SourceState::Reset,
        (SourceState::Fetch { .. }, SourceEvent::Failed) => SourceState::Failed(SourceStep::Fetch),
        (SourceState::Reset, SourceEvent::Done) => SourceState::Clean,
        (SourceState::Reset, SourceEvent::Failed) => SourceState::Failed(SourceStep::Reset),
        (SourceState::Clean, SourceEvent::Done) => SourceState::Ready,
        (SourceState::Clean, SourceEvent::Failed) => SourceState::Failed(SourceStep::Clean),
        (
            SourceState::CreateCache { checkout, origin },
            SourceEvent::Done,
        ) => SourceState::ClearDestination { checkout, origin },
        (SourceState::CreateCache { .. }, SourceEvent::Failed) => SourceState::Failed(
            SourceStep::CreateCache,
        ),
        (
            SourceState::ClearDestination { checkout, origin },
            SourceEvent::Done | SourceEvent::Failed,
        ) => SourceState::Clone { checkout, origin },
        (SourceState::Clone { .. }, SourceEvent::Done) => SourceState::Ready,
        (SourceState::Clone { .. }, SourceEvent::Failed) => SourceState::Failed(SourceStep::Clone),
        (state, _) => state,
    }
}

/// A step to carry out.
#[derive(Debug)]
pub enum SourceAction {
    /// Tell whether this is a directory.
    IsDirectory { path: Vec<u8> },
    /// Run git with these arguments and capture what it prints.
    Capture { args: Vec<String> },
    /// Run git with these arguments.
    Git { args: Vec<String> },
    /// Create this directory and those above it.
    CreateDirectory { path: Vec<u8> },
    /// Remove this directory and what is in it.
    RemoveDirectory { path: Vec<u8> },
    /// There is nothing left to do.
    Nothing,
}

/// The repository, in a state that knows it.
pub open spec fn remote_in_hand(
    configured: Seq<char>,
    checkout: bool,
    origin: Option<String>,
) -> Seq<char> {
    remote_for(configured, checkout, crate::text::option_text(origin))
}

/// `action` is the step that `state` waits for, under the configuration `config`
/// with the checkout at `checkout_in(paths.cache_dir@)`.
pub open spec fn is_source_action(
    state: SourceState,
    config: RuntimeConfig,
    paths: RuntimePaths,
    action: SourceAction,
) -> bool {
    let dest = checkout_in(paths.cache_dir@);
    let branch = branch_for(config.wrapper_branch@);
    match state {
        SourceState::CheckBundle => {
            action matches SourceAction::IsDirectory { path } && path@ == crate::paths::joined(
                config.builder_bundle_root@,
                encode_utf8(GIT_DIRECTORY@),
            )
        },
        SourceState::CaptureOrigin => {
            action matches SourceAction::Capture { args } && crate::text::texts(args@)
                == origin_command(config.builder_bundle_root@)
        },
        SourceState::CheckCheckout { .. } => {
            action matches SourceAction::IsDirectory { path } && path@ == crate::paths::joined(
                dest,
                encode_utf8(GIT_DIRECTORY@),
            )
        },
        SourceState::Fetch { checkout, origin } => {
            action matches SourceAction::Git { args } && crate::text::texts(args@) == fetch_command(
                dest,
                remote_in_hand(config.wrapper_remote@, checkout, origin),
                branch,
            )
        },
        SourceState::Reset => {
            action matches SourceAction::Git { args } && crate::text::texts(args@) == reset_command(
                dest,
            )
        },
        SourceState::Clean => {
            action matches SourceAction::Git { args } && crate::text::texts(args@) == clean_command(
                dest,
            )
        },
        SourceState::CreateCache { .. } => {
            action matches SourceAction::CreateDirectory { path } && path@ == paths.cache_dir@
        },
        SourceState::ClearDestination { .. } => {
            action matches SourceAction::RemoveDirectory { path } && path@ == dest
        },
        SourceState::Clone { checkout, origin } => {
            action matches SourceAction::Git { args } && crate::text::texts(args@) == clone_command(
                dest,
                remote_in_hand(config.wrapper_remote@, checkout, origin),
                branch,
            )
        },
        SourceState::Ready => action is Nothing,
        SourceState::Failed(_) => action is Nothing,
    }
}

/// The step that `state` waits for.
pub fn source_action(state: &SourceState, config: &RuntimeConfig, paths: &RuntimePaths) -> (action:
    SourceAction)
    ensures
        is_source_action(*state, *config, *paths, action),
{
    let dest = checkout_path(paths);
    match state {
        SourceState::CheckBundle => SourceAction::IsDirectory {
            path: path_join(config.builder_bundle_root.as_slice(), GIT_DIRECTORY.as_bytes()),
        },
        SourceState::CaptureOrigin => SourceAction::Capture {
            args: origin_arguments(config.builder_bundle_root.as_slice()),
        },
        SourceState::CheckCheckout { .. } => SourceAction::IsDirectory {
            path: path_join(dest.as_slice(), GIT_DIRECTORY.as_bytes()),
        },
        SourceState::Fetch { checkout, origin } => SourceAction::Git {
            args: fetch_arguments(
                dest.as_slice(),
                resolve_wrapper_remote(config, *checkout, origin.as_ref()),
                wrapper_branch(config),
            ),
        },
        SourceState::Reset => SourceAction::Git { args: reset_arguments(dest.as_slice()) },
        SourceState::Clean => SourceAction::Git { args: clean_arguments(dest.as_slice()) },
        SourceState::CreateCache { .. } => SourceAction::CreateDirectory {
            path: slice_to_vec(paths.cache_dir.as_slice()),
        },
        SourceState::ClearDestination { .. } => SourceAction::RemoveDirectory { path: dest },
        SourceState::Clone { checkout, origin } => SourceAction::Git {
            args: clone_arguments(
                dest.as_slice(),
                resolve_wrapper_remote(config, *checkout, origin.as_ref()),
                wrapper_branch(config),
            ),
        },
        SourceState::Ready => SourceAction::Nothing,
        SourceState::Failed(_) => SourceAction::Nothing,
    }
}

/// What a failure is told under: creating the cache directory names it, a git
/// command speaks for itself.
pub fn source_failure_context(step: SourceStep, paths: &RuntimePaths) -> (context: Option<String>)
    ensures
        crate::text::option_text(context) == (if step == SourceStep::CreateCache {
            Some("Failed to create "@ + crate::text::shown(paths.cache_dir@))
        } else {
            None
        }),
{
    match step {
        SourceStep::CreateCache => {
            let mut text = "Failed to create ".to_string();
            text.append(shown_text(paths.cache_dir.as_slice()).as_str());
            Some(text)
        },
        _ => None,
    }
}

/// The state after `events`, from `state` on.
pub open spec fn source_run(state: SourceState, events: Seq<SourceEvent>) -> SourceState
    decreases events.len(),
{
    if events.len() == 0 {
        state
    } else {
        source_next(source_run(state, events.drop_last()), events.last())
    }
}

/// The checkout lies under the cache directory: its components are those of the
/// cache directory and one more.
pub proof fn law_checkout_is_under_cache(cache_dir: Seq<u8>)
    ensures
        crate::paths::components(checkout_in(cache_dir)) == crate::paths::components(cache_dir).push(
            encode_utf8(CHECKOUT_NAME@),
        ),
{
    let name = encode_utf8(CHECKOUT_NAME@);
    reveal_strlit("wrapper-src");
    is_ascii_chars_encode_utf8(CHECKOUT_NAME@);
    assert(name.len() == 11);
    assert forall|i: int| 0 <= i < name.len() implies name[i] != 0x2f by {}
    crate::paths::lemma_single_name(name);
    crate::paths::law_join_appends_components(cache_dir, name);
    assert(crate::paths::components(name) =~= seq![name]);
    assert(crate::paths::components(cache_dir) + seq![name] =~= crate::paths::components(
        cache_dir,
    ).push(name));
}

/// The work on the source never touches the user's files: every git command that
/// can change anything works in the checkout or clones to it, the one directory
/// that is removed is the checkout, and the one that is created is the cache
/// directory. The one command that looks elsewhere asks for the origin of the
/// bundle.
pub proof fn law_only_checkout_is_touched(
    state: SourceState,
    config: RuntimeConfig,
    paths: RuntimePaths,
    action: SourceAction,
)
    requires
        is_source_action(state, config, paths, action),
    ensures
        action matches SourceAction::Git { args } ==> {
            let command = crate::text::texts(args@);
            let dest = crate::text::shown(checkout_in(paths.cache_dir@));
            ||| command.len() > 1 && command[0] == "-C"@ && command[1] == dest
            ||| command.len() > 0 && command[0] == "clone"@ && command.last() == dest
        },
        action matches SourceAction::RemoveDirectory { path } ==> path@ == checkout_in(
            paths.cache_dir@,
        ),
        action matches SourceAction::CreateDirectory { path } ==> path@ == paths.cache_dir@,
        action matches SourceAction::Capture { args } ==> crate::text::texts(args@)
            == origin_command(config.builder_bundle_root@),
{
}

proof fn lemma_fetch_precedes_reset(start: SourceState, events: Seq<SourceEvent>) -> (i: int)
    requires
        start is CheckBundle || start is CheckCheckout,
        source_run(start, events) is Reset,
    ensures
        0 <= i < events.len(),
        source_run(start, events.take(i)) is Fetch,
        events[i] is Done,
    decreases events.len(),
{
    let front = events.drop_last();
    if source_run(start, front) is Reset {
        let i = lemma_fetch_precedes_reset(start, front);
        assert(front.take(i) =~= events.take(i));
        i
    } else {
        assert(events.take(events.len() - 1) =~= front);
        events.len() - 1
    }
}

proof fn lemma_reset_precedes_clean(start: SourceState, events: Seq<SourceEvent>) -> (i: int)
    requires
        start is CheckBundle || start is CheckCheckout,
        source_run(start, events) is Clean,
    ensures
        0 <= i < events.len(),
        source_run(start, events.take(i)) is Reset,
        events[i] is Done,
    decreases events.len(),
{
    let front = events.drop_last();
    if source_run(start, front) is Clean {
        let i = lemma_reset_precedes_clean(start, front);
        assert(front.take(i) =~= events.take(i));
        i
    } else {
        assert(events.take(events.len() - 1) =~= front);
        events.len() - 1
    }
}

proof fn lemma_last_step_before_ready(start: SourceState, events: Seq<SourceEvent>) -> (i: int)
    requires
        start is CheckBundle || start is CheckCheckout,
        source_run(start, events) is Ready,
    ensures
        0 <= i < events.len(),
        source_run(start, events.take(i)) is Clean || source_run(start, events.take(i)) is Clone,
        events[i] is Done,
    decreases events.len(),
{
    let front = events.drop_last();
    if source_run(start, front) is Ready {
        let i = lemma_last_step_before_ready(start, front);
        assert(front.take(i) =~= events.take(i));
        i
    } else {
        assert(events.take(events.len() - 1) =~= front);
        events.len() - 1
    }
}

/// A clone was completed.
pub open spec fn was_cloned(start: SourceState, events: Seq<SourceEvent>) -> bool {
    exists|i: int|
        0 <= i < events.len() && #[trigger] source_run(start, events.take(i)) is Clone
            && events[i] is Done
}

/// A fetch, a reset and a cleaning were completed, in this order.
pub open spec fn was_refreshed(start: SourceState, events: Seq<SourceEvent>) -> bool {
    exists|i: int, j: int, k: int|
        {
            &&& 0 <= i < j < k < events.len()
            &&& #[trigger] source_run(start, events.take(i)) is Fetch
            &&& #[trigger] source_run(start, events.take(j)) is Reset
            &&& #[trigger] source_run(start, events.take(k)) is Clean
            &&& events[i] is Done
            &&& events[j] is Done
            &&& events[k] is Done
        }
}

/// A checkout that is ready is fresh: it was cloned, or fetched, reset to what
/// was fetched, and cleaned.
pub proof fn law_ready_source_is_fresh(configured: Seq<char>, events: Seq<SourceEvent>)
    requires
        source_run(source_begin(configured), events) is Ready,
    ensures
        was_cloned(source_begin(configured), events) || was_refreshed(
            source_begin(configured),
            events,
        ),
{
    let start = source_begin(configured);
    let k = lemma_last_step_before_ready(start, events);
    if source_run(start, events.take(k)) is Clone {
        assert(was_cloned(start, events));
    } else {
        let before_k = events.take(k);
        let j = lemma_reset_precedes_clean(start, before_k);
        assert(before_k.take(j) =~= events.take(j));
        let before_j = events.take(j);
        let i = lemma_fetch_precedes_reset(start, before_j);
        assert(before_j.take(i) =~= events.take(i));
        assert(source_run(start, events.take(i)) is Fetch);
        assert(source_run(start, events.take(j)) is Reset);
        assert(source_run(start, events.take(k)) is Clean);
        assert(was_refreshed(start, events));
    }
}

/// Once the repository is known, the work succeeds if its steps do: on a checkout
/// that is there a fetch, a reset and a cleaning, else the cache directory and a
/// clone, whatever comes of the removal before it.
pub proof fn law_source_succeeds(checkout: bool, origin: Option<String>, removed: SourceEvent)
    requires
        removed is Done || removed is Failed,
    ensures
        ({
            let known = SourceState::CheckCheckout { checkout, origin };
            let fetched = source_next(
                source_next(known, SourceEvent::Answer(true)),
                SourceEvent::Done,
            );
            let cleared = source_next(
                source_next(
                    source_next(known, SourceEvent::Answer(false)),
                    SourceEvent::Done,
                ),
                removed,
            );
            &&& source_next(source_next(fetched, SourceEvent::Done), SourceEvent::Done)
                == SourceState::Ready
            &&& source_next(cleared, SourceEvent::Done) == SourceState::Ready
        }),
{
}

/// A configured repository is used as it is: nothing is asked of the bundle.
pub proof fn law_configured_remote_asks_nothing(
    configured: Seq<char>,
    events: Seq<SourceEvent>,
)
    requires
        crate::text::trimmed(configured).len() > 0,
    ensures
        !(source_run(source_begin(configured), events) is CheckBundle),
        !(source_run(source_begin(configured), events) is CaptureOrigin),
    decreases events.len(),
{
    if events.len() > 0 {
        law_configured_remote_asks_nothing(configured, events.drop_last());
    }
}

/// The repository is never blank, if what git names as the origin is not: what
/// [`git_capture`] returns is not.
pub proof fn law_remote_is_not_empty(
    configured: Seq<char>,
    bundle_is_checkout: bool,
    origin: Option<Seq<char>>,
)
    requires
        origin matches Some(text) ==> text.len() > 0,
    ensures
        remote_for(configured, bundle_is_checkout, origin).len() > 0,
{
    reveal_strlit("https://github.com/ilysenko/codex-desktop-linux.git");
}

/// A first clone takes the configured branch of the configured repository: behind
/// `--branch` stands the branch without the white space around it, `main` only
/// where that is blank, and before the checkout, which comes last, the repository.
pub proof fn law_clone_takes_the_configured_branch(
    checkout: bool,
    origin: Option<String>,
    config: RuntimeConfig,
    paths: RuntimePaths,
    action: SourceAction,
)
    requires
        is_source_action(
            SourceState::Clone { checkout, origin },
            config,
            paths,
            action,
        ),
    ensures
        ({
            let blank_remote = crate::text::trimmed(config.wrapper_remote@).len() == 0;
            let remote = if !blank_remote {
                crate::text::trimmed(config.wrapper_remote@)
            } else if checkout && origin is Some {
                origin->0@
            } else {
                "https://github.com/ilysenko/codex-desktop-linux.git"@
            };
            let branch = if crate::text::trimmed(config.wrapper_branch@).len() == 0 {
                "main"@
            } else {
                crate::text::trimmed(config.wrapper_branch@)
            };
            let dest = crate::text::shown(
                crate::paths::joined(paths.cache_dir@, encode_utf8("wrapper-src"@)),
            );
            &&& action is Git
            &&& ({
                let args = action->Git_args;
                &&& args@.len() == 9
                &&& args@[0]@ == "clone"@
                &&& args@[1]@ == "--depth"@
                &&& args@[2]@ == "1"@
                &&& args@[3]@ == "--branch"@
                &&& args@[4]@ == branch
                &&& args@[5]@ == "--single-branch"@
                &&& args@[6]@ == "--quiet"@
                &&& args@[7]@ == remote
                &&& args@[8]@ == dest
            })
        }),
{
    let args = action->Git_args;
    crate::text::law_texts_are_those_of_the_strings(args@);
}

/// A refresh fetches the configured branch of the configured repository into the
/// checkout: the repository and the branch, `main` only where that is blank, come
/// last.
pub proof fn law_fetch_takes_the_configured_branch(
    checkout: bool,
    origin: Option<String>,
    config: RuntimeConfig,
    paths: RuntimePaths,
    action: SourceAction,
)
    requires
        is_source_action(
            SourceState::Fetch { checkout, origin },
            config,
            paths,
            action,
        ),
    ensures
        ({
            let blank_remote = crate::text::trimmed(config.wrapper_remote@).len() == 0;
            let remote = if !blank_remote {
                crate::text::trimmed(config.wrapper_remote@)
            } else if checkout && origin is Some {
                origin->0@
            } else {
                "https://github.com/ilysenko/codex-desktop-linux.git"@
            };
            let branch = if crate::text::trimmed(config.wrapper_branch@).len() == 0 {
                "main"@
            } else {
                crate::text::trimmed(config.wrapper_branch@)
            };
            let dest = crate::text::shown(
                crate::paths::joined(paths.cache_dir@, encode_utf8("wrapper-src"@)),
            );
            &&& action is Git
            &&& ({
                let args = action->Git_args;
                &&& args@.len() == 8
                &&& args@[0]@ == "-C"@
                &&& args@[1]@ == dest
                &&& args@[2]@ == "fetch"@
                &&& args@[3]@ == "--depth"@
                &&& args@[4]@ == "1"@
                &&& args@[5]@ == "--quiet"@
                &&& args@[6]@ == remote
                &&& args@[7]@ == branch
            })
        }),
{
    let args = action->Git_args;
    crate::text::law_texts_are_those_of_the_strings(args@);
}

/// Every other step works on the checkout too, or on the directory above it, but
/// for the two that ask of the bundle whether and from where it was checked out.
pub proof fn law_source_asks_for_what_is_named(
    state: SourceState,
    config: RuntimeConfig,
    paths: RuntimePaths,
    action: SourceAction,
)
    requires
        is_source_action(state, config, paths, action),
    ensures
        ({
            let place = crate::paths::joined(paths.cache_dir@, encode_utf8("wrapper-src"@));
            let dest = crate::text::shown(place);
            &&& state is CheckBundle ==> (action matches SourceAction::IsDirectory { path } && path@
                == crate::paths::joined(config.builder_bundle_root@, encode_utf8(".git"@)))
            &&& state is CheckCheckout ==> (action matches SourceAction::IsDirectory { path }
                && path@ == crate::paths::joined(place, encode_utf8(".git"@)))
            &&& state is CaptureOrigin ==> (action matches SourceAction::Capture { args } && {
                &&& args@.len() == 5
                &&& args@[0]@ == "-C"@
                &&& args@[1]@ == crate::text::shown(config.builder_bundle_root@)
                &&& args@[2]@ == "remote"@
                &&& args@[3]@ == "get-url"@
                &&& args@[4]@ == "origin"@
            })
            &&& state is Reset ==> (action matches SourceAction::Git { args } && {
                &&& args@.len() == 6
                &&& args@[0]@ == "-C"@
                &&& args@[1]@ == dest
                &&& args@[2]@ == "reset"@
                &&& args@[3]@ == "--hard"@
                &&& args@[4]@ == "--quiet"@
                &&& args@[5]@ == "FETCH_HEAD"@
            })
            &&& state is Clean ==> (action matches SourceAction::Git { args } && {
                &&& args@.len() == 5
                &&& args@[0]@ == "-C"@
                &&& args@[1]@ == dest
                &&& args@[2]@ == "clean"@
                &&& args@[3]@ == "-fdx"@
                &&& args@[4]@ == "--quiet"@
            })
            &&& state is CreateCache ==> (action matches SourceAction::CreateDirectory { path }
                && path@ == paths.cache_dir@)
            &&& state is ClearDestination ==> (action matches SourceAction::RemoveDirectory { path }
                && path@ == place)
            &&& action is Nothing <==> state is Ready || state is Failed
            &&& checkout_in(paths.cache_dir@) == place
        }),
{
    match action {
        SourceAction::Capture { args } => {
            crate::text::law_texts_are_those_of_the_strings(args@);
        },
        SourceAction::Git { args } => {
            crate::text::law_texts_are_those_of_the_strings(args@);
        },
        _ => {},
    }
}

/// The repository is the configured one wherever one is configured; else the
/// origin of the bundle, if the bundle is a checkout and has one; else the usual
/// one. The branch is the configured one wherever one is configured. White space
/// around what is configured makes no difference.
pub proof fn law_configuration_comes_first(
    left: Seq<char>,
    name: Seq<char>,
    right: Seq<char>,
    bundle_is_checkout: bool,
    origin: Option<Seq<char>>,
)
    requires
        forall|i: int| 0 <= i < left.len() ==> crate::text::is_white_space(#[trigger] left[i]),
        forall|i: int| 0 <= i < right.len() ==> crate::text::is_white_space(#[trigger] right[i]),
        name.len() > 0 ==> !crate::text::is_white_space(name.first())
            && !crate::text::is_white_space(name.last()),
    ensures
        ({
            let text = left + name + right;
            &&& name.len() > 0 ==> remote_for(text, bundle_is_checkout, origin) == name
            &&& name.len() > 0 ==> branch_for(text) == name
            &&& name.len() > 0 ==> source_begin(text) is CheckCheckout
            &&& name.len() == 0 ==> branch_for(text) == "main"@
            &&& name.len() == 0 ==> source_begin(text) is CheckBundle
            &&& name.len() == 0 && bundle_is_checkout && origin is Some ==> remote_for(
                text,
                bundle_is_checkout,
                origin,
            ) == origin->0
            &&& name.len() == 0 && (!bundle_is_checkout || origin is None) ==> remote_for(
                text,
                bundle_is_checkout,
                origin,
            ) == "https://github.com/ilysenko/codex-desktop-linux.git"@
        }),
{
    crate::text::law_trimmed_removes_outer_space(left, name, right);
}

proof fn lemma_source_push(start: SourceState, events: Seq<SourceEvent>, event: SourceEvent)
    ensures
        source_run(start, events.push(event)) == source_next(source_run(start, events), event),
{
    assert(events.push(event).drop_last() =~= events);
}

/// The work on the source comes to its end if its steps succeed, and knows the
/// repository on the way: where none is configured the bundle is asked, and if it
/// is a checkout, for its origin. A checkout that is there is fetched into, reset
/// and cleaned; else the cache directory is created, the place is cleared, whatever
/// comes of that, and a clone is made.
pub proof fn law_source_comes_to_its_end(
    configured: Seq<char>,
    bundle_is_checkout: bool,
    captured: Option<String>,
    cleared: SourceEvent,
)
    requires
        cleared is Done || cleared is Failed,
    ensures
        ({
            let start = source_begin(configured);
            let blank = crate::text::trimmed(configured).len() == 0;
            let none = Seq::<SourceEvent>::empty();
            let known = if !blank {
                none
            } else if bundle_is_checkout {
                none.push(SourceEvent::Answer(true)).push(SourceEvent::Captured(captured))
            } else {
                none.push(SourceEvent::Answer(false))
            };
            let checkout = blank && bundle_is_checkout;
            let origin = if checkout {
                captured
            } else {
                None
            };
            let old = known.push(SourceEvent::Answer(true));
            let new = known.push(SourceEvent::Answer(false));
            let made = new.push(SourceEvent::Done);
            let empty = made.push(cleared);
            let fetched = old.push(SourceEvent::Done);
            let reset = fetched.push(SourceEvent::Done);
            &&& blank ==> start is CheckBundle
            &&& blank && bundle_is_checkout ==> source_run(
                start,
                none.push(SourceEvent::Answer(true)),
            ) is CaptureOrigin
            &&& source_run(start, known) == (SourceState::CheckCheckout { checkout, origin })
            &&& source_run(start, old) == (SourceState::Fetch { checkout, origin })
            &&& source_run(start, fetched) is Reset
            &&& source_run(start, reset) is Clean
            &&& source_run(start, reset.push(SourceEvent::Done)) is Ready
            &&& source_run(start, new) == (SourceState::CreateCache { checkout, origin })
            &&& source_run(start, made) == (SourceState::ClearDestination { checkout, origin })
            &&& source_run(start, empty) == (SourceState::Clone { checkout, origin })
            &&& source_run(start, empty.push(SourceEvent::Done)) is Ready
        }),
{
    let start = source_begin(configured);
    let blank = crate::text::trimmed(configured).len() == 0;
    let none = Seq::<SourceEvent>::empty();
    let known = if !blank {
        none
    } else if bundle_is_checkout {
        none.push(SourceEvent::Answer(true)).push(SourceEvent::Captured(captured))
    } else {
        none.push(SourceEvent::Answer(false))
    };
    let old = known.push(SourceEvent::Answer(true));
    let new = known.push(SourceEvent::Answer(false));
    let made = new.push(SourceEvent::Done);
    let empty = made.push(cleared);
    let fetched = old.push(SourceEvent::Done);
    let reset = fetched.push(SourceEvent::Done);
    lemma_source_push(start, none, SourceEvent::Answer(true));
    lemma_source_push(start, none, SourceEvent::Answer(false));
    lemma_source_push(
        start,
        none.push(SourceEvent::Answer(true)),
        SourceEvent::Captured(captured),
    );
    lemma_source_push(start, known, SourceEvent::Answer(true));
    lemma_source_push(start, known, SourceEvent::Answer(false));
    lemma_source_push(start, old, SourceEvent::Done);
    lemma_source_push(start, fetched, SourceEvent::Done);
    lemma_source_push(start, reset, SourceEvent::Done);
    lemma_source_push(start, new, SourceEvent::Done);
    lemma_source_push(start, made, cleared);
    lemma_source_push(start, empty, SourceEvent::Done);
}

/// The work on the source fails exactly with the step that does, and with no other
/// name than that of the step; clearing the place is no such step. It stands still
/// exactly as long as the answer to its step is out.
pub proof fn law_source_fails_with_its_step(state: SourceState, event: SourceEvent)
    ensures
        ({
            let next = source_next(state, event);
            let own = state is Fetch || state is Reset || state is Clean || state is CreateCache
                || state is Clone;
            let over = event is Done || event is Failed;
            &&& next is Failed <==> state is Failed || (own && event is Failed)
            &&& next is Failed && state is Fetch ==> next->Failed_0 == SourceStep::Fetch
            &&& next is Failed && state is Reset ==> next->Failed_0 == SourceStep::Reset
            &&& next is Failed && state is Clean ==> next->Failed_0 == SourceStep::Clean
            &&& next is Failed && state is CreateCache ==> next->Failed_0 == SourceStep::CreateCache
            &&& next is Failed && state is Clone ==> next->Failed_0 == SourceStep::Clone
            &&& own || state is ClearDestination ==> (next == state <==> !over)
            &&& state is CheckBundle || state is CheckCheckout ==> (next == state <==> !(
            event is Answer))
            &&& state is CaptureOrigin ==> (next == state <==> !(event is Captured))
            &&& state is Ready || state is Failed ==> next == state
        }),
{
}

/// A git command came to nothing worth telling exactly if it ended with success;
/// else it is told that git could not be run, or with what status it ended after
/// which arguments.
pub proof fn law_git_failure_says_what_happened(args: Seq<Seq<char>>, exit: CommandExit)
    ensures
        git_failure(args, exit) is None <==> (exit matches CommandExit::Exited { success, .. }
            && success),
        exit is NotLaunched ==> git_failure(args, exit) == Some(
            "Failed to run git for wrapper source"@,
        ),
        exit matches CommandExit::Exited { success, status } ==> (!success ==> git_failure(
            args,
            exit,
        ) == Some("git "@ + crate::text::debug_list(args) + " exited with status "@ + status@)),
{
}

} // verus!
