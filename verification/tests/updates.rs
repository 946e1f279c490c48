use codex_desktop::apply::{
    apply_action, apply_start, apply_step, ApplyAction, ApplyEvent, ApplyState, DISABLED_NOTICE,
};
use codex_desktop::disk_image::{
    image_action, image_failure_context, image_path, image_start, image_step, ImageAction,
    ImageEvent, ImageState,
};
use codex_desktop::install_type::{
    detect_install_type, install_type_from_environment, needs_package_query, InstallType,
};
use codex_desktop::packaged::{
    image_read_failure_text, missing_build_dependency, packaged_action, packaged_failure_text, packaged_start,
    packaged_step, PackagedAction, PackagedEvent, PackagedFailure, PackagedState,
};
use codex_desktop::state::{
    set_wrapper_status, ArtifactPaths, PersistedState, RuntimeConfig, RuntimePaths,
};
use codex_desktop::user_local::{
    apply_user_local, helper_candidate, user_local_update_helper, HELPER_ARGUMENT,
};
use codex_desktop::wrapper_source::{
    captured_text, checkout_path, git_capture, git_environment, needs_bundle_origin,
    resolve_wrapper_remote, run_git, source_action, source_failure_context, source_start,
    source_step, wrapper_branch, CommandExit, CommandOutput, SourceAction, SourceEvent,
    SourceState, SourceStep, DEFAULT_WRAPPER_REMOTE,
};

fn config(remote: &str, branch: &str) -> RuntimeConfig {
    RuntimeConfig {
        enable_wrapper_updates: true,
        wrapper_remote: remote.to_string(),
        wrapper_branch: branch.to_string(),
        builder_bundle_root: b"/opt/codex-desktop/update-builder".to_vec(),
        workspace_root: b"/home/me/work".to_vec(),
        dmg_url: "https://example.com/Codex.dmg".to_string(),
    }
}

fn paths() -> RuntimePaths {
    RuntimePaths {
        state_file: b"/home/me/state.json".to_vec(),
        cache_dir: b"/home/me/.cache/codex".to_vec(),
    }
}

fn persisted(image: Option<&str>) -> PersistedState {
    PersistedState {
        wrapper_status: None,
        wrapper_candidate: Some("abc123".to_string()),
        installed_version: "1".to_string(),
        artifact_paths: ArtifactPaths { dmg_path: image.map(|p| p.as_bytes().to_vec()) },
    }
}

fn exited(success: bool, status: &str) -> CommandExit {
    CommandExit::Exited { success, status: status.to_string() }
}

fn git_args(state: &SourceState, config: &RuntimeConfig) -> Vec<String> {
    match source_action(state, config, &paths()) {
        SourceAction::Git { args } => args,
        SourceAction::Capture { args } => args,
        other => panic!("no git command: {:?}", other),
    }
}

#[test]
fn status_is_recorded() {
    let mut state = persisted(None);
    set_wrapper_status(&mut state, "applying");
    assert_eq!(state.wrapper_status.as_deref(), Some("applying"));
    assert_eq!(state.wrapper_candidate.as_deref(), Some("abc123"));
    assert_eq!(state.installed_version, "1");
}

#[test]
fn configured_remote_is_trimmed() {
    let c = config("  https://example.com/x.git\n", "");
    let origin = "git@example.com:y.git".to_string();
    assert_eq!(resolve_wrapper_remote(&c, true, Some(&origin)), "https://example.com/x.git");
    assert!(!needs_bundle_origin(&c));
}

#[test]
fn remote_falls_back_to_the_origin_and_the_default() {
    let c = config(" \t\u{a0}\u{3000} ", "");
    assert!(needs_bundle_origin(&c));
    let origin = "git@example.com:y.git".to_string();
    assert_eq!(resolve_wrapper_remote(&c, true, Some(&origin)), "git@example.com:y.git");
    assert_eq!(resolve_wrapper_remote(&c, true, None), DEFAULT_WRAPPER_REMOTE);
    assert_eq!(resolve_wrapper_remote(&c, false, Some(&origin)), DEFAULT_WRAPPER_REMOTE);
    assert_eq!(
        DEFAULT_WRAPPER_REMOTE,
        "https://github.com/ilysenko/codex-desktop-linux.git"
    );
}

#[test]
fn branch_is_main_unless_configured() {
    assert_eq!(wrapper_branch(&config("", "  ")), "main");
    assert_eq!(wrapper_branch(&config("", " dev ")), "dev");
}

#[test]
fn capture_wants_success_and_text() {
    let output = |success: bool, text: &[u8]| {
        git_capture(Some(CommandOutput { success, stdout: text.to_vec() }))
    };
    assert_eq!(output(true, b" url \n"), Some("url".to_string()));
    assert_eq!(output(true, b"a\xffb\n"), Some("a\u{fffd}b".to_string()));
    assert_eq!(output(true, b" \n"), None);
    assert_eq!(output(false, b"url"), None);
    assert_eq!(git_capture(None), None);
    assert_eq!(captured_text("\u{2003}x y\u{85}"), Some("x y".to_string()));
}

#[test]
fn git_speaks_for_itself() {
    let args = vec!["-C".to_string(), "/a \"b\"".to_string()];
    assert_eq!(run_git(&args, &exited(true, "exit status: 0")), Ok(()));
    assert_eq!(
        run_git(&args, &exited(false, "exit status: 128")),
        Err(format!("git {:?} exited with status exit status: 128", args))
    );
    assert_eq!(
        run_git(&args, &CommandExit::NotLaunched),
        Err("Failed to run git for wrapper source".to_string())
    );
}

#[test]
fn git_never_asks() {
    assert_eq!(
        git_environment(),
        vec![
            ("GIT_TERMINAL_PROMPT", "0"),
            ("GIT_ASKPASS", "true"),
            ("SSH_ASKPASS", "true"),
            ("GCM_INTERACTIVE", "never"),
        ]
    );
}

#[test]
fn existing_checkout_is_refreshed() {
    let c = config("https://example.com/x.git", "dev");
    let dest = "/home/me/.cache/codex/wrapper-src";
    assert_eq!(checkout_path(&paths()), dest.as_bytes().to_vec());
    let state = source_start(&c);
    match source_action(&state, &c, &paths()) {
        SourceAction::IsDirectory { path } => {
            assert_eq!(path, b"/home/me/.cache/codex/wrapper-src/.git".to_vec())
        }
        other => panic!("{:?}", other),
    }
    let state = source_step(state, SourceEvent::Answer(true));
    assert_eq!(
        git_args(&state, &c),
        vec!["-C", dest, "fetch", "--depth", "1", "--quiet", "https://example.com/x.git", "dev"]
    );
    let state = source_step(state, SourceEvent::Done);
    assert_eq!(git_args(&state, &c), vec!["-C", dest, "reset", "--hard", "--quiet", "FETCH_HEAD"]);
    let state = source_step(state, SourceEvent::Done);
    assert_eq!(git_args(&state, &c), vec!["-C", dest, "clean", "-fdx", "--quiet"]);
    let state = source_step(state, SourceEvent::Done);
    assert!(matches!(state, SourceState::Ready));
    assert!(matches!(source_action(&state, &c, &paths()), SourceAction::Nothing));
}

#[test]
fn missing_checkout_is_cloned() {
    let c = config("", "");
    let state = source_start(&c);
    match source_action(&state, &c, &paths()) {
        SourceAction::IsDirectory { path } => {
            assert_eq!(path, b"/opt/codex-desktop/update-builder/.git".to_vec())
        }
        other => panic!("{:?}", other),
    }
    let state = source_step(state, SourceEvent::Answer(true));
    assert!(matches!(state, SourceState::CaptureOrigin));
    assert_eq!(
        git_args(&state, &c),
        vec!["-C", "/opt/codex-desktop/update-builder", "remote", "get-url", "origin"]
    );
    let state = source_step(state, SourceEvent::Captured(Some("url".to_string())));
    let state = source_step(state, SourceEvent::Answer(false));
    match source_action(&state, &c, &paths()) {
        SourceAction::CreateDirectory { path } => assert_eq!(path, paths().cache_dir),
        other => panic!("{:?}", other),
    }
    let state = source_step(state, SourceEvent::Done);
    match source_action(&state, &c, &paths()) {
        SourceAction::RemoveDirectory { path } => assert_eq!(path, checkout_path(&paths())),
        other => panic!("{:?}", other),
    }
    let state = source_step(state, SourceEvent::Failed);
    assert_eq!(
        git_args(&state, &c),
        vec![
            "clone",
            "--depth",
            "1",
            "--branch",
            "main",
            "--single-branch",
            "--quiet",
            "url",
            "/home/me/.cache/codex/wrapper-src",
        ]
    );
    assert!(matches!(source_step(state, SourceEvent::Done), SourceState::Ready));
}

#[test]
fn source_failures_name_their_step() {
    let c = config("r", "");
    let fetch = source_step(source_start(&c), SourceEvent::Answer(true));
    assert!(matches!(
        source_step(fetch, SourceEvent::Failed),
        SourceState::Failed(SourceStep::Fetch)
    ));
    let create = source_step(source_start(&c), SourceEvent::Answer(false));
    let failed = source_step(create, SourceEvent::Failed);
    assert!(matches!(failed, SourceState::Failed(SourceStep::CreateCache)));
    assert_eq!(
        source_failure_context(SourceStep::CreateCache, &paths()),
        Some("Failed to create /home/me/.cache/codex".to_string())
    );
    for step in [SourceStep::Fetch, SourceStep::Reset, SourceStep::Clean, SourceStep::Clone] {
        assert_eq!(source_failure_context(step, &paths()), None);
    }
}

#[test]
fn bundle_without_checkout_gives_the_default_remote() {
    let c = config("", "");
    let state = source_step(source_start(&c), SourceEvent::Answer(false));
    let state = source_step(state, SourceEvent::Answer(true));
    assert_eq!(git_args(&state, &c)[6], DEFAULT_WRAPPER_REMOTE);
}

#[test]
fn directory_of_the_application_tells_the_type() {
    let packaged = Some(InstallType::Packaged);
    let local = Some(InstallType::UserLocal);
    let tell = |dir: &str, home: &str| {
        install_type_from_environment(Some(dir.as_bytes()), Some(home.as_bytes()))
    };
    assert_eq!(tell("/opt/codex-desktop", "/home/me"), packaged);
    assert_eq!(tell("/opt/codex-desktop/app", "/"), packaged);
    assert_eq!(tell("/opt/codex-desktop-beta", "/home/me"), None);
    assert_eq!(tell("/home/me/.local/codex", "/home/me/"), local);
    assert_eq!(tell("/home/me2/x", "/home/me"), None);
    assert_eq!(tell("/srv/x", ""), local);
    assert_eq!(install_type_from_environment(Some(b"/srv/x"), None), None);
    assert_eq!(install_type_from_environment(None, Some(b"/home/me")), None);
}

#[test]
fn package_manager_tells_where_the_directory_does_not() {
    let bundle: &[u8] = b"/opt/codex-desktop/update-builder/";
    let other: &[u8] = b"/home/me/src";
    assert_eq!(detect_install_type(None, None, bundle, true), InstallType::Packaged);
    assert_eq!(detect_install_type(None, None, bundle, false), InstallType::UserLocal);
    assert_eq!(detect_install_type(None, None, other, true), InstallType::UserLocal);
    assert!(needs_package_query(None, None, bundle));
    assert!(!needs_package_query(None, None, other));
    assert!(!needs_package_query(Some(b"/opt/codex-desktop"), None, bundle));
    assert_eq!(
        detect_install_type(Some(b"/home/me/app"), Some(b"/home/me"), bundle, true),
        InstallType::UserLocal
    );
}

#[test]
fn helper_lies_in_the_home_directory() {
    let candidate = helper_candidate(Some(b"/home/me"));
    assert_eq!(candidate, Some(b"/home/me/.local/bin/codex-desktop-update".to_vec()));
    assert_eq!(user_local_update_helper(candidate.clone(), true), candidate);
    assert_eq!(user_local_update_helper(candidate, false), None);
    assert_eq!(helper_candidate(None), None);
    assert_eq!(HELPER_ARGUMENT, "--quiet");
}

#[test]
fn helper_decides() {
    let helper: &[u8] = b"/h/u";
    assert_eq!(apply_user_local(Some(helper), &exited(true, "0")), Ok(()));
    assert_eq!(
        apply_user_local(Some(helper), &exited(false, "exit status: 3")),
        Err("/h/u exited with status exit status: 3".to_string())
    );
    assert_eq!(
        apply_user_local(Some(helper), &CommandExit::NotLaunched),
        Err("Failed to run /h/u".to_string())
    );
    assert_eq!(
        apply_user_local(None, &exited(true, "0")),
        Err(
            "user-local wrapper update helper (~/.local/bin/codex-desktop-update) not found"
                .to_string()
        )
    );
}

#[test]
fn tools_may_be_missing() {
    assert_eq!(missing_build_dependency(true, true, true), None);
    assert_eq!(missing_build_dependency(true, true, false), None);
    assert_eq!(missing_build_dependency(true, false, true), None);
    assert_eq!(missing_build_dependency(true, false, false), Some("7zz"));
    assert_eq!(missing_build_dependency(false, true, true), Some("cargo"));
    assert_eq!(missing_build_dependency(false, false, false), Some("cargo"));
}

#[test]
fn missing_tool_is_told_and_ends_the_update() {
    let mut p = persisted(None);
    let tools = PackagedEvent::Tools {
        has_cargo: true,
        has_7zz: false,
        has_7z: false,
        has_node: true,
        has_bundled_node: false,
    };
    let notice = "A newer Codex Desktop Linux build is available, but '7zz' is needed to rebuild \
                  it. Install the build tools or update the package manually.";
    let state = packaged_step(packaged_start(), &mut p, tools);
    match packaged_action(&state, &paths()) {
        PackagedAction::Notify { title, body } => {
            assert_eq!(title, "Codex Desktop Linux update available");
            assert_eq!(body, notice);
        }
        other => panic!("{:?}", other),
    }
    let state = packaged_step(state, &mut p, PackagedEvent::Failed);
    match packaged_action(&state, &paths()) {
        PackagedAction::Print { line } => assert_eq!(line, notice),
        other => panic!("{:?}", other),
    }
    match packaged_step(state, &mut p, PackagedEvent::Done) {
        PackagedState::Failed(failure) => {
            assert_eq!(packaged_failure_text(&failure).as_deref(), Some(notice))
        }
        other => panic!("{:?}", other),
    }
}

#[test]
fn each_missing_tool_is_told_before_anything_is_rebuilt() {
    let cases = [
        (true, true, true, false, "node"),
        (true, true, false, false, "node"),
        (true, false, true, false, "node"),
        (true, false, false, false, "7zz"),
        (true, false, false, true, "7zz"),
        (false, true, true, true, "cargo"),
        (false, false, false, false, "cargo"),
    ];
    for (has_cargo, has_7zz, has_7z, has_node, label) in cases {
        let mut p = persisted(None);
        let tools = PackagedEvent::Tools {
            has_cargo,
            has_7zz,
            has_7z,
            has_node,
            has_bundled_node: has_node,
        };
        let state = packaged_step(packaged_start(), &mut p, tools);
        match packaged_action(&state, &paths()) {
            PackagedAction::Notify { title, body } => {
                assert_eq!(title, "Codex Desktop Linux update available");
                assert!(body.contains(&format!("but '{label}' is needed")), "{}", body);
            }
            other => panic!("{:?}", other),
        }
        let state = packaged_step(state, &mut p, PackagedEvent::Done);
        let state = packaged_step(state, &mut p, PackagedEvent::Done);
        assert!(matches!(state, PackagedState::Failed(PackagedFailure::Missing(_))));
    }
}

#[test]
fn node_may_be_a_program_or_bundled() {
    for (has_node, has_bundled_node) in [(true, false), (false, true), (true, true)] {
        let mut p = persisted(None);
        let tools = PackagedEvent::Tools {
            has_cargo: true,
            has_7zz: true,
            has_7z: false,
            has_node,
            has_bundled_node,
        };
        let state = packaged_step(packaged_start(), &mut p, tools);
        assert!(matches!(state, PackagedState::EnsureSource));
    }
}

#[test]
fn unreadable_image_is_told_with_its_path() {
    assert_eq!(image_read_failure_text(b"/img.dmg"), "Failed to read /img.dmg");
    assert_eq!(image_read_failure_text(b"/\xff.dmg"), "Failed to read /\u{fffd}.dmg");
    assert_eq!(image_read_failure_text(b""), "Failed to read ");
}

fn rebuild(p: &mut PersistedState) -> PackagedState {
    let state = packaged_start();
    match packaged_action(&state, &paths()) {
        PackagedAction::CheckTools { variable, cargo, seven_zz, seven_z, node } => {
            assert_eq!(variable, "PATH");
            assert_eq!([cargo, seven_zz, seven_z, node], ["cargo", "7zz", "7z", "node"]);
        }
        other => panic!("{:?}", other),
    }
    let tools = PackagedEvent::Tools {
        has_cargo: true,
        has_7zz: false,
        has_7z: true,
        has_node: true,
        has_bundled_node: false,
    };
    let state = packaged_step(state, p, tools);
    assert!(matches!(packaged_action(&state, &paths()), PackagedAction::EnsureSource));
    let state = packaged_step(state, p, PackagedEvent::Found(b"/src".to_vec()));
    assert!(matches!(packaged_action(&state, &paths()), PackagedAction::FindImage));
    let state = packaged_step(state, p, PackagedEvent::Found(b"/img".to_vec()));
    match packaged_action(&state, &paths()) {
        PackagedAction::DeriveVersion { image } => assert_eq!(image, b"/img".to_vec()),
        other => panic!("{:?}", other),
    }
    let state = packaged_step(state, p, PackagedEvent::Version("v1".to_string()));
    match packaged_action(&state, &paths()) {
        PackagedAction::Build { source, version, image } => {
            assert_eq!(source, b"/src".to_vec());
            assert_eq!(version, "v1");
            assert_eq!(image, b"/img".to_vec());
        }
        other => panic!("{:?}", other),
    }
    let state = packaged_step(state, p, PackagedEvent::Found(b"/pkg.deb".to_vec()));
    assert!(matches!(packaged_action(&state, &paths()), PackagedAction::FindExecutable));
    let state = packaged_step(state, p, PackagedEvent::Found(b"/usr/bin/updater".to_vec()));
    match packaged_action(&state, &paths()) {
        PackagedAction::Install { executable, package } => {
            assert_eq!(executable, b"/usr/bin/updater".to_vec());
            assert_eq!(package, b"/pkg.deb".to_vec());
        }
        other => panic!("{:?}", other),
    }
    state
}

#[test]
fn package_is_built_and_installed() {
    let mut p = persisted(None);
    let state = rebuild(&mut p);
    assert_eq!(p.installed_version, "1");
    let state = packaged_step(
        state,
        &mut p,
        PackagedEvent::Exited { success: true, status: "exit status: 0".to_string() },
    );
    assert!(matches!(packaged_action(&state, &paths()), PackagedAction::ReadVersion));
    let state = packaged_step(state, &mut p, PackagedEvent::Version("2".to_string()));
    assert_eq!(p.installed_version, "2");
    assert_eq!(p.wrapper_candidate.as_deref(), Some("abc123"));
    match packaged_action(&state, &paths()) {
        PackagedAction::Save { file } => assert_eq!(file, b"/home/me/state.json".to_vec()),
        other => panic!("{:?}", other),
    }
    let state = packaged_step(state, &mut p, PackagedEvent::Failed);
    assert!(matches!(state, PackagedState::Installed));
}

#[test]
fn refused_installation_is_told_with_its_status() {
    let mut p = persisted(None);
    let state = rebuild(&mut p);
    let state = packaged_step(
        state,
        &mut p,
        PackagedEvent::Exited { success: false, status: "exit status: 126".to_string() },
    );
    match state {
        PackagedState::Failed(failure) => assert_eq!(
            packaged_failure_text(&failure).as_deref(),
            Some("privileged wrapper install exited with status exit status: 126")
        ),
        other => panic!("{:?}", other),
    }
    assert_eq!(p.installed_version, "1");
}

#[test]
fn rebuild_failures_have_their_words() {
    assert_eq!(packaged_failure_text(&PackagedFailure::Source), None);
    assert_eq!(packaged_failure_text(&PackagedFailure::Image), None);
    assert_eq!(packaged_failure_text(&PackagedFailure::Version), None);
    assert_eq!(
        packaged_failure_text(&PackagedFailure::Build).as_deref(),
        Some("wrapper package rebuild failed")
    );
    assert_eq!(
        packaged_failure_text(&PackagedFailure::Executable).as_deref(),
        Some("Failed to resolve updater binary path")
    );
    assert_eq!(
        packaged_failure_text(&PackagedFailure::Launch).as_deref(),
        Some("Failed to launch pkexec for wrapper update installation")
    );
    let mut p = persisted(None);
    let state = rebuild(&mut p);
    assert!(matches!(
        packaged_step(state, &mut p, PackagedEvent::Failed),
        PackagedState::Failed(PackagedFailure::Launch)
    ));
}

#[test]
fn cached_image_is_used() {
    let mut p = persisted(Some("/img.dmg"));
    let c = config("", "");
    let state = image_start(&p);
    match image_action(state, &c, &p, &paths()) {
        ImageAction::Exists { path } => assert_eq!(path, b"/img.dmg".to_vec()),
        other => panic!("{:?}", other),
    }
    let state = image_step(state, &mut p, ImageEvent::Answer(true));
    assert_eq!(state, ImageState::Ready);
    assert_eq!(image_path(state, &p), Some(b"/img.dmg".to_vec()));
}

#[test]
fn vanished_image_is_downloaded_again() {
    let mut p = persisted(Some("/img.dmg"));
    let c = config("", "");
    let start = image_start(&p);
    let state = image_step(start, &mut p, ImageEvent::Answer(false));
    assert!(matches!(image_action(state, &c, &p, &paths()), ImageAction::BuildClient));
    assert_eq!(image_path(state, &p), None);
    let state = image_step(state, &mut p, ImageEvent::Done);
    match image_action(state, &c, &p, &paths()) {
        ImageAction::Download { url, directory } => {
            assert_eq!(url, "https://example.com/Codex.dmg");
            assert_eq!(directory, b"/home/me/work/downloads".to_vec());
        }
        other => panic!("{:?}", other),
    }
    let state = image_step(state, &mut p, ImageEvent::Downloaded(b"/new.dmg".to_vec()));
    assert_eq!(p.artifact_paths.dmg_path, Some(b"/new.dmg".to_vec()));
    match image_action(state, &c, &p, &paths()) {
        ImageAction::Save { file } => assert_eq!(file, b"/home/me/state.json".to_vec()),
        other => panic!("{:?}", other),
    }
    let state = image_step(state, &mut p, ImageEvent::Failed);
    assert_eq!(image_path(state, &p), Some(b"/new.dmg".to_vec()));
}

#[test]
fn image_failures_are_told() {
    let mut p = persisted(None);
    let start = image_start(&p);
    assert_eq!(start, ImageState::BuildClient);
    let failed = image_step(start, &mut p, ImageEvent::Failed);
    assert_eq!(failed, ImageState::ClientFailed);
    assert_eq!(image_failure_context(failed), None);
    let download = image_step(start, &mut p, ImageEvent::Done);
    let failed = image_step(download, &mut p, ImageEvent::Failed);
    assert_eq!(failed, ImageState::DownloadFailed);
    assert_eq!(
        image_failure_context(failed).as_deref(),
        Some("Failed to download upstream DMG for wrapper rebuild")
    );
}

#[test]
fn disabled_updates_change_nothing() {
    let mut c = config("", "");
    c.enable_wrapper_updates = false;
    let mut p = persisted(None);
    let state = apply_start(&c, &mut p);
    assert_eq!(p.wrapper_status, None);
    match apply_action(&state, &paths()) {
        ApplyAction::Print { line } => assert_eq!(line, DISABLED_NOTICE),
        other => panic!("{:?}", other),
    }
    assert_eq!(DISABLED_NOTICE, "Wrapper update tracking is disabled; nothing to apply.");
    let state = apply_step(state, &c, &mut p, ApplyEvent::Done);
    assert!(matches!(state, ApplyState::Disabled));
    assert_eq!(p.wrapper_status, None);
    assert_eq!(p.wrapper_candidate.as_deref(), Some("abc123"));
}

fn environment(app_dir: Option<&str>, home: Option<&str>) -> ApplyEvent {
    ApplyEvent::Environment {
        app_dir: app_dir.map(|p| p.as_bytes().to_vec()),
        home: home.map(|p| p.as_bytes().to_vec()),
    }
}

fn assert_saves_state(state: &ApplyState) {
    match apply_action(state, &paths()) {
        ApplyAction::Save { file } => assert_eq!(file, b"/home/me/state.json".to_vec()),
        other => panic!("{:?}", other),
    }
}

#[test]
fn successful_update_is_recorded_and_told() {
    let c = config("", "");
    let mut p = persisted(None);
    let state = apply_start(&c, &mut p);
    assert_eq!(p.wrapper_status.as_deref(), Some("applying"));
    assert_saves_state(&state);
    let state = apply_step(state, &c, &mut p, ApplyEvent::Failed);
    match apply_action(&state, &paths()) {
        ApplyAction::ReadEnvironment { app_dir, home } => {
            assert_eq!(app_dir, "CODEX_LINUX_APP_DIR");
            assert_eq!(home, "HOME");
        }
        other => panic!("{:?}", other),
    }
    let state = apply_step(state, &c, &mut p, environment(Some("/home/me/a"), Some("/home/me")));
    assert!(matches!(apply_action(&state, &paths()), ApplyAction::ApplyUserLocal));
    let state = apply_step(state, &c, &mut p, ApplyEvent::Done);
    assert_eq!(p.wrapper_status.as_deref(), Some("installed"));
    assert_eq!(p.wrapper_candidate, None);
    assert_saves_state(&state);
    let state = apply_step(state, &c, &mut p, ApplyEvent::Done);
    match apply_action(&state, &paths()) {
        ApplyAction::Notify { title, body } => {
            assert_eq!(title, "Codex Desktop Linux updated");
            assert_eq!(body, "The newer Linux wrapper build has been installed.");
        }
        other => panic!("{:?}", other),
    }
    let state = apply_step(state, &c, &mut p, ApplyEvent::Failed);
    assert!(matches!(state, ApplyState::Finished));
}

#[test]
fn failed_update_stays_pending() {
    let c = config("", "");
    let mut p = persisted(None);
    let state = apply_start(&c, &mut p);
    let state = apply_step(state, &c, &mut p, ApplyEvent::Done);
    let state = apply_step(state, &c, &mut p, environment(Some("/opt/codex-desktop"), None));
    assert!(matches!(apply_action(&state, &paths()), ApplyAction::ApplyPackaged));
    let state = apply_step(state, &c, &mut p, ApplyEvent::Failed);
    assert_eq!(p.wrapper_status.as_deref(), Some("failed"));
    assert_eq!(p.wrapper_candidate.as_deref(), Some("abc123"));
    assert_saves_state(&state);
    let state = apply_step(state, &c, &mut p, ApplyEvent::Done);
    assert!(matches!(state, ApplyState::Failed));
    assert!(matches!(apply_action(&state, &paths()), ApplyAction::Nothing));
}

#[test]
fn package_manager_is_asked_only_where_it_matters() {
    let c = config("", "");
    let mut p = persisted(None);
    let start = apply_start(&c, &mut p);
    let state = apply_step(start, &c, &mut p, ApplyEvent::Done);
    let state = apply_step(state, &c, &mut p, environment(None, Some("/home/me")));
    assert!(matches!(apply_action(&state, &paths()), ApplyAction::QueryPackage));
    let state = apply_step(state, &c, &mut p, ApplyEvent::Answer(true));
    assert!(matches!(apply_action(&state, &paths()), ApplyAction::ApplyPackaged));

    let start = apply_start(&c, &mut p);
    let state = apply_step(start, &c, &mut p, ApplyEvent::Done);
    let state = apply_step(state, &c, &mut p, environment(None, Some("/home/me")));
    let state = apply_step(state, &c, &mut p, ApplyEvent::Answer(false));
    assert!(matches!(apply_action(&state, &paths()), ApplyAction::ApplyUserLocal));

    let mut other = config("", "");
    other.builder_bundle_root = b"/home/me/src".to_vec();
    let start = apply_start(&other, &mut p);
    let state = apply_step(start, &other, &mut p, ApplyEvent::Done);
    let state = apply_step(state, &other, &mut p, environment(None, Some("/home/me")));
    assert!(matches!(apply_action(&state, &paths()), ApplyAction::ApplyUserLocal));
}

#[test]
fn rebuild_leaves_the_record_alone() {
    let c = config("", "");
    let mut p = persisted(None);
    apply_start(&c, &mut p);
    let state = rebuild(&mut p);
    let exit = PackagedEvent::Exited { success: true, status: "exit status: 0".to_string() };
    let state = packaged_step(state, &mut p, exit);
    packaged_step(state, &mut p, PackagedEvent::Version("2".to_string()));
    let download = image_step(ImageState::BuildClient, &mut p, ImageEvent::Done);
    image_step(download, &mut p, ImageEvent::Downloaded(b"/new.dmg".to_vec()));
    assert_eq!(p.wrapper_status.as_deref(), Some("applying"));
    assert_eq!(p.wrapper_candidate.as_deref(), Some("abc123"));
}

#[test]
fn package_manager_makes_no_difference_where_it_is_not_asked() {
    let bundle: &[u8] = b"/opt/codex-desktop/update-builder";
    let dir: Option<&[u8]> = Some(b"/home/me/app");
    let home: Option<&[u8]> = Some(b"/home/me");
    assert!(!needs_package_query(dir, home, bundle));
    assert_eq!(
        detect_install_type(dir, home, bundle, true),
        detect_install_type(dir, home, bundle, false)
    );
}

#[test]
fn stray_answers_change_no_update() {
    let c = config("r", "");
    let mut p = persisted(None);
    let state = packaged_step(packaged_start(), &mut p, PackagedEvent::Version("9".to_string()));
    assert!(matches!(state, PackagedState::CheckTools));
    assert_eq!(p.installed_version, "1");
    let state = source_step(source_start(&c), SourceEvent::Done);
    assert!(matches!(state, SourceState::CheckCheckout { .. }));
    let state = image_step(ImageState::CheckCache, &mut p, ImageEvent::Downloaded(Vec::new()));
    assert_eq!(state, ImageState::CheckCache);
    assert_eq!(p.artifact_paths.dmg_path, None);
    let state = apply_step(ApplyState::ReadEnvironment, &c, &mut p, ApplyEvent::Done);
    assert!(matches!(state, ApplyState::ReadEnvironment));
}

#[test]
fn exactly_white_space_is_trimmed() {
    let white = |u: u32| {
        matches!(
            u,
            0x9..=0xd
                | 0x20
                | 0x85
                | 0xa0
                | 0x1680
                | 0x2000..=0x200a
                | 0x2028
                | 0x2029
                | 0x202f
                | 0x205f
                | 0x3000
        )
    };
    for u in 0..=0x10ffffu32 {
        if let Some(c) = char::from_u32(u) {
            let text = format!("{c}");
            let expected = if white(u) { None } else { Some(text.clone()) };
            assert_eq!(captured_text(&text), expected);
        }
    }
}
