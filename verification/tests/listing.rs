use codex_desktop::window_listing::{
    list_action, list_failure_text, list_outcome, list_start, list_step, probe_availability,
    receive_error, script_body, script_name, script_object_path, script_path_text,
    temp_script_path, ListAction, ListEvent, ListFailure, ListState, CALLBACK_INTERFACE,
    CALLBACK_PATH, KWIN_BUS_NAME, PROBE_METHOD, PROBE_SCRIPT, SCRIPTING_INTERFACE, SCRIPTING_PATH, SCRIPT_INTERFACE,
};
use codex_desktop::windows::RawWindow;

const TEMPLATE: &str = r#"
(function() {
    try {
        var wins = workspace.windowList();
        var out = [];
        for (var i = 0; i < wins.length; i++) {
            var w = wins[i];
            var g = w.frameGeometry;
            out.push({
                id: String(w.internalId),
                caption: w.caption || "",
                pid: w.pid || 0,
                resourceClass: w.resourceClass || "",
                resourceName: w.resourceName || "",
                minimized: !!w.minimized,
                active: !!w.active,
                desktopWindow: !!w.desktopWindow,
                skipTaskbar: !!w.skipTaskbar,
                x: g ? Math.round(g.x) : 0,
                y: g ? Math.round(g.y) : 0,
                width: g ? Math.round(g.width) : 0,
                height: g ? Math.round(g.height) : 0
            });
        }
        callDBus(
            "{dbus_addr}",
            "/KWinCallback",
            "org.kde.Codex.KWinCallback",
            "ReceiveWindowList",
            JSON.stringify(out)
        );
    } catch(e) {
        callDBus(
            "{dbus_addr}",
            "/KWinCallback",
            "org.kde.Codex.KWinCallback",
            "ReceiveError",
            String(e)
        );
    }
})();
"#;

fn window(id: &str, caption: &str, skip: bool) -> RawWindow {
    RawWindow {
        id: id.to_string(),
        caption: caption.to_string(),
        pid: 1,
        resource_class: "app".to_string(),
        minimized: false,
        active: false,
        desktop_window: false,
        skip_taskbar: skip,
        x: 0,
        y: 0,
        width: 1,
        height: 1,
    }
}

/// The answers of a run in which everything succeeds, up to the report.
fn happy_answers() -> Vec<ListEvent> {
    vec![
        ListEvent::Done,
        ListEvent::Name(":1.456".to_string()),
        ListEvent::Done,
        ListEvent::Written(b"/tmp/codex-kwin-7.js".to_vec()),
        ListEvent::Clock(Some(1700000000123)),
        ListEvent::Done,
        ListEvent::Loaded(3),
        ListEvent::Done,
        ListEvent::Done,
        ListEvent::Report("[]".to_string()),
        ListEvent::Done,
        ListEvent::Failed,
        ListEvent::Done,
    ]
}

fn after(count: usize) -> ListState {
    let mut state = list_start();
    for event in happy_answers().into_iter().take(count) {
        state = list_step(state, event);
    }
    state
}

fn failure_of(state: ListState) -> ListFailure {
    match list_outcome(state) {
        Some(Err(failure)) => failure,
        other => panic!("no failure: {:?}", other),
    }
}

#[test]
fn script_names_the_connection_twice() {
    assert_eq!(script_body(":1.456"), TEMPLATE.replace("{dbus_addr}", ":1.456"));
    assert_eq!(script_body(""), TEMPLATE.replace("{dbus_addr}", ""));
    assert!(!script_body(":1.9").contains("{dbus_addr}"));
}

#[test]
fn script_reports_to_the_registered_object() {
    let target = format!(
        "\n            \":1.456\",\n            \"{CALLBACK_PATH}\",\n            \"{CALLBACK_INTERFACE}\",\n"
    );
    assert_eq!(script_body(":1.456").matches(target.as_str()).count(), 2);
}

#[test]
fn names_hold_numbers() {
    assert_eq!(script_name(1700000000123), "codex-windows-1700000000123");
    assert_eq!(script_name(0), "codex-windows-0");
    assert_eq!(script_name(u128::MAX), format!("codex-windows-{}", u128::MAX));
    assert_eq!(script_object_path(12), "/Scripting/Script12");
    assert_eq!(script_object_path(-1), "/Scripting/Script-1");
    assert_eq!(script_object_path(i32::MIN), format!("/Scripting/Script{}", i32::MIN));
}

#[test]
fn script_lies_in_the_temporary_directory() {
    assert_eq!(temp_script_path(b"/tmp", 42), b"/tmp/codex-kwin-42.js".to_vec());
    assert_eq!(temp_script_path(b"/tmp/", 4294967295), b"/tmp/codex-kwin-4294967295.js".to_vec());
}

#[test]
fn script_path_is_told_as_text() {
    assert_eq!(script_path_text(b"/run/codex-kwin-1.js"), "/run/codex-kwin-1.js");
    assert_eq!(script_path_text("/t\u{fc}r.js".as_bytes()), "/t\u{fc}r.js");
    assert_eq!(script_path_text(b"/run/\xff.js"), "/tmp/codex-kwin.js");
}

#[test]
fn addresses_are_those_of_kwin() {
    assert_eq!(KWIN_BUS_NAME, "org.kde.KWin");
    assert_eq!(SCRIPTING_PATH, "/Scripting");
    assert_eq!(SCRIPTING_INTERFACE, "org.kde.kwin.Scripting");
    assert_eq!(SCRIPT_INTERFACE, "org.kde.kwin.Script");
    assert_eq!(CALLBACK_PATH, "/KWinCallback");
    assert_eq!(PROBE_METHOD, "isScriptLoaded");
    assert_eq!(PROBE_SCRIPT, "__probe__");
}

#[test]
fn listing_asks_for_its_steps_in_order() {
    assert!(matches!(list_action(&after(0)), ListAction::Connect));
    assert!(matches!(list_action(&after(1)), ListAction::ReadName));
    assert!(matches!(
        list_action(&after(2)),
        ListAction::Register { object_path: "/KWinCallback" }
    ));
    match list_action(&after(3)) {
        ListAction::WriteScript { body } => assert_eq!(body, script_body(":1.456")),
        other => panic!("{:?}", other),
    }
    assert!(matches!(list_action(&after(4)), ListAction::ReadClock));
    match list_action(&after(5)) {
        ListAction::OpenScripting { bus_name, object_path, interface } => {
            assert_eq!(bus_name, "org.kde.KWin");
            assert_eq!(object_path, "/Scripting");
            assert_eq!(interface, "org.kde.kwin.Scripting");
        }
        other => panic!("{:?}", other),
    }
    match list_action(&after(6)) {
        ListAction::LoadScript { method, file, name } => {
            assert_eq!(method, "loadScript");
            assert_eq!(file, "/tmp/codex-kwin-7.js");
            assert_eq!(name, "codex-windows-1700000000123");
        }
        other => panic!("{:?}", other),
    }
    match list_action(&after(7)) {
        ListAction::OpenScript { bus_name, object_path, interface } => {
            assert_eq!(bus_name, "org.kde.KWin");
            assert_eq!(object_path, "/Scripting/Script3");
            assert_eq!(interface, "org.kde.kwin.Script");
        }
        other => panic!("{:?}", other),
    }
    match list_action(&after(8)) {
        ListAction::RunScript { object_path, method } => {
            assert_eq!(object_path, "/Scripting/Script3");
            assert_eq!(method, "run");
        }
        other => panic!("{:?}", other),
    }
    assert!(matches!(list_action(&after(9)), ListAction::AwaitCallback { seconds: 10 }));
}

#[test]
fn listing_cleans_up_before_it_reads_the_report() {
    match list_action(&after(10)) {
        ListAction::StopScript { object_path, method } => {
            assert_eq!(object_path, "/Scripting/Script3");
            assert_eq!(method, "stop");
        }
        other => panic!("{:?}", other),
    }
    match list_action(&after(11)) {
        ListAction::UnloadScript { method, name } => {
            assert_eq!(method, "unloadScript");
            assert_eq!(name, "codex-windows-1700000000123");
        }
        other => panic!("{:?}", other),
    }
    match list_action(&after(12)) {
        ListAction::RemoveScript { path } => assert_eq!(path, b"/tmp/codex-kwin-7.js".to_vec()),
        other => panic!("{:?}", other),
    }
    match list_action(&after(13)) {
        ListAction::ParseReport { report } => assert_eq!(report, "[]"),
        other => panic!("{:?}", other),
    }
}

#[test]
fn listing_ends_with_the_windows_of_the_report() {
    let state = list_step(
        after(13),
        ListEvent::Parsed(vec![
            window("2", "two", false),
            window("9", "hidden", true),
            window("1", "one", false),
        ]),
    );
    assert!(matches!(list_action(&state), ListAction::Nothing));
    match list_outcome(state) {
        Some(Ok(listing)) => {
            let shown: Vec<(u64, Option<&str>)> =
                listing.iter().map(|w| (w.window_id, w.title.as_deref())).collect();
            assert_eq!(shown, vec![(1, Some("one")), (2, Some("two"))]);
        }
        other => panic!("{:?}", other),
    }
}

#[test]
fn listing_has_no_outcome_while_a_step_is_left() {
    for count in 0..14 {
        assert!(list_outcome(after(count)).is_none());
    }
}

#[test]
fn clock_before_the_epoch_counts_as_zero() {
    let state = list_step(after(4), ListEvent::Clock(None));
    let state = list_step(state, ListEvent::Done);
    match list_action(&state) {
        ListAction::LoadScript { name, .. } => assert_eq!(name, "codex-windows-0"),
        other => panic!("{:?}", other),
    }
}

#[test]
fn stray_answers_change_nothing() {
    let state = list_step(after(2), ListEvent::Loaded(9));
    assert!(matches!(list_action(&state), ListAction::Register { .. }));
    let state = list_step(state, ListEvent::Report("x".to_string()));
    assert!(matches!(list_action(&state), ListAction::Register { .. }));
}

#[test]
fn each_step_fails_with_its_own_words() {
    let cases: Vec<(usize, ListEvent, &str)> = vec![
        (0, ListEvent::Failed, "failed to connect to session D-Bus"),
        (1, ListEvent::Failed, "D-Bus connection has no unique name"),
        (2, ListEvent::Failed, "failed to register KWin callback object on session bus"),
        (
            3,
            ListEvent::NotWritten(b"/tmp/x.js".to_vec()),
            "failed to write KWin script to /tmp/x.js",
        ),
        (
            3,
            ListEvent::NotWritten(b"/tmp/\xff.js".to_vec()),
            "failed to write KWin script to /tmp/\u{fffd}.js",
        ),
        (5, ListEvent::Failed, "failed to create KWin scripting proxy (is KWin running?)"),
        (6, ListEvent::Failed, "KWin loadScript failed"),
        (7, ListEvent::Failed, "failed to create KWin script proxy"),
        (8, ListEvent::Failed, "KWin script run() failed"),
        (9, ListEvent::TimedOut, "timed out waiting for KWin script callback"),
        (9, ListEvent::ChannelClosed, "KWin callback channel closed unexpectedly"),
        (9, ListEvent::ScriptError("boom".to_string()), "KWin script reported an error"),
        (13, ListEvent::Failed, "failed to parse KWin window JSON"),
    ];
    for (count, event, text) in cases {
        let state = list_step(after(count), event);
        assert!(matches!(list_action(&state), ListAction::Nothing));
        assert_eq!(list_failure_text(&failure_of(state)), text);
    }
}

#[test]
fn script_error_is_kept() {
    match failure_of(list_step(after(9), ListEvent::ScriptError("boom".to_string()))) {
        ListFailure::Script(message) => {
            assert_eq!(receive_error(&message), "KWin script error: boom")
        }
        other => panic!("{:?}", other),
    }
}

#[test]
fn failure_is_final() {
    let state = list_step(after(6), ListEvent::Failed);
    let state = list_step(state, ListEvent::Loaded(1));
    assert!(matches!(failure_of(state), ListFailure::LoadScript));
}

#[test]
fn probe_names_the_first_step_that_fails() {
    assert_eq!(
        probe_availability(true, true, true),
        Ok("KWin scripting is available via org.kde.kwin.Scripting".to_string())
    );
    assert_eq!(
        probe_availability(false, true, true),
        Err("failed to connect to session D-Bus".to_string())
    );
    assert_eq!(
        probe_availability(true, false, false),
        Err("failed to create KWin scripting proxy".to_string())
    );
    assert_eq!(
        probe_availability(true, true, false),
        Err("KWin scripting D-Bus interface not available".to_string())
    );
}

#[test]
fn scripts_of_different_times_have_different_names() {
    assert_ne!(script_name(1), script_name(10));
    assert_ne!(script_name(12), script_name(21));
}
