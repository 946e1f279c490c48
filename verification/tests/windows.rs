use codex_desktop::window_id::uuid_to_u64;
use codex_desktop::windows::{
    collect_windows, non_empty, sort_by_window_id, window_info_from_raw, RawWindow, WindowBounds,
    WindowInfo, KWIN_SCRIPTING_BACKEND,
};

fn raw(id: &str, caption: &str) -> RawWindow {
    RawWindow {
        id: id.to_string(),
        caption: caption.to_string(),
        pid: 0,
        resource_class: String::new(),
        minimized: false,
        active: false,
        desktop_window: false,
        skip_taskbar: false,
        x: 0,
        y: 0,
        width: 0,
        height: 0,
    }
}

fn titles(windows: &Vec<WindowInfo>) -> Vec<String> {
    windows
        .iter()
        .map(|w| w.title.clone().unwrap_or_default())
        .collect()
}

#[test]
fn uuid_takes_first_sixteen_digits() {
    assert_eq!(
        uuid_to_u64("{01234567-89ab-cdef-0123-456789abcdef}"),
        0x0123_4567_89ab_cdef
    );
    assert_eq!(
        uuid_to_u64("{FFFFFFFF-FFFF-FFFF-0000-000000000000}"),
        u64::MAX
    );
}

#[test]
fn uuid_ignores_punctuation_and_case() {
    let plain = uuid_to_u64("deadbeefcafef00d1111");
    assert_eq!(plain, 0xdead_beef_cafe_f00d);
    assert_eq!(uuid_to_u64("{DEADBEEF-CAFE-F00D-2222-}"), plain);
}

#[test]
fn uuid_with_few_digits_is_a_small_number() {
    assert_eq!(uuid_to_u64("x-1F-z"), 0x1f);
    assert_eq!(uuid_to_u64("0"), 0);
}

#[test]
fn uuid_without_digits_is_hashed() {
    assert_eq!(uuid_to_u64(""), 0xcbf2_9ce4_8422_2325);
    for text in ["x", "{}", "xyz", "\u{fc}\u{1f642}", "\u{ff11}"] {
        let mut hash: u64 = 0xcbf2_9ce4_8422_2325;
        for byte in text.bytes() {
            hash ^= byte as u64;
            hash = hash.wrapping_mul(0x100_0000_01b3);
        }
        assert_eq!(uuid_to_u64(text), hash);
    }
}

#[test]
fn empty_text_is_nothing() {
    assert_eq!(non_empty(String::new()), None);
    assert_eq!(non_empty(" ".to_string()), Some(" ".to_string()));
}

#[test]
fn full_window_is_shown_in_full() {
    let w = RawWindow {
        id: "{00000000-0000-002a-0000-000000000000}".to_string(),
        caption: "Editor".to_string(),
        pid: 4711,
        resource_class: "org.kde.kate".to_string(),
        minimized: true,
        active: true,
        desktop_window: false,
        skip_taskbar: false,
        x: -5,
        y: 7,
        width: 640,
        height: 480,
    };
    let info = window_info_from_raw(w);
    assert_eq!(info.window_id, 42);
    assert_eq!(info.title.as_deref(), Some("Editor"));
    assert_eq!(info.app_id.as_deref(), Some("org.kde.kate"));
    assert_eq!(info.wm_class, None);
    assert_eq!(info.pid, Some(4711));
    assert_eq!(
        info.bounds,
        Some(WindowBounds { x: Some(-5), y: Some(7), width: 640, height: 480 })
    );
    assert_eq!(info.workspace, None);
    assert!(info.focused);
    assert!(info.hidden);
    assert_eq!(info.client_type, None);
    assert_eq!(info.backend, KWIN_SCRIPTING_BACKEND);
    assert_eq!(info.backend, "kwin-scripting");
    assert_eq!(info.terminal, None);
}

#[test]
fn bare_window_shows_nothing() {
    let info = window_info_from_raw(raw("1", ""));
    assert_eq!(info.title, None);
    assert_eq!(info.app_id, None);
    assert_eq!(info.pid, None);
    assert_eq!(info.bounds, None);
    assert!(!info.focused);
    assert!(!info.hidden);
}

#[test]
fn one_extent_is_enough_for_bounds() {
    let mut w = raw("1", "line");
    w.height = 3;
    assert_eq!(
        window_info_from_raw(w).bounds,
        Some(WindowBounds { x: Some(0), y: Some(0), width: 0, height: 3 })
    );
    let mut w = raw("1", "line");
    w.width = 3;
    assert!(window_info_from_raw(w).bounds.is_some());
}

#[test]
fn listing_leaves_out_desktop_and_skipped_windows() {
    let mut desktop = raw("1", "desktop");
    desktop.desktop_window = true;
    let mut panel = raw("2", "panel");
    panel.skip_taskbar = true;
    let listing = collect_windows(vec![desktop, raw("3", "shown"), panel]);
    assert_eq!(titles(&listing), vec!["shown".to_string()]);
    assert!(collect_windows(Vec::new()).is_empty());
}

#[test]
fn listing_is_in_order_of_numbers_and_stable() {
    let listing = collect_windows(vec![
        raw("3", "c"),
        raw("1", "a1"),
        raw("2", "b"),
        raw("1", "a2"),
        raw("1", "a3"),
    ]);
    assert_eq!(titles(&listing), vec!["a1", "a2", "a3", "b", "c"]);
    let numbers: Vec<u64> = listing.iter().map(|w| w.window_id).collect();
    assert_eq!(numbers, vec![1, 1, 1, 2, 3]);
}

#[test]
fn sorting_agrees_with_a_stable_sort() {
    let mut seed: u64 = 12345;
    for n in 0..12usize {
        let mut windows: Vec<WindowInfo> = Vec::new();
        for k in 0..n * 3 {
            seed = seed.wrapping_mul(6364136223846793005).wrapping_add(1442695040888963407);
            let mut info = window_info_from_raw(raw("1", &format!("w{k}")));
            info.window_id = (seed >> 33) % 5;
            windows.push(info);
        }
        let mut expected: Vec<(u64, Option<String>)> =
            windows.iter().map(|w| (w.window_id, w.title.clone())).collect();
        expected.sort_by_key(|w| w.0);
        sort_by_window_id(&mut windows);
        let sorted: Vec<(u64, Option<String>)> =
            windows.iter().map(|w| (w.window_id, w.title.clone())).collect();
        assert_eq!(sorted, expected);
    }
}
