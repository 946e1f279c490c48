use std::path::Path;

use codex_desktop::paths::{
    path_components, path_join, path_starts_with, same_path, split_bytes, which, which_candidates,
};
use codex_desktop::text::shown_text;

const SAMPLES: [&str; 30] = [
    "", "/", "//", ".", "./", "./.", "..", "a", "a/", "a//b", "a/b", "a/./b", "./a", "./a/b", "/a",
    "/a/", "/a/b", "/./a", "/a/.", "/a/..", "/a/../b", ".a", "a.", "/.a/b", "/opt/codex-desktop",
    "/opt/codex-desktop/", "/opt//codex-desktop/./app", "/opt/codex-desktop-beta", "/opt", "b/a/",
];

#[test]
fn prefixes_agree_with_the_standard_library() {
    for a in SAMPLES {
        for b in SAMPLES {
            assert_eq!(
                path_starts_with(a.as_bytes(), b.as_bytes()),
                Path::new(a).starts_with(b),
                "{:?} {:?}",
                a,
                b
            );
            assert_eq!(
                same_path(a.as_bytes(), b.as_bytes()),
                Path::new(a) == Path::new(b),
                "{:?} {:?}",
                a,
                b
            );
        }
    }
}

#[test]
fn joins_agree_with_the_standard_library() {
    for a in SAMPLES {
        for b in SAMPLES {
            let expected = Path::new(a).join(b).to_str().unwrap().as_bytes().to_vec();
            assert_eq!(path_join(a.as_bytes(), b.as_bytes()), expected, "{:?} {:?}", a, b);
        }
    }
}

#[test]
fn components_agree_with_the_standard_library() {
    for a in SAMPLES {
        let expected: Vec<Vec<u8>> = Path::new(a)
            .components()
            .map(|c| c.as_os_str().to_str().unwrap().as_bytes().to_vec())
            .collect();
        assert_eq!(path_components(a.as_bytes()), expected, "{:?}", a);
    }
}

#[test]
fn a_name_is_a_prefix_only_as_a_whole() {
    assert!(path_starts_with(b"/opt/codex-desktop/app", b"/opt/codex-desktop"));
    assert!(!path_starts_with(b"/opt/codex-desktop-beta", b"/opt/codex-desktop"));
}

#[test]
fn what_is_joined_stands_under_the_base() {
    assert!(path_starts_with(&path_join(b"/var/cache/", b"x/y"), b"/var/cache"));
}

#[test]
fn splitting_keeps_every_piece() {
    assert_eq!(split_bytes(b"", b':'), vec![Vec::<u8>::new()]);
    assert_eq!(
        split_bytes(b"/bin::/usr/bin:", b':'),
        vec![b"/bin".to_vec(), Vec::new(), b"/usr/bin".to_vec(), Vec::new()]
    );
    for text in ["", ":", "a:b", "::a", "no colon"] {
        assert_eq!(split_bytes(text.as_bytes(), b':').join(&b':'), text.as_bytes());
    }
}

#[test]
fn candidates_follow_the_search_path() {
    assert!(which_candidates(None, "cargo").is_empty());
    assert_eq!(
        which_candidates(Some(b"/bin::/usr/bin/"), "cargo"),
        vec![b"/bin/cargo".to_vec(), b"cargo".to_vec(), b"/usr/bin/cargo".to_vec()]
    );
}

#[test]
fn the_first_file_is_found() {
    let candidates = which_candidates(Some(b"/a:/b:/c"), "7z");
    assert_eq!(which(candidates.clone(), &vec![false, true, true]), Some(b"/b/7z".to_vec()));
    assert_eq!(which(candidates.clone(), &vec![false, false, false]), None);
    assert_eq!(which(candidates.clone(), &vec![false]), None);
    assert_eq!(which(candidates, &vec![true]), Some(b"/a/7z".to_vec()));
    assert_eq!(which(Vec::new(), &vec![true]), None);
}

#[test]
fn bytes_are_shown_as_text() {
    assert_eq!(shown_text(b"/home/me"), "/home/me");
    assert_eq!(shown_text("\u{e4}\u{1f600}".as_bytes()), "\u{e4}\u{1f600}");
    assert_eq!(shown_text(b"a\xffb"), "a\u{fffd}b");
}
