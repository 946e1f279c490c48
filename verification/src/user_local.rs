//! Applying a wrapper update to an installation in the user's home directory: a
//! helper there pulls the wrapper and installs it again in place.

use vstd::prelude::*;
use vstd::utf8::*;

use crate::paths::path_join;
use crate::text::shown_text;
use crate::wrapper_source::CommandExit;

verus! {

/// Where the helper lies, seen from the home directory.
pub const HELPER_PATH: &'static str = ".local/bin/codex-desktop-update";

/// What the helper is called with.
pub const HELPER_ARGUMENT: &'static str = "--quiet";

/// Where the helper lies, given the home directory.
pub open spec fn helper_in(home: Option<Seq<u8>>) -> Option<Seq<u8>> {
    match home {
        Some(h) => Some(crate::paths::joined(h, encode_utf8(HELPER_PATH@))),
        None => None,
    }
}

/// Where the helper lies; nowhere without a home directory.
pub fn helper_candidate(home: Option<&[u8]>) -> (candidate: Option<Vec<u8>>)
    ensures
        crate::paths::option_path(candidate) == helper_in(crate::paths::option_bytes(home)),
{
    match home {
        Some(h) => Some(path_join(h, HELPER_PATH.as_bytes())),
        None => None,
    }
}

/// The helper, if it is there: `is_file` tells whether `candidate` is a file.
pub fn user_local_update_helper(candidate: Option<Vec<u8>>, is_file: bool) -> (helper: Option<
    Vec<u8>,
>)
    ensures
        helper == (if is_file {
            candidate
        } else {
            None
        }),
{
    if is_file {
        candidate
    } else {
        None
    }
}

/// What is told of an update through the helper that did not succeed; nothing of
/// one that did.
pub open spec fn helper_failure(helper: Option<Seq<u8>>, exit: CommandExit) -> Option<Seq<char>> {
    match helper {
        None => Some(
            "user-local wrapper update helper (~/.local/bin/codex-desktop-update) not found"@,
        ),
        Some(path) => match exit {
            CommandExit::NotLaunched => Some(
                "Failed to run "@ + crate::text::shown(path),
            ),
            CommandExit::Exited { success, status } => if success {
                None
            } else {
                Some(crate::text::shown(path) + " exited with status "@ + status@)
            },
        },
    }
}

/// What an update through `helper` came to, from how the helper ended. Without a
/// helper nothing is run.
pub fn apply_user_local(helper: Option<&[u8]>, exit: &CommandExit) -> (result: Result<(), String>)
    ensures
        match helper_failure(crate::paths::option_bytes(helper), *exit) {
            None => result is Ok,
            Some(text) => result matches Err(told) && told@ == text,
        },
{
    match helper {
        None => Err(
            "user-local wrapper update helper (~/.local/bin/codex-desktop-update) not found".to_string(),
        ),
        Some(path) => match exit {
            CommandExit::NotLaunched => {
                let mut text = "Failed to run ".to_string();
                text.append(shown_text(path).as_str());
                Err(text)
            },
            CommandExit::Exited { success, status } => {
                if *success {
                    Ok(())
                } else {
                    let mut text = shown_text(path);
                    text.append(" exited with status ");
                    text.append(status.as_str());
                    Err(text)
                }
            },
        },
    }
}

/// An update through the helper succeeds exactly if there is a helper and it
/// ends with success.
pub proof fn law_helper_decides(helper: Option<Seq<u8>>, exit: CommandExit)
    ensures
        helper_failure(helper, exit) is None <==> (helper is Some && (exit matches
            CommandExit::Exited { success, .. } && success)),
{
}

/// The helper lies under the home directory.
pub proof fn law_helper_is_under_home(home: Seq<u8>)
    ensures
        helper_in(Some(home)) matches Some(path) && crate::paths::starts_with(path, home),
{
    let rel = encode_utf8(HELPER_PATH@);
    let first = rel.take(6);
    let rest = rel.skip(7);
    reveal_strlit(".local/bin/codex-desktop-update");
    is_ascii_chars_encode_utf8(HELPER_PATH@);
    assert(rel.len() == 31);
    assert(rel[6] == 0x2f);
    assert(rel =~= first.push(0x2f) + rest);
    assert(!first.contains(0x2f)) by {
        assert forall|i: int| 0 <= i < 6 implies first[i] != 0x2f by {
            assert(first[i] == HELPER_PATH@[i] as u8);
        }
    }
    crate::paths::lemma_split_concat(first, rest, 0x2f);
    crate::paths::lemma_unsplit(first, 0x2f);
    assert(crate::paths::split(rel, 0x2f)[0] == first);
    assert(first.len() == 6);
    assert(crate::paths::path_head(rel).len() == 0);
    crate::paths::law_join_stays_under_base(home, rel);
}

/// The helper lies at `.local/bin/codex-desktop-update` in the home directory, and
/// nowhere without one.
pub proof fn law_helper_lies_in_local_bin(home: Option<Seq<u8>>)
    ensures
        helper_in(home) is Some <==> home is Some,
        home is Some ==> helper_in(home)->0 == crate::paths::joined(
            home->0,
            encode_utf8(".local/bin/codex-desktop-update"@),
        ),
{
}

/// What is told of an update that did not succeed says which of three things
/// happened: there is no helper, it could not be run, or it ended with a status.
/// The last two name the helper, and the last one the status.
pub proof fn law_helper_failure_says_what_happened(helper: Option<Seq<u8>>, exit: CommandExit)
    ensures
        helper is None ==> helper_failure(helper, exit) == Some(
            "user-local wrapper update helper (~/.local/bin/codex-desktop-update) not found"@,
        ),
        helper is Some && exit is NotLaunched ==> helper_failure(helper, exit) == Some(
            "Failed to run "@ + crate::text::shown(helper->0),
        ),
        helper is Some && (exit matches CommandExit::Exited { success, .. } && !success)
            ==> helper_failure(helper, exit) == Some(
            crate::text::shown(helper->0) + " exited with status "@ + exit->status@,
        ),
{
}

} // verus!
