//! Listing the windows of a KWin session: a script is written to a file, loaded
//! into KWin and run, and sends its report back over D-Bus. Here stand the
//! texts that are sent and the order of the steps; what carries a step out
//! reports what came of it.

use vstd::prelude::*;
use vstd::slice::*;
use vstd::utf8::*;

use crate::paths::path_join;
use crate::text::{shown_text, push_decimal, push_signed_decimal, utf8_text};
use crate::windows::{collect_windows, RawWindow, WindowInfo};

verus! {

/// The name of KWin on the session bus.
pub const KWIN_BUS_NAME: &'static str = "org.kde.KWin";

/// The object that loads scripts, and its interface.
pub const SCRIPTING_PATH: &'static str = "/Scripting";

pub const SCRIPTING_INTERFACE: &'static str = "org.kde.kwin.Scripting";

/// The interface of a loaded script.
pub const SCRIPT_INTERFACE: &'static str = "org.kde.kwin.Script";

/// The object that the script reports to, and its interface.
pub const CALLBACK_PATH: &'static str = "/KWinCallback";

pub const CALLBACK_INTERFACE: &'static str = "org.kde.Codex.KWinCallback";

/// The methods of that interface: one takes the report, the other an error.
pub const RECEIVE_WINDOW_LIST: &'static str = "ReceiveWindowList";

pub const RECEIVE_ERROR: &'static str = "ReceiveError";

/// The methods of KWin that load and unload a script, and those of a script that
/// run and stop it.
pub const LOAD_METHOD: &'static str = "loadScript";

pub const UNLOAD_METHOD: &'static str = "unloadScript";

pub const RUN_METHOD: &'static str = "run";

pub const STOP_METHOD: &'static str = "stop";

/// How long the script has for its report, in seconds.
pub const CALLBACK_SECONDS: u64 = 10;

/// The script up to the call that sends the report.
pub const SCRIPT_HEAD: &'static str = r#"
(function() {
    try {
        var wins = workspace.windowList();
        var out = [];
        for (var i = 0; i < wins.length; i++) {
            var w = wins[i];
            var g = w.frameGeometry;
            out.push({
                id: String(w.internalId),
                caption: w.caption || "",
                pid: w.pid || 0,
                resourceClass: w.resourceClass || "",
                resourceName: w.resourceName || "",
                minimized: !!w.minimized,
                active: !!w.active,
                desktopWindow: !!w.desktopWindow,
                skipTaskbar: !!w.skipTaskbar,
                x: g ? Math.round(g.x) : 0,
                y: g ? Math.round(g.y) : 0,
                width: g ? Math.round(g.width) : 0,
                height: g ? Math.round(g.height) : 0
            });
        }
"#;

/// The script between the call that sends the report and the one that sends an
/// error.
pub const SCRIPT_MIDDLE: &'static str = r#"    } catch(e) {
"#;

/// The script behind the call that sends an error.
pub const SCRIPT_TAIL: &'static str = r#"    }
})();
"#;

/// What the script sends as the report, and as an error.
pub const REPORT_ARGUMENT: &'static str = "JSON.stringify(out)";

pub const ERROR_ARGUMENT: &'static str = "String(e)";

/// One argument in quotation marks, on a line of its own.
pub open spec fn quoted_argument(text: Seq<char>) -> Seq<char> {
    "            \""@ + text + "\",\n"@
}

/// The call by which the script sends `argument` to `method` of the callback
/// object at the bus connection `address`.
pub open spec fn callback_call(
    address: Seq<char>,
    method: Seq<char>,
    argument: Seq<char>,
) -> Seq<char> {
    "        callDBus(\n"@ + quoted_argument(address) + quoted_argument(CALLBACK_PATH@)
        + quoted_argument(CALLBACK_INTERFACE@) + quoted_argument(method) + "            "@ + argument
        + "\n        );\n"@
}

/// The script that reports to the bus connection `address`.
pub open spec fn script_for(address: Seq<char>) -> Seq<char> {
    SCRIPT_HEAD@ + callback_call(address, RECEIVE_WINDOW_LIST@, REPORT_ARGUMENT@) + SCRIPT_MIDDLE@
        + callback_call(address, RECEIVE_ERROR@, ERROR_ARGUMENT@) + SCRIPT_TAIL@
}

fn append_quoted_argument(out: &mut String, text: &str)
    ensures
        final(out)@ == old(out)@ + quoted_argument(text@),
{
    out.append("            \"");
    out.append(text);
    out.append("\",\n");
    proof {
        assert(out@ =~= old(out)@ + quoted_argument(text@));
    }
}

fn append_callback_call(out: &mut String, address: &str, method: &str, argument: &str)
    ensures
        final(out)@ == old(out)@ + callback_call(address@, method@, argument@),
{
    out.append("        callDBus(\n");
    append_quoted_argument(out, address);
    append_quoted_argument(out, CALLBACK_PATH);
    append_quoted_argument(out, CALLBACK_INTERFACE);
    append_quoted_argument(out, method);
    out.append("            ");
    out.append(argument);
    out.append("\n        );\n");
    proof {
        assert(out@ =~= old(out)@ + callback_call(address@, method@, argument@));
    }
}

/// The script that reports to the bus connection `address`, which is named in
/// both places where the script answers.
pub fn script_body(address: &str) -> (body: String)
    ensures
        body@ == script_for(address@),
{
    let mut body = SCRIPT_HEAD.to_string();
    append_callback_call(&mut body, address, RECEIVE_WINDOW_LIST, REPORT_ARGUMENT);
    body.append(SCRIPT_MIDDLE);
    append_callback_call(&mut body, address, RECEIVE_ERROR, ERROR_ARGUMENT);
    body.append(SCRIPT_TAIL);
    body
}

/// What the script sends goes to the object that is registered: in both calls the
/// connection comes first, then the path at which the object is registered, then
/// its interface and the method.
pub proof fn law_script_calls_the_registered_object(address: Seq<char>)
    ensures
        ({
            let target = quoted_argument(address) + quoted_argument(CALLBACK_PATH@)
                + quoted_argument(CALLBACK_INTERFACE@);
            let report = "        callDBus(\n"@ + target + quoted_argument(RECEIVE_WINDOW_LIST@)
                + "            "@ + REPORT_ARGUMENT@ + "\n        );\n"@;
            let error = "        callDBus(\n"@ + target + quoted_argument(RECEIVE_ERROR@)
                + "            "@ + ERROR_ARGUMENT@ + "\n        );\n"@;
            script_for(address) == SCRIPT_HEAD@ + report + SCRIPT_MIDDLE@ + error + SCRIPT_TAIL@
        }),
{
    let target = quoted_argument(address) + quoted_argument(CALLBACK_PATH@) + quoted_argument(
        CALLBACK_INTERFACE@,
    );
    assert("        callDBus(\n"@ + target =~= "        callDBus(\n"@ + quoted_argument(address)
        + quoted_argument(CALLBACK_PATH@) + quoted_argument(CALLBACK_INTERFACE@));
}

/// The name under which the script is loaded: it holds the milliseconds since
/// the epoch.
pub open spec fn script_name_text(millis: nat) -> Seq<char> {
    "codex-windows-"@ + crate::text::decimal(millis)
}

/// The name under which the script is loaded at `millis`.
pub fn script_name(millis: u128) -> (name: String)
    ensures
        name@ == script_name_text(millis as nat),
{
    let mut name = "codex-windows-".to_string();
    push_decimal(&mut name, millis);
    name
}

/// Scripts that are loaded at different times have different names.
pub proof fn law_script_names_differ(a: nat, b: nat)
    requires
        a != b,
    ensures
        script_name_text(a) != script_name_text(b),
{
    if script_name_text(a) == script_name_text(b) {
        let prefix = "codex-windows-"@;
        assert(script_name_text(a).skip(prefix.len() as int) =~= crate::text::decimal(a));
        assert(script_name_text(b).skip(prefix.len() as int) =~= crate::text::decimal(b));
        crate::text::law_decimal_is_injective(a, b);
    }
}

/// The object of the script that was loaded as number `id`.
pub open spec fn script_object(id: int) -> Seq<char> {
    "/Scripting/Script"@ + crate::text::signed_decimal(id)
}

/// The object of the script that was loaded as number `id`.
pub fn script_object_path(id: i32) -> (path: String)
    ensures
        path@ == script_object(id as int),
{
    let mut path = "/Scripting/Script".to_string();
    push_signed_decimal(&mut path, id);
    path
}

/// The name of the script's file: it holds the number of the process.
pub open spec fn script_file_name(pid: nat) -> Seq<char> {
    "codex-kwin-"@ + crate::text::decimal(pid) + ".js"@
}

/// The file, in the directory for temporary files, that holds the script of the
/// process `pid`.
pub fn temp_script_path(temp_dir: &[u8], pid: u32) -> (path: Vec<u8>)
    ensures
        path@ == crate::paths::joined(temp_dir@, encode_utf8(script_file_name(pid as nat))),
{
    let mut name = "codex-kwin-".to_string();
    push_decimal(&mut name, pid as u128);
    name.append(".js");
    path_join(temp_dir, name.as_str().as_bytes())
}

/// The text by which KWin is told the file `path`: the path itself where it is
/// UTF-8.
pub open spec fn script_path_for(path: Seq<u8>) -> Seq<char> {
    if valid_utf8(path) {
        decode_utf8(path)
    } else {
        "/tmp/codex-kwin.js"@
    }
}

/// The text by which KWin is told the file `path`.
pub fn script_path_text(path: &[u8]) -> (text: String)
    ensures
        text@ == script_path_for(path@),
{
    match utf8_text(path) {
        Some(text) => text,
        None => "/tmp/codex-kwin.js".to_string(),
    }
}

/// What is told of an error that the script reports.
pub fn receive_error(message: &str) -> (text: String)
    ensures
        text@ == "KWin script error: "@ + message@,
{
    let mut text = "KWin script error: ".to_string();
    text.append(message);
    text
}

/// Why a listing fails.
#[derive(Debug)]
pub enum ListFailure {
    Connect,
    NoName,
    Register,
    /// The script could not be written to this file.
    WriteScript(Vec<u8>),
    OpenScripting,
    LoadScript,
    OpenScript,
    RunScript,
    TimedOut,
    ChannelClosed,
    /// The script reported this error.
    Script(String),
    Parse,
}

/// What is told of a failure.
pub open spec fn list_failure_context(failure: ListFailure) -> Seq<char> {
    match failure {
        ListFailure::Connect => "failed to connect to session D-Bus"@,
        ListFailure::NoName => "D-Bus connection has no unique name"@,
        ListFailure::Register => "failed to register KWin callback object on session bus"@,
        ListFailure::WriteScript(path) => "failed to write KWin script to "@
            + crate::text::shown(path@),
        ListFailure::OpenScripting => "failed to create KWin scripting proxy (is KWin running?)"@,
        ListFailure::LoadScript => "KWin loadScript failed"@,
        ListFailure::OpenScript => "failed to create KWin script proxy"@,
        ListFailure::RunScript => "KWin script run() failed"@,
        ListFailure::TimedOut => "timed out waiting for KWin script callback"@,
        ListFailure::ChannelClosed => "KWin callback channel closed unexpectedly"@,
        ListFailure::Script(_) => "KWin script reported an error"@,
        ListFailure::Parse => "failed to parse KWin window JSON"@,
    }
}

/// What is told of `failure`.
pub fn list_failure_text(failure: &ListFailure) -> (text: String)
    ensures
        text@ == list_failure_context(*failure),
{
    match failure {
        ListFailure::Connect => "failed to connect to session D-Bus".to_string(),
        ListFailure::NoName => "D-Bus connection has no unique name".to_string(),
        ListFailure::Register =>
            "failed to register KWin callback object on session bus".to_string(),
        ListFailure::WriteScript(path) => {
            let mut text = "failed to write KWin script to ".to_string();
            text.append(shown_text(path.as_slice()).as_str());
            text
        },
        ListFailure::OpenScripting =>
            "failed to create KWin scripting proxy (is KWin running?)".to_string(),
        ListFailure::LoadScript => "KWin loadScript failed".to_string(),
        ListFailure::OpenScript => "failed to create KWin script proxy".to_string(),
        ListFailure::RunScript => "KWin script run() failed".to_string(),
        ListFailure::TimedOut => "timed out waiting for KWin script callback".to_string(),
        ListFailure::ChannelClosed => "KWin callback channel closed unexpectedly".to_string(),
        ListFailure::Script(_) => "KWin script reported an error".to_string(),
        ListFailure::Parse => "failed to parse KWin window JSON".to_string(),
    }
}

/// How far a listing has come: each state but the last two waits for the answer
/// to one step.
#[derive(Debug)]
pub enum ListState {
    /// Connects to the session bus.
    Connect,
    /// Asks for the unique name of the connection.
    ReadName,
    /// Registers the object that the script reports to.
    Register { address: String },
    /// Writes the script to a file.
    WriteScript { address: String },
    /// Reads the clock, for the name of the script.
    ReadClock { path: Vec<u8> },
    /// Addresses the object that loads scripts.
    OpenScripting { path: Vec<u8>, millis: u128 },
    /// Loads the script.
    LoadScript { path: Vec<u8>, millis: u128 },
    /// Addresses the loaded script.
    OpenScript { path: Vec<u8>, millis: u128, script_id: i32 },
    /// Runs the script.
    RunScript { path: Vec<u8>, millis: u128, script_id: i32 },
    /// Waits for the report.
    AwaitCallback { path: Vec<u8>, millis: u128, script_id: i32 },
    /// Stops the script.
    StopScript { path: Vec<u8>, millis: u128, script_id: i32, report: String },
    /// Unloads the script.
    UnloadScript { path: Vec<u8>, millis: u128, report: String },
    /// Removes the file.
    RemoveScript { path: Vec<u8>, report: String },
    /// Reads the report.
    ParseReport { report: String },
    /// The report holds these windows.
    Finished { windows: Vec<RawWindow> },
    Failed(ListFailure),
}

/// What came of a step.
#[derive(Debug)]
pub enum ListEvent {
    /// The step is done.
    Done,
    /// The step failed.
    Failed,
    /// The unique name of the connection.
    Name(String),
    /// The script stands in this file.
    Written(Vec<u8>),
    /// The script could not be written to this file.
    NotWritten(Vec<u8>),
    /// The milliseconds since the epoch, unless the clock stands before it.
    Clock(Option<u128>),
    /// The script was loaded under this number.
    Loaded(i32),
    /// The script sent this report.
    Report(String),
    /// The script sent this error.
    ScriptError(String),
    /// The script sent nothing in time.
    TimedOut,
    /// Nothing can be sent any more.
    ChannelClosed,
    /// The report holds these windows.
    Parsed(Vec<RawWindow>),
}

/// The state after `event` in `state`. An event that is no answer to the step in
/// hand changes nothing. Whether stopping, unloading and removing succeed makes
/// no difference.
pub open spec fn list_next(state: ListState, event: ListEvent) -> ListState {
    match (state, event) {
        (ListState::Connect, ListEvent::Done) => ListState::ReadName,
        (ListState::Connect, ListEvent::Failed) => ListState::Failed(ListFailure::Connect),
        (ListState::ReadName, ListEvent::Name(address)) => ListState::Register { address },
        (ListState::ReadName, ListEvent::Failed) => ListState::Failed(ListFailure::NoName),
        (ListState::Register { address }, ListEvent::Done) => ListState::WriteScript { address },
        (ListState::Register { .. }, ListEvent::Failed) => ListState::Failed(ListFailure::Register),
        (ListState::WriteScript { .. }, ListEvent::Written(path)) => ListState::ReadClock { path },
        (ListState::WriteScript { .. }, ListEvent::NotWritten(path)) => ListState::Failed(
            ListFailure::WriteScript(path),
        ),
        (ListState::ReadClock { path }, ListEvent::Clock(Some(millis))) => ListState::OpenScripting {
            path,
            millis,
        },
        (ListState::ReadClock { path }, ListEvent::Clock(None)) => ListState::OpenScripting {
            path,
            millis: 0,
        },
        (ListState::OpenScripting { path, millis }, ListEvent::Done) => ListState::LoadScript {
            path,
            millis,
        },
        (ListState::OpenScripting { .. }, ListEvent::Failed) => ListState::Failed(
            ListFailure::OpenScripting,
        ),
        (
            ListState::LoadScript { path, millis },
            ListEvent::Loaded(script_id),
        ) => ListState::OpenScript { path, millis, script_id },
        (ListState::LoadScript { .. }, ListEvent::Failed) => ListState::Failed(
            ListFailure::LoadScript,
        ),
        (
            ListState::OpenScript { path, millis, script_id },
            ListEvent::Done,
        ) => ListState::RunScript { path, millis, script_id },
        (ListState::OpenScript { .. }, ListEvent::Failed) => ListState::Failed(
            ListFailure::OpenScript,
        ),
        (
            ListState::RunScript { path, millis, script_id },
            ListEvent::Done,
        ) => ListState::AwaitCallback { path, millis, script_id },
        (ListState::RunScript { .. }, ListEvent::Failed) => ListState::Failed(
            ListFailure::RunScript,
        ),
        (
            ListState::AwaitCallback { path, millis, script_id },
            ListEvent::Report(report),
        ) => ListState::StopScript { path, millis, script_id, report },
        (ListState::AwaitCallback { .. }, ListEvent::ScriptError(message)) => ListState::Failed(
            ListFailure::Script(message),
        ),
        (ListState::AwaitCallback { .. }, ListEvent::TimedOut) => ListState::Failed(
            ListFailure::TimedOut,
        ),
        (ListState::AwaitCallback { .. }, ListEvent::ChannelClosed) => ListState::Failed(
            ListFailure::ChannelClosed,
        ),
        (
            ListState::StopScript { path, millis, script_id: _, report },
            ListEvent::Done | ListEvent::Failed,
        ) => ListState::UnloadScript { path, millis, report },
        (
            ListState::UnloadScript { path, millis: _, report },
            ListEvent::Done | ListEvent::Failed,
        ) => ListState::RemoveScript { path, report },
        (
            ListState::RemoveScript { path: _, report },
            ListEvent::Done | ListEvent::Failed,
        ) => ListState::ParseReport { report },
        (ListState::ParseReport { .. }, ListEvent::Parsed(windows)) => ListState::Finished {
            windows,
        },
        (ListState::ParseReport { .. }, ListEvent::Failed) => ListState::Failed(ListFailure::Parse),
        (state, _) => state,
    }
}

/// The state after `event` in `state`.
pub fn list_step(state: ListState, event: ListEvent) -> (next: ListState)
    ensures
        next == list_next(state, event),
{
    match (state, event) {
        (ListState::Connect, ListEvent::Done) => ListState::ReadName,
        (ListState::Connect, ListEvent::Failed) => ListState::Failed(ListFailure::Connect),
        (ListState::ReadName, ListEvent::Name(address)) => ListState::Register { address },
        (ListState::ReadName, ListEvent::Failed) => ListState::Failed(ListFailure::NoName),
        (ListState::Register { address }, ListEvent::Done) => ListState::WriteScript { address },
        (ListState::Register { .. }, ListEvent::Failed) => ListState::Failed(ListFailure::Register),
        (ListState::WriteScript { .. }, ListEvent::Written(path)) => ListState::ReadClock { path },
        (ListState::WriteScript { .. }, ListEvent::NotWritten(path)) => ListState::Failed(
            ListFailure::WriteScript(path),
        ),
        (ListState::ReadClock { path }, ListEvent::Clock(clock)) => {
            let millis: u128 = match clock {
                Some(millis) => millis,
                None => 0,
            };
            ListState::OpenScripting { path, millis }
        },
        (ListState::OpenScripting { path, millis }, ListEvent::Done) => ListState::LoadScript {
            path,
            millis,
        },
        (ListState::OpenScripting { .. }, ListEvent::Failed) => ListState::Failed(
            ListFailure::OpenScripting,
        ),
        (
            ListState::LoadScript { path, millis },
            ListEvent::Loaded(script_id),
        ) => ListState::OpenScript { path, millis, script_id },
        (ListState::LoadScript { .. }, ListEvent::Failed) => ListState::Failed(
            ListFailure::LoadScript,
        ),
        (
            ListState::OpenScript { path, millis, script_id },
            ListEvent::Done,
        ) => ListState::RunScript { path, millis, script_id },
        (ListState::OpenScript { .. }, ListEvent::Failed) => ListState::Failed(
            ListFailure::OpenScript,
        ),
        (
            ListState::RunScript { path, millis, script_id },
            ListEvent::Done,
        ) => ListState::AwaitCallback { path, millis, script_id },
        (ListState::RunScript { .. }, ListEvent::Failed) => ListState::Failed(
            ListFailure::RunScript,
        ),
        (
            ListState::AwaitCallback { path, millis, script_id },
            ListEvent::Report(report),
        ) => ListState::StopScript { path, millis, script_id, report },
        (ListState::AwaitCallback { .. }, ListEvent::ScriptError(message)) => ListState::Failed(
            ListFailure::Script(message),
        ),
        (ListState::AwaitCallback { .. }, ListEvent::TimedOut) => ListState::Failed(
            ListFailure::TimedOut,
        ),
        (ListState::AwaitCallback { .. }, ListEvent::ChannelClosed) => ListState::Failed(
            ListFailure::ChannelClosed,
        ),
        (
            ListState::StopScript { path, millis, script_id: _, report },
            ListEvent::Done | ListEvent::Failed,
        ) => ListState::UnloadScript { path, millis, report },
        (
            ListState::UnloadScript { path, millis: _, report },
            ListEvent::Done | ListEvent::Failed,
        ) => ListState::RemoveScript { path, report },
        (
            ListState::RemoveScript { path: _, report },
            ListEvent::Done | ListEvent::Failed,
        ) => ListState::ParseReport { report },
        (ListState::ParseReport { .. }, ListEvent::Parsed(windows)) => ListState::Finished {
            windows,
        },
        (ListState::ParseReport { .. }, ListEvent::Failed) => ListState::Failed(ListFailure::Parse),
        (state, _) => state,
    }
}

/// A step to carry out.
#[derive(Debug)]
pub enum ListAction {
    Connect,
    ReadName,
    /// Register the object that the script reports to at this path.
    Register { object_path: &'static str },
    /// Write this to the script's file.
    WriteScript { body: String },
    ReadClock,
    /// Address this object of KWin, which loads scripts.
    OpenScripting { bus_name: &'static str, object_path: &'static str, interface: &'static str },
    /// Call this method of it with the file and the name of the script.
    LoadScript { method: &'static str, file: String, name: String },
    /// Address the object of the loaded script.
    OpenScript { bus_name: &'static str, object_path: String, interface: &'static str },
    /// Call this method of the script at this object.
    RunScript { object_path: String, method: &'static str },
    /// Wait for the report, no longer than this.
    AwaitCallback { seconds: u64 },
    /// Call this method of the script at this object.
    StopScript { object_path: String, method: &'static str },
    /// Call this method of the object that loads scripts with the name of the
    /// script.
    UnloadScript { method: &'static str, name: String },
    /// Remove this file.
    RemoveScript { path: Vec<u8> },
    /// Read the windows from this report.
    ParseReport { report: String },
    /// There is nothing left to do.
    Nothing,
}

/// `action` is the step that `state` waits for.
pub open spec fn is_list_action(state: ListState, action: ListAction) -> bool {
    match state {
        ListState::Connect => action is Connect,
        ListState::ReadName => action is ReadName,
        ListState::Register { .. } => {
            action matches ListAction::Register { object_path } && object_path@ == CALLBACK_PATH@
        },
        ListState::WriteScript { address } => {
            action matches ListAction::WriteScript { body } && body@ == script_for(address@)
        },
        ListState::ReadClock { .. } => action is ReadClock,
        ListState::OpenScripting { .. } => {
            action matches ListAction::OpenScripting { bus_name, object_path, interface }
                && bus_name@ == KWIN_BUS_NAME@ && object_path@ == SCRIPTING_PATH@ && interface@
                == SCRIPTING_INTERFACE@
        },
        ListState::LoadScript { path, millis } => {
            action matches ListAction::LoadScript { method, file, name } && method@ == LOAD_METHOD@
                && file@ == script_path_for(path@) && name@ == script_name_text(millis as nat)
        },
        ListState::OpenScript { script_id, .. } => {
            action matches ListAction::OpenScript { bus_name, object_path, interface } && bus_name@
                == KWIN_BUS_NAME@ && object_path@ == script_object(script_id as int) && interface@
                == SCRIPT_INTERFACE@
        },
        ListState::RunScript { script_id, .. } => {
            action matches ListAction::RunScript { object_path, method } && object_path@
                == script_object(script_id as int) && method@ == RUN_METHOD@
        },
        ListState::AwaitCallback { .. } => {
            action matches ListAction::AwaitCallback { seconds } && seconds == CALLBACK_SECONDS
        },
        ListState::StopScript { script_id, .. } => {
            action matches ListAction::StopScript { object_path, method } && object_path@
                == script_object(script_id as int) && method@ == STOP_METHOD@
        },
        ListState::UnloadScript { millis, .. } => {
            action matches ListAction::UnloadScript { method, name } && method@ == UNLOAD_METHOD@
                && name@ == script_name_text(millis as nat)
        },
        ListState::RemoveScript { path, .. } => {
            action matches ListAction::RemoveScript { path: file } && file@ == path@
        },
        ListState::ParseReport { report } => {
            action matches ListAction::ParseReport { report: text } && text@ == report@
        },
        ListState::Finished { .. } => action is Nothing,
        ListState::Failed(_) => action is Nothing,
    }
}

/// The step that `state` waits for.
pub fn list_action(state: &ListState) -> (action: ListAction)
    ensures
        is_list_action(*state, action),
{
    match state {
        ListState::Connect => ListAction::Connect,
        ListState::ReadName => ListAction::ReadName,
        ListState::Register { .. } => ListAction::Register { object_path: CALLBACK_PATH },
        ListState::WriteScript { address } => ListAction::WriteScript {
            body: script_body(address.as_str()),
        },
        ListState::ReadClock { .. } => ListAction::ReadClock,
        ListState::OpenScripting { .. } => ListAction::OpenScripting {
            bus_name: KWIN_BUS_NAME,
            object_path: SCRIPTING_PATH,
            interface: SCRIPTING_INTERFACE,
        },
        ListState::LoadScript { path, millis } => ListAction::LoadScript {
            method: LOAD_METHOD,
            file: script_path_text(path.as_slice()),
            name: script_name(*millis),
        },
        ListState::OpenScript { script_id, .. } => ListAction::OpenScript {
            bus_name: KWIN_BUS_NAME,
            object_path: script_object_path(*script_id),
            interface: SCRIPT_INTERFACE,
        },
        ListState::RunScript { script_id, .. } => ListAction::RunScript {
            object_path: script_object_path(*script_id),
            method: RUN_METHOD,
        },
        ListState::AwaitCallback { .. } => ListAction::AwaitCallback { seconds: CALLBACK_SECONDS },
        ListState::StopScript { script_id, .. } => ListAction::StopScript {
            object_path: script_object_path(*script_id),
            method: STOP_METHOD,
        },
        ListState::UnloadScript { millis, .. } => ListAction::UnloadScript {
            method: UNLOAD_METHOD,
            name: script_name(*millis),
        },
        ListState::RemoveScript { path, .. } => ListAction::RemoveScript {
            path: slice_to_vec(path.as_slice()),
        },
        ListState::ParseReport { report } => ListAction::ParseReport { report: report.clone() },
        ListState::Finished { .. } => ListAction::Nothing,
        ListState::Failed(_) => ListAction::Nothing,
    }
}

/// The state in which a listing begins.
pub fn list_start() -> (state: ListState)
    ensures
        state == list_run(Seq::empty()),
{
    ListState::Connect
}

/// What a listing comes to: the windows in order, or a failure; nothing as long
/// as a step is left.
pub fn list_outcome(state: ListState) -> (outcome: Option<Result<Vec<WindowInfo>, ListFailure>>)
    ensures
        match state {
            ListState::Finished { windows } => {
                outcome matches Some(Ok(listing)) && crate::windows::is_stable_sort(
                    crate::windows::models(listing@),
                    crate::windows::listed_models(windows@),
                ) && listing@.len() == windows@.filter(
                    |w: RawWindow| !w.desktop_window && !w.skip_taskbar,
                ).len()
            },
            ListState::Failed(failure) => outcome == Some(
                Err::<Vec<WindowInfo>, ListFailure>(failure),
            ),
            _ => outcome is None,
        },
{
    match state {
        ListState::Finished { windows } => Some(Ok(collect_windows(windows))),
        ListState::Failed(failure) => Some(Err(failure)),
        _ => None,
    }
}

/// The state of a listing after `events`.
pub open spec fn list_run(events: Seq<ListEvent>) -> ListState
    decreases events.len(),
{
    if events.len() == 0 {
        ListState::Connect
    } else {
        list_next(list_run(events.drop_last()), events.last())
    }
}

proof fn lemma_list_push(events: Seq<ListEvent>, event: ListEvent)
    ensures
        list_run(events.push(event)) == list_next(list_run(events), event),
{
    assert(events.push(event).drop_last() =~= events);
}

/// A listing in which every step up to the report succeeds comes to the windows
/// of the report, whatever comes of the cleaning up.
pub proof fn law_listing_succeeds(
    address: String,
    path: Vec<u8>,
    clock: Option<u128>,
    script_id: i32,
    report: String,
    stopped: ListEvent,
    unloaded: ListEvent,
    removed: ListEvent,
    windows: Vec<RawWindow>,
)
    requires
        stopped is Done || stopped is Failed,
        unloaded is Done || unloaded is Failed,
        removed is Done || removed is Failed,
    ensures
        list_run(
            seq![
                ListEvent::Done,
                ListEvent::Name(address),
                ListEvent::Done,
                ListEvent::Written(path),
                ListEvent::Clock(clock),
                ListEvent::Done,
                ListEvent::Loaded(script_id),
                ListEvent::Done,
                ListEvent::Done,
                ListEvent::Report(report),
                stopped,
                unloaded,
                removed,
                ListEvent::Parsed(windows),
            ],
        ) == (ListState::Finished { windows }),
{
    let s0 = Seq::<ListEvent>::empty();
    let s1 = s0.push(ListEvent::Done);
    let s2 = s1.push(ListEvent::Name(address));
    let s3 = s2.push(ListEvent::Done);
    let s4 = s3.push(ListEvent::Written(path));
    let s5 = s4.push(ListEvent::Clock(clock));
    let s6 = s5.push(ListEvent::Done);
    let s7 = s6.push(ListEvent::Loaded(script_id));
    let s8 = s7.push(ListEvent::Done);
    let s9 = s8.push(ListEvent::Done);
    let s10 = s9.push(ListEvent::Report(report));
    let s11 = s10.push(stopped);
    let s12 = s11.push(unloaded);
    let s13 = s12.push(removed);
    lemma_list_push(s0, ListEvent::Done);
    lemma_list_push(s1, ListEvent::Name(address));
    lemma_list_push(s2, ListEvent::Done);
    lemma_list_push(s3, ListEvent::Written(path));
    lemma_list_push(s4, ListEvent::Clock(clock));
    lemma_list_push(s5, ListEvent::Done);
    lemma_list_push(s6, ListEvent::Loaded(script_id));
    lemma_list_push(s7, ListEvent::Done);
    lemma_list_push(s8, ListEvent::Done);
    lemma_list_push(s9, ListEvent::Report(report));
    lemma_list_push(s10, stopped);
    lemma_list_push(s11, unloaded);
    lemma_list_push(s12, removed);
    lemma_list_push(s13, ListEvent::Parsed(windows));
    assert(seq![
        ListEvent::Done,
        ListEvent::Name(address),
        ListEvent::Done,
        ListEvent::Written(path),
        ListEvent::Clock(clock),
        ListEvent::Done,
        ListEvent::Loaded(script_id),
        ListEvent::Done,
        ListEvent::Done,
        ListEvent::Report(report),
        stopped,
        unloaded,
        removed,
        ListEvent::Parsed(windows),
    ] =~= s13.push(ListEvent::Parsed(windows)));
}

/// How many steps are done.
pub open spec fn steps_done(state: ListState) -> int {
    match state {
        ListState::Connect => 0,
        ListState::ReadName => 1,
        ListState::Register { .. } => 2,
        ListState::WriteScript { .. } => 3,
        ListState::ReadClock { .. } => 4,
        ListState::OpenScripting { .. } => 5,
        ListState::LoadScript { .. } => 6,
        ListState::OpenScript { .. } => 7,
        ListState::RunScript { .. } => 8,
        ListState::AwaitCallback { .. } => 9,
        ListState::StopScript { .. } => 10,
        ListState::UnloadScript { .. } => 11,
        ListState::RemoveScript { .. } => 12,
        ListState::ParseReport { .. } => 13,
        ListState::Finished { .. } => 14,
        ListState::Failed(failure) => match failure {
            ListFailure::Connect => 0,
            ListFailure::NoName => 1,
            ListFailure::Register => 2,
            ListFailure::WriteScript(_) => 3,
            ListFailure::OpenScripting => 5,
            ListFailure::LoadScript => 6,
            ListFailure::OpenScript => 7,
            ListFailure::RunScript => 8,
            ListFailure::TimedOut => 9,
            ListFailure::ChannelClosed => 9,
            ListFailure::Script(_) => 9,
            ListFailure::Parse => 13,
        },
    }
}

/// No step is skipped, none is done twice, and none comes after a failure: an
/// event leaves the state as it is, completes the step in hand, or fails it.
pub proof fn law_steps_come_in_order(state: ListState, event: ListEvent)
    ensures
        ({
            let next = list_next(state, event);
            ||| next == state
            ||| steps_done(next) == steps_done(state) + 1 && !(next is Failed) && !(state is Failed)
            ||| steps_done(next) == steps_done(state) && next is Failed && !(state is Failed)
        }),
        state is Failed || state is Finished ==> list_next(state, event) == state,
{
}

proof fn lemma_step_was_passed(events: Seq<ListEvent>, k: int) -> (i: int)
    requires
        0 <= k < steps_done(list_run(events)),
    ensures
        0 <= i < events.len(),
        steps_done(list_run(events.take(i))) == k,
        !(list_run(events.take(i)) is Failed),
        !(list_run(events.take(i + 1)) is Failed),
        steps_done(list_run(events.take(i + 1))) == k + 1,
    decreases events.len(),
{
    let front = events.drop_last();
    let before = list_run(front);
    law_steps_come_in_order(before, events.last());
    if k < steps_done(before) {
        let i = lemma_step_was_passed(front, k);
        assert(front.take(i) =~= events.take(i));
        assert(front.take(i + 1) =~= events.take(i + 1));
        i
    } else {
        let i = events.len() - 1;
        assert(events.take(i) =~= front);
        assert(events.take(i + 1) =~= events);
        i
    }
}

/// The callback is registered before the script is loaded, so no report can
/// arrive too early: in every run that comes to loading the script, the answer
/// to the registration was success.
pub proof fn law_callback_is_registered_before_load(events: Seq<ListEvent>)
    requires
        list_run(events) is LoadScript,
    ensures
        exists|i: int|
            0 <= i < events.len() && #[trigger] list_run(events.take(i)) is Register
                && events[i] is Done,
{
    let i = lemma_step_was_passed(events, 2);
    assert(events.take(i + 1).drop_last() =~= events.take(i));
    assert(events.take(i + 1).last() == events[i]);
    assert(list_run(events.take(i)) is Register);
}

/// The script was loaded from `path` under the name of `millis`, as number
/// `script_id`.
pub open spec fn was_loaded(
    events: Seq<ListEvent>,
    path: Vec<u8>,
    millis: u128,
    script_id: i32,
) -> bool {
    exists|i: int|
        0 <= i < events.len() && #[trigger] list_run(events.take(i)) == (ListState::LoadScript {
            path,
            millis,
        }) && events[i] == ListEvent::Loaded(script_id)
}

/// The script was loaded from `path` under the name of `millis`.
pub open spec fn was_loaded_as(events: Seq<ListEvent>, path: Vec<u8>, millis: u128) -> bool {
    exists|script_id: i32| was_loaded(events, path, millis, script_id)
}

/// The script was loaded from `path`.
pub open spec fn was_loaded_from(events: Seq<ListEvent>, path: Vec<u8>) -> bool {
    exists|millis: u128| was_loaded_as(events, path, millis)
}

proof fn lemma_loaded_stays(
    events: Seq<ListEvent>,
    path: Vec<u8>,
    millis: u128,
    script_id: i32,
)
    requires
        events.len() > 0,
        was_loaded(events.drop_last(), path, millis, script_id),
    ensures
        was_loaded(events, path, millis, script_id),
        was_loaded_as(events, path, millis),
        was_loaded_from(events, path),
{
    let front = events.drop_last();
    let i = choose|i: int|
        0 <= i < front.len() && #[trigger] list_run(front.take(i)) == (ListState::LoadScript {
            path,
            millis,
        }) && front[i] == ListEvent::Loaded(script_id);
    assert(front.take(i) =~= events.take(i));
    assert(list_run(events.take(i)) == (ListState::LoadScript { path, millis }));
    assert(events[i] == ListEvent::Loaded(script_id));
    assert(was_loaded(events, path, millis, script_id));
    assert(was_loaded_as(events, path, millis));
}

proof fn lemma_script_in_hand_was_loaded(events: Seq<ListEvent>)
    ensures
        match list_run(events) {
            ListState::OpenScript { path, millis, script_id } => was_loaded(
                events,
                path,
                millis,
                script_id,
            ),
            ListState::RunScript { path, millis, script_id } => was_loaded(
                events,
                path,
                millis,
                script_id,
            ),
            ListState::AwaitCallback { path, millis, script_id } => was_loaded(
                events,
                path,
                millis,
                script_id,
            ),
            ListState::StopScript { path, millis, script_id, .. } => was_loaded(
                events,
                path,
                millis,
                script_id,
            ),
            ListState::UnloadScript { path, millis, .. } => was_loaded_as(events, path, millis),
            ListState::RemoveScript { path, .. } => was_loaded_from(events, path),
            _ => true,
        },
    decreases events.len(),
{
    if events.len() > 0 {
        let front = events.drop_last();
        lemma_script_in_hand_was_loaded(front);
        match list_run(front) {
            ListState::LoadScript { path, millis } => {
                let i = events.len() - 1;
                assert(events.take(i) =~= front);
                match events[i] {
                    ListEvent::Loaded(script_id) => {
                        assert(list_run(events.take(i)) == (ListState::LoadScript {
                            path,
                            millis,
                        }));
                        assert(was_loaded(events, path, millis, script_id));
                    },
                    _ => {},
                }
            },
            ListState::OpenScript { path, millis, script_id } => {
                lemma_loaded_stays(events, path, millis, script_id);
            },
            ListState::RunScript { path, millis, script_id } => {
                lemma_loaded_stays(events, path, millis, script_id);
            },
            ListState::AwaitCallback { path, millis, script_id } => {
                lemma_loaded_stays(events, path, millis, script_id);
            },
            ListState::StopScript { path, millis, script_id, .. } => {
                lemma_loaded_stays(events, path, millis, script_id);
            },
            ListState::UnloadScript { path, millis, .. } => {
                let script_id = choose|script_id: i32| was_loaded(front, path, millis, script_id);
                lemma_loaded_stays(events, path, millis, script_id);
            },
            ListState::RemoveScript { path, .. } => {
                let millis = choose|millis: u128| was_loaded_as(front, path, millis);
                let script_id = choose|script_id: i32| was_loaded(front, path, millis, script_id);
                lemma_loaded_stays(events, path, millis, script_id);
            },
            _ => {},
        }
    }
}

/// What is addressed, run, stopped and unloaded is the script that was loaded, and
/// what is removed is the file that it was loaded from.
pub proof fn law_cleanup_undoes_load(events: Seq<ListEvent>)
    ensures
        list_run(events) matches ListState::OpenScript { path, millis, script_id } ==> was_loaded(
            events,
            path,
            millis,
            script_id,
        ),
        list_run(events) matches ListState::RunScript { path, millis, script_id } ==> was_loaded(
            events,
            path,
            millis,
            script_id,
        ),
        list_run(events) matches ListState::StopScript { path, millis, script_id, .. }
            ==> was_loaded(events, path, millis, script_id),
        list_run(events) matches ListState::UnloadScript { path, millis, .. } ==> was_loaded_as(
            events,
            path,
            millis,
        ),
        list_run(events) matches ListState::RemoveScript { path, .. } ==> was_loaded_from(
            events,
            path,
        ),
{
    lemma_script_in_hand_was_loaded(events);
}

/// No listing is read before the script is stopped and unloaded and its file
/// removed, in this order: every run that comes to reading a report has passed
/// these three steps.
pub proof fn law_cleanup_precedes_reading(events: Seq<ListEvent>)
    requires
        steps_done(list_run(events)) >= 13,
    ensures
        exists|i: int, j: int, k: int|
            {
                &&& 0 <= i < j < k < events.len()
                &&& #[trigger] list_run(events.take(i)) is StopScript
                &&& #[trigger] list_run(events.take(j)) is UnloadScript
                &&& #[trigger] list_run(events.take(k)) is RemoveScript
            },
{
    let k = lemma_step_was_passed(events, 12);
    let before_k = events.take(k);
    let j = lemma_step_was_passed(before_k, 11);
    assert(before_k.take(j) =~= events.take(j));
    let before_j = events.take(j);
    let i = lemma_step_was_passed(before_j, 10);
    assert(before_j.take(i) =~= events.take(i));
    assert(list_run(events.take(i)) is StopScript);
    assert(list_run(events.take(j)) is UnloadScript);
    assert(list_run(events.take(k)) is RemoveScript);
}

/// The report that `state` holds, if any.
pub open spec fn report_in_hand(state: ListState) -> Option<String> {
    match state {
        ListState::StopScript { report, .. } => Some(report),
        ListState::UnloadScript { report, .. } => Some(report),
        ListState::RemoveScript { report, .. } => Some(report),
        ListState::ParseReport { report } => Some(report),
        _ => None,
    }
}

/// What is read is what the script sent: the report in hand is one that arrived
/// while the listing waited for it.
pub proof fn law_report_comes_from_callback(events: Seq<ListEvent>)
    ensures
        report_in_hand(list_run(events)) matches Some(report) ==> exists|i: int|
            0 <= i < events.len() && #[trigger] list_run(events.take(i)) is AwaitCallback
                && events[i] == ListEvent::Report(report),
    decreases events.len(),
{
    if events.len() > 0 {
        let front = events.drop_last();
        let last = events.len() - 1;
        law_report_comes_from_callback(front);
        assert(events.take(last) =~= front);
        match report_in_hand(list_run(events)) {
            Some(report) => {
                if report_in_hand(list_run(front)) == Some(report) {
                    let i = choose|i: int|
                        0 <= i < front.len() && #[trigger] list_run(front.take(i)) is AwaitCallback
                            && front[i] == ListEvent::Report(report);
                    assert(front.take(i) =~= events.take(i));
                    assert(list_run(events.take(i)) is AwaitCallback);
                } else {
                    assert(list_run(events.take(last)) is AwaitCallback);
                }
            },
            None => {},
        }
    }
}

/// The method that tells whether a script is loaded, and the name that it is
/// asked for: a question that changes nothing.
pub const PROBE_METHOD: &'static str = "isScriptLoaded";

pub const PROBE_SCRIPT: &'static str = "__probe__";

/// What a probe of KWin's scripting interface comes to, from the first of its
/// steps that fails: connecting to the session bus, addressing the object that
/// loads scripts, and asking it something.
pub open spec fn probe_result(connected: bool, opened: bool, answered: bool) -> Result<
    Seq<char>,
    Seq<char>,
> {
    if !connected {
        Err("failed to connect to session D-Bus"@)
    } else if !opened {
        Err("failed to create KWin scripting proxy"@)
    } else if !answered {
        Err("KWin scripting D-Bus interface not available"@)
    } else {
        Ok("KWin scripting is available via org.kde.kwin.Scripting"@)
    }
}

/// What a probe of KWin's scripting interface comes to, given which of its steps
/// succeeded. A step behind one that failed is not carried out.
pub fn probe_availability(connected: bool, opened: bool, answered: bool) -> (result: Result<
    String,
    String,
>)
    ensures
        match (result, probe_result(connected, opened, answered)) {
            (Ok(told), Ok(text)) => told@ == text,
            (Err(told), Err(text)) => told@ == text,
            _ => false,
        },
{
    if !connected {
        Err("failed to connect to session D-Bus".to_string())
    } else if !opened {
        Err("failed to create KWin scripting proxy".to_string())
    } else if !answered {
        Err("KWin scripting D-Bus interface not available".to_string())
    } else {
        Ok("KWin scripting is available via org.kde.kwin.Scripting".to_string())
    }
}

/// A listing in which every step succeeds hands on what it is answered: the name
/// of the connection to the script that is written, the file, the time and the
/// number of the script to every step that works with it, and the report past the
/// cleaning up to the reading. A clock before the epoch counts as the epoch.
pub proof fn law_listing_hands_on_its_answers(
    address: String,
    path: Vec<u8>,
    clock: Option<u128>,
    script_id: i32,
    report: String,
    stopped: ListEvent,
    unloaded: ListEvent,
    removed: ListEvent,
    windows: Vec<RawWindow>,
)
    requires
        stopped is Done || stopped is Failed,
        unloaded is Done || unloaded is Failed,
        removed is Done || removed is Failed,
    ensures
        ({
            let millis: u128 = if clock is Some {
                clock->0
            } else {
                0
            };
            let s0 = Seq::<ListEvent>::empty();
            let s1 = s0.push(ListEvent::Done);
            let s2 = s1.push(ListEvent::Name(address));
            let s3 = s2.push(ListEvent::Done);
            let s4 = s3.push(ListEvent::Written(path));
            let s5 = s4.push(ListEvent::Clock(clock));
            let s6 = s5.push(ListEvent::Done);
            let s7 = s6.push(ListEvent::Loaded(script_id));
            let s8 = s7.push(ListEvent::Done);
            let s9 = s8.push(ListEvent::Done);
            let s10 = s9.push(ListEvent::Report(report));
            let s11 = s10.push(stopped);
            let s12 = s11.push(unloaded);
            let s13 = s12.push(removed);
            let s14 = s13.push(ListEvent::Parsed(windows));
            &&& list_run(s0) is Connect
            &&& list_run(s1) is ReadName
            &&& list_run(s2) == (ListState::Register { address })
            &&& list_run(s3) == (ListState::WriteScript { address })
            &&& list_run(s4) == (ListState::ReadClock { path })
            &&& list_run(s5) == (ListState::OpenScripting { path, millis })
            &&& list_run(s6) == (ListState::LoadScript { path, millis })
            &&& list_run(s7) == (ListState::OpenScript { path, millis, script_id })
            &&& list_run(s8) == (ListState::RunScript { path, millis, script_id })
            &&& list_run(s9) == (ListState::AwaitCallback { path, millis, script_id })
            &&& list_run(s10) == (ListState::StopScript { path, millis, script_id, report })
            &&& list_run(s11) == (ListState::UnloadScript { path, millis, report })
            &&& list_run(s12) == (ListState::RemoveScript { path, report })
            &&& list_run(s13) == (ListState::ParseReport { report })
            &&& list_run(s14) == (ListState::Finished { windows })
        }),
{
    let s0 = Seq::<ListEvent>::empty();
    let s1 = s0.push(ListEvent::Done);
    let s2 = s1.push(ListEvent::Name(address));
    let s3 = s2.push(ListEvent::Done);
    let s4 = s3.push(ListEvent::Written(path));
    let s5 = s4.push(ListEvent::Clock(clock));
    let s6 = s5.push(ListEvent::Done);
    let s7 = s6.push(ListEvent::Loaded(script_id));
    let s8 = s7.push(ListEvent::Done);
    let s9 = s8.push(ListEvent::Done);
    let s10 = s9.push(ListEvent::Report(report));
    let s11 = s10.push(stopped);
    let s12 = s11.push(unloaded);
    let s13 = s12.push(removed);
    let s14 = s13.push(ListEvent::Parsed(windows));
    lemma_list_push(s0, ListEvent::Done);
    lemma_list_push(s1, ListEvent::Name(address));
    lemma_list_push(s2, ListEvent::Done);
    lemma_list_push(s3, ListEvent::Written(path));
    lemma_list_push(s4, ListEvent::Clock(clock));
    lemma_list_push(s5, ListEvent::Done);
    lemma_list_push(s6, ListEvent::Loaded(script_id));
    lemma_list_push(s7, ListEvent::Done);
    lemma_list_push(s8, ListEvent::Done);
    lemma_list_push(s9, ListEvent::Report(report));
    lemma_list_push(s10, stopped);
    lemma_list_push(s11, unloaded);
    lemma_list_push(s12, removed);
    lemma_list_push(s13, ListEvent::Parsed(windows));
}

/// A listing fails exactly with the step that does: stopping, unloading, removing
/// and the clock fail nothing. What is told is in the words of that step, with the
/// file that could not be written; an error that the script reports is kept.
pub proof fn law_listing_fails_with_its_step(state: ListState, event: ListEvent)
    ensures
        ({
            let next = list_next(state, event);
            let told = list_failure_context(next->Failed_0);
            let own = state is Connect || state is ReadName || state is Register
                || state is OpenScripting || state is LoadScript || state is OpenScript
                || state is RunScript || state is ParseReport;
            let lost = event is ScriptError || event is TimedOut || event is ChannelClosed;
            let fails = (own && event is Failed) || (state is WriteScript && event is NotWritten) || (
            state is AwaitCallback && lost);
            &&& next is Failed <==> state is Failed || fails
            &&& state is Failed ==> next == state
            &&& fails && state is Connect ==> told == "failed to connect to session D-Bus"@
            &&& fails && state is ReadName ==> told == "D-Bus connection has no unique name"@
            &&& fails && state is Register ==> told
                == "failed to register KWin callback object on session bus"@
            &&& fails && state is WriteScript ==> told == "failed to write KWin script to "@
                + crate::text::shown(event->NotWritten_0@)
            &&& fails && state is OpenScripting ==> told
                == "failed to create KWin scripting proxy (is KWin running?)"@
            &&& fails && state is LoadScript ==> told == "KWin loadScript failed"@
            &&& fails && state is OpenScript ==> told == "failed to create KWin script proxy"@
            &&& fails && state is RunScript ==> told == "KWin script run() failed"@
            &&& fails && event is TimedOut ==> told == "timed out waiting for KWin script callback"@
            &&& fails && event is ChannelClosed ==> told
                == "KWin callback channel closed unexpectedly"@
            &&& fails && event is ScriptError ==> told == "KWin script reported an error"@
                && next->Failed_0 == ListFailure::Script(event->ScriptError_0)
            &&& fails && state is ParseReport ==> told == "failed to parse KWin window JSON"@
        }),
{
}

/// A listing stands still exactly as long as the answer to its step is out: any
/// other event changes nothing, and neither does one after the end.
pub proof fn law_listing_waits_for_its_answer(state: ListState, event: ListEvent)
    ensures
        ({
            let next = list_next(state, event);
            let over = event is Done || event is Failed;
            &&& state is Connect || state is Register || state is OpenScripting || state is OpenScript
                || state is RunScript || state is StopScript || state is UnloadScript
                || state is RemoveScript ==> (next == state <==> !over)
            &&& state is ReadName ==> (next == state <==> !(event is Name) && !(event is Failed))
            &&& state is WriteScript ==> (next == state <==> !(event is Written) && !(
            event is NotWritten))
            &&& state is ReadClock ==> (next == state <==> !(event is Clock))
            &&& state is LoadScript ==> (next == state <==> !(event is Loaded) && !(event is Failed))
            &&& state is AwaitCallback ==> (next == state <==> !(event is Report) && !(
            event is ScriptError) && !(event is TimedOut) && !(event is ChannelClosed))
            &&& state is ParseReport ==> (next == state <==> !(event is Parsed) && !(event is Failed))
            &&& state is Finished || state is Failed ==> next == state
        }),
{
}

/// Each step addresses what it is for: the callback at its path, KWin by its name,
/// the scripting object, and the object of the loaded script, which is run and
/// stopped. The script is unloaded by the name that it was loaded under, its file
/// is the one that was written, and the report has ten seconds.
pub proof fn law_listing_addresses_kwin(state: ListState, action: ListAction)
    requires
        is_list_action(state, action),
    ensures
        state is Connect <==> action is Connect,
        state is ReadName <==> action is ReadName,
        state is Register <==> (action matches ListAction::Register { object_path } && object_path@
            == "/KWinCallback"@),
        state is WriteScript <==> action is WriteScript,
        action matches ListAction::WriteScript { body } ==> body@ == script_for(
            state->WriteScript_address@,
        ),
        state is ReadClock <==> action is ReadClock,
        state is OpenScripting <==> (action matches ListAction::OpenScripting {
            bus_name,
            object_path,
            interface,
        } && bus_name@ == "org.kde.KWin"@ && object_path@ == "/Scripting"@ && interface@
            == "org.kde.kwin.Scripting"@),
        state matches ListState::LoadScript { path, millis } ==> (action matches
            ListAction::LoadScript { method, file, name } && method@ == "loadScript"@ && file@ == (
        if valid_utf8(path@) {
            decode_utf8(path@)
        } else {
            "/tmp/codex-kwin.js"@
        }) && name@ == "codex-windows-"@ + crate::text::decimal(millis as nat)),
        state matches ListState::OpenScript { script_id, .. } ==> (action matches
            ListAction::OpenScript { bus_name, object_path, interface } && bus_name@
            == "org.kde.KWin"@ && object_path@ == "/Scripting/Script"@
            + crate::text::signed_decimal(script_id as int) && interface@
            == "org.kde.kwin.Script"@),
        state matches ListState::RunScript { script_id, .. } ==> (action matches
            ListAction::RunScript { object_path, method } && object_path@ == "/Scripting/Script"@
            + crate::text::signed_decimal(script_id as int) && method@ == "run"@),
        state is AwaitCallback <==> (action matches ListAction::AwaitCallback { seconds } && seconds
            == 10),
        state matches ListState::StopScript { script_id, .. } ==> (action matches
            ListAction::StopScript { object_path, method } && object_path@ == "/Scripting/Script"@
            + crate::text::signed_decimal(script_id as int) && method@ == "stop"@),
        state matches ListState::UnloadScript { millis, .. } ==> (action matches
            ListAction::UnloadScript { method, name } && method@ == "unloadScript"@ && name@
            == "codex-windows-"@ + crate::text::decimal(millis as nat)),
        state matches ListState::RemoveScript { path, .. } ==> (action matches
            ListAction::RemoveScript { path: file } && file@ == path@),
        state matches ListState::ParseReport { report } ==> (action matches
            ListAction::ParseReport { report: text } && text@ == report@),
        state is Finished || state is Failed <==> action is Nothing,
{
}

/// The script differs from one connection to another in the address alone, which
/// stands as the first argument of both calls; what follows it names the callback
/// object, its interface and one of its two methods, for the report and for an
/// error.
pub proof fn law_script_names_the_connection_in_both_calls(address: Seq<char>)
    ensures
        ({
            let open = "            \""@;
            let close = "\",\n"@;
            let target = "        callDBus(\n"@ + (open + address + close) + (open
                + "/KWinCallback"@ + close) + (open + "org.kde.Codex.KWinCallback"@ + close);
            let report = target + (open + "ReceiveWindowList"@ + close) + "            "@
                + "JSON.stringify(out)"@ + "\n        );\n"@;
            let error = target + (open + "ReceiveError"@ + close) + "            "@ + "String(e)"@
                + "\n        );\n"@;
            script_for(address) == SCRIPT_HEAD@ + report + SCRIPT_MIDDLE@ + error + SCRIPT_TAIL@
        }),
{
}

/// The file of the script is named by the process alone, so that processes do not
/// get into each other's way, and is told to KWin as it is where it is UTF-8.
pub proof fn law_script_file_is_named_by_process(a: nat, b: nat, path: Seq<char>)
    ensures
        script_file_name(a) == "codex-kwin-"@ + crate::text::decimal(a) + ".js"@,
        a != b ==> script_file_name(a) != script_file_name(b),
        script_path_for(encode_utf8(path)) == path,
        forall|bytes: Seq<u8>| !valid_utf8(bytes) ==> #[trigger] script_path_for(bytes)
            == "/tmp/codex-kwin.js"@,
{
    if script_file_name(a) == script_file_name(b) {
        let before = "codex-kwin-"@;
        let after = ".js"@;
        let whole = script_file_name(a);
        let end = whole.len() - after.len();
        assert(whole.subrange(before.len() as int, end) =~= crate::text::decimal(a));
        assert(whole.subrange(before.len() as int, end) =~= crate::text::decimal(b));
        crate::text::law_decimal_is_injective(a, b);
    }
    encode_utf8_valid_utf8(path);
    encode_utf8_decode_utf8(path);
}

/// A probe succeeds exactly if all its steps do, and else tells the first that did
/// not, whatever is said of those behind it.
pub proof fn law_probe_tells_the_first_failure(connected: bool, opened: bool, answered: bool)
    ensures
        probe_result(connected, opened, answered) is Ok <==> connected && opened && answered,
        probe_result(true, true, true) == Ok::<Seq<char>, Seq<char>>(
            "KWin scripting is available via org.kde.kwin.Scripting"@,
        ),
        probe_result(false, opened, answered) == Err::<Seq<char>, Seq<char>>(
            "failed to connect to session D-Bus"@,
        ),
        probe_result(true, false, answered) == Err::<Seq<char>, Seq<char>>(
            "failed to create KWin scripting proxy"@,
        ),
        probe_result(true, true, false) == Err::<Seq<char>, Seq<char>>(
            "KWin scripting D-Bus interface not available"@,
        ),
{
}

} // verus!
