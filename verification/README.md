# codex_desktop

Two jobs of a desktop companion for Linux, as a library verified with Verus:

- listing the windows of a KWin session (`windows`, `window_id`,
  `window_listing`);
- applying a newer build of the wrapper to the installed application (`apply`,
  `install_type`, `user_local`, `packaged`, `wrapper_source`, `disk_image`,
  `version`, `state`).

Both talk to the world outside at every turn: a bus, git, a package manager. The
library holds the decisions. Each job is a state machine: `*_action` tells the
step that a state waits for, what carries it out reports an event, and `*_step`
gives the next state. `paths` and `text` hold what both need of paths and texts.

The functions named `law_*` state what holds of the library as a whole, such as
that a callback is registered before the script that uses it is loaded, that
nothing is rebuilt without the tools for it (`cargo`, an extractor for disk
images and `node`), and that versions grow with time.

`app/` is the ordinary Rust around it: the bus connection, the processes and the
files.
