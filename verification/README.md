# tuimux

A full-screen terminal dashboard for tmux: browse sessions and their windows, preview
them, create, rename, close and attach to them, and save the session layout to a file
to create it again later.

## Layout

- `src/` is the library, verified with Verus. It holds everything the dashboard
  decides and computes:
  - `text` — character-level string operations (trimming, splitting, searching,
    decimal numbers) with their specifications;
  - `tmux::parse` — reading what tmux prints (window lines, the listing of all
    windows, session names, pane ids, captured text);
  - `tmux::command` — the tmux invocations and how their exit status and output read;
  - `app::state` — the session tree, the expanded sessions, the filter and the
    selection, with the invariant that every operation keeps;
  - `app`, `app::input`, `app::restore` — the decisions taken on keys and on what
    tmux answers, each returning the work left to do as an `Effect`; a restore of
    saved sessions is a state machine driven one step at a time;
  - `app::backup` — the saved form of the sessions;
  - `ui` — the text of each panel.
- `app/` runs the program around the library: the terminal, the event loop, the
  tmux processes, the preview worker thread and the JSON file of saved sessions.
- `tests/` exercises the library on concrete values.

## Notes

- The expanded sessions are kept as a `Vec<String>` read as a set of names
  (`name_set`), not as a `BTreeSet<String>`. vstd specifies `BTreeSet` only for key
  types whose ordering it knows (`obeys_cmp`: integers, tuples, `Option`, references),
  and not for `String`, so no contract about a `BTreeSet<String>` could be proved.
- The keys are those the help panel lists: `c` creates a session, `Enter` cycles the
  windows of the selected session, `Tab` moves the focus, `a` attaches.
