# comfygit

The decision-making core of the ComfyGit terminal dashboard, written in Verus
and verified: public functions state what they return or change in their
`requires`/`ensures`, and the laws that tie functions together are proof
functions named `law_*`. Where a result goes through `std::path::Path`, the
contract states it for paths that every platform reads alike (plain
components separated by `/`) and leaves the rest to the platform.

## Layout

- `src/` — the verified library.
  - Text, paths and layout arithmetic: `text`, `paths`, `layout`, `versions`,
    `textarea_click`, `git_log`.
  - The event loop's decisions: `terminal` (its step function is `run`),
    `key_routing` (with `key_route`, the order in which a key is offered),
    `mouse_routing`, `mouse_dispatch`, `screen_press`, `dialog_keys`, `release_now_keys`, `preview_keys`,
    `pointer`, `help`, `dashboard_state`, `dashboard_delete` (deleting
    projects and scopes, the project editor's decisions), `hit_navigation`,
    `hit_dismiss`.
  - Background work: `jobs` (job ids, staleness, cancellation tokens),
    `job_output` (what a job's output leads to), `git_toast` (the toasts
    that report git commands),
    `std_changelog` and `std_changelog_run` (standard-changelog decisions and
    replay), `tag_job` (the tag job's steps, as a step function), `repo_files` (`.gitignore` entries, release-note
    sections).
  - Changelog ranges and previews: `changelog_range`, `changelog_preview`.
  - Dialogs: `dialogs`, `scope_draft`, `target_keys`.
  - The Project Settings pane: `project_settings`, `settings_rows`,
    `settings_edit`, `settings_inputs`, `settings_keys`, `settings_dispatch`,
    `browse`; the UI settings screen: `ui_settings`.
- `tests/` — tests of the library on concrete values.
- `app/` — the terminal around the library: terminal setup, the event loop
  driving `comfygit::run`, a dashboard host over the repositories named on
  the command line (`app/host.rs`: drawing with ratatui, background jobs on
  worker threads), conversions from crossterm events, the clipboard, and
  writing the files whose contents the library computes.

Trusted items are few and small: `String::push`, and `Path::parent`,
`Path::join`, `Path::file_name`, `Path::extension`, each behind a wrapper
whose doc comment says what its contract claims. Whitespace is the Unicode
`White_Space` set, written out and verified in `text`.
