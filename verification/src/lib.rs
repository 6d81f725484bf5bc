//! Verified core of the ComfyGit terminal dashboard: what each key and click
//! does in the dashboard and its dialogs, the Project Settings and UI
//! settings panes, changelog range pickers and previews, standard-changelog
//! decisions, background-job bookkeeping, layout arithmetic, and the text and
//! path helpers they rely on.

pub mod text;
pub mod paths;
pub mod layout;
pub mod versions;

pub mod terminal;
pub use terminal::run;

pub mod std_changelog;
pub mod std_changelog_run;
pub mod tag_job;
pub mod jobs;
pub mod job_output;
pub mod repo_files;

pub mod changelog_range;
pub mod changelog_preview;
pub mod preview_keys;

pub mod dialogs;
pub mod dialog_keys;
pub mod release_now_keys;
pub mod key_routing;
pub mod dashboard_state;
pub mod dashboard_delete;
pub mod hit_navigation;
pub mod hit_dismiss;
pub mod help;
pub mod pointer;
pub mod mouse_routing;
pub mod mouse_dispatch;
pub mod screen_press;
pub mod textarea_click;
pub mod git_log;
pub mod git_toast;

pub mod project_settings;
pub mod settings_rows;
pub mod settings_edit;
pub mod settings_inputs;
pub mod settings_keys;
pub mod settings_dispatch;
pub mod browse;
pub mod ui_settings;
pub mod target_keys;
pub mod scope_draft;
