use overlay_core::bindings::{HotkeyAction, HotkeyBindingsState};
use overlay_core::error::{HotkeyError, HotkeyErrorKind};
use overlay_core::hyprland_config::{
    apply_hyprland_hotkey_binding, hyprland_bind_file_path, hyprland_config_dir,
    hyprland_main_config_path, merge_main_config, render_fragment, render_source_line,
    write_hyprland_bind_config, ApplyAction, ApplyEvent, ApplySession,
    HyprlandHotkeyApplyResult, HYPRLAND_BIND_FILE_NAME, HYPRLAND_MAIN_CONFIG_NAME,
};
use overlay_core::platform::{resolve_hotkey_platform_info, HotkeyPlatformInfo, SessionProbe};
use std::collections::HashMap;

const TOGGLE: HotkeyAction = HotkeyAction::ToggleOverlayVisibility;
const LINE: &str = "bind = SHIFT CTRL, SPACE, exec, overlay-core --toggle-overlay";
const DIR: &str = "/home/ada/.config/hypr";
const BIND_FILE: &str = "/home/ada/.config/hypr/overlay-core-hotkeys.conf";
const MAIN_FILE: &str = "/home/ada/.config/hypr/hyprland.conf";
const SOURCE: &str = "source = /home/ada/.config/hypr/overlay-core-hotkeys.conf";
const FRAGMENT: &str =
    "# Managed by overlay-core. Update from app settings.\nbind = SHIFT CTRL, SPACE, exec, overlay-core --toggle-overlay\n";

fn hyprland_session() -> HotkeyPlatformInfo {
    resolve_hotkey_platform_info(SessionProbe {
        is_linux: true,
        wayland_display: true,
        x11_display: false,
        hyprland_signature: true,
        hyprctl_responds: true,
    })
}

fn begin() -> ApplySession {
    write_hyprland_bind_config(LINE, None, Some("/home/ada"))
}

fn failed(kind: HotkeyErrorKind, message: &str) -> ApplyAction {
    ApplyAction::Finished { result: Err(HotkeyError { kind, message: message.to_string() }) }
}

fn exited(success: bool, status: &str) -> ApplyEvent {
    ApplyEvent::Exited { success, status: status.to_string() }
}

/// Plays an apply against files kept in memory and returns its result and
/// the number of writes it asked for.
fn play(
    mut session: ApplySession,
    files: &mut HashMap<String, String>,
) -> (Result<HyprlandHotkeyApplyResult, HotkeyError>, usize) {
    let mut writes = 0;
    for _ in 0..16 {
        let event = match session.pending() {
            ApplyAction::CreateConfigDir { .. } => ApplyEvent::Done,
            ApplyAction::WriteBindFile { path, content }
            | ApplyAction::WriteMainConfig { path, content } => {
                files.insert(path.clone(), content.clone());
                writes += 1;
                ApplyEvent::Done
            }
            ApplyAction::ReadMainConfig { path } => match files.get(path) {
                Some(text) => ApplyEvent::Content { text: text.clone() },
                None => ApplyEvent::Missing,
            },
            ApplyAction::Reload => exited(true, "exit status: 0"),
            ApplyAction::Finished { result } => return (result.clone(), writes),
        };
        session.advance(event);
    }
    panic!("the apply did not end");
}

#[test]
fn config_dir_prefers_xdg_config_home() {
    assert_eq!(hyprland_config_dir(Some("/xdg"), Some("/home/ada")), Ok("/xdg/hypr".to_string()));
    assert_eq!(hyprland_config_dir(Some("/xdg"), None), Ok("/xdg/hypr".to_string()));
}

#[test]
fn config_dir_falls_back_to_home() {
    assert_eq!(hyprland_config_dir(None, Some("/home/ada")), Ok(DIR.to_string()));
}

#[test]
fn config_dir_needs_one_of_the_two() {
    let error = hyprland_config_dir(None, None).unwrap_err();
    assert_eq!(error.kind, HotkeyErrorKind::FilesystemFailed);
    assert_eq!(error.message, "failed to locate HOME/XDG_CONFIG_HOME for Hyprland config");
    assert_eq!(hyprland_bind_file_path(None, None), Err(error.clone()));
    assert_eq!(hyprland_main_config_path(None, None), Err(error));
}

#[test]
fn paths_are_joined_with_one_separator() {
    assert_eq!(hyprland_config_dir(Some("/xdg/"), None), Ok("/xdg/hypr".to_string()));
    assert_eq!(hyprland_config_dir(Some(""), Some("/home/ada")), Ok("hypr".to_string()));
    assert_eq!(hyprland_config_dir(None, Some("/")), Ok("/.config/hypr".to_string()));
    assert_eq!(hyprland_config_dir(None, Some("")), Ok(".config/hypr".to_string()));
    assert_eq!(hyprland_config_dir(Some("relative/dir"), None), Ok("relative/dir/hypr".to_string()));
}

#[test]
fn file_paths_lie_in_the_config_dir() {
    assert_eq!(HYPRLAND_BIND_FILE_NAME, "overlay-core-hotkeys.conf");
    assert_eq!(HYPRLAND_MAIN_CONFIG_NAME, "hyprland.conf");
    assert_eq!(hyprland_bind_file_path(None, Some("/home/ada")), Ok(BIND_FILE.to_string()));
    assert_eq!(hyprland_main_config_path(None, Some("/home/ada")), Ok(MAIN_FILE.to_string()));
    assert_eq!(
        hyprland_bind_file_path(Some("/xdg"), Some("/home/ada")),
        Ok("/xdg/hypr/overlay-core-hotkeys.conf".to_string())
    );
    assert_eq!(
        hyprland_main_config_path(Some("/xdg"), None),
        Ok("/xdg/hypr/hyprland.conf".to_string())
    );
}

#[test]
fn fragment_is_a_comment_and_the_bind_line() {
    assert_eq!(render_fragment(LINE), FRAGMENT);
    assert_eq!(render_fragment(""), "# Managed by overlay-core. Update from app settings.\n\n");
}

#[test]
fn source_line_names_the_fragment() {
    assert_eq!(render_source_line(BIND_FILE), SOURCE);
}

#[test]
fn merge_into_an_empty_config() {
    assert_eq!(
        merge_main_config("", SOURCE),
        Some(format!("\n# Added by overlay-core for hotkeys.\n{SOURCE}\n"))
    );
}

#[test]
fn merge_closes_an_open_last_line() {
    assert_eq!(
        merge_main_config("monitor = ,preferred,auto,1", SOURCE),
        Some(format!(
            "monitor = ,preferred,auto,1\n\n# Added by overlay-core for hotkeys.\n{SOURCE}\n"
        ))
    );
}

#[test]
fn merge_after_a_closed_last_line() {
    assert_eq!(
        merge_main_config("monitor = ,preferred,auto,1\n", SOURCE),
        Some(format!(
            "monitor = ,preferred,auto,1\n\n# Added by overlay-core for hotkeys.\n{SOURCE}\n"
        ))
    );
}

#[test]
fn merge_leaves_a_config_that_sources_the_fragment() {
    assert_eq!(merge_main_config(SOURCE, SOURCE), None);
    assert_eq!(merge_main_config(&format!("a\n{SOURCE}\nb\n"), SOURCE), None);
    assert_eq!(merge_main_config(&format!("# {SOURCE}.bak"), SOURCE), None);
    assert_eq!(merge_main_config("anything", ""), None);
}

#[test]
fn merge_twice_is_merge_once() {
    for content in ["", "a", "a\n", "source = /elsewhere\n", "source = /home/ada/.config/hypr/overlay"] {
        let once = merge_main_config(content, SOURCE).unwrap();
        assert_eq!(merge_main_config(&once, SOURCE), None);
        assert_eq!(once.matches(SOURCE).count(), 1);
    }
}

#[test]
fn apply_walks_through_its_steps() {
    let mut session = begin();
    assert!(!session.is_finished());
    assert_eq!(*session.pending(), ApplyAction::CreateConfigDir { path: DIR.to_string() });
    session.advance(ApplyEvent::Done);
    assert_eq!(
        *session.pending(),
        ApplyAction::WriteBindFile { path: BIND_FILE.to_string(), content: FRAGMENT.to_string() }
    );
    session.advance(ApplyEvent::Done);
    assert_eq!(*session.pending(), ApplyAction::ReadMainConfig { path: MAIN_FILE.to_string() });
    session.advance(ApplyEvent::Content { text: "general {\n}".to_string() });
    assert_eq!(
        *session.pending(),
        ApplyAction::WriteMainConfig {
            path: MAIN_FILE.to_string(),
            content: format!("general {{\n}}\n\n# Added by overlay-core for hotkeys.\n{SOURCE}\n"),
        }
    );
    session.advance(ApplyEvent::Done);
    assert_eq!(*session.pending(), ApplyAction::Reload);
    session.advance(exited(true, "exit status: 0"));
    assert!(session.is_finished());
    assert_eq!(
        *session.pending(),
        ApplyAction::Finished {
            result: Ok(HyprlandHotkeyApplyResult {
                bind_file_path: BIND_FILE.to_string(),
                main_config_path: MAIN_FILE.to_string(),
                source_line: SOURCE.to_string(),
                bind_line: LINE.to_string(),
            }),
        }
    );
}

#[test]
fn a_missing_main_config_counts_as_empty() {
    let mut session = begin();
    session.advance(ApplyEvent::Done);
    session.advance(ApplyEvent::Done);
    session.advance(ApplyEvent::Missing);
    assert_eq!(
        *session.pending(),
        ApplyAction::WriteMainConfig {
            path: MAIN_FILE.to_string(),
            content: format!("\n# Added by overlay-core for hotkeys.\n{SOURCE}\n"),
        }
    );
}

#[test]
fn a_main_config_that_sources_the_fragment_is_not_written() {
    let mut session = begin();
    session.advance(ApplyEvent::Done);
    session.advance(ApplyEvent::Done);
    session.advance(ApplyEvent::Content { text: format!("{SOURCE}\n") });
    assert_eq!(*session.pending(), ApplyAction::Reload);
}

#[test]
fn applying_twice_writes_the_same_fragment_and_one_source_line() {
    let mut files: HashMap<String, String> = HashMap::new();
    files.insert(MAIN_FILE.to_string(), "exec-once = waybar".to_string());
    let (first, first_writes) = play(begin(), &mut files);
    assert!(first.is_ok());
    assert_eq!(first_writes, 2);
    let fragment_after_first = files[BIND_FILE].clone();
    let main_after_first = files[MAIN_FILE].clone();
    assert_eq!(fragment_after_first, FRAGMENT);
    assert_eq!(
        main_after_first,
        format!("exec-once = waybar\n\n# Added by overlay-core for hotkeys.\n{SOURCE}\n")
    );
    let (second, second_writes) = play(begin(), &mut files);
    assert_eq!(second, first);
    assert_eq!(second_writes, 1);
    assert_eq!(files[BIND_FILE], fragment_after_first);
    assert_eq!(files[MAIN_FILE], main_after_first);
    assert_eq!(files[MAIN_FILE].matches("source =").count(), 1);
}

#[test]
fn failure_to_create_the_directory_ends_the_apply() {
    let mut session = begin();
    session.advance(ApplyEvent::Failed { cause: "Permission denied (os error 13)".to_string() });
    assert_eq!(
        *session.pending(),
        failed(
            HotkeyErrorKind::FilesystemFailed,
            "failed to create Hyprland config directory '/home/ada/.config/hypr': Permission denied (os error 13)",
        )
    );
}

#[test]
fn failure_to_write_the_fragment_ends_the_apply() {
    let mut session = begin();
    session.advance(ApplyEvent::Done);
    session.advance(ApplyEvent::Failed { cause: "disk full".to_string() });
    assert_eq!(
        *session.pending(),
        failed(
            HotkeyErrorKind::FilesystemFailed,
            "failed to write Hyprland bind file '/home/ada/.config/hypr/overlay-core-hotkeys.conf': disk full",
        )
    );
}

#[test]
fn failure_to_read_the_main_config_ends_the_apply() {
    let mut session = begin();
    session.advance(ApplyEvent::Done);
    session.advance(ApplyEvent::Done);
    session.advance(ApplyEvent::Failed { cause: "stream did not contain valid UTF-8".to_string() });
    assert_eq!(
        *session.pending(),
        failed(
            HotkeyErrorKind::FilesystemFailed,
            "failed to read Hyprland main config '/home/ada/.config/hypr/hyprland.conf': stream did not contain valid UTF-8",
        )
    );
}

#[test]
fn failure_to_write_the_main_config_ends_the_apply() {
    let mut session = begin();
    session.advance(ApplyEvent::Done);
    session.advance(ApplyEvent::Done);
    session.advance(ApplyEvent::Missing);
    session.advance(ApplyEvent::Failed { cause: "read-only file system".to_string() });
    assert_eq!(
        *session.pending(),
        failed(
            HotkeyErrorKind::FilesystemFailed,
            "failed to write Hyprland main config '/home/ada/.config/hypr/hyprland.conf': read-only file system",
        )
    );
}

#[test]
fn a_reload_that_fails_is_reported_with_its_status() {
    let mut session = begin();
    session.advance(ApplyEvent::Done);
    session.advance(ApplyEvent::Done);
    session.advance(ApplyEvent::Content { text: SOURCE.to_string() });
    session.advance(exited(false, "exit status: 1"));
    assert_eq!(
        *session.pending(),
        failed(HotkeyErrorKind::ReloadFailed, "'hyprctl reload' failed with status exit status: 1")
    );
}

#[test]
fn a_reload_that_cannot_run_is_reported_with_its_cause() {
    let mut session = begin();
    session.advance(ApplyEvent::Done);
    session.advance(ApplyEvent::Done);
    session.advance(ApplyEvent::Content { text: SOURCE.to_string() });
    session.advance(ApplyEvent::Failed { cause: "No such file or directory (os error 2)".to_string() });
    assert_eq!(
        *session.pending(),
        failed(
            HotkeyErrorKind::ReloadFailed,
            "failed to run 'hyprctl reload': No such file or directory (os error 2)",
        )
    );
}

#[test]
fn events_that_answer_nothing_are_ignored() {
    let mut session = begin();
    session.advance(ApplyEvent::Missing);
    session.advance(exited(true, "exit status: 0"));
    session.advance(ApplyEvent::Content { text: String::new() });
    assert_eq!(*session.pending(), ApplyAction::CreateConfigDir { path: DIR.to_string() });
    session.advance(ApplyEvent::Done);
    session.advance(ApplyEvent::Missing);
    assert!(matches!(session.pending(), ApplyAction::WriteBindFile { .. }));
    session.advance(ApplyEvent::Done);
    session.advance(ApplyEvent::Done);
    assert!(matches!(session.pending(), ApplyAction::ReadMainConfig { .. }));
    session.advance(ApplyEvent::Content { text: SOURCE.to_string() });
    session.advance(ApplyEvent::Done);
    assert_eq!(*session.pending(), ApplyAction::Reload);
    session.advance(exited(true, "exit status: 0"));
    session.advance(ApplyEvent::Failed { cause: "late".to_string() });
    assert!(matches!(session.pending(), ApplyAction::Finished { result: Ok(_) }));
}

#[test]
fn apply_without_a_config_home_fails_at_once() {
    let session = write_hyprland_bind_config(LINE, None, None);
    assert!(session.is_finished());
    assert_eq!(
        *session.pending(),
        failed(
            HotkeyErrorKind::FilesystemFailed,
            "failed to locate HOME/XDG_CONFIG_HOME for Hyprland config",
        )
    );
}

#[test]
fn apply_of_the_default_binding_begins_with_the_directory() {
    let hotkeys = HotkeyBindingsState::with_defaults();
    let mut session = apply_hyprland_hotkey_binding(
        &hotkeys,
        TOGGLE,
        hyprland_session(),
        Some("/usr/bin/overlay-core"),
        Some("/xdg"),
        Some("/home/ada"),
    );
    assert_eq!(*session.pending(), ApplyAction::CreateConfigDir { path: "/xdg/hypr".to_string() });
    session.advance(ApplyEvent::Done);
    assert_eq!(
        *session.pending(),
        ApplyAction::WriteBindFile {
            path: "/xdg/hypr/overlay-core-hotkeys.conf".to_string(),
            content: "# Managed by overlay-core. Update from app settings.\nbind = SHIFT CTRL, SPACE, exec, /usr/bin/overlay-core --toggle-overlay\n".to_string(),
        }
    );
}

#[test]
fn apply_outside_hyprland_is_unsupported() {
    let hotkeys = HotkeyBindingsState::with_defaults();
    let x11 = resolve_hotkey_platform_info(SessionProbe {
        is_linux: true,
        wayland_display: false,
        x11_display: true,
        hyprland_signature: false,
        hyprctl_responds: true,
    });
    let session = apply_hyprland_hotkey_binding(&hotkeys, TOGGLE, x11, None, None, Some("/home/ada"));
    assert_eq!(
        *session.pending(),
        failed(
            HotkeyErrorKind::PlatformUnsupported,
            "automatic Hyprland apply is available only in active Hyprland sessions",
        )
    );
}

#[test]
fn apply_off_linux_is_unsupported() {
    let hotkeys = HotkeyBindingsState::with_defaults();
    let elsewhere = resolve_hotkey_platform_info(SessionProbe {
        is_linux: false,
        wayland_display: true,
        x11_display: true,
        hyprland_signature: true,
        hyprctl_responds: true,
    });
    let session =
        apply_hyprland_hotkey_binding(&hotkeys, TOGGLE, elsewhere, None, None, Some("/home/ada"));
    assert_eq!(
        *session.pending(),
        failed(
            HotkeyErrorKind::PlatformUnsupported,
            "automatic Hyprland apply is supported only on Linux",
        )
    );
}

#[test]
fn apply_of_an_unknown_action_is_unsupported() {
    let hotkeys = HotkeyBindingsState::empty();
    let session =
        apply_hyprland_hotkey_binding(&hotkeys, TOGGLE, hyprland_session(), None, None, Some("/h"));
    assert_eq!(
        *session.pending(),
        failed(
            HotkeyErrorKind::UnsupportedAction,
            "unsupported hotkey action 'toggle_overlay_visibility'",
        )
    );
}

#[test]
fn apply_of_a_key_without_counterpart_names_the_key() {
    let mut hotkeys = HotkeyBindingsState::with_defaults();
    hotkeys.set(TOGGLE, "Ctrl+PrintScreen".to_string());
    let session =
        apply_hyprland_hotkey_binding(&hotkeys, TOGGLE, hyprland_session(), None, None, Some("/h"));
    assert_eq!(
        *session.pending(),
        failed(
            HotkeyErrorKind::UnsupportedKey,
            "key 'PrintScreen' is not supported by automatic Hyprland mapping yet",
        )
    );
}

#[test]
fn apply_of_a_binding_that_does_not_parse_fails() {
    let mut hotkeys = HotkeyBindingsState::with_defaults();
    hotkeys.set(TOGGLE, "Ctrl+".to_string());
    let session =
        apply_hyprland_hotkey_binding(&hotkeys, TOGGLE, hyprland_session(), None, None, Some("/h"));
    assert_eq!(
        *session.pending(),
        failed(
            HotkeyErrorKind::InvalidAccelerator,
            "cannot convert hotkey 'Ctrl+' to Hyprland format: Found empty token while parsing hotkey: Ctrl+",
        )
    );
}

#[test]
fn the_platform_is_checked_before_the_registry() {
    let hotkeys = HotkeyBindingsState::empty();
    let no_hyprctl = resolve_hotkey_platform_info(SessionProbe {
        is_linux: true,
        wayland_display: true,
        x11_display: false,
        hyprland_signature: true,
        hyprctl_responds: false,
    });
    let session = apply_hyprland_hotkey_binding(&hotkeys, TOGGLE, no_hyprctl, None, None, None);
    assert!(matches!(
        session.pending(),
        ApplyAction::Finished { result: Err(HotkeyError { kind: HotkeyErrorKind::PlatformUnsupported, .. }) }
    ));
}
