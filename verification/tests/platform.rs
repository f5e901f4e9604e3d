use overlay_core::cli::{args_request_overlay_toggle, TOGGLE_OVERLAY_CLI_ARG};
use overlay_core::platform::{
    resolve_hotkey_platform_info, should_warn_about_wayland_hotkeys,
    wayland_hotkey_fallback_hint, HotkeyPlatformInfo, SessionProbe,
};

fn linux(wayland: bool, x11: bool, hyprland: bool, hyprctl: bool) -> SessionProbe {
    SessionProbe {
        is_linux: true,
        wayland_display: wayland,
        x11_display: x11,
        hyprland_signature: hyprland,
        hyprctl_responds: hyprctl,
    }
}

fn args(list: &[&str]) -> Vec<String> {
    list.iter().map(|arg| arg.to_string()).collect()
}

#[test]
fn x11_session_without_hyprland() {
    let info = resolve_hotkey_platform_info(linux(false, true, false, false));
    assert_eq!(
        info,
        HotkeyPlatformInfo {
            is_linux: true,
            is_wayland: false,
            is_hyprland: false,
            supports_native_global_shortcuts: true,
            can_auto_configure_hyprland: false,
        }
    );
}

#[test]
fn hyprctl_alone_does_not_make_a_hyprland_session() {
    let info = resolve_hotkey_platform_info(linux(false, true, false, true));
    assert!(info.supports_native_global_shortcuts);
    assert!(!info.can_auto_configure_hyprland);
    assert!(!info.is_hyprland);
}

#[test]
fn hyprland_session_with_hyprctl_can_be_configured() {
    let info = resolve_hotkey_platform_info(linux(true, false, true, true));
    assert_eq!(
        info,
        HotkeyPlatformInfo {
            is_linux: true,
            is_wayland: true,
            is_hyprland: true,
            supports_native_global_shortcuts: false,
            can_auto_configure_hyprland: true,
        }
    );
}

#[test]
fn hyprland_session_without_hyprctl_cannot_be_configured() {
    let info = resolve_hotkey_platform_info(linux(true, true, true, false));
    assert!(info.is_hyprland);
    assert!(info.is_wayland);
    assert!(info.supports_native_global_shortcuts);
    assert!(!info.can_auto_configure_hyprland);
}

#[test]
fn a_session_without_any_display_has_no_native_shortcuts() {
    let info = resolve_hotkey_platform_info(linux(false, false, false, false));
    assert!(!info.supports_native_global_shortcuts);
    assert!(!info.can_auto_configure_hyprland);
}

#[test]
fn other_systems_rely_on_native_shortcuts() {
    for probe in [
        SessionProbe {
            is_linux: false,
            wayland_display: false,
            x11_display: false,
            hyprland_signature: false,
            hyprctl_responds: false,
        },
        SessionProbe {
            is_linux: false,
            wayland_display: true,
            x11_display: true,
            hyprland_signature: true,
            hyprctl_responds: true,
        },
    ] {
        assert_eq!(
            resolve_hotkey_platform_info(probe),
            HotkeyPlatformInfo {
                is_linux: false,
                is_wayland: false,
                is_hyprland: false,
                supports_native_global_shortcuts: true,
                can_auto_configure_hyprland: false,
            }
        );
    }
}

#[test]
fn pure_wayland_gets_the_hint() {
    assert!(should_warn_about_wayland_hotkeys(linux(true, false, true, true)));
    assert!(!should_warn_about_wayland_hotkeys(linux(true, true, true, true)));
    assert!(!should_warn_about_wayland_hotkeys(linux(false, true, false, false)));
    assert!(!should_warn_about_wayland_hotkeys(linux(false, false, false, false)));
    let mut elsewhere = linux(true, false, false, false);
    elsewhere.is_linux = false;
    assert!(!should_warn_about_wayland_hotkeys(elsewhere));
}

#[test]
fn the_hint_names_the_way_out() {
    assert_eq!(
        wayland_hotkey_fallback_hint(linux(true, false, false, false)),
        Some(
            "global shortcuts use the Linux X11 backend and may not fire on pure Wayland sessions; use Settings -> Hotkeys -> Apply to Hyprland, or set a compositor hotkey to run `overlay-core --toggle-overlay`.".to_string()
        )
    );
    assert_eq!(wayland_hotkey_fallback_hint(linux(true, true, false, false)), None);
}

#[test]
fn toggle_argument_is_found_anywhere() {
    assert_eq!(TOGGLE_OVERLAY_CLI_ARG, "--toggle-overlay");
    assert!(args_request_overlay_toggle(&args(&["overlay-core", "--toggle-overlay"])));
    assert!(args_request_overlay_toggle(&args(&["--toggle-overlay", "--verbose"])));
    assert!(args_request_overlay_toggle(&args(&["a", "b", "c", "--toggle-overlay"])));
}

#[test]
fn toggle_argument_must_match_exactly() {
    assert!(!args_request_overlay_toggle(&args(&[])));
    assert!(!args_request_overlay_toggle(&args(&["overlay-core"])));
    assert!(!args_request_overlay_toggle(&args(&["--toggle-overlay=1", "-toggle-overlay"])));
    assert!(!args_request_overlay_toggle(&args(&["--toggle-overlay ", "--TOGGLE-OVERLAY", ""])));
}
