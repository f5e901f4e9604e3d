//! Which of the hotkey subsystems can work in the current session.

use vstd::prelude::*;
use vstd::string::StringExecFns;

verus! {

/// What the user is told where global shortcuts may stay silent.
pub const WAYLAND_HOTKEY_HINT: &'static str =
    "global shortcuts use the Linux X11 backend and may not fire on pure Wayland sessions; use Settings -> Hotkeys -> Apply to Hyprland, or set a compositor hotkey to run `overlay-core --toggle-overlay`.";

/// What a look at the session found: the operating system, which of the
/// environment's session markers are set, and whether `hyprctl version` ran
/// and exited with status zero.
#[derive(Clone, Copy, Debug, PartialEq, Eq, Hash, Structural)]
pub struct SessionProbe {
    /// The process runs on Linux.
    pub is_linux: bool,
    /// `WAYLAND_DISPLAY` is set.
    pub wayland_display: bool,
    /// `DISPLAY` is set.
    pub x11_display: bool,
    /// `HYPRLAND_INSTANCE_SIGNATURE` is set.
    pub hyprland_signature: bool,
    /// `hyprctl version` succeeded.
    pub hyprctl_responds: bool,
}

/// The capabilities that the user interface shows.
#[derive(Clone, Copy, Debug, PartialEq, Eq, Hash, Structural)]
pub struct HotkeyPlatformInfo {
    pub is_linux: bool,
    pub is_wayland: bool,
    pub is_hyprland: bool,
    pub supports_native_global_shortcuts: bool,
    pub can_auto_configure_hyprland: bool,
}

/// The capabilities of a session. On Linux, global shortcuts go through X11,
/// and Hyprland can be configured where the session is one of Hyprland and
/// `hyprctl` answers. Elsewhere global shortcuts are taken to work and
/// Hyprland is never configured.
pub open spec fn platform_info(probe: SessionProbe) -> HotkeyPlatformInfo {
    if probe.is_linux {
        HotkeyPlatformInfo {
            is_linux: true,
            is_wayland: probe.wayland_display,
            is_hyprland: probe.hyprland_signature,
            supports_native_global_shortcuts: probe.x11_display,
            can_auto_configure_hyprland: probe.hyprland_signature && probe.hyprctl_responds,
        }
    } else {
        HotkeyPlatformInfo {
            is_linux: false,
            is_wayland: false,
            is_hyprland: false,
            supports_native_global_shortcuts: true,
            can_auto_configure_hyprland: false,
        }
    }
}

/// The capabilities of the session that `probe` describes.
pub fn resolve_hotkey_platform_info(probe: SessionProbe) -> (r: HotkeyPlatformInfo)
    ensures
        r == platform_info(probe),
{
    if probe.is_linux {
        HotkeyPlatformInfo {
            is_linux: true,
            is_wayland: probe.wayland_display,
            is_hyprland: probe.hyprland_signature,
            supports_native_global_shortcuts: probe.x11_display,
            can_auto_configure_hyprland: probe.hyprland_signature && probe.hyprctl_responds,
        }
    } else {
        HotkeyPlatformInfo {
            is_linux: false,
            is_wayland: false,
            is_hyprland: false,
            supports_native_global_shortcuts: true,
            can_auto_configure_hyprland: false,
        }
    }
}

/// Whether to tell the user that global shortcuts may stay silent: they do on
/// a Linux session that offers Wayland and no X11 display.
pub fn should_warn_about_wayland_hotkeys(probe: SessionProbe) -> (r: bool)
    ensures
        r == (probe.is_linux && probe.wayland_display && !probe.x11_display),
{
    probe.is_linux && probe.wayland_display && !probe.x11_display
}

/// The hint to log at start-up, where there is reason for one.
pub fn wayland_hotkey_fallback_hint(probe: SessionProbe) -> (r: Option<String>)
    ensures
        match r {
            Some(hint) => probe.is_linux && probe.wayland_display && !probe.x11_display && hint@
                == WAYLAND_HOTKEY_HINT@,
            None => !(probe.is_linux && probe.wayland_display && !probe.x11_display),
        },
{
    if should_warn_about_wayland_hotkeys(probe) {
        Some(String::from_str(WAYLAND_HOTKEY_HINT))
    } else {
        None
    }
}

/// A Linux session on X11, without Wayland and without Hyprland, has global
/// shortcuts of its own and no Hyprland to configure.
pub proof fn lemma_x11_session_capabilities(probe: SessionProbe)
    requires
        probe.is_linux,
        probe.x11_display,
        !probe.wayland_display,
        !probe.hyprland_signature,
    ensures
        platform_info(probe).supports_native_global_shortcuts,
        !platform_info(probe).can_auto_configure_hyprland,
{
}

/// Hyprland is configured only from a Linux session that carries its
/// signature and in which `hyprctl` answers.
pub proof fn lemma_auto_configure_needs_hyprland(probe: SessionProbe)
    ensures
        platform_info(probe).can_auto_configure_hyprland <==> probe.is_linux
            && probe.hyprland_signature && probe.hyprctl_responds,
        !probe.is_linux ==> platform_info(probe).supports_native_global_shortcuts,
{
}

} // verus!
