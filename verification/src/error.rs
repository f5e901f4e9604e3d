//! Errors that the caller-facing operations report.

use crate::bindings::{action_key, hotkey_action_key, HotkeyAction};
use vstd::prelude::*;
use vstd::string::StringExecFns;

verus! {

/// What went wrong, independent of the wording.
#[derive(Clone, Copy, Debug, PartialEq, Eq, Hash, Structural)]
pub enum HotkeyErrorKind {
    /// The accelerator was empty once surrounding white space was removed.
    EmptyAccelerator,
    /// The accelerator is not a modifier list followed by one key.
    InvalidAccelerator,
    /// The registry does not know the action.
    UnsupportedAction,
    /// The key has no name in Hyprland's vocabulary.
    UnsupportedKey,
    /// Hyprland cannot be configured from this session.
    PlatformUnsupported,
    /// The operating system refused to bind or unbind a shortcut.
    RegistrationFailed,
    /// A directory or file could not be located, created, read or written.
    FilesystemFailed,
    /// Hyprland could not be told to reload its configuration.
    ReloadFailed,
}

/// An error kind with the message to show to the user.
#[derive(Debug, PartialEq, Eq)]
pub struct HotkeyError {
    pub kind: HotkeyErrorKind,
    pub message: String,
}

/// Mathematical model of a [`HotkeyError`].
pub struct HotkeyErrorView {
    pub kind: HotkeyErrorKind,
    pub message: Seq<char>,
}

impl View for HotkeyError {
    type V = HotkeyErrorView;

    open spec fn view(&self) -> HotkeyErrorView {
        HotkeyErrorView { kind: self.kind, message: self.message@ }
    }
}

impl Clone for HotkeyError {
    fn clone(&self) -> (r: Self)
        ensures
            r@ == self@,
    {
        HotkeyError { kind: self.kind, message: self.message.clone() }
    }
}

/// The error for an accelerator that is empty once it is trimmed.
pub open spec fn empty_accelerator_error() -> HotkeyErrorView {
    HotkeyErrorView {
        kind: HotkeyErrorKind::EmptyAccelerator,
        message: "hotkey accelerator cannot be empty"@,
    }
}

/// The error for an accelerator that does not parse; `reason` says why.
pub open spec fn invalid_accelerator_error(
    accelerator: Seq<char>,
    reason: Seq<char>,
) -> HotkeyErrorView {
    HotkeyErrorView {
        kind: HotkeyErrorKind::InvalidAccelerator,
        message: "invalid hotkey accelerator '"@ + accelerator + "': "@ + reason,
    }
}

/// The error for an accelerator that does not parse when it is about to be
/// registered for `action`.
pub open spec fn invalid_for_action_error(
    accelerator: Seq<char>,
    action: HotkeyAction,
    reason: Seq<char>,
) -> HotkeyErrorView {
    HotkeyErrorView {
        kind: HotkeyErrorKind::InvalidAccelerator,
        message: "invalid hotkey accelerator '"@ + accelerator + "' for action '"@ + action_key(
            action,
        ) + "': "@ + reason,
    }
}

/// The error for an accelerator that does not parse when it is converted
/// for Hyprland.
pub open spec fn not_convertible_error(
    accelerator: Seq<char>,
    reason: Seq<char>,
) -> HotkeyErrorView {
    HotkeyErrorView {
        kind: HotkeyErrorKind::InvalidAccelerator,
        message: "cannot convert hotkey '"@ + accelerator + "' to Hyprland format: "@ + reason,
    }
}

/// The error for an action that the registry does not know.
pub open spec fn unsupported_action_error(action: HotkeyAction) -> HotkeyErrorView {
    HotkeyErrorView {
        kind: HotkeyErrorKind::UnsupportedAction,
        message: "unsupported hotkey action '"@ + action_key(action) + "'"@,
    }
}

/// The error for a key that Hyprland's vocabulary has no name for.
pub open spec fn unsupported_key_error(key: Seq<char>) -> HotkeyErrorView {
    HotkeyErrorView {
        kind: HotkeyErrorKind::UnsupportedKey,
        message: "key '"@ + key + "' is not supported by automatic Hyprland mapping yet"@,
    }
}

/// The error for a session in which Hyprland cannot be configured.
pub open spec fn platform_unsupported_error(is_linux: bool) -> HotkeyErrorView {
    HotkeyErrorView {
        kind: HotkeyErrorKind::PlatformUnsupported,
        message: if is_linux {
            "automatic Hyprland apply is available only in active Hyprland sessions"@
        } else {
            "automatic Hyprland apply is supported only on Linux"@
        },
    }
}

/// The error for a shortcut that the operating system did not release.
pub open spec fn unregister_failed_error(
    accelerator: Seq<char>,
    cause: Seq<char>,
) -> HotkeyErrorView {
    HotkeyErrorView {
        kind: HotkeyErrorKind::RegistrationFailed,
        message: "failed to unregister hotkey '"@ + accelerator + "' from the app: "@ + cause,
    }
}

/// The error for a shortcut that the operating system did not accept.
pub open spec fn register_failed_error(
    accelerator: Seq<char>,
    action: HotkeyAction,
    cause: Seq<char>,
) -> HotkeyErrorView {
    HotkeyErrorView {
        kind: HotkeyErrorKind::RegistrationFailed,
        message: "failed to register hotkey '"@ + accelerator + "' for action '"@ + action_key(
            action,
        ) + "': "@ + cause,
    }
}

/// The error for a session that names no place for configuration files.
pub open spec fn config_home_missing_error() -> HotkeyErrorView {
    HotkeyErrorView {
        kind: HotkeyErrorKind::FilesystemFailed,
        message: "failed to locate HOME/XDG_CONFIG_HOME for Hyprland config"@,
    }
}

/// A step of writing the Hyprland configuration that touches the file system.
#[derive(Clone, Copy, Debug, PartialEq, Eq, Hash, Structural)]
pub enum FileStep {
    CreateConfigDir,
    WriteBindFile,
    ReadMainConfig,
    WriteMainConfig,
}

/// How the message for a failure of `step` begins.
pub open spec fn file_step_failure(step: FileStep) -> Seq<char> {
    match step {
        FileStep::CreateConfigDir => "failed to create Hyprland config directory '"@,
        FileStep::WriteBindFile => "failed to write Hyprland bind file '"@,
        FileStep::ReadMainConfig => "failed to read Hyprland main config '"@,
        FileStep::WriteMainConfig => "failed to write Hyprland main config '"@,
    }
}

/// The error for a failure of `step` on `path`.
pub open spec fn filesystem_error(
    step: FileStep,
    path: Seq<char>,
    cause: Seq<char>,
) -> HotkeyErrorView {
    HotkeyErrorView {
        kind: HotkeyErrorKind::FilesystemFailed,
        message: file_step_failure(step) + path + "': "@ + cause,
    }
}

/// The error for a reload command that could not be started.
pub open spec fn reload_not_run_error(cause: Seq<char>) -> HotkeyErrorView {
    HotkeyErrorView {
        kind: HotkeyErrorKind::ReloadFailed,
        message: "failed to run 'hyprctl reload': "@ + cause,
    }
}

/// The error for a reload command that ran and reported failure.
pub open spec fn reload_status_error(status: Seq<char>) -> HotkeyErrorView {
    HotkeyErrorView {
        kind: HotkeyErrorKind::ReloadFailed,
        message: "'hyprctl reload' failed with status "@ + status,
    }
}

impl HotkeyError {
    /// The accelerator was empty once it was trimmed.
    pub fn empty_accelerator() -> (r: Self)
        ensures
            r@ == empty_accelerator_error(),
    {
        HotkeyError {
            kind: HotkeyErrorKind::EmptyAccelerator,
            message: String::from_str("hotkey accelerator cannot be empty"),
        }
    }

    /// `accelerator` does not parse, for the given `reason`.
    pub fn invalid_accelerator(accelerator: &str, reason: &str) -> (r: Self)
        ensures
            r@ == invalid_accelerator_error(accelerator@, reason@),
    {
        let mut message = String::from_str("invalid hotkey accelerator '");
        message.append(accelerator);
        message.append("': ");
        message.append(reason);
        HotkeyError { kind: HotkeyErrorKind::InvalidAccelerator, message }
    }

    /// `accelerator` does not parse when it is about to be registered for
    /// `action`.
    pub fn invalid_for_action(accelerator: &str, action: HotkeyAction, reason: &str) -> (r: Self)
        ensures
            r@ == invalid_for_action_error(accelerator@, action, reason@),
    {
        let mut message = String::from_str("invalid hotkey accelerator '");
        message.append(accelerator);
        message.append("' for action '");
        message.append(hotkey_action_key(action));
        message.append("': ");
        message.append(reason);
        HotkeyError { kind: HotkeyErrorKind::InvalidAccelerator, message }
    }

    /// `accelerator` does not parse when it is converted for Hyprland.
    pub fn not_convertible(accelerator: &str, reason: &str) -> (r: Self)
        ensures
            r@ == not_convertible_error(accelerator@, reason@),
    {
        let mut message = String::from_str("cannot convert hotkey '");
        message.append(accelerator);
        message.append("' to Hyprland format: ");
        message.append(reason);
        HotkeyError { kind: HotkeyErrorKind::InvalidAccelerator, message }
    }

    /// The registry does not know `action`.
    pub fn unsupported_action(action: HotkeyAction) -> (r: Self)
        ensures
            r@ == unsupported_action_error(action),
    {
        let mut message = String::from_str("unsupported hotkey action '");
        message.append(hotkey_action_key(action));
        message.append("'");
        HotkeyError { kind: HotkeyErrorKind::UnsupportedAction, message }
    }

    /// Hyprland's vocabulary has no name for `key`.
    pub fn unsupported_key(key: &str) -> (r: Self)
        ensures
            r@ == unsupported_key_error(key@),
    {
        let mut message = String::from_str("key '");
        message.append(key);
        message.append("' is not supported by automatic Hyprland mapping yet");
        HotkeyError { kind: HotkeyErrorKind::UnsupportedKey, message }
    }

    /// Hyprland cannot be configured from this session.
    pub fn platform_unsupported(is_linux: bool) -> (r: Self)
        ensures
            r@ == platform_unsupported_error(is_linux),
    {
        let message = if is_linux {
            String::from_str(
                "automatic Hyprland apply is available only in active Hyprland sessions",
            )
        } else {
            String::from_str("automatic Hyprland apply is supported only on Linux")
        };
        HotkeyError { kind: HotkeyErrorKind::PlatformUnsupported, message }
    }

    /// The operating system did not release `accelerator`.
    pub fn unregister_failed(accelerator: &str, cause: &str) -> (r: Self)
        ensures
            r@ == unregister_failed_error(accelerator@, cause@),
    {
        let mut message = String::from_str("failed to unregister hotkey '");
        message.append(accelerator);
        message.append("' from the app: ");
        message.append(cause);
        HotkeyError { kind: HotkeyErrorKind::RegistrationFailed, message }
    }

    /// The operating system did not accept `accelerator` for `action`.
    pub fn register_failed(accelerator: &str, action: HotkeyAction, cause: &str) -> (r: Self)
        ensures
            r@ == register_failed_error(accelerator@, action, cause@),
    {
        let mut message = String::from_str("failed to register hotkey '");
        message.append(accelerator);
        message.append("' for action '");
        message.append(hotkey_action_key(action));
        message.append("': ");
        message.append(cause);
        HotkeyError { kind: HotkeyErrorKind::RegistrationFailed, message }
    }

    /// The session names no place for configuration files.
    pub fn config_home_missing() -> (r: Self)
        ensures
            r@ == config_home_missing_error(),
    {
        HotkeyError {
            kind: HotkeyErrorKind::FilesystemFailed,
            message: String::from_str("failed to locate HOME/XDG_CONFIG_HOME for Hyprland config"),
        }
    }

    /// `step` failed on `path` for the given `cause`.
    pub fn filesystem(step: FileStep, path: &str, cause: &str) -> (r: Self)
        ensures
            r@ == filesystem_error(step, path@, cause@),
    {
        let mut message = match step {
            FileStep::CreateConfigDir => String::from_str(
                "failed to create Hyprland config directory '",
            ),
            FileStep::WriteBindFile => String::from_str("failed to write Hyprland bind file '"),
            FileStep::ReadMainConfig => String::from_str("failed to read Hyprland main config '"),
            FileStep::WriteMainConfig => String::from_str(
                "failed to write Hyprland main config '",
            ),
        };
        message.append(path);
        message.append("': ");
        message.append(cause);
        HotkeyError { kind: HotkeyErrorKind::FilesystemFailed, message }
    }

    /// The reload command could not be started.
    pub fn reload_not_run(cause: &str) -> (r: Self)
        ensures
            r@ == reload_not_run_error(cause@),
    {
        let mut message = String::from_str("failed to run 'hyprctl reload': ");
        message.append(cause);
        HotkeyError { kind: HotkeyErrorKind::ReloadFailed, message }
    }

    /// The reload command ran and reported failure with `status`.
    pub fn reload_status(status: &str) -> (r: Self)
        ensures
            r@ == reload_status_error(status@),
    {
        let mut message = String::from_str("'hyprctl reload' failed with status ");
        message.append(status);
        HotkeyError { kind: HotkeyErrorKind::ReloadFailed, message }
    }
}

} // verus!
