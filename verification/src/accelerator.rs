//! Accelerators: key combinations written as text, such as `Ctrl+Shift+Space`.
//!
//! The grammar is that of the `global-hotkey` crate, which also registers the
//! shortcuts with the operating system. This module asks that crate to parse
//! and keeps what the rest of the library reads: the modifiers and the name of
//! the key.

use crate::error::{invalid_accelerator_error, HotkeyError, HotkeyErrorView};
use global_hotkey::hotkey::{HotKey, Modifiers};
use vstd::prelude::*;

verus! {

/// The modifier keys that a shortcut can ask for.
#[derive(Clone, Copy, Debug, PartialEq, Eq, Hash, Structural)]
pub struct ModifierSet {
    pub super_key: bool,
    pub shift: bool,
    pub control: bool,
    pub alt: bool,
}

/// An accelerator taken apart: its modifiers and the name of its key, as the
/// W3C names key codes (`KeyA`, `Digit1`, `F5`, `Space`).
#[derive(Debug, PartialEq, Eq)]
pub struct ParsedShortcut {
    pub mods: ModifierSet,
    pub key: String,
}

/// Mathematical model of a [`ParsedShortcut`].
pub struct ParsedShortcutView {
    pub mods: ModifierSet,
    pub key: Seq<char>,
}

impl View for ParsedShortcut {
    type V = ParsedShortcutView;

    open spec fn view(&self) -> ParsedShortcutView {
        ParsedShortcutView { mods: self.mods, key: self.key@ }
    }
}

/// What parsing `accelerator` gives: the shortcut, or the reason why the text
/// is no accelerator.
pub uninterp spec fn parsed_accelerator(accelerator: Seq<char>) -> Result<
    ParsedShortcutView,
    Seq<char>,
>;

/// The model of a parse result.
pub open spec fn parse_view(parsed: Result<ParsedShortcut, String>) -> Result<
    ParsedShortcutView,
    Seq<char>,
> {
    match parsed {
        Ok(shortcut) => Ok(shortcut@),
        Err(reason) => Err(reason@),
    }
}

/// Parses `accelerator` with `HotKey::from_str` of the `global-hotkey` crate.
/// A hotkey that comes back is copied field by field: one flag for each of
/// the four modifiers, and the key code under the name that its `Display`
/// gives. An error comes back as its `Display` text.
///
/// Trusted: in one build the outcome depends on the text alone, so it is the
/// value of [`parsed_accelerator`] at that text. Nothing else is claimed.
#[verifier::external_body]
pub(crate) fn parse_accelerator(accelerator: &str) -> (r: Result<ParsedShortcut, String>)
    ensures
        parse_view(r) == parsed_accelerator(accelerator@),
{
    match accelerator.parse::<HotKey>() {
        Ok(hotkey) => Ok(
            ParsedShortcut {
                mods: ModifierSet {
                    super_key: hotkey.mods.contains(Modifiers::SUPER),
                    shift: hotkey.mods.contains(Modifiers::SHIFT),
                    control: hotkey.mods.contains(Modifiers::CONTROL),
                    alt: hotkey.mods.contains(Modifiers::ALT),
                },
                key: hotkey.key.to_string(),
            },
        ),
        Err(error) => Err(error.to_string()),
    }
}

/// What the parser reports for `accelerator`, once parsing it has given
/// `parsed`: the shortcut, or an error that quotes the accelerator and the
/// reason.
pub open spec fn parse_outcome(
    accelerator: Seq<char>,
    parsed: Result<ParsedShortcutView, Seq<char>>,
) -> Result<ParsedShortcutView, HotkeyErrorView> {
    match parsed {
        Ok(shortcut) => Ok(shortcut),
        Err(reason) => Err(invalid_accelerator_error(accelerator, reason)),
    }
}

/// The model of a shortcut or of the error in its place.
pub open spec fn shortcut_view(parsed: Result<ParsedShortcut, HotkeyError>) -> Result<
    ParsedShortcutView,
    HotkeyErrorView,
> {
    match parsed {
        Ok(shortcut) => Ok(shortcut@),
        Err(error) => Err(error@),
    }
}

/// Takes `accelerator` apart into its modifiers and its key. Every text
/// either gives one shortcut, the same at every call, or is refused.
pub fn parse_hotkey_accelerator(accelerator: &str) -> (r: Result<ParsedShortcut, HotkeyError>)
    ensures
        shortcut_view(r) == parse_outcome(accelerator@, parsed_accelerator(accelerator@)),
{
    match parse_accelerator(accelerator) {
        Ok(shortcut) => Ok(shortcut),
        Err(reason) => Err(HotkeyError::invalid_accelerator(accelerator, reason.as_str())),
    }
}

/// What validating `accelerator` gives, once parsing it has given `parsed`.
pub open spec fn validation(
    accelerator: Seq<char>,
    parsed: Result<ParsedShortcutView, Seq<char>>,
) -> Result<(), HotkeyErrorView> {
    match parsed {
        Ok(_) => Ok(()),
        Err(reason) => Err(invalid_accelerator_error(accelerator, reason)),
    }
}

/// The model of a validation result.
pub open spec fn validation_view(checked: Result<(), HotkeyError>) -> Result<
    (),
    HotkeyErrorView,
> {
    match checked {
        Ok(_) => Ok(()),
        Err(error) => Err(error@),
    }
}

/// Accepts `accelerator` if it parses, and says why it does not otherwise.
pub fn validate_hotkey_accelerator(accelerator: &str) -> (r: Result<(), HotkeyError>)
    ensures
        validation_view(r) == validation(accelerator@, parsed_accelerator(accelerator@)),
{
    match parse_hotkey_accelerator(accelerator) {
        Ok(_) => Ok(()),
        Err(error) => Err(error),
    }
}

} // verus!
