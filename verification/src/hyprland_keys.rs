//! From an accelerator to the line that binds it in Hyprland.

use crate::accelerator::{
    parse_accelerator, parsed_accelerator, ModifierSet, ParsedShortcut, ParsedShortcutView,
};
use crate::cli::TOGGLE_OVERLAY_CLI_ARG;
use crate::error::{
    not_convertible_error, unsupported_key_error, HotkeyError, HotkeyErrorView,
};
use crate::text::{
    all_ascii_digits, chars_of, contains_char, digits_from, join, joined, spells, starts_with,
    strip_prefix, text_of, texts_of, uppercase, uppercased,
};
use vstd::prelude::*;
use vstd::string::StringExecFns;

verus! {

/// Name of the executable where the running one cannot be told.
pub const DEFAULT_COMMAND: &'static str = "overlay-core";

/// `key` names a function key: `F` followed by digits only.
pub open spec fn is_function_key(key: Seq<char>) -> bool {
    key.len() > 0 && key[0] == 'F' && all_ascii_digits(key.skip(1))
}

/// Hyprland's name for a key that is neither a letter, a digit nor a function
/// key, where it has one.
pub open spec fn named_key_token(key: Seq<char>) -> Option<Seq<char>> {
    if key == "Space"@ {
        Some("SPACE"@)
    } else if key == "Tab"@ {
        Some("TAB"@)
    } else if key == "Enter"@ {
        Some("RETURN"@)
    } else if key == "Escape"@ {
        Some("ESCAPE"@)
    } else if key == "Backspace"@ {
        Some("BACKSPACE"@)
    } else if key == "Delete"@ {
        Some("DELETE"@)
    } else if key == "Home"@ {
        Some("HOME"@)
    } else if key == "End"@ {
        Some("END"@)
    } else if key == "PageUp"@ {
        Some("PAGEUP"@)
    } else if key == "PageDown"@ {
        Some("PAGEDOWN"@)
    } else if key == "Insert"@ {
        Some("INSERT"@)
    } else if key == "ArrowUp"@ {
        Some("UP"@)
    } else if key == "ArrowDown"@ {
        Some("DOWN"@)
    } else if key == "ArrowLeft"@ {
        Some("LEFT"@)
    } else if key == "ArrowRight"@ {
        Some("RIGHT"@)
    } else if key == "Minus"@ {
        Some("MINUS"@)
    } else if key == "Equal"@ {
        Some("EQUAL"@)
    } else if key == "Comma"@ {
        Some("COMMA"@)
    } else if key == "Period"@ {
        Some("PERIOD"@)
    } else if key == "Slash"@ {
        Some("SLASH"@)
    } else if key == "Semicolon"@ {
        Some("SEMICOLON"@)
    } else if key == "Quote"@ {
        Some("APOSTROPHE"@)
    } else if key == "Backquote"@ {
        Some("GRAVE"@)
    } else if key == "Backslash"@ {
        Some("BACKSLASH"@)
    } else if key == "BracketLeft"@ {
        Some("LEFTBRACKET"@)
    } else if key == "BracketRight"@ {
        Some("RIGHTBRACKET"@)
    } else {
        None
    }
}

/// Hyprland's name for the key that the W3C calls `key`, where it has one.
/// A letter key gives its letter in upper case, a digit key its digit, a
/// function key its own name in upper case; every other key goes by
/// [`named_key_token`].
pub open spec fn hyprland_key_token(key: Seq<char>) -> Option<Seq<char>> {
    if starts_with(key, "Key"@) {
        Some(uppercased(key.skip("Key"@.len() as int)))
    } else if starts_with(key, "Digit"@) {
        Some(key.skip("Digit"@.len() as int))
    } else if is_function_key(key) {
        Some(uppercased(key))
    } else {
        named_key_token(key)
    }
}

/// A key of the table goes by the table: none of its entries is taken for a
/// letter, a digit or a function key before the table is consulted. Together
/// with [`hyprland_key_token`] being a function of the key's name, every key
/// that the table accepts has one token, the same at every call.
pub proof fn lemma_named_keys_go_by_the_table(key: Seq<char>)
    requires
        named_key_token(key) is Some,
    ensures
        hyprland_key_token(key) == named_key_token(key),
{
    reveal_strlit("Key");
    reveal_strlit("Digit");
    reveal_strlit("Space");
    reveal_strlit("Tab");
    reveal_strlit("Enter");
    reveal_strlit("Escape");
    reveal_strlit("Backspace");
    reveal_strlit("Delete");
    reveal_strlit("Home");
    reveal_strlit("End");
    reveal_strlit("PageUp");
    reveal_strlit("PageDown");
    reveal_strlit("Insert");
    reveal_strlit("ArrowUp");
    reveal_strlit("ArrowDown");
    reveal_strlit("ArrowLeft");
    reveal_strlit("ArrowRight");
    reveal_strlit("Minus");
    reveal_strlit("Equal");
    reveal_strlit("Comma");
    reveal_strlit("Period");
    reveal_strlit("Slash");
    reveal_strlit("Semicolon");
    reveal_strlit("Quote");
    reveal_strlit("Backquote");
    reveal_strlit("Backslash");
    reveal_strlit("BracketLeft");
    reveal_strlit("BracketRight");
    if starts_with(key, "Key"@) {
        assert(key.subrange(0, 3)[0] == 'K');
    }
    if starts_with(key, "Digit"@) {
        assert(key.subrange(0, 5)[0] == 'D');
        assert(key.subrange(0, 5)[1] == 'i');
    }
}

/// The names of the modifiers in `mods`, in the order in which a bind line
/// lists them: SUPER, SHIFT, CTRL, ALT.
pub open spec fn modifier_names(mods: ModifierSet) -> Seq<Seq<char>> {
    (if mods.super_key {
        seq!["SUPER"@]
    } else {
        Seq::empty()
    }) + (if mods.shift {
        seq!["SHIFT"@]
    } else {
        Seq::empty()
    }) + (if mods.control {
        seq!["CTRL"@]
    } else {
        Seq::empty()
    }) + (if mods.alt {
        seq!["ALT"@]
    } else {
        Seq::empty()
    })
}

/// How a bind line starts the overlay: the path of the running executable,
/// or [`DEFAULT_COMMAND`] where that path is unknown or empty, in double
/// quotes where it holds a space.
pub open spec fn command_prefix(exe_path: Option<Seq<char>>) -> Seq<char> {
    let path = match exe_path {
        Some(path) => if path.len() == 0 {
            DEFAULT_COMMAND@
        } else {
            path
        },
        None => DEFAULT_COMMAND@,
    };
    if path.contains(' ') {
        "\""@ + path + "\""@
    } else {
        path
    }
}

/// The command that a bind line executes.
pub open spec fn toggle_command(prefix: Seq<char>) -> Seq<char> {
    prefix + " "@ + TOGGLE_OVERLAY_CLI_ARG@
}

/// The bind line for `mods` and the key that Hyprland calls `key_token`.
pub open spec fn bind_line_text(
    mods: ModifierSet,
    key_token: Seq<char>,
    command: Seq<char>,
) -> Seq<char> {
    let modifiers = joined(modifier_names(mods), " "@);
    if modifiers.len() == 0 {
        "bind = , "@ + key_token + ", exec, "@ + command
    } else {
        "bind = "@ + modifiers + ", "@ + key_token + ", exec, "@ + command
    }
}

/// The bind line for `shortcut`, or the error that names its key where
/// Hyprland has no name for it.
pub open spec fn shortcut_bind_line(
    shortcut: ParsedShortcutView,
    exe_path: Option<Seq<char>>,
) -> Result<Seq<char>, HotkeyErrorView> {
    match hyprland_key_token(shortcut.key) {
        Some(token) => Ok(
            bind_line_text(shortcut.mods, token, toggle_command(command_prefix(exe_path))),
        ),
        None => Err(unsupported_key_error(shortcut.key)),
    }
}

/// The bind line for `accelerator`, once parsing it has given `parsed`.
pub open spec fn accelerator_bind_line(
    accelerator: Seq<char>,
    parsed: Result<ParsedShortcutView, Seq<char>>,
    exe_path: Option<Seq<char>>,
) -> Result<Seq<char>, HotkeyErrorView> {
    match parsed {
        Ok(shortcut) => shortcut_bind_line(shortcut, exe_path),
        Err(reason) => Err(not_convertible_error(accelerator, reason)),
    }
}

/// Conversion is deterministic: the key token and the bind line depend on
/// the text of the accelerator and on the path of the executable, and on
/// nothing else. Whenever the same text is converted again, the same token
/// and the same line come out, or the same error.
pub proof fn lemma_conversion_is_deterministic(
    first: Seq<char>,
    second: Seq<char>,
    exe_path: Option<Seq<char>>,
)
    requires
        first == second,
    ensures
        accelerator_bind_line(first, parsed_accelerator(first), exe_path) == accelerator_bind_line(
            second,
            parsed_accelerator(second),
            exe_path,
        ),
        parsed_accelerator(first) matches Ok(shortcut) ==> (parsed_accelerator(second) matches Ok(
            again,
        ) && hyprland_key_token(shortcut.key) == hyprland_key_token(again.key)),
{
}

/// The model of a bind line or of the error in its place.
pub open spec fn bind_line_view(line: Result<String, HotkeyError>) -> Result<
    Seq<char>,
    HotkeyErrorView,
> {
    match line {
        Ok(line) => Ok(line@),
        Err(error) => Err(error@),
    }
}

/// How a bind line starts the overlay, given the path of the running
/// executable where it is known.
pub fn hyprland_command_prefix(exe_path: Option<&str>) -> (r: String)
    ensures
        r@ == command_prefix(text_of(exe_path)),
{
    let path: &str = match exe_path {
        Some(path) => if path.is_empty() {
            DEFAULT_COMMAND
        } else {
            path
        },
        None => DEFAULT_COMMAND,
    };
    if contains_char(path, ' ') {
        let mut quoted = String::from_str("\"");
        quoted.append(path);
        quoted.append("\"");
        quoted
    } else {
        String::from_str(path)
    }
}

fn named_key(chars: &Vec<char>) -> (r: Option<&'static str>)
    ensures
        match named_key_token(chars@) {
            Some(token) => r matches Some(name) && name@ == token,
            None => r is None,
        },
{
    if spells(chars, "Space") {
        Some("SPACE")
    } else if spells(chars, "Tab") {
        Some("TAB")
    } else if spells(chars, "Enter") {
        Some("RETURN")
    } else if spells(chars, "Escape") {
        Some("ESCAPE")
    } else if spells(chars, "Backspace") {
        Some("BACKSPACE")
    } else if spells(chars, "Delete") {
        Some("DELETE")
    } else if spells(chars, "Home") {
        Some("HOME")
    } else if spells(chars, "End") {
        Some("END")
    } else if spells(chars, "PageUp") {
        Some("PAGEUP")
    } else if spells(chars, "PageDown") {
        Some("PAGEDOWN")
    } else if spells(chars, "Insert") {
        Some("INSERT")
    } else if spells(chars, "ArrowUp") {
        Some("UP")
    } else if spells(chars, "ArrowDown") {
        Some("DOWN")
    } else if spells(chars, "ArrowLeft") {
        Some("LEFT")
    } else if spells(chars, "ArrowRight") {
        Some("RIGHT")
    } else if spells(chars, "Minus") {
        Some("MINUS")
    } else if spells(chars, "Equal") {
        Some("EQUAL")
    } else if spells(chars, "Comma") {
        Some("COMMA")
    } else if spells(chars, "Period") {
        Some("PERIOD")
    } else if spells(chars, "Slash") {
        Some("SLASH")
    } else if spells(chars, "Semicolon") {
        Some("SEMICOLON")
    } else if spells(chars, "Quote") {
        Some("APOSTROPHE")
    } else if spells(chars, "Backquote") {
        Some("GRAVE")
    } else if spells(chars, "Backslash") {
        Some("BACKSLASH")
    } else if spells(chars, "BracketLeft") {
        Some("LEFTBRACKET")
    } else if spells(chars, "BracketRight") {
        Some("RIGHTBRACKET")
    } else {
        None
    }
}

/// Hyprland's name for the key of `shortcut`, or `None` where the key has no
/// counterpart in Hyprland's vocabulary.
pub fn hyprland_key_name(shortcut: &ParsedShortcut) -> (r: Option<String>)
    ensures
        match hyprland_key_token(shortcut@.key) {
            Some(token) => r matches Some(name) && name@ == token,
            None => r is None,
        },
{
    let key = shortcut.key.as_str();
    if let Some(letter) = strip_prefix(key, "Key") {
        return Some(uppercase(letter));
    }
    if let Some(digit) = strip_prefix(key, "Digit") {
        return Some(String::from_str(digit));
    }
    let chars = chars_of(key);
    if chars.len() > 0 && chars[0] == 'F' && digits_from(&chars, 1) {
        return Some(uppercase(key));
    }
    match named_key(&chars) {
        Some(name) => Some(String::from_str(name)),
        None => None,
    }
}

fn modifier_list(mods: ModifierSet) -> (r: Vec<&'static str>)
    ensures
        texts_of(r@) == modifier_names(mods),
{
    let mut names: Vec<&'static str> = Vec::new();
    if mods.super_key {
        names.push("SUPER");
    }
    if mods.shift {
        names.push("SHIFT");
    }
    if mods.control {
        names.push("CTRL");
    }
    if mods.alt {
        names.push("ALT");
    }
    names
}

/// The line that binds `shortcut` in Hyprland to the command that toggles the
/// overlay. `exe_path` is the path of the running executable where it is
/// known.
pub fn hyprland_bind_line(shortcut: &ParsedShortcut, exe_path: Option<&str>) -> (r: Result<
    String,
    HotkeyError,
>)
    ensures
        bind_line_view(r) == shortcut_bind_line(shortcut@, text_of(exe_path)),
{
    let key = match hyprland_key_name(shortcut) {
        Some(key) => key,
        None => {
            return Err(HotkeyError::unsupported_key(shortcut.key.as_str()));
        },
    };
    let modifiers = join(&modifier_list(shortcut.mods), " ");
    let mut command = hyprland_command_prefix(exe_path);
    command.append(" ");
    command.append(TOGGLE_OVERLAY_CLI_ARG);
    let mut line = if modifiers.as_str().is_empty() {
        String::from_str("bind = , ")
    } else {
        let mut line = String::from_str("bind = ");
        line.append(modifiers.as_str());
        line.append(", ");
        line
    };
    line.append(key.as_str());
    line.append(", exec, ");
    line.append(command.as_str());
    Ok(line)
}

/// The line that binds `accelerator` in Hyprland: the accelerator is parsed,
/// its key renamed and its modifiers listed.
pub fn hyprland_bind_line_for_accelerator(accelerator: &str, exe_path: Option<&str>) -> (r: Result<
    String,
    HotkeyError,
>)
    ensures
        bind_line_view(r) == accelerator_bind_line(
            accelerator@,
            parsed_accelerator(accelerator@),
            text_of(exe_path),
        ),
{
    match parse_accelerator(accelerator) {
        Ok(shortcut) => hyprland_bind_line(&shortcut, exe_path),
        Err(reason) => Err(HotkeyError::not_convertible(accelerator, reason.as_str())),
    }
}

} // verus!
