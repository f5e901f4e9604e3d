//! Writing the overlay's key binding into Hyprland's configuration.
//!
//! The binding lives in a fragment file that this library owns and overwrites.
//! Hyprland's main configuration only gains one line that sources the fragment,
//! and gains it once. The library decides what is written where and in which
//! order; the caller touches the file system and runs `hyprctl`, one action at
//! a time, and reports how each went.

use crate::accelerator::parsed_accelerator;
use crate::bindings::{HotkeyAction, HotkeyBindingsState};
use crate::error::{
    config_home_missing_error, filesystem_error, platform_unsupported_error,
    reload_not_run_error, reload_status_error, unsupported_action_error, FileStep, HotkeyError,
    HotkeyErrorView,
};
use crate::hyprland_keys::{accelerator_bind_line, hyprland_bind_line_for_accelerator};
use crate::platform::HotkeyPlatformInfo;
use crate::text::{contains, contains_text, ends_with_char, occurs_at, starts_with, text_of};
use vstd::prelude::*;
use vstd::string::StringExecFns;

verus! {

/// Name of the fragment file inside Hyprland's configuration directory.
pub const HYPRLAND_BIND_FILE_NAME: &'static str = "overlay-core-hotkeys.conf";

/// Name of Hyprland's main configuration file inside that directory.
pub const HYPRLAND_MAIN_CONFIG_NAME: &'static str = "hyprland.conf";

/// The relative path `name` below the directory `base`: a separator stands
/// between the two unless `base` is empty or already ends with one.
pub open spec fn joined_path(base: Seq<char>, name: Seq<char>) -> Seq<char> {
    if base.len() == 0 || base.last() == '/' {
        base + name
    } else {
        base + "/"@ + name
    }
}

/// Hyprland's configuration directory: `hypr` below `XDG_CONFIG_HOME` where
/// that is set, else `.config/hypr` below `HOME`, else none.
pub open spec fn config_dir(
    xdg_config_home: Option<Seq<char>>,
    home: Option<Seq<char>>,
) -> Option<Seq<char>> {
    match xdg_config_home {
        Some(base) => Some(joined_path(base, "hypr"@)),
        None => match home {
            Some(base) => Some(joined_path(base, ".config/hypr"@)),
            None => None,
        },
    }
}

/// What the fragment file holds for `bind_line`: a comment, then the line.
pub open spec fn fragment_text(bind_line: Seq<char>) -> Seq<char> {
    "# Managed by overlay-core. Update from app settings.\n"@ + bind_line + "\n"@
}

/// The line of the main configuration that sources the fragment file.
pub open spec fn source_directive(bind_file_path: Seq<char>) -> Seq<char> {
    "source = "@ + bind_file_path
}

/// The main configuration once it sources the fragment: `content` itself where
/// `source_line` already occurs in it, else `content`, closed by a newline if
/// it lacks one, followed by a blank line, a comment and `source_line`.
pub open spec fn merged_main_config(content: Seq<char>, source_line: Seq<char>) -> Seq<char> {
    if contains_text(content, source_line) {
        content
    } else {
        let closed = if content.len() > 0 && content.last() != '\n' {
            content + "\n"@
        } else {
            content
        };
        closed + "\n# Added by overlay-core for hotkeys.\n"@ + source_line + "\n"@
    }
}

/// Merging is idempotent: the merged configuration holds the source line, so
/// merging it again changes nothing and the line is never written twice.
pub proof fn lemma_merge_is_idempotent(content: Seq<char>, source_line: Seq<char>)
    ensures
        contains_text(merged_main_config(content, source_line), source_line),
        merged_main_config(merged_main_config(content, source_line), source_line)
            == merged_main_config(content, source_line),
{
    if !contains_text(content, source_line) {
        let closed = if content.len() > 0 && content.last() != '\n' {
            content + "\n"@
        } else {
            content
        };
        let lead = closed + "\n# Added by overlay-core for hotkeys.\n"@;
        let merged = merged_main_config(content, source_line);
        assert(merged.subrange(lead.len() as int, (lead.len() + source_line.len()) as int)
            =~= source_line);
        assert(occurs_at(merged, source_line, lead.len() as int));
    }
}

/// Merging only appends: what the main configuration held stays in front,
/// untouched, whoever else wrote it.
pub proof fn lemma_merge_only_appends(content: Seq<char>, source_line: Seq<char>)
    ensures
        starts_with(merged_main_config(content, source_line), content),
{
    let merged = merged_main_config(content, source_line);
    assert(merged.subrange(0, content.len() as int) =~= content);
}

fn join_path(base: &str, name: &str) -> (r: String)
    ensures
        r@ == joined_path(base@, name@),
{
    let mut path = String::from_str(base);
    if !base.is_empty() && !ends_with_char(base, '/') {
        path.append("/");
    }
    path.append(name);
    path
}

/// Hyprland's configuration directory for a session whose environment holds
/// the given `XDG_CONFIG_HOME` and `HOME`.
pub fn hyprland_config_dir(xdg_config_home: Option<&str>, home: Option<&str>) -> (r: Result<
    String,
    HotkeyError,
>)
    ensures
        match config_dir(text_of(xdg_config_home), text_of(home)) {
            Some(dir) => r matches Ok(path) && path@ == dir,
            None => r matches Err(e) && e@ == config_home_missing_error(),
        },
{
    match xdg_config_home {
        Some(base) => Ok(join_path(base, "hypr")),
        None => match home {
            Some(base) => Ok(join_path(base, ".config/hypr")),
            None => Err(HotkeyError::config_home_missing()),
        },
    }
}

/// Path of the fragment file that holds the overlay's binding.
pub fn hyprland_bind_file_path(xdg_config_home: Option<&str>, home: Option<&str>) -> (r: Result<
    String,
    HotkeyError,
>)
    ensures
        match config_dir(text_of(xdg_config_home), text_of(home)) {
            Some(dir) => r matches Ok(path) && path@ == joined_path(dir, HYPRLAND_BIND_FILE_NAME@),
            None => r matches Err(e) && e@ == config_home_missing_error(),
        },
{
    match hyprland_config_dir(xdg_config_home, home) {
        Ok(dir) => Ok(join_path(dir.as_str(), HYPRLAND_BIND_FILE_NAME)),
        Err(e) => Err(e),
    }
}

/// Path of Hyprland's main configuration file.
pub fn hyprland_main_config_path(xdg_config_home: Option<&str>, home: Option<&str>) -> (r: Result<
    String,
    HotkeyError,
>)
    ensures
        match config_dir(text_of(xdg_config_home), text_of(home)) {
            Some(dir) => r matches Ok(path) && path@ == joined_path(dir, HYPRLAND_MAIN_CONFIG_NAME@),
            None => r matches Err(e) && e@ == config_home_missing_error(),
        },
{
    match hyprland_config_dir(xdg_config_home, home) {
        Ok(dir) => Ok(join_path(dir.as_str(), HYPRLAND_MAIN_CONFIG_NAME)),
        Err(e) => Err(e),
    }
}

/// The content of the fragment file for `bind_line`.
pub fn render_fragment(bind_line: &str) -> (r: String)
    ensures
        r@ == fragment_text(bind_line@),
{
    let mut content = String::from_str("# Managed by overlay-core. Update from app settings.\n");
    content.append(bind_line);
    content.append("\n");
    content
}

/// The line that sources the fragment file at `bind_file_path`.
pub fn render_source_line(bind_file_path: &str) -> (r: String)
    ensures
        r@ == source_directive(bind_file_path@),
{
    let mut line = String::from_str("source = ");
    line.append(bind_file_path);
    line
}

/// The new content of the main configuration, or `None` where `content`
/// already holds `source_line` and must not be touched.
pub fn merge_main_config(content: &str, source_line: &str) -> (r: Option<String>)
    ensures
        match r {
            Some(merged) => !contains_text(content@, source_line@) && merged@
                == merged_main_config(content@, source_line@),
            None => contains_text(content@, source_line@),
        },
{
    if contains(content, source_line) {
        return None;
    }
    let mut merged = String::from_str(content);
    if !content.is_empty() && !ends_with_char(content, '\n') {
        merged.append("\n");
    }
    merged.append("\n# Added by overlay-core for hotkeys.\n");
    merged.append(source_line);
    merged.append("\n");
    Some(merged)
}

/// What a completed apply wrote, for the caller to show or record.
#[derive(Debug, PartialEq, Eq)]
pub struct HyprlandHotkeyApplyResult {
    pub bind_file_path: String,
    pub main_config_path: String,
    pub source_line: String,
    pub bind_line: String,
}

/// Mathematical model of a [`HyprlandHotkeyApplyResult`].
pub struct HyprlandHotkeyApplyResultView {
    pub bind_file_path: Seq<char>,
    pub main_config_path: Seq<char>,
    pub source_line: Seq<char>,
    pub bind_line: Seq<char>,
}

impl View for HyprlandHotkeyApplyResult {
    type V = HyprlandHotkeyApplyResultView;

    open spec fn view(&self) -> HyprlandHotkeyApplyResultView {
        HyprlandHotkeyApplyResultView {
            bind_file_path: self.bind_file_path@,
            main_config_path: self.main_config_path@,
            source_line: self.source_line@,
            bind_line: self.bind_line@,
        }
    }
}

impl Clone for HyprlandHotkeyApplyResult {
    fn clone(&self) -> (r: Self)
        ensures
            r@ == self@,
    {
        HyprlandHotkeyApplyResult {
            bind_file_path: self.bind_file_path.clone(),
            main_config_path: self.main_config_path.clone(),
            source_line: self.source_line.clone(),
            bind_line: self.bind_line.clone(),
        }
    }
}

/// The model of the result that ends an apply.
pub open spec fn outcome_view(outcome: Result<HyprlandHotkeyApplyResult, HotkeyError>) -> Result<
    HyprlandHotkeyApplyResultView,
    HotkeyErrorView,
> {
    match outcome {
        Ok(written) => Ok(written@),
        Err(error) => Err(error@),
    }
}

/// What the caller must do next on behalf of an apply.
#[derive(Debug, PartialEq, Eq)]
pub enum ApplyAction {
    /// Create the directory `path` and every missing parent of it.
    CreateConfigDir { path: String },
    /// Replace whatever the fragment file at `path` holds by `content`.
    WriteBindFile { path: String, content: String },
    /// Read the main configuration at `path`, or find that it does not exist.
    ReadMainConfig { path: String },
    /// Replace whatever the main configuration at `path` holds by `content`.
    WriteMainConfig { path: String, content: String },
    /// Run `hyprctl reload`.
    Reload,
    /// Nothing: the apply has ended with `result`.
    Finished { result: Result<HyprlandHotkeyApplyResult, HotkeyError> },
}

/// Mathematical model of an [`ApplyAction`].
pub enum ApplyActionView {
    CreateConfigDir { path: Seq<char> },
    WriteBindFile { path: Seq<char>, content: Seq<char> },
    ReadMainConfig { path: Seq<char> },
    WriteMainConfig { path: Seq<char>, content: Seq<char> },
    Reload,
    Finished { result: Result<HyprlandHotkeyApplyResultView, HotkeyErrorView> },
}

impl View for ApplyAction {
    type V = ApplyActionView;

    open spec fn view(&self) -> ApplyActionView {
        match *self {
            ApplyAction::CreateConfigDir { path } => ApplyActionView::CreateConfigDir {
                path: path@,
            },
            ApplyAction::WriteBindFile { path, content } => ApplyActionView::WriteBindFile {
                path: path@,
                content: content@,
            },
            ApplyAction::ReadMainConfig { path } => ApplyActionView::ReadMainConfig { path: path@ },
            ApplyAction::WriteMainConfig { path, content } => ApplyActionView::WriteMainConfig {
                path: path@,
                content: content@,
            },
            ApplyAction::Reload => ApplyActionView::Reload,
            ApplyAction::Finished { result } => ApplyActionView::Finished {
                result: outcome_view(result),
            },
        }
    }
}

/// How the action that the caller was asked to perform went.
#[derive(Debug, PartialEq, Eq)]
pub enum ApplyEvent {
    /// The directory exists now, or the file was written.
    Done,
    /// The action failed; `cause` is the text of the underlying error.
    Failed { cause: String },
    /// The file was read and holds `text`.
    Content { text: String },
    /// The file to read does not exist.
    Missing,
    /// The reload command ran. `success` tells whether it exited with status
    /// zero, `status` is the text of its exit status.
    Exited { success: bool, status: String },
}

/// Mathematical model of an [`ApplyEvent`].
pub enum ApplyEventView {
    Done,
    Failed { cause: Seq<char> },
    Content { text: Seq<char> },
    Missing,
    Exited { success: bool, status: Seq<char> },
}

impl View for ApplyEvent {
    type V = ApplyEventView;

    open spec fn view(&self) -> ApplyEventView {
        match *self {
            ApplyEvent::Done => ApplyEventView::Done,
            ApplyEvent::Failed { cause } => ApplyEventView::Failed { cause: cause@ },
            ApplyEvent::Content { text } => ApplyEventView::Content { text: text@ },
            ApplyEvent::Missing => ApplyEventView::Missing,
            ApplyEvent::Exited { success, status } => ApplyEventView::Exited {
                success,
                status: status@,
            },
        }
    }
}

/// One apply of a bind line to Hyprland's configuration, from the first
/// action to its result.
pub struct ApplySession {
    config_dir: String,
    bind_file_path: String,
    main_config_path: String,
    source_line: String,
    bind_line: String,
    pending: ApplyAction,
}

/// Mathematical model of an [`ApplySession`]: the files it works on, the two
/// lines it writes and the action it waits for.
pub struct ApplySessionView {
    pub config_dir: Seq<char>,
    pub bind_file_path: Seq<char>,
    pub main_config_path: Seq<char>,
    pub source_line: Seq<char>,
    pub bind_line: Seq<char>,
    pub pending: ApplyActionView,
}

impl ApplySessionView {
    /// The same apply, now waiting for `action`.
    pub open spec fn wait_for(self, action: ApplyActionView) -> ApplySessionView {
        ApplySessionView { pending: action, ..self }
    }

    /// The same apply, ended by `error`.
    pub open spec fn fail(self, error: HotkeyErrorView) -> ApplySessionView {
        self.wait_for(ApplyActionView::Finished { result: Err(error) })
    }

    /// The record that a successful apply hands back.
    pub open spec fn confirmation(self) -> HyprlandHotkeyApplyResultView {
        HyprlandHotkeyApplyResultView {
            bind_file_path: self.bind_file_path,
            main_config_path: self.main_config_path,
            source_line: self.source_line,
            bind_line: self.bind_line,
        }
    }

    /// The apply once the main configuration is known to hold `content`: it
    /// is left alone if it sources the fragment already, else rewritten.
    pub open spec fn after_reading(self, content: Seq<char>) -> ApplySessionView {
        if contains_text(content, self.source_line) {
            self.wait_for(ApplyActionView::Reload)
        } else {
            self.wait_for(
                ApplyActionView::WriteMainConfig {
                    path: self.main_config_path,
                    content: merged_main_config(content, self.source_line),
                },
            )
        }
    }
}

/// An apply that ended with `error` before it asked for anything.
pub open spec fn refused_apply(bind_line: Seq<char>, error: HotkeyErrorView) -> ApplySessionView {
    ApplySessionView {
        config_dir: Seq::empty(),
        bind_file_path: Seq::empty(),
        main_config_path: Seq::empty(),
        source_line: Seq::empty(),
        bind_line,
        pending: ApplyActionView::Finished { result: Err(error) },
    }
}

/// The apply of `bind_line` before anything was done: it asks for the
/// configuration directory, or has failed already where the environment names
/// no place for it.
pub open spec fn apply_start(
    bind_line: Seq<char>,
    xdg_config_home: Option<Seq<char>>,
    home: Option<Seq<char>>,
) -> ApplySessionView {
    match config_dir(xdg_config_home, home) {
        Some(dir) => {
            let bind_file_path = joined_path(dir, HYPRLAND_BIND_FILE_NAME@);
            ApplySessionView {
                config_dir: dir,
                bind_file_path,
                main_config_path: joined_path(dir, HYPRLAND_MAIN_CONFIG_NAME@),
                source_line: source_directive(bind_file_path),
                bind_line,
                pending: ApplyActionView::CreateConfigDir { path: dir },
            }
        },
        None => refused_apply(bind_line, config_home_missing_error()),
    }
}

/// The apply of the accelerator that `action` is bound to, before anything
/// was done. It is refused where Hyprland cannot be configured from the
/// session, where the registry does not know the action, and where the
/// accelerator has no bind line; else it is the apply of that line.
pub open spec fn binding_apply_start(
    bindings: Map<HotkeyAction, Seq<char>>,
    action: HotkeyAction,
    platform: HotkeyPlatformInfo,
    exe_path: Option<Seq<char>>,
    xdg_config_home: Option<Seq<char>>,
    home: Option<Seq<char>>,
) -> ApplySessionView {
    if !platform.can_auto_configure_hyprland {
        refused_apply(Seq::empty(), platform_unsupported_error(platform.is_linux))
    } else if !bindings.contains_key(action) {
        refused_apply(Seq::empty(), unsupported_action_error(action))
    } else {
        match accelerator_bind_line(
            bindings[action],
            parsed_accelerator(bindings[action]),
            exe_path,
        ) {
            Ok(bind_line) => apply_start(bind_line, xdg_config_home, home),
            Err(error) => refused_apply(Seq::empty(), error),
        }
    }
}

/// The apply after `event` answered the pending action. The steps follow one
/// another in a fixed order: directory, fragment file, main configuration,
/// reload. A failure ends the apply at once and undoes nothing. An event that
/// does not answer the pending action changes nothing.
pub open spec fn apply_step(session: ApplySessionView, event: ApplyEventView) -> ApplySessionView {
    match session.pending {
        ApplyActionView::CreateConfigDir { .. } => match event {
            ApplyEventView::Done => session.wait_for(
                ApplyActionView::WriteBindFile {
                    path: session.bind_file_path,
                    content: fragment_text(session.bind_line),
                },
            ),
            ApplyEventView::Failed { cause } => session.fail(
                filesystem_error(FileStep::CreateConfigDir, session.config_dir, cause),
            ),
            _ => session,
        },
        ApplyActionView::WriteBindFile { .. } => match event {
            ApplyEventView::Done => session.wait_for(
                ApplyActionView::ReadMainConfig { path: session.main_config_path },
            ),
            ApplyEventView::Failed { cause } => session.fail(
                filesystem_error(FileStep::WriteBindFile, session.bind_file_path, cause),
            ),
            _ => session,
        },
        ApplyActionView::ReadMainConfig { .. } => match event {
            ApplyEventView::Content { text } => session.after_reading(text),
            ApplyEventView::Missing => session.after_reading(Seq::empty()),
            ApplyEventView::Failed { cause } => session.fail(
                filesystem_error(FileStep::ReadMainConfig, session.main_config_path, cause),
            ),
            _ => session,
        },
        ApplyActionView::WriteMainConfig { .. } => match event {
            ApplyEventView::Done => session.wait_for(ApplyActionView::Reload),
            ApplyEventView::Failed { cause } => session.fail(
                filesystem_error(FileStep::WriteMainConfig, session.main_config_path, cause),
            ),
            _ => session,
        },
        ApplyActionView::Reload => match event {
            ApplyEventView::Exited { success, status } => if success {
                session.wait_for(ApplyActionView::Finished { result: Ok(session.confirmation()) })
            } else {
                session.fail(reload_status_error(status))
            },
            ApplyEventView::Failed { cause } => session.fail(reload_not_run_error(cause)),
            _ => session,
        },
        ApplyActionView::Finished { .. } => session,
    }
}

/// A second apply repeats the first and adds nothing. Two applies of one bind
/// line to the same files ask for the same fragment content. And once an
/// apply has left `merged_main_config(content, ..)` in the main
/// configuration, the next apply that reads it back goes on to the reload
/// without writing the file, so the source line never stands there twice.
pub proof fn lemma_second_apply_changes_nothing(
    first: ApplySessionView,
    second: ApplySessionView,
    content: Seq<char>,
)
    requires
        first.pending is CreateConfigDir,
        second.pending is CreateConfigDir,
        first.bind_line == second.bind_line,
        first.bind_file_path == second.bind_file_path,
        first.source_line == second.source_line,
    ensures
        apply_step(first, ApplyEventView::Done).pending == apply_step(
            second,
            ApplyEventView::Done,
        ).pending,
        apply_step(first, ApplyEventView::Done).pending == (ApplyActionView::WriteBindFile {
            path: first.bind_file_path,
            content: fragment_text(first.bind_line),
        }),
        second.after_reading(merged_main_config(content, first.source_line)).pending
            == ApplyActionView::Reload,
{
    lemma_merge_is_idempotent(content, first.source_line);
}

impl ApplySessionView {
    /// The files of the apply lie where the configuration directory puts
    /// them, and the source line names the fragment file.
    pub open spec fn is_planned(self) -> bool {
        &&& self.bind_file_path == joined_path(self.config_dir, HYPRLAND_BIND_FILE_NAME@)
        &&& self.main_config_path == joined_path(self.config_dir, HYPRLAND_MAIN_CONFIG_NAME@)
        &&& self.source_line == source_directive(self.bind_file_path)
    }

    /// The pending action is one that the plan allows: the directory is the
    /// configuration directory, the fragment file gets the comment and the
    /// bind line and nothing else, the main configuration is read and written
    /// at its own path and written only to add the missing source line, and
    /// a success hands back the plan's own paths and lines.
    pub open spec fn asks_by_plan(self) -> bool {
        match self.pending {
            ApplyActionView::CreateConfigDir { path } => path == self.config_dir,
            ApplyActionView::WriteBindFile { path, content } => path == self.bind_file_path
                && content == fragment_text(self.bind_line),
            ApplyActionView::ReadMainConfig { path } => path == self.main_config_path,
            ApplyActionView::WriteMainConfig { path, content } => path == self.main_config_path
                && exists|read: Seq<char>|
                    !contains_text(read, self.source_line) && content == #[trigger] merged_main_config(
                        read,
                        self.source_line,
                    ),
            ApplyActionView::Reload => true,
            ApplyActionView::Finished { result } => result matches Ok(written) ==> written
                == self.confirmation(),
        }
    }

    /// The invariant of an apply: it was refused before it began, or it has
    /// a plan and asks by it.
    pub open spec fn well_formed(self) -> bool {
        ||| self.pending matches ApplyActionView::Finished { result: Err(_) }
        ||| self.is_planned() && self.asks_by_plan()
    }
}

/// Every apply is well formed when it begins and stays so, whatever events
/// it is told of.
pub proof fn lemma_apply_stays_well_formed(
    bind_line: Seq<char>,
    xdg_config_home: Option<Seq<char>>,
    home: Option<Seq<char>>,
    session: ApplySessionView,
    event: ApplyEventView,
)
    ensures
        apply_start(bind_line, xdg_config_home, home).well_formed(),
        session.well_formed() ==> apply_step(session, event).well_formed(),
{
    let next = apply_step(session, event);
    if session.is_planned() && session.asks_by_plan() {
        assert(next.is_planned());
        match session.pending {
            ApplyActionView::ReadMainConfig { .. } => {
                if next.pending is WriteMainConfig {
                    let read = match event {
                        ApplyEventView::Content { text } => text,
                        _ => Seq::<char>::empty(),
                    };
                    assert(!contains_text(read, session.source_line));
                    assert(next.pending->WriteMainConfig_content == merged_main_config(
                        read,
                        session.source_line,
                    ));
                }
                assert(next.well_formed());
            },
            _ => {
                assert(next.well_formed());
            },
        }
    }
}

/// `event` is an answer to the action `pending`.
pub open spec fn answers(pending: ApplyActionView, event: ApplyEventView) -> bool {
    match pending {
        ApplyActionView::CreateConfigDir { .. }
        | ApplyActionView::WriteBindFile { .. }
        | ApplyActionView::WriteMainConfig { .. } => event is Done || event is Failed,
        ApplyActionView::ReadMainConfig { .. } => event is Content || event is Missing
            || event is Failed,
        ApplyActionView::Reload => event is Exited || event is Failed,
        ApplyActionView::Finished { .. } => true,
    }
}

/// An apply is over after five answers at most: one for each of the
/// directory, the fragment file, the read and the write of the main
/// configuration, and the reload.
pub proof fn lemma_apply_ends_within_five_answers(
    bind_line: Seq<char>,
    xdg_config_home: Option<Seq<char>>,
    home: Option<Seq<char>>,
    events: Seq<ApplyEventView>,
)
    requires
        events.len() == 5,
        ({
            let begun = apply_start(bind_line, xdg_config_home, home);
            let one = apply_step(begun, events[0]);
            let two = apply_step(one, events[1]);
            let three = apply_step(two, events[2]);
            let four = apply_step(three, events[3]);
            &&& answers(begun.pending, events[0])
            &&& answers(one.pending, events[1])
            &&& answers(two.pending, events[2])
            &&& answers(three.pending, events[3])
            &&& answers(four.pending, events[4])
        }),
    ensures
        ({
            let begun = apply_start(bind_line, xdg_config_home, home);
            let one = apply_step(begun, events[0]);
            let two = apply_step(one, events[1]);
            let three = apply_step(two, events[2]);
            let four = apply_step(three, events[3]);
            apply_step(four, events[4]).pending is Finished
        }),
{
}

impl View for ApplySession {
    type V = ApplySessionView;

    closed spec fn view(&self) -> ApplySessionView {
        ApplySessionView {
            config_dir: self.config_dir@,
            bind_file_path: self.bind_file_path@,
            main_config_path: self.main_config_path@,
            source_line: self.source_line@,
            bind_line: self.bind_line@,
            pending: self.pending@,
        }
    }
}

fn refuse(bind_line: String, error: HotkeyError) -> (r: ApplySession)
    ensures
        r@ == refused_apply(bind_line@, error@),
{
    ApplySession {
        config_dir: String::new(),
        bind_file_path: String::new(),
        main_config_path: String::new(),
        source_line: String::new(),
        bind_line,
        pending: ApplyAction::Finished { result: Err(error) },
    }
}

/// Begins to apply `bind_line` for a session whose environment holds the given
/// `XDG_CONFIG_HOME` and `HOME`.
pub fn write_hyprland_bind_config(
    bind_line: &str,
    xdg_config_home: Option<&str>,
    home: Option<&str>,
) -> (r: ApplySession)
    ensures
        r@ == apply_start(bind_line@, text_of(xdg_config_home), text_of(home)),
{
    match hyprland_config_dir(xdg_config_home, home) {
        Ok(config_dir) => {
            let bind_file_path = join_path(config_dir.as_str(), HYPRLAND_BIND_FILE_NAME);
            let main_config_path = join_path(config_dir.as_str(), HYPRLAND_MAIN_CONFIG_NAME);
            let source_line = render_source_line(bind_file_path.as_str());
            let pending = ApplyAction::CreateConfigDir { path: config_dir.clone() };
            ApplySession {
                config_dir,
                bind_file_path,
                main_config_path,
                source_line,
                bind_line: String::from_str(bind_line),
                pending,
            }
        },
        Err(error) => refuse(String::from_str(bind_line), error),
    }
}

/// Begins to apply the accelerator that `action` is bound to in `hotkeys`.
/// `platform` tells what the session is capable of, `exe_path` is the path of
/// the running executable where it is known, and `xdg_config_home` and `home`
/// are what the environment holds under those names.
pub fn apply_hyprland_hotkey_binding(
    hotkeys: &HotkeyBindingsState,
    action: HotkeyAction,
    platform: HotkeyPlatformInfo,
    exe_path: Option<&str>,
    xdg_config_home: Option<&str>,
    home: Option<&str>,
) -> (r: ApplySession)
    ensures
        r@ == binding_apply_start(
            hotkeys@,
            action,
            platform,
            text_of(exe_path),
            text_of(xdg_config_home),
            text_of(home),
        ),
{
    if !platform.can_auto_configure_hyprland {
        return refuse(String::new(), HotkeyError::platform_unsupported(platform.is_linux));
    }
    let accelerator = match hotkeys.get(action) {
        Some(accelerator) => accelerator,
        None => {
            return refuse(String::new(), HotkeyError::unsupported_action(action));
        },
    };
    match hyprland_bind_line_for_accelerator(accelerator.as_str(), exe_path) {
        Ok(bind_line) => write_hyprland_bind_config(bind_line.as_str(), xdg_config_home, home),
        Err(error) => refuse(String::new(), error),
    }
}

impl ApplySession {
    /// The action that the caller must perform now.
    pub fn pending(&self) -> (r: &ApplyAction)
        ensures
            r@ == self@.pending,
    {
        &self.pending
    }

    /// Whether the apply has ended.
    pub fn is_finished(&self) -> (r: bool)
        ensures
            r == (self@.pending is Finished),
    {
        match &self.pending {
            ApplyAction::Finished { .. } => true,
            _ => false,
        }
    }

    fn after_reading(&self, content: &str) -> (r: ApplyAction)
        ensures
            r@ == self@.after_reading(content@).pending,
    {
        match merge_main_config(content, self.source_line.as_str()) {
            Some(merged) => ApplyAction::WriteMainConfig {
                path: self.main_config_path.clone(),
                content: merged,
            },
            None => ApplyAction::Reload,
        }
    }

    fn failed(&self, step: FileStep, path: &str, cause: &str) -> (r: ApplyAction)
        ensures
            r@ == self@.fail(filesystem_error(step, path@, cause@)).pending,
    {
        ApplyAction::Finished { result: Err(HotkeyError::filesystem(step, path, cause)) }
    }

    /// Takes note of how the pending action went and moves on to the next.
    pub fn advance(&mut self, event: ApplyEvent)
        ensures
            final(self)@ == apply_step(old(self)@, event@),
    {
        let next: Option<ApplyAction> = match &self.pending {
            ApplyAction::CreateConfigDir { .. } => match &event {
                ApplyEvent::Done => Some(
                    ApplyAction::WriteBindFile {
                        path: self.bind_file_path.clone(),
                        content: render_fragment(self.bind_line.as_str()),
                    },
                ),
                ApplyEvent::Failed { cause } => Some(
                    self.failed(
                        FileStep::CreateConfigDir,
                        self.config_dir.as_str(),
                        cause.as_str(),
                    ),
                ),
                _ => None,
            },
            ApplyAction::WriteBindFile { .. } => match &event {
                ApplyEvent::Done => Some(
                    ApplyAction::ReadMainConfig { path: self.main_config_path.clone() },
                ),
                ApplyEvent::Failed { cause } => Some(
                    self.failed(
                        FileStep::WriteBindFile,
                        self.bind_file_path.as_str(),
                        cause.as_str(),
                    ),
                ),
                _ => None,
            },
            ApplyAction::ReadMainConfig { .. } => match &event {
                ApplyEvent::Content { text } => Some(self.after_reading(text.as_str())),
                ApplyEvent::Missing => {
                    proof {
                        reveal_strlit("");
                    }
                    assert(""@ =~= Seq::<char>::empty());
                    Some(self.after_reading(""))
                },
                ApplyEvent::Failed { cause } => Some(
                    self.failed(
                        FileStep::ReadMainConfig,
                        self.main_config_path.as_str(),
                        cause.as_str(),
                    ),
                ),
                _ => None,
            },
            ApplyAction::WriteMainConfig { .. } => match &event {
                ApplyEvent::Done => Some(ApplyAction::Reload),
                ApplyEvent::Failed { cause } => Some(
                    self.failed(
                        FileStep::WriteMainConfig,
                        self.main_config_path.as_str(),
                        cause.as_str(),
                    ),
                ),
                _ => None,
            },
            ApplyAction::Reload => match &event {
                ApplyEvent::Exited { success, status } => if *success {
                    Some(
                        ApplyAction::Finished {
                            result: Ok(
                                HyprlandHotkeyApplyResult {
                                    bind_file_path: self.bind_file_path.clone(),
                                    main_config_path: self.main_config_path.clone(),
                                    source_line: self.source_line.clone(),
                                    bind_line: self.bind_line.clone(),
                                },
                            ),
                        },
                    )
                } else {
                    Some(
                        ApplyAction::Finished {
                            result: Err(HotkeyError::reload_status(status.as_str())),
                        },
                    )
                },
                ApplyEvent::Failed { cause } => Some(
                    ApplyAction::Finished {
                        result: Err(HotkeyError::reload_not_run(cause.as_str())),
                    },
                ),
                _ => None,
            },
            ApplyAction::Finished { .. } => None,
        };
        match next {
            Some(action) => {
                self.pending = action;
            },
            None => {},
        }
    }
}

} // verus!
