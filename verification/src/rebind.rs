//! Rebinding an action to another accelerator, with rollback.
//!
//! The operating system's shortcut service is out of the library's reach. The
//! library decides what is asked of it and in which order, and what the
//! registry holds in the end: the old shortcut is released, the new one is
//! registered, and if that fails the old one is registered again. The caller
//! performs one request at a time and reports how it went.

use crate::accelerator::{
    parse_accelerator, parsed_accelerator, validate_hotkey_accelerator, validation,
    validation_view, ParsedShortcutView,
};
use crate::bindings::{action_key, hotkey_action_key, HotkeyAction, HotkeyBindingsState};
use crate::error::{
    empty_accelerator_error, invalid_accelerator_error, invalid_for_action_error,
    unsupported_action_error, HotkeyError, HotkeyErrorView,
};
use crate::text::{trim, trimmed};
use vstd::prelude::*;
use vstd::string::StringExecFns;

verus! {

/// What the caller must ask of the operating system next.
#[derive(Debug, PartialEq, Eq)]
pub enum RebindAction {
    /// Release the shortcut `accelerator`.
    Unregister { accelerator: String },
    /// Register `accelerator` as the shortcut of `action`.
    Register { action: HotkeyAction, accelerator: String },
    /// Register the previous shortcut `accelerator` of `action` again, because
    /// the new one was refused with `failure`.
    Restore { action: HotkeyAction, accelerator: String, failure: HotkeyError },
    /// Nothing: the rebind has ended with `result`. Where the previous
    /// shortcut could not be restored, `diagnostic` says so for the log.
    Finished { result: Result<(), HotkeyError>, diagnostic: Option<String> },
}

/// Mathematical model of a [`RebindAction`].
pub enum RebindActionView {
    Unregister { accelerator: Seq<char> },
    Register { action: HotkeyAction, accelerator: Seq<char> },
    Restore { action: HotkeyAction, accelerator: Seq<char>, failure: HotkeyErrorView },
    Finished { result: Result<(), HotkeyErrorView>, diagnostic: Option<Seq<char>> },
}

/// The model of an optional text.
pub open spec fn note_view(note: Option<String>) -> Option<Seq<char>> {
    match note {
        Some(note) => Some(note@),
        None => None,
    }
}

impl View for RebindAction {
    type V = RebindActionView;

    open spec fn view(&self) -> RebindActionView {
        match *self {
            RebindAction::Unregister { accelerator } => RebindActionView::Unregister {
                accelerator: accelerator@,
            },
            RebindAction::Register { action, accelerator } => RebindActionView::Register {
                action,
                accelerator: accelerator@,
            },
            RebindAction::Restore { action, accelerator, failure } => RebindActionView::Restore {
                action,
                accelerator: accelerator@,
                failure: failure@,
            },
            RebindAction::Finished { result, diagnostic } => RebindActionView::Finished {
                result: validation_view(result),
                diagnostic: note_view(diagnostic),
            },
        }
    }
}

/// One rebind of an action, from the first request to its result.
pub struct RebindSession {
    action: HotkeyAction,
    current: String,
    requested: String,
    pending: RebindAction,
}

/// Mathematical model of a [`RebindSession`]: the action, the accelerator it
/// was bound to when the rebind began, the accelerator asked for, and the
/// request that the session waits for.
pub struct RebindSessionView {
    pub action: HotkeyAction,
    pub current: Seq<char>,
    pub requested: Seq<char>,
    pub pending: RebindActionView,
}

impl View for RebindSession {
    type V = RebindSessionView;

    closed spec fn view(&self) -> RebindSessionView {
        RebindSessionView {
            action: self.action,
            current: self.current@,
            requested: self.requested@,
            pending: self.pending@,
        }
    }
}

/// What the log is told when the previous shortcut could not be restored.
pub open spec fn rollback_diagnostic(
    current: Seq<char>,
    action: HotkeyAction,
    rollback_error: Seq<char>,
) -> Seq<char> {
    "failed to rollback previous hotkey '"@ + current + "' for action '"@ + action_key(action)
        + "': "@ + rollback_error
}

impl RebindSessionView {
    /// The same rebind, now waiting for `request`.
    pub open spec fn wait_for(self, request: RebindActionView) -> RebindSessionView {
        RebindSessionView { pending: request, ..self }
    }

    /// The same rebind, ended with `result`.
    pub open spec fn finish(
        self,
        result: Result<(), HotkeyErrorView>,
        diagnostic: Option<Seq<char>>,
    ) -> RebindSessionView {
        self.wait_for(RebindActionView::Finished { result, diagnostic })
    }
}

impl RebindSessionView {
    /// The invariant of a rebind: what it asks to release or to restore is
    /// the accelerator that was bound when it began, and what it asks to
    /// register is the accelerator asked for, each for the rebind's action.
    pub open spec fn well_formed(self) -> bool {
        match self.pending {
            RebindActionView::Unregister { accelerator } => accelerator == self.current,
            RebindActionView::Register { action, accelerator } => action == self.action
                && accelerator == self.requested,
            RebindActionView::Restore { action, accelerator, .. } => action == self.action
                && accelerator == self.current,
            RebindActionView::Finished { .. } => true,
        }
    }
}

/// Every rebind is well formed when it begins and stays so, whatever the
/// operating system replies.
pub proof fn lemma_rebind_stays_well_formed(
    bindings: Map<HotkeyAction, Seq<char>>,
    action: HotkeyAction,
    accelerator: Seq<char>,
    session: RebindSessionView,
    reply: Result<(), HotkeyErrorView>,
)
    ensures
        rebind_start(bindings, action, accelerator).well_formed(),
        session.well_formed() ==> rebind_step(session, bindings, reply).0.well_formed(),
{
}

/// A rebind that ended before it asked anything of the operating system.
pub open spec fn settled(
    action: HotkeyAction,
    requested: Seq<char>,
    result: Result<(), HotkeyErrorView>,
) -> RebindSessionView {
    RebindSessionView {
        action,
        current: Seq::empty(),
        requested,
        pending: RebindActionView::Finished { result, diagnostic: None },
    }
}

/// The rebind of `action` to the trimmed, non-empty accelerator `requested`,
/// once its validation has given `validity`: an invalid accelerator and an
/// unknown action end it with their errors, the accelerator that is bound
/// already ends it with success, and any other asks to release the current
/// shortcut.
pub open spec fn rebind_plan(
    bindings: Map<HotkeyAction, Seq<char>>,
    action: HotkeyAction,
    requested: Seq<char>,
    validity: Result<(), HotkeyErrorView>,
) -> RebindSessionView {
    match validity {
        Err(error) => settled(action, requested, Err(error)),
        Ok(_) => if !bindings.contains_key(action) {
            settled(action, requested, Err(unsupported_action_error(action)))
        } else if bindings[action] == requested {
            RebindSessionView {
                action,
                current: bindings[action],
                requested,
                pending: RebindActionView::Finished { result: Ok(()), diagnostic: None },
            }
        } else {
            RebindSessionView {
                action,
                current: bindings[action],
                requested,
                pending: RebindActionView::Unregister { accelerator: bindings[action] },
            }
        },
    }
}

/// The rebind of `action` to `accelerator` before anything was asked of the
/// operating system. The accelerator is trimmed; an empty one ends the rebind
/// at once, any other is validated and goes on by [`rebind_plan`].
pub open spec fn rebind_start(
    bindings: Map<HotkeyAction, Seq<char>>,
    action: HotkeyAction,
    accelerator: Seq<char>,
) -> RebindSessionView {
    let requested = trimmed(accelerator);
    if requested.len() == 0 {
        settled(action, requested, Err(empty_accelerator_error()))
    } else {
        rebind_plan(
            bindings,
            action,
            requested,
            validation(requested, parsed_accelerator(requested)),
        )
    }
}

/// The rebind and the registry after `reply` answered the pending request.
/// Only a successful registration of the new accelerator changes the
/// registry. The error of a failed registration is what the rebind reports,
/// however the attempt to restore the previous shortcut ends.
pub open spec fn rebind_step(
    session: RebindSessionView,
    bindings: Map<HotkeyAction, Seq<char>>,
    reply: Result<(), HotkeyErrorView>,
) -> (RebindSessionView, Map<HotkeyAction, Seq<char>>) {
    match session.pending {
        RebindActionView::Unregister { .. } => match reply {
            Ok(_) => (
                session.wait_for(
                    RebindActionView::Register {
                        action: session.action,
                        accelerator: session.requested,
                    },
                ),
                bindings,
            ),
            Err(error) => (session.finish(Err(error), None), bindings),
        },
        RebindActionView::Register { .. } => match reply {
            Ok(_) => (
                session.finish(Ok(()), None),
                bindings.insert(session.action, session.requested),
            ),
            Err(error) => (
                session.wait_for(
                    RebindActionView::Restore {
                        action: session.action,
                        accelerator: session.current,
                        failure: error,
                    },
                ),
                bindings,
            ),
        },
        RebindActionView::Restore { failure, .. } => match reply {
            Ok(_) => (session.finish(Err(failure), None), bindings),
            Err(error) => (
                session.finish(
                    Err(failure),
                    Some(rollback_diagnostic(session.current, session.action, error.message)),
                ),
                bindings,
            ),
        },
        RebindActionView::Finished { .. } => (session, bindings),
    }
}

/// Rebinding an action to the accelerator that it is bound to already ends
/// with success at once: no request goes to the operating system.
pub proof fn lemma_same_accelerator_is_noop(
    bindings: Map<HotkeyAction, Seq<char>>,
    action: HotkeyAction,
    accelerator: Seq<char>,
)
    requires
        bindings.contains_key(action),
        trimmed(accelerator) == bindings[action],
        trimmed(accelerator).len() > 0,
        parsed_accelerator(trimmed(accelerator)) is Ok,
    ensures
        rebind_start(bindings, action, accelerator).pending == (RebindActionView::Finished {
            result: Ok(()),
            diagnostic: None,
        }),
{
}

/// An accelerator that is empty once trimmed, or that does not parse, ends
/// the rebind with its error at once: no request goes to the operating
/// system. The empty string is such an accelerator.
pub proof fn lemma_rejected_accelerator_asks_nothing(
    bindings: Map<HotkeyAction, Seq<char>>,
    action: HotkeyAction,
    accelerator: Seq<char>,
)
    ensures
        trimmed(accelerator).len() == 0 ==> rebind_start(bindings, action, accelerator).pending
            == (RebindActionView::Finished {
            result: Err(empty_accelerator_error()),
            diagnostic: None,
        }),
        trimmed(accelerator).len() > 0 ==> (parsed_accelerator(trimmed(accelerator))
            matches Err(reason) ==> rebind_start(bindings, action, accelerator).pending
            == (RebindActionView::Finished {
            result: Err(invalid_accelerator_error(trimmed(accelerator), reason)),
            diagnostic: None,
        })),
        trimmed(Seq::<char>::empty()).len() == 0,
{
}

/// Rollback invariant: when the operating system refuses the new
/// accelerator, the registry holds afterwards what it held before and the
/// rebind reports that refusal, whether or not the previous shortcut could be
/// registered again.
pub proof fn lemma_failed_registration_keeps_registry(
    session: RebindSessionView,
    bindings: Map<HotkeyAction, Seq<char>>,
    refusal: HotkeyErrorView,
    rollback_reply: Result<(), HotkeyErrorView>,
)
    requires
        session.pending is Register,
    ensures
        ({
            let (restoring, kept) = rebind_step(session, bindings, Err(refusal));
            let (ended, left) = rebind_step(restoring, kept, rollback_reply);
            &&& restoring.pending == (RebindActionView::Restore {
                action: session.action,
                accelerator: session.current,
                failure: refusal,
            })
            &&& kept == bindings
            &&& left == bindings
            &&& ended.pending matches RebindActionView::Finished { result, .. } && result == Err::<
                (),
                HotkeyErrorView,
            >(refusal)
        }),
{
}

/// The registry changes in one way only: the reply that confirms the
/// registration of the new accelerator binds the action to it. No action
/// ever loses its binding.
pub proof fn lemma_registry_changes_only_on_commit(
    session: RebindSessionView,
    bindings: Map<HotkeyAction, Seq<char>>,
    reply: Result<(), HotkeyErrorView>,
)
    ensures
        rebind_step(session, bindings, reply).1 == if session.pending is Register && reply is Ok {
            bindings.insert(session.action, session.requested)
        } else {
            bindings
        },
        forall|action: HotkeyAction|
            bindings.contains_key(action) ==> #[trigger] rebind_step(
                session,
                bindings,
                reply,
            ).1.contains_key(action),
{
}

/// Only a valid accelerator enters the registry: whatever the operating
/// system replies, a rebind either leaves the registry as it was or binds the
/// action to the trimmed accelerator, and then that accelerator is not empty,
/// parses, and was registered after the previous one was released.
pub proof fn lemma_committed_accelerator_is_valid(
    bindings: Map<HotkeyAction, Seq<char>>,
    action: HotkeyAction,
    accelerator: Seq<char>,
    first: Result<(), HotkeyErrorView>,
    second: Result<(), HotkeyErrorView>,
    third: Result<(), HotkeyErrorView>,
)
    ensures
        ({
            let begun = rebind_start(bindings, action, accelerator);
            let (one, after_one) = rebind_step(begun, bindings, first);
            let (two, after_two) = rebind_step(one, after_one, second);
            let (_, after_three) = rebind_step(two, after_two, third);
            let requested = trimmed(accelerator);
            &&& after_one == bindings
            &&& after_three == after_two
            &&& after_two == bindings || {
                &&& after_two == bindings.insert(action, requested)
                &&& requested.len() > 0
                &&& parsed_accelerator(requested) is Ok
                &&& first is Ok
                &&& second is Ok
            }
        }),
{
}

/// A rebind is over after three replies at most.
pub proof fn lemma_rebind_ends_within_three_replies(
    bindings: Map<HotkeyAction, Seq<char>>,
    action: HotkeyAction,
    accelerator: Seq<char>,
    first: Result<(), HotkeyErrorView>,
    second: Result<(), HotkeyErrorView>,
    third: Result<(), HotkeyErrorView>,
)
    ensures
        ({
            let begun = rebind_start(bindings, action, accelerator);
            let (one, after_one) = rebind_step(begun, bindings, first);
            let (two, after_two) = rebind_step(one, after_one, second);
            let (three, _) = rebind_step(two, after_two, third);
            three.pending is Finished
        }),
{
}

/// The shortcut that the operating system holds for the action after it
/// answered `request` with `reply`, where it held `active` before: a request
/// that succeeds does what it asks, one that fails changes nothing.
pub open spec fn active_after(
    request: RebindActionView,
    reply: Result<(), HotkeyErrorView>,
    active: Option<Seq<char>>,
) -> Option<Seq<char>> {
    if reply is Err {
        active
    } else {
        match request {
            RebindActionView::Unregister { .. } => None,
            RebindActionView::Register { accelerator, .. } => Some(accelerator),
            RebindActionView::Restore { accelerator, .. } => Some(accelerator),
            RebindActionView::Finished { .. } => active,
        }
    }
}

/// Registry and operating system agree after a rebind. Let both hold the
/// same accelerator for the action when the rebind begins, and let the
/// operating system release it when asked. Then the rebind ends within two
/// more replies, and the registry holds what the operating system holds with
/// one exception: where the new accelerator was refused and the previous one
/// could not be registered again, the registry still names the previous one
/// and the operating system holds none.
pub proof fn lemma_registry_agrees_with_active_shortcut(
    session: RebindSessionView,
    bindings: Map<HotkeyAction, Seq<char>>,
    register_reply: Result<(), HotkeyErrorView>,
    restore_reply: Result<(), HotkeyErrorView>,
)
    requires
        session.pending is Unregister,
        bindings.contains_key(session.action),
        bindings[session.action] == session.current,
    ensures
        ({
            let active = Some(session.current);
            let (one, b1) = rebind_step(session, bindings, Ok(()));
            let a1 = active_after(session.pending, Ok(()), active);
            let (two, b2) = rebind_step(one, b1, register_reply);
            let a2 = active_after(one.pending, register_reply, a1);
            let (three, b3) = rebind_step(two, b2, restore_reply);
            let a3 = active_after(two.pending, restore_reply, a2);
            &&& three.pending is Finished
            &&& b3.contains_key(session.action)
            &&& if register_reply is Err && restore_reply is Err {
                b3 == bindings && a3 is None
            } else {
                a3 == Some(b3[session.action])
            }
        }),
{
}

/// The check that precedes every registration: `accelerator` must parse.
pub open spec fn registration_check(
    accelerator: Seq<char>,
    action: HotkeyAction,
    parsed: Result<ParsedShortcutView, Seq<char>>,
) -> Result<(), HotkeyErrorView> {
    match parsed {
        Ok(_) => Ok(()),
        Err(reason) => Err(invalid_for_action_error(accelerator, action, reason)),
    }
}

/// Checks that `accelerator` can be handed to the operating system as the
/// shortcut of `action`.
pub fn validate_for_registration(accelerator: &str, action: HotkeyAction) -> (r: Result<
    (),
    HotkeyError,
>)
    ensures
        validation_view(r) == registration_check(
            accelerator@,
            action,
            parsed_accelerator(accelerator@),
        ),
{
    match parse_accelerator(accelerator) {
        Ok(_) => Ok(()),
        Err(reason) => Err(HotkeyError::invalid_for_action(accelerator, action, reason.as_str())),
    }
}

fn settle(action: HotkeyAction, requested: String, result: Result<(), HotkeyError>) -> (r:
    RebindSession)
    ensures
        r@ == settled(action, requested@, validation_view(result)),
{
    RebindSession {
        action,
        current: String::new(),
        requested,
        pending: RebindAction::Finished { result, diagnostic: None },
    }
}

/// Begins the rebind of `action` to `requested`, an accelerator that is
/// trimmed and not empty and whose validation has given `validity`.
pub fn plan_rebind(
    hotkeys: &HotkeyBindingsState,
    action: HotkeyAction,
    requested: String,
    validity: Result<(), HotkeyError>,
) -> (r: RebindSession)
    ensures
        r@ == rebind_plan(hotkeys@, action, requested@, validation_view(validity)),
{
    if let Err(error) = validity {
        return settle(action, requested, Err(error));
    }
    let current = match hotkeys.get(action) {
        Some(current) => current,
        None => {
            return settle(action, requested, Err(HotkeyError::unsupported_action(action)));
        },
    };
    let pending = if current == requested {
        RebindAction::Finished { result: Ok(()), diagnostic: None }
    } else {
        RebindAction::Unregister { accelerator: current.clone() }
    };
    RebindSession { action, current, requested, pending }
}

/// Begins the rebind of `action` to `accelerator`. Nothing has been asked of
/// the operating system yet, and the registry is as it was.
pub fn update_hotkey_binding(
    hotkeys: &HotkeyBindingsState,
    action: HotkeyAction,
    accelerator: &str,
) -> (r: RebindSession)
    ensures
        r@ == rebind_start(hotkeys@, action, accelerator@),
{
    let requested = trim(accelerator);
    if requested.is_empty() {
        return settle(action, String::from_str(requested), Err(HotkeyError::empty_accelerator()));
    }
    let validity = validate_hotkey_accelerator(requested);
    plan_rebind(hotkeys, action, String::from_str(requested), validity)
}

fn render_rollback_diagnostic(current: &str, action: HotkeyAction, rollback_error: &str) -> (r:
    String)
    ensures
        r@ == rollback_diagnostic(current@, action, rollback_error@),
{
    let mut note = String::from_str("failed to rollback previous hotkey '");
    note.append(current);
    note.append("' for action '");
    note.append(hotkey_action_key(action));
    note.append("': ");
    note.append(rollback_error);
    note
}

impl RebindSession {
    /// The request that the caller must perform now.
    pub fn pending(&self) -> (r: &RebindAction)
        ensures
            r@ == self@.pending,
    {
        &self.pending
    }

    /// Whether the rebind has ended.
    pub fn is_finished(&self) -> (r: bool)
        ensures
            r == (self@.pending is Finished),
    {
        match &self.pending {
            RebindAction::Finished { .. } => true,
            _ => false,
        }
    }

    /// Takes note of how the pending request went, commits the new
    /// accelerator to `hotkeys` if it was registered, and moves on.
    pub fn advance(&mut self, hotkeys: &mut HotkeyBindingsState, reply: Result<(), HotkeyError>)
        ensures
            final(self)@ == rebind_step(old(self)@, old(hotkeys)@, validation_view(reply)).0,
            final(hotkeys)@ == rebind_step(old(self)@, old(hotkeys)@, validation_view(reply)).1,
    {
        let next: Option<RebindAction> = match &self.pending {
            RebindAction::Unregister { .. } => match reply {
                Ok(_) => Some(
                    RebindAction::Register {
                        action: self.action,
                        accelerator: self.requested.clone(),
                    },
                ),
                Err(error) => Some(RebindAction::Finished { result: Err(error), diagnostic: None }),
            },
            RebindAction::Register { .. } => match reply {
                Ok(_) => {
                    hotkeys.set(self.action, self.requested.clone());
                    Some(RebindAction::Finished { result: Ok(()), diagnostic: None })
                },
                Err(error) => Some(
                    RebindAction::Restore {
                        action: self.action,
                        accelerator: self.current.clone(),
                        failure: error,
                    },
                ),
            },
            RebindAction::Restore { failure, .. } => {
                let diagnostic = match reply {
                    Ok(_) => None,
                    Err(error) => Some(
                        render_rollback_diagnostic(
                            self.current.as_str(),
                            self.action,
                            error.message.as_str(),
                        ),
                    ),
                };
                Some(RebindAction::Finished { result: Err(failure.clone()), diagnostic })
            },
            RebindAction::Finished { .. } => None,
        };
        match next {
            Some(request) => {
                self.pending = request;
            },
            None => {},
        }
    }
}

/// Whether a key of a shortcut went down or came up.
#[derive(Clone, Copy, Debug, PartialEq, Eq, Hash, Structural)]
pub enum KeyState {
    Pressed,
    Released,
}

/// What the application does when the shortcut of an action fires.
#[derive(Clone, Copy, Debug, PartialEq, Eq, Hash, Structural)]
pub enum HotkeyEffect {
    /// Show the overlay if it is hidden, hide it if it is shown.
    ToggleOverlay,
}

/// What `action` stands for in the application.
pub open spec fn effect_of(action: HotkeyAction) -> HotkeyEffect {
    match action {
        HotkeyAction::ToggleOverlayVisibility => HotkeyEffect::ToggleOverlay,
    }
}

/// What the application does when the shortcut of `action` reports `state`:
/// it acts when the key goes down and ignores everything else.
pub fn run_hotkey_action(action: HotkeyAction, state: KeyState) -> (r: Option<HotkeyEffect>)
    ensures
        r == if state == KeyState::Pressed {
            Some(effect_of(action))
        } else {
            None
        },
{
    match state {
        KeyState::Pressed => match action {
            HotkeyAction::ToggleOverlayVisibility => Some(HotkeyEffect::ToggleOverlay),
        },
        KeyState::Released => None,
    }
}

} // verus!
