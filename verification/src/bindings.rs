//! The binding registry: which accelerator each action is bound to.

use std::collections::HashMap;
use vstd::prelude::*;
use vstd::string::StringExecFns;

verus! {

/// Accelerator that toggles the overlay until the user picks another.
pub const DEFAULT_TOGGLE_OVERLAY_SHORTCUT: &'static str = "Ctrl+Shift+Space";

/// A capability that can be bound to a global shortcut.
#[derive(Clone, Copy, Debug, PartialEq, Eq, Hash, Structural)]
pub enum HotkeyAction {
    ToggleOverlayVisibility,
}

/// Every bindable action, in declaration order.
pub const SUPPORTED_HOTKEY_ACTIONS: [HotkeyAction; 1] = [HotkeyAction::ToggleOverlayVisibility];

/// An action together with the accelerator it is bound to.
#[derive(Debug, PartialEq, Eq)]
pub struct HotkeyBinding {
    pub action: HotkeyAction,
    pub accelerator: String,
}

/// Mathematical model of a [`HotkeyBinding`].
pub struct HotkeyBindingView {
    pub action: HotkeyAction,
    pub accelerator: Seq<char>,
}

impl View for HotkeyBinding {
    type V = HotkeyBindingView;

    open spec fn view(&self) -> HotkeyBindingView {
        HotkeyBindingView { action: self.action, accelerator: self.accelerator@ }
    }
}

impl Clone for HotkeyBinding {
    fn clone(&self) -> (r: Self)
        ensures
            r@ == self@,
    {
        HotkeyBinding { action: self.action, accelerator: self.accelerator.clone() }
    }
}

/// The identifier under which `action` travels to and from the user interface.
pub open spec fn action_key(action: HotkeyAction) -> Seq<char> {
    match action {
        HotkeyAction::ToggleOverlayVisibility => "toggle_overlay_visibility"@,
    }
}

/// The identifier under which `action` travels to and from the user interface.
pub fn hotkey_action_key(action: HotkeyAction) -> (r: &'static str)
    ensures
        r@ == action_key(action),
{
    match action {
        HotkeyAction::ToggleOverlayVisibility => "toggle_overlay_visibility",
    }
}

/// The registry right after start-up: every action bound to its default.
pub open spec fn default_bindings() -> Map<HotkeyAction, Seq<char>> {
    Map::empty().insert(HotkeyAction::ToggleOverlayVisibility, DEFAULT_TOGGLE_OVERLAY_SHORTCUT@)
}

/// The bindings of the first `count` supported actions that `bindings` knows,
/// in declaration order.
pub open spec fn listing_prefix(bindings: Map<HotkeyAction, Seq<char>>, count: nat) -> Seq<
    HotkeyBindingView,
>
    decreases count,
{
    if count == 0 || count > SUPPORTED_HOTKEY_ACTIONS@.len() {
        Seq::empty()
    } else {
        let action = SUPPORTED_HOTKEY_ACTIONS@[count - 1];
        let earlier = listing_prefix(bindings, (count - 1) as nat);
        if bindings.contains_key(action) {
            earlier.push(HotkeyBindingView { action, accelerator: bindings[action] })
        } else {
            earlier
        }
    }
}

/// What [`HotkeyBindingsState::list`] reports for `bindings`: one entry for each
/// supported action that is bound, in declaration order.
pub open spec fn listing(bindings: Map<HotkeyAction, Seq<char>>) -> Seq<HotkeyBindingView> {
    listing_prefix(bindings, SUPPORTED_HOTKEY_ACTIONS@.len())
}

/// Right after start-up the registry lists every supported action exactly
/// once, in declaration order, each with the default accelerator.
pub proof fn lemma_defaults_list_every_action_once()
    ensures
        listing(default_bindings()).len() == SUPPORTED_HOTKEY_ACTIONS@.len(),
        forall|i: int|
            0 <= i < SUPPORTED_HOTKEY_ACTIONS@.len() ==> #[trigger] listing(default_bindings())[i]
                == (HotkeyBindingView {
                action: SUPPORTED_HOTKEY_ACTIONS@[i],
                accelerator: DEFAULT_TOGGLE_OVERLAY_SHORTCUT@,
            }),
{
    reveal_with_fuel(listing_prefix, 2);
}

/// The models of the bindings in `list`.
pub open spec fn binding_views(list: Seq<HotkeyBinding>) -> Seq<HotkeyBindingView> {
    list.map_values(|binding: HotkeyBinding| binding@)
}

/// The slot that holds the accelerator of `action`.
pub closed spec fn slot_of(action: HotkeyAction) -> u64 {
    match action {
        HotkeyAction::ToggleOverlayVisibility => 0,
    }
}

fn slot(action: HotkeyAction) -> (r: u64)
    ensures
        r == slot_of(action),
{
    match action {
        HotkeyAction::ToggleOverlayVisibility => 0,
    }
}

/// The binding registry. It holds at most one accelerator for each action.
pub struct HotkeyBindingsState {
    bindings: HashMap<u64, String>,
}

impl View for HotkeyBindingsState {
    type V = Map<HotkeyAction, Seq<char>>;

    closed spec fn view(&self) -> Map<HotkeyAction, Seq<char>> {
        Map::new(
            |action: HotkeyAction| self.bindings@.contains_key(slot_of(action)),
            |action: HotkeyAction| self.bindings@[slot_of(action)]@,
        )
    }
}

impl HotkeyBindingsState {
    /// A registry that knows no action yet.
    pub fn empty() -> (r: Self)
        ensures
            r@ == Map::<HotkeyAction, Seq<char>>::empty(),
    {
        let state = HotkeyBindingsState { bindings: HashMap::new() };
        state
    }

    /// A registry in which every supported action has its default accelerator.
    pub fn with_defaults() -> (r: Self)
        ensures
            r@ == default_bindings(),
    {
        let mut bindings: HashMap<u64, String> = HashMap::new();
        bindings.insert(
            slot(HotkeyAction::ToggleOverlayVisibility),
            String::from_str(DEFAULT_TOGGLE_OVERLAY_SHORTCUT),
        );
        let state = HotkeyBindingsState { bindings };
        state
    }

    /// All bindings, one for each supported action that is bound, in the
    /// declaration order of the actions.
    pub fn list(&self) -> (r: Vec<HotkeyBinding>)
        ensures
            binding_views(r@) == listing(self@),
    {
        let mut found: Vec<HotkeyBinding> = Vec::new();
        let mut i: usize = 0;
        while i < SUPPORTED_HOTKEY_ACTIONS.len()
            invariant
                i <= SUPPORTED_HOTKEY_ACTIONS@.len(),
                binding_views(found@) == listing_prefix(self@, i as nat),
            decreases SUPPORTED_HOTKEY_ACTIONS@.len() - i,
        {
            let action = SUPPORTED_HOTKEY_ACTIONS[i];
            match self.get(action) {
                Some(accelerator) => {
                    found.push(HotkeyBinding { action, accelerator });
                },
                None => {},
            }
            i = i + 1;
        }
        found
    }

    /// The accelerator bound to `action`, if the registry knows the action.
    pub fn get(&self, action: HotkeyAction) -> (r: Option<String>)
        ensures
            match r {
                Some(accelerator) => self@.contains_key(action) && accelerator@ == self@[action],
                None => !self@.contains_key(action),
            },
    {
        match self.bindings.get(&slot(action)) {
            Some(accelerator) => Some(accelerator.clone()),
            None => None,
        }
    }

    /// Binds `action` to `accelerator`, whatever it was bound to before.
    pub fn set(&mut self, action: HotkeyAction, accelerator: String)
        ensures
            final(self)@ == old(self)@.insert(action, accelerator@),
    {
        self.bindings.insert(slot(action), accelerator);
    }
}

} // verus!
