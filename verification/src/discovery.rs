//! Finding the overlay's window in Hyprland and correcting its properties.
//!
//! After the window is created or shown again, Hyprland is polled for its
//! clients until the overlay's own window turns up, at most
//! [`DISCOVERY_ATTEMPTS`] times. The window is then made floating and pinned
//! and is kept out of screen sharing. The library decides when to ask, when
//! to wait and what to dispatch; the caller runs `hyprctl` and sleeps.

use crate::text::{chars_of, spells};
use vstd::prelude::*;
use vstd::string::StringExecFns;

verus! {

/// Class or title by which the overlay's window is known.
pub const OVERLAY_WINDOW_MARKER: &'static str = "overlay-core";

/// How often Hyprland is asked for its clients before the search is given up.
pub const DISCOVERY_ATTEMPTS: u32 = 20;

/// How long to wait after a fruitless query, in milliseconds.
pub const DISCOVERY_INTERVAL_MS: u64 = 100;

/// What the log is told when the window was not found.
pub const DISCOVERY_GAVE_UP: &'static str = "overlay window was not found in Hyprland clients list";

/// A window as Hyprland reports it.
#[derive(Debug, PartialEq, Eq)]
pub struct HyprClient {
    pub address: String,
    pub pid: u32,
    pub class: String,
    pub title: String,
    pub floating: bool,
    pub pinned: bool,
}

/// Mathematical model of a [`HyprClient`].
pub struct HyprClientView {
    pub address: Seq<char>,
    pub pid: u32,
    pub class: Seq<char>,
    pub title: Seq<char>,
    pub floating: bool,
    pub pinned: bool,
}

impl View for HyprClient {
    type V = HyprClientView;

    open spec fn view(&self) -> HyprClientView {
        HyprClientView {
            address: self.address@,
            pid: self.pid,
            class: self.class@,
            title: self.title@,
            floating: self.floating,
            pinned: self.pinned,
        }
    }
}

/// The models of the clients in `clients`.
pub open spec fn client_views(clients: Seq<HyprClient>) -> Seq<HyprClientView> {
    clients.map_values(|client: HyprClient| client@)
}

/// `client` is the overlay's window: it belongs to the process `pid` and
/// carries the marker as its class or as its title.
pub open spec fn is_overlay_client(client: HyprClientView, pid: u32) -> bool {
    client.pid == pid && (client.class == OVERLAY_WINDOW_MARKER@ || client.title
        == OVERLAY_WINDOW_MARKER@)
}

/// The first of `clients` that is the overlay's window, if there is one.
pub open spec fn first_overlay_client(clients: Seq<HyprClientView>, pid: u32) -> Option<
    HyprClientView,
>
    decreases clients.len(),
{
    if clients.len() == 0 {
        None
    } else if is_overlay_client(clients.first(), pid) {
        Some(clients.first())
    } else {
        first_overlay_client(clients.drop_first(), pid)
    }
}

/// One `hyprctl dispatch` command.
#[derive(Debug, PartialEq, Eq)]
pub struct HyprlandDispatch {
    pub dispatcher: String,
    pub argument: String,
}

/// Mathematical model of a [`HyprlandDispatch`].
pub struct HyprlandDispatchView {
    pub dispatcher: Seq<char>,
    pub argument: Seq<char>,
}

impl View for HyprlandDispatch {
    type V = HyprlandDispatchView;

    open spec fn view(&self) -> HyprlandDispatchView {
        HyprlandDispatchView { dispatcher: self.dispatcher@, argument: self.argument@ }
    }
}

/// The models of the commands in `commands`.
pub open spec fn dispatch_views(commands: Seq<HyprlandDispatch>) -> Seq<HyprlandDispatchView> {
    commands.map_values(|command: HyprlandDispatch| command@)
}

/// How a dispatch command names the window at `address`.
pub open spec fn window_selector(address: Seq<char>) -> Seq<char> {
    "address:"@ + address
}

/// The commands that correct the overlay's window `client`: make it floating
/// unless it floats, pin it unless it is pinned, and in every case keep it
/// out of screen sharing.
pub open spec fn overlay_dispatches(client: HyprClientView) -> Seq<HyprlandDispatchView> {
    (if client.floating {
        Seq::empty()
    } else {
        seq![
            HyprlandDispatchView {
                dispatcher: "setfloating"@,
                argument: window_selector(client.address),
            },
        ]
    }) + (if client.pinned {
        Seq::empty()
    } else {
        seq![
            HyprlandDispatchView { dispatcher: "pin"@, argument: window_selector(client.address) },
        ]
    }) + seq![
        HyprlandDispatchView {
            dispatcher: "setprop"@,
            argument: window_selector(client.address) + " no_screen_share 1"@,
        },
    ]
}

/// What the caller must do next on behalf of a search.
#[derive(Debug, PartialEq, Eq)]
pub enum DiscoveryAction {
    /// Ask Hyprland for its clients.
    QueryClients,
    /// Wait for `millis` milliseconds.
    Sleep { millis: u64 },
    /// Run each of `commands`, whether or not an earlier one failed. The
    /// search is over.
    Dispatch { commands: Vec<HyprlandDispatch> },
    /// Log `diagnostic`. The search is over; the window stays as it is.
    GiveUp { diagnostic: String },
    /// Nothing: the session is not one of Hyprland.
    Skip,
}

/// Mathematical model of a [`DiscoveryAction`].
pub enum DiscoveryActionView {
    QueryClients,
    Sleep { millis: u64 },
    Dispatch { commands: Seq<HyprlandDispatchView> },
    GiveUp { diagnostic: Seq<char> },
    Skip,
}

impl View for DiscoveryAction {
    type V = DiscoveryActionView;

    open spec fn view(&self) -> DiscoveryActionView {
        match *self {
            DiscoveryAction::QueryClients => DiscoveryActionView::QueryClients,
            DiscoveryAction::Sleep { millis } => DiscoveryActionView::Sleep { millis },
            DiscoveryAction::Dispatch { commands } => DiscoveryActionView::Dispatch {
                commands: dispatch_views(commands@),
            },
            DiscoveryAction::GiveUp { diagnostic } => DiscoveryActionView::GiveUp {
                diagnostic: diagnostic@,
            },
            DiscoveryAction::Skip => DiscoveryActionView::Skip,
        }
    }
}

/// How the action that the caller was asked to perform went.
#[derive(Debug, PartialEq, Eq)]
pub enum DiscoveryEvent {
    /// Hyprland listed `clients`.
    Clients { clients: Vec<HyprClient> },
    /// The query could not be run, failed, or gave no list of clients.
    QueryFailed,
    /// The wait is over.
    Slept,
}

/// Mathematical model of a [`DiscoveryEvent`].
pub enum DiscoveryEventView {
    Clients { clients: Seq<HyprClientView> },
    QueryFailed,
    Slept,
}

impl View for DiscoveryEvent {
    type V = DiscoveryEventView;

    open spec fn view(&self) -> DiscoveryEventView {
        match *self {
            DiscoveryEvent::Clients { clients } => DiscoveryEventView::Clients {
                clients: client_views(clients@),
            },
            DiscoveryEvent::QueryFailed => DiscoveryEventView::QueryFailed,
            DiscoveryEvent::Slept => DiscoveryEventView::Slept,
        }
    }
}

/// One search for the overlay's window.
pub struct DiscoverySession {
    pid: u32,
    queries: u32,
    pending: DiscoveryAction,
}

/// Mathematical model of a [`DiscoverySession`]: the process whose window is
/// sought, the number of queries asked for so far, and the action that the
/// session waits for.
pub struct DiscoverySessionView {
    pub pid: u32,
    pub queries: u32,
    pub pending: DiscoveryActionView,
}

impl View for DiscoverySession {
    type V = DiscoverySessionView;

    closed spec fn view(&self) -> DiscoverySessionView {
        DiscoverySessionView { pid: self.pid, queries: self.queries, pending: self.pending@ }
    }
}

impl DiscoverySessionView {
    /// The same search, now waiting for `action`.
    pub open spec fn wait_for(self, action: DiscoveryActionView) -> DiscoverySessionView {
        DiscoverySessionView { pending: action, ..self }
    }

    /// The search after a query that did not show the window.
    pub open spec fn after_fruitless_query(self) -> DiscoverySessionView {
        self.wait_for(DiscoveryActionView::Sleep { millis: DISCOVERY_INTERVAL_MS })
    }
}

/// The search for the window of process `pid` before anything was done. It
/// asks its first query, or nothing at all where the session is not one of
/// Hyprland.
pub open spec fn discovery_start(is_hyprland_session: bool, pid: u32) -> DiscoverySessionView {
    if is_hyprland_session {
        DiscoverySessionView { pid, queries: 1, pending: DiscoveryActionView::QueryClients }
    } else {
        DiscoverySessionView { pid, queries: 0, pending: DiscoveryActionView::Skip }
    }
}

/// The search after `event` answered the pending action. A query that shows
/// the window ends the search with the commands for it. Any other query is
/// followed by a wait, and the wait by the next query until
/// [`DISCOVERY_ATTEMPTS`] were made. An event that does not answer the
/// pending action changes nothing.
pub open spec fn discovery_step(
    session: DiscoverySessionView,
    event: DiscoveryEventView,
) -> DiscoverySessionView {
    match session.pending {
        DiscoveryActionView::QueryClients => match event {
            DiscoveryEventView::Clients { clients } => match first_overlay_client(
                clients,
                session.pid,
            ) {
                Some(client) => session.wait_for(
                    DiscoveryActionView::Dispatch { commands: overlay_dispatches(client) },
                ),
                None => session.after_fruitless_query(),
            },
            DiscoveryEventView::QueryFailed => session.after_fruitless_query(),
            DiscoveryEventView::Slept => session,
        },
        DiscoveryActionView::Sleep { .. } => match event {
            DiscoveryEventView::Slept => if session.queries < DISCOVERY_ATTEMPTS {
                DiscoverySessionView {
                    pid: session.pid,
                    queries: (session.queries + 1) as u32,
                    pending: DiscoveryActionView::QueryClients,
                }
            } else {
                session.wait_for(DiscoveryActionView::GiveUp { diagnostic: DISCOVERY_GAVE_UP@ })
            },
            _ => session,
        },
        _ => session,
    }
}

impl DiscoverySessionView {
    /// The invariant of a search: it never counts more queries than it may
    /// ask, and a query that is pending has been counted.
    pub open spec fn well_formed(self) -> bool {
        &&& self.queries <= DISCOVERY_ATTEMPTS
        &&& self.pending is QueryClients ==> self.queries >= 1
        &&& self.pending matches DiscoveryActionView::Sleep { millis } ==> millis
            == DISCOVERY_INTERVAL_MS && self.queries >= 1
    }
}

/// Every search is well formed when it begins and stays so, whatever events
/// it is told of: Hyprland is never asked more than
/// [`DISCOVERY_ATTEMPTS`] times.
pub proof fn lemma_discovery_stays_well_formed(
    is_hyprland_session: bool,
    pid: u32,
    session: DiscoverySessionView,
    event: DiscoveryEventView,
)
    ensures
        discovery_start(is_hyprland_session, pid).well_formed(),
        session.well_formed() ==> discovery_step(session, event).well_formed(),
{
}

/// `reply` answers a query without showing the window of process `pid`.
pub open spec fn is_fruitless(reply: DiscoveryEventView, pid: u32) -> bool {
    match reply {
        DiscoveryEventView::Clients { clients } => first_overlay_client(clients, pid) is None,
        DiscoveryEventView::QueryFailed => true,
        DiscoveryEventView::Slept => false,
    }
}

/// The search after each of `replies` answered one query and was followed by
/// one wait.
pub open spec fn polled(
    session: DiscoverySessionView,
    replies: Seq<DiscoveryEventView>,
) -> DiscoverySessionView
    decreases replies.len(),
{
    if replies.len() == 0 {
        session
    } else {
        polled(
            discovery_step(discovery_step(session, replies.first()), DiscoveryEventView::Slept),
            replies.drop_first(),
        )
    }
}

proof fn lemma_fruitless_polls(session: DiscoverySessionView, replies: Seq<DiscoveryEventView>)
    requires
        session.pending == DiscoveryActionView::QueryClients,
        1 <= session.queries <= DISCOVERY_ATTEMPTS,
        session.queries + replies.len() <= DISCOVERY_ATTEMPTS + 1,
        forall|i: int| 0 <= i < replies.len() ==> is_fruitless(#[trigger] replies[i], session.pid),
    ensures
        session.queries + replies.len() <= DISCOVERY_ATTEMPTS ==> polled(session, replies)
            == (DiscoverySessionView {
            pid: session.pid,
            queries: (session.queries + replies.len()) as u32,
            pending: DiscoveryActionView::QueryClients,
        }),
        session.queries + replies.len() == DISCOVERY_ATTEMPTS + 1 ==> polled(session, replies)
            == (DiscoverySessionView {
            pid: session.pid,
            queries: DISCOVERY_ATTEMPTS,
            pending: DiscoveryActionView::GiveUp { diagnostic: DISCOVERY_GAVE_UP@ },
        }),
    decreases replies.len(),
{
    if replies.len() > 0 {
        let next = discovery_step(
            discovery_step(session, replies.first()),
            DiscoveryEventView::Slept,
        );
        let rest = replies.drop_first();
        if session.queries < DISCOVERY_ATTEMPTS {
            lemma_fruitless_polls(next, rest);
        } else {
            assert(polled(next, rest) == next);
        }
    }
}

/// The search is bounded: in a Hyprland session where no query shows the
/// window, the twentieth query is the last. Fewer fruitless queries leave the
/// next query pending; after the twentieth and its wait the search gives up
/// with a diagnostic and asks for nothing more.
pub proof fn lemma_discovery_gives_up_after_last_attempt(
    pid: u32,
    replies: Seq<DiscoveryEventView>,
)
    requires
        replies.len() <= DISCOVERY_ATTEMPTS,
        forall|i: int| 0 <= i < replies.len() ==> is_fruitless(#[trigger] replies[i], pid),
    ensures
        replies.len() < DISCOVERY_ATTEMPTS ==> polled(discovery_start(true, pid), replies)
            == (DiscoverySessionView {
            pid,
            queries: (replies.len() + 1) as u32,
            pending: DiscoveryActionView::QueryClients,
        }),
        replies.len() == DISCOVERY_ATTEMPTS ==> polled(discovery_start(true, pid), replies)
            == (DiscoverySessionView {
            pid,
            queries: DISCOVERY_ATTEMPTS,
            pending: DiscoveryActionView::GiveUp { diagnostic: DISCOVERY_GAVE_UP@ },
        }),
{
    lemma_fruitless_polls(discovery_start(true, pid), replies);
}

/// Whether `client` is the window of process `pid` that carries the marker.
fn is_overlay(client: &HyprClient, pid: u32) -> (r: bool)
    ensures
        r == is_overlay_client(client@, pid),
{
    client.pid == pid && (spells(&chars_of(client.class.as_str()), OVERLAY_WINDOW_MARKER)
        || spells(&chars_of(client.title.as_str()), OVERLAY_WINDOW_MARKER))
}

/// The first of `clients` that is the overlay's window of process `pid`.
pub fn find_hyprland_overlay_client(clients: &Vec<HyprClient>, pid: u32) -> (r: Option<
    &HyprClient,
>)
    ensures
        match first_overlay_client(client_views(clients@), pid) {
            Some(client) => r matches Some(found) && found@ == client,
            None => r is None,
        },
{
    let mut i: usize = 0;
    assert(client_views(clients@).skip(0) =~= client_views(clients@));
    while i < clients.len()
        invariant
            i <= clients@.len(),
            first_overlay_client(client_views(clients@), pid) == first_overlay_client(
                client_views(clients@).skip(i as int),
                pid,
            ),
        decreases clients@.len() - i,
    {
        assert(client_views(clients@).skip(i as int).drop_first() =~= client_views(
            clients@,
        ).skip(i + 1));
        if is_overlay(&clients[i], pid) {
            return Some(&clients[i]);
        }
        i = i + 1;
    }
    None
}

fn window_selector_of(address: &str) -> (r: String)
    ensures
        r@ == window_selector(address@),
{
    let mut selector = String::from_str("address:");
    selector.append(address);
    selector
}

/// The commands that correct the overlay's window `client`.
pub fn overlay_window_dispatches(client: &HyprClient) -> (r: Vec<HyprlandDispatch>)
    ensures
        dispatch_views(r@) == overlay_dispatches(client@),
{
    let mut commands: Vec<HyprlandDispatch> = Vec::new();
    if !client.floating {
        commands.push(
            HyprlandDispatch {
                dispatcher: String::from_str("setfloating"),
                argument: window_selector_of(client.address.as_str()),
            },
        );
    }
    if !client.pinned {
        commands.push(
            HyprlandDispatch {
                dispatcher: String::from_str("pin"),
                argument: window_selector_of(client.address.as_str()),
            },
        );
    }
    let mut no_screen_share = window_selector_of(client.address.as_str());
    no_screen_share.append(" no_screen_share 1");
    commands.push(
        HyprlandDispatch { dispatcher: String::from_str("setprop"), argument: no_screen_share },
    );
    commands
}

/// Begins the search for the window of process `pid`. `is_hyprland_session`
/// tells whether the environment carries Hyprland's instance signature.
pub fn configure_hyprland_overlay_window(is_hyprland_session: bool, pid: u32) -> (r:
    DiscoverySession)
    ensures
        r@ == discovery_start(is_hyprland_session, pid),
{
    if is_hyprland_session {
        DiscoverySession { pid, queries: 1, pending: DiscoveryAction::QueryClients }
    } else {
        DiscoverySession { pid, queries: 0, pending: DiscoveryAction::Skip }
    }
}

impl DiscoverySession {
    /// The action that the caller must perform now.
    pub fn pending(&self) -> (r: &DiscoveryAction)
        ensures
            r@ == self@.pending,
    {
        &self.pending
    }

    /// Whether the search is over: nothing will be asked after the pending
    /// action.
    pub fn is_finished(&self) -> (r: bool)
        ensures
            r == !(self@.pending is QueryClients || self@.pending is Sleep),
    {
        match &self.pending {
            DiscoveryAction::QueryClients => false,
            DiscoveryAction::Sleep { .. } => false,
            _ => true,
        }
    }

    /// Takes note of how the pending action went and moves on to the next.
    pub fn advance(&mut self, event: DiscoveryEvent)
        ensures
            final(self)@ == discovery_step(old(self)@, event@),
    {
        let next: Option<DiscoveryAction> = match &self.pending {
            DiscoveryAction::QueryClients => match &event {
                DiscoveryEvent::Clients { clients } => match find_hyprland_overlay_client(
                    clients,
                    self.pid,
                ) {
                    Some(client) => Some(
                        DiscoveryAction::Dispatch { commands: overlay_window_dispatches(client) },
                    ),
                    None => Some(DiscoveryAction::Sleep { millis: DISCOVERY_INTERVAL_MS }),
                },
                DiscoveryEvent::QueryFailed => Some(
                    DiscoveryAction::Sleep { millis: DISCOVERY_INTERVAL_MS },
                ),
                DiscoveryEvent::Slept => None,
            },
            DiscoveryAction::Sleep { .. } => match &event {
                DiscoveryEvent::Slept => if self.queries < DISCOVERY_ATTEMPTS {
                    self.queries = self.queries + 1;
                    Some(DiscoveryAction::QueryClients)
                } else {
                    Some(
                        DiscoveryAction::GiveUp { diagnostic: String::from_str(DISCOVERY_GAVE_UP) },
                    )
                },
                _ => None,
            },
            _ => None,
        };
        match next {
            Some(action) => {
                self.pending = action;
            },
            None => {},
        }
    }
}

} // verus!
