use overlay_core::discovery::{
    configure_hyprland_overlay_window, find_hyprland_overlay_client, overlay_window_dispatches,
    DiscoveryAction, DiscoveryEvent, DiscoverySession, HyprClient, HyprlandDispatch,
    DISCOVERY_ATTEMPTS, DISCOVERY_INTERVAL_MS, OVERLAY_WINDOW_MARKER,
};

const PID: u32 = 4242;

fn client(address: &str, pid: u32, class: &str, title: &str) -> HyprClient {
    HyprClient {
        address: address.to_string(),
        pid,
        class: class.to_string(),
        title: title.to_string(),
        floating: false,
        pinned: false,
    }
}

fn dispatch(dispatcher: &str, argument: &str) -> HyprlandDispatch {
    HyprlandDispatch { dispatcher: dispatcher.to_string(), argument: argument.to_string() }
}

fn strangers() -> Vec<HyprClient> {
    vec![
        client("0x1", 1, "kitty", "shell"),
        client("0x2", PID + 1, "overlay-core", "overlay-core"),
        client("0x3", PID, "Overlay-Core", "overlay-core "),
    ]
}

/// Plays a search in which the `found_at`-th query shows the window, or none
/// does, and returns the last action with the number of queries and waits.
fn play(mut session: DiscoverySession, found_at: Option<usize>) -> (DiscoveryAction, usize, Vec<u64>) {
    let mut queries = 0;
    let mut waits = Vec::new();
    for _ in 0..200 {
        let event = match session.pending() {
            DiscoveryAction::QueryClients => {
                queries += 1;
                if found_at == Some(queries) {
                    let mut clients = strangers();
                    clients.push(client("0xbeef", PID, "overlay-core", "Overlay"));
                    DiscoveryEvent::Clients { clients }
                } else if queries % 2 == 0 {
                    DiscoveryEvent::QueryFailed
                } else {
                    DiscoveryEvent::Clients { clients: strangers() }
                }
            }
            DiscoveryAction::Sleep { millis } => {
                waits.push(*millis);
                DiscoveryEvent::Slept
            }
            DiscoveryAction::Dispatch { commands } => {
                let commands = commands
                    .iter()
                    .map(|c| dispatch(&c.dispatcher, &c.argument))
                    .collect();
                return (DiscoveryAction::Dispatch { commands }, queries, waits);
            }
            DiscoveryAction::GiveUp { diagnostic } => {
                return (DiscoveryAction::GiveUp { diagnostic: diagnostic.clone() }, queries, waits);
            }
            DiscoveryAction::Skip => return (DiscoveryAction::Skip, queries, waits),
        };
        session.advance(event);
    }
    panic!("the search did not end");
}

#[test]
fn the_search_gives_up_after_twenty_queries() {
    let (last, queries, waits) = play(configure_hyprland_overlay_window(true, PID), None);
    assert_eq!(queries, 20);
    assert_eq!(DISCOVERY_ATTEMPTS, 20);
    assert_eq!(
        last,
        DiscoveryAction::GiveUp {
            diagnostic: "overlay window was not found in Hyprland clients list".to_string(),
        }
    );
    assert_eq!(waits, vec![100; 20]);
    assert_eq!(DISCOVERY_INTERVAL_MS, 100);
}

#[test]
fn the_search_ends_with_the_first_query_that_shows_the_window() {
    let (last, queries, waits) = play(configure_hyprland_overlay_window(true, PID), Some(3));
    assert_eq!(queries, 3);
    assert_eq!(waits, vec![100, 100]);
    assert_eq!(
        last,
        DiscoveryAction::Dispatch {
            commands: vec![
                dispatch("setfloating", "address:0xbeef"),
                dispatch("pin", "address:0xbeef"),
                dispatch("setprop", "address:0xbeef no_screen_share 1"),
            ],
        }
    );
}

#[test]
fn the_twentieth_query_can_still_find_the_window() {
    let (last, queries, waits) = play(configure_hyprland_overlay_window(true, PID), Some(20));
    assert_eq!(queries, 20);
    assert_eq!(waits.len(), 19);
    assert!(matches!(last, DiscoveryAction::Dispatch { .. }));
}

#[test]
fn outside_hyprland_nothing_is_asked() {
    let session = configure_hyprland_overlay_window(false, PID);
    assert!(session.is_finished());
    let (last, queries, waits) = play(session, Some(1));
    assert_eq!(last, DiscoveryAction::Skip);
    assert_eq!(queries, 0);
    assert!(waits.is_empty());
}

#[test]
fn events_that_answer_nothing_leave_the_search_alone() {
    let mut session = configure_hyprland_overlay_window(true, PID);
    assert!(!session.is_finished());
    session.advance(DiscoveryEvent::Slept);
    assert_eq!(*session.pending(), DiscoveryAction::QueryClients);
    session.advance(DiscoveryEvent::QueryFailed);
    assert_eq!(*session.pending(), DiscoveryAction::Sleep { millis: 100 });
    session.advance(DiscoveryEvent::QueryFailed);
    session.advance(DiscoveryEvent::Clients { clients: vec![client("0x9", PID, "overlay-core", "")] });
    assert_eq!(*session.pending(), DiscoveryAction::Sleep { millis: 100 });
    session.advance(DiscoveryEvent::Slept);
    session.advance(DiscoveryEvent::Clients { clients: vec![client("0x9", PID, "overlay-core", "")] });
    assert!(session.is_finished());
    session.advance(DiscoveryEvent::Slept);
    session.advance(DiscoveryEvent::QueryFailed);
    assert!(matches!(session.pending(), DiscoveryAction::Dispatch { .. }));
}

#[test]
fn the_window_is_known_by_pid_and_marker() {
    assert_eq!(OVERLAY_WINDOW_MARKER, "overlay-core");
    let by_class = vec![client("0xa", PID, "overlay-core", "Something")];
    assert_eq!(find_hyprland_overlay_client(&by_class, PID), Some(&by_class[0]));
    let by_title = vec![client("0xb", PID, "", "overlay-core")];
    assert_eq!(find_hyprland_overlay_client(&by_title, PID), Some(&by_title[0]));
    assert_eq!(find_hyprland_overlay_client(&by_class, PID + 1), None);
    assert_eq!(find_hyprland_overlay_client(&strangers(), PID), None);
    assert_eq!(find_hyprland_overlay_client(&Vec::new(), PID), None);
}

#[test]
fn the_first_matching_window_is_taken() {
    let clients = vec![
        client("0x1", PID, "kitty", "shell"),
        client("0x2", PID, "other", "overlay-core"),
        client("0x3", PID, "overlay-core", "overlay-core"),
    ];
    let found = find_hyprland_overlay_client(&clients, PID).unwrap();
    assert_eq!(found.address, "0x2");
}

#[test]
fn a_window_that_floats_is_not_made_floating_again() {
    let mut window = client("0x55d1c0", PID, "overlay-core", "");
    window.floating = true;
    assert_eq!(
        overlay_window_dispatches(&window),
        vec![
            dispatch("pin", "address:0x55d1c0"),
            dispatch("setprop", "address:0x55d1c0 no_screen_share 1"),
        ]
    );
}

#[test]
fn a_window_that_is_pinned_is_not_pinned_again() {
    let mut window = client("0x55d1c0", PID, "overlay-core", "");
    window.pinned = true;
    assert_eq!(
        overlay_window_dispatches(&window),
        vec![
            dispatch("setfloating", "address:0x55d1c0"),
            dispatch("setprop", "address:0x55d1c0 no_screen_share 1"),
        ]
    );
}

#[test]
fn screen_sharing_is_always_switched_off() {
    let mut window = client("0x55d1c0", PID, "overlay-core", "");
    window.floating = true;
    window.pinned = true;
    assert_eq!(
        overlay_window_dispatches(&window),
        vec![dispatch("setprop", "address:0x55d1c0 no_screen_share 1")]
    );
}
