use term_tabs::control::{Action, Controller, Theme, UiCommand};
use term_tabs::events::{Envelope, SessionEvent};
use term_tabs::mux::Mux;
use term_tabs::palette::{Palette, Rgb};

const THEME: &str = "OneHalfDark";

fn theme_table() -> Vec<Theme> {
    let mut palette = Palette::new();
    palette.set(3, Rgb { r: 10, g: 20, b: 30 });
    vec![Theme { name: THEME.to_string(), palette }]
}

fn ready_controller() -> Controller {
    let mut c = Controller::new(theme_table(), THEME.to_string());
    c.attach_multiplexer();
    c
}

fn title_changed(text: &str) -> SessionEvent {
    SessionEvent::TitleChanged { text: text.to_string() }
}

#[test]
fn scenario_first_tab() {
    // zero sessions, "new tab": one id, active, placeholder title
    let mut c = ready_controller();
    let actions = c.handle_command(UiCommand::NewTab);
    assert_eq!(actions.len(), 1);
    let id = match actions[0] {
        Action::CreateSession { id } => id,
        _ => panic!("expected a spawn request"),
    };
    let r = c.registry();
    assert_eq!(r.ordered_ids(), vec![id]);
    assert_eq!(r.active_id(), Some(id));
    assert_eq!(r.title_of(id).unwrap(), "New Terminal");
    assert_eq!(c.header_title().as_str(), "New Terminal");
    assert_eq!(c.window_title().as_str(), "New Terminal — COSMIC Terminal");
}

#[test]
fn new_tab_before_multiplexer_is_rejected() {
    let mut c = Controller::new(theme_table(), THEME.to_string());
    let actions = c.handle_command(UiCommand::NewTab);
    assert!(actions.is_empty());
    assert_eq!(c.registry().len(), 0);
    assert_eq!(c.window_title().as_str(), "COSMIC Terminal");
}

#[test]
fn new_tab_with_missing_theme_is_rejected() {
    let mut c = Controller::new(theme_table(), "NoSuchTheme".to_string());
    c.attach_multiplexer();
    let actions = c.handle_command(UiCommand::NewTab);
    assert!(actions.is_empty());
    assert_eq!(c.registry().len(), 0);
}

fn two_tabs(c: &mut Controller) -> (u64, u64) {
    let a = match c.handle_command(UiCommand::NewTab)[0] {
        Action::CreateSession { id } => id,
        _ => panic!("expected a spawn request"),
    };
    let b = match c.handle_command(UiCommand::NewTab)[0] {
        Action::CreateSession { id } => id,
        _ => panic!("expected a spawn request"),
    };
    (a, b)
}

#[test]
fn scenario_close_active_first_tab() {
    // [A(active), B]: closing A activates B and the header follows B
    let mut c = ready_controller();
    let (a, b) = two_tabs(&mut c);
    assert!(c.handle_event(a, title_changed("alpha")).is_empty());
    assert!(c.handle_event(b, title_changed("beta")).is_empty());
    c.handle_command(UiCommand::Activate { id: a });
    assert_eq!(c.registry().active_id(), Some(a));
    let actions = c.handle_command(UiCommand::Close { id: a });
    assert!(actions.is_empty());
    assert_eq!(c.registry().active_id(), Some(b));
    assert_eq!(c.header_title().as_str(), "beta");
    assert_eq!(c.window_title().as_str(), "beta — COSMIC Terminal");
}

#[test]
fn scenario_title_change_updates_both_labels() {
    let mut c = ready_controller();
    let (a, b) = two_tabs(&mut c);
    let before = c.registry().ordered_ids();
    let actions = c.handle_event(b, title_changed("ssh host"));
    assert!(actions.is_empty());
    assert_eq!(c.header_title().as_str(), "ssh host");
    assert_eq!(c.window_title().as_str(), "ssh host — COSMIC Terminal");
    assert_eq!(c.registry().ordered_ids(), before);
    assert_eq!(c.registry().title_of(a).unwrap(), "New Terminal");
}

#[test]
fn title_reset_is_idempotent() {
    let mut c = ready_controller();
    let (a, _) = two_tabs(&mut c);
    c.handle_event(a, title_changed("something else"));
    c.handle_event(a, SessionEvent::TitleReset);
    assert_eq!(c.registry().title_of(a).unwrap(), "New Terminal");
    c.handle_event(a, SessionEvent::TitleReset);
    assert_eq!(c.registry().title_of(a).unwrap(), "New Terminal");
}

#[test]
fn color_query_replies_once_to_the_asking_session() {
    let mut c = ready_controller();
    let (a, b) = two_tabs(&mut c);
    let actions = c.handle_event(a, SessionEvent::ColorQuery { index: 3 });
    assert_eq!(actions.len(), 1);
    match actions[0] {
        Action::RespondColor { id, color } => {
            assert_eq!(id, a);
            assert_ne!(id, b);
            assert_eq!(color, Rgb { r: 10, g: 20, b: 30 });
        },
        _ => panic!("expected a color reply"),
    }
}

#[test]
fn color_query_for_unset_slot_yields_default_color() {
    let mut c = ready_controller();
    let (a, _) = two_tabs(&mut c);
    let actions = c.handle_event(a, SessionEvent::ColorQuery { index: 200 });
    match actions[0] {
        Action::RespondColor { id, color } => {
            assert_eq!(id, a);
            assert_eq!(color, Rgb { r: 0, g: 0, b: 0 });
        },
        _ => panic!("expected a color reply"),
    }
}

#[test]
fn size_query_replies_once_to_the_asking_session() {
    let mut c = ready_controller();
    let (a, _) = two_tabs(&mut c);
    let actions = c.handle_event(a, SessionEvent::SizeQuery);
    assert_eq!(actions.len(), 1);
    assert!(matches!(actions[0], Action::RespondSize { id } if id == a));
}

#[test]
fn raw_write_goes_back_to_the_same_session() {
    let mut c = ready_controller();
    let (a, _) = two_tabs(&mut c);
    let actions = c.handle_event(a, SessionEvent::RawWrite { bytes: vec![0x1b, b'c'] });
    assert_eq!(actions.len(), 1);
    match &actions[0] {
        Action::WriteNoScroll { id, bytes } => {
            assert_eq!(*id, a);
            assert_eq!(bytes, &vec![0x1b, b'c']);
        },
        _ => panic!("expected a no-scroll write"),
    }
}

#[test]
fn redraw_asks_for_a_refresh() {
    let mut c = ready_controller();
    let (a, _) = two_tabs(&mut c);
    let actions = c.handle_event(a, SessionEvent::RedrawNeeded);
    assert_eq!(actions.len(), 1);
    assert!(matches!(actions[0], Action::Refresh { id } if id == a));
}

#[test]
fn bell_and_unrecognized_events_are_ignored() {
    let mut c = ready_controller();
    let (a, _) = two_tabs(&mut c);
    assert!(c.handle_event(a, SessionEvent::Bell).is_empty());
    assert!(c.handle_event(a, SessionEvent::Unrecognized).is_empty());
    assert_eq!(c.registry().len(), 2);
}

#[test]
fn stale_events_for_removed_sessions_are_ignored() {
    let mut c = ready_controller();
    let (a, _) = two_tabs(&mut c);
    c.handle_command(UiCommand::Close { id: a });
    assert!(c.handle_event(a, SessionEvent::ColorQuery { index: 3 }).is_empty());
    assert!(c.handle_event(a, SessionEvent::SizeQuery).is_empty());
    assert!(c.handle_event(a, SessionEvent::RawWrite { bytes: vec![1] }).is_empty());
    assert!(c.handle_event(a, SessionEvent::RedrawNeeded).is_empty());
}

#[test]
fn exit_request_closes_like_a_close_command() {
    let mut c = ready_controller();
    let (a, b) = two_tabs(&mut c);
    let actions = c.handle_event(b, SessionEvent::ExitRequested);
    assert!(actions.is_empty());
    assert_eq!(c.registry().active_id(), Some(a));
    // the last session exiting tears the window down
    let actions = c.handle_event(a, SessionEvent::ExitRequested);
    assert_eq!(actions.len(), 1);
    assert!(matches!(actions[0], Action::CloseWindow));
    assert_eq!(c.registry().len(), 0);
}

#[test]
fn closing_last_tab_signals_window_teardown() {
    let mut c = ready_controller();
    let actions = c.handle_command(UiCommand::NewTab);
    let id = match actions[0] {
        Action::CreateSession { id } => id,
        _ => panic!("expected a spawn request"),
    };
    let actions = c.handle_command(UiCommand::Close { id });
    assert_eq!(actions.len(), 1);
    assert!(matches!(actions[0], Action::CloseWindow));
    assert_eq!(c.registry().active_id(), None);
}

#[test]
fn scenario_saturated_multiplexer_loses_nothing() {
    // a forwarder blocked by a full queue retries; after the loop drains,
    // every event has been applied in per-session emission order
    let mut c = ready_controller();
    let (a, _) = two_tabs(&mut c);
    let mut m = Mux::new(2);

    // session `a` emits three title changes; capacity admits only two
    let mut outbox = vec![
        Envelope { id: a, event: title_changed("step 1") },
        Envelope { id: a, event: title_changed("step 2") },
        Envelope { id: a, event: title_changed("step 3") },
    ];
    outbox.reverse();

    let mut processed = 0;
    let mut blocked: Option<Envelope> = None;
    loop {
        // the forwarder pushes what it can; a refusal hands the event
        // back and the forwarder blocks until the consumer drains
        loop {
            let env = match blocked.take().or_else(|| outbox.pop()) {
                Some(env) => env,
                None => break,
            };
            if let Some(refused) = m.try_send(env) {
                blocked = Some(refused);
                break;
            }
        }
        // the control loop drains one envelope at a time
        match m.recv() {
            Some(env) => {
                c.handle_event(env.id, env.event);
                processed += 1;
            },
            None => break,
        }
    }
    assert_eq!(processed, 3);
    assert_eq!(c.registry().title_of(a).unwrap(), "step 3");
}
