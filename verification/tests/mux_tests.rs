use term_tabs::events::{Envelope, SessionEvent};
use term_tabs::mux::{Mux, DEFAULT_CAPACITY};

fn titled(id: u64, text: &str) -> Envelope {
    Envelope { id, event: SessionEvent::TitleChanged { text: text.to_string() } }
}

fn text_of(e: &Envelope) -> &str {
    match &e.event {
        SessionEvent::TitleChanged { text } => text,
        _ => panic!("expected a title event"),
    }
}

#[test]
fn default_capacity_is_one_hundred() {
    let m = Mux::new(DEFAULT_CAPACITY);
    assert_eq!(m.capacity(), 100);
    assert_eq!(m.len(), 0);
}

#[test]
fn recv_on_empty_yields_nothing() {
    let mut m = Mux::new(4);
    assert!(m.recv().is_none());
}

#[test]
fn delivery_order_is_arrival_order() {
    let mut m = Mux::new(8);
    assert!(m.try_send(titled(1, "one")).is_none());
    assert!(m.try_send(titled(1, "two")).is_none());
    assert!(m.try_send(titled(1, "three")).is_none());
    let drained: Vec<Envelope> = std::iter::from_fn(|| m.recv()).collect();
    let texts: Vec<&str> = drained.iter().map(text_of).collect();
    assert_eq!(texts, vec!["one", "two", "three"]);
}

#[test]
fn per_session_order_survives_interleaving() {
    // session 7 emits a1 then a2; session 9 emits b1 then b2, interleaved
    let mut m = Mux::new(8);
    assert!(m.try_send(titled(7, "a1")).is_none());
    assert!(m.try_send(titled(9, "b1")).is_none());
    assert!(m.try_send(titled(7, "a2")).is_none());
    assert!(m.try_send(titled(9, "b2")).is_none());
    let drained: Vec<Envelope> = std::iter::from_fn(|| m.recv()).collect();
    let of_7: Vec<&str> = drained.iter().filter(|e| e.id == 7).map(text_of).collect();
    let of_9: Vec<&str> = drained.iter().filter(|e| e.id == 9).map(text_of).collect();
    assert_eq!(of_7, vec!["a1", "a2"]);
    assert_eq!(of_9, vec!["b1", "b2"]);
}

#[test]
fn saturated_queue_refuses_without_losing_anything() {
    let mut m = Mux::new(2);
    assert!(m.try_send(titled(1, "a1")).is_none());
    assert!(m.try_send(titled(2, "b1")).is_none());
    // full: the forwarder's send is refused and the event comes back
    let held = m.try_send(titled(1, "a2")).expect("the full queue must refuse");
    assert_eq!(text_of(&held), "a2");
    assert_eq!(m.len(), 2);
    // the consumer drains one envelope, the blocked forwarder retries
    let first = m.recv().unwrap();
    assert_eq!(first.id, 1);
    assert_eq!(text_of(&first), "a1");
    assert!(m.try_send(held).is_none());
    // everything arrives, in per-session emission order
    let drained: Vec<Envelope> = std::iter::from_fn(|| m.recv()).collect();
    let of_1: Vec<&str> = drained.iter().filter(|e| e.id == 1).map(text_of).collect();
    let of_2: Vec<&str> = drained.iter().filter(|e| e.id == 2).map(text_of).collect();
    assert_eq!(of_1, vec!["a2"]);
    assert_eq!(of_2, vec!["b1"]);
}
