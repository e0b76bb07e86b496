use clipwatch::sink::SinkSlot;

#[test]
fn new_slot_is_empty() {
    let mut s = SinkSlot::new();
    assert!(!s.has_pending());
    assert_eq!(s.take(), None);
}

#[test]
fn offer_then_take_delivers_the_content() {
    let mut s = SinkSlot::new();
    assert_eq!(s.offer(String::from("one")), None);
    assert!(s.has_pending());
    assert_eq!(s.take(), Some(String::from("one")));
    assert!(!s.has_pending());
    assert_eq!(s.take(), None);
}

#[test]
fn latest_offer_wins_and_displaces_the_older() {
    let mut s = SinkSlot::new();
    assert_eq!(s.offer(String::from("old")), None);
    // a second offer before delivery displaces the first: latest wins
    assert_eq!(s.offer(String::from("new")), Some(String::from("old")));
    assert_eq!(s.take(), Some(String::from("new")));
}
