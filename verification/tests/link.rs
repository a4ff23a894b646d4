use coffee_maker::link::{Delivery, Link};
use coffee_maker::machine_components::Size;

#[test]
fn a_new_link_is_empty_and_held_at_both_ends() {
    let mut link = Link::new();
    assert_eq!(link.len(), 0);
    assert!(link.open());
    assert!(link.attended());
    assert_eq!(link.poll(), Delivery::Pending);
}

#[test]
fn messages_come_out_in_the_order_sent() {
    let mut link = Link::new();
    for client in 0..100usize {
        assert_eq!(link.send((client, Some(Size::Medium))), Ok(()));
    }
    assert_eq!(link.len(), 100);
    for client in 0..100usize {
        assert_eq!(link.poll(), Delivery::Message((client, Some(Size::Medium))));
    }
    assert_eq!(link.len(), 0);
    assert_eq!(link.poll(), Delivery::Pending);
}

#[test]
fn a_message_is_carried_as_it_is() {
    let mut link = Link::new();
    assert_eq!(link.send((7, None)), Ok(()));
    assert_eq!(link.send((usize::MAX, Some(Size::Large))), Ok(()));
    assert_eq!(link.send((0, Some(Size::Small))), Ok(()));
    assert_eq!(link.poll(), Delivery::Message((7, None)));
    assert_eq!(link.poll(), Delivery::Message((usize::MAX, Some(Size::Large))));
    assert_eq!(link.poll(), Delivery::Message((0, Some(Size::Small))));
}

#[test]
fn a_closed_link_delivers_what_is_in_flight_and_then_ends() {
    let mut link = Link::new();
    assert_eq!(link.send((1, None)), Ok(()));
    assert_eq!(link.send((2, None)), Ok(()));
    link.close();
    assert!(!link.open());
    assert!(link.attended());
    assert_eq!(link.len(), 2);
    assert_eq!(link.poll(), Delivery::Message((1, None)));
    assert_eq!(link.poll(), Delivery::Message((2, None)));
    assert_eq!(link.poll(), Delivery::Closed);
    assert_eq!(link.poll(), Delivery::Closed);
}

#[test]
fn closing_an_empty_link_ends_it_at_once() {
    let mut link = Link::new();
    link.close();
    assert_eq!(link.poll(), Delivery::Closed);
}

#[test]
fn a_closed_link_takes_no_more_messages() {
    let mut link = Link::new();
    link.close();
    assert_eq!(link.send((1, None)), Err("sending on a closed channel".to_string()));
    assert_eq!(link.len(), 0);
    assert_eq!(link.poll(), Delivery::Closed);
}

#[test]
fn a_send_to_a_consumer_that_is_gone_fails_without_harm() {
    let mut link = Link::new();
    assert_eq!(link.send((1, None)), Ok(()));
    link.hang_up();
    assert!(link.open());
    assert!(!link.attended());
    assert_eq!(link.len(), 0);
    assert_eq!(link.send((2, None)), Err("sending on a closed channel".to_string()));
    assert_eq!(link.send((3, None)), Err("sending on a closed channel".to_string()));
    assert_eq!(link.len(), 0);
}
