use pinball_core::events::CollisionPair;

#[test]
fn involvement_is_checked_on_both_sides() {
    let e = CollisionPair { first: 4, second: 9 };
    assert!(e.involves_body(4));
    assert!(e.involves_body(9));
    assert!(!e.involves_body(5));
}

#[test]
fn the_other_participant_is_the_opposite_side() {
    let e = CollisionPair { first: 4, second: 9 };
    assert_eq!(e.other_body(4), 9);
    assert_eq!(e.other_body(9), 4);
}

#[test]
fn linking_is_order_insensitive() {
    let e = CollisionPair { first: 4, second: 9 };
    assert!(e.links_bodies(4, 9));
    assert!(e.links_bodies(9, 4));
    assert!(!e.links_bodies(4, 4));
    assert!(!e.links_bodies(4, 5));
}
