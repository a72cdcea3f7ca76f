use gtfs_server::closest::{find_closest, EntityDistance};
use gtfs_server::feed::GtfsRtError;

fn ordered(km: f32) -> EntityDistance {
    EntityDistance::Ordered(km.to_bits())
}

#[test]
fn empty_list_finds_no_entity() {
    let r = find_closest(&vec![]);
    assert!(matches!(r, Err(GtfsRtError::NoEntityFound)));
}

#[test]
fn only_unpositioned_entities_find_no_entity() {
    let r = find_closest(&vec![EntityDistance::NoPosition, EntityDistance::NoPosition]);
    assert!(matches!(r, Err(GtfsRtError::NoEntityFound)));
}

#[test]
fn sole_positioned_entity_is_not_promoted() {
    let r = find_closest(&vec![ordered(4.0), EntityDistance::NoPosition]);
    assert!(matches!(r, Ok(None)));
    let r = find_closest(&vec![EntityDistance::NoPosition, ordered(4.0)]);
    assert!(matches!(r, Ok(None)));
}

#[test]
fn first_entity_to_beat_running_minimum_wins() {
    let r = find_closest(&vec![ordered(10.0), ordered(3.0), ordered(7.0)]);
    assert!(matches!(r, Ok(Some(1))));
}

#[test]
fn nearest_first_entity_leaves_no_candidate() {
    let r = find_closest(&vec![ordered(2.0), ordered(3.0), ordered(7.0)]);
    assert!(matches!(r, Ok(None)));
}

#[test]
fn ties_keep_earliest_candidate() {
    let r = find_closest(&vec![ordered(9.0), ordered(5.0), EntityDistance::NoPosition, ordered(5.0)]);
    assert!(matches!(r, Ok(Some(1))));
    let r = find_closest(&vec![ordered(5.0), ordered(5.0)]);
    assert!(matches!(r, Ok(None)));
}

#[test]
fn later_nearer_entity_replaces_candidate() {
    let r = find_closest(&vec![
        ordered(10.0),
        ordered(8.0),
        EntityDistance::NoPosition,
        ordered(1.5),
        ordered(2.0),
    ]);
    assert!(matches!(r, Ok(Some(3))));
}

#[test]
fn unordered_distance_is_never_chosen_and_blocks_as_first() {
    let r = find_closest(&vec![ordered(10.0), EntityDistance::Unordered, ordered(3.0)]);
    assert!(matches!(r, Ok(Some(2))));
    let r = find_closest(&vec![EntityDistance::Unordered, ordered(3.0), ordered(1.0)]);
    assert!(matches!(r, Ok(None)));
}
