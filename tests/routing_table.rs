use stammer::protocol::ClientPacket;
use stammer::routing_table::{RouteError, RoutingTable, TableError};
use tokio::sync::mpsc::unbounded_channel;

fn sorted(mut v: Vec<u32>) -> Vec<u32> {
    v.sort();
    v
}

#[test]
fn enroll_joins_default_room() {
    let mut t = RoutingTable::new();
    let (tx, _rx) = unbounded_channel::<ClientPacket>();
    assert!(!t.holds_session(3));
    t.enroll_session(3, 0x10204, tx);
    assert!(t.holds_session(3));
    assert_eq!(t.room_members(0, None), vec![3]);
    assert!(t.sender(3).is_some());
    assert!(t.sender(4).is_none());
}

#[test]
fn enroll_twice_keeps_one_membership() {
    let mut t = RoutingTable::new();
    let (tx, _rx) = unbounded_channel::<ClientPacket>();
    t.enroll_session(1, 0x10204, tx.clone());
    t.move_session(1, 5).unwrap();
    t.enroll_session(1, 0x10204, tx);
    assert_eq!(t.room_members(0, None), vec![1]);
    assert_eq!(t.room_members(5, None), Vec::<u32>::new());
}

#[test]
fn expel_removes_session_and_membership() {
    let mut t = RoutingTable::new();
    let (tx, _rx) = unbounded_channel::<ClientPacket>();
    t.enroll_session(1, 0x10204, tx.clone());
    t.enroll_session(2, 0x10204, tx);
    assert_eq!(t.expel_session(1), Ok(()));
    assert!(!t.holds_session(1));
    assert_eq!(t.room_members(0, None), vec![2]);
}

#[test]
fn expel_unknown_session_fails() {
    let mut t = RoutingTable::new();
    assert_eq!(t.expel_session(9), Err(TableError::UnknownSession(9)));
}

#[test]
fn move_session_changes_room() {
    let mut t = RoutingTable::new();
    let (tx, _rx) = unbounded_channel::<ClientPacket>();
    t.enroll_session(1, 0x10204, tx.clone());
    t.enroll_session(2, 0x10204, tx);
    assert_eq!(t.move_session(2, 7), Ok(()));
    assert_eq!(t.room_members(0, None), vec![1]);
    assert_eq!(t.room_members(7, None), vec![2]);
    assert_eq!(t.move_session(8, 7), Err(TableError::UnknownSession(8)));
}

#[test]
fn room_members_of_missing_room_is_empty() {
    let t = RoutingTable::new();
    assert_eq!(t.room_members(42, None), Vec::<u32>::new());
}

#[test]
fn voice_targets_are_other_room_members() {
    let mut t = RoutingTable::new();
    let (tx, _rx) = unbounded_channel::<ClientPacket>();
    for id in [1u32, 2, 3, 4] {
        t.enroll_session(id, 0x10204, tx.clone());
    }
    t.move_session(4, 9).unwrap();
    assert_eq!(sorted(t.voice_targets(2, 0).unwrap()), vec![1, 3]);
    assert_eq!(t.voice_targets(4, 0).unwrap(), Vec::<u32>::new());
    assert_eq!(t.voice_targets(5, 0), Err(RouteError::UnknownSender(5)));
    assert_eq!(t.voice_targets(1, 2), Err(RouteError::UnsupportedTarget(2)));
}

#[test]
fn text_targets_union_without_duplicates() {
    let mut t = RoutingTable::new();
    let (tx, _rx) = unbounded_channel::<ClientPacket>();
    for id in [1u32, 2, 3, 4] {
        t.enroll_session(id, 0x10204, tx.clone());
    }
    t.move_session(4, 9).unwrap();
    // session 3 addressed directly and through room 0; 8 and room 6 do not exist
    let r = t.text_targets(1, &vec![3, 8, 4], &vec![0, 6]);
    assert_eq!(sorted(r), vec![2, 3, 4]);
    // the sender never receives its own message
    let r = t.text_targets(1, &vec![1], &vec![0]);
    assert_eq!(sorted(r), vec![2, 3]);
}
