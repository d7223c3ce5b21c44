use room_lease::handler::{Acknowledgment, Handler, Reaction, RENEW_SYMBOL};
use room_lease::lease::{Room, INITIAL_TTL, RENEW_WINDOW, WARN_WINDOW};
use room_lease::repository::{DatabaseManager, LeaseError};
use room_lease::sweeper::{almost_expired_rooms, record_prompts, renewal_prompt};

const NOW: u64 = 1_700_000_000;
const HOUR: u64 = 3600;
const BOT: u64 = 609399335205208064;

fn lease(id: u64, holder: u64, expire_date: u64) -> Room {
    Room::from_parts(id, format!("room-{}", id), holder, expire_date)
}

fn renew_reaction(message_id: u64, user_id: u64) -> Reaction {
    Reaction { message_id, user_id, emoji: RENEW_SYMBOL.to_string() }
}

fn stored(db: &DatabaseManager, id: u64) -> Option<u64> {
    db.room_list().iter().find(|r| r.id() == id).map(|r| r.expire_date())
}

#[test]
fn new_lease_lives_ten_hours() {
    let r = Room::new(42, "study".to_string(), 7, NOW);
    assert_eq!(r.id(), 42);
    assert_eq!(r.name(), "study");
    assert_eq!(r.creator(), 7);
    assert_eq!(r.expire_date(), NOW + 10 * HOUR);
    assert_eq!(INITIAL_TTL, 36000);
}

#[test]
fn near_expiry_boundaries() {
    assert!(lease(1, 7, NOW).is_almost_expired(NOW));
    assert!(lease(1, 7, NOW + WARN_WINDOW - 1).is_almost_expired(NOW));
    assert!(!lease(1, 7, NOW + WARN_WINDOW).is_almost_expired(NOW));
    assert_eq!(WARN_WINDOW, 12 * HOUR);
}

#[test]
fn past_lease_is_near_expiry() {
    let r = lease(1, 7, NOW - 5 * HOUR);
    assert!(r.is_almost_expired(NOW));
    assert!(r.is_expired(NOW));
    assert!(!lease(1, 7, NOW).is_expired(NOW));
}

#[test]
fn prolong_is_absolute_from_now() {
    let mut expired = lease(1, 7, NOW - 100 * HOUR);
    expired.prolong(NOW);
    assert_eq!(expired.expire_date(), NOW + 13 * HOUR);
    let mut far = lease(2, 7, NOW + 500 * HOUR);
    far.prolong(NOW);
    assert_eq!(far.expire_date(), NOW + RENEW_WINDOW);
    assert_eq!(far.id(), 2);
    assert_eq!(far.name(), "room-2");
}

#[test]
fn put_then_list_round_trips() {
    let mut db = DatabaseManager::new();
    assert!(db.room_list().is_empty());
    db.room_add(Room::from_parts(42, "study".to_string(), 7, NOW + HOUR));
    db.room_add(lease(43, 8, NOW));
    let all = db.room_list();
    assert_eq!(all.len(), 2);
    let r = all.iter().find(|r| r.id() == 42).unwrap();
    assert_eq!(r.name(), "study");
    assert_eq!(r.creator(), 7);
    assert_eq!(r.expire_date(), NOW + HOUR);
}

#[test]
fn put_overwrites_same_room() {
    let mut db = DatabaseManager::new();
    db.room_add(lease(42, 7, NOW));
    db.room_add(Room::from_parts(42, "other".to_string(), 9, NOW + 2));
    let all = db.room_list();
    assert_eq!(all.len(), 1);
    assert_eq!(all[0].name(), "other");
    assert_eq!(all[0].creator(), 9);
    assert_eq!(all[0].expire_date(), NOW + 2);
}

#[test]
fn delete_is_idempotent() {
    let mut db = DatabaseManager::new();
    db.room_add(lease(42, 7, NOW));
    db.room_add(lease(43, 7, NOW));
    db.room_delete(42);
    db.room_delete(42);
    db.room_delete(99);
    let all = db.room_list();
    assert_eq!(all.len(), 1);
    assert_eq!(all[0].id(), 43);
    assert!(db.room_get(42).is_none());
}

#[test]
fn take_token_succeeds_once() {
    let mut db = DatabaseManager::new();
    db.message_add(100, 42);
    assert_eq!(db.message_get(100), Some(42));
    assert_eq!(db.message_take(100), Some(42));
    assert_eq!(db.message_take(100), None);
    assert_eq!(db.message_get(100), None);
}

#[test]
fn delete_token_without_redeeming() {
    let mut db = DatabaseManager::new();
    db.message_add(100, 42);
    db.message_delete(100);
    db.message_delete(100);
    assert_eq!(db.message_take(100), None);
}

#[test]
fn prolong_missing_lease_is_not_found() {
    let mut db = DatabaseManager::new();
    assert_eq!(db.room_prolong(42, NOW), Err(LeaseError::LeaseNotFound));
    db.room_add(lease(42, 7, NOW - HOUR));
    assert_eq!(db.room_prolong(42, NOW), Ok(()));
    assert_eq!(stored(&db, 42), Some(NOW + RENEW_WINDOW));
}

#[test]
fn sweep_selects_only_near_expiry() {
    let rooms = vec![
        lease(1, 7, NOW + HOUR),
        lease(2, 7, NOW + 20 * HOUR),
        lease(3, 7, NOW - HOUR),
        lease(4, 7, NOW + WARN_WINDOW),
    ];
    let due = almost_expired_rooms(&rooms, NOW);
    let ids: Vec<u64> = due.iter().map(|r| r.id()).collect();
    assert_eq!(ids, vec![1, 3]);
    assert!(almost_expired_rooms(&Vec::new(), NOW).is_empty());
}

#[test]
fn failed_delivery_records_no_token() {
    let mut db = DatabaseManager::new();
    let due = vec![lease(1, 7, NOW), lease(2, 8, NOW)];
    record_prompts(&mut db, &due, &vec![None, Some(501)]);
    assert_eq!(db.message_get(501), Some(2));
    assert_eq!(db.message_take(501), Some(2));
    assert!(db.room_list().is_empty());
}

#[test]
fn prompt_text_names_the_room() {
    assert_eq!(
        renewal_prompt("study"),
        "Your channel `study` will be deleted in 1 hour. Press :repeat: to delay for 12 hours"
    );
}

fn sweep(db: &mut DatabaseManager, now: u64, first_message: u64) -> Vec<u64> {
    let due = almost_expired_rooms(&db.room_list(), now);
    let sent: Vec<Option<u64>> = (0..due.len()).map(|i| Some(first_message + i as u64)).collect();
    record_prompts(db, &due, &sent);
    sent.into_iter().flatten().collect()
}

#[test]
fn sweep_then_acknowledge_renews() {
    let mut db = DatabaseManager::new();
    db.room_add(lease(42, 7, NOW + HOUR));
    let tokens = sweep(&mut db, NOW, 1000);
    assert_eq!(tokens, vec![1000]);
    assert_eq!(db.message_get(1000), Some(42));
    let handler = Handler::new(BOT);
    let out = handler.reaction_add(&mut db, &renew_reaction(1000, 7), NOW);
    assert_eq!(out, Acknowledgment::Renewed(42));
    assert_eq!(stored(&db, 42), Some(NOW + 13 * HOUR));
    assert_eq!(db.message_take(1000), None);
}

#[test]
fn own_reaction_is_ignored() {
    let mut db = DatabaseManager::new();
    db.room_add(lease(42, 7, NOW + HOUR));
    db.message_add(1000, 42);
    let handler = Handler::new(BOT);
    let out = handler.reaction_add(&mut db, &renew_reaction(1000, BOT), NOW);
    assert_eq!(out, Acknowledgment::Ignored);
    assert_eq!(stored(&db, 42), Some(NOW + HOUR));
    assert_eq!(db.message_take(1000), Some(42));
}

#[test]
fn other_symbol_is_ignored() {
    let mut db = DatabaseManager::new();
    db.room_add(lease(42, 7, NOW + HOUR));
    db.message_add(1000, 42);
    let handler = Handler::new(BOT);
    let reaction = Reaction { message_id: 1000, user_id: 7, emoji: "x".to_string() };
    assert_eq!(handler.reaction_add(&mut db, &reaction, NOW), Acknowledgment::Ignored);
    assert_eq!(db.message_get(1000), Some(42));
}

#[test]
fn two_sweeps_leave_a_dangling_token() {
    let mut db = DatabaseManager::new();
    db.room_add(lease(42, 7, NOW + HOUR));
    let t1 = sweep(&mut db, NOW, 1000);
    let t2 = sweep(&mut db, NOW + 5, 2000);
    assert_eq!(t1, vec![1000]);
    assert_eq!(t2, vec![2000]);
    assert_eq!(db.message_get(1000), Some(42));
    assert_eq!(db.message_get(2000), Some(42));
    let handler = Handler::new(BOT);
    let out = handler.reaction_add(&mut db, &renew_reaction(2000, 7), NOW + 10);
    assert_eq!(out, Acknowledgment::Renewed(42));
    assert_eq!(stored(&db, 42), Some(NOW + 10 + RENEW_WINDOW));
    assert_eq!(db.message_get(1000), Some(42));
    let again = handler.reaction_add(&mut db, &renew_reaction(1000, 7), NOW + 20);
    assert_eq!(again, Acknowledgment::Renewed(42));
    assert_eq!(stored(&db, 42), Some(NOW + 20 + RENEW_WINDOW));
}

#[test]
fn unknown_token_is_not_found() {
    let mut db = DatabaseManager::new();
    db.room_add(lease(42, 7, NOW + HOUR));
    let handler = Handler::new(BOT);
    assert_eq!(handler.reaction_add(&mut db, &renew_reaction(5, 7), NOW), Acknowledgment::TokenNotFound);
    assert_eq!(stored(&db, 42), Some(NOW + HOUR));
}

#[test]
fn token_for_released_lease_is_consumed() {
    let mut db = DatabaseManager::new();
    db.message_add(1000, 42);
    let handler = Handler::new(BOT);
    let out = handler.reaction_add(&mut db, &renew_reaction(1000, 7), NOW);
    assert_eq!(out, Acknowledgment::LeaseNotFound(42));
    assert!(db.room_list().is_empty());
    assert_eq!(db.message_get(1000), None);
}
