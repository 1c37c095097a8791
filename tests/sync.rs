use dangame::animation::{AnimationType, CharacterType, Facing};
use dangame::character::Character2;
use dangame::client::{lerp, ServerConnection};
use dangame::server::ClientStateTable;
use dangame::wire::{has_changed, shifted, ServerClient};

fn at(x: i32, y: i32) -> ServerClient {
    ServerClient { x_pos: x, y_pos: y, ..ServerClient::default() }
}

#[test]
fn unseen_client_is_marked_and_stored_as_sent() {
    let mut table = ClientStateTable::new();
    assert!(table.on_message(7, at(10, 20)));
    let stored = table.get(7).unwrap();
    assert_eq!((stored.x_pos, stored.y_pos), (10, 20));
    assert_eq!((stored.prev_x_pos, stored.prev_y_pos), (0, 0));
    let batch = table.take_broadcast();
    assert_eq!(batch, vec![(7, stored)]);
}

#[test]
fn same_state_twice_is_broadcast_once() {
    let mut table = ClientStateTable::new();
    table.on_message(1, at(0, 0));
    table.take_broadcast();
    assert!(table.on_message(1, at(5, 5)));
    assert!(!table.on_message(1, at(5, 5)));
    assert_eq!(table.take_broadcast().len(), 1);
    assert!(!table.on_message(1, at(5, 5)));
    assert!(table.take_broadcast().is_empty());
}

#[test]
fn previous_position_follows_the_last_update() {
    let mut table = ClientStateTable::new();
    table.on_message(4, at(1, 2));
    let mut b = at(30, 40);
    b.prev_x_pos = 999;
    b.prev_y_pos = 999;
    table.on_message(4, b);
    let stored = table.get(4).unwrap();
    assert_eq!((stored.prev_x_pos, stored.prev_y_pos), (1, 2));
    assert_eq!((stored.x_pos, stored.y_pos), (30, 40));
}

#[test]
fn size_facing_or_archetype_alone_is_not_broadcast() {
    let mut table = ClientStateTable::new();
    table.on_message(2, at(3, 3));
    table.take_broadcast();
    let mut s = at(3, 3);
    s.width = 50;
    s.height = 10;
    s.facing = Facing::Left;
    s.character_type = CharacterType::Samurai;
    assert!(!table.on_message(2, s));
    assert_eq!(table.get(2).unwrap().width, 50);
    let mut s = at(3, 3);
    s.anim_type = AnimationType::Jump;
    assert!(table.on_message(2, s));
    let mut s = at(3, 3);
    s.anim_type = AnimationType::Jump;
    s.sprite_frame = 1;
    assert!(table.on_message(2, s));
    assert_eq!(table.take_broadcast().len(), 1);
}

#[test]
fn broadcast_keeps_order_of_marking_and_clears() {
    let mut table = ClientStateTable::new();
    table.on_message(9, at(1, 1));
    table.on_message(3, at(2, 2));
    table.on_message(9, at(5, 5));
    let batch = table.take_broadcast();
    let ids: Vec<u64> = batch.iter().map(|(id, _)| *id).collect();
    assert_eq!(ids, vec![9, 3]);
    assert_eq!(batch[0].1.x_pos, 5);
    assert_eq!(batch[0].1.prev_x_pos, 1);
    assert!(table.take_broadcast().is_empty());
    assert_eq!(table.len(), 2);
}

#[test]
fn disconnect_forgets_the_client() {
    let mut table = ClientStateTable::new();
    table.on_message(1, at(1, 1));
    table.on_message(2, at(2, 2));
    table.disconnect(1);
    assert_eq!(table.get(1), None);
    assert_eq!(table.len(), 1);
    let batch = table.take_broadcast();
    assert_eq!(batch.len(), 1);
    assert_eq!(batch[0].0, 2);
    table.disconnect(42);
    assert_eq!(table.len(), 1);
}

#[test]
fn change_filter_and_shift_directly() {
    let a = at(1, 1);
    assert!(has_changed(None, &a));
    assert!(!has_changed(Some(&a), &a));
    assert!(has_changed(Some(&a), &at(1, 2)));
    let s = shifted(Some(&a), &at(8, 9));
    assert_eq!((s.prev_x_pos, s.prev_y_pos, s.x_pos, s.y_pos), (1, 1, 8, 9));
    assert_eq!(shifted(None, &at(8, 9)), at(8, 9));
}

#[test]
fn default_state_is_an_idle_fighter_at_the_origin() {
    let d = ServerClient::default();
    assert_eq!((d.x_pos, d.y_pos, d.prev_x_pos, d.prev_y_pos), (0, 0, 0, 0));
    assert_eq!((d.width, d.height), (28, 93));
    assert_eq!(d.facing, Facing::Right);
    assert_eq!(d.anim_type, AnimationType::Idle);
    assert_eq!(d.character_type, CharacterType::Fighter);
    assert_eq!(d.sprite_frame, 0);
}

#[test]
fn remote_player_is_drawn_halfway_after_half_a_tick() {
    let mut conn = ServerConnection::new(1, 0);
    conn.apply_batch(&vec![(3, at(0, 0))], 0);
    let t0 = 1_000_000;
    conn.apply_batch(&vec![(3, at(10, 0))], t0);
    assert_eq!(conn.interpolated_position(3, t0 + 8_000), Some((5, 0)));
    assert_eq!(conn.interpolated_position(3, t0), Some((0, 0)));
    assert_eq!(conn.interpolated_position(3, t0 + 16_000), Some((10, 0)));
    assert_eq!(conn.interpolated_position(3, t0 + 500_000), Some((10, 0)));
    assert_eq!(conn.interpolated_position(4, t0), None);
}

#[test]
fn own_entry_is_not_cached() {
    let mut conn = ServerConnection::new(5, 0);
    conn.apply_batch(&vec![(5, at(1, 1)), (6, at(2, 2))], 100);
    assert!(conn.get_server_clients().get(&5).is_none());
    assert_eq!(conn.get_server_clients().get(&6).unwrap().x_pos, 2);
    assert_eq!(conn.get_last_server_updated(), 100);
    assert_eq!(conn.get_client_id(), 5);
}

#[test]
fn client_derives_previous_position_from_its_cache() {
    let mut conn = ServerConnection::new(1, 0);
    let mut first = at(4, 4);
    first.prev_x_pos = 77;
    conn.apply_batch(&vec![(2, first)], 0);
    assert_eq!(conn.get_server_clients().get(&2).unwrap().prev_x_pos, 77);
    let mut second = at(6, 6);
    second.prev_x_pos = 55;
    conn.handle_server_updates(&vec![vec![(2, second)]], 10);
    let cached = conn.get_server_clients().get(&2).unwrap();
    assert_eq!((cached.prev_x_pos, cached.prev_y_pos), (4, 4));
    assert_eq!(conn.get_last_server_updated(), 10);
}

#[test]
fn no_broadcast_keeps_the_arrival_time() {
    let mut conn = ServerConnection::new(1, 42);
    conn.handle_server_updates(&vec![], 1_000);
    assert_eq!(conn.get_last_server_updated(), 42);
}

#[test]
fn lerp_ends_and_bounds() {
    assert_eq!(lerp(0, 10, 0, 16_000), 0);
    assert_eq!(lerp(0, 10, 16_000, 16_000), 10);
    assert_eq!(lerp(0, 10, 99_999, 16_000), 10);
    assert_eq!(lerp(10, 0, 8_000, 16_000), 5);
    assert_eq!(lerp(-7, 3, 4_000, 16_000), -5);
    assert_eq!(lerp(3, -7, 4_000, 16_000), 1);
    assert_eq!(lerp(i32::MIN, i32::MAX, 16_000, 16_000), i32::MAX);
    assert_eq!(lerp(i32::MAX, i32::MIN, 8_000, 16_000), 0);
}

#[test]
fn outgoing_state_describes_the_own_character() {
    let conn = ServerConnection::new(1, 0);
    let ch = Character2::new(Some(1));
    let sc = conn.handle_client_updates(&ch, (300, 50), (28, 93));
    assert_eq!((sc.x_pos, sc.y_pos), (300, 50));
    assert_eq!((sc.width, sc.height), (28, 93));
    assert_eq!((sc.prev_x_pos, sc.prev_y_pos), (0, 0));
    assert_eq!(sc.anim_type, AnimationType::Idle);
    assert_eq!(sc.character_type, CharacterType::Shinobi);
    assert_eq!(sc.facing, Facing::Right);
    assert_eq!(sc.sprite_frame, 0);
}
