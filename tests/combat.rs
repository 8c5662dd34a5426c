use mierda::components::{AnimationDirection, Mierda, Player, FULL_HEALTH};
use mierda::despawn::DespawnQueue;
use mierda::entity::EntityId;
use mierda::events::{
    event_mierda_hit, event_player_attack, event_player_hit, is_mierda_attacked, GameOverEvent,
    MierdaHitEvent, MierdaSighting, SpawnMierdaEvent, DESPAWN_DELAY_MS, FLASH_MS,
};
use mierda::geometry::Point;

fn px(x: i64, y: i64) -> Point {
    Point::new(x * 1000, y * 1000, 0)
}

fn sighting(index: u32, x: i64, y: i64, is_dummy: bool) -> MierdaSighting {
    MierdaSighting { entity: EntityId::new(index, 0), position: px(x, y), is_dummy }
}

#[test]
fn attack_up_hits_only_enemies_above() {
    let p = px(100, 100);
    assert!(is_mierda_attacked(AnimationDirection::Up, p, px(100, 150)));
    assert!(!is_mierda_attacked(AnimationDirection::Up, p, px(100, 50)));
    assert!(!is_mierda_attacked(AnimationDirection::Up, p, px(130, 100)));
}

#[test]
fn attack_each_direction_uses_its_axis() {
    let p = px(0, 0);
    assert!(is_mierda_attacked(AnimationDirection::Down, p, px(0, -10)));
    assert!(!is_mierda_attacked(AnimationDirection::Down, p, px(0, 10)));
    assert!(is_mierda_attacked(AnimationDirection::Left, p, px(-10, 40)));
    assert!(!is_mierda_attacked(AnimationDirection::Left, p, px(10, 0)));
    assert!(is_mierda_attacked(AnimationDirection::Right, p, px(10, -40)));
    assert!(!is_mierda_attacked(AnimationDirection::Right, p, px(-10, 0)));
}

#[test]
fn attack_range_is_strict() {
    let p = px(0, 0);
    assert!(!is_mierda_attacked(AnimationDirection::Up, p, px(0, 75)));
    assert!(is_mierda_attacked(AnimationDirection::Up, p, Point::new(0, 74_999, 0)));
    // 45^2 + 60^2 == 75^2
    assert!(!is_mierda_attacked(AnimationDirection::Right, p, px(45, 60)));
    assert!(is_mierda_attacked(AnimationDirection::Right, p, px(44, 60)));
}

#[test]
fn attack_far_apart_coordinates_do_not_overflow() {
    let p = Point::new(i64::MIN, i64::MIN, i64::MIN);
    assert!(!is_mierda_attacked(AnimationDirection::Up, p, Point::new(i64::MAX, i64::MAX, i64::MAX)));
    assert!(!is_mierda_attacked(AnimationDirection::Right, p, Point::new(i64::MAX, i64::MIN, 0)));
}

#[test]
fn player_attack_skips_prototypes_and_keeps_order() {
    let mierdas = vec![
        sighting(1, 0, 10, false),
        sighting(2, 0, 20, true),
        sighting(3, 0, -10, false),
        sighting(4, 0, 74, false),
        sighting(5, 0, 80, false),
    ];
    let hits = event_player_attack(AnimationDirection::Up, px(0, 0), &mierdas);
    assert_eq!(
        hits,
        vec![MierdaHitEvent(EntityId::new(1, 0)), MierdaHitEvent(EntityId::new(4, 0))]
    );
    assert!(event_player_attack(AnimationDirection::Up, px(0, 0), &vec![]).is_empty());
}

#[test]
fn mierda_hit_requests_replacements_under_cap() {
    let target = EntityId::new(7, 1);
    let mut m = Mierda::spawned();
    let mut q = DespawnQueue::new();
    // 256 enemies at the hit leave 255 once the target is removed
    let r = event_mierda_hit(1000, 256, target, &mut m, &mut q);
    assert_eq!(r, Some(SpawnMierdaEvent { count: 2 }));
    assert_eq!(m.hit_at, Some(FLASH_MS));
    assert_eq!(m.hit_at, Some(200));
    assert_eq!(m.health, 100);
    assert!(!m.is_dummy);
    assert_eq!(q.len(), 1);
}

#[test]
fn mierda_hit_at_cap_requests_nothing() {
    let mut m = Mierda::spawned();
    let mut q = DespawnQueue::new();
    assert_eq!(event_mierda_hit(0, 257, EntityId::new(1, 0), &mut m, &mut q), None);
    assert_eq!(event_mierda_hit(0, 1000, EntityId::new(2, 0), &mut m, &mut q), None);
    assert_eq!(m.hit_at, Some(200));
    assert_eq!(q.len(), 2);
}

#[test]
fn mierda_hit_on_last_enemy_requests_replacements() {
    let mut m = Mierda::spawned();
    let mut q = DespawnQueue::new();
    let r = event_mierda_hit(0, 1, EntityId::new(1, 0), &mut m, &mut q);
    assert_eq!(r, Some(SpawnMierdaEvent { count: 2 }));
}

#[test]
fn attack_distance_counts_depth() {
    let p = Point::new(0, 0, 0);
    assert!(is_mierda_attacked(AnimationDirection::Up, p, Point::new(0, 10_000, 60_000)));
    assert!(!is_mierda_attacked(AnimationDirection::Up, p, Point::new(0, 10_000, 75_000)));
    // 20^2 + 35^2 + 60^2 == 5225 < 75^2; 20^2 + 50^2 + 60^2 == 6500 > 75^2
    assert!(is_mierda_attacked(AnimationDirection::Up, p, Point::new(20_000, 35_000, 60_000)));
    assert!(!is_mierda_attacked(AnimationDirection::Up, p, Point::new(20_000, 50_000, 60_000)));
}

#[test]
fn hit_target_is_removed_after_delay() {
    let target = EntityId::new(7, 1);
    let mut m = Mierda::spawned();
    let mut q = DespawnQueue::new();
    event_mierda_hit(1000, 3, target, &mut m, &mut q);
    assert_eq!(DESPAWN_DELAY_MS, 300);
    assert!(q.take_due(1299).is_empty());
    assert_eq!(q.len(), 1);
    assert_eq!(q.take_due(1300), vec![target]);
    assert_eq!(q.len(), 0);
    assert!(q.take_due(5000).is_empty());
}

#[test]
fn despawn_queue_keeps_waiting_removals_in_order() {
    let a = EntityId::new(1, 0);
    let b = EntityId::new(2, 0);
    let c = EntityId::new(3, 0);
    let mut q = DespawnQueue::new();
    q.schedule(a, 100, 300);
    q.schedule(b, 500, 300);
    q.schedule(c, 0, 300);
    assert_eq!(q.take_due(400), vec![a, c]);
    assert_eq!(q.len(), 1);
    assert_eq!(q.take_due(799), vec![]);
    assert_eq!(q.take_due(800), vec![b]);
}

#[test]
fn despawn_deadline_saturates_at_end_of_clock() {
    let a = EntityId::new(1, 0);
    let mut q = DespawnQueue::new();
    q.schedule(a, u64::MAX - 10, 300);
    assert!(q.take_due(u64::MAX - 1).is_empty());
    assert_eq!(q.take_due(u64::MAX), vec![a]);
}

#[test]
fn player_hit_takes_ten_health() {
    let mut p = Player::new();
    assert_eq!(p.health, FULL_HEALTH);
    assert_eq!(event_player_hit(&mut p), None);
    assert_eq!(p.health, 90);
}

#[test]
fn player_hit_at_ten_reaches_zero_without_game_over() {
    let mut p = Player { health: 10 };
    assert_eq!(event_player_hit(&mut p), None);
    assert_eq!(p.health, 0);
    assert_eq!(event_player_hit(&mut p), Some(GameOverEvent));
    assert_eq!(p.health, 0);
}

#[test]
fn player_hit_below_ten_ends_game() {
    let mut p = Player { health: 9 };
    assert_eq!(event_player_hit(&mut p), Some(GameOverEvent));
    assert_eq!(p.health, 9);
}

#[test]
fn player_health_wears_down_then_game_over() {
    let mut p = Player { health: 95 };
    for k in 1..=9u32 {
        assert_eq!(event_player_hit(&mut p), None);
        assert_eq!(p.health, 95 - 10 * k);
    }
    assert_eq!(p.health, 5);
    for _ in 0..3 {
        assert_eq!(event_player_hit(&mut p), Some(GameOverEvent));
        assert_eq!(p.health, 5);
    }
}
