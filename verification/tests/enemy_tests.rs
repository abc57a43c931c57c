use hold_the_line::animation::{AnimState, AnimationComponent};
use hold_the_line::enemy::{
    can_spawn, move_enemies, react_to_collision, remove_enemies, spawn_enemy, spawn_picked,
    Enemy, EnemyMove, EnemySpawnData, ENEMY_SPEED, MAX_SPAWN, SPAWN_PERIOD,
};
use hold_the_line::handles::{AnimationHandles, ClipHandle, EnemyAnimations};
use hold_the_line::manifest::TilesetData;
use hold_the_line::stats::{is_attack, GameStats};
use hold_the_line::timer::{Timer, TimerMode};

const MS: u64 = 1_000_000;

fn clip(image: u64) -> ClipHandle {
    ClipHandle { image, tile: TilesetData { width: 16, height: 16, padding_x: 0, padding_y: 0 } }
}

fn registry(kinds: &[&str]) -> EnemyAnimations {
    let mut anims = EnemyAnimations::default();
    for (i, kind) in kinds.iter().enumerate() {
        let base = 10 * i as u64;
        anims.enemies.insert(
            kind.to_string(),
            AnimationHandles::new(vec![
                ("walk".to_string(), clip(base)),
                ("die".to_string(), clip(base + 1)),
            ]),
        );
    }
    anims
}

#[test]
fn new_enemy() {
    let e = Enemy::new("demon");
    assert_eq!(e.name, "demon");
    assert_eq!(e.speed, 75);
    assert_eq!(ENEMY_SPEED, 75);
}

#[test]
fn spawn_data_defaults() {
    let d = EnemySpawnData::default();
    assert_eq!(d.curr_spawned, 0);
    assert_eq!(d.max_spawn, 32);
    assert_eq!(MAX_SPAWN, 32);
    assert_eq!(d.timer, Timer::new(100 * MS, TimerMode::Repeating));
    assert_eq!(SPAWN_PERIOD, 100 * MS);
    assert_eq!(
        GameStats::default(),
        GameStats { villagers_saved: 0, villagers_lost: 0, entites_spawned: 0 }
    );
}

#[test]
fn attack_is_the_lowest_flag_bit() {
    assert!(is_attack(1));
    assert!(is_attack(3));
    assert!(is_attack(u32::MAX));
    assert!(!is_attack(0));
    assert!(!is_attack(2));
    assert!(!is_attack(0xffff_fffe));
}

#[test]
fn spawn_of_a_picked_kind() {
    let anims = registry(&["demon", "ghost", "imp"]);
    let mut data = EnemySpawnData::default();
    let mut stats = GameStats::default();
    let spawn = spawn_picked(Some(1), &mut data, &mut stats, &anims).unwrap();
    assert_eq!(spawn.enemy, Enemy { name: "ghost".to_string(), speed: 75 });
    assert_eq!(spawn.clip, clip(10));
    assert_eq!(spawn.anim, AnimationComponent::new(AnimState::Walking));
    assert_eq!(data.curr_spawned, 1);
    assert_eq!(stats.entites_spawned, 1);
    assert_eq!(stats.villagers_lost, 0);
    let spawn = spawn_picked(Some(0), &mut data, &mut stats, &anims).unwrap();
    assert_eq!(spawn.enemy.name, "demon");
    assert_eq!(spawn.clip, clip(0));
    assert_eq!(data.curr_spawned, 2);
    assert_eq!(stats.entites_spawned, 2);
}

#[test]
fn nothing_is_spawned_without_a_pick() {
    let anims = registry(&["demon"]);
    let mut data = EnemySpawnData::default();
    let mut stats = GameStats::default();
    assert!(spawn_picked(None, &mut data, &mut stats, &anims).is_none());
    assert_eq!(data, EnemySpawnData::default());
    assert_eq!(stats, GameStats::default());
}

#[test]
fn enemies_are_spawned_when_the_timer_completes() {
    let anims = registry(&["demon", "ghost", "imp"]);
    let mut data = EnemySpawnData::default();
    let mut stats = GameStats::default();
    assert!(spawn_enemy(60 * MS, &mut data, &mut stats, &anims).is_none());
    assert_eq!(data.curr_spawned, 0);
    assert_eq!(data.timer.elapsed, 60 * MS);
    let spawn = spawn_enemy(60 * MS, &mut data, &mut stats, &anims).unwrap();
    assert!(["demon", "ghost", "imp"].contains(&spawn.enemy.name.as_str()));
    assert_eq!(spawn.anim, AnimationComponent::new(AnimState::Walking));
    assert_eq!(data.curr_spawned, 1);
    assert_eq!(data.timer.elapsed, 20 * MS);
    assert_eq!(stats.entites_spawned, 1);
}

#[test]
fn every_spawn_is_of_a_known_kind_with_its_walking_clip() {
    let kinds = ["demon", "ghost", "imp", "bat", "rat"];
    let anims = registry(&kinds);
    let mut data = EnemySpawnData::default();
    data.max_spawn = i32::MAX;
    let mut stats = GameStats::default();
    let mut seen = [0usize; 5];
    for n in 1..=400 {
        let spawn = spawn_enemy(100 * MS, &mut data, &mut stats, &anims).unwrap();
        let k = kinds.iter().position(|k| *k == spawn.enemy.name).unwrap();
        assert_eq!(spawn.clip, clip(10 * k as u64));
        seen[k] += 1;
        assert_eq!(data.curr_spawned, n);
        assert_eq!(stats.entites_spawned, n);
    }
    assert!(seen.iter().all(|n| *n > 0));
}

#[test]
fn spawning_stops_below_the_cap() {
    let anims = registry(&["demon"]);
    let mut data = EnemySpawnData::default();
    let mut stats = GameStats::default();
    let mut spawned = 0;
    for _ in 0..100 {
        if spawn_enemy(100 * MS, &mut data, &mut stats, &anims).is_some() {
            spawned += 1;
        }
    }
    assert_eq!(spawned, 31);
    assert_eq!(data.curr_spawned, 31);
    assert_eq!(stats.entites_spawned, 31);
    let dead = AnimationComponent::new(AnimState::Dead);
    assert!(remove_enemies(&dead, &mut data));
    assert_eq!(data.curr_spawned, 30);
    assert!(spawn_enemy(100 * MS, &mut data, &mut stats, &anims).is_some());
    assert!(spawn_enemy(100 * MS, &mut data, &mut stats, &anims).is_none());
}

#[test]
fn nothing_is_spawned_at_the_cap_even_without_kinds() {
    let anims = EnemyAnimations::default();
    let mut data = EnemySpawnData::default();
    data.curr_spawned = 31;
    let mut stats = GameStats::default();
    assert!(spawn_enemy(100 * MS, &mut data, &mut stats, &anims).is_none());
    assert!(data.timer.just_finished());
    assert_eq!(data.curr_spawned, 31);
    assert_eq!(stats, GameStats::default());
}

#[test]
fn only_walking_enemies_move() {
    let mut stats = GameStats::default();
    let walking = AnimationComponent::new(AnimState::Walking);
    assert_eq!(
        move_enemies(&walking, false, &mut stats),
        EnemyMove { moved: true, lost: false }
    );
    assert_eq!(stats.villagers_lost, 0);
    assert_eq!(move_enemies(&walking, true, &mut stats), EnemyMove { moved: true, lost: true });
    assert_eq!(stats.villagers_lost, 1);
    for state in [
        AnimState::Idle,
        AnimState::Hurting,
        AnimState::Dying,
        AnimState::Flashing,
        AnimState::Dead,
    ] {
        let anim = AnimationComponent::new(state);
        assert_eq!(
            move_enemies(&anim, true, &mut stats),
            EnemyMove { moved: false, lost: false }
        );
    }
    assert_eq!(stats, GameStats { villagers_saved: 0, villagers_lost: 1, entites_spawned: 0 });
}

#[test]
fn only_dead_enemies_are_removed() {
    let mut data = EnemySpawnData::default();
    data.curr_spawned = 3;
    for state in [
        AnimState::Walking,
        AnimState::Idle,
        AnimState::Hurting,
        AnimState::Dying,
        AnimState::Flashing,
    ] {
        assert!(!remove_enemies(&AnimationComponent::new(state), &mut data));
        assert_eq!(data.curr_spawned, 3);
    }
    assert!(remove_enemies(&AnimationComponent::new(AnimState::Dead), &mut data));
    assert_eq!(data.curr_spawned, 2);
}

#[test]
fn an_attack_makes_a_walking_enemy_die() {
    let anims = registry(&["demon", "ghost"]);
    let enemy = Enemy::new("ghost");
    let mut anim = AnimationComponent::new(AnimState::Walking);
    let mut index = 2usize;
    let mut handle = clip(10);
    assert!(react_to_collision(1, &enemy, &anims, &mut handle, &mut index, &mut anim));
    assert_eq!(anim.state, AnimState::Dying);
    assert_eq!(index, 0);
    assert_eq!(handle, clip(11));
    assert_eq!(anim.flash_count, 0);
    assert_eq!(anim.timer, AnimationComponent::new(AnimState::Walking).timer);
}

#[test]
fn a_collision_that_is_no_attack_changes_nothing() {
    let anims = registry(&["demon"]);
    let enemy = Enemy::new("demon");
    let mut anim = AnimationComponent::new(AnimState::Walking);
    let mut index = 2usize;
    let mut handle = clip(0);
    assert!(!react_to_collision(2, &enemy, &anims, &mut handle, &mut index, &mut anim));
    assert_eq!(anim, AnimationComponent::new(AnimState::Walking));
    assert_eq!(index, 2);
    assert_eq!(handle, clip(0));
}

#[test]
fn two_attacks_on_a_dying_enemy_in_one_tick() {
    let anims = registry(&["demon"]);
    let enemy = Enemy::new("demon");
    let mut anim = AnimationComponent::new(AnimState::Walking);
    let mut index = 1usize;
    let mut handle = clip(0);
    assert!(react_to_collision(1, &enemy, &anims, &mut handle, &mut index, &mut anim));
    hold_the_line::animation::animate_sprite(&mut anim, &mut index, 100 * MS);
    hold_the_line::animation::animate_sprite(&mut anim, &mut index, 100 * MS);
    assert_eq!(index, 2);
    let before = anim;
    assert!(!react_to_collision(1, &enemy, &anims, &mut handle, &mut index, &mut anim));
    assert!(!react_to_collision(3, &enemy, &anims, &mut handle, &mut index, &mut anim));
    assert_eq!(anim, before);
    assert_eq!(anim.state, AnimState::Dying);
    assert_eq!(anim.flash_count, 0);
    assert_eq!(index, 2);
    assert_eq!(handle, clip(1));
}

#[test]
fn attacks_on_flashing_and_dead_enemies_change_nothing() {
    let anims = EnemyAnimations::default();
    let enemy = Enemy::new("nobody");
    for state in [AnimState::Dying, AnimState::Flashing, AnimState::Dead] {
        let mut anim = AnimationComponent::new(state);
        anim.flash_count = 3;
        let before = anim;
        let mut index = 3usize;
        let mut handle = clip(7);
        assert!(!react_to_collision(1, &enemy, &anims, &mut handle, &mut index, &mut anim));
        assert_eq!(anim, before);
        assert_eq!(index, 3);
        assert_eq!(handle, clip(7));
    }
}

#[test]
fn spawn_is_due_when_the_timer_completes_and_there_is_room() {
    let mut data = EnemySpawnData::default();
    assert!(!data.spawn_due(99 * MS));
    assert!(data.spawn_due(100 * MS));
    assert_eq!(data, EnemySpawnData::default());
    data.curr_spawned = 30;
    assert!(data.spawn_due(100 * MS));
    data.curr_spawned = 31;
    assert!(!data.spawn_due(100 * MS));
    data.curr_spawned = i32::MAX;
    assert!(!data.spawn_due(100 * MS));
    data.max_spawn = i32::MIN;
    data.curr_spawned = i32::MIN;
    assert!(!data.spawn_due(100 * MS));
}

#[test]
fn spawning_needs_a_kind_and_walking_clips() {
    assert!(!can_spawn(&EnemyAnimations::default()));
    let mut anims = registry(&["demon", "ghost"]);
    assert!(can_spawn(&anims));
    anims.enemies.insert(
        "imp".to_string(),
        AnimationHandles::new(vec![("die".to_string(), clip(5))]),
    );
    assert!(!can_spawn(&anims));
    anims.enemies.insert(
        "imp".to_string(),
        AnimationHandles::new(vec![("walk".to_string(), clip(6))]),
    );
    assert!(can_spawn(&anims));
}

#[test]
fn clips_are_found_by_kind_and_state() {
    let anims = registry(&["demon", "ghost"]);
    assert_eq!(anims.find(&"ghost".to_string(), AnimState::Dying), Some(clip(11)));
    assert_eq!(anims.find(&"demon".to_string(), AnimState::Walking), Some(clip(0)));
    assert_eq!(anims.find(&"demon".to_string(), AnimState::Idle), None);
    assert_eq!(anims.find(&"demon".to_string(), AnimState::Dead), None);
    assert_eq!(anims.find(&"imp".to_string(), AnimState::Walking), None);
}
