//! Enemies: when one is spawned, how it moves on, and what a hit does to it.

use vstd::prelude::*;
use crate::animation::AnimState;
use crate::animation::AnimationComponent;
use crate::handles::AnimationHandles;
use crate::handles::ClipHandle;
use crate::handles::EnemyAnimations;
use crate::stats::attack_flags;
use crate::stats::is_attack;
use crate::stats::GameStats;
use crate::timer::Timer;
use crate::timer::TimerMode;

verus! {

/// Pixels that an enemy walks in a second.
pub const ENEMY_SPEED: u32 = 75;

/// Nanoseconds between two attempts to spawn an enemy.
pub const SPAWN_PERIOD: u64 = 100_000_000;

/// An enemy is spawned only while one more would stay below this number.
pub const MAX_SPAWN: i32 = 32;

/// An enemy: the kind it is of, and its speed in pixels per second.
#[derive(Clone, Debug, PartialEq, Eq)]
pub struct Enemy {
    pub name: String,
    pub speed: u32,
}

impl Enemy {
    pub fn new(name: &str) -> (e: Enemy)
        ensures
            e.name@ == name@,
            e.speed == ENEMY_SPEED,
    {
        Enemy { name: String::from_str(name), speed: ENEMY_SPEED }
    }
}

/// How many enemies are about, how many are allowed, and the spawn timer.
#[derive(Clone, Copy, Debug, PartialEq, Eq, Structural)]
pub struct EnemySpawnData {
    pub curr_spawned: i32,
    pub max_spawn: i32,
    pub timer: Timer,
}

impl Default for EnemySpawnData {
    fn default() -> (d: EnemySpawnData)
        ensures
            d == (EnemySpawnData {
                curr_spawned: 0,
                max_spawn: MAX_SPAWN,
                timer: Timer::fresh(SPAWN_PERIOD, TimerMode::Repeating),
            }),
    {
        EnemySpawnData {
            curr_spawned: 0,
            max_spawn: MAX_SPAWN,
            timer: Timer::new(SPAWN_PERIOD, TimerMode::Repeating),
        }
    }
}

impl EnemySpawnData {
    /// Whether one more enemy stays below the allowed number.
    pub open spec fn has_room(self) -> bool {
        self.curr_spawned + 1 < self.max_spawn
    }

    /// Whether a tick of `delta` nanoseconds spawns an enemy: the spawn timer
    /// completes and there is room.
    pub open spec fn spawns(self, delta: u64) -> bool {
        self.timer.ticked(delta).completed() && self.has_room()
    }

    /// Says, without letting the time pass, whether a tick of `delta`
    /// nanoseconds would spawn an enemy.
    pub fn spawn_due(&self, delta: u64) -> (b: bool)
        ensures
            b == self.spawns(delta),
    {
        let mut timer = self.timer;
        timer.tick(delta);
        timer.just_finished() && (self.curr_spawned as i64) + 1 < (self.max_spawn as i64)
    }
}

/// What a newly spawned enemy starts with.
#[derive(Clone, Debug, PartialEq, Eq)]
pub struct EnemySpawn {
    pub enemy: Enemy,
    pub clip: ClipHandle,
    pub anim: AnimationComponent,
}

/// Whether `spawn` is an enemy of the kind at position `i`: it bears that
/// kind's name, shows its walking clip and starts out walking.
pub open spec fn spawn_of_kind(anims: EnemyAnimations, i: int, spawn: EnemySpawn) -> bool {
    let kind = anims.enemies.names()[i];
    &&& 0 <= i < anims.enemies.names().len()
    &&& spawn.enemy.name@ == kind
    &&& spawn.enemy.speed == ENEMY_SPEED
    &&& spawn.clip == anims@[kind][AnimState::Walking.name()]
    &&& spawn.anim == AnimationComponent::fresh(AnimState::Walking)
}

/// Whether every enemy kind has a walking clip.
pub open spec fn all_walk(anims: EnemyAnimations) -> bool {
    forall|k: Seq<char>| #[trigger]
        anims@.contains_key(k) ==> anims@[k].contains_key(AnimState::Walking.name())
}

/// Whether an enemy of any kind can be spawned: there is a kind, and every
/// kind has a walking clip.
pub fn can_spawn(anims: &EnemyAnimations) -> (b: bool)
    ensures
        b == (anims.enemies.names().len() > 0 && all_walk(*anims)),
{
    proof {
        anims.enemies.lemma_names();
    }
    let n = anims.enemies.len();
    let mut i: usize = 0;
    while i < n
        invariant
            i <= n == anims.enemies.names().len(),
            forall|j: int|
                0 <= j < i ==> (#[trigger] anims@[anims.enemies.names()[j]]).contains_key(
                    AnimState::Walking.name(),
                ),
        decreases n - i,
    {
        let (name, handles) = anims.enemies.entry(i);
        if !handles.has_handle(AnimState::Walking) {
            proof {
                assert(anims@.contains_key(name@));
            }
            return false;
        }
        i += 1;
    }
    proof {
        assert forall|k: Seq<char>| #[trigger] anims@.contains_key(k) implies anims@[k].contains_key(
            AnimState::Walking.name(),
        ) by {
            assert(anims.enemies@.contains_key(k));
            let j = choose|j: int| 0 <= j < anims.enemies.names().len() && anims.enemies.names()[j]
                == k;
            assert(anims@[anims.enemies.names()[j]].contains_key(AnimState::Walking.name()));
        }
    }
    n > 0
}

/// Calls `rand::seq::IteratorRandom::choose` on the numbers from 0 up to
/// `n`, with the thread's generator: none exactly if there is no number,
/// else one of them.
#[verifier::external_body]
fn choose_index(n: usize) -> (r: Option<usize>)
    ensures
        r is None <==> n == 0,
        r matches Some(i) ==> i < n,
{
    rand::seq::IteratorRandom::choose(0..n, &mut rand::thread_rng())
}

/// Spawns an enemy of the kind at position `pick`, and counts it. Without a
/// pick nothing happens.
pub fn spawn_picked(
    pick: Option<usize>,
    spawn_data: &mut EnemySpawnData,
    status: &mut GameStats,
    enemy_anims: &EnemyAnimations,
) -> (r: Option<EnemySpawn>)
    requires
        pick matches Some(i) ==> {
            &&& i < enemy_anims.enemies.names().len()
            &&& enemy_anims@[enemy_anims.enemies.names()[i as int]].contains_key(
                AnimState::Walking.name(),
            )
            &&& old(spawn_data).curr_spawned < i32::MAX
            &&& old(status).entites_spawned < i32::MAX
        },
    ensures
        match pick {
            Some(i) => {
                &&& r is Some
                &&& spawn_of_kind(*enemy_anims, i as int, r->0)
                &&& *final(spawn_data) == (EnemySpawnData {
                    curr_spawned: (old(spawn_data).curr_spawned + 1) as i32,
                    ..*old(spawn_data)
                })
                &&& *final(status) == (GameStats {
                    entites_spawned: (old(status).entites_spawned + 1) as i32,
                    ..*old(status)
                })
            },
            None => r is None && *final(spawn_data) == *old(spawn_data) && *final(status) == *old(status),
        },
{
    match pick {
        Some(i) => {
            let (name, handles) = enemy_anims.enemies.entry(i);
            let clip = handles.get_handle(AnimState::Walking);
            spawn_data.curr_spawned += 1;
            status.entites_spawned += 1;
            match clip {
                Some(clip) => Some(
                    EnemySpawn {
                        enemy: Enemy::new(name.as_str()),
                        clip,
                        anim: AnimationComponent::default(),
                    },
                ),
                None => None,
            }
        },
        None => None,
    }
}

/// Runs the spawn timer by `delta` nanoseconds and, when it completes while
/// there is room, spawns an enemy of a kind picked at random.
pub fn spawn_enemy(
    delta: u64,
    spawn_data: &mut EnemySpawnData,
    status: &mut GameStats,
    enemy_anims: &EnemyAnimations,
) -> (r: Option<EnemySpawn>)
    requires
        old(spawn_data).spawns(delta) ==> {
            &&& enemy_anims.enemies.names().len() > 0
            &&& all_walk(*enemy_anims)
            &&& old(status).entites_spawned < i32::MAX
        },
    ensures
        final(spawn_data).timer == old(spawn_data).timer.ticked(delta),
        final(spawn_data).max_spawn == old(spawn_data).max_spawn,
        r is Some <==> old(spawn_data).spawns(delta),
        r is Some ==> {
            &&& exists|i: int| spawn_of_kind(*enemy_anims, i, r->0)
            &&& final(spawn_data).curr_spawned == old(spawn_data).curr_spawned + 1
            &&& *final(status) == (GameStats {
                entites_spawned: (old(status).entites_spawned + 1) as i32,
                ..*old(status)
            })
        },
        r is None ==> final(spawn_data).curr_spawned == old(spawn_data).curr_spawned && *final(status) == *old(status),
{
    spawn_data.timer.tick(delta);
    if spawn_data.timer.just_finished() && (spawn_data.curr_spawned as i64) + 1 < (
    spawn_data.max_spawn as i64) {
        let pick = choose_index(enemy_anims.enemies.len());
        proof {
            enemy_anims.enemies.lemma_names();
            if let Some(i) = pick {
                let kind = enemy_anims.enemies.names()[i as int];
                assert(enemy_anims.enemies@.contains_key(kind));
                assert(enemy_anims@.contains_key(kind));
            }
        }
        spawn_picked(pick, spawn_data, status, enemy_anims)
    } else {
        None
    }
}

/// What a tick does to an enemy on its way.
#[derive(Clone, Copy, Debug, PartialEq, Eq, Structural)]
pub struct EnemyMove {
    /// The enemy takes its step.
    pub moved: bool,
    /// The step took it past the far boundary: it is gone, and counted as lost.
    pub lost: bool,
}

/// Decides the step of one enemy. Only a walking enemy moves; `crossed`
/// says whether its step takes it to the far boundary or beyond.
pub fn move_enemies(
    anim: &AnimationComponent,
    crossed: bool,
    stats: &mut GameStats,
) -> (m: EnemyMove)
    requires
        anim.state == AnimState::Walking && crossed ==> old(stats).villagers_lost < i32::MAX,
    ensures
        m.moved == (anim.state == AnimState::Walking),
        m.lost == (anim.state == AnimState::Walking && crossed),
        *final(stats) == (GameStats {
            villagers_lost: if m.lost {
                (old(stats).villagers_lost + 1) as i32
            } else {
                old(stats).villagers_lost
            },
            ..*old(stats)
        }),
{
    if matches!(anim.state, AnimState::Walking) {
        if crossed {
            stats.villagers_lost += 1;
        }
        EnemyMove { moved: true, lost: crossed }
    } else {
        EnemyMove { moved: false, lost: false }
    }
}

/// Says whether an enemy is to be removed, and counts it off: a dead one is.
pub fn remove_enemies(anim: &AnimationComponent, spawn_data: &mut EnemySpawnData) -> (gone: bool)
    requires
        anim.state == AnimState::Dead ==> old(spawn_data).curr_spawned > i32::MIN,
    ensures
        gone == (anim.state == AnimState::Dead),
        *final(spawn_data) == (EnemySpawnData {
            curr_spawned: if gone {
                (old(spawn_data).curr_spawned - 1) as i32
            } else {
                old(spawn_data).curr_spawned
            },
            ..*old(spawn_data)
        }),
{
    if matches!(anim.state, AnimState::Dead) {
        spawn_data.curr_spawned -= 1;
        true
    } else {
        false
    }
}

/// Whether a collision with these flags strikes down an enemy in `state`:
/// it is an attack, and the enemy has not begun to die.
pub open spec fn strikes(flags: u32, state: AnimState) -> bool {
    attack_flags(flags) && !state.dying()
}

/// The reaction of one enemy to a collision that started. An attack on an
/// enemy that has not begun to die makes it die: its clip becomes the dying
/// clip of its kind, from the first frame. The result says whether the enemy
/// is to lose its collider, so that it cannot be hit again. Any other
/// collision changes nothing.
pub fn react_to_collision(
    flags: u32,
    enemy: &Enemy,
    anims: &EnemyAnimations,
    handle: &mut ClipHandle,
    index: &mut usize,
    anim: &mut AnimationComponent,
) -> (hit: bool)
    requires
        strikes(flags, old(anim).state) ==> anims@.contains_key(enemy.name@)
            && anims@[enemy.name@].contains_key(AnimState::Dying.name()),
    ensures
        hit == strikes(flags, old(anim).state),
        hit ==> {
            &&& *final(anim) == (AnimationComponent { state: AnimState::Dying, ..*old(anim) })
            &&& *final(index) == old(anim).first
            &&& *final(handle) == anims@[enemy.name@][AnimState::Dying.name()]
        },
        !hit ==> *final(anim) == *old(anim) && *final(index) == *old(index) && *final(handle)
            == *old(handle),
        old(anim).state.rank() <= final(anim).state.rank(),
        old(anim).has_frame(*old(index)) ==> final(anim).has_frame(*final(index)),
        old(anim).wf() ==> final(anim).wf(),
{
    if is_attack(flags) && !anim.state.is_dying() {
        let changed = anim.force(index, AnimState::Dying);
        match anims.enemies.get(&enemy.name) {
            Some(handles) => {
                match handles.get_handle(AnimState::Dying) {
                    Some(clip) => {
                        *handle = clip;
                    },
                    None => {},
                }
            },
            None => {},
        }
        changed
    } else {
        false
    }
}

} // verus!
