//! The player: health, input, attacks, and the choice of its clip.

use vstd::prelude::*;
use crate::animation::AnimState;
use crate::animation::AnimationComponent;
use crate::handles::ClipHandle;
use crate::handles::PlayerAnimation;
use crate::loading::ImageRequest;
use crate::loading::ImagesToLoad;
use crate::state::GameState;
use crate::state::GameplayStart;
use crate::stats::attack_flags;
use crate::stats::is_attack;
use crate::timer::Timer;
use crate::timer::TimerMode;

verus! {

/// Health that the player starts with, and cannot exceed.
pub const PLAYER_HEALTH: i32 = 10;

/// Nanoseconds without a hit after which the player regains one health.
pub const REGEN_PERIOD: u64 = 2_000_000_000;

/// Nanoseconds between two attacks.
pub const ATTACK_COOLDOWN: u64 = 800_000_000;

/// Hits that an attack takes before it is spent.
pub const ATTACK_HEALTH: i32 = 10;

/// Path of the image of the player's attack.
pub const ATTACK_IMAGE: &'static str = "sprites/other/player_attack.png";

/// The player's health and the timer that restores it.
#[derive(Clone, Copy, Debug, PartialEq, Eq, Structural)]
pub struct PlayerData {
    pub max_health: i32,
    pub health: i32,
    pub timer: Timer,
}

impl Default for PlayerData {
    fn default() -> (d: PlayerData)
        ensures
            d == (PlayerData {
                max_health: PLAYER_HEALTH,
                health: PLAYER_HEALTH,
                timer: Timer::fresh(REGEN_PERIOD, TimerMode::Repeating),
            }),
    {
        PlayerData {
            max_health: PLAYER_HEALTH,
            health: PLAYER_HEALTH,
            timer: Timer::new(REGEN_PERIOD, TimerMode::Repeating),
        }
    }
}

impl PlayerData {
    /// The player after `delta` nanoseconds: when the timer completes, one
    /// health more, up to the maximum.
    pub open spec fn regenerated(self, delta: u64) -> PlayerData {
        let timer = self.timer.ticked(delta);
        let health = if !timer.completed() {
            self.health
        } else if self.health < self.max_health {
            (self.health + 1) as i32
        } else {
            self.max_health
        };
        PlayerData { health, timer, ..self }
    }

    /// The player after a hit: one health less, and the timer at rest.
    pub open spec fn struck(self) -> PlayerData {
        PlayerData {
            health: (self.health - 1) as i32,
            timer: Timer::fresh(self.timer.duration, self.timer.mode),
            ..self
        }
    }
}

/// Where the player is heading.
#[derive(Clone, Copy, Debug, PartialEq, Eq, Structural)]
pub enum PlayerDirection {
    Up,
    Down,
    Still,
}

impl PlayerDirection {
    /// The direction that the keys ask for: up wins over down.
    pub open spec fn of_keys(up: bool, down: bool) -> PlayerDirection {
        if up {
            PlayerDirection::Up
        } else if down {
            PlayerDirection::Down
        } else {
            PlayerDirection::Still
        }
    }

    /// The state that goes with the direction: walking while heading
    /// somewhere, idle otherwise.
    pub open spec fn state(self) -> AnimState {
        if self == PlayerDirection::Still {
            AnimState::Idle
        } else {
            AnimState::Walking
        }
    }

    /// The sign of the vertical step: 1 upwards, -1 downwards, else 0.
    pub open spec fn sign(self) -> i32 {
        match self {
            PlayerDirection::Up => 1i32,
            PlayerDirection::Down => -1i32,
            PlayerDirection::Still => 0i32,
        }
    }
}

/// Whether the player has been spawned.
#[derive(Clone, Copy, Debug, PartialEq, Eq, Structural)]
pub struct PlayerLoaded {
    pub loaded: bool,
}

impl Default for PlayerLoaded {
    fn default() -> (l: PlayerLoaded)
        ensures
            !l.loaded,
    {
        PlayerLoaded { loaded: false }
    }
}

/// The cooldown between attacks, and whether one is running.
#[derive(Clone, Copy, Debug, PartialEq, Eq, Structural)]
pub struct PlayerAttackTimer {
    pub timer: Timer,
    pub attacked: bool,
}

impl Default for PlayerAttackTimer {
    fn default() -> (t: PlayerAttackTimer)
        ensures
            t == (PlayerAttackTimer {
                timer: Timer::fresh(ATTACK_COOLDOWN, TimerMode::Once),
                attacked: false,
            }),
    {
        PlayerAttackTimer { timer: Timer::new(ATTACK_COOLDOWN, TimerMode::Once), attacked: false }
    }
}

/// An attack on its way: the hits it can still take.
#[derive(Clone, Copy, Debug, PartialEq, Eq, Structural)]
pub struct PlayerAttack {
    pub health: i32,
}

impl Default for PlayerAttack {
    fn default() -> (a: PlayerAttack)
        ensures
            a.health == ATTACK_HEALTH,
    {
        PlayerAttack { health: ATTACK_HEALTH }
    }
}

/// The image of the player's attack, by the identifier of its request.
#[derive(Clone, Copy, Debug, PartialEq, Eq, Structural)]
pub struct PlayerAttackSprite {
    pub sprite: u64,
}

impl Default for PlayerAttackSprite {
    fn default() -> (s: PlayerAttackSprite)
        ensures
            s.sprite == 0,
    {
        PlayerAttackSprite { sprite: 0 }
    }
}

/// Whether the player has been given its collider.
#[derive(Clone, Copy, Debug, PartialEq, Eq, Structural)]
pub struct PlayerPhysicsAttached(pub bool);

/// What the player starts with.
#[derive(Clone, Copy, Debug, PartialEq, Eq, Structural)]
pub struct PlayerSpawn {
    pub clip: ClipHandle,
    pub anim: AnimationComponent,
    pub direction: PlayerDirection,
}

/// Requests the image of the player's attack and notes its identifier.
pub fn load_assets(
    attack_sprite: &mut PlayerAttackSprite,
    images_to_load: &mut ImagesToLoad,
) -> (r: ImageRequest)
    requires
        old(images_to_load).issued < u64::MAX,
    ensures
        r.id == old(images_to_load).issued,
        r.path@ == ATTACK_IMAGE@,
        final(attack_sprite).sprite == r.id,
        final(images_to_load).issued == old(images_to_load).issued + 1,
        final(images_to_load).images@ == old(images_to_load).images@.push(r.id),
        old(images_to_load).wf() ==> final(images_to_load).wf(),
{
    let r = images_to_load.request_path(String::from_str(ATTACK_IMAGE));
    attack_sprite.sprite = r.id;
    r
}

/// Spawns the player, once, as soon as its clips are there: idle, heading
/// nowhere, showing its idle clip.
pub fn spawn_player(
    player_loaded: &mut PlayerLoaded,
    player_anim: &PlayerAnimation,
) -> (r: Option<PlayerSpawn>)
    requires
        !old(player_loaded).loaded && player_anim.loaded ==> player_anim.anims.covers(
            AnimState::Idle,
        ),
    ensures
        r == if !old(player_loaded).loaded && player_anim.loaded {
            Some(
                PlayerSpawn {
                    clip: player_anim.anims@[AnimState::Idle.name()],
                    anim: AnimationComponent::fresh(AnimState::Idle),
                    direction: PlayerDirection::Still,
                },
            )
        } else {
            None
        },
        final(player_loaded).loaded == (old(player_loaded).loaded || player_anim.loaded),
{
    if player_loaded.loaded || !player_anim.loaded {
        return None;
    }
    player_loaded.loaded = true;
    match player_anim.anims.get_handle(AnimState::Idle) {
        Some(clip) => Some(
            PlayerSpawn {
                clip,
                anim: AnimationComponent::new(AnimState::Idle),
                direction: PlayerDirection::Still,
            },
        ),
        None => None,
    }
}

/// Says whether the player is to be given its collider now: once, when
/// there is a player. The first call settles it either way.
pub fn add_collisions(attached: &mut PlayerPhysicsAttached, present: bool) -> (attach: bool)
    ensures
        attach == (!old(attached).0 && present),
        final(attached).0,
{
    if !attached.0 {
        attached.0 = true;
        present
    } else {
        false
    }
}

/// Puts an entity into `next` if its state allows that, and then shows the
/// clip of `next`.
fn switch_clip(
    player_anim: &PlayerAnimation,
    anim: &mut AnimationComponent,
    handle: &mut ClipHandle,
    index: &mut usize,
    next: AnimState,
)
    requires
        next.animates(),
        old(anim).state.allows(next) ==> player_anim.anims.covers(next),
    ensures
        (*final(anim), *final(index)) == old(anim).forced(*old(index), next),
        *final(handle) == if old(anim).state.allows(next) {
            player_anim.anims@[next.name()]
        } else {
            *old(handle)
        },
        old(anim).state.rank() <= final(anim).state.rank(),
        old(anim).has_frame(*old(index)) ==> final(anim).has_frame(*final(index)),
        old(anim).wf() ==> final(anim).wf(),
{
    if anim.force(index, next) {
        match player_anim.anims.get_handle(next) {
            Some(clip) => {
                *handle = clip;
            },
            None => {},
        }
    }
}

/// Whether the player is still on its way in: it has not arrived, or its
/// clips are not there yet.
pub open spec fn sliding(start: GameplayStart, player_anim: PlayerAnimation) -> bool {
    !start.play_inplace || !player_anim.loaded
}

/// The state of the player after a step of its way in: an idle player
/// starts to walk, and one that arrives stands idle again, as far as its
/// state allows.
pub open spec fn slid(anim: AnimationComponent, index: usize, arrived: bool) -> (
    AnimationComponent,
    usize,
) {
    let walking = if anim.state == AnimState::Idle {
        anim.forced(index, AnimState::Walking)
    } else {
        (anim, index)
    };
    if arrived {
        walking.0.forced(walking.1, AnimState::Idle)
    } else {
        walking
    }
}

/// One step of the player's way in. While the player is on its way it
/// walks; `arrived` says whether this step takes it to its place, where it
/// stops and is marked as in place. The result says whether the step is
/// taken.
pub fn slide_in_player(
    gameplay_start: &mut GameplayStart,
    player_anim: &PlayerAnimation,
    anim: &mut AnimationComponent,
    handle: &mut ClipHandle,
    index: &mut usize,
    arrived: bool,
) -> (moved: bool)
    requires
        sliding(*old(gameplay_start), *player_anim) && old(anim).state == AnimState::Idle
            ==> player_anim.anims.covers(AnimState::Walking),
        sliding(*old(gameplay_start), *player_anim) && arrived && !old(anim).state.dying()
            ==> player_anim.anims.covers(AnimState::Idle),
    ensures
        moved == sliding(*old(gameplay_start), *player_anim),
        *final(gameplay_start) == (GameplayStart {
            play_inplace: old(gameplay_start).play_inplace || (moved && arrived),
            ..*old(gameplay_start)
        }),
        moved ==> (*final(anim), *final(index)) == slid(*old(anim), *old(index), arrived),
        moved ==> *final(handle) == if arrived && !old(anim).state.dying() {
            player_anim.anims@[AnimState::Idle.name()]
        } else if old(anim).state == AnimState::Idle {
            player_anim.anims@[AnimState::Walking.name()]
        } else {
            *old(handle)
        },
        !moved ==> *final(anim) == *old(anim) && *final(index) == *old(index) && *final(handle)
            == *old(handle),
        old(anim).state.rank() <= final(anim).state.rank(),
        old(anim).has_frame(*old(index)) ==> final(anim).has_frame(*final(index)),
        old(anim).wf() ==> final(anim).wf(),
{
    if !gameplay_start.play_inplace || !player_anim.loaded {
        if matches!(anim.state, AnimState::Idle) {
            switch_clip(player_anim, anim, handle, index, AnimState::Walking);
        }
        if arrived {
            gameplay_start.player_moved(true);
            switch_clip(player_anim, anim, handle, index, AnimState::Idle);
        }
        true
    } else {
        false
    }
}

/// Lets `delta` nanoseconds pass for the player: its health is restored as
/// the timer says, and the result is the sign of its vertical step. Before
/// the player's clips are there nothing happens.
pub fn move_player(
    player_anim: &PlayerAnimation,
    player_data: &mut PlayerData,
    dir: PlayerDirection,
    delta: u64,
) -> (step: i32)
    ensures
        *final(player_data) == if player_anim.loaded {
            old(player_data).regenerated(delta)
        } else {
            *old(player_data)
        },
        step == if player_anim.loaded {
            dir.sign()
        } else {
            0
        },
{
    if !player_anim.loaded {
        return 0;
    }
    player_data.timer.tick(delta);
    if player_data.timer.just_finished() {
        player_data.health = if player_data.health < player_data.max_health {
            player_data.health + 1
        } else {
            player_data.max_health
        };
    }
    match dir {
        PlayerDirection::Up => 1,
        PlayerDirection::Down => -1,
        PlayerDirection::Still => 0,
    }
}

/// Whether the player's clip is chosen anew: its clips are there and it
/// shows the last frame.
pub open spec fn rechooses(
    player_anim: PlayerAnimation,
    anim: AnimationComponent,
    index: usize,
) -> bool {
    player_anim.loaded && index == anim.last
}

/// At the last frame of a clip, puts the player into the state that goes
/// with its direction, as far as its present state allows.
pub fn change_player_anim(
    player_anim: &PlayerAnimation,
    dir: PlayerDirection,
    index: &mut usize,
    handle: &mut ClipHandle,
    anim: &mut AnimationComponent,
)
    requires
        rechooses(*player_anim, *old(anim), *old(index)) && !old(anim).state.dying()
            ==> player_anim.anims.covers(dir.state()),
    ensures
        (*final(anim), *final(index)) == if rechooses(*player_anim, *old(anim), *old(index)) {
            old(anim).forced(*old(index), dir.state())
        } else {
            (*old(anim), *old(index))
        },
        *final(handle) == if rechooses(*player_anim, *old(anim), *old(index)) && !old(anim).state.dying() {
            player_anim.anims@[dir.state().name()]
        } else {
            *old(handle)
        },
        old(anim).state.rank() <= final(anim).state.rank(),
        old(anim).has_frame(*old(index)) ==> final(anim).has_frame(*final(index)),
        old(anim).wf() ==> final(anim).wf(),
{
    if !player_anim.loaded {
        return ;
    }
    if *index == anim.last {
        match dir {
            PlayerDirection::Up | PlayerDirection::Down => {
                switch_clip(player_anim, anim, handle, index, AnimState::Walking);
            },
            PlayerDirection::Still => {
                switch_clip(player_anim, anim, handle, index, AnimState::Idle);
            },
        }
    }
}

/// Lets `delta` nanoseconds of the cooldown pass; when it completes, the
/// player may attack again.
pub fn tick_attack_timer(timer: &mut PlayerAttackTimer, delta: u64)
    ensures
        final(timer).timer == old(timer).timer.ticked(delta),
        final(timer).attacked == (old(timer).attacked && !final(timer).timer.completed()),
{
    timer.timer.tick(delta);
    if timer.timer.just_finished() {
        timer.attacked = false;
    }
}

/// Takes the keys of one tick: sets the direction, and says whether an
/// attack is launched, which starts the cooldown.
pub fn handle_input(
    up: bool,
    down: bool,
    attack: bool,
    dir: &mut PlayerDirection,
    player_attack_timer: &mut PlayerAttackTimer,
) -> (launched: bool)
    ensures
        *final(dir) == PlayerDirection::of_keys(up, down),
        launched == (attack && !old(player_attack_timer).attacked),
        *final(player_attack_timer) == if launched {
            PlayerAttackTimer {
                timer: Timer::fresh(
                    old(player_attack_timer).timer.duration,
                    old(player_attack_timer).timer.mode,
                ),
                attacked: true,
            }
        } else {
            *old(player_attack_timer)
        },
{
    if up {
        *dir = PlayerDirection::Up;
    } else if down {
        *dir = PlayerDirection::Down;
    } else {
        *dir = PlayerDirection::Still;
    }
    if attack && !player_attack_timer.attacked {
        player_attack_timer.attacked = true;
        player_attack_timer.timer.reset();
        true
    } else {
        false
    }
}

/// The reaction of an attack to a collision that started: a hit costs it one
/// health, and the result says whether it is spent.
pub fn react_to_player_attack_collision(flags: u32, attack: &mut PlayerAttack) -> (spent: bool)
    requires
        attack_flags(flags) ==> old(attack).health > i32::MIN,
    ensures
        final(attack).health == if attack_flags(flags) {
            old(attack).health - 1
        } else {
            old(attack).health as int
        },
        spent == (attack_flags(flags) && final(attack).health <= 0),
{
    if is_attack(flags) {
        attack.health -= 1;
        attack.health <= 0
    } else {
        false
    }
}

/// The reaction of the player to a collision that started: a hit costs one
/// health and puts the timer that restores health back to rest. The result
/// is the phase to enter: the game is over when no health is left.
pub fn react_to_player_collision(
    flags: u32,
    player_data: &mut PlayerData,
) -> (next: Option<GameState>)
    requires
        attack_flags(flags) ==> old(player_data).health > i32::MIN,
    ensures
        *final(player_data) == if attack_flags(flags) {
            old(player_data).struck()
        } else {
            *old(player_data)
        },
        next == if attack_flags(flags) && final(player_data).health <= 0 {
            Some(GameState::GameOver)
        } else {
            None
        },
{
    if is_attack(flags) {
        player_data.health -= 1;
        player_data.timer.reset();
        if player_data.health <= 0 {
            Some(GameState::GameOver)
        } else {
            None
        }
    } else {
        None
    }
}

/// What becomes of the player once the game is over: a walking or idle
/// player starts to die, from the first frame of its dying clip; a dead one
/// is to be removed, which the result says.
pub fn player_dies(
    player_anim: &PlayerAnimation,
    index: &mut usize,
    handle: &mut ClipHandle,
    anim: &mut AnimationComponent,
) -> (gone: bool)
    requires
        old(anim).state == AnimState::Walking || old(anim).state == AnimState::Idle
            ==> player_anim.anims.covers(AnimState::Dying),
    ensures
        gone == (old(anim).state == AnimState::Dead),
        old(anim).state == AnimState::Walking || old(anim).state == AnimState::Idle ==> {
            &&& *final(anim) == (AnimationComponent { state: AnimState::Dying, ..*old(anim) })
            &&& *final(index) == old(anim).first
            &&& *final(handle) == player_anim.anims@[AnimState::Dying.name()]
        },
        !(old(anim).state == AnimState::Walking || old(anim).state == AnimState::Idle) ==> *final(anim) == *old(anim) && *final(index) == *old(index) && *final(handle) == *old(handle),
        old(anim).state.rank() <= final(anim).state.rank(),
        old(anim).has_frame(*old(index)) ==> final(anim).has_frame(*final(index)),
        old(anim).wf() ==> final(anim).wf(),
{
    if matches!(anim.state, AnimState::Walking | AnimState::Idle) {
        switch_clip(player_anim, anim, handle, index, AnimState::Dying);
        false
    } else {
        matches!(anim.state, AnimState::Dead)
    }
}

} // verus!
