//! The per-entity animation state machine.

use vstd::prelude::*;
use crate::timer::Timer;
use crate::timer::TimerMode;

verus! {

/// Nanoseconds between two frames of a clip.
pub const FRAME_PERIOD: u64 = 100_000_000;

/// Nanoseconds an entity rests on the last frame of its death clip.
pub const DEATH_LINGER: u64 = 500_000_000;

/// Nanoseconds between two blinks of a flashing entity.
pub const BLINK_PERIOD: u64 = 200_000_000;

/// Blinks before a flashing entity is dead.
pub const MAX_FLASHES: usize = 6;

/// Index of the last frame of a clip; the first is 0.
pub const LAST_FRAME: usize = 3;

/// The logical state of an animated entity.
#[derive(Clone, Copy, Debug, PartialEq, Eq, Structural)]
pub enum AnimState {
    Walking,
    Idle,
    Hurting,
    Dying,
    Flashing,
    Dead,
}

/// Whether an entity is drawn.
#[derive(Clone, Copy, Debug, PartialEq, Eq, Structural)]
pub enum Visibility {
    Inherited,
    Hidden,
    Visible,
}

impl Visibility {
    /// The other side of a blink: shown becomes hidden, hidden becomes shown,
    /// and an entity that follows its parent is hidden.
    pub open spec fn toggled(self) -> Visibility {
        match self {
            Visibility::Visible => Visibility::Hidden,
            Visibility::Hidden => Visibility::Visible,
            Visibility::Inherited => Visibility::Hidden,
        }
    }

    pub fn toggle(&self) -> (v: Visibility)
        ensures
            v == self.toggled(),
    {
        match self {
            Visibility::Visible => Visibility::Hidden,
            Visibility::Hidden => Visibility::Visible,
            Visibility::Inherited => Visibility::Hidden,
        }
    }
}

impl AnimState {
    /// Whether the state plays a clip frame by frame.
    pub open spec fn animates(self) -> bool {
        self != AnimState::Flashing && self != AnimState::Dead
    }

    /// Whether the entity has begun to die.
    pub open spec fn dying(self) -> bool {
        self == AnimState::Dying || self == AnimState::Flashing || self == AnimState::Dead
    }

    /// Position in the order in which states follow each other: the living
    /// states share the lowest rank, then dying, flashing, dead.
    pub open spec fn rank(self) -> nat {
        match self {
            AnimState::Walking | AnimState::Idle | AnimState::Hurting => 0,
            AnimState::Dying => 1,
            AnimState::Flashing => 2,
            AnimState::Dead => 3,
        }
    }

    /// Whether an entity in this state may be put into `next` from outside:
    /// a living entity may change to any living state or begin to die. An
    /// entity that has begun to die is out of reach: only its timers take it
    /// further, to flashing and to dead.
    pub open spec fn allows(self, next: AnimState) -> bool {
        self.rank() == 0 && next.rank() <= 1
    }

    /// The name under which the state's clip is filed.
    pub open spec fn name(self) -> Seq<char> {
        match self {
            AnimState::Walking => "walk"@,
            AnimState::Idle => "idle"@,
            AnimState::Dying => "die"@,
            AnimState::Hurting => "hurt"@,
            AnimState::Flashing => "flash"@,
            AnimState::Dead => "dead"@,
        }
    }

    pub fn should_anim(&self) -> (b: bool)
        ensures
            b == self.animates(),
    {
        match self {
            AnimState::Walking => true,
            AnimState::Idle => true,
            AnimState::Dying => true,
            AnimState::Hurting => true,
            AnimState::Flashing => false,
            AnimState::Dead => false,
        }
    }

    pub fn is_dying(&self) -> (b: bool)
        ensures
            b == self.dying(),
            b == (self.rank() > 0),
    {
        matches!(self, AnimState::Dying | AnimState::Dead | AnimState::Flashing)
    }

    /// The one place that decides whether a change of state from outside is
    /// legal.
    pub fn can_transition(&self, next: AnimState) -> (b: bool)
        ensures
            b == self.allows(next),
            b ==> self.rank() <= next.rank(),
    {
        match self {
            AnimState::Walking | AnimState::Idle | AnimState::Hurting => matches!(
                next,
                AnimState::Walking | AnimState::Idle | AnimState::Hurting | AnimState::Dying
            ),
            AnimState::Dying | AnimState::Flashing | AnimState::Dead => false,
        }
    }

    pub fn to_string(&self) -> (s: String)
        ensures
            s@ == self.name(),
    {
        match self {
            AnimState::Walking => String::from_str("walk"),
            AnimState::Idle => String::from_str("idle"),
            AnimState::Dying => String::from_str("die"),
            AnimState::Hurting => String::from_str("hurt"),
            AnimState::Flashing => String::from_str("flash"),
            AnimState::Dead => String::from_str("dead"),
        }
    }
}

impl Default for AnimState {
    fn default() -> (s: AnimState)
        ensures
            s == AnimState::Walking,
    {
        AnimState::Walking
    }
}

/// What an animated entity carries besides its frame index.
#[derive(Clone, Copy, Debug, PartialEq, Eq, Structural)]
pub struct AnimationComponent {
    pub first: usize,
    pub last: usize,
    /// Paces the frames.
    pub timer: Timer,
    /// Runs while a dying entity rests on its last frame.
    pub dying_timer: Timer,
    /// Paces the blinks of a flashing entity.
    pub flashing_timer: Timer,
    pub max_flashes: usize,
    pub flash_count: usize,
    pub state: AnimState,
}

impl AnimationComponent {
    /// A component at rest in `state`.
    pub open spec fn fresh(state: AnimState) -> AnimationComponent {
        AnimationComponent {
            first: 0,
            last: LAST_FRAME,
            timer: Timer::fresh(FRAME_PERIOD, TimerMode::Repeating),
            dying_timer: Timer::fresh(DEATH_LINGER, TimerMode::Once),
            flashing_timer: Timer::fresh(BLINK_PERIOD, TimerMode::Repeating),
            max_flashes: MAX_FLASHES,
            flash_count: 0,
            state,
        }
    }

    /// The frames form a range, and an entity that is not dead has blinks left.
    pub open spec fn wf(self) -> bool {
        &&& self.first <= self.last
        &&& self.state != AnimState::Dead ==> self.flash_count < self.max_flashes
    }

    /// Whether `index` is one of the component's frames.
    pub open spec fn has_frame(self, index: usize) -> bool {
        self.first <= index <= self.last
    }

    /// The frame after `index`, going round from the last to the first.
    pub open spec fn next_frame(self, index: usize) -> usize {
        if index == self.last {
            self.first
        } else {
            (index + 1) as usize
        }
    }

    /// Component and frame index after a frame tick of `delta` nanoseconds.
    /// States that play no clip are left alone. A dying entity on its last
    /// frame runs its linger timer instead of changing frame, and starts to
    /// flash when that completes. Otherwise the frame advances whenever the
    /// frame timer completes.
    pub open spec fn animated(self, index: usize, delta: u64) -> (AnimationComponent, usize) {
        if !self.state.animates() {
            (self, index)
        } else if self.state == AnimState::Dying && index == self.last {
            let dying_timer = self.dying_timer.ticked(delta);
            let state = if dying_timer.completed() {
                AnimState::Flashing
            } else {
                AnimState::Dying
            };
            (AnimationComponent { timer: self.timer.ticked(delta), dying_timer, state, ..self }, index)
        } else {
            let timer = self.timer.ticked(delta);
            let next = if timer.completed() {
                self.next_frame(index)
            } else {
                index
            };
            (AnimationComponent { timer, ..self }, next)
        }
    }

    /// Whether a blink tick of `delta` nanoseconds completes a blink.
    pub open spec fn blinks(self, delta: u64) -> bool {
        self.state == AnimState::Flashing && self.flashing_timer.ticked(delta).completed()
    }

    /// Component and visibility after a blink tick of `delta` nanoseconds.
    /// Only a flashing entity takes part. Each completion of the blink timer
    /// counts one flash and toggles the visibility; the flash that reaches
    /// the maximum leaves the entity dead.
    pub open spec fn flashed(self, visible: Visibility, delta: u64) -> (
        AnimationComponent,
        Visibility,
    ) {
        if self.state != AnimState::Flashing {
            (self, visible)
        } else if self.blinks(delta) {
            let flash_count = (self.flash_count + 1) as usize;
            let state = if flash_count >= self.max_flashes {
                AnimState::Dead
            } else {
                AnimState::Flashing
            };
            (
                AnimationComponent {
                    flashing_timer: self.flashing_timer.ticked(delta),
                    flash_count,
                    state,
                    ..self
                },
                visible.toggled(),
            )
        } else {
            (
                AnimationComponent { flashing_timer: self.flashing_timer.ticked(delta), ..self },
                visible,
            )
        }
    }

    /// Component and frame index after an attempt to enter `next`: nothing
    /// changes unless the present state allows it, and entering the dying
    /// state starts its clip at the first frame.
    pub open spec fn forced(self, index: usize, next: AnimState) -> (AnimationComponent, usize) {
        if self.state.allows(next) {
            (
                AnimationComponent { state: next, ..self },
                if next == AnimState::Dying {
                    self.first
                } else {
                    index
                },
            )
        } else {
            (self, index)
        }
    }

    pub fn new(state: AnimState) -> (c: AnimationComponent)
        ensures
            c == AnimationComponent::fresh(state),
            c.wf(),
            c.has_frame(0),
    {
        AnimationComponent {
            first: 0,
            last: LAST_FRAME,
            timer: Timer::new(FRAME_PERIOD, TimerMode::Repeating),
            dying_timer: Timer::new(DEATH_LINGER, TimerMode::Once),
            flashing_timer: Timer::new(BLINK_PERIOD, TimerMode::Repeating),
            max_flashes: MAX_FLASHES,
            flash_count: 0,
            state,
        }
    }

    /// Tries to enter `next`, and says whether the entity did.
    pub fn force(&mut self, index: &mut usize, next: AnimState) -> (changed: bool)
        ensures
            changed == old(self).state.allows(next),
            (*final(self), *final(index)) == old(self).forced(*old(index), next),
            old(self).state.rank() <= final(self).state.rank(),
            old(self).has_frame(*old(index)) ==> final(self).has_frame(*final(index)),
            old(self).wf() ==> final(self).wf(),
    {
        if self.state.can_transition(next) {
            self.state = next;
            if matches!(next, AnimState::Dying) {
                *index = self.first;
            }
            true
        } else {
            false
        }
    }
}

impl Default for AnimationComponent {
    fn default() -> (c: AnimationComponent)
        ensures
            c == AnimationComponent::fresh(AnimState::Walking),
    {
        AnimationComponent::new(AnimState::Walking)
    }
}

/// Advances one entity by a frame tick of `delta` nanoseconds.
pub fn animate_sprite(anim: &mut AnimationComponent, index: &mut usize, delta: u64)
    requires
        *old(index) == old(anim).last || *old(index) < usize::MAX,
    ensures
        (*final(anim), *final(index)) == old(anim).animated(*old(index), delta),
        old(anim).has_frame(*old(index)) ==> final(anim).has_frame(*final(index)),
        old(anim).state.rank() <= final(anim).state.rank(),
        old(anim).wf() ==> final(anim).wf(),
{
    if anim.state.should_anim() {
        anim.timer.tick(delta);
        if matches!(anim.state, AnimState::Dying) && *index == anim.last {
            anim.dying_timer.tick(delta);
            if anim.dying_timer.just_finished() {
                anim.state = AnimState::Flashing;
            }
        } else if anim.timer.just_finished() {
            *index = if *index == anim.last {
                anim.first
            } else {
                *index + 1
            };
        }
    }
}

/// Advances one entity by a blink tick of `delta` nanoseconds.
pub fn flash_sprite(anim: &mut AnimationComponent, visible: &mut Visibility, delta: u64)
    requires
        old(anim).state == AnimState::Flashing ==> old(anim).flash_count < usize::MAX,
    ensures
        (*final(anim), *final(visible)) == old(anim).flashed(*old(visible), delta),
        old(anim).state.rank() <= final(anim).state.rank(),
        old(anim).wf() ==> final(anim).wf(),
{
    if matches!(anim.state, AnimState::Flashing) {
        anim.flashing_timer.tick(delta);
        if anim.flashing_timer.just_finished() {
            anim.flash_count += 1;
            *visible = visible.toggle();
            if anim.flash_count >= anim.max_flashes {
                anim.state = AnimState::Dead;
            }
        }
    }
}

} // verus!
