//! An animated entity as a state machine over events, and what holds of
//! every sequence of events.

use vstd::prelude::*;
use crate::animation::animate_sprite;
use crate::animation::flash_sprite;
use crate::animation::AnimState;
use crate::animation::AnimationComponent;
use crate::animation::Visibility;

verus! {

/// What can happen to an animated entity.
#[derive(Clone, Copy, Debug, PartialEq, Eq, Structural)]
pub enum AnimEvent {
    /// A frame tick of so many nanoseconds.
    Frame(u64),
    /// A blink tick of so many nanoseconds.
    Blink(u64),
    /// An attempt from outside to put the entity into a state: a hit, a
    /// change of direction, an arrival.
    Force(AnimState),
}

/// The part of an entity that the animation reads and writes.
#[derive(Clone, Copy, Debug, PartialEq, Eq, Structural)]
pub struct Actor {
    pub anim: AnimationComponent,
    pub index: usize,
    pub visible: Visibility,
}

/// `visible` after `n` blinks.
pub open spec fn flipped(visible: Visibility, n: nat) -> Visibility
    decreases n,
{
    if n == 0 {
        visible
    } else {
        flipped(visible, (n - 1) as nat).toggled()
    }
}

impl Actor {
    /// The component is well formed and the frame index is one of its frames.
    pub open spec fn valid(self) -> bool {
        self.anim.wf() && self.anim.has_frame(self.index)
    }

    /// The entity after one event.
    pub open spec fn after(self, event: AnimEvent) -> Actor {
        match event {
            AnimEvent::Frame(delta) => {
                let (anim, index) = self.anim.animated(self.index, delta);
                Actor { anim, index, ..self }
            },
            AnimEvent::Blink(delta) => {
                let (anim, visible) = self.anim.flashed(self.visible, delta);
                Actor { anim, visible, ..self }
            },
            AnimEvent::Force(next) => {
                let (anim, index) = self.anim.forced(self.index, next);
                Actor { anim, index, ..self }
            },
        }
    }

    /// The entity after a sequence of events, first to last.
    pub open spec fn after_all(self, events: Seq<AnimEvent>) -> Actor
        decreases events.len(),
    {
        if events.len() == 0 {
            self
        } else {
            self.after_all(events.drop_last()).after(events.last())
        }
    }

    /// Whether `event` makes the entity blink.
    pub open spec fn blinks_at(self, event: AnimEvent) -> bool {
        match event {
            AnimEvent::Blink(delta) => self.anim.blinks(delta),
            _ => false,
        }
    }

    /// How often the entity blinks during a sequence of events.
    pub open spec fn blinks_during(self, events: Seq<AnimEvent>) -> nat
        decreases events.len(),
    {
        if events.len() == 0 {
            0
        } else {
            self.blinks_during(events.drop_last()) + if self.after_all(
                events.drop_last(),
            ).blinks_at(events.last()) {
                1nat
            } else {
                0nat
            }
        }
    }

    /// Lets one event happen to the entity.
    pub fn apply(&mut self, event: AnimEvent)
        requires
            old(self).valid(),
        ensures
            *final(self) == old(self).after(event),
            final(self).valid(),
            old(self).anim.state.rank() <= final(self).anim.state.rank(),
    {
        match event {
            AnimEvent::Frame(delta) => {
                animate_sprite(&mut self.anim, &mut self.index, delta);
            },
            AnimEvent::Blink(delta) => {
                flash_sprite(&mut self.anim, &mut self.visible, delta);
            },
            AnimEvent::Force(next) => {
                self.anim.force(&mut self.index, next);
            },
        }
    }

    /// Lets a sequence of events happen to the entity, first to last.
    pub fn run(&mut self, events: &Vec<AnimEvent>)
        requires
            old(self).valid(),
        ensures
            *final(self) == old(self).after_all(events@),
            final(self).valid(),
            old(self).anim.state.rank() <= final(self).anim.state.rank(),
    {
        let mut i: usize = 0;
        while i < events.len()
            invariant
                i <= events@.len(),
                self.valid(),
                *self == old(self).after_all(events@.take(i as int)),
                old(self).anim.state.rank() <= self.anim.state.rank(),
            decreases events@.len() - i,
        {
            proof {
                assert(events@.take(i + 1).drop_last() =~= events@.take(i as int));
            }
            self.apply(events[i]);
            i += 1;
        }
        proof {
            assert(events@.take(i as int) =~= events@);
        }
    }
}

/// Whatever happens to an entity whose frame index is one of its frames,
/// the index stays one of its frames, and the frames stay what they were.
pub proof fn lemma_frame_stays_in_range(actor: Actor, events: Seq<AnimEvent>)
    requires
        actor.anim.has_frame(actor.index),
    ensures
        actor.after_all(events).anim.has_frame(actor.after_all(events).index),
        actor.after_all(events).anim.first == actor.anim.first,
        actor.after_all(events).anim.last == actor.anim.last,
    decreases events.len(),
{
    if events.len() > 0 {
        lemma_frame_stays_in_range(actor, events.drop_last());
    }
}

/// Whatever happens to an entity, its state never falls back in the order
/// of states. So an entity that has begun to die never walks or idles again,
/// and a dead one stays dead.
pub proof fn lemma_forward_only(actor: Actor, events: Seq<AnimEvent>)
    ensures
        actor.anim.state.rank() <= actor.after_all(events).anim.state.rank(),
        actor.anim.state.dying() ==> actor.after_all(events).anim.state.dying(),
        actor.anim.state == AnimState::Dead ==> actor.after_all(events).anim.state
            == AnimState::Dead,
    decreases events.len(),
{
    if events.len() > 0 {
        lemma_forward_only(actor, events.drop_last());
    }
}

/// Whatever happens to a well-formed entity, and however long the ticks
/// are: each blink counts one flash and toggles the visibility once, the
/// entity is dead exactly when its flashes have reached the maximum, and
/// until then it has blinked less often than that.
pub proof fn lemma_flashes_exactly(actor: Actor, events: Seq<AnimEvent>)
    requires
        actor.anim.wf(),
        actor.anim.state != AnimState::Dead,
    ensures
        actor.after_all(events).anim.wf(),
        actor.after_all(events).anim.max_flashes == actor.anim.max_flashes,
        actor.after_all(events).anim.flash_count == actor.anim.flash_count + actor.blinks_during(
            events,
        ),
        actor.after_all(events).visible == flipped(actor.visible, actor.blinks_during(events)),
        actor.after_all(events).anim.state == AnimState::Dead <==> actor.anim.flash_count
            + actor.blinks_during(events) == actor.anim.max_flashes,
        actor.after_all(events).anim.state != AnimState::Dead ==> actor.anim.flash_count
            + actor.blinks_during(events) < actor.anim.max_flashes,
    decreases events.len(),
{
    if events.len() > 0 {
        lemma_flashes_exactly(actor, events.drop_last());
    }
}

} // verus!
