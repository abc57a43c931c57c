use hold_the_line::animation::{
    animate_sprite, flash_sprite, AnimState, AnimationComponent, Visibility, BLINK_PERIOD,
    DEATH_LINGER, FRAME_PERIOD, LAST_FRAME, MAX_FLASHES,
};
use hold_the_line::machine::{Actor, AnimEvent};
use hold_the_line::timer::TimerMode;

const MS: u64 = 1_000_000;

const ALL_STATES: [AnimState; 6] = [
    AnimState::Walking,
    AnimState::Idle,
    AnimState::Hurting,
    AnimState::Dying,
    AnimState::Flashing,
    AnimState::Dead,
];

#[test]
fn states_that_play_a_clip() {
    assert!(AnimState::Walking.should_anim());
    assert!(AnimState::Idle.should_anim());
    assert!(AnimState::Hurting.should_anim());
    assert!(AnimState::Dying.should_anim());
    assert!(!AnimState::Flashing.should_anim());
    assert!(!AnimState::Dead.should_anim());
}

#[test]
fn states_of_the_dying() {
    assert!(!AnimState::Walking.is_dying());
    assert!(!AnimState::Idle.is_dying());
    assert!(!AnimState::Hurting.is_dying());
    assert!(AnimState::Dying.is_dying());
    assert!(AnimState::Flashing.is_dying());
    assert!(AnimState::Dead.is_dying());
}

#[test]
fn state_names() {
    assert_eq!(AnimState::Walking.to_string(), "walk");
    assert_eq!(AnimState::Idle.to_string(), "idle");
    assert_eq!(AnimState::Dying.to_string(), "die");
    assert_eq!(AnimState::Hurting.to_string(), "hurt");
    assert_eq!(AnimState::Flashing.to_string(), "flash");
    assert_eq!(AnimState::Dead.to_string(), "dead");
}

#[test]
fn default_state_is_walking() {
    assert_eq!(AnimState::default(), AnimState::Walking);
    assert_eq!(AnimationComponent::default(), AnimationComponent::new(AnimState::Walking));
}

#[test]
fn new_component_has_the_fixed_settings() {
    let c = AnimationComponent::new(AnimState::Idle);
    assert_eq!(c.state, AnimState::Idle);
    assert_eq!(c.first, 0);
    assert_eq!(c.last, 3);
    assert_eq!(LAST_FRAME, 3);
    assert_eq!(c.max_flashes, 6);
    assert_eq!(MAX_FLASHES, 6);
    assert_eq!(c.flash_count, 0);
    assert_eq!(c.timer.duration, 100 * MS);
    assert_eq!(FRAME_PERIOD, 100 * MS);
    assert_eq!(c.timer.mode, TimerMode::Repeating);
    assert_eq!(c.dying_timer.duration, 500 * MS);
    assert_eq!(DEATH_LINGER, 500 * MS);
    assert_eq!(c.dying_timer.mode, TimerMode::Once);
    assert_eq!(c.flashing_timer.duration, 200 * MS);
    assert_eq!(BLINK_PERIOD, 200 * MS);
    assert_eq!(c.flashing_timer.mode, TimerMode::Repeating);
}

#[test]
fn only_the_living_can_be_put_into_a_state() {
    let living = [AnimState::Walking, AnimState::Idle, AnimState::Hurting];
    for from in ALL_STATES {
        for to in ALL_STATES {
            let expected = living.contains(&from) && (living.contains(&to) || to == AnimState::Dying);
            assert_eq!(from.can_transition(to), expected, "{:?} -> {:?}", from, to);
        }
    }
}

#[test]
fn visibility_toggles() {
    assert_eq!(Visibility::Visible.toggle(), Visibility::Hidden);
    assert_eq!(Visibility::Hidden.toggle(), Visibility::Visible);
    assert_eq!(Visibility::Inherited.toggle(), Visibility::Hidden);
}

#[test]
fn walking_entity_advances_three_frames_in_three_ticks() {
    let mut anim = AnimationComponent::new(AnimState::Walking);
    let mut index = 0usize;
    for expected in [1usize, 2, 3] {
        animate_sprite(&mut anim, &mut index, 100 * MS);
        assert_eq!(index, expected);
    }
    assert_eq!(index, 3);
    assert_eq!(anim.state, AnimState::Walking);
    animate_sprite(&mut anim, &mut index, 50 * MS);
    assert_eq!(index, 3);
    animate_sprite(&mut anim, &mut index, 50 * MS);
    assert_eq!(index, 0);
}

#[test]
fn frame_waits_for_the_timer() {
    let mut anim = AnimationComponent::new(AnimState::Idle);
    let mut index = 2usize;
    animate_sprite(&mut anim, &mut index, 99 * MS);
    assert_eq!(index, 2);
    assert_eq!(anim.timer.elapsed, 99 * MS);
    animate_sprite(&mut anim, &mut index, MS);
    assert_eq!(index, 3);
    assert_eq!(anim.timer.elapsed, 0);
}

#[test]
fn a_long_tick_advances_one_frame_only() {
    let mut anim = AnimationComponent::new(AnimState::Walking);
    let mut index = 0usize;
    animate_sprite(&mut anim, &mut index, 350 * MS);
    assert_eq!(index, 1);
    assert_eq!(anim.timer.times_finished_this_tick, 3);
    assert_eq!(anim.timer.elapsed, 50 * MS);
}

#[test]
fn frames_outside_zero_to_three() {
    let mut anim = AnimationComponent::new(AnimState::Walking);
    anim.first = 4;
    anim.last = 5;
    let mut index = 4usize;
    animate_sprite(&mut anim, &mut index, 100 * MS);
    assert_eq!(index, 5);
    animate_sprite(&mut anim, &mut index, 100 * MS);
    assert_eq!(index, 4);
}

#[test]
fn dying_entity_lingers_then_flashes() {
    let mut anim = AnimationComponent::new(AnimState::Walking);
    let mut index = 3usize;
    assert!(anim.force(&mut index, AnimState::Dying));
    assert_eq!(index, 0);
    index = anim.last;
    animate_sprite(&mut anim, &mut index, 300 * MS);
    assert_eq!(anim.state, AnimState::Dying);
    assert_eq!(index, 3);
    assert_eq!(anim.dying_timer.elapsed, 300 * MS);
    animate_sprite(&mut anim, &mut index, 300 * MS);
    assert_eq!(anim.state, AnimState::Flashing);
    assert_eq!(index, 3);
}

#[test]
fn dying_entity_plays_its_clip_before_it_lingers() {
    let mut anim = AnimationComponent::new(AnimState::Dying);
    let mut index = 0usize;
    for expected in [1usize, 2, 3] {
        animate_sprite(&mut anim, &mut index, 100 * MS);
        assert_eq!(index, expected);
        assert_eq!(anim.dying_timer.elapsed, 0);
    }
    for _ in 0..4 {
        animate_sprite(&mut anim, &mut index, 100 * MS);
        assert_eq!(anim.state, AnimState::Dying);
        assert_eq!(index, 3);
    }
    animate_sprite(&mut anim, &mut index, 100 * MS);
    assert_eq!(anim.state, AnimState::Flashing);
    assert_eq!(index, 3);
}

#[test]
fn flashing_and_dead_entities_keep_their_frame() {
    for state in [AnimState::Flashing, AnimState::Dead] {
        let mut anim = AnimationComponent::new(state);
        let before = anim;
        let mut index = 2usize;
        animate_sprite(&mut anim, &mut index, 1_000 * MS);
        assert_eq!(index, 2);
        assert_eq!(anim, before);
    }
}

#[test]
fn flashing_entity_is_dead_after_six_blinks() {
    let mut anim = AnimationComponent::new(AnimState::Flashing);
    let mut visible = Visibility::Visible;
    let mut toggles = 0;
    for _ in 0..13 {
        let before = visible;
        flash_sprite(&mut anim, &mut visible, 100 * MS);
        if visible != before {
            toggles += 1;
        }
    }
    assert_eq!(anim.flash_count, 6);
    assert_eq!(anim.state, AnimState::Dead);
    assert_eq!(toggles, 6);
    assert_eq!(visible, Visibility::Visible);
}

#[test]
fn flashing_entity_still_flashes_after_five_blinks() {
    let mut anim = AnimationComponent::new(AnimState::Flashing);
    let mut visible = Visibility::Inherited;
    for _ in 0..11 {
        flash_sprite(&mut anim, &mut visible, 100 * MS);
    }
    assert_eq!(anim.flash_count, 5);
    assert_eq!(anim.state, AnimState::Flashing);
    assert_eq!(visible, Visibility::Hidden);
    flash_sprite(&mut anim, &mut visible, 100 * MS);
    assert_eq!(anim.flash_count, 6);
    assert_eq!(anim.state, AnimState::Dead);
    assert_eq!(visible, Visibility::Visible);
}

#[test]
fn blinks_do_not_depend_on_the_length_of_ticks() {
    for tick in [1 * MS, 7 * MS, 40 * MS, 200 * MS, 333 * MS, 5_000 * MS] {
        let mut anim = AnimationComponent::new(AnimState::Flashing);
        let mut visible = Visibility::Visible;
        let mut toggles = 0usize;
        let mut ticks = 0usize;
        while anim.state != AnimState::Dead {
            let before = visible;
            flash_sprite(&mut anim, &mut visible, tick);
            if visible != before {
                toggles += 1;
            }
            ticks += 1;
            assert!(ticks < 10_000);
        }
        assert_eq!(toggles, 6, "tick of {} ns", tick);
        assert_eq!(anim.flash_count, 6);
    }
}

#[test]
fn only_flashing_entities_blink() {
    for state in [
        AnimState::Walking,
        AnimState::Idle,
        AnimState::Hurting,
        AnimState::Dying,
        AnimState::Dead,
    ] {
        let mut anim = AnimationComponent::new(state);
        let before = anim;
        let mut visible = Visibility::Visible;
        flash_sprite(&mut anim, &mut visible, 1_000 * MS);
        assert_eq!(anim, before);
        assert_eq!(visible, Visibility::Visible);
    }
}

#[test]
fn frame_and_blink_timers_do_not_share_ticks() {
    let mut anim = AnimationComponent::new(AnimState::Dying);
    let mut index = 3usize;
    let mut visible = Visibility::Visible;
    flash_sprite(&mut anim, &mut visible, 500 * MS);
    assert_eq!(anim.flashing_timer.elapsed, 0);
    animate_sprite(&mut anim, &mut index, 500 * MS);
    assert_eq!(anim.state, AnimState::Flashing);
    assert_eq!(anim.flashing_timer.elapsed, 0);
    let frame_timer = anim.timer;
    flash_sprite(&mut anim, &mut visible, 200 * MS);
    assert_eq!(anim.flash_count, 1);
    assert_eq!(visible, Visibility::Hidden);
    assert_eq!(anim.timer, frame_timer);
}

#[test]
fn forcing_a_dying_entity_changes_nothing() {
    for state in [AnimState::Dying, AnimState::Flashing, AnimState::Dead] {
        for next in ALL_STATES {
            let mut anim = AnimationComponent::new(state);
            let before = anim;
            let mut index = 2usize;
            assert!(!anim.force(&mut index, next));
            assert_eq!(anim, before);
            assert_eq!(index, 2);
        }
    }
}

#[test]
fn forcing_a_living_entity() {
    let mut anim = AnimationComponent::new(AnimState::Walking);
    let mut index = 2usize;
    assert!(anim.force(&mut index, AnimState::Idle));
    assert_eq!(anim.state, AnimState::Idle);
    assert_eq!(index, 2);
    assert!(!anim.force(&mut index, AnimState::Flashing));
    assert!(!anim.force(&mut index, AnimState::Dead));
    assert_eq!(anim.state, AnimState::Idle);
    assert!(anim.force(&mut index, AnimState::Dying));
    assert_eq!(anim.state, AnimState::Dying);
    assert_eq!(index, 0);
}

#[test]
fn a_run_of_events_from_walking_to_dead() {
    let mut actor = Actor {
        anim: AnimationComponent::new(AnimState::Walking),
        index: 0,
        visible: Visibility::Visible,
    };
    let mut events = vec![
        AnimEvent::Frame(100 * MS),
        AnimEvent::Frame(100 * MS),
        AnimEvent::Force(AnimState::Dying),
        AnimEvent::Force(AnimState::Walking),
    ];
    actor.run(&events);
    assert_eq!(actor.anim.state, AnimState::Dying);
    assert_eq!(actor.index, 0);
    events.clear();
    for _ in 0..3 {
        events.push(AnimEvent::Frame(100 * MS));
        events.push(AnimEvent::Blink(100 * MS));
    }
    actor.run(&events);
    assert_eq!(actor.anim.state, AnimState::Dying);
    assert_eq!(actor.index, 3);
    assert_eq!(actor.visible, Visibility::Visible);
    actor.apply(AnimEvent::Frame(500 * MS));
    assert_eq!(actor.anim.state, AnimState::Flashing);
    events.clear();
    for _ in 0..6 {
        events.push(AnimEvent::Force(AnimState::Idle));
        events.push(AnimEvent::Frame(100 * MS));
        events.push(AnimEvent::Blink(200 * MS));
    }
    actor.run(&events);
    assert_eq!(actor.anim.state, AnimState::Dead);
    assert_eq!(actor.anim.flash_count, 6);
    assert_eq!(actor.index, 3);
    assert_eq!(actor.visible, Visibility::Visible);
    actor.apply(AnimEvent::Blink(200 * MS));
    actor.apply(AnimEvent::Force(AnimState::Walking));
    assert_eq!(actor.anim.state, AnimState::Dead);
    assert_eq!(actor.anim.flash_count, 6);
}

#[test]
fn frame_index_stays_in_range_over_many_events() {
    let mut actor = Actor {
        anim: AnimationComponent::new(AnimState::Walking),
        index: 0,
        visible: Visibility::Visible,
    };
    let mut seed: u64 = 12345;
    let mut rank = 0;
    for _ in 0..2_000 {
        seed = seed.wrapping_mul(6364136223846793005).wrapping_add(1442695040888963407);
        let delta = (seed >> 33) % (300 * MS);
        let event = match (seed >> 20) % 7 {
            0 | 1 | 2 => AnimEvent::Frame(delta),
            3 | 4 => AnimEvent::Blink(delta),
            5 => AnimEvent::Force(ALL_STATES[((seed >> 10) % 6) as usize]),
            _ => AnimEvent::Force(AnimState::Idle),
        };
        actor.apply(event);
        assert!(actor.index <= actor.anim.last);
        let now = match actor.anim.state {
            AnimState::Walking | AnimState::Idle | AnimState::Hurting => 0,
            AnimState::Dying => 1,
            AnimState::Flashing => 2,
            AnimState::Dead => 3,
        };
        assert!(now >= rank);
        rank = now;
    }
    assert_eq!(actor.anim.state, AnimState::Dead);
    assert_eq!(actor.anim.flash_count, 6);
}
