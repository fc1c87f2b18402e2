use walk_the_dog::player::{FLOOR, HEIGHT, PLAYER_HEIGHT, RUN_SPEED, STARTING_POINT};
use walk_the_dog::{Event, Idle, PlayerKind, RedHatBoyState, RedHatBoyStateMachine};

fn running() -> RedHatBoyStateMachine {
    RedHatBoyStateMachine::new().transition(Event::Run)
}

#[test]
fn starts_idle_on_the_floor() {
    let m = RedHatBoyStateMachine::new();
    assert_eq!(m.kind(), PlayerKind::Idle);
    let c = m.context();
    assert_eq!((c.frame, c.position.x, c.position.y), (0, STARTING_POINT, FLOOR));
    assert_eq!((c.velocity.x, c.velocity.y), (0, 0));
    assert_eq!(m.frame_name(), "Idle");
}

#[test]
fn illegal_events_leave_the_player_unchanged() {
    let idle = RedHatBoyStateMachine::new();
    for e in [Event::Jump, Event::Slide, Event::Land(300), Event::KnockOut] {
        let after = idle.transition(e);
        assert_eq!(after.kind(), PlayerKind::Idle);
        assert_eq!(*after.context(), *idle.context());
    }
    let run = running();
    let after = run.transition(Event::Run);
    assert_eq!(after.kind(), PlayerKind::Running);
    assert_eq!(*after.context(), *run.context());
    let jumping = run.transition(Event::Jump);
    for e in [Event::Jump, Event::Slide, Event::Run] {
        let after = jumping.transition(e);
        assert_eq!(after.kind(), PlayerKind::Jumping);
        assert_eq!(*after.context(), *jumping.context());
    }
    let sliding = run.transition(Event::Slide);
    for e in [Event::Jump, Event::Slide, Event::Run] {
        let after = sliding.transition(e);
        assert_eq!(after.kind(), PlayerKind::Sliding);
        assert_eq!(*after.context(), *sliding.context());
    }
    let falling = run.transition(Event::KnockOut);
    for e in [Event::Jump, Event::Slide, Event::Run, Event::Land(300), Event::KnockOut] {
        let after = falling.transition(e);
        assert_eq!(after.kind(), PlayerKind::Falling);
        assert_eq!(*after.context(), *falling.context());
    }
}

#[test]
fn run_adds_run_speed_and_resets_the_frame() {
    let idle = RedHatBoyStateMachine::new().update().update();
    assert_eq!(idle.context().frame, 2);
    let run = idle.transition(Event::Run);
    assert_eq!(run.kind(), PlayerKind::Running);
    assert_eq!(run.context().velocity.x, idle.context().velocity.x + RUN_SPEED);
    assert_eq!(run.context().frame, 0);
    let typed = RedHatBoyState::<Idle>::new().run();
    assert_eq!(typed.context().velocity.x, RUN_SPEED);
    assert_eq!(typed.frame_name(), "Run");
}

#[test]
fn idle_update_advances_and_wraps_the_frame() {
    let mut m = RedHatBoyStateMachine::new();
    for expected in 1..=29u8 {
        m = m.update();
        assert_eq!(m.context().frame, expected);
    }
    m = m.update();
    assert_eq!(m.context().frame, 0);
    assert_eq!(m.context().position.y, FLOOR);
}

#[test]
fn gravity_stops_at_terminal_velocity() {
    let mut m = running();
    for _ in 0..40 {
        m = m.update();
    }
    assert_eq!(m.context().velocity.y, 20);
    assert_eq!(m.context().position.y, FLOOR);
}

#[test]
fn jump_auto_lands_exactly_at_the_floor() {
    let mut m = running().transition(Event::Jump);
    assert_eq!(m.kind(), PlayerKind::Jumping);
    assert_eq!(m.context().velocity.y, -25);
    assert_eq!(m.frame_name(), "Jump");
    let mut ticks = 0;
    while m.kind() == PlayerKind::Jumping {
        let before = *m.context();
        m = m.update();
        ticks += 1;
        let integrated = before.position.y as i32 + before.velocity.y as i32 + 1;
        if m.kind() == PlayerKind::Jumping {
            assert!(integrated < FLOOR as i32);
        } else {
            assert!(integrated >= FLOOR as i32);
        }
    }
    assert_eq!(ticks, 50);
    assert_eq!(m.kind(), PlayerKind::Running);
    assert_eq!(m.context().position.y, HEIGHT - PLAYER_HEIGHT);
    assert_eq!(m.context().frame, 0);
}

#[test]
fn landing_snaps_to_the_top_less_the_player_height() {
    let m = running().transition(Event::Jump).update().transition(Event::Land(420));
    assert_eq!(m.kind(), PlayerKind::Running);
    assert_eq!(m.context().position.y, 420 - PLAYER_HEIGHT);
    assert_eq!(m.context().frame, 0);
    let s = running().transition(Event::Slide).transition(Event::Land(375));
    assert_eq!(s.kind(), PlayerKind::Sliding);
    assert_eq!(s.context().position.y, 375 - PLAYER_HEIGHT);
}

#[test]
fn falling_becomes_knocked_out_at_the_last_frame() {
    let mut m = running().update().transition(Event::KnockOut);
    assert_eq!(m.kind(), PlayerKind::Falling);
    assert_eq!(m.frame_name(), "Dead");
    assert_eq!((m.context().velocity.x, m.context().velocity.y, m.context().frame), (0, 0, 0));
    for _ in 0..28 {
        m = m.update();
        assert_eq!(m.kind(), PlayerKind::Falling);
    }
    m = m.update();
    assert_eq!(m.kind(), PlayerKind::KnockedOut);
    assert_eq!(m.context().frame, 29);
    assert!(m.knocked_out());
    for e in [Event::Run, Event::Jump, Event::Slide, Event::Land(100), Event::KnockOut, Event::Update] {
        let after = m.transition(e);
        assert_eq!(after.kind(), PlayerKind::KnockedOut);
        assert_eq!(*after.context(), *m.context());
    }
}

#[test]
fn sliding_stands_up_after_its_frames() {
    let mut m = running().transition(Event::Slide);
    assert_eq!(m.kind(), PlayerKind::Sliding);
    assert_eq!(m.frame_name(), "Slide");
    for _ in 0..13 {
        m = m.update();
        assert_eq!(m.kind(), PlayerKind::Sliding);
    }
    m = m.update();
    assert_eq!(m.kind(), PlayerKind::Running);
    assert_eq!(m.context().frame, 0);
}
