use walk_the_dog::obstacle::contact_event;
use walk_the_dog::player::{FLOOR, HEIGHT, PLAYER_HEIGHT, RUN_SPEED};
use walk_the_dog::segments::{platform_and_stone, rightmost, stone_and_platform};
use walk_the_dog::session::{
    GameOver, GameOverEndState, Ready, ReadyEndState, SessionError, WalkTheDogState,
};
use walk_the_dog::{
    Barrier, Cell, Effects, Platform, Event, Image, KeyState, Obstacle, Phase, PlayerKind, Point, Rect,
    RedHatBoy, Sheet, SheetRect, Walk, WalkTheDog, WalkTheDogStateMachine,
};

fn cell(w: i16, h: i16) -> Cell {
    Cell {
        frame: SheetRect { x: 0, y: 0, w, h },
        sprite_source_size: SheetRect { x: 0, y: 0, w, h },
    }
}

fn player_sheet() -> Sheet {
    let mut frames = Vec::new();
    for (prefix, count) in [("Idle", 10), ("Run", 8), ("Slide", 5), ("Jump", 12), ("Dead", 10)] {
        for n in 1..=count {
            frames.push((format!("{} ({}).png", prefix, n), cell(100, 121)));
        }
    }
    Sheet { frames }
}

fn tiles_sheet() -> Sheet {
    let frames = ["13.png", "14.png", "15.png"]
        .iter()
        .map(|n| (n.to_string(), cell(128, 93)))
        .collect();
    Sheet { frames }
}

fn fresh_walk() -> Walk {
    Walk::new(player_sheet(), tiles_sheet(), 1000, 600, 90, 54).unwrap()
}

fn keys(arrow_right: bool, space: bool, arrow_down: bool) -> KeyState {
    KeyState { arrow_right, space, arrow_down }
}

fn stone_at(x: i16) -> Obstacle {
    Obstacle::Barrier(Barrier::new(Image::new(Point { x, y: 546 }, 90, 54)))
}

#[test]
fn frame_names_follow_three_ticks_per_picture() {
    let boy = RedHatBoy::new(player_sheet()).unwrap();
    assert_eq!(boy.frame_name(), "Idle (1).png");
    let mut boy = boy;
    for _ in 0..3 {
        boy.update();
    }
    assert_eq!(boy.frame_name(), "Idle (2).png");
    assert_eq!(boy.current_sprite(), Some(cell(100, 121)));
}

#[test]
fn incomplete_sheet_is_refused() {
    let mut sheet = player_sheet();
    sheet.frames.retain(|(n, _)| n != "Jump (12).png");
    assert!(RedHatBoy::new(sheet.clone()).is_none());
    assert!(Walk::new(sheet, tiles_sheet(), 1000, 600, 90, 54).is_none());
    assert!(Walk::new(player_sheet(), tiles_sheet(), 3, 600, 90, 54).is_none());
    assert!(Walk::new(player_sheet(), tiles_sheet(), 1000, 600, 5000, 54).is_none());
}

#[test]
fn bounding_box_trims_the_sprite() {
    let boy = RedHatBoy::new(player_sheet()).unwrap();
    let d = boy.destination_box();
    assert_eq!(d, Rect::new_from_x_y(-20, FLOOR, 100, 121));
    assert_eq!(boy.bounding_box(), Rect::new_from_x_y(-4, FLOOR + 14, 72, 107));
}

#[test]
fn platform_contact_lands_only_from_above_while_falling() {
    assert_eq!(contact_event(5, 300, 420, 420), Event::Land(420));
    assert_eq!(contact_event(5, 500, 420, 420), Event::KnockOut);
    assert_eq!(contact_event(-5, 300, 420, 420), Event::KnockOut);
    assert_eq!(contact_event(-5, 500, 420, 420), Event::KnockOut);
    assert_eq!(contact_event(0, 300, 420, 420), Event::KnockOut);
}

#[test]
fn platform_collision_lands_or_knocks_out() {
    let tiles = tiles_sheet();
    // a platform right under a falling player
    let seg = stone_and_platform(&tiles, 90, 54, -390);
    let platform = &seg[1];
    let mut boy = RedHatBoy::new(player_sheet()).unwrap();
    boy.run_right();
    boy.jump();
    for _ in 0..41 {
        boy.update();
    }
    assert!(boy.velocity_y() > 0);
    assert!(boy.pos_y() < 420);
    let bb = boy.bounding_box();
    let hits = match platform {
        Obstacle::Platform(p) => p.bounding_boxes.iter().any(|b| bb.intersects(b)),
        _ => false,
    };
    assert!(hits);
    platform.check_intersection(&mut boy);
    assert_eq!(boy.state_machine.kind(), PlayerKind::Running);
    assert_eq!(boy.pos_y(), 420 - PLAYER_HEIGHT);

    // a stone at the player's feet knocks out
    let mut runner = RedHatBoy::new(player_sheet()).unwrap();
    runner.run_right();
    stone_at(0).check_intersection(&mut runner);
    assert_eq!(runner.state_machine.kind(), PlayerKind::Falling);
}

#[test]
fn segments_follow_their_templates() {
    let tiles = tiles_sheet();
    let a = stone_and_platform(&tiles, 90, 54, 100);
    assert_eq!(a.len(), 2);
    assert_eq!(a[0].right(), 100 + 150 + 90);
    assert_eq!(a[1].right(), 100 + 370 + 384);
    match &a[1] {
        Obstacle::Platform(p) => {
            assert_eq!(p.position, Point { x: 470, y: 420 });
            assert_eq!(p.sprites.len(), 3);
            assert_eq!(p.bounding_boxes[1], Rect::new_from_x_y(530, 420, 264, 93));
        }
        _ => panic!("expected a platform"),
    }
    let b = platform_and_stone(&tiles, 90, 54, 100);
    assert_eq!(b[0].right(), 100 + 400 + 90);
    assert_eq!(b[1].right(), 100 + 200 + 384);
    assert_eq!(rightmost(&b), 100 + 200 + 384);
    assert_eq!(rightmost(&Vec::new()), 0);
}

#[test]
fn platform_sprites_are_drawn_side_by_side() {
    let tiles = tiles_sheet();
    let seg = stone_and_platform(&tiles, 90, 54, 100);
    match &seg[1] {
        Obstacle::Platform(p) => {
            let d = p.sprite_destinations().unwrap();
            assert_eq!(
                d,
                vec![
                    Rect::new_from_x_y(470, 420, 128, 93),
                    Rect::new_from_x_y(598, 420, 128, 93),
                    Rect::new_from_x_y(726, 420, 128, 93),
                ]
            );
        }
        _ => panic!("expected a platform"),
    }
    let wide = Platform {
        bounding_boxes: vec![],
        sprites: vec![cell(30000, 10), cell(30000, 10)],
        position: Point { x: 0, y: 0 },
    };
    assert!(wide.sprite_destinations().is_none());
}

#[test]
fn fresh_walk_starts_with_the_first_segment() {
    let walk = fresh_walk();
    assert_eq!(walk.obstacles.len(), 2);
    assert_eq!(walk.timeline, 754);
    assert_eq!(walk.first_background.bounding_box.position.x, 0);
    assert_eq!(walk.second_background.bounding_box.position.x, 1000);
    let wide = Walk::new(player_sheet(), tiles_sheet(), 1000, 600, 700, 54).unwrap();
    assert_eq!(wide.timeline, 850);
}

#[test]
fn passed_obstacles_are_dropped_in_order() {
    let mut walk = fresh_walk();
    walk.obstacles = vec![stone_at(-90), stone_at(500), stone_at(-100), stone_at(700)];
    walk.advance_obstacles(-4);
    let rights: Vec<i16> = walk.obstacles.iter().map(|o| o.right()).collect();
    assert_eq!(rights, vec![586, 786]);
}

#[test]
fn obstacle_moved_past_the_origin_is_gone_next_tick() {
    let mut walk = fresh_walk();
    walk.obstacles = vec![stone_at(-88), stone_at(600)];
    walk.advance_obstacles(-4);
    assert_eq!(walk.obstacles.len(), 2);
    assert_eq!(walk.obstacles[0].right(), -2);
    walk.advance_obstacles(-4);
    assert_eq!(walk.obstacles.len(), 1);
    assert_eq!(walk.obstacles[0].right(), 682);
}

#[test]
fn backgrounds_wrap_after_each_other() {
    let mut walk = fresh_walk();
    walk.first_background.set_x(-998);
    walk.second_background.set_x(2);
    walk.scroll_backgrounds(-4);
    assert_eq!(walk.first_background.bounding_box.position.x, 998);
    assert_eq!(walk.second_background.bounding_box.position.x, -2);
}

#[test]
fn segments_are_appended_past_the_timeline() {
    let mut walk = fresh_walk();
    walk.append_segment(1);
    assert_eq!(walk.obstacles.len(), 4);
    assert_eq!(walk.timeline, 754 + 20 + 200 + 384);
    let mut walk = fresh_walk();
    walk.append_segment(0);
    assert_eq!(walk.timeline, 754 + 20 + 370 + 384);
    let mut walk = fresh_walk();
    walk.append_segment(7);
    assert_eq!(walk.obstacles.len(), 2);
    assert_eq!(walk.timeline, 0);
    let mut walk = fresh_walk();
    walk.generate_next_segment();
    assert_eq!(walk.obstacles.len(), 4);
    assert!(walk.timeline == 1358 || walk.timeline == 1528);
}

#[test]
fn ready_idles_then_runs_then_lands_after_a_jump() {
    let mut walk = fresh_walk();
    walk.obstacles.clear();
    let mut machine = WalkTheDogStateMachine::new(walk);
    let start = *machine.walk().boy.state_machine.context();
    let (next, effects) = machine.update(&keys(false, false, false), false);
    machine = next;
    assert_eq!(machine.phase(), Phase::Ready);
    assert_eq!(effects, Effects::none());
    let c = *machine.walk().boy.state_machine.context();
    assert_eq!(c.position, start.position);
    assert_eq!((start.frame, c.frame), (0, 1));

    let (next, _) = machine.update(&keys(true, false, false), false);
    machine = next;
    assert_eq!(machine.phase(), Phase::Walking);
    assert_eq!(machine.walk().boy.walking_speed(), RUN_SPEED);

    let (next, effects) = machine.update(&keys(false, true, false), false);
    machine = next;
    assert!(effects.play_jump_sound);
    assert_eq!(machine.walk().boy.state_machine.kind(), PlayerKind::Jumping);
    let mut airborne_low = false;
    let mut ticks = 1;
    while machine.walk().boy.state_machine.kind() == PlayerKind::Jumping && ticks < 60 {
        airborne_low |= machine.walk().boy.pos_y() < FLOOR;
        let (next, _) = machine.update(&keys(false, false, false), false);
        machine = next;
        ticks += 1;
    }
    assert!(airborne_low);
    assert_eq!(ticks, 50);
    assert_eq!(machine.phase(), Phase::Walking);
    assert_eq!(machine.walk().boy.state_machine.kind(), PlayerKind::Running);
    assert_eq!(machine.walk().boy.pos_y(), HEIGHT - PLAYER_HEIGHT);
}

#[test]
fn game_over_resets_to_a_fresh_world() {
    let fresh = fresh_walk();
    let fresh_timeline = fresh.timeline;
    let mut played = fresh_walk();
    played.timeline = 3000;
    played.obstacles = vec![stone_at(900)];
    let state = WalkTheDogState { phase: GameOver, walk: played };
    let state = match state.update(false) {
        GameOverEndState::Continue(s) => s,
        GameOverEndState::Complete(_) => panic!("no signal yet"),
    };
    let ready = match state.update(true) {
        GameOverEndState::Complete(s) => s,
        GameOverEndState::Continue(_) => panic!("signal fired"),
    };
    assert_eq!(ready.walk.timeline, fresh_timeline);
    assert_eq!(ready.walk.obstacles.len(), 2);
    assert_eq!(ready.walk.boy.state_machine.kind(), PlayerKind::Idle);
    let again: WalkTheDogState<Ready> = match ready.update(&keys(false, false, false)) {
        ReadyEndState::Continue(s) => s,
        ReadyEndState::Complete(_) => panic!("no key"),
    };
    assert_eq!(again.walk.timeline, fresh_timeline);
    let rights: Vec<i16> = again.walk.obstacles.iter().map(|o| o.right()).collect();
    let fresh_rights: Vec<i16> = fresh.obstacles.iter().map(|o| o.right()).collect();
    assert_eq!(rights, fresh_rights);
}

#[test]
fn game_over_effects_and_session_errors() {
    let mut played = fresh_walk();
    played.boy.run_right();
    played.boy.knock_out();
    let machine = WalkTheDogStateMachine::GameOver(WalkTheDogState { phase: GameOver, walk: played });
    let (machine, effects) = machine.update(&keys(true, true, true), false);
    assert_eq!(machine.phase(), Phase::GameOver);
    assert_eq!(effects, Effects::none());
    let (machine, effects) = machine.update(&keys(false, false, false), true);
    assert_eq!(machine.phase(), Phase::Ready);
    assert!(effects.hide_new_game_button);

    let game = WalkTheDog::new();
    let started = game.initialize(fresh_walk()).ok().unwrap();
    assert!(matches!(started.initialize(fresh_walk()), Err(SessionError::AlreadyInitialized)));
    let mut idle = WalkTheDog::new();
    assert_eq!(idle.update(&keys(true, false, false), false), Effects::none());
}

#[test]
fn knocked_out_player_ends_the_walk() {
    let mut walk = fresh_walk();
    walk.boy.run_right();
    walk.obstacles = vec![stone_at(0)];
    let machine = WalkTheDogStateMachine::Walking(WalkTheDogState {
        phase: walk_the_dog::session::Walking,
        walk,
    });
    let (mut machine, mut effects) = machine.update(&keys(false, false, false), false);
    assert_eq!(machine.walk().boy.state_machine.kind(), PlayerKind::Falling);
    for _ in 0..29 {
        let (next, e) = machine.update(&keys(false, false, false), false);
        machine = next;
        effects = e;
        if machine.phase() == Phase::GameOver {
            break;
        }
    }
    assert_eq!(machine.phase(), Phase::GameOver);
    assert!(effects.show_new_game_button);
}
