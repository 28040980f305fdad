use futures::channel::mpsc::UnboundedSender;
use std::rc::Rc;
use walk_the_dog::engine::{
    Cell, DrawCommand, Image, ImageElement, KeyState, Point, Rect, Renderer, Sheet, SheetRect,
    SpriteSheet,
};
use walk_the_dog::game::obstacles::{Barrier, Obstacle, Platform};
use walk_the_dog::game::red_hat_boy::{sprite_file_name, to_decimal, RedHatBoy};
use walk_the_dog::game::red_hat_boy_states::{
    FallingEndState, JumpingEndState, RedHatBoyContext, RedHatBoyState, SlidingEndState,
    FALLING_FRAMES, FLOOR, JUMP_SPEED, PLAYER_HEIGHT, RUNNING_SPEED, SLIDING_FRAMES,
    STARTING_POINT, TERMINAL_VELOCITY,
};
use walk_the_dog::game::state_machine::{Event, RedHatBoyStateMachine};
use walk_the_dog::game::walk::{rightmost, Walk, WalkTheDogState, WalkingEndState};
use walk_the_dog::game::walk_the_dog::{Assets, GameError, WalkTheDog, WalkTheDogStateMachine};
use walk_the_dog::segments::{platform_and_stone, stone_and_platform};

fn cell() -> Cell {
    Cell {
        frame: SheetRect { x: 5, y: 7, w: 100, h: 136 },
        sprite_source_size: SheetRect { x: 64, y: 0, w: 100, h: 136 },
    }
}

fn boy_sheet() -> Sheet {
    let mut sheet = Sheet::new();
    for (name, frames) in [("Idle", 10), ("Run", 8), ("Slide", 5), ("Jump", 12), ("Dead", 10)] {
        for number in 1..=frames {
            sheet.insert(&format!("{} ({}).png", name, number), cell());
        }
    }
    sheet
}

fn tiles() -> Sheet {
    let mut sheet = Sheet::new();
    for (name, x) in [("13.png", 0), ("14.png", 128), ("15.png", 256)] {
        sheet.insert(
            name,
            Cell {
                frame: SheetRect { x, y: 0, w: 128, h: 93 },
                sprite_source_size: SheetRect { x: 0, y: 0, w: 128, h: 93 },
            },
        );
    }
    sheet
}

fn boy_image() -> ImageElement {
    ImageElement { id: 0, width: 1000, height: 1000 }
}

fn background() -> ImageElement {
    ImageElement { id: 1, width: 1200, height: 600 }
}

fn stone() -> ImageElement {
    ImageElement { id: 2, width: 75, height: 54 }
}

fn tiles_image() -> ImageElement {
    ImageElement { id: 3, width: 384, height: 93 }
}

fn assets() -> Assets {
    Assets {
        sheet: boy_sheet(),
        image: boy_image(),
        background: background(),
        stone: stone(),
        tiles: tiles(),
        tiles_image: tiles_image(),
    }
}

fn boy() -> RedHatBoy {
    RedHatBoy::new(boy_sheet(), boy_image()).unwrap()
}

fn sprite_sheet() -> Rc<SpriteSheet> {
    Rc::new(SpriteSheet::new(tiles(), tiles_image()))
}

fn walk() -> Walk {
    Walk::new(boy(), background(), stone(), sprite_sheet()).unwrap()
}

fn game() -> WalkTheDog {
    WalkTheDog::new().initialize(assets()).unwrap()
}

fn keys(codes: &[&str]) -> KeyState {
    let mut keystate = KeyState::new();
    for code in codes {
        keystate.set_pressed(code);
    }
    keystate
}

fn context_of(game: &WalkTheDog) -> RedHatBoyContext {
    *walk_of(game).boy().state_machine().context()
}

fn walk_of(game: &WalkTheDog) -> &Walk {
    match game.machine().unwrap() {
        WalkTheDogStateMachine::Ready(state) => state.walk(),
        WalkTheDogStateMachine::Walking(state) => state.walk(),
        WalkTheDogStateMachine::GameOver(state) => state.walk(),
    }
}

fn platform_at_the_left_edge() -> Platform {
    Platform::new(
        sprite_sheet(),
        Point { x: 0, y: 400 },
        &["13.png", "14.png", "15.png"],
        &[
            Rect::new_from_x_y(0, 0, 60, 54),
            Rect::new_from_x_y(60, 0, 384 - (60 * 2), 93),
            Rect::new_from_x_y(384 - 60, 0, 60, 54),
        ],
    )
}

fn falling_from_above() -> RedHatBoy {
    let mut boy = boy();
    boy.run_right();
    boy.jump();
    for _ in 0..45 {
        boy.update();
    }
    boy
}

fn game_over() -> (WalkTheDog, UnboundedSender<()>) {
    let mut game = game();
    game.update(&keys(&["ArrowRight"]));
    let nothing = KeyState::new();
    for _ in 0..200 {
        let effects = game.update(&nothing);
        if let Some(button) = effects.show_new_game {
            return (game, button);
        }
    }
    panic!("the stone never knocked the avatar out");
}

#[test]
fn idle_avatar_told_to_run_is_running() {
    let machine = RedHatBoyStateMachine::Idle(RedHatBoyState::new());
    let machine = machine.transition(Event::Run);
    assert!(matches!(machine, RedHatBoyStateMachine::Running(_)));
    assert_eq!(machine.context().velocity.x, RUNNING_SPEED);
    assert_eq!(machine.context().velocity.x, 3);
    assert_eq!(machine.context().frame, 0);
}

#[test]
fn running_avatar_jumps_and_comes_down_running_on_the_floor() {
    let machine = RedHatBoyStateMachine::Idle(RedHatBoyState::new()).transition(Event::Run);
    assert_eq!(machine.context().velocity.y, 0);
    let mut machine = machine.transition(Event::Jump);
    assert!(matches!(machine, RedHatBoyStateMachine::Jumping(_)));
    assert_eq!(machine.context().velocity.y, JUMP_SPEED);
    assert_eq!(machine.context().velocity.y, -27);
    assert!(machine.context().jump_sound_due);
    let mut ticks = 0;
    while matches!(machine, RedHatBoyStateMachine::Jumping(_)) {
        machine = machine.update();
        ticks += 1;
        assert!(ticks <= 100);
    }
    assert!(matches!(machine, RedHatBoyStateMachine::Running(_)));
    assert_eq!(machine.context().position.y, FLOOR);
    assert_eq!(machine.context().frame, 0);
    assert_eq!(ticks, 55);
}

#[test]
fn avatar_falling_on_the_middle_of_a_platform_lands_on_it() {
    let platform = platform_at_the_left_edge();
    assert_eq!(
        platform.bounding_boxes(),
        &vec![
            Rect::new_from_x_y(0, 400, 60, 54),
            Rect::new_from_x_y(60, 400, 264, 93),
            Rect::new_from_x_y(324, 400, 60, 54),
        ]
    );
    let mut boy = falling_from_above();
    assert!(matches!(boy.state_machine(), RedHatBoyStateMachine::Jumping(_)));
    assert_eq!(boy.velocity_y(), 18);
    assert_eq!(boy.pos_y(), 299);
    assert_eq!(boy.bounding_box(), Rect::new_from_x_y(62, 313, 72, 122));
    platform.check_intersection(&mut boy);
    assert!(matches!(boy.state_machine(), RedHatBoyStateMachine::Running(_)));
    assert_eq!(boy.pos_y(), 400 - PLAYER_HEIGHT);
    assert_eq!(boy.pos_y(), 279);
}

#[test]
fn avatar_running_into_a_platform_from_the_side_is_knocked_out() {
    let mut platform = platform_at_the_left_edge();
    platform.move_horizontally(100);
    assert_eq!(platform.position(), Point { x: 100, y: 400 });
    let mut boy = boy();
    boy.run_right();
    boy.land_on(400 + 60);
    assert_eq!(boy.pos_y(), 339);
    platform.check_intersection(&mut boy);
    assert!(matches!(boy.state_machine(), RedHatBoyStateMachine::Falling(_)));
    assert_eq!(boy.walking_speed(), 0);
}

#[test]
fn avatar_beside_a_platform_is_left_alone() {
    let mut platform = platform_at_the_left_edge();
    platform.move_horizontally(134);
    let mut boy = falling_from_above();
    platform.check_intersection(&mut boy);
    assert!(matches!(boy.state_machine(), RedHatBoyStateMachine::Jumping(_)));
    assert_eq!(boy.pos_y(), 299);
}

#[test]
fn barrier_knocks_the_avatar_out_whichever_way_it_moves() {
    let barrier = Barrier::new(Image::new(stone(), Point { x: 100, y: 546 }));
    let mut running = boy();
    running.run_right();
    barrier.check_intersection(&mut running);
    assert!(matches!(running.state_machine(), RedHatBoyStateMachine::Falling(_)));
    assert_eq!(running.state_machine().context().frame, 0);
    assert_eq!(running.walking_speed(), 0);

    let mut rising = boy();
    rising.run_right();
    rising.jump();
    rising.update();
    assert!(rising.velocity_y() < 0);
    barrier.check_intersection(&mut rising);
    assert!(matches!(rising.state_machine(), RedHatBoyStateMachine::Falling(_)));

    let high = Barrier::new(Image::new(stone(), Point { x: 100, y: 300 }));
    let mut falling = falling_from_above();
    assert!(falling.velocity_y() > 0);
    high.check_intersection(&mut falling);
    assert!(matches!(falling.state_machine(), RedHatBoyStateMachine::Falling(_)));
}

#[test]
fn barrier_out_of_reach_leaves_the_avatar_alone() {
    let barrier = Barrier::new(Image::new(stone(), Point { x: 134, y: 546 }));
    let mut boy = boy();
    boy.run_right();
    barrier.check_intersection(&mut boy);
    assert!(matches!(boy.state_machine(), RedHatBoyStateMachine::Running(_)));
}

#[test]
fn game_over_without_a_request_stays_as_it_is() {
    let (mut game, _button) = game_over();
    let context = context_of(&game);
    let timeline = walk_of(&game).timeline();
    let obstacles = walk_of(&game).obstacles().len();
    let backgrounds = *walk_of(&game).backgrounds();
    for _ in 0..3 {
        let effects = game.update(&keys(&["ArrowRight", "Space", "ArrowDown"]));
        assert!(!effects.play_jump_sound);
        assert!(effects.show_new_game.is_none());
        assert!(!effects.hide_new_game);
        assert!(matches!(game.machine(), Some(WalkTheDogStateMachine::GameOver(_))));
        assert_eq!(context_of(&game), context);
        assert_eq!(walk_of(&game).timeline(), timeline);
        assert_eq!(walk_of(&game).obstacles().len(), obstacles);
        assert_eq!(*walk_of(&game).backgrounds(), backgrounds);
    }
}

#[test]
fn game_over_with_a_request_is_ready_for_a_new_game() {
    let (mut game, button) = game_over();
    assert!(matches!(
        walk_of(&game).boy().state_machine(),
        RedHatBoyStateMachine::KnockedOut(_)
    ));
    let backgrounds = *walk_of(&game).backgrounds();
    button.unbounded_send(()).unwrap();
    let effects = game.update(&KeyState::new());
    assert!(!effects.play_jump_sound);
    assert!(effects.show_new_game.is_none());
    assert!(effects.hide_new_game);
    assert!(matches!(game.machine(), Some(WalkTheDogStateMachine::Ready(_))));
    let walk = walk_of(&game);
    assert!(matches!(walk.boy().state_machine(), RedHatBoyStateMachine::Idle(_)));
    assert_eq!(
        context_of(&game),
        RedHatBoyContext {
            frame: 0,
            position: Point { x: STARTING_POINT, y: FLOOR },
            velocity: Point { x: 0, y: 0 },
            jump_sound_due: false,
        }
    );
    assert_eq!(walk.obstacles().len(), 2);
    assert_eq!(walk.obstacles()[0].right(), 225);
    assert_eq!(walk.obstacles()[1].right(), 754);
    assert_eq!(walk.timeline(), 754);
    assert_eq!(*walk.backgrounds(), backgrounds);
}

#[test]
fn request_for_a_new_game_is_answered_once() {
    let (mut game, button) = game_over();
    button.unbounded_send(()).unwrap();
    button.unbounded_send(()).unwrap();
    game.update(&KeyState::new());
    assert!(matches!(game.machine(), Some(WalkTheDogStateMachine::Ready(_))));
    for _ in 0..3 {
        let effects = game.update(&KeyState::new());
        assert!(!effects.hide_new_game);
        assert!(matches!(game.machine(), Some(WalkTheDogStateMachine::Ready(_))));
    }
}

#[test]
fn game_over_answers_what_it_is_told_of_the_request() {
    let (mut game, _button) = game_over();
    let effects = game.update_with(&KeyState::new(), false, 0);
    assert!(!effects.hide_new_game);
    assert!(matches!(game.machine(), Some(WalkTheDogStateMachine::GameOver(_))));
    let effects = game.update_with(&KeyState::new(), true, 1);
    assert!(effects.hide_new_game);
    assert!(effects.show_new_game.is_none());
    assert!(matches!(game.machine(), Some(WalkTheDogStateMachine::Ready(_))));
    assert_eq!(walk_of(&game).obstacles().len(), 2);
}

#[test]
fn tick_lays_out_the_cluster_it_is_told_to() {
    for (choice, rights, timeline) in [
        (0, vec![222, 751, 999, 1528], 1528),
        (1, vec![222, 751, 1358, 1249], 1358),
    ] {
        let mut game = game();
        game.update_with(&keys(&["ArrowRight"]), false, choice);
        assert_eq!(walk_of(&game).obstacles().len(), 2);
        game.update_with(&KeyState::new(), false, choice);
        let walk = walk_of(&game);
        let seen: Vec<i16> = walk.obstacles().iter().map(|obstacle| obstacle.right()).collect();
        assert_eq!(seen, rights);
        assert_eq!(walk.timeline(), timeline);
        game.update_with(&KeyState::new(), true, 1 - choice);
        assert_eq!(walk_of(&game).obstacles().len(), 4);
        assert_eq!(walk_of(&game).timeline(), timeline - 3);
    }
}

#[test]
fn stone_knocks_the_avatar_out_and_the_game_is_over_after_the_fall() {
    let mut game = game();
    let effects = game.update(&keys(&["ArrowRight"]));
    assert!(!effects.play_jump_sound);
    assert!(effects.show_new_game.is_none());
    assert!(!effects.hide_new_game);
    assert!(matches!(game.machine(), Some(WalkTheDogStateMachine::Walking(_))));
    let nothing = KeyState::new();
    let mut ticks = 0;
    while !matches!(walk_of(&game).boy().state_machine(), RedHatBoyStateMachine::Falling(_)) {
        game.update(&nothing);
        ticks += 1;
        assert!(ticks < 100);
    }
    assert_eq!(ticks, 6);
    for tick in 1..=29 {
        assert!(matches!(game.machine(), Some(WalkTheDogStateMachine::Walking(_))));
        let effects = game.update(&nothing);
        assert_eq!(effects.show_new_game.is_some(), tick == 29);
    }
    assert!(matches!(game.machine(), Some(WalkTheDogStateMachine::GameOver(_))));
    assert!(walk_of(&game).knocked_out());
}

#[test]
fn game_waits_until_the_player_moves_right() {
    let mut game = game();
    for _ in 0..40 {
        game.update(&keys(&["Space", "ArrowDown"]));
        assert!(matches!(game.machine(), Some(WalkTheDogStateMachine::Ready(_))));
        assert!(matches!(
            walk_of(&game).boy().state_machine(),
            RedHatBoyStateMachine::Idle(_)
        ));
        assert_eq!(walk_of(&game).obstacles().len(), 2);
        assert_eq!(walk_of(&game).timeline(), 754);
    }
    assert_eq!(context_of(&game).frame, 10);
    assert_eq!(context_of(&game).velocity, Point { x: 0, y: 18 });
    game.update_with(&KeyState::new(), true, 0);
    assert!(matches!(game.machine(), Some(WalkTheDogStateMachine::Ready(_))));
    game.update(&keys(&["ArrowRight"]));
    assert!(matches!(game.machine(), Some(WalkTheDogStateMachine::Walking(_))));
    assert!(matches!(
        walk_of(&game).boy().state_machine(),
        RedHatBoyStateMachine::Running(_)
    ));
    assert_eq!(context_of(&game).velocity.x, 3);
    assert_eq!(context_of(&game).frame, 0);
}

#[test]
fn jump_asks_for_its_sound_once() {
    let mut game = game();
    game.update(&keys(&["ArrowRight"]));
    let effects = game.update(&keys(&["Space"]));
    assert!(effects.play_jump_sound);
    assert!(!context_of(&game).jump_sound_due);
    assert!(matches!(
        walk_of(&game).boy().state_machine(),
        RedHatBoyStateMachine::Jumping(_)
    ));
    assert_eq!(context_of(&game).velocity.y, -26);
    assert_eq!(context_of(&game).position.y, 479 - 26);
    let effects = game.update(&keys(&["Space"]));
    assert!(!effects.play_jump_sound);
}

#[test]
fn slide_key_makes_the_avatar_slide() {
    let mut game = game();
    game.update(&keys(&["ArrowRight"]));
    game.update(&keys(&["ArrowDown"]));
    assert!(matches!(
        walk_of(&game).boy().state_machine(),
        RedHatBoyStateMachine::Sliding(_)
    ));
    assert_eq!(context_of(&game).frame, 1);
}

#[test]
fn tick_scrolls_the_scene_against_the_avatar() {
    let mut game = game();
    game.update(&keys(&["ArrowRight"]));
    assert_eq!(walk_of(&game).backgrounds()[0].bounding_box.position.x, 0);
    assert_eq!(walk_of(&game).backgrounds()[1].bounding_box.position.x, 1200);
    assert_eq!(walk_of(&game).obstacles()[0].right(), 225);
    game.update(&KeyState::new());
    assert_eq!(walk_of(&game).backgrounds()[0].bounding_box.position.x, -3);
    assert_eq!(walk_of(&game).backgrounds()[1].bounding_box.position.x, 1197);
    assert_eq!(walk_of(&game).obstacles()[0].right(), 222);
    assert_eq!(walk_of(&game).obstacles()[1].right(), 751);
}

#[test]
fn first_tick_of_the_game_lays_out_the_next_cluster() {
    let mut game = game();
    game.update(&keys(&["ArrowRight"]));
    assert_eq!(walk_of(&game).obstacles().len(), 2);
    game.update(&KeyState::new());
    let walk = walk_of(&game);
    assert_eq!(walk.obstacles().len(), 4);
    let rights: Vec<i16> = walk.obstacles().iter().map(|obstacle| obstacle.right()).collect();
    let stone_first = vec![222, 751, 754 + 20 + 150 + 75, 754 + 20 + 370 + 384];
    let platform_first = vec![222, 751, 754 + 20 + 200 + 384, 754 + 20 + 400 + 75];
    assert!(rights == stone_first || rights == platform_first);
    let newest = rights[2].max(rights[3]);
    assert_eq!(walk.timeline(), newest);
    assert_eq!(walk.timeline(), rightmost(walk.obstacles()) );
}

#[test]
fn timeline_scrolls_with_the_scene_while_the_lookahead_lasts() {
    let mut game = game();
    game.update(&keys(&["ArrowRight"]));
    game.update(&KeyState::new());
    let timeline = walk_of(&game).timeline();
    assert!(timeline >= 1000);
    game.update(&KeyState::new());
    assert_eq!(walk_of(&game).timeline(), timeline - 3);
    assert_eq!(walk_of(&game).obstacles().len(), 4);
}

#[test]
fn no_obstacle_stays_behind_the_left_edge() {
    let mut state = WalkTheDogState::new(walk()).start_running();
    let mut ticks = 0;
    loop {
        let walk = state.walk();
        for obstacle in walk.obstacles() {
            assert!(obstacle.right() > 0);
        }
        assert!(walk.obstacles().len() <= 8);
        state = match state.update(&KeyState::new()) {
            WalkingEndState::Continue(state) => state,
            WalkingEndState::Complete(over) => {
                for obstacle in over.walk().obstacles() {
                    assert!(obstacle.right() > 0);
                }
                break;
            }
        };
        ticks += 1;
        assert!(ticks < 100);
    }
    assert_eq!(ticks, 6 + 28);
}

#[test]
fn obstacles_that_have_left_the_screen_are_dropped() {
    let mut sheet = Sheet::new();
    for (name, frames) in [("Idle", 10), ("Run", 8), ("Slide", 5), ("Jump", 12), ("Dead", 10)] {
        for number in 1..=frames {
            sheet.insert(
                &format!("{} ({}).png", name, number),
                Cell {
                    frame: SheetRect { x: 0, y: 0, w: 100, h: 136 },
                    sprite_source_size: SheetRect { x: 64, y: -2000, w: 100, h: 136 },
                },
            );
        }
    }
    let out_of_reach = RedHatBoy::new(sheet, boy_image()).unwrap();
    let walk = Walk::new(out_of_reach, background(), stone(), sprite_sheet()).unwrap();
    let mut state = WalkTheDogState::new(walk).start_running();
    let mut lengths = Vec::new();
    for _ in 0..252 {
        state = match state.update_with(&KeyState::new(), 0) {
            WalkingEndState::Continue(state) => state,
            WalkingEndState::Complete(_) => panic!("nothing is within reach of the avatar"),
        };
        for obstacle in state.walk().obstacles() {
            assert!(obstacle.right() > 0);
        }
        lengths.push(state.walk().obstacles().len());
    }
    assert_eq!(lengths[0], 4);
    assert_eq!(lengths[73], 4);
    assert_eq!(lengths[74], 3);
    assert_eq!(lengths[177], 3);
    assert_eq!(lengths[178], 5);
    assert_eq!(lengths[250], 5);
    assert_eq!(lengths[251], 4);
}

#[test]
fn generator_lays_out_a_cluster_of_the_catalog() {
    for _ in 0..20 {
        let before = walk();
        let walk = before.generate_next_segment();
        assert_eq!(walk.obstacles().len(), 4);
        let first_is_stone = matches!(walk.obstacles()[2], Obstacle::Barrier(_));
        if first_is_stone {
            assert!(matches!(walk.obstacles()[3], Obstacle::Platform(_)));
            assert_eq!(walk.obstacles()[2].right(), 754 + 20 + 150 + 75);
            assert_eq!(walk.obstacles()[3].right(), 754 + 20 + 370 + 384);
            assert_eq!(walk.timeline(), 1528);
        } else {
            assert!(matches!(walk.obstacles()[2], Obstacle::Platform(_)));
            assert!(matches!(walk.obstacles()[3], Obstacle::Barrier(_)));
            assert_eq!(walk.obstacles()[2].right(), 754 + 20 + 200 + 384);
            assert_eq!(walk.obstacles()[3].right(), 754 + 20 + 400 + 75);
            assert_eq!(walk.timeline(), 1358);
        }
    }
}

#[test]
fn chosen_cluster_is_laid_out_behind_the_timeline() {
    let walk = walk().add_segment(1);
    assert_eq!(walk.obstacles().len(), 4);
    match &walk.obstacles()[2] {
        Obstacle::Platform(platform) => {
            assert_eq!(platform.position(), Point { x: 974, y: 375 });
            assert_eq!(platform.sprites().len(), 3);
        }
        Obstacle::Barrier(_) => panic!("a platform comes first"),
    }
    match &walk.obstacles()[3] {
        Obstacle::Barrier(barrier) => {
            assert_eq!(barrier.image().bounding_box, Rect::new_from_x_y(1174, 546, 75, 54));
        }
        Obstacle::Platform(_) => panic!("a stone comes second"),
    }
    assert_eq!(walk.timeline(), 1358);
    let walk = self::walk().add_segment(0);
    assert_eq!(walk.timeline(), 1528);
    let walk = self::walk().add_segment(7);
    assert_eq!(walk.obstacles().len(), 2);
    assert_eq!(walk.timeline(), 0);
}

#[test]
fn clusters_of_the_catalog() {
    let obstacles = stone_and_platform(stone(), sprite_sheet(), 100);
    assert_eq!(obstacles.len(), 2);
    match &obstacles[0] {
        Obstacle::Barrier(barrier) => {
            assert_eq!(barrier.image().bounding_box, Rect::new_from_x_y(250, 546, 75, 54));
            assert_eq!(barrier.image().element, stone());
        }
        Obstacle::Platform(_) => panic!("a stone comes first"),
    }
    match &obstacles[1] {
        Obstacle::Platform(platform) => {
            assert_eq!(platform.position(), Point { x: 470, y: 420 });
            assert_eq!(
                platform.bounding_boxes(),
                &vec![
                    Rect::new_from_x_y(470, 420, 60, 54),
                    Rect::new_from_x_y(530, 420, 264, 93),
                    Rect::new_from_x_y(794, 420, 60, 54),
                ]
            );
        }
        Obstacle::Barrier(_) => panic!("a platform comes second"),
    }
    assert_eq!(rightmost(&obstacles), 854);
    let obstacles = platform_and_stone(stone(), sprite_sheet(), 0);
    assert_eq!(obstacles[0].right(), 584);
    assert_eq!(obstacles[1].right(), 475);
    assert_eq!(rightmost(&obstacles), 584);
    assert_eq!(rightmost(&Vec::new()), 0);
}

#[test]
fn platform_shows_only_the_sprites_that_the_sheet_has() {
    let platform = Platform::new(
        sprite_sheet(),
        Point { x: 10, y: 20 },
        &["15.png", "none.png", "13.png"],
        &[],
    );
    assert_eq!(platform.sprites().len(), 2);
    assert_eq!(platform.sprites()[0].frame.x, 256);
    assert_eq!(platform.sprites()[1].frame.x, 0);
    assert_eq!(platform.bounding_boxes().len(), 0);
    assert_eq!(platform.right(), 0);
}

#[test]
fn platform_draws_its_sprites_side_by_side() {
    let platform = platform_at_the_left_edge();
    let mut renderer = Renderer::new();
    platform.draw(&mut renderer);
    assert_eq!(
        renderer.commands(),
        &vec![
            DrawCommand::Image {
                element: tiles_image(),
                frame: Rect::new_from_x_y(0, 0, 128, 93),
                destination: Rect::new_from_x_y(0, 400, 128, 93),
            },
            DrawCommand::Image {
                element: tiles_image(),
                frame: Rect::new_from_x_y(128, 0, 128, 93),
                destination: Rect::new_from_x_y(128, 400, 128, 93),
            },
            DrawCommand::Image {
                element: tiles_image(),
                frame: Rect::new_from_x_y(256, 0, 128, 93),
                destination: Rect::new_from_x_y(256, 400, 128, 93),
            },
        ]
    );
}

#[test]
fn frame_is_drawn_in_a_fixed_order() {
    let game = game();
    let mut renderer = Renderer::new();
    game.draw(&mut renderer);
    let commands = renderer.commands();
    assert_eq!(commands.len(), 1 + 2 + 1 + 1 + 3);
    assert_eq!(commands[0], DrawCommand::Clear(Rect::new_from_x_y(0, 0, 600, 600)));
    assert_eq!(
        commands[1],
        DrawCommand::EntireImage { element: background(), position: Point { x: 0, y: 0 } }
    );
    assert_eq!(
        commands[2],
        DrawCommand::EntireImage { element: background(), position: Point { x: 1200, y: 0 } }
    );
    assert_eq!(
        commands[3],
        DrawCommand::Image {
            element: boy_image(),
            frame: Rect::new_from_x_y(5, 7, 100, 136),
            destination: Rect::new_from_x_y(44, 479, 100, 136),
        }
    );
    assert_eq!(
        commands[4],
        DrawCommand::EntireImage { element: stone(), position: Point { x: 150, y: 546 } }
    );
    assert_eq!(
        commands[5],
        DrawCommand::Image {
            element: tiles_image(),
            frame: Rect::new_from_x_y(0, 0, 128, 93),
            destination: Rect::new_from_x_y(370, 420, 128, 93),
        }
    );
}

#[test]
fn game_that_is_not_set_up_draws_an_empty_field() {
    let game = WalkTheDog::new();
    assert!(!game.is_initialized());
    assert!(game.machine().is_none());
    let mut renderer = Renderer::new();
    game.draw(&mut renderer);
    assert_eq!(
        renderer.commands(),
        &vec![DrawCommand::Clear(Rect::new_from_x_y(0, 0, 600, 600))]
    );
}

#[test]
fn game_is_set_up_only_once() {
    let game = game();
    assert!(game.is_initialized());
    match game.initialize(assets()) {
        Err(error) => {
            assert_eq!(error, GameError::AlreadyInitialized);
            assert_eq!(error.message(), "Error: Game is already initialized!");
        }
        Ok(_) => panic!("a game was set up twice"),
    }
}

#[test]
fn game_needs_a_sprite_for_every_frame() {
    let mut sheet = Sheet::new();
    for (name, frames) in [("Idle", 10), ("Run", 8), ("Slide", 5), ("Jump", 12), ("Dead", 9)] {
        for number in 1..=frames {
            sheet.insert(&format!("{} ({}).png", name, number), cell());
        }
    }
    let assets = Assets { sheet, ..assets() };
    assert_eq!(WalkTheDog::new().initialize(assets).err(), Some(GameError::IncompleteSheet));
    assert!(RedHatBoy::new(Sheet::new(), boy_image()).is_none());
    let mut sheet = boy_sheet();
    sheet.insert(
        "Run (3).png",
        Cell {
            frame: SheetRect { x: 0, y: 0, w: 8193, h: 0 },
            sprite_source_size: SheetRect { x: 0, y: 0, w: 0, h: 0 },
        },
    );
    let assets = Assets { sheet, ..self::assets() };
    assert_eq!(WalkTheDog::new().initialize(assets).err(), Some(GameError::IncompleteSheet));
    assert_eq!(GameError::IncompleteSheet.message(), "Error: Cell not found");
}

#[test]
fn game_needs_pictures_that_can_serve() {
    let narrow = Assets { background: ImageElement { id: 1, width: 2, height: 600 }, ..assets() };
    assert_eq!(WalkTheDog::new().initialize(narrow).err(), Some(GameError::UnusableAssets));
    let huge = Assets { stone: ImageElement { id: 2, width: 75, height: 8193 }, ..assets() };
    assert_eq!(WalkTheDog::new().initialize(huge).err(), Some(GameError::UnusableAssets));
    let mut tiles = tiles();
    tiles.insert(
        "14.png",
        Cell {
            frame: SheetRect { x: 0, y: 0, w: -8193, h: 0 },
            sprite_source_size: SheetRect { x: 0, y: 0, w: 0, h: 0 },
        },
    );
    let wide = Assets { tiles, ..assets() };
    assert_eq!(WalkTheDog::new().initialize(wide).err(), Some(GameError::UnusableAssets));
    let bare = Assets { tiles: Sheet::new(), ..assets() };
    assert!(WalkTheDog::new().initialize(bare).is_ok());
    let just = Assets { background: ImageElement { id: 1, width: 3, height: 0 }, ..assets() };
    assert!(WalkTheDog::new().initialize(just).is_ok());
    assert_eq!(GameError::UnusableAssets.message(), "Error: Picture out of range");
}

#[test]
fn backgrounds_go_round() {
    let start = Assets { background: ImageElement { id: 1, width: 6, height: 600 }, ..assets() };
    let mut game = WalkTheDog::new().initialize(start).unwrap();
    game.update(&keys(&["ArrowRight"]));
    let nothing = KeyState::new();
    let mut seen = Vec::new();
    for _ in 0..5 {
        game.update(&nothing);
        let backgrounds = walk_of(&game).backgrounds();
        seen.push((
            backgrounds[0].bounding_box.position.x,
            backgrounds[1].bounding_box.position.x,
        ));
    }
    assert_eq!(seen, vec![(-3, 3), (-6, 0), (3, -3), (0, -6), (-3, 3)]);
}

#[test]
fn gravity_pulls_until_the_terminal_velocity() {
    let mut context = *RedHatBoyState::new().context();
    context.position.y = 0;
    context.velocity.y = -3;
    let mut previous = context.velocity.y;
    for _ in 0..30 {
        context = context.update(29);
        assert!(context.velocity.y <= TERMINAL_VELOCITY);
        if previous < TERMINAL_VELOCITY {
            assert_eq!(context.velocity.y, previous + 1);
        } else {
            assert_eq!(context.velocity.y, 18);
        }
        previous = context.velocity.y;
    }
    assert_eq!(context.velocity.y, 18);
    assert_eq!(context.position.y, (-2..=18).sum::<i16>() + 9 * 18);
}

#[test]
fn tick_never_leaves_the_avatar_below_the_floor() {
    let mut context = *RedHatBoyState::new().context();
    context.position.y = 470;
    context.velocity.y = 5;
    let context = context.update(29);
    assert_eq!(context.position.y, 476);
    let context = context.update(29);
    assert_eq!(context.position.y, 479);
    assert_eq!(context.velocity.y, 7);
    let context = context.update(29);
    assert_eq!(context.position.y, FLOOR);
}

#[test]
fn frame_counter_wraps_after_the_budget() {
    let mut context = *RedHatBoyState::new().context();
    for frame in 1..=29 {
        context = context.update(29);
        assert_eq!(context.frame, frame);
    }
    context = context.update(29);
    assert_eq!(context.frame, 0);
}

#[test]
fn knocked_out_avatar_stays_knocked_out() {
    let mut machine = RedHatBoyStateMachine::Idle(RedHatBoyState::new())
        .transition(Event::Run)
        .transition(Event::KnockOut);
    for _ in 0..29 {
        machine = machine.update();
    }
    assert!(machine.knocked_out());
    let context = *machine.context();
    for event in [
        Event::Run,
        Event::Slide,
        Event::Update,
        Event::Jump,
        Event::KnockOut,
        Event::Land(100),
        Event::Update,
    ] {
        machine = machine.transition(event);
        assert!(matches!(machine, RedHatBoyStateMachine::KnockedOut(_)));
        assert_eq!(*machine.context(), context);
    }
    assert_eq!(machine.frame_name(), "Dead");
}

#[test]
fn slide_ends_after_its_frames() {
    let mut machine = RedHatBoyStateMachine::Idle(RedHatBoyState::new())
        .transition(Event::Run)
        .transition(Event::Update)
        .transition(Event::Slide);
    assert_eq!(machine.context().frame, 0);
    for tick in 1..SLIDING_FRAMES {
        machine = machine.update();
        assert!(matches!(machine, RedHatBoyStateMachine::Sliding(_)));
        assert_eq!(machine.context().frame, tick);
    }
    machine = machine.update();
    assert!(matches!(machine, RedHatBoyStateMachine::Running(_)));
    assert_eq!(machine.context().frame, 0);
    assert_eq!(SLIDING_FRAMES, 14);
}

#[test]
fn fall_ends_after_its_frames() {
    let mut machine = RedHatBoyStateMachine::Idle(RedHatBoyState::new())
        .transition(Event::Run)
        .transition(Event::Jump)
        .transition(Event::KnockOut);
    assert!(matches!(machine, RedHatBoyStateMachine::Falling(_)));
    assert_eq!(machine.context().velocity.x, 0);
    for _ in 1..FALLING_FRAMES {
        machine = machine.update();
        assert!(matches!(machine, RedHatBoyStateMachine::Falling(_)));
    }
    machine = machine.update();
    assert!(matches!(machine, RedHatBoyStateMachine::KnockedOut(_)));
    assert_eq!(machine.context().frame, 29);
    assert_eq!(FALLING_FRAMES, 29);
}

#[test]
fn landing_puts_the_avatar_one_player_height_above_the_surface() {
    let running = RedHatBoyStateMachine::Idle(RedHatBoyState::new()).transition(Event::Run);
    let landed = running.transition(Event::Update).transition(Event::Land(400));
    assert!(matches!(landed, RedHatBoyStateMachine::Running(_)));
    assert_eq!(landed.context().position.y, 279);
    assert_eq!(landed.context().frame, 1);
    let sliding = running.transition(Event::Slide).transition(Event::Update);
    let landed = sliding.transition(Event::Land(-50));
    assert!(matches!(landed, RedHatBoyStateMachine::Sliding(_)));
    assert_eq!(landed.context().position.y, -50 - PLAYER_HEIGHT);
    assert_eq!(landed.context().frame, 1);
    let jumping = running.transition(Event::Jump).transition(Event::Update);
    let landed = jumping.transition(Event::Land(600));
    assert!(matches!(landed, RedHatBoyStateMachine::Running(_)));
    assert_eq!(landed.context().position.y, 479);
    assert_eq!(landed.context().frame, 0);
    assert_eq!(PLAYER_HEIGHT, 121);
}

#[test]
fn events_that_the_table_does_not_list_change_nothing() {
    let idle = RedHatBoyStateMachine::Idle(RedHatBoyState::new());
    for event in [Event::Jump, Event::Slide, Event::KnockOut, Event::Land(300)] {
        let next = idle.transition(event);
        assert!(matches!(next, RedHatBoyStateMachine::Idle(_)));
        assert_eq!(next.context(), idle.context());
    }
    let jumping = idle.transition(Event::Run).transition(Event::Jump);
    for event in [Event::Run, Event::Jump, Event::Slide] {
        let next = jumping.transition(event);
        assert!(matches!(next, RedHatBoyStateMachine::Jumping(_)));
        assert_eq!(next.context(), jumping.context());
    }
    let falling = jumping.transition(Event::KnockOut);
    for event in [Event::Run, Event::Jump, Event::Slide, Event::KnockOut, Event::Land(300)] {
        let next = falling.transition(event);
        assert!(matches!(next, RedHatBoyStateMachine::Falling(_)));
        assert_eq!(next.context(), falling.context());
    }
}

#[test]
fn states_by_their_own_methods() {
    let idle = RedHatBoyState::new();
    assert_eq!(idle.frame_name(), "Idle");
    let idle = idle.update();
    assert_eq!(idle.context().frame, 1);
    let running = idle.run();
    assert_eq!(running.frame_name(), "Run");
    assert_eq!(running.context().frame, 0);
    let running = running.update();
    assert_eq!(running.context().frame, 1);
    let sliding = running.slide();
    assert_eq!(sliding.frame_name(), "Slide");
    let standing = sliding.stand();
    assert_eq!(standing.context().frame, 0);
    let jumping = standing.jump();
    assert_eq!(jumping.frame_name(), "Jump");
    match jumping.update() {
        JumpingEndState::Jumping(state) => assert_eq!(state.context().velocity.y, -26),
        JumpingEndState::Landing(_) => panic!("a jump has just begun"),
    }
    match standing.slide().update() {
        SlidingEndState::Sliding(state) => assert_eq!(state.context().frame, 1),
        SlidingEndState::Running(_) => panic!("a slide has just begun"),
    }
    let falling = jumping.knock_out();
    assert_eq!(falling.frame_name(), "Dead");
    match falling.update() {
        FallingEndState::Falling(state) => assert_eq!(state.context().frame, 1),
        FallingEndState::KnockedOut(_) => panic!("a fall has just begun"),
    }
    let out = falling.knock_out();
    assert_eq!(out.frame_name(), "Dead");
    assert_eq!(out.context(), falling.context());
    assert!(jumping.context().jump_sound_due);
    assert!(!jumping.jump_sound_played().context().jump_sound_due);
}

#[test]
fn sprite_names_count_from_one_and_change_every_third_tick() {
    assert_eq!(sprite_file_name("Idle", 0), "Idle (1).png");
    assert_eq!(sprite_file_name("Idle", 2), "Idle (1).png");
    assert_eq!(sprite_file_name("Idle", 3), "Idle (2).png");
    assert_eq!(sprite_file_name("Idle", 29), "Idle (10).png");
    assert_eq!(sprite_file_name("Jump", 35), "Jump (12).png");
    assert_eq!(sprite_file_name("Run", 255), "Run (86).png");
    assert_eq!(to_decimal(0), "0");
    assert_eq!(to_decimal(9), "9");
    assert_eq!(to_decimal(10), "10");
    assert_eq!(to_decimal(99), "99");
    assert_eq!(to_decimal(100), "100");
    assert_eq!(to_decimal(205), "205");
    assert_eq!(to_decimal(255), "255");
    let mut boy = boy();
    assert_eq!(boy.frame_name(), "Idle (1).png");
    boy.run_right();
    for _ in 0..4 {
        boy.update();
    }
    assert_eq!(boy.frame_name(), "Run (2).png");
    assert_eq!(*boy.current_sprite().unwrap(), cell());
}

#[test]
fn avatar_boxes() {
    let mut boy = boy();
    assert_eq!(boy.destination_box(), Rect::new_from_x_y(44, 479, 100, 136));
    assert_eq!(boy.bounding_box(), Rect::new_from_x_y(62, 493, 72, 122));
    boy.run_right();
    boy.land_on(221);
    assert_eq!(boy.bounding_box(), Rect::new_from_x_y(62, 114, 72, 122));
    let mut renderer = Renderer::new();
    boy.draw(&mut renderer);
    assert_eq!(
        renderer.commands(),
        &vec![DrawCommand::Image {
            element: boy_image(),
            frame: Rect::new_from_x_y(5, 7, 100, 136),
            destination: Rect::new_from_x_y(44, 100, 100, 136),
        }]
    );
    let fresh = RedHatBoy::reset(boy);
    assert!(matches!(fresh.state_machine(), RedHatBoyStateMachine::Idle(_)));
    assert_eq!(fresh.pos_y(), FLOOR);
    assert_eq!(fresh.walking_speed(), 0);
    assert!(!fresh.knocked_out());
}

#[test]
fn rectangles() {
    let rect = Rect::new(Point { x: 10, y: 20 }, 30, 40);
    assert_eq!(rect, Rect::new_from_x_y(10, 20, 30, 40));
    assert_eq!(rect.x(), 10);
    assert_eq!(rect.y(), 20);
    assert_eq!(rect.right(), 40);
    assert_eq!(rect.bottom(), 60);
    assert!(rect.intersects(&Rect::new_from_x_y(39, 59, 5, 5)));
    assert!(!rect.intersects(&Rect::new_from_x_y(40, 59, 5, 5)));
    assert!(!rect.intersects(&Rect::new_from_x_y(39, 60, 5, 5)));
    assert!(!rect.intersects(&Rect::new_from_x_y(5, 20, 5, 5)));
    assert!(rect.intersects(&Rect::new_from_x_y(5, 20, 6, 5)));
    assert!(!rect.intersects(&Rect::new_from_x_y(10, 15, 5, 5)));
    let mut rect = rect;
    rect.set_x(-7);
    assert_eq!(rect, Rect::new_from_x_y(-7, 20, 30, 40));
    assert_eq!(Rect::default(), Rect::new_from_x_y(0, 0, 0, 0));
}

#[test]
fn images_move_with_their_boxes() {
    let mut image = Image::new(stone(), Point { x: 150, y: 546 });
    assert_eq!(*image.bounding_box(), Rect::new_from_x_y(150, 546, 75, 54));
    assert_eq!(image.right(), 225);
    image.move_horizontally(-3);
    assert_eq!(image.bounding_box.position, Point { x: 147, y: 546 });
    image.set_x(9);
    assert_eq!(image.right(), 84);
    let mut renderer = Renderer::new();
    image.draw(&mut renderer);
    renderer.clear(&Rect::new_from_x_y(1, 2, 3, 4));
    assert_eq!(
        renderer.commands(),
        &vec![
            DrawCommand::EntireImage { element: stone(), position: Point { x: 9, y: 546 } },
            DrawCommand::Clear(Rect::new_from_x_y(1, 2, 3, 4)),
        ]
    );
    let mut barrier = Barrier::new(image);
    barrier.move_horizontally(-10);
    assert_eq!(barrier.right(), 74);
    let mut obstacle = Obstacle::Barrier(barrier);
    obstacle.move_horizontally(-4);
    assert_eq!(obstacle.right(), 70);
}

#[test]
fn keys_are_pressed_until_released() {
    let mut keystate = KeyState::new();
    assert!(!keystate.is_pressed("Space"));
    keystate.set_pressed("Space");
    keystate.set_pressed("ArrowDown");
    assert!(keystate.is_pressed("Space"));
    assert!(keystate.is_pressed("ArrowDown"));
    assert!(!keystate.is_pressed("ArrowRight"));
    keystate.set_released("Space");
    assert!(!keystate.is_pressed("Space"));
    assert!(keystate.is_pressed("ArrowDown"));
    keystate.set_released("Space");
    assert!(!keystate.is_pressed("Space"));
}

#[test]
fn sheets_hold_sprites_by_name() {
    let mut sheet = Sheet::new();
    assert!(sheet.get("13.png").is_none());
    sheet.insert("13.png", cell());
    assert_eq!(sheet.get("13.png"), Some(&cell()));
    let sprite_sheet = SpriteSheet::new(sheet, tiles_image());
    assert_eq!(sprite_sheet.cell("13.png"), Some(&cell()));
    assert!(sprite_sheet.cell("14.png").is_none());
    let mut renderer = Renderer::new();
    sprite_sheet.draw(
        &mut renderer,
        &Rect::new_from_x_y(1, 2, 3, 4),
        &Rect::new_from_x_y(5, 6, 7, 8),
    );
    assert_eq!(
        renderer.commands(),
        &vec![DrawCommand::Image {
            element: tiles_image(),
            frame: Rect::new_from_x_y(1, 2, 3, 4),
            destination: Rect::new_from_x_y(5, 6, 7, 8),
        }]
    );
}
