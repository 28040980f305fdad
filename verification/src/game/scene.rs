//! The world as the rules see it: the avatar, the backgrounds that scroll
//! past it, the obstacles ahead of it, and how far ahead obstacles have been
//! laid out; what a tick makes of all that, and what always holds of it.

use vstd::prelude::*;
use crate::engine::{DrawCommand, Image, ImageElement, Point, SpriteSheet};
use crate::game::obstacles::{cells_named, widths_before, ObstacleView};
use crate::game::red_hat_boy::{cell_fits, RedHatBoyView, COORDINATE_LIMIT};
use crate::game::red_hat_boy_states::{FLOOR, JUMP_SPEED, PLAYER_HEIGHT, RUNNING_SPEED};
use crate::game::state_machine::{Avatar, Event, StateKind, transition_keeps_avatar_well_formed};
use crate::segments::{
    floating_platform, floating_platform_sprites, platform_then_stone, stone_at,
    stone_then_platform, HIGH_PLATFORM, LOW_PLATFORM, PLATFORM_WIDTH, STONE_AFTER_PLATFORM,
};

verus! {

/// Obstacles are laid out at least this far ahead.
pub const TIMELINE_MINIMUM: i16 = 1000;

/// The gap between one cluster of obstacles and the next.
pub const OBSTACLE_BUFFER: i16 = 20;

/// The number of clusters in the catalog.
pub const SEGMENTS: i32 = 2;

/// No obstacle begins further right than this.
pub const SCENE_RIGHT: i16 = TIMELINE_MINIMUM + OBSTACLE_BUFFER + STONE_AFTER_PLATFORM;

/// The highest the avatar can stand: on a high platform.
pub const HIGHEST_FOOTING: i16 = HIGH_PLATFORM - PLAYER_HEIGHT;

/// How far a jump carries the avatar up.
pub const JUMP_HEIGHT: i16 = 351;

/// How far an avatar with the given vertical velocity still climbs before
/// gravity turns it round.
pub open spec fn climb_left(velocity: int) -> int
    decreases -velocity,
{
    if velocity >= 0 {
        0
    } else {
        climb_left(velocity + 1) - (velocity + 1)
    }
}

/// The avatar is where the game can have taken it: on the floor or above it,
/// on its feet no higher than a high platform, and in the air no higher than
/// a jump from there carries it.
pub open spec fn in_play(avatar: Avatar) -> bool {
    &&& avatar.context.position.y <= FLOOR
    &&& match avatar.kind {
        StateKind::Idle | StateKind::Running | StateKind::Sliding => {
            &&& avatar.context.velocity.y >= 0
            &&& avatar.context.position.y >= HIGHEST_FOOTING
        },
        _ => avatar.context.position.y - climb_left(avatar.context.velocity.y as int)
            >= HIGHEST_FOOTING - JUMP_HEIGHT,
    }
}

/// A picture can serve as the stone: its size is within the coordinate limit.
pub open spec fn stone_fits(stone: ImageElement) -> bool {
    &&& 0 <= stone.width <= COORDINATE_LIMIT
    &&& 0 <= stone.height <= COORDINATE_LIMIT
}

/// A picture can serve as the background: it is wide enough to cover a
/// tick's scrolling, and its size is within the coordinate limit.
pub open spec fn background_fits(background: ImageElement) -> bool {
    &&& RUNNING_SPEED <= background.width <= COORDINATE_LIMIT
    &&& 0 <= background.height <= COORDINATE_LIMIT
}

/// Those sprites of a floating platform that the sheet has are within the
/// coordinate limit.
pub open spec fn tiles_fit(sheet: SpriteSheet) -> bool {
    forall|i: int|
        0 <= i < 3 ==> (sheet.sheet@.contains_key(#[trigger] floating_platform_sprites()[i])
            ==> cell_fits(sheet.sheet@[floating_platform_sprites()[i]]))
}

/// The two backgrounds lie side by side, the left one reaching into the
/// screen from its left edge or beyond.
pub open spec fn backgrounds_aligned(backgrounds: Seq<Image>) -> bool {
    let first = backgrounds[0].bounding_box;
    let second = backgrounds[1].bounding_box;
    &&& backgrounds.len() == 2
    &&& first.width == second.width
    &&& RUNNING_SPEED <= first.width <= COORDINATE_LIMIT
    &&& first.fits()
    &&& second.fits()
    &&& {
        ||| second.position.x == first.position.x + first.width && -first.width
            <= first.position.x <= 0
        ||| first.position.x == second.position.x + first.width && -first.width
            <= second.position.x <= 0
    }
}

/// The backgrounds after a tick's scrolling. One that has left the screen
/// on the left goes behind the other.
pub open spec fn scrolled_backgrounds(backgrounds: Seq<Image>, speed: i16) -> Seq<Image> {
    let first = backgrounds[0].moved(speed);
    let second = backgrounds[1].moved(speed);
    let first = if first.bounding_box.spec_right() < 0 {
        first.with_x(second.bounding_box.spec_right() as i16)
    } else {
        first
    };
    let second = if second.bounding_box.spec_right() < 0 {
        second.with_x(first.bounding_box.spec_right() as i16)
    } else {
        second
    };
    seq![first, second]
}

/// The obstacle is one that the generator lays out, somewhere between the
/// left edge of the screen and the right end of the scene.
pub open spec fn in_scene(obstacle: ObstacleView, stone: ImageElement, sheet: SpriteSheet) -> bool {
    match obstacle {
        ObstacleView::Barrier(image) => {
            &&& image == stone_at(stone, image.bounding_box.position.x)
            &&& -stone.width < image.bounding_box.position.x <= SCENE_RIGHT
        },
        ObstacleView::Platform(platform) => {
            &&& platform == floating_platform(sheet, platform.position)
            &&& platform.position.y == LOW_PLATFORM || platform.position.y == HIGH_PLATFORM
            &&& -PLATFORM_WIDTH < platform.position.x <= SCENE_RIGHT
        },
    }
}

/// The obstacles after a tick's scrolling, without those that have left the
/// screen on the left.
pub open spec fn scrolled_obstacles(obstacles: Seq<ObstacleView>, speed: i16) -> Seq<ObstacleView>
    decreases obstacles.len(),
{
    if obstacles.len() == 0 {
        Seq::empty()
    } else {
        let rest = scrolled_obstacles(obstacles.drop_last(), speed);
        if obstacles.last().moved(speed).right() > 0 {
            rest.push(obstacles.last().moved(speed))
        } else {
            rest
        }
    }
}

/// What the obstacles, one after the other, do to an avatar.
pub open spec fn struck_by_all(boy: RedHatBoyView, obstacles: Seq<ObstacleView>) -> RedHatBoyView
    decreases obstacles.len(),
{
    if obstacles.len() == 0 {
        boy
    } else {
        obstacles.last().struck(struck_by_all(boy, obstacles.drop_last()))
    }
}

/// The greatest right edge among the obstacles, or 0 where there are none.
pub open spec fn rightmost_of(obstacles: Seq<ObstacleView>) -> int
    decreases obstacles.len(),
{
    if obstacles.len() == 0 {
        0
    } else if obstacles.len() == 1 {
        obstacles[0].right()
    } else if rightmost_of(obstacles.drop_last()) >= obstacles.last().right() {
        rightmost_of(obstacles.drop_last())
    } else {
        obstacles.last().right()
    }
}

/// The cluster of the catalog with the number `choice`, beginning at
/// `offset_x`. A number that the catalog does not have gives no obstacles.
pub open spec fn segment(choice: int, stone: ImageElement, sheet: SpriteSheet, offset_x: i16) -> Seq<
    ObstacleView,
> {
    if choice == 0 {
        stone_then_platform(stone, sheet, offset_x)
    } else if choice == 1 {
        platform_then_stone(stone, sheet, offset_x)
    } else {
        Seq::empty()
    }
}

/// What painting the obstacles, one after the other, asks of the renderer.
pub open spec fn obstacles_draw_list(obstacles: Seq<ObstacleView>) -> Seq<DrawCommand>
    decreases obstacles.len(),
{
    if obstacles.len() == 0 {
        Seq::empty()
    } else {
        obstacles_draw_list(obstacles.drop_last()) + obstacles.last().draw_list()
    }
}

/// What there is to know of the world.
pub struct WalkView {
    pub boy: RedHatBoyView,
    /// The two backgrounds.
    pub backgrounds: Seq<Image>,
    pub obstacles: Seq<ObstacleView>,
    /// The sheet that shows the platforms.
    pub obstacle_sheet: SpriteSheet,
    /// The picture that shows the stones.
    pub stone: ImageElement,
    /// How far ahead obstacles have been laid out.
    pub timeline: i16,
}

impl WalkView {
    /// What holds of the world at all times.
    pub open spec fn wf(self) -> bool {
        &&& self.boy.wf()
        &&& in_play(self.boy.avatar)
        &&& backgrounds_aligned(self.backgrounds)
        &&& forall|i: int|
            0 <= i < self.obstacles.len() ==> in_scene(
                #[trigger] self.obstacles[i],
                self.stone,
                self.obstacle_sheet,
            )
        &&& stone_fits(self.stone)
        &&& tiles_fit(self.obstacle_sheet)
        &&& 0 <= self.timeline <= SCENE_RIGHT + COORDINATE_LIMIT
    }

    /// The world at the start of a game: the backgrounds side by side from the
    /// left edge of the screen on, and the first cluster of obstacles.
    pub open spec fn start(
        boy: RedHatBoyView,
        background: ImageElement,
        stone: ImageElement,
        obstacle_sheet: SpriteSheet,
    ) -> WalkView {
        WalkView {
            boy,
            backgrounds: seq![
                Image {
                    element: background,
                    bounding_box: crate::engine::Rect {
                        position: Point { x: 0, y: 0 },
                        width: background.width,
                        height: background.height,
                    },
                },
                Image {
                    element: background,
                    bounding_box: crate::engine::Rect {
                        position: Point { x: background.width, y: 0 },
                        width: background.width,
                        height: background.height,
                    },
                },
            ],
            obstacles: stone_then_platform(stone, obstacle_sheet, 0),
            obstacle_sheet,
            stone,
            timeline: rightmost_of(stone_then_platform(stone, obstacle_sheet, 0)) as i16,
        }
    }

    /// The world set up for a new game: a fresh avatar and the first cluster
    /// of obstacles, before the backgrounds as they are.
    pub open spec fn reset(self) -> WalkView {
        WalkView {
            boy: self.boy.reset(),
            obstacles: stone_then_platform(self.stone, self.obstacle_sheet, 0),
            timeline: rightmost_of(stone_then_platform(self.stone, self.obstacle_sheet, 0)) as i16,
            ..self
        }
    }

    /// The speed at which the scene scrolls: the avatar's own speed, the other
    /// way.
    pub open spec fn velocity(self) -> int {
        -self.boy.avatar.context.velocity.x
    }

    /// The world with the cluster `choice` of the catalog laid out behind the
    /// obstacles that are there.
    pub open spec fn with_next_segment(self, choice: int) -> WalkView {
        let next = segment(
            choice,
            self.stone,
            self.obstacle_sheet,
            (self.timeline + OBSTACLE_BUFFER) as i16,
        );
        WalkView { obstacles: self.obstacles + next, timeline: rightmost_of(next) as i16, ..self }
    }

    /// The avatar after the keys have had their say and a tick has passed.
    pub open spec fn steered(self, keys: Set<Seq<char>>) -> RedHatBoyView {
        let boy = if keys.contains("Space"@) {
            self.boy.after(Event::Jump)
        } else {
            self.boy
        };
        let boy = if keys.contains("ArrowDown"@) {
            boy.after(Event::Slide)
        } else {
            boy
        };
        boy.after(Event::Update)
    }

    /// The world one tick on. The avatar answers the keys and the tick; the
    /// scene scrolls against the avatar's speed; obstacles that have left the
    /// screen are dropped; those that remain strike the avatar; and either a
    /// new cluster, the one numbered `choice`, is laid out, or the timeline
    /// scrolls with the scene.
    pub open spec fn advanced(self, keys: Set<Seq<char>>, choice: int) -> WalkView {
        let boy = self.steered(keys);
        let speed = (-boy.avatar.context.velocity.x) as i16;
        let obstacles = scrolled_obstacles(self.obstacles, speed);
        let scrolled = WalkView {
            boy: struck_by_all(boy, obstacles),
            backgrounds: scrolled_backgrounds(self.backgrounds, speed),
            obstacles,
            ..self
        };
        if self.timeline < TIMELINE_MINIMUM {
            scrolled.with_next_segment(choice)
        } else {
            WalkView { timeline: (self.timeline + speed) as i16, ..scrolled }
        }
    }

    /// What painting the world asks of the renderer: the backgrounds, the
    /// avatar, the obstacles.
    pub open spec fn draw_list(self) -> Seq<DrawCommand> {
        seq![self.backgrounds[0].draw_command(), self.backgrounds[1].draw_command()].push(
            self.boy.draw_command(),
        ) + obstacles_draw_list(self.obstacles)
    }
}

/// Nothing climbs a negative distance.
pub proof fn climb_is_not_negative(velocity: int)
    ensures
        climb_left(velocity) >= 0,
    decreases -velocity,
{
    if velocity < 0 {
        climb_is_not_negative(velocity + 1);
    }
}

/// A jump carries the avatar up by the jump height.
pub proof fn jump_climbs_jump_height()
    ensures
        climb_left(JUMP_SPEED as int) == JUMP_HEIGHT,
{
    reveal_with_fuel(climb_left, 30);
}

/// An avatar in play is within the coordinate limit vertically.
pub proof fn in_play_is_in_sight(avatar: Avatar)
    requires
        in_play(avatar),
    ensures
        avatar.in_sight(),
{
    climb_is_not_negative(avatar.context.velocity.y as int);
}

/// Whatever the avatar does of its own accord, it stays in play.
pub proof fn own_moves_keep_in_play(avatar: Avatar, event: Event)
    requires
        avatar.wf(),
        in_play(avatar),
        !(event is Land),
    ensures
        in_play(avatar.transition(event)),
        avatar.transition(event).wf(),
        avatar.transition_fits(event),
{
    climb_is_not_negative(avatar.context.velocity.y as int);
    jump_climbs_jump_height();
    transition_keeps_avatar_well_formed(avatar, event);
}

/// An obstacle of the scene leaves an avatar in play.
pub proof fn strike_keeps_in_play(
    boy: RedHatBoyView,
    obstacle: ObstacleView,
    stone: ImageElement,
    sheet: SpriteSheet,
)
    requires
        boy.wf(),
        in_play(boy.avatar),
        in_scene(obstacle, stone, sheet),
    ensures
        obstacle.struck(boy).wf(),
        in_play(obstacle.struck(boy).avatar),
        obstacle.struck(boy).frames == boy.frames,
        obstacle.struck(boy).image == boy.image,
{
    own_moves_keep_in_play(boy.avatar, Event::KnockOut);
    match obstacle {
        ObstacleView::Barrier(image) => {},
        ObstacleView::Platform(platform) => {
            let hit = crate::game::obstacles::first_hit(
                platform.bounding_boxes,
                boy.bounding_box(),
                0,
            );
            first_hit_in_range(platform.bounding_boxes, boy.bounding_box(), 0);
            if hit < platform.bounding_boxes.len() {
                let surface = platform.bounding_boxes[hit].position.y;
                assert(surface == platform.position.y);
                transition_keeps_avatar_well_formed(boy.avatar, Event::Land(surface));
            }
        },
    }
}

/// The first hit is a box from `from` on, or the number of boxes.
pub proof fn first_hit_in_range(boxes: Seq<crate::engine::Rect>, target: crate::engine::Rect, from: int)
    requires
        0 <= from <= boxes.len(),
    ensures
        from <= crate::game::obstacles::first_hit(boxes, target, from) <= boxes.len(),
    decreases boxes.len() - from,
{
    if from < boxes.len() && !target.spec_intersects(boxes[from]) {
        first_hit_in_range(boxes, target, from + 1);
    }
}

/// The obstacles of the scene, one after the other, leave an avatar in play.
pub proof fn strikes_keep_in_play(
    boy: RedHatBoyView,
    obstacles: Seq<ObstacleView>,
    stone: ImageElement,
    sheet: SpriteSheet,
)
    requires
        boy.wf(),
        in_play(boy.avatar),
        forall|i: int| 0 <= i < obstacles.len() ==> in_scene(#[trigger] obstacles[i], stone, sheet),
    ensures
        struck_by_all(boy, obstacles).wf(),
        in_play(struck_by_all(boy, obstacles).avatar),
        struck_by_all(boy, obstacles).frames == boy.frames,
        struck_by_all(boy, obstacles).image == boy.image,
    decreases obstacles.len(),
{
    if obstacles.len() > 0 {
        strikes_keep_in_play(boy, obstacles.drop_last(), stone, sheet);
        strike_keeps_in_play(
            struck_by_all(boy, obstacles.drop_last()),
            obstacles.last(),
            stone,
            sheet,
        );
    }
}

/// An obstacle of the scene can be measured, struck, painted and scrolled.
pub proof fn scene_obstacle_fits(
    obstacle: ObstacleView,
    stone: ImageElement,
    sheet: SpriteSheet,
    speed: i16,
)
    requires
        in_scene(obstacle, stone, sheet),
        stone_fits(stone),
        tiles_fit(sheet),
        -RUNNING_SPEED <= speed <= 0,
    ensures
        obstacle.boxes_fit(),
        obstacle.draw_fits(),
        obstacle.move_fits(speed),
        obstacle.right() > 0,
        obstacle.right() <= SCENE_RIGHT + COORDINATE_LIMIT,
        obstacle.moved(speed).right() == obstacle.right() + speed,
        obstacle.moved(speed).boxes_fit(),
        obstacle.moved(speed).right() > 0 ==> in_scene(obstacle.moved(speed), stone, sheet),
{
    match obstacle {
        ObstacleView::Barrier(image) => {},
        ObstacleView::Platform(platform) => {
            let names = floating_platform_sprites();
            let frames = sheet.sheet@;
            reveal_with_fuel(cells_named, 4);
            reveal_with_fuel(widths_before, 4);
            assert(names.drop_last() =~= seq![names[0], names[1]]);
            assert(names.drop_last().drop_last() =~= seq![names[0]]);
            assert(names.drop_last().drop_last().drop_last() =~= Seq::<Seq<char>>::empty());
            assert(names.last() == names[2]);
            assert(names.drop_last().last() == names[1]);
            assert(names.drop_last().drop_last().last() == names[0]);
            let sprites = platform.sprites;
            assert(sprites.len() <= 3);
            assert(forall|i: int| 0 <= i < sprites.len() ==> cell_fits(#[trigger] sprites[i]));
            assert(platform.draw_fits());
            let moved = platform.moved(speed);
            let target = floating_platform(sheet, moved.position);
            assert(moved.bounding_boxes =~= target.bounding_boxes);
        },
    }
}

/// Scrolling keeps the obstacles of the scene in the scene.
pub proof fn scrolling_keeps_in_scene(
    obstacles: Seq<ObstacleView>,
    stone: ImageElement,
    sheet: SpriteSheet,
    speed: i16,
)
    requires
        forall|i: int| 0 <= i < obstacles.len() ==> in_scene(#[trigger] obstacles[i], stone, sheet),
        stone_fits(stone),
        tiles_fit(sheet),
        -RUNNING_SPEED <= speed <= 0,
    ensures
        forall|i: int|
            0 <= i < scrolled_obstacles(obstacles, speed).len() ==> in_scene(
                #[trigger] scrolled_obstacles(obstacles, speed)[i],
                stone,
                sheet,
            ),
    decreases obstacles.len(),
{
    if obstacles.len() > 0 {
        scrolling_keeps_in_scene(obstacles.drop_last(), stone, sheet, speed);
        scene_obstacle_fits(obstacles.last(), stone, sheet, speed);
        let rest = scrolled_obstacles(obstacles.drop_last(), speed);
        let all = scrolled_obstacles(obstacles, speed);
        assert forall|i: int| 0 <= i < all.len() implies in_scene(#[trigger] all[i], stone, sheet) by {
            if i < rest.len() {
                assert(all[i] == rest[i]);
            }
        }
    }
}

/// A cluster laid out within the lookahead is in the scene, and its
/// rightmost edge is within the scene's bounds.
pub proof fn segment_is_in_scene(choice: int, stone: ImageElement, sheet: SpriteSheet, offset_x: i16)
    requires
        stone_fits(stone),
        tiles_fit(sheet),
        0 <= offset_x < TIMELINE_MINIMUM + OBSTACLE_BUFFER,
    ensures
        forall|i: int|
            0 <= i < segment(choice, stone, sheet, offset_x).len() ==> in_scene(
                #[trigger] segment(choice, stone, sheet, offset_x)[i],
                stone,
                sheet,
            ),
        0 <= rightmost_of(segment(choice, stone, sheet, offset_x)) <= SCENE_RIGHT
            + COORDINATE_LIMIT,
{
    reveal_with_fuel(rightmost_of, 3);
    let next = segment(choice, stone, sheet, offset_x);
    if next.len() > 0 {
        assert(next.drop_last() =~= seq![next[0]]);
        assert(next.len() == 2);
        assert(in_scene(next[0], stone, sheet));
        assert(in_scene(next[1], stone, sheet));
    }
}

/// The rightmost edge is a right edge of one of the obstacles, and none of
/// them lies further right.
pub proof fn rightmost_is_maximum(obstacles: Seq<ObstacleView>)
    requires
        obstacles.len() > 0,
    ensures
        exists|i: int| 0 <= i < obstacles.len() && (#[trigger] obstacles[i]).right() == rightmost_of(obstacles),
        forall|i: int| 0 <= i < obstacles.len() ==> (#[trigger] obstacles[i]).right() <= rightmost_of(obstacles),
    decreases obstacles.len(),
{
    if obstacles.len() == 1 {
        assert(obstacles[0].right() == rightmost_of(obstacles));
    } else {
        rightmost_is_maximum(obstacles.drop_last());
        let earlier = choose|i: int|
            0 <= i < obstacles.drop_last().len() && (#[trigger] obstacles.drop_last()[i]).right()
                == rightmost_of(obstacles.drop_last());
        assert(obstacles.drop_last()[earlier] == obstacles[earlier]);
        if rightmost_of(obstacles.drop_last()) >= obstacles.last().right() {
            assert(obstacles[earlier].right() == rightmost_of(obstacles));
        } else {
            assert(obstacles[obstacles.len() - 1].right() == rightmost_of(obstacles));
        }
        assert forall|i: int| 0 <= i < obstacles.len() implies (#[trigger] obstacles[i]).right()
            <= rightmost_of(obstacles) by {
            if i < obstacles.len() - 1 {
                assert(obstacles.drop_last()[i] == obstacles[i]);
            }
        }
    }
}

/// The lookahead: in a world with a cluster just laid out, the timeline is
/// at the greatest right edge among the obstacles of that cluster, which
/// stand behind the obstacles that were there.
pub proof fn timeline_follows_segment(walk: WalkView, choice: int)
    requires
        walk.wf(),
        walk.timeline < TIMELINE_MINIMUM,
        0 <= choice < SEGMENTS,
    ensures
        walk.with_next_segment(choice).wf(),
        walk.with_next_segment(choice).obstacles.len() == walk.obstacles.len() + 2,
        walk.with_next_segment(choice).obstacles.take(walk.obstacles.len() as int)
            == walk.obstacles,
        walk.with_next_segment(choice).timeline == rightmost_of(
            walk.with_next_segment(choice).obstacles.skip(walk.obstacles.len() as int),
        ),
        forall|i: int|
            walk.obstacles.len() <= i < walk.with_next_segment(choice).obstacles.len() ==> (
            #[trigger] walk.with_next_segment(choice).obstacles[i]).right()
                <= walk.with_next_segment(choice).timeline,
        exists|i: int|
            walk.obstacles.len() <= i < walk.with_next_segment(choice).obstacles.len() && (
            #[trigger] walk.with_next_segment(choice).obstacles[i]).right()
                == walk.with_next_segment(choice).timeline,
{
    let offset_x = (walk.timeline + OBSTACLE_BUFFER) as i16;
    let next = segment(choice, walk.stone, walk.obstacle_sheet, offset_x);
    let after = walk.with_next_segment(choice);
    segment_is_in_scene(choice, walk.stone, walk.obstacle_sheet, offset_x);
    assert(after.obstacles.take(walk.obstacles.len() as int) =~= walk.obstacles);
    assert(after.obstacles.skip(walk.obstacles.len() as int) =~= next);
    rightmost_is_maximum(next);
    let top = choose|i: int| 0 <= i < next.len() && (#[trigger] next[i]).right() == rightmost_of(next);
    assert(after.obstacles[walk.obstacles.len() + top] == next[top]);
    assert forall|i: int| walk.obstacles.len() <= i < after.obstacles.len() implies (
    #[trigger] after.obstacles[i]).right() <= after.timeline by {
        assert(after.obstacles[i] == next[i - walk.obstacles.len()]);
    }
    assert forall|i: int| 0 <= i < after.obstacles.len() implies in_scene(
        #[trigger] after.obstacles[i],
        after.stone,
        after.obstacle_sheet,
    ) by {
        if i >= walk.obstacles.len() {
            assert(after.obstacles[i] == next[i - walk.obstacles.len()]);
        }
    }
}

impl WalkView {
    /// The same world with another avatar in it.
    pub open spec fn with_boy(self, boy: RedHatBoyView) -> WalkView {
        WalkView { boy, ..self }
    }

    /// The same world with the request for the jump sound withdrawn.
    pub open spec fn jump_sound_played(self) -> WalkView {
        self.with_boy(
            RedHatBoyView { avatar: self.boy.avatar.jump_sound_played(), ..self.boy },
        )
    }
}

/// A game as the rules see it: the world, and where in its lifecycle the
/// game stands.
pub enum GameView {
    /// The avatar waits for the player.
    Ready(WalkView),
    /// The game is on.
    Walking(WalkView),
    /// The avatar is knocked out, and the player is asked for a new game.
    GameOver(WalkView),
}

impl GameView {
    /// The world of the game.
    pub open spec fn walk(self) -> WalkView {
        match self {
            GameView::Ready(walk) => walk,
            GameView::Walking(walk) => walk,
            GameView::GameOver(walk) => walk,
        }
    }

    /// The game one tick on, with the keys `keys` held down, with or without
    /// a request for a new game, and with `choice` for the cluster to lay out
    /// should one be due.
    pub open spec fn updated(self, keys: Set<Seq<char>>, new_game_pressed: bool, choice: int) -> GameView {
        match self {
            GameView::Ready(walk) => {
                let idle = walk.with_boy(walk.boy.after(Event::Update));
                if keys.contains("ArrowRight"@) {
                    GameView::Walking(idle.with_boy(idle.boy.after(Event::Run)))
                } else {
                    GameView::Ready(idle)
                }
            },
            GameView::Walking(walk) => {
                let walk = walk.advanced(keys, choice);
                if walk.boy.avatar.kind == StateKind::KnockedOut {
                    GameView::GameOver(walk)
                } else {
                    GameView::Walking(walk)
                }
            },
            GameView::GameOver(walk) => {
                if new_game_pressed {
                    GameView::Ready(walk.reset())
                } else {
                    self
                }
            },
        }
    }

    /// The same game with the request for the jump sound withdrawn.
    pub open spec fn jump_sound_played(self) -> GameView {
        match self {
            GameView::Ready(walk) => GameView::Ready(walk.jump_sound_played()),
            GameView::Walking(walk) => GameView::Walking(walk.jump_sound_played()),
            GameView::GameOver(walk) => GameView::GameOver(walk.jump_sound_played()),
        }
    }
}

/// Pruning: in a well-formed world no obstacle has its right edge at the
/// left edge of the screen or beyond it.
pub proof fn no_obstacle_left_behind(walk: WalkView)
    requires
        walk.wf(),
    ensures
        forall|i: int| 0 <= i < walk.obstacles.len() ==> (#[trigger] walk.obstacles[i]).right() > 0,
{
    assert forall|i: int| 0 <= i < walk.obstacles.len() implies (#[trigger] walk.obstacles[i]).right()
        > 0 by {
        scene_obstacle_fits(walk.obstacles[i], walk.stone, walk.obstacle_sheet, 0);
    }
}

/// A tick keeps a well-formed world well-formed, whatever the keys and
/// whichever cluster is laid out. In particular no obstacle that has left
/// the screen on the left remains after the tick.
pub proof fn tick_keeps_world_well_formed(walk: WalkView, keys: Set<Seq<char>>, choice: int)
    requires
        walk.wf(),
        0 <= choice < SEGMENTS,
    ensures
        walk.advanced(keys, choice).wf(),
        forall|i: int|
            0 <= i < walk.advanced(keys, choice).obstacles.len() ==> (
            #[trigger] walk.advanced(keys, choice).obstacles[i]).right() > 0,
{
    let jumped = if keys.contains("Space"@) {
        walk.boy.after(Event::Jump)
    } else {
        walk.boy
    };
    own_moves_keep_in_play(walk.boy.avatar, Event::Jump);
    let slid = if keys.contains("ArrowDown"@) {
        jumped.after(Event::Slide)
    } else {
        jumped
    };
    own_moves_keep_in_play(jumped.avatar, Event::Slide);
    let boy = slid.after(Event::Update);
    own_moves_keep_in_play(slid.avatar, Event::Update);
    assert(boy == walk.steered(keys));
    let speed = (-boy.avatar.context.velocity.x) as i16;
    let obstacles = scrolled_obstacles(walk.obstacles, speed);
    scrolling_keeps_in_scene(walk.obstacles, walk.stone, walk.obstacle_sheet, speed);
    strikes_keep_in_play(boy, obstacles, walk.stone, walk.obstacle_sheet);
    scrolling_keeps_backgrounds_aligned(walk.backgrounds, speed);
    let scrolled = WalkView {
        boy: struck_by_all(boy, obstacles),
        backgrounds: scrolled_backgrounds(walk.backgrounds, speed),
        obstacles,
        ..walk
    };
    if walk.timeline < TIMELINE_MINIMUM {
        assert(scrolled.wf());
        timeline_follows_segment(scrolled, choice);
    }
    no_obstacle_left_behind(walk.advanced(keys, choice));
}

/// Scrolling keeps the backgrounds side by side.
pub proof fn scrolling_keeps_backgrounds_aligned(backgrounds: Seq<Image>, speed: i16)
    requires
        backgrounds_aligned(backgrounds),
        -RUNNING_SPEED <= speed <= 0,
    ensures
        backgrounds_aligned(scrolled_backgrounds(backgrounds, speed)),
{
}

} // verus!
