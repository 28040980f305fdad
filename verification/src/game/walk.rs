//! The world in memory, and the lifecycle of a game around it.

use vstd::prelude::*;
use std::rc::Rc;
use futures::channel::mpsc::{unbounded, UnboundedReceiver, UnboundedSender};
use rand::thread_rng;
use rand::Rng;
use crate::engine::{Image, ImageElement, KeyState, Point, Renderer, SpriteSheet};
use crate::game::obstacles::Obstacle;
use crate::game::red_hat_boy::{cell_in_range, RedHatBoy, COORDINATE_LIMIT};
use crate::game::red_hat_boy_states::RUNNING_SPEED;
use crate::game::scene::{
    background_fits, backgrounds_aligned, in_play, in_play_is_in_sight, in_scene,
    obstacles_draw_list, own_moves_keep_in_play, rightmost_of, scene_obstacle_fits,
    scrolled_backgrounds, scrolled_obstacles, scrolling_keeps_in_scene, segment,
    segment_is_in_scene, stone_fits, strike_keeps_in_play, struck_by_all, tiles_fit,
    tick_keeps_world_well_formed, timeline_follows_segment, GameView, WalkView, OBSTACLE_BUFFER,
    SEGMENTS, TIMELINE_MINIMUM,
};
use crate::game::state_machine::{Event, StateKind};
use crate::segments::{floating_platform_sprites, platform_and_stone, stone_and_platform, views_of};

verus! {

/// `Rng::gen_range` of the crate rand, on the generator of the current
/// thread and with the range from 0 up to, but not including, `count`. The
/// number that comes back lies in that range; nothing is said of which one
/// it is.
#[verifier::external_body]
fn random_below(count: i32) -> (number: i32)
    requires
        count > 0,
    ensures
        0 <= number < count,
{
    thread_rng().gen_range(0..count)
}

/// The receiving end of an unbounded channel of the crate futures.
#[verifier::external_type_specification]
#[verifier::external_body]
#[verifier::reject_recursive_types(T)]
pub struct ExUnboundedReceiver<T>(UnboundedReceiver<T>);

/// The sending end of an unbounded channel of the crate futures.
#[verifier::external_type_specification]
#[verifier::external_body]
#[verifier::reject_recursive_types(T)]
pub struct ExUnboundedSender<T>(UnboundedSender<T>);

/// `unbounded` of the crate futures: a new channel, of which nothing is
/// said here.
#[verifier::external_body]
fn new_game_channel() -> (channel: (UnboundedSender<()>, UnboundedReceiver<()>)) {
    unbounded()
}

/// `UnboundedReceiver::try_recv` of the crate futures: whether a message
/// was waiting on the channel, which is one message shorter then. Whether
/// one was waiting depends on who holds the sending end, so nothing is said
/// of the answer.
#[verifier::external_body]
fn message_waiting(receiver: &mut UnboundedReceiver<()>) -> (waiting: bool) {
    receiver.try_recv().is_ok()
}

/// The sheet behind a shared handle.
pub open spec fn shared(sheet: &Rc<SpriteSheet>) -> SpriteSheet {
    **sheet
}

/// The greatest right edge among the obstacles, or 0 where there are none.
pub fn rightmost(obstacle_list: &Vec<Obstacle>) -> (edge: i16)
    requires
        forall|i: int| 0 <= i < obstacle_list@.len() ==> (#[trigger] obstacle_list@[i])@.boxes_fit(),
    ensures
        edge == rightmost_of(views_of(obstacle_list@)),
{
    if obstacle_list.len() == 0 {
        return 0;
    }
    let ghost views = views_of(obstacle_list@);
    let mut edge = obstacle_list[0].right();
    let mut n: usize = 1;
    assert(views.take(1) =~= seq![views[0]]);
    while n < obstacle_list.len()
        invariant
            1 <= n <= obstacle_list@.len(),
            views == views_of(obstacle_list@),
            forall|i: int|
                0 <= i < obstacle_list@.len() ==> (#[trigger] obstacle_list@[i])@.boxes_fit(),
            edge == rightmost_of(views.take(n as int)),
        decreases obstacle_list@.len() - n,
    {
        let right = obstacle_list[n].right();
        proof {
            assert(views.take(n + 1).drop_last() =~= views.take(n as int));
            assert(views.take(n + 1).last() == obstacle_list@[n as int]@);
        }
        if edge < right {
            edge = right;
        }
        n += 1;
    }
    assert(views.take(n as int) =~= views);
    edge
}

/// The backgrounds after a tick's scrolling.
fn scroll_backgrounds(backgrounds: [Image; 2], speed: i16) -> (scrolled: [Image; 2])
    requires
        backgrounds_aligned(backgrounds@),
        -RUNNING_SPEED <= speed <= 0,
    ensures
        scrolled@ == scrolled_backgrounds(backgrounds@, speed),
        backgrounds_aligned(scrolled@),
{
    let mut first_background = backgrounds[0];
    let mut second_background = backgrounds[1];
    first_background.move_horizontally(speed);
    second_background.move_horizontally(speed);
    if first_background.right() < 0 {
        first_background.set_x(second_background.right());
    }
    if second_background.right() < 0 {
        second_background.set_x(first_background.right());
    }
    let scrolled = [first_background, second_background];
    assert(scrolled@ =~= scrolled_backgrounds(backgrounds@, speed));
    scrolled
}

/// The obstacles after a tick's scrolling, without those that have left the
/// screen on the left.
fn scroll_obstacles(
    obstacles: Vec<Obstacle>,
    speed: i16,
    Ghost(stone): Ghost<ImageElement>,
    Ghost(sheet): Ghost<SpriteSheet>,
) -> (kept: Vec<Obstacle>)
    requires
        forall|i: int| 0 <= i < obstacles@.len() ==> in_scene((#[trigger] obstacles@[i])@, stone, sheet),
        stone_fits(stone),
        tiles_fit(sheet),
        -RUNNING_SPEED <= speed <= 0,
    ensures
        views_of(kept@) == scrolled_obstacles(views_of(obstacles@), speed),
{
    let ghost views = views_of(obstacles@);
    let mut obstacles = obstacles;
    let mut kept: Vec<Obstacle> = Vec::new();
    let ghost mut done: int = 0;
    assert(views.take(0) =~= Seq::<crate::game::obstacles::ObstacleView>::empty());
    assert(views_of(kept@) =~= scrolled_obstacles(views.take(0), speed));
    while obstacles.len() > 0
        invariant
            0 <= done <= views.len(),
            done + obstacles@.len() == views.len(),
            views_of(obstacles@) =~= views.skip(done),
            forall|i: int| 0 <= i < views.len() ==> in_scene(#[trigger] views[i], stone, sheet),
            stone_fits(stone),
            tiles_fit(sheet),
            -RUNNING_SPEED <= speed <= 0,
            views_of(kept@) == scrolled_obstacles(views.take(done), speed),
        decreases obstacles@.len(),
    {
        let ghost ahead = views_of(obstacles@);
        let ghost waiting = obstacles@;
        let mut obstacle = obstacles.remove(0);
        proof {
            assert(obstacles@ == waiting.remove(0));
            assert forall|i: int| 0 <= i < obstacles@.len() implies (#[trigger] obstacles@[i])@
                == views[done + 1 + i] by {
                assert(obstacles@[i] == waiting[i + 1]);
                assert(ahead[i + 1] == waiting[i + 1]@);
                assert(ahead[i + 1] == views.skip(done)[i + 1]);
            }
            assert(views_of(obstacles@) =~= views.skip(done + 1));
            assert(obstacle@ == ahead[0]);
            assert(obstacle@ == views[done]);
            scene_obstacle_fits(obstacle@, stone, sheet, speed);
            assert(views.take(done + 1).drop_last() =~= views.take(done));
            assert(views.take(done + 1).last() == views[done]);
        }
        obstacle.move_horizontally(speed);
        let ghost before = views_of(kept@);
        if obstacle.right() > 0 {
            kept.push(obstacle);
            assert(views_of(kept@) =~= before.push(obstacle@));
        }
        proof {
            done = done + 1;
        }
    }
    assert(views.take(done) =~= views);
    kept
}

/// The obstacles, one after the other, have their go at the avatar.
fn check_intersections(
    obstacles: &Vec<Obstacle>,
    boy: &mut RedHatBoy,
    Ghost(stone): Ghost<ImageElement>,
    Ghost(sheet): Ghost<SpriteSheet>,
)
    requires
        in_play(old(boy)@.avatar),
        forall|i: int| 0 <= i < obstacles@.len() ==> in_scene((#[trigger] obstacles@[i])@, stone, sheet),
        stone_fits(stone),
        tiles_fit(sheet),
    ensures
        final(boy)@ == struck_by_all(old(boy)@, views_of(obstacles@)),
        in_play(final(boy)@.avatar),
{
    let ghost views = views_of(obstacles@);
    let mut n: usize = 0;
    proof {
        use_type_invariant(&*boy);
        assert(views.take(0) =~= Seq::<crate::game::obstacles::ObstacleView>::empty());
    }
    while n < obstacles.len()
        invariant
            n <= obstacles@.len(),
            views == views_of(obstacles@),
            forall|i: int|
                0 <= i < obstacles@.len() ==> in_scene((#[trigger] obstacles@[i])@, stone, sheet),
            stone_fits(stone),
            tiles_fit(sheet),
            boy@.wf(),
            in_play(boy@.avatar),
            boy@ == struck_by_all(old(boy)@, views.take(n as int)),
        decreases obstacles@.len() - n,
    {
        proof {
            in_play_is_in_sight(boy@.avatar);
            scene_obstacle_fits(obstacles@[n as int]@, stone, sheet, 0);
            strike_keeps_in_play(boy@, obstacles@[n as int]@, stone, sheet);
            assert(views.take(n + 1).drop_last() =~= views.take(n as int));
            assert(views.take(n + 1).last() == obstacles@[n as int]@);
        }
        obstacles[n].check_intersection(boy);
        n += 1;
    }
    assert(views.take(n as int) =~= views);
}

/// The world: the avatar, the two backgrounds, the obstacles ahead, and how
/// far ahead obstacles have been laid out.
pub struct Walk {
    obstacle_sheet: Rc<SpriteSheet>,
    boy: RedHatBoy,
    backgrounds: [Image; 2],
    obstacles: Vec<Obstacle>,
    stone: ImageElement,
    timeline: i16,
}

impl View for Walk {
    type V = WalkView;

    closed spec fn view(&self) -> WalkView {
        WalkView {
            boy: self.boy@,
            backgrounds: self.backgrounds@,
            obstacles: views_of(self.obstacles@),
            obstacle_sheet: *self.obstacle_sheet,
            stone: self.stone,
            timeline: self.timeline,
        }
    }
}

/// Whether those sprites of a floating platform that the sheet has are
/// within the coordinate limit.
fn tiles_in_range(sheet: &SpriteSheet) -> (fit: bool)
    ensures
        fit == tiles_fit(*sheet),
{
    let names = ["13.png", "14.png", "15.png"];
    assert(crate::game::obstacles::names_of(names@) =~= floating_platform_sprites());
    let mut n: usize = 0;
    while n < 3
        invariant
            n <= 3,
            names@.len() == 3,
            crate::game::obstacles::names_of(names@) == floating_platform_sprites(),
            forall|i: int|
                0 <= i < n ==> (sheet.sheet@.contains_key(#[trigger] floating_platform_sprites()[i])
                    ==> crate::game::red_hat_boy::cell_fits(
                    sheet.sheet@[floating_platform_sprites()[i]],
                )),
        decreases 3 - n,
    {
        let name: &str = names[n];
        assert(name@ == floating_platform_sprites()[n as int]);
        match sheet.cell(name) {
            Some(cell) => {
                if !cell_in_range(cell) {
                    return false;
                }
            },
            None => {},
        }
        n += 1;
    }
    true
}

impl Walk {
    /// What the type guarantees of every world.
    #[verifier::type_invariant]
    pub open spec fn inv(self) -> bool {
        self@.wf()
    }

    /// The world at the start of a game, if the pictures can serve: the
    /// background is at least as wide as a tick's scrolling, and no size and
    /// no sprite of a platform exceeds the coordinate limit. The avatar
    /// enters the scene afresh, whatever it did before.
    pub fn new(
        boy: RedHatBoy,
        background: ImageElement,
        stone: ImageElement,
        obstacle_sheet: Rc<SpriteSheet>,
    ) -> (walk: Option<Self>)
        ensures
            walk is Some <==> background_fits(background) && stone_fits(stone) && tiles_fit(
                *obstacle_sheet,
            ),
            walk matches Some(walk) ==> walk@ == WalkView::start(
                boy@.reset(),
                background,
                stone,
                *obstacle_sheet,
            ),
    {
        let ghost entered = boy@;
        let boy = RedHatBoy::reset(boy);
        let usable = RUNNING_SPEED <= background.width && background.width <= COORDINATE_LIMIT && 0
            <= background.height && background.height <= COORDINATE_LIMIT && 0 <= stone.width
            && stone.width <= COORDINATE_LIMIT && 0 <= stone.height && stone.height
            <= COORDINATE_LIMIT && tiles_in_range(&obstacle_sheet);
        if !usable {
            return None;
        }
        let ghost sheet = shared(&obstacle_sheet);
        let starting_obstacles = stone_and_platform(stone, obstacle_sheet.clone(), 0);
        proof {
            use_type_invariant(&boy);
            segment_is_in_scene(0, stone, sheet, 0);
            assert forall|i: int| 0 <= i < starting_obstacles@.len() implies (
            #[trigger] starting_obstacles@[i])@.boxes_fit() by {
                assert(views_of(starting_obstacles@)[i] == starting_obstacles@[i]@);
                scene_obstacle_fits(starting_obstacles@[i]@, stone, sheet, 0);
            }
        }
        let timeline = rightmost(&starting_obstacles);
        let backgrounds = [
            Image::new(background, Point { x: 0, y: 0 }),
            Image::new(background, Point { x: background.width, y: 0 }),
        ];
        assert(backgrounds@ =~= WalkView::start(entered.reset(), background, stone, *obstacle_sheet).backgrounds);
        Some(
            Walk {
                boy,
                backgrounds,
                obstacles: starting_obstacles,
                obstacle_sheet,
                stone,
                timeline,
            },
        )
    }

    /// The world set up for a new game.
    pub fn reset(walk: Self) -> (fresh: Self)
        ensures
            fresh@ == walk@.reset(),
    {
        let ghost sheet = shared(&walk.obstacle_sheet);
        proof {
            use_type_invariant(&walk);
            segment_is_in_scene(0, walk.stone, sheet, 0);
        }
        let starting_obstacles = stone_and_platform(walk.stone, walk.obstacle_sheet.clone(), 0);
        proof {
            assert forall|i: int| 0 <= i < starting_obstacles@.len() implies (
            #[trigger] starting_obstacles@[i])@.boxes_fit() by {
                assert(views_of(starting_obstacles@)[i] == starting_obstacles@[i]@);
                scene_obstacle_fits(starting_obstacles@[i]@, walk.stone, sheet, 0);
            }
        }
        let timeline = rightmost(&starting_obstacles);
        let boy = RedHatBoy::reset(walk.boy);
        proof {
            use_type_invariant(&boy);
        }
        Walk {
            boy,
            backgrounds: walk.backgrounds,
            obstacles: starting_obstacles,
            obstacle_sheet: walk.obstacle_sheet,
            stone: walk.stone,
            timeline,
        }
    }

    pub fn knocked_out(&self) -> (out: bool)
        ensures
            out == (self@.boy.avatar.kind == StateKind::KnockedOut),
    {
        self.boy.knocked_out()
    }

    /// The speed at which the scene scrolls: the avatar's own speed, the other
    /// way.
    pub fn velocity(&self) -> (speed: i16)
        ensures
            speed == self@.velocity(),
            -RUNNING_SPEED <= speed <= 0,
    {
        -self.boy.walking_speed()
    }

    /// The world with the cluster numbered `next_segment` laid out behind
    /// the obstacles that are there, and the timeline at that cluster's
    /// rightmost edge.
    pub fn add_segment(self, next_segment: i32) -> (walk: Self)
        requires
            self@.timeline < TIMELINE_MINIMUM,
        ensures
            walk@ == self@.with_next_segment(next_segment as int),
    {
        let ghost sheet = shared(&self.obstacle_sheet);
        let ghost stone = self.stone;
        let ghost before = self@;
        proof {
            use_type_invariant(&self);
            segment_is_in_scene(
                next_segment as int,
                stone,
                sheet,
                (self.timeline + OBSTACLE_BUFFER) as i16,
            );
        }
        let mut next_obstacles = match next_segment {
            0 => stone_and_platform(
                self.stone,
                self.obstacle_sheet.clone(),
                self.timeline + OBSTACLE_BUFFER,
            ),
            1 => platform_and_stone(
                self.stone,
                self.obstacle_sheet.clone(),
                self.timeline + OBSTACLE_BUFFER,
            ),
            _ => Vec::new(),
        };
        let ghost next = views_of(next_obstacles@);
        proof {
            assert(next =~= segment(
                next_segment as int,
                stone,
                sheet,
                (before.timeline + OBSTACLE_BUFFER) as i16,
            ));
            assert forall|i: int| 0 <= i < next_obstacles@.len() implies (
            #[trigger] next_obstacles@[i])@.boxes_fit() by {
                assert(next[i] == next_obstacles@[i]@);
                scene_obstacle_fits(next[i], stone, sheet, 0);
            }
        }
        let timeline = rightmost(&next_obstacles);
        let mut obstacles = self.obstacles;
        proof {
            assert forall|i: int| 0 <= i < (before.obstacles + next).len() implies in_scene(
                #[trigger] (before.obstacles + next)[i],
                stone,
                sheet,
            ) by {
                if i >= before.obstacles.len() {
                    assert((before.obstacles + next)[i] == next[i - before.obstacles.len()]);
                }
            }
            assert(views_of(obstacles@ + next_obstacles@) =~= before.obstacles + next);
        }
        obstacles.append(&mut next_obstacles);
        Walk {
            obstacle_sheet: self.obstacle_sheet,
            boy: self.boy,
            backgrounds: self.backgrounds,
            obstacles,
            stone: self.stone,
            timeline,
        }
    }

    /// The world with a cluster of the catalog, picked at random, laid out
    /// behind the obstacles that are there. The timeline is then at the
    /// rightmost edge of the obstacles just laid out.
    pub fn generate_next_segment(self) -> (walk: Self)
        requires
            self@.timeline < TIMELINE_MINIMUM,
        ensures
            exists|choice: int|
                0 <= choice < SEGMENTS && walk@ == #[trigger] self@.with_next_segment(choice),
            walk@.obstacles.len() > self@.obstacles.len(),
            walk@.obstacles.take(self@.obstacles.len() as int) == self@.obstacles,
            walk@.timeline == rightmost_of(walk@.obstacles.skip(self@.obstacles.len() as int)),
    {
        let next_segment = random_below(SEGMENTS);
        proof {
            use_type_invariant(&self);
            timeline_follows_segment(self@, next_segment as int);
        }
        self.add_segment(next_segment)
    }

    /// The world with the timeline scrolled along with the scene.
    fn scroll_timeline(self, speed: i16) -> (walk: Self)
        requires
            self@.timeline >= TIMELINE_MINIMUM,
            -RUNNING_SPEED <= speed <= 0,
        ensures
            walk@ == (WalkView { timeline: (self@.timeline + speed) as i16, ..self@ }),
    {
        proof {
            use_type_invariant(&self);
        }
        Walk {
            obstacle_sheet: self.obstacle_sheet,
            boy: self.boy,
            backgrounds: self.backgrounds,
            obstacles: self.obstacles,
            stone: self.stone,
            timeline: self.timeline + speed,
        }
    }

    /// Paints the world: the backgrounds, the avatar, the obstacles.
    pub fn draw(&self, renderer: &mut Renderer)
        ensures
            final(renderer)@ == old(renderer)@ + self@.draw_list(),
    {
        let ghost sheet = shared(&self.obstacle_sheet);
        proof {
            use_type_invariant(self);
            in_play_is_in_sight(self@.boy.avatar);
        }
        self.backgrounds[0].draw(renderer);
        self.backgrounds[1].draw(renderer);
        self.boy.draw(renderer);
        let ghost views = self@.obstacles;
        let ghost base = renderer@;
        let mut n: usize = 0;
        assert(views.take(0) =~= Seq::<crate::game::obstacles::ObstacleView>::empty());
        assert(renderer@ =~= base + obstacles_draw_list(views.take(0)));
        while n < self.obstacles.len()
            invariant
                n <= self.obstacles@.len(),
                views == views_of(self.obstacles@),
                self@.wf(),
                views == self@.obstacles,
                sheet == self@.obstacle_sheet,
                renderer@ == base + obstacles_draw_list(views.take(n as int)),
            decreases self.obstacles@.len() - n,
        {
            proof {
                assert(in_scene(views[n as int], self@.stone, sheet));
                scene_obstacle_fits(views[n as int], self@.stone, sheet, 0);
                assert(views.take(n + 1).drop_last() =~= views.take(n as int));
                assert(views.take(n + 1).last() == self.obstacles@[n as int]@);
            }
            self.obstacles[n].draw(renderer);
            n += 1;
            assert(renderer@ =~= base + obstacles_draw_list(views.take(n as int)));
        }
        assert(views.take(n as int) =~= views);
        assert(renderer@ =~= old(renderer)@ + self@.draw_list());
    }

    /// The avatar as it stands.
    pub fn boy(&self) -> (boy: &RedHatBoy)
        ensures
            boy@ == self@.boy,
    {
        &self.boy
    }

    /// The obstacles ahead, nearest first as they were laid out.
    pub fn obstacles(&self) -> (obstacles: &Vec<Obstacle>)
        ensures
            views_of(obstacles@) == self@.obstacles,
    {
        &self.obstacles
    }

    /// The two backgrounds.
    pub fn backgrounds(&self) -> (backgrounds: &[Image; 2])
        ensures
            backgrounds@ == self@.backgrounds,
    {
        &self.backgrounds
    }

    /// How far ahead obstacles have been laid out.
    pub fn timeline(&self) -> (timeline: i16)
        ensures
            timeline == self@.timeline,
    {
        self.timeline
    }
}

/// The game waits for the player.
#[derive(Clone, Copy, Debug)]
pub struct Ready;

/// The game is on.
#[derive(Clone, Copy, Debug)]
pub struct Walking;

/// The avatar is knocked out; the player is asked for a new game.
pub struct GameOver {
    /// Where the player's request for a new game arrives.
    new_game_event: UnboundedReceiver<()>,
    /// The end of the channel on which the request is to be sent, until
    /// whoever asks the player has taken it.
    new_game_button: Option<UnboundedSender<()>>,
}

impl GameOver {
    /// Nobody has asked the player for a new game yet.
    pub closed spec fn prompt_due(self) -> bool {
        self.new_game_button is Some
    }

    /// Whether the player has asked for a new game since the last look.
    fn new_game_pressed(&mut self) -> (pressed: bool)
        ensures
            final(self).prompt_due() == old(self).prompt_due(),
    {
        message_waiting(&mut self.new_game_event)
    }
}

/// A game in the state `T`.
pub struct WalkTheDogState<T> {
    _state: T,
    walk: Walk,
}

impl<T> View for WalkTheDogState<T> {
    type V = WalkView;

    closed spec fn view(&self) -> WalkView {
        self.walk@
    }
}

impl<T> WalkTheDogState<T> {
    pub fn draw(&self, renderer: &mut Renderer)
        ensures
            final(renderer)@ == old(renderer)@ + self@.draw_list(),
    {
        self.walk.draw(renderer);
    }

    /// The world of the game.
    pub fn walk(&self) -> (walk: &Walk)
        ensures
            walk@ == self@,
    {
        &self.walk
    }

    /// What the game carries for the state it is in.
    pub closed spec fn marker(self) -> T {
        self._state
    }

    /// Whether a jump has begun whose sound is still to be played, and the
    /// game with that request withdrawn.
    pub fn take_jump_sound(self) -> (taken: (Self, bool))
        ensures
            taken.0@ == self@.jump_sound_played(),
            taken.0.marker() == self.marker(),
            taken.1 == self@.boy.avatar.context.jump_sound_due,
    {
        proof {
            use_type_invariant(&self.walk);
        }
        let walk = self.walk;
        let mut boy = walk.boy;
        let due = boy.take_jump_sound();
        proof {
            use_type_invariant(&boy);
        }
        (
            WalkTheDogState {
                _state: self._state,
                walk: Walk {
                    obstacle_sheet: walk.obstacle_sheet,
                    boy,
                    backgrounds: walk.backgrounds,
                    obstacles: walk.obstacles,
                    stone: walk.stone,
                    timeline: walk.timeline,
                },
            },
            due,
        )
    }
}

/// What a tick makes of a game that waits for the player.
pub enum ReadyEndState {
    Complete(WalkTheDogState<Walking>),
    Continue(WalkTheDogState<Ready>),
}

/// What a tick makes of a game that is on.
pub enum WalkingEndState {
    Continue(WalkTheDogState<Walking>),
    Complete(WalkTheDogState<GameOver>),
}

/// What a tick makes of a game that is over.
pub enum GameOverEndState {
    Continue(WalkTheDogState<GameOver>),
    Complete(WalkTheDogState<Ready>),
}

impl WalkTheDogState<Ready> {
    pub fn new(walk: Walk) -> (state: WalkTheDogState<Ready>)
        ensures
            state@ == walk@,
    {
        WalkTheDogState { _state: Ready, walk }
    }

    /// The same game with the avatar told to run.
    pub fn run_right(self) -> (state: Self)
        ensures
            state@ == self@.with_boy(self@.boy.after(Event::Run)),
    {
        proof {
            use_type_invariant(&self.walk);
            own_moves_keep_in_play(self@.boy.avatar, Event::Run);
        }
        let walk = self.walk;
        let mut boy = walk.boy;
        boy.run_right();
        WalkTheDogState {
            _state: Ready,
            walk: Walk {
                obstacle_sheet: walk.obstacle_sheet,
                boy,
                backgrounds: walk.backgrounds,
                obstacles: walk.obstacles,
                stone: walk.stone,
                timeline: walk.timeline,
            },
        }
    }

    pub fn start_running(self) -> (state: WalkTheDogState<Walking>)
        ensures
            state@ == self@.with_boy(self@.boy.after(Event::Run)),
    {
        let state = self.run_right();
        WalkTheDogState { _state: Walking, walk: state.walk }
    }

    /// A tick while the game waits: the avatar idles, and the game begins as
    /// soon as the player asks the avatar to move right.
    pub fn update(self, keystate: &KeyState) -> (end: ReadyEndState)
        ensures
            match end {
                ReadyEndState::Complete(state) => keystate@.contains("ArrowRight"@)
                    && GameView::Walking(state@) == GameView::Ready(self@).updated(
                    keystate@,
                    false,
                    0,
                ),
                ReadyEndState::Continue(state) => !keystate@.contains("ArrowRight"@)
                    && GameView::Ready(state@) == GameView::Ready(self@).updated(
                    keystate@,
                    false,
                    0,
                ),
            },
    {
        proof {
            use_type_invariant(&self.walk);
            own_moves_keep_in_play(self@.boy.avatar, Event::Update);
        }
        let walk = self.walk;
        let mut boy = walk.boy;
        boy.update();
        let state = WalkTheDogState {
            _state: Ready,
            walk: Walk {
                obstacle_sheet: walk.obstacle_sheet,
                boy,
                backgrounds: walk.backgrounds,
                obstacles: walk.obstacles,
                stone: walk.stone,
                timeline: walk.timeline,
            },
        };
        if keystate.is_pressed("ArrowRight") {
            ReadyEndState::Complete(state.start_running())
        } else {
            ReadyEndState::Continue(state)
        }
    }
}

impl WalkTheDogState<Walking> {
    /// The game is over: the world stays as it is, and the player is to be
    /// asked for a new game, over a channel made for that request.
    pub fn end_game(self) -> (state: WalkTheDogState<GameOver>)
        ensures
            state@ == self@,
            state.prompt_due(),
    {
        let (sender, receiver) = new_game_channel();
        WalkTheDogState {
            _state: GameOver { new_game_event: receiver, new_game_button: Some(sender) },
            walk: self.walk,
        }
    }

    /// A tick while the game is on. The avatar answers the keys and the tick;
    /// the scene scrolls against the avatar's speed; obstacles that have left
    /// the screen are dropped; those that remain strike the avatar; a new
    /// cluster, picked at random, is laid out where the lookahead has run
    /// short. The game is over once the avatar is knocked out.
    pub fn update(self, keystate: &KeyState) -> (end: WalkingEndState)
        ensures
            exists|choice: int|
                0 <= choice < SEGMENTS && match end {
                    WalkingEndState::Continue(state) => GameView::Walking(state@),
                    WalkingEndState::Complete(state) => GameView::GameOver(state@),
                } == #[trigger] GameView::Walking(self@).updated(keystate@, false, choice),
            match end {
                WalkingEndState::Continue(state) => forall|i: int|
                    0 <= i < state@.obstacles.len() ==> (#[trigger] state@.obstacles[i]).right()
                        > 0,
                WalkingEndState::Complete(state) => state.prompt_due() && forall|i: int|
                    0 <= i < state@.obstacles.len() ==> (#[trigger] state@.obstacles[i]).right()
                        > 0,
            },
    {
        let ghost before = self@;
        proof {
            use_type_invariant(&self.walk);
        }
        let (walk, walking_speed) = self.scroll(keystate);
        let ghost scrolled = walk@;
        let timeline = walk.timeline;
        let walk = if timeline < TIMELINE_MINIMUM {
            walk.generate_next_segment()
        } else {
            walk.scroll_timeline(walking_speed)
        };
        proof {
            let choice = if timeline < TIMELINE_MINIMUM {
                choose|choice: int|
                    0 <= choice < SEGMENTS && walk@ == #[trigger] scrolled.with_next_segment(choice)
            } else {
                0
            };
            assert(walk@ == before.advanced(keystate@, choice));
            tick_keeps_world_well_formed(before, keystate@, choice);
            assert(GameView::Walking(before).updated(keystate@, false, choice).walk() == walk@);
        }
        Self::end_if_knocked_out(walk)
    }

    /// What a tick makes of a game that is on if the cluster to lay out,
    /// should one be due, is the one numbered `choice`.
    pub fn update_with(self, keystate: &KeyState, choice: i32) -> (end: WalkingEndState)
        requires
            0 <= choice < SEGMENTS,
        ensures
            match end {
                WalkingEndState::Continue(state) => GameView::Walking(state@),
                WalkingEndState::Complete(state) => GameView::GameOver(state@),
            } == GameView::Walking(self@).updated(keystate@, false, choice as int),
            end matches WalkingEndState::Complete(state) ==> state.prompt_due(),
    {
        let ghost before = self@;
        let (walk, walking_speed) = self.scroll(keystate);
        let timeline = walk.timeline;
        let walk = if timeline < TIMELINE_MINIMUM {
            walk.add_segment(choice)
        } else {
            walk.scroll_timeline(walking_speed)
        };
        proof {
            assert(walk@ == before.advanced(keystate@, choice as int));
            assert(GameView::Walking(before).updated(keystate@, false, choice as int).walk()
                == walk@);
        }
        Self::end_if_knocked_out(walk)
    }

    /// The first part of a tick: the avatar answers the keys and the tick,
    /// the scene scrolls, and what remains of the obstacles strikes the
    /// avatar. Gives the world after that, and the speed of the scrolling.
    fn scroll(self, keystate: &KeyState) -> (scrolled: (Walk, i16))
        ensures
            scrolled.0@ == (WalkView {
                boy: struck_by_all(
                    self@.steered(keystate@),
                    scrolled_obstacles(self@.obstacles, scrolled.1),
                ),
                backgrounds: scrolled_backgrounds(self@.backgrounds, scrolled.1),
                obstacles: scrolled_obstacles(self@.obstacles, scrolled.1),
                ..self@
            }),
            scrolled.1 == -self@.steered(keystate@).avatar.context.velocity.x,
            -RUNNING_SPEED <= scrolled.1 <= 0,
    {
        let ghost before = self@;
        let ghost sheet = shared(&self.walk.obstacle_sheet);
        proof {
            use_type_invariant(&self.walk);
            own_moves_keep_in_play(before.boy.avatar, Event::Jump);
        }
        let walk = self.walk;
        let stone = walk.stone;
        let mut boy = walk.boy;
        if keystate.is_pressed("Space") {
            boy.jump();
        }
        proof {
            own_moves_keep_in_play(boy@.avatar, Event::Slide);
        }
        if keystate.is_pressed("ArrowDown") {
            boy.slide();
        }
        proof {
            own_moves_keep_in_play(boy@.avatar, Event::Update);
        }
        boy.update();
        assert(boy@ == before.steered(keystate@));
        let walking_speed = -boy.walking_speed();
        let backgrounds = scroll_backgrounds(walk.backgrounds, walking_speed);
        proof {
            assert forall|i: int| 0 <= i < walk.obstacles@.len() implies in_scene(
                (#[trigger] walk.obstacles@[i])@,
                stone,
                sheet,
            ) by {
                assert(before.obstacles[i] == walk.obstacles@[i]@);
            }
        }
        let obstacles = scroll_obstacles(walk.obstacles, walking_speed, Ghost(stone), Ghost(sheet));
        proof {
            scrolling_keeps_in_scene(before.obstacles, stone, sheet, walking_speed);
            assert forall|i: int| 0 <= i < obstacles@.len() implies in_scene(
                (#[trigger] obstacles@[i])@,
                stone,
                sheet,
            ) by {
                assert(views_of(obstacles@)[i] == obstacles@[i]@);
            }
        }
        check_intersections(&obstacles, &mut boy, Ghost(stone), Ghost(sheet));
        proof {
            use_type_invariant(&boy);
        }
        (
            Walk {
                obstacle_sheet: walk.obstacle_sheet,
                boy,
                backgrounds,
                obstacles,
                stone,
                timeline: walk.timeline,
            },
            walking_speed,
        )
    }

    /// The game after a tick's work on its world: over if the avatar is
    /// knocked out, on otherwise.
    fn end_if_knocked_out(walk: Walk) -> (end: WalkingEndState)
        ensures
            match end {
                WalkingEndState::Continue(state) => state@ == walk@ && walk@.boy.avatar.kind
                    != StateKind::KnockedOut,
                WalkingEndState::Complete(state) => state@ == walk@ && walk@.boy.avatar.kind
                    == StateKind::KnockedOut && state.prompt_due(),
            },
    {
        if walk.knocked_out() {
            WalkingEndState::Complete((WalkTheDogState { _state: Walking, walk }).end_game())
        } else {
            WalkingEndState::Continue(WalkTheDogState { _state: Walking, walk })
        }
    }
}

impl WalkTheDogState<GameOver> {
    /// Nobody has asked the player for a new game yet.
    pub open spec fn prompt_due(self) -> bool {
        self.marker().prompt_due()
    }

    /// A tick while the game is over: nothing moves. If the player has asked
    /// for a new game since the last tick, the world is set up anew.
    pub fn update(self) -> (end: GameOverEndState)
        ensures
            match end {
                GameOverEndState::Complete(state) => state@ == self@.reset(),
                GameOverEndState::Continue(state) => state@ == self@ && state.prompt_due()
                    == self.prompt_due(),
            },
    {
        let mut state = self;
        let new_game_pressed = state._state.new_game_pressed();
        state.restart_if(new_game_pressed)
    }

    /// What a tick makes of a game that is over, given whether the player
    /// has asked for a new game: a new game if so, the same game if not.
    pub fn restart_if(self, new_game_pressed: bool) -> (end: GameOverEndState)
        ensures
            match end {
                GameOverEndState::Complete(state) => new_game_pressed && state@ == self@.reset(),
                GameOverEndState::Continue(state) => !new_game_pressed && state == self,
            },
    {
        if new_game_pressed {
            GameOverEndState::Complete(self.new_game())
        } else {
            GameOverEndState::Continue(self)
        }
    }

    /// A new game: a fresh avatar and the first cluster of obstacles, before
    /// the backgrounds as they are.
    pub fn new_game(self) -> (state: WalkTheDogState<Ready>)
        ensures
            state@ == self@.reset(),
    {
        WalkTheDogState { _state: Ready, walk: Walk::reset(self.walk) }
    }

    /// The end of the channel on which the player's request for a new game
    /// is to be sent, if nobody has taken it yet, and the game without it.
    pub fn take_new_game_button(self) -> (taken: (Self, Option<UnboundedSender<()>>))
        ensures
            taken.0@ == self@,
            !taken.0.prompt_due(),
            taken.1 is Some <==> self.prompt_due(),
    {
        let state = self._state;
        (
            WalkTheDogState {
                _state: GameOver { new_game_event: state.new_game_event, new_game_button: None },
                walk: self.walk,
            },
            state.new_game_button,
        )
    }
}

} // verus!
