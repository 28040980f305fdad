//! The avatar's states, one type per state, and what each state can turn
//! into.

use vstd::prelude::*;
use crate::engine::Point;
use crate::game::HEIGHT;

verus! {

/// The lowest the avatar's position can be: it stands on the ground there.
pub const FLOOR: i16 = 479;

/// How far above a surface the position of an avatar lies that stands on it.
pub const PLAYER_HEIGHT: i16 = HEIGHT - FLOOR;

/// Where the avatar stands, left to right. The scene scrolls past it.
pub const STARTING_POINT: i16 = -20;

/// The frame at which the idle animation starts over.
pub const IDLE_FRAMES: u8 = 29;

/// The frame at which the running animation starts over.
pub const RUNNING_FRAMES: u8 = 23;

/// The frame at which the jumping animation starts over.
pub const JUMPING_FRAMES: u8 = 35;

/// The number of ticks that a slide lasts.
pub const SLIDING_FRAMES: u8 = 14;

/// The number of ticks that a fall lasts.
pub const FALLING_FRAMES: u8 = 29;

/// The name under which the sprites of the idle avatar are filed.
pub const IDLE_FRAME_NAME: &'static str = "Idle";

/// The name under which the sprites of the running avatar are filed.
pub const RUN_FRAME_NAME: &'static str = "Run";

/// The name under which the sprites of the sliding avatar are filed.
pub const SLIDING_FRAME_NAME: &'static str = "Slide";

/// The name under which the sprites of the jumping avatar are filed.
pub const JUMPING_FRAME_NAME: &'static str = "Jump";

/// The name under which the sprites of the falling avatar are filed, and of
/// the avatar that is knocked out.
pub const FALLING_FRAME_NAME: &'static str = "Dead";

/// The horizontal velocity of a running avatar.
pub const RUNNING_SPEED: i16 = 3;

/// The vertical velocity with which a jump begins. Up is negative.
pub const JUMP_SPEED: i16 = -27;

/// What a tick adds to the vertical velocity.
pub const GRAVITY: i16 = 1;

/// The vertical velocity at which gravity stops pulling.
pub const TERMINAL_VELOCITY: i16 = 18;

/// What every state of the avatar carries along.
#[derive(Clone, Copy, PartialEq, Eq, Structural, Debug)]
pub struct RedHatBoyContext {
    /// Ticks spent in the current animation cycle.
    pub frame: u8,
    pub position: Point,
    pub velocity: Point,
    /// A jump has begun whose sound nobody has played yet.
    pub jump_sound_due: bool,
}

impl RedHatBoyContext {
    /// The vertical velocity after gravity has pulled for one tick.
    pub open spec fn pulled_velocity(self) -> int {
        if self.velocity.y < TERMINAL_VELOCITY {
            self.velocity.y + GRAVITY
        } else {
            self.velocity.y as int
        }
    }

    /// One tick of physics keeps the vertical position representable.
    pub open spec fn update_fits(self) -> bool {
        i16::MIN <= self.position.y + self.pulled_velocity() <= i16::MAX
    }

    /// One tick of physics: gravity up to the terminal velocity, the frame
    /// counter one further or back to 0 once it has reached `frame_count`,
    /// the fall, and the floor.
    pub open spec fn spec_update(self, frame_count: u8) -> RedHatBoyContext {
        let fallen = self.position.y + self.pulled_velocity();
        RedHatBoyContext {
            frame: if self.frame < frame_count {
                (self.frame + 1) as u8
            } else {
                0
            },
            position: Point {
                x: self.position.x,
                y: if fallen > FLOOR {
                    FLOOR
                } else {
                    fallen as i16
                },
            },
            velocity: Point { x: self.velocity.x, y: self.pulled_velocity() as i16 },
            jump_sound_due: self.jump_sound_due,
        }
    }

    pub open spec fn spec_reset_frame(self) -> RedHatBoyContext {
        RedHatBoyContext { frame: 0, ..self }
    }

    pub open spec fn spec_set_vertical_velocity(self, y: i16) -> RedHatBoyContext {
        RedHatBoyContext { velocity: Point { x: self.velocity.x, y }, ..self }
    }

    pub open spec fn spec_run_right(self) -> RedHatBoyContext {
        RedHatBoyContext {
            velocity: Point { x: (self.velocity.x + RUNNING_SPEED) as i16, y: self.velocity.y },
            ..self
        }
    }

    pub open spec fn spec_stop(self) -> RedHatBoyContext {
        RedHatBoyContext { velocity: Point { x: 0, y: self.velocity.y }, ..self }
    }

    /// The avatar stood on a surface at height `position`.
    pub open spec fn spec_set_on(self, position: i16) -> RedHatBoyContext {
        RedHatBoyContext {
            position: Point { x: self.position.x, y: (position - PLAYER_HEIGHT) as i16 },
            ..self
        }
    }

    pub open spec fn spec_play_jump_sound(self) -> RedHatBoyContext {
        RedHatBoyContext { jump_sound_due: true, ..self }
    }

    pub open spec fn spec_jump_sound_played(self) -> RedHatBoyContext {
        RedHatBoyContext { jump_sound_due: false, ..self }
    }

    #[verifier::when_used_as_spec(spec_update)]
    pub fn update(self, frame_count: u8) -> (context: Self)
        requires
            self.update_fits(),
        ensures
            context == self.spec_update(frame_count),
            context.position.y <= FLOOR,
    {
        let mut context = self;
        if context.velocity.y < TERMINAL_VELOCITY {
            context.velocity.y += GRAVITY;
        }
        if context.frame < frame_count {
            context.frame += 1;
        } else {
            context.frame = 0;
        }
        context.position.y += context.velocity.y;
        if context.position.y > FLOOR {
            context.position.y = FLOOR;
        }
        context
    }

    #[verifier::when_used_as_spec(spec_reset_frame)]
    pub fn reset_frame(self) -> (context: Self)
        ensures
            context == self.spec_reset_frame(),
    {
        let mut context = self;
        context.frame = 0;
        context
    }

    #[verifier::when_used_as_spec(spec_set_vertical_velocity)]
    pub fn set_vertical_velocity(self, y: i16) -> (context: Self)
        ensures
            context == self.spec_set_vertical_velocity(y),
    {
        let mut context = self;
        context.velocity.y = y;
        context
    }

    #[verifier::when_used_as_spec(spec_run_right)]
    pub fn run_right(self) -> (context: Self)
        requires
            self.velocity.x + RUNNING_SPEED <= i16::MAX,
        ensures
            context == self.spec_run_right(),
    {
        let mut context = self;
        context.velocity.x += RUNNING_SPEED;
        context
    }

    #[verifier::when_used_as_spec(spec_stop)]
    pub fn stop(self) -> (context: Self)
        ensures
            context == self.spec_stop(),
    {
        let mut context = self;
        context.velocity.x = 0;
        context
    }

    #[verifier::when_used_as_spec(spec_set_on)]
    pub fn set_on(self, position: i16) -> (context: Self)
        requires
            position - PLAYER_HEIGHT >= i16::MIN,
        ensures
            context == self.spec_set_on(position),
            context.position.y == position - PLAYER_HEIGHT,
    {
        let mut context = self;
        let position = position - PLAYER_HEIGHT;
        context.position.y = position;
        context
    }

    /// Asks for the jump sound. Whoever plays it answers with
    /// `jump_sound_played`; nothing in the simulation waits for that.
    #[verifier::when_used_as_spec(spec_play_jump_sound)]
    pub fn play_jump_sound(self) -> (context: Self)
        ensures
            context == self.spec_play_jump_sound(),
    {
        let mut context = self;
        context.jump_sound_due = true;
        context
    }

    #[verifier::when_used_as_spec(spec_jump_sound_played)]
    pub fn jump_sound_played(self) -> (context: Self)
        ensures
            context == self.spec_jump_sound_played(),
    {
        let mut context = self;
        context.jump_sound_due = false;
        context
    }
}

/// The avatar in the state `S`.
#[derive(Debug)]
pub struct RedHatBoyState<S> {
    context: RedHatBoyContext,
    _state: S,
}

impl<S: Copy> Clone for RedHatBoyState<S> {
    fn clone(&self) -> (state: Self)
        ensures
            state == *self,
    {
        *self
    }
}

impl<S: Copy> Copy for RedHatBoyState<S> {

}

impl<S> View for RedHatBoyState<S> {
    type V = RedHatBoyContext;

    closed spec fn view(&self) -> RedHatBoyContext {
        self.context
    }
}

impl<S> RedHatBoyState<S> {
    pub fn context(&self) -> (context: &RedHatBoyContext)
        ensures
            *context == self@,
    {
        &self.context
    }

    fn update_context(&mut self, frames: u8)
        requires
            old(self)@.update_fits(),
        ensures
            final(self)@ == old(self)@.update(frames),
            final(self)._state == old(self)._state,
    {
        self.context = self.context.update(frames);
    }

    /// The same state with the request for the jump sound withdrawn.
    pub fn jump_sound_played(self) -> (state: Self)
        ensures
            state@ == self@.jump_sound_played(),
    {
        RedHatBoyState { context: self.context.jump_sound_played(), _state: self._state }
    }
}

/// The avatar stands and waits.
#[derive(Clone, Copy, Debug)]
pub struct Idle;

impl RedHatBoyState<Idle> {
    /// The context of an avatar that has just entered the scene.
    pub open spec fn initial_context() -> RedHatBoyContext {
        RedHatBoyContext {
            frame: 0,
            position: Point { x: STARTING_POINT, y: FLOOR },
            velocity: Point { x: 0, y: 0 },
            jump_sound_due: false,
        }
    }

    pub fn new() -> (state: Self)
        ensures
            state@ == Self::initial_context(),
    {
        RedHatBoyState {
            context: RedHatBoyContext {
                frame: 0,
                position: Point { x: STARTING_POINT, y: FLOOR },
                velocity: Point { x: 0, y: 0 },
                jump_sound_due: false,
            },
            _state: Idle {  },
        }
    }

    pub fn frame_name(&self) -> (name: &str)
        ensures
            name@ == IDLE_FRAME_NAME@,
    {
        IDLE_FRAME_NAME
    }

    pub fn update(self) -> (state: RedHatBoyState<Idle>)
        requires
            self@.update_fits(),
        ensures
            state@ == self@.update(IDLE_FRAMES),
    {
        let mut state = self;
        state.update_context(IDLE_FRAMES);
        state
    }

    pub fn run(self) -> (state: RedHatBoyState<Running>)
        requires
            self@.velocity.x + RUNNING_SPEED <= i16::MAX,
        ensures
            state@ == self@.reset_frame().run_right(),
    {
        RedHatBoyState { context: self.context.reset_frame().run_right(), _state: Running {  } }
    }
}

/// The avatar runs.
#[derive(Clone, Copy, Debug)]
pub struct Running;

impl RedHatBoyState<Running> {
    pub fn frame_name(&self) -> (name: &str)
        ensures
            name@ == RUN_FRAME_NAME@,
    {
        RUN_FRAME_NAME
    }

    pub fn update(self) -> (state: RedHatBoyState<Running>)
        requires
            self@.update_fits(),
        ensures
            state@ == self@.update(RUNNING_FRAMES),
    {
        let mut state = self;
        state.update_context(RUNNING_FRAMES);
        state
    }

    pub fn jump(self) -> (state: RedHatBoyState<Jumping>)
        ensures
            state@ == self@.reset_frame().set_vertical_velocity(JUMP_SPEED).play_jump_sound(),
    {
        RedHatBoyState {
            context: self.context.reset_frame().set_vertical_velocity(JUMP_SPEED).play_jump_sound(),
            _state: Jumping {  },
        }
    }

    pub fn slide(self) -> (state: RedHatBoyState<Sliding>)
        ensures
            state@ == self@.reset_frame(),
    {
        RedHatBoyState { context: self.context.reset_frame(), _state: Sliding {  } }
    }

    pub fn knock_out(self) -> (state: RedHatBoyState<Falling>)
        ensures
            state@ == self@.reset_frame().stop(),
    {
        RedHatBoyState { context: self.context.reset_frame().stop(), _state: Falling {  } }
    }

    pub fn land_on(self, position: i16) -> (state: RedHatBoyState<Running>)
        requires
            position - PLAYER_HEIGHT >= i16::MIN,
        ensures
            state@ == self@.set_on(position),
            state@.position.y == position - PLAYER_HEIGHT,
    {
        RedHatBoyState { context: self.context.set_on(position), _state: Running {  } }
    }
}

/// The avatar is in the air of its own accord.
#[derive(Clone, Copy, Debug)]
pub struct Jumping;

/// What a tick makes of a jump.
#[derive(Clone, Copy, Debug)]
pub enum JumpingEndState {
    Jumping(RedHatBoyState<Jumping>),
    Landing(RedHatBoyState<Running>),
}

impl RedHatBoyState<Jumping> {
    pub fn frame_name(&self) -> (name: &str)
        ensures
            name@ == JUMPING_FRAME_NAME@,
    {
        JUMPING_FRAME_NAME
    }

    /// A tick of physics. A jump that has come down to the floor ends here,
    /// with the avatar running on the ground.
    pub fn update(self) -> (end: JumpingEndState)
        requires
            self@.update_fits(),
        ensures
            match end {
                JumpingEndState::Landing(state) => {
                    &&& self@.update(JUMPING_FRAMES).position.y >= FLOOR
                    &&& state@ == self@.update(JUMPING_FRAMES).reset_frame().set_on(HEIGHT)
                },
                JumpingEndState::Jumping(state) => {
                    &&& self@.update(JUMPING_FRAMES).position.y < FLOOR
                    &&& state@ == self@.update(JUMPING_FRAMES)
                },
            },
    {
        let mut state = self;
        state.update_context(JUMPING_FRAMES);
        if state.context.position.y >= FLOOR {
            JumpingEndState::Landing(state.land_on(HEIGHT))
        } else {
            JumpingEndState::Jumping(state)
        }
    }

    pub fn land_on(self, position: i16) -> (state: RedHatBoyState<Running>)
        requires
            position - PLAYER_HEIGHT >= i16::MIN,
        ensures
            state@ == self@.reset_frame().set_on(position),
            state@.position.y == position - PLAYER_HEIGHT,
    {
        RedHatBoyState { context: self.context.reset_frame().set_on(position), _state: Running }
    }

    pub fn knock_out(self) -> (state: RedHatBoyState<Falling>)
        ensures
            state@ == self@.reset_frame().stop(),
    {
        RedHatBoyState { context: self.context.reset_frame().stop(), _state: Falling {  } }
    }
}

/// The avatar slides along the ground.
#[derive(Clone, Copy, Debug)]
pub struct Sliding;

/// What a tick makes of a slide.
#[derive(Clone, Copy, Debug)]
pub enum SlidingEndState {
    Sliding(RedHatBoyState<Sliding>),
    Running(RedHatBoyState<Running>),
}

impl RedHatBoyState<Sliding> {
    pub fn frame_name(&self) -> (name: &str)
        ensures
            name@ == SLIDING_FRAME_NAME@,
    {
        SLIDING_FRAME_NAME
    }

    /// A tick of physics. A slide whose frames are used up ends here, with
    /// the avatar on its feet again.
    pub fn update(self) -> (end: SlidingEndState)
        requires
            self@.update_fits(),
        ensures
            match end {
                SlidingEndState::Running(state) => {
                    &&& self@.update(SLIDING_FRAMES).frame >= SLIDING_FRAMES
                    &&& state@ == self@.update(SLIDING_FRAMES).reset_frame()
                },
                SlidingEndState::Sliding(state) => {
                    &&& self@.update(SLIDING_FRAMES).frame < SLIDING_FRAMES
                    &&& state@ == self@.update(SLIDING_FRAMES)
                },
            },
    {
        let mut state = self;
        state.update_context(SLIDING_FRAMES);
        if state.context.frame >= SLIDING_FRAMES {
            SlidingEndState::Running(state.stand())
        } else {
            SlidingEndState::Sliding(state)
        }
    }

    pub fn stand(self) -> (state: RedHatBoyState<Running>)
        ensures
            state@ == self@.reset_frame(),
    {
        RedHatBoyState { context: self.context.reset_frame(), _state: Running {  } }
    }

    pub fn knock_out(self) -> (state: RedHatBoyState<Falling>)
        ensures
            state@ == self@.reset_frame().stop(),
    {
        RedHatBoyState { context: self.context.reset_frame().stop(), _state: Falling {  } }
    }

    pub fn land_on(self, position: i16) -> (state: RedHatBoyState<Sliding>)
        requires
            position - PLAYER_HEIGHT >= i16::MIN,
        ensures
            state@ == self@.set_on(position),
            state@.position.y == position - PLAYER_HEIGHT,
    {
        RedHatBoyState { context: self.context.set_on(position), _state: Sliding {  } }
    }
}

/// The avatar lies knocked out. Nothing changes that.
#[derive(Clone, Copy, Debug)]
pub struct KnockedOut;

impl RedHatBoyState<KnockedOut> {
    pub fn frame_name(&self) -> (name: &str)
        ensures
            name@ == FALLING_FRAME_NAME@,
    {
        FALLING_FRAME_NAME
    }
}

/// The avatar has been hit and goes down.
#[derive(Clone, Copy, Debug)]
pub struct Falling;

/// What a tick makes of a fall.
#[derive(Clone, Copy, Debug)]
pub enum FallingEndState {
    Falling(RedHatBoyState<Falling>),
    KnockedOut(RedHatBoyState<KnockedOut>),
}

impl RedHatBoyState<Falling> {
    pub fn frame_name(&self) -> (name: &str)
        ensures
            name@ == FALLING_FRAME_NAME@,
    {
        FALLING_FRAME_NAME
    }

    pub fn knock_out(self) -> (state: RedHatBoyState<KnockedOut>)
        ensures
            state@ == self@,
    {
        RedHatBoyState { context: self.context, _state: KnockedOut {  } }
    }

    /// A tick of physics. A fall whose frames are used up ends here, with the
    /// avatar knocked out for good.
    pub fn update(self) -> (end: FallingEndState)
        requires
            self@.update_fits(),
        ensures
            match end {
                FallingEndState::KnockedOut(state) => {
                    &&& self@.update(FALLING_FRAMES).frame >= FALLING_FRAMES
                    &&& state@ == self@.update(FALLING_FRAMES)
                },
                FallingEndState::Falling(state) => {
                    &&& self@.update(FALLING_FRAMES).frame < FALLING_FRAMES
                    &&& state@ == self@.update(FALLING_FRAMES)
                },
            },
    {
        let mut state = self;
        state.update_context(FALLING_FRAMES);
        if state.context.frame >= FALLING_FRAMES {
            FallingEndState::KnockedOut(state.knock_out())
        } else {
            FallingEndState::Falling(state)
        }
    }
}

} // verus!
