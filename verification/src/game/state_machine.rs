//! The events the avatar answers to, and the state machine that answers
//! them.

use vstd::prelude::*;
use crate::game::HEIGHT;
use crate::game::red_hat_boy_states::{
    Falling, FallingEndState, Idle, Jumping, JumpingEndState, KnockedOut, RedHatBoyContext,
    RedHatBoyState, Running, Sliding, SlidingEndState, FALLING_FRAMES, FALLING_FRAME_NAME, FLOOR,
    IDLE_FRAMES, IDLE_FRAME_NAME, JUMPING_FRAMES, JUMPING_FRAME_NAME, JUMP_SPEED, PLAYER_HEIGHT,
    RUNNING_FRAMES, RUNNING_SPEED, RUN_FRAME_NAME, SLIDING_FRAMES, SLIDING_FRAME_NAME,
    STARTING_POINT, TERMINAL_VELOCITY,
};

verus! {

/// What can happen to the avatar.
#[derive(Clone, Copy, PartialEq, Eq, Structural, Debug)]
pub enum Event {
    Run,
    Slide,
    Update,
    Jump,
    KnockOut,
    /// The avatar has come down on a surface at the given height.
    Land(i16),
}

/// The six states of the avatar, without what they carry.
#[derive(Clone, Copy, PartialEq, Eq, Structural, Debug)]
pub enum StateKind {
    Idle,
    Running,
    Sliding,
    Jumping,
    Falling,
    KnockedOut,
}

impl StateKind {
    /// The frame counter of a state never exceeds this.
    pub open spec fn frame_budget(self) -> u8 {
        match self {
            StateKind::Idle => IDLE_FRAMES,
            StateKind::Running => RUNNING_FRAMES,
            StateKind::Sliding => SLIDING_FRAMES,
            StateKind::Jumping => JUMPING_FRAMES,
            StateKind::Falling => FALLING_FRAMES,
            StateKind::KnockedOut => FALLING_FRAMES,
        }
    }

    /// The name under which the state's sprites are filed.
    pub open spec fn frame_name(self) -> Seq<char> {
        match self {
            StateKind::Idle => IDLE_FRAME_NAME@,
            StateKind::Running => RUN_FRAME_NAME@,
            StateKind::Sliding => SLIDING_FRAME_NAME@,
            StateKind::Jumping => JUMPING_FRAME_NAME@,
            StateKind::Falling => FALLING_FRAME_NAME@,
            StateKind::KnockedOut => FALLING_FRAME_NAME@,
        }
    }
}

/// The avatar as the rules see it: a state and the context it carries.
pub struct Avatar {
    pub kind: StateKind,
    pub context: RedHatBoyContext,
}

impl Avatar {
    /// The avatar as it enters the scene.
    pub open spec fn initial() -> Avatar {
        Avatar { kind: StateKind::Idle, context: RedHatBoyState::<Idle>::initial_context() }
    }

    /// What one tick makes of the avatar.
    pub open spec fn updated(self) -> Avatar {
        match self.kind {
            StateKind::Idle => Avatar {
                kind: StateKind::Idle,
                context: self.context.update(IDLE_FRAMES),
            },
            StateKind::Running => Avatar {
                kind: StateKind::Running,
                context: self.context.update(RUNNING_FRAMES),
            },
            StateKind::Jumping => {
                let context = self.context.update(JUMPING_FRAMES);
                if context.position.y >= FLOOR {
                    Avatar { kind: StateKind::Running, context: context.reset_frame().set_on(HEIGHT) }
                } else {
                    Avatar { kind: StateKind::Jumping, context }
                }
            },
            StateKind::Sliding => {
                let context = self.context.update(SLIDING_FRAMES);
                if context.frame >= SLIDING_FRAMES {
                    Avatar { kind: StateKind::Running, context: context.reset_frame() }
                } else {
                    Avatar { kind: StateKind::Sliding, context }
                }
            },
            StateKind::Falling => {
                let context = self.context.update(FALLING_FRAMES);
                if context.frame >= FALLING_FRAMES {
                    Avatar { kind: StateKind::KnockedOut, context }
                } else {
                    Avatar { kind: StateKind::Falling, context }
                }
            },
            StateKind::KnockedOut => self,
        }
    }

    /// The avatar knocked off its feet, if it was on them.
    pub open spec fn knocked_off(self) -> Avatar {
        match self.kind {
            StateKind::Running | StateKind::Jumping | StateKind::Sliding => Avatar {
                kind: StateKind::Falling,
                context: self.context.reset_frame().stop(),
            },
            _ => self,
        }
    }

    /// The avatar put on a surface at height `position`, if it was moving.
    pub open spec fn landed(self, position: i16) -> Avatar {
        match self.kind {
            StateKind::Jumping => Avatar {
                kind: StateKind::Running,
                context: self.context.reset_frame().set_on(position),
            },
            StateKind::Running => Avatar {
                kind: StateKind::Running,
                context: self.context.set_on(position),
            },
            StateKind::Sliding => Avatar {
                kind: StateKind::Sliding,
                context: self.context.set_on(position),
            },
            _ => self,
        }
    }

    /// The transition table. A pair of state and event that the table does
    /// not list leaves the avatar as it is.
    pub open spec fn transition(self, event: Event) -> Avatar {
        match event {
            Event::Run => if self.kind == StateKind::Idle {
                Avatar { kind: StateKind::Running, context: self.context.reset_frame().run_right() }
            } else {
                self
            },
            Event::Jump => if self.kind == StateKind::Running {
                Avatar {
                    kind: StateKind::Jumping,
                    context: self.context.reset_frame().set_vertical_velocity(
                        JUMP_SPEED,
                    ).play_jump_sound(),
                }
            } else {
                self
            },
            Event::Slide => if self.kind == StateKind::Running {
                Avatar { kind: StateKind::Sliding, context: self.context.reset_frame() }
            } else {
                self
            },
            Event::Update => self.updated(),
            Event::KnockOut => self.knocked_off(),
            Event::Land(position) => self.landed(position),
        }
    }

    /// The arithmetic of the transition stays within the representable
    /// coordinates.
    pub open spec fn transition_fits(self, event: Event) -> bool {
        match event {
            Event::Run => self.kind == StateKind::Idle ==> self.context.velocity.x + RUNNING_SPEED
                <= i16::MAX,
            Event::Update => self.kind != StateKind::KnockedOut ==> self.context.update_fits(),
            Event::Land(position) => (self.kind == StateKind::Jumping || self.kind
                == StateKind::Running || self.kind == StateKind::Sliding) ==> position
                - PLAYER_HEIGHT >= i16::MIN,
            _ => true,
        }
    }

    /// The avatar after the events of `events`, one after the other.
    pub open spec fn after(self, events: Seq<Event>) -> Avatar
        decreases events.len(),
    {
        if events.len() == 0 {
            self
        } else {
            self.after(events.drop_last()).transition(events.last())
        }
    }

    /// The avatar after `ticks` ticks with no other event between them.
    pub open spec fn after_ticks(self, ticks: nat) -> Avatar
        decreases ticks,
    {
        if ticks == 0 {
            self
        } else {
            self.after_ticks((ticks - 1) as nat).updated()
        }
    }

    /// What holds of the avatar whatever happens to it: the frame counter
    /// stays within the state's budget, the velocities within what running,
    /// jumping and gravity can give, and the avatar at its place in the scene,
    /// which scrolls past it.
    pub open spec fn wf(self) -> bool {
        &&& self.context.frame <= self.kind.frame_budget()
        &&& JUMP_SPEED <= self.context.velocity.y <= TERMINAL_VELOCITY
        &&& 0 <= self.context.velocity.x <= RUNNING_SPEED
        &&& self.kind == StateKind::Idle ==> self.context.velocity.x == 0
        &&& self.context.position.x == STARTING_POINT
    }

    /// The avatar with the request for the jump sound withdrawn.
    pub open spec fn jump_sound_played(self) -> Avatar {
        Avatar { kind: self.kind, context: self.context.jump_sound_played() }
    }
}

/// The avatar in whichever state it is in.
#[derive(Clone, Copy, Debug)]
pub enum RedHatBoyStateMachine {
    Idle(RedHatBoyState<Idle>),
    Running(RedHatBoyState<Running>),
    Sliding(RedHatBoyState<Sliding>),
    Jumping(RedHatBoyState<Jumping>),
    Falling(RedHatBoyState<Falling>),
    KnockedOut(RedHatBoyState<KnockedOut>),
}

impl View for RedHatBoyStateMachine {
    type V = Avatar;

    open spec fn view(&self) -> Avatar {
        match self {
            RedHatBoyStateMachine::Idle(state) => Avatar { kind: StateKind::Idle, context: state@ },
            RedHatBoyStateMachine::Running(state) => Avatar {
                kind: StateKind::Running,
                context: state@,
            },
            RedHatBoyStateMachine::Sliding(state) => Avatar {
                kind: StateKind::Sliding,
                context: state@,
            },
            RedHatBoyStateMachine::Jumping(state) => Avatar {
                kind: StateKind::Jumping,
                context: state@,
            },
            RedHatBoyStateMachine::Falling(state) => Avatar {
                kind: StateKind::Falling,
                context: state@,
            },
            RedHatBoyStateMachine::KnockedOut(state) => Avatar {
                kind: StateKind::KnockedOut,
                context: state@,
            },
        }
    }
}

impl RedHatBoyStateMachine {
    /// Answers one event as the transition table says.
    pub fn transition(self, event: Event) -> (next: Self)
        requires
            self@.transition_fits(event),
        ensures
            next@ == self@.transition(event),
            self is KnockedOut ==> next == self,
    {
        match (self, event) {
            (RedHatBoyStateMachine::Idle(state), Event::Run) => state.run().into(),
            (RedHatBoyStateMachine::Running(state), Event::Jump) => state.jump().into(),
            (RedHatBoyStateMachine::Running(state), Event::Slide) => state.slide().into(),
            (RedHatBoyStateMachine::Idle(state), Event::Update) => state.update().into(),
            (RedHatBoyStateMachine::Running(state), Event::Update) => state.update().into(),
            (RedHatBoyStateMachine::Jumping(state), Event::Update) => state.update().into(),
            (RedHatBoyStateMachine::Sliding(state), Event::Update) => state.update().into(),
            (RedHatBoyStateMachine::Falling(state), Event::Update) => state.update().into(),
            (RedHatBoyStateMachine::Running(state), Event::KnockOut) => state.knock_out().into(),
            (RedHatBoyStateMachine::Jumping(state), Event::KnockOut) => state.knock_out().into(),
            (RedHatBoyStateMachine::Sliding(state), Event::KnockOut) => state.knock_out().into(),
            (RedHatBoyStateMachine::Jumping(state), Event::Land(position)) => state.land_on(
                position,
            ).into(),
            (RedHatBoyStateMachine::Running(state), Event::Land(position)) => state.land_on(
                position,
            ).into(),
            (RedHatBoyStateMachine::Sliding(state), Event::Land(position)) => state.land_on(
                position,
            ).into(),
            _ => self,
        }
    }

    pub fn frame_name(&self) -> (name: &str)
        ensures
            name@ == self@.kind.frame_name(),
    {
        match self {
            RedHatBoyStateMachine::Idle(state) => state.frame_name(),
            RedHatBoyStateMachine::Running(state) => state.frame_name(),
            RedHatBoyStateMachine::Jumping(state) => state.frame_name(),
            RedHatBoyStateMachine::Sliding(state) => state.frame_name(),
            RedHatBoyStateMachine::Falling(state) => state.frame_name(),
            RedHatBoyStateMachine::KnockedOut(state) => state.frame_name(),
        }
    }

    pub fn context(&self) -> (context: &RedHatBoyContext)
        ensures
            *context == self@.context,
    {
        match self {
            RedHatBoyStateMachine::Idle(state) => state.context(),
            RedHatBoyStateMachine::Running(state) => state.context(),
            RedHatBoyStateMachine::Jumping(state) => state.context(),
            RedHatBoyStateMachine::Sliding(state) => state.context(),
            RedHatBoyStateMachine::Falling(state) => state.context(),
            RedHatBoyStateMachine::KnockedOut(state) => state.context(),
        }
    }

    pub fn update(self) -> (next: Self)
        requires
            self@.transition_fits(Event::Update),
        ensures
            next@ == self@.updated(),
            self is KnockedOut ==> next == self,
    {
        self.transition(Event::Update)
    }

    pub fn knocked_out(&self) -> (out: bool)
        ensures
            out == (self@.kind == StateKind::KnockedOut),
    {
        matches!(self, RedHatBoyStateMachine::KnockedOut(_))
    }

    /// The same avatar with the request for the jump sound withdrawn.
    pub fn jump_sound_played(self) -> (next: Self)
        ensures
            next@ == self@.jump_sound_played(),
    {
        match self {
            RedHatBoyStateMachine::Idle(state) => state.jump_sound_played().into(),
            RedHatBoyStateMachine::Running(state) => state.jump_sound_played().into(),
            RedHatBoyStateMachine::Jumping(state) => state.jump_sound_played().into(),
            RedHatBoyStateMachine::Sliding(state) => state.jump_sound_played().into(),
            RedHatBoyStateMachine::Falling(state) => state.jump_sound_played().into(),
            RedHatBoyStateMachine::KnockedOut(state) => state.jump_sound_played().into(),
        }
    }
}

impl From<RedHatBoyState<Idle>> for RedHatBoyStateMachine {
    fn from(state: RedHatBoyState<Idle>) -> (machine: Self) {
        RedHatBoyStateMachine::Idle(state)
    }
}

impl vstd::std_specs::convert::FromSpecImpl<RedHatBoyState<Idle>> for RedHatBoyStateMachine {
    open spec fn obeys_from_spec() -> bool {
        true
    }

    open spec fn from_spec(state: RedHatBoyState<Idle>) -> Self {
        RedHatBoyStateMachine::Idle(state)
    }
}

impl From<RedHatBoyState<Running>> for RedHatBoyStateMachine {
    fn from(state: RedHatBoyState<Running>) -> (machine: Self) {
        RedHatBoyStateMachine::Running(state)
    }
}

impl vstd::std_specs::convert::FromSpecImpl<RedHatBoyState<Running>> for RedHatBoyStateMachine {
    open spec fn obeys_from_spec() -> bool {
        true
    }

    open spec fn from_spec(state: RedHatBoyState<Running>) -> Self {
        RedHatBoyStateMachine::Running(state)
    }
}

impl From<RedHatBoyState<Sliding>> for RedHatBoyStateMachine {
    fn from(state: RedHatBoyState<Sliding>) -> (machine: Self) {
        RedHatBoyStateMachine::Sliding(state)
    }
}

impl vstd::std_specs::convert::FromSpecImpl<RedHatBoyState<Sliding>> for RedHatBoyStateMachine {
    open spec fn obeys_from_spec() -> bool {
        true
    }

    open spec fn from_spec(state: RedHatBoyState<Sliding>) -> Self {
        RedHatBoyStateMachine::Sliding(state)
    }
}

impl From<RedHatBoyState<Jumping>> for RedHatBoyStateMachine {
    fn from(state: RedHatBoyState<Jumping>) -> (machine: Self) {
        RedHatBoyStateMachine::Jumping(state)
    }
}

impl vstd::std_specs::convert::FromSpecImpl<RedHatBoyState<Jumping>> for RedHatBoyStateMachine {
    open spec fn obeys_from_spec() -> bool {
        true
    }

    open spec fn from_spec(state: RedHatBoyState<Jumping>) -> Self {
        RedHatBoyStateMachine::Jumping(state)
    }
}

impl From<RedHatBoyState<Falling>> for RedHatBoyStateMachine {
    fn from(state: RedHatBoyState<Falling>) -> (machine: Self) {
        RedHatBoyStateMachine::Falling(state)
    }
}

impl vstd::std_specs::convert::FromSpecImpl<RedHatBoyState<Falling>> for RedHatBoyStateMachine {
    open spec fn obeys_from_spec() -> bool {
        true
    }

    open spec fn from_spec(state: RedHatBoyState<Falling>) -> Self {
        RedHatBoyStateMachine::Falling(state)
    }
}

impl From<RedHatBoyState<KnockedOut>> for RedHatBoyStateMachine {
    fn from(state: RedHatBoyState<KnockedOut>) -> (machine: Self) {
        RedHatBoyStateMachine::KnockedOut(state)
    }
}

impl vstd::std_specs::convert::FromSpecImpl<RedHatBoyState<KnockedOut>> for RedHatBoyStateMachine {
    open spec fn obeys_from_spec() -> bool {
        true
    }

    open spec fn from_spec(state: RedHatBoyState<KnockedOut>) -> Self {
        RedHatBoyStateMachine::KnockedOut(state)
    }
}

impl From<SlidingEndState> for RedHatBoyStateMachine {
    fn from(state: SlidingEndState) -> (machine: Self) {
        match state {
            SlidingEndState::Sliding(sliding) => sliding.into(),
            SlidingEndState::Running(running) => running.into(),
        }
    }
}

impl vstd::std_specs::convert::FromSpecImpl<SlidingEndState> for RedHatBoyStateMachine {
    open spec fn obeys_from_spec() -> bool {
        true
    }

    open spec fn from_spec(state: SlidingEndState) -> Self {
        match state {
            SlidingEndState::Sliding(sliding) => RedHatBoyStateMachine::Sliding(sliding),
            SlidingEndState::Running(running) => RedHatBoyStateMachine::Running(running),
        }
    }
}

impl From<JumpingEndState> for RedHatBoyStateMachine {
    fn from(state: JumpingEndState) -> (machine: Self) {
        match state {
            JumpingEndState::Jumping(jumping) => jumping.into(),
            JumpingEndState::Landing(landing) => landing.into(),
        }
    }
}

impl vstd::std_specs::convert::FromSpecImpl<JumpingEndState> for RedHatBoyStateMachine {
    open spec fn obeys_from_spec() -> bool {
        true
    }

    open spec fn from_spec(state: JumpingEndState) -> Self {
        match state {
            JumpingEndState::Jumping(jumping) => RedHatBoyStateMachine::Jumping(jumping),
            JumpingEndState::Landing(landing) => RedHatBoyStateMachine::Running(landing),
        }
    }
}

impl From<FallingEndState> for RedHatBoyStateMachine {
    fn from(state: FallingEndState) -> (machine: Self) {
        match state {
            FallingEndState::Falling(falling) => falling.into(),
            FallingEndState::KnockedOut(knocked_out) => knocked_out.into(),
        }
    }
}

impl vstd::std_specs::convert::FromSpecImpl<FallingEndState> for RedHatBoyStateMachine {
    open spec fn obeys_from_spec() -> bool {
        true
    }

    open spec fn from_spec(state: FallingEndState) -> Self {
        match state {
            FallingEndState::Falling(falling) => RedHatBoyStateMachine::Falling(falling),
            FallingEndState::KnockedOut(knocked_out) => RedHatBoyStateMachine::KnockedOut(
                knocked_out,
            ),
        }
    }
}

/// Gravity: a tick never takes the vertical velocity of an avatar that is not
/// knocked out above the terminal velocity, and a velocity below the terminal
/// velocity is greater after the tick than before.
pub proof fn gravity_pulls_up_to_terminal_velocity(avatar: Avatar)
    requires
        avatar.kind != StateKind::KnockedOut,
        avatar.context.velocity.y <= TERMINAL_VELOCITY,
    ensures
        avatar.updated().context.velocity.y <= TERMINAL_VELOCITY,
        avatar.context.velocity.y < TERMINAL_VELOCITY ==> avatar.updated().context.velocity.y
            > avatar.context.velocity.y,
{
}

/// The floor: after a tick an avatar that is not knocked out is on the floor
/// or above it.
pub proof fn tick_stops_at_floor(avatar: Avatar)
    requires
        avatar.kind != StateKind::KnockedOut,
        avatar.context.update_fits(),
    ensures
        avatar.updated().context.position.y <= FLOOR,
{
}

/// Absorption: no event, and no sequence of events, changes an avatar that is
/// knocked out.
pub proof fn knocked_out_is_absorbing(avatar: Avatar, events: Seq<Event>)
    requires
        avatar.kind == StateKind::KnockedOut,
    ensures
        avatar.after(events) == avatar,
    decreases events.len(),
{
    if events.len() > 0 {
        knocked_out_is_absorbing(avatar, events.drop_last());
    }
}

/// A slide that has just begun is still a slide after fewer ticks than the
/// slide has frames, with one frame used per tick.
pub proof fn slide_lasts(avatar: Avatar, ticks: nat)
    requires
        avatar.kind == StateKind::Sliding,
        avatar.context.frame == 0,
        ticks < SLIDING_FRAMES,
    ensures
        avatar.after_ticks(ticks).kind == StateKind::Sliding,
        avatar.after_ticks(ticks).context.frame == ticks,
    decreases ticks,
{
    if ticks > 0 {
        slide_lasts(avatar, (ticks - 1) as nat);
    }
}

/// A slide that has just begun has become a run after exactly as many ticks
/// as the slide has frames, and not before.
pub proof fn slide_ends_on_time(avatar: Avatar)
    requires
        avatar.kind == StateKind::Sliding,
        avatar.context.frame == 0,
    ensures
        avatar.after_ticks(SLIDING_FRAMES as nat).kind == StateKind::Running,
        forall|ticks: nat|
            ticks < SLIDING_FRAMES ==> (#[trigger] avatar.after_ticks(ticks)).kind
                == StateKind::Sliding,
{
    slide_lasts(avatar, (SLIDING_FRAMES - 1) as nat);
    assert forall|ticks: nat| ticks < SLIDING_FRAMES implies (#[trigger] avatar.after_ticks(
        ticks,
    )).kind == StateKind::Sliding by {
        slide_lasts(avatar, ticks);
    }
}

/// A fall that has just begun is still a fall after fewer ticks than the fall
/// has frames, with one frame used per tick.
pub proof fn fall_lasts(avatar: Avatar, ticks: nat)
    requires
        avatar.kind == StateKind::Falling,
        avatar.context.frame == 0,
        ticks < FALLING_FRAMES,
    ensures
        avatar.after_ticks(ticks).kind == StateKind::Falling,
        avatar.after_ticks(ticks).context.frame == ticks,
    decreases ticks,
{
    if ticks > 0 {
        fall_lasts(avatar, (ticks - 1) as nat);
    }
}

/// A fall that has just begun has left the avatar knocked out after exactly
/// as many ticks as the fall has frames, and not before.
pub proof fn fall_ends_on_time(avatar: Avatar)
    requires
        avatar.kind == StateKind::Falling,
        avatar.context.frame == 0,
    ensures
        avatar.after_ticks(FALLING_FRAMES as nat).kind == StateKind::KnockedOut,
        forall|ticks: nat|
            ticks < FALLING_FRAMES ==> (#[trigger] avatar.after_ticks(ticks)).kind
                == StateKind::Falling,
{
    fall_lasts(avatar, (FALLING_FRAMES - 1) as nat);
    assert forall|ticks: nat| ticks < FALLING_FRAMES implies (#[trigger] avatar.after_ticks(
        ticks,
    )).kind == StateKind::Falling by {
        fall_lasts(avatar, ticks);
    }
}

/// Landing is exact: an avatar that runs, jumps or slides and lands on a
/// surface stands with its position one player height above the surface.
pub proof fn landing_is_exact(avatar: Avatar, surface: i16)
    requires
        avatar.kind == StateKind::Running || avatar.kind == StateKind::Jumping || avatar.kind
            == StateKind::Sliding,
        surface - PLAYER_HEIGHT >= i16::MIN,
    ensures
        avatar.transition(Event::Land(surface)).context.position.y == surface - PLAYER_HEIGHT,
{
}

/// Whatever happens to it, a well-formed avatar stays well-formed.
pub proof fn transition_keeps_avatar_well_formed(avatar: Avatar, event: Event)
    requires
        avatar.wf(),
    ensures
        avatar.transition(event).wf(),
{
}

} // verus!
