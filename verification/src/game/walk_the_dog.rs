//! The game as its driver sees it: set up once, then updated and drawn frame
//! after frame.

use vstd::prelude::*;
use vstd::string::StringExecFns;
use std::rc::Rc;
use futures::channel::mpsc::UnboundedSender;
use crate::engine::{DrawCommand, ImageElement, KeyState, Point, Rect, Renderer, Sheet, SpriteSheet};
use crate::game::red_hat_boy::{sheet_complete, RedHatBoy, RedHatBoyView};
use crate::game::scene::{background_fits, stone_fits, tiles_fit, GameView, WalkView, SEGMENTS};
use crate::game::state_machine::Avatar;
use crate::game::walk::{
    GameOver, GameOverEndState, Ready, ReadyEndState, Walk, WalkTheDogState, Walking,
    WalkingEndState,
};
use crate::game::HEIGHT;

verus! {

/// A game in whichever state it is in.
pub enum WalkTheDogStateMachine {
    Ready(WalkTheDogState<Ready>),
    Walking(WalkTheDogState<Walking>),
    GameOver(WalkTheDogState<GameOver>),
}

impl View for WalkTheDogStateMachine {
    type V = GameView;

    open spec fn view(&self) -> GameView {
        match self {
            WalkTheDogStateMachine::Ready(state) => GameView::Ready(state@),
            WalkTheDogStateMachine::Walking(state) => GameView::Walking(state@),
            WalkTheDogStateMachine::GameOver(state) => GameView::GameOver(state@),
        }
    }
}

impl WalkTheDogStateMachine {
    /// The game is over, and nobody has asked the player for a new game yet.
    pub open spec fn prompt_due(self) -> bool {
        match self {
            WalkTheDogStateMachine::GameOver(state) => state.prompt_due(),
            _ => false,
        }
    }

    pub fn new(walk: Walk) -> (machine: Self)
        ensures
            machine@ == GameView::Ready(walk@),
    {
        WalkTheDogStateMachine::Ready(WalkTheDogState::<Ready>::new(walk))
    }

    /// One tick of the game, with the keys as they are held down. A game
    /// that is over looks whether the player has asked for a new game.
    pub fn update(self, keystate: &KeyState) -> (next: Self)
        ensures
            exists|new_game_pressed: bool, choice: int|
                0 <= choice < SEGMENTS && next@ == #[trigger] self@.updated(
                    keystate@,
                    new_game_pressed,
                    choice,
                ),
            next.prompt_due() == (if self is GameOver {
                next is GameOver && self.prompt_due()
            } else {
                next is GameOver
            }),
    {
        match self {
            WalkTheDogStateMachine::Ready(state) => {
                let next: WalkTheDogStateMachine = state.update(keystate).into();
                assert(next@ == self@.updated(keystate@, false, 0));
                next
            },
            WalkTheDogStateMachine::Walking(state) => {
                let next: WalkTheDogStateMachine = state.update(keystate).into();
                proof {
                    let choice = choose|choice: int|
                        0 <= choice < SEGMENTS && next@ == #[trigger] GameView::Walking(
                            state@,
                        ).updated(keystate@, false, choice);
                    assert(next@ == self@.updated(keystate@, false, choice));
                }
                next
            },
            WalkTheDogStateMachine::GameOver(state) => {
                let next: WalkTheDogStateMachine = state.update().into();
                assert(next@ == self@.updated(keystate@, next is Ready, 0));
                next
            },
        }
    }

    /// What a tick makes of the game for each answer from outside: with
    /// `new_game_pressed` telling whether the player has asked for a new
    /// game, and `choice` the cluster to lay out should one be due.
    pub fn update_with(self, keystate: &KeyState, new_game_pressed: bool, choice: i32) -> (next:
        Self)
        requires
            0 <= choice < SEGMENTS,
        ensures
            next@ == self@.updated(keystate@, new_game_pressed, choice as int),
            self is GameOver && !new_game_pressed ==> next == self,
            next.prompt_due() == (if self is GameOver {
                next is GameOver && self.prompt_due()
            } else {
                next is GameOver
            }),
    {
        match self {
            WalkTheDogStateMachine::Ready(state) => state.update(keystate).into(),
            WalkTheDogStateMachine::Walking(state) => state.update_with(keystate, choice).into(),
            WalkTheDogStateMachine::GameOver(state) => state.restart_if(new_game_pressed).into(),
        }
    }

    pub fn draw(&self, renderer: &mut Renderer)
        ensures
            final(renderer)@ == old(renderer)@ + self@.walk().draw_list(),
    {
        match self {
            WalkTheDogStateMachine::Ready(state) => state.draw(renderer),
            WalkTheDogStateMachine::Walking(state) => state.draw(renderer),
            WalkTheDogStateMachine::GameOver(state) => state.draw(renderer),
        }
    }

    /// Whether a jump has begun whose sound is still to be played, and the
    /// game with that request withdrawn.
    pub fn take_jump_sound(self) -> (taken: (Self, bool))
        ensures
            taken.0@ == self@.jump_sound_played(),
            taken.0.prompt_due() == self.prompt_due(),
            taken.1 == self@.walk().boy.avatar.context.jump_sound_due,
    {
        match self {
            WalkTheDogStateMachine::Ready(state) => {
                let (state, due) = state.take_jump_sound();
                (WalkTheDogStateMachine::Ready(state), due)
            },
            WalkTheDogStateMachine::Walking(state) => {
                let (state, due) = state.take_jump_sound();
                (WalkTheDogStateMachine::Walking(state), due)
            },
            WalkTheDogStateMachine::GameOver(state) => {
                let ghost due_before = state.prompt_due();
                let (state, due) = state.take_jump_sound();
                assert(state.prompt_due() == due_before);
                (WalkTheDogStateMachine::GameOver(state), due)
            },
        }
    }

    /// The end of the channel on which the player's request for a new game
    /// is to be sent, if the game is over and nobody has taken it yet, and
    /// the game without it.
    pub fn take_new_game_button(self) -> (taken: (Self, Option<UnboundedSender<()>>))
        ensures
            taken.0@ == self@,
            !taken.0.prompt_due(),
            taken.1 is Some <==> self.prompt_due(),
    {
        match self {
            WalkTheDogStateMachine::GameOver(state) => {
                let (state, button) = state.take_new_game_button();
                (WalkTheDogStateMachine::GameOver(state), button)
            },
            _ => (self, None),
        }
    }
}

impl From<WalkTheDogState<Ready>> for WalkTheDogStateMachine {
    fn from(state: WalkTheDogState<Ready>) -> (machine: Self) {
        WalkTheDogStateMachine::Ready(state)
    }
}

impl vstd::std_specs::convert::FromSpecImpl<WalkTheDogState<Ready>> for WalkTheDogStateMachine {
    open spec fn obeys_from_spec() -> bool {
        true
    }

    open spec fn from_spec(state: WalkTheDogState<Ready>) -> Self {
        WalkTheDogStateMachine::Ready(state)
    }
}

impl From<WalkTheDogState<Walking>> for WalkTheDogStateMachine {
    fn from(state: WalkTheDogState<Walking>) -> (machine: Self) {
        WalkTheDogStateMachine::Walking(state)
    }
}

impl vstd::std_specs::convert::FromSpecImpl<WalkTheDogState<Walking>> for WalkTheDogStateMachine {
    open spec fn obeys_from_spec() -> bool {
        true
    }

    open spec fn from_spec(state: WalkTheDogState<Walking>) -> Self {
        WalkTheDogStateMachine::Walking(state)
    }
}

impl From<WalkTheDogState<GameOver>> for WalkTheDogStateMachine {
    fn from(state: WalkTheDogState<GameOver>) -> (machine: Self) {
        WalkTheDogStateMachine::GameOver(state)
    }
}

impl vstd::std_specs::convert::FromSpecImpl<WalkTheDogState<GameOver>> for WalkTheDogStateMachine {
    open spec fn obeys_from_spec() -> bool {
        true
    }

    open spec fn from_spec(state: WalkTheDogState<GameOver>) -> Self {
        WalkTheDogStateMachine::GameOver(state)
    }
}

impl From<ReadyEndState> for WalkTheDogStateMachine {
    fn from(state: ReadyEndState) -> (machine: Self) {
        match state {
            ReadyEndState::Complete(walking) => walking.into(),
            ReadyEndState::Continue(ready) => ready.into(),
        }
    }
}

impl vstd::std_specs::convert::FromSpecImpl<ReadyEndState> for WalkTheDogStateMachine {
    open spec fn obeys_from_spec() -> bool {
        true
    }

    open spec fn from_spec(state: ReadyEndState) -> Self {
        match state {
            ReadyEndState::Complete(walking) => WalkTheDogStateMachine::Walking(walking),
            ReadyEndState::Continue(ready) => WalkTheDogStateMachine::Ready(ready),
        }
    }
}

impl From<WalkingEndState> for WalkTheDogStateMachine {
    fn from(state: WalkingEndState) -> (machine: Self) {
        match state {
            WalkingEndState::Continue(walking) => walking.into(),
            WalkingEndState::Complete(game_over) => game_over.into(),
        }
    }
}

impl vstd::std_specs::convert::FromSpecImpl<WalkingEndState> for WalkTheDogStateMachine {
    open spec fn obeys_from_spec() -> bool {
        true
    }

    open spec fn from_spec(state: WalkingEndState) -> Self {
        match state {
            WalkingEndState::Continue(walking) => WalkTheDogStateMachine::Walking(walking),
            WalkingEndState::Complete(game_over) => WalkTheDogStateMachine::GameOver(game_over),
        }
    }
}

impl From<GameOverEndState> for WalkTheDogStateMachine {
    fn from(state: GameOverEndState) -> (machine: Self) {
        match state {
            GameOverEndState::Continue(game_over) => game_over.into(),
            GameOverEndState::Complete(ready) => ready.into(),
        }
    }
}

impl vstd::std_specs::convert::FromSpecImpl<GameOverEndState> for WalkTheDogStateMachine {
    open spec fn obeys_from_spec() -> bool {
        true
    }

    open spec fn from_spec(state: GameOverEndState) -> Self {
        match state {
            GameOverEndState::Continue(game_over) => WalkTheDogStateMachine::GameOver(game_over),
            GameOverEndState::Complete(ready) => WalkTheDogStateMachine::Ready(ready),
        }
    }
}

/// Everything a game is made from, loaded and measured.
pub struct Assets {
    /// The sprites that show the avatar.
    pub sheet: Sheet,
    /// The picture those sprites are cut from.
    pub image: ImageElement,
    pub background: ImageElement,
    pub stone: ImageElement,
    /// The sprites that show the platforms.
    pub tiles: Sheet,
    /// The picture those sprites are cut from.
    pub tiles_image: ImageElement,
}

impl Assets {
    /// The sprite sheet of the platforms.
    pub open spec fn obstacle_sheet(self) -> SpriteSheet {
        SpriteSheet { sheet: self.tiles, image: self.tiles_image }
    }

    /// The pictures can serve: the background is at least as wide as a
    /// tick's scrolling, and no size and no sprite of a platform exceeds the
    /// coordinate limit.
    pub open spec fn usable(self) -> bool {
        &&& background_fits(self.background)
        &&& stone_fits(self.stone)
        &&& tiles_fit(self.obstacle_sheet())
    }

    /// The game that these assets make.
    pub open spec fn game(self) -> GameView {
        GameView::Ready(
            WalkView::start(
                RedHatBoyView { avatar: Avatar::initial(), frames: self.sheet@, image: self.image },
                self.background,
                self.stone,
                self.obstacle_sheet(),
            ),
        )
    }
}

/// Why a game could not be set up.
#[derive(Clone, Copy, PartialEq, Eq, Structural, Debug)]
pub enum GameError {
    /// The game has been set up before.
    AlreadyInitialized,
    /// The avatar's sheet lacks a sprite for some frame of some state, or has
    /// one with a number beyond the coordinate limit.
    IncompleteSheet,
    /// The background is narrower than a tick's scrolling, or a size or a
    /// sprite of a platform exceeds the coordinate limit.
    UnusableAssets,
}

impl GameError {
    /// The error in words.
    pub open spec fn spec_message(self) -> Seq<char> {
        match self {
            GameError::AlreadyInitialized => "Error: Game is already initialized!"@,
            GameError::IncompleteSheet => "Error: Cell not found"@,
            GameError::UnusableAssets => "Error: Picture out of range"@,
        }
    }

    /// The error in words.
    pub fn message(&self) -> (text: String)
        ensures
            text@ == self.spec_message(),
    {
        match self {
            GameError::AlreadyInitialized => String::from_str("Error: Game is already initialized!"),
            GameError::IncompleteSheet => String::from_str("Error: Cell not found"),
            GameError::UnusableAssets => String::from_str("Error: Picture out of range"),
        }
    }
}

/// What a tick asks of the world outside the simulation.
pub struct Effects {
    /// A jump has begun: play its sound.
    pub play_jump_sound: bool,
    /// The game is over: ask the player for a new game, and send the
    /// player's request on this channel.
    pub show_new_game: Option<UnboundedSender<()>>,
    /// A new game has begun: stop asking for one.
    pub hide_new_game: bool,
}

/// The game, set up or not yet.
pub struct WalkTheDog {
    machine: Option<WalkTheDogStateMachine>,
}

impl View for WalkTheDog {
    type V = Option<GameView>;

    closed spec fn view(&self) -> Option<GameView> {
        match self.machine {
            Some(machine) => Some(machine@),
            None => None,
        }
    }
}

impl WalkTheDog {
    /// A game that is not set up yet.
    pub fn new() -> (game: Self)
        ensures
            game@ is None,
            !game.prompt_due(),
    {
        WalkTheDog { machine: None }
    }

    /// Sets a game up from its assets. Only a game that is not set up yet
    /// can do that, and only with a complete sheet for the avatar and with
    /// pictures that can serve.
    pub fn initialize(&self, assets: Assets) -> (game: Result<WalkTheDog, GameError>)
        ensures
            match game {
                Ok(game) => self@ is None && sheet_complete(assets.sheet@) && assets.usable()
                    && game@ == Some(assets.game()) && !game.prompt_due(),
                Err(GameError::AlreadyInitialized) => self@ is Some,
                Err(GameError::IncompleteSheet) => self@ is None && !sheet_complete(assets.sheet@),
                Err(GameError::UnusableAssets) => self@ is None && sheet_complete(assets.sheet@)
                    && !assets.usable(),
            },
    {
        match self.machine {
            None => {
                let rhb = match RedHatBoy::new(assets.sheet, assets.image) {
                    Some(rhb) => rhb,
                    None => {
                        return Err(GameError::IncompleteSheet);
                    },
                };
                let sprite_sheet = Rc::new(SpriteSheet::new(assets.tiles, assets.tiles_image));
                match Walk::new(rhb, assets.background, assets.stone, sprite_sheet) {
                    Some(walk) => {
                        let machine = WalkTheDogStateMachine::new(walk);
                        Ok(WalkTheDog { machine: Some(machine) })
                    },
                    None => Err(GameError::UnusableAssets),
                }
            },
            Some(_) => Err(GameError::AlreadyInitialized),
        }
    }

    /// Whether the game has been set up.
    pub fn is_initialized(&self) -> (set_up: bool)
        ensures
            set_up == (self@ is Some),
    {
        self.machine.is_some()
    }

    /// The game is over, and nobody has asked the player for a new game yet.
    pub closed spec fn prompt_due(self) -> bool {
        self.machine matches Some(machine) && machine.prompt_due()
    }

    /// One tick of a game that has been set up, with the keys as they are
    /// held down. The answer says what the tick asks of the world outside.
    pub fn update(&mut self, keystate: &KeyState) -> (effects: Effects)
        requires
            old(self)@ is Some,
        ensures
            exists|new_game_pressed: bool, choice: int|
                0 <= choice < SEGMENTS && final(self)@ == Some(
                    (#[trigger] old(self)@->0.updated(
                        keystate@,
                        new_game_pressed,
                        choice,
                    )).jump_sound_played(),
                ) && effects.play_jump_sound == old(self)@->0.updated(
                    keystate@,
                    new_game_pressed,
                    choice,
                ).walk().boy.avatar.context.jump_sound_due,
            !final(self).prompt_due(),
            effects.show_new_game is Some <==> final(self)@->0 is GameOver && (old(self)@->0
                is Walking || old(self).prompt_due()),
            effects.hide_new_game == (old(self)@->0 is GameOver && final(self)@->0 is Ready),
    {
        let machine = self.machine.take().unwrap();
        let was_over = matches!(machine, WalkTheDogStateMachine::GameOver(_));
        let machine = machine.update(keystate);
        self.settle(machine, was_over)
    }

    /// What a tick makes of a game that has been set up for each answer
    /// from outside: with `new_game_pressed` telling whether the player has
    /// asked for a new game, and `choice` the cluster to lay out should one
    /// be due.
    pub fn update_with(&mut self, keystate: &KeyState, new_game_pressed: bool, choice: i32) -> (effects:
        Effects)
        requires
            old(self)@ is Some,
            0 <= choice < SEGMENTS,
        ensures
            final(self)@ == Some(
                old(self)@->0.updated(
                    keystate@,
                    new_game_pressed,
                    choice as int,
                ).jump_sound_played(),
            ),
            effects.play_jump_sound == old(self)@->0.updated(
                keystate@,
                new_game_pressed,
                choice as int,
            ).walk().boy.avatar.context.jump_sound_due,
            !final(self).prompt_due(),
            effects.show_new_game is Some <==> final(self)@->0 is GameOver && (old(self)@->0
                is Walking || old(self).prompt_due()),
            effects.hide_new_game == (old(self)@->0 is GameOver && final(self)@->0 is Ready),
    {
        let machine = self.machine.take().unwrap();
        let was_over = matches!(machine, WalkTheDogStateMachine::GameOver(_));
        let machine = machine.update_with(keystate, new_game_pressed, choice);
        self.settle(machine, was_over)
    }

    /// Takes out of the game after a tick what the tick asks of the world
    /// outside, and keeps the game.
    fn settle(&mut self, machine: WalkTheDogStateMachine, was_over: bool) -> (effects: Effects)
        ensures
            final(self)@ == Some(machine@.jump_sound_played()),
            !final(self).prompt_due(),
            effects.play_jump_sound == machine@.walk().boy.avatar.context.jump_sound_due,
            effects.show_new_game is Some <==> machine.prompt_due(),
            effects.hide_new_game == (was_over && machine is Ready),
    {
        let (machine, play_jump_sound) = machine.take_jump_sound();
        let (machine, show_new_game) = machine.take_new_game_button();
        let effects = Effects {
            play_jump_sound,
            show_new_game,
            hide_new_game: was_over && matches!(machine, WalkTheDogStateMachine::Ready(_)),
        };
        self.machine = Some(machine);
        effects
    }

    /// Paints the frame: the playing field wiped clean, then the world of a
    /// game that has been set up.
    pub fn draw(&self, renderer: &mut Renderer)
        ensures
            final(renderer)@ == old(renderer)@.push(
                DrawCommand::Clear(
                    Rect { position: Point { x: 0, y: 0 }, width: HEIGHT, height: HEIGHT },
                ),
            ) + match self@ {
                Some(game) => game.walk().draw_list(),
                None => Seq::empty(),
            },
    {
        renderer.clear(&Rect::new(Point { x: 0, y: 0 }, 600, 600));
        if let Some(machine) = &self.machine {
            machine.draw(renderer);
        }
    }

    /// The state machine of a game that has been set up.
    pub fn machine(&self) -> (machine: Option<&WalkTheDogStateMachine>)
        ensures
            match machine {
                Some(machine) => self@ == Some(machine@),
                None => self@ is None,
            },
    {
        self.machine.as_ref()
    }
}

} // verus!
