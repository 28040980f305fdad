//! The avatar on screen: its state machine together with the sprite sheet
//! that shows it.

use vstd::prelude::*;
use vstd::string::StringExecFns;
use crate::engine::{Cell, DrawCommand, ImageElement, Point, Rect, Renderer, Sheet, SheetRect};
use crate::game::red_hat_boy_states::{
    RedHatBoyState, Idle, FALLING_FRAMES, FALLING_FRAME_NAME, IDLE_FRAMES, IDLE_FRAME_NAME,
    JUMPING_FRAMES, JUMPING_FRAME_NAME, RUNNING_FRAMES, RUN_FRAME_NAME, SLIDING_FRAMES,
    SLIDING_FRAME_NAME,
};
use crate::game::state_machine::{
    transition_keeps_avatar_well_formed, Avatar, Event, RedHatBoyStateMachine, StateKind,
};

verus! {

/// No number of a sprite sheet, and no vertical position at which the avatar
/// is measured or drawn, lies further from 0 than this.
pub const COORDINATE_LIMIT: i16 = 8192;

/// The character that writes one decimal digit.
pub open spec fn digit_char(digit: nat) -> char {
    if digit == 0 {
        '0'
    } else if digit == 1 {
        '1'
    } else if digit == 2 {
        '2'
    } else if digit == 3 {
        '3'
    } else if digit == 4 {
        '4'
    } else if digit == 5 {
        '5'
    } else if digit == 6 {
        '6'
    } else if digit == 7 {
        '7'
    } else if digit == 8 {
        '8'
    } else {
        '9'
    }
}

/// A number written in decimal, without leading zeros.
pub open spec fn decimal_digits(number: nat) -> Seq<char>
    decreases number,
{
    if number < 10 {
        seq![digit_char(number)]
    } else {
        decimal_digits(number / 10).push(digit_char(number % 10))
    }
}

/// The name of the sprite that shows frame `frame` of the animation `name`.
/// A sprite is shown for three ticks, and the sprites count from 1.
pub open spec fn sprite_name(name: Seq<char>, frame: u8) -> Seq<char> {
    name + " ("@ + decimal_digits((frame / 3 + 1) as nat) + ").png"@
}

/// Every number of the cell is within the coordinate limit.
pub open spec fn cell_fits(cell: Cell) -> bool {
    &&& sheet_rect_fits(cell.frame)
    &&& sheet_rect_fits(cell.sprite_source_size)
}

/// Every number of the rectangle is within the coordinate limit.
pub open spec fn sheet_rect_fits(rect: SheetRect) -> bool {
    &&& -COORDINATE_LIMIT <= rect.x <= COORDINATE_LIMIT
    &&& -COORDINATE_LIMIT <= rect.y <= COORDINATE_LIMIT
    &&& -COORDINATE_LIMIT <= rect.w <= COORDINATE_LIMIT
    &&& -COORDINATE_LIMIT <= rect.h <= COORDINATE_LIMIT
}

/// The sheet has a usable sprite for frame `frame` of the animation `name`.
pub open spec fn has_sprite(frames: Map<Seq<char>, Cell>, name: Seq<char>, frame: u8) -> bool {
    &&& frames.contains_key(sprite_name(name, frame))
    &&& cell_fits(frames[sprite_name(name, frame)])
}

/// The sheet has a usable sprite for every frame of every state.
pub open spec fn sheet_complete(frames: Map<Seq<char>, Cell>) -> bool {
    forall|kind: StateKind, frame: u8|
        frame <= kind.frame_budget() ==> #[trigger] has_sprite(frames, kind.frame_name(), frame)
}

fn digit_text(digit: u8) -> (text: &'static str)
    requires
        digit < 10,
    ensures
        text@ == seq![digit_char(digit as nat)],
{
    proof {
        reveal_strlit("0");
        reveal_strlit("1");
        reveal_strlit("2");
        reveal_strlit("3");
        reveal_strlit("4");
        reveal_strlit("5");
        reveal_strlit("6");
        reveal_strlit("7");
        reveal_strlit("8");
        reveal_strlit("9");
    }
    let text = if digit == 0 {
        "0"
    } else if digit == 1 {
        "1"
    } else if digit == 2 {
        "2"
    } else if digit == 3 {
        "3"
    } else if digit == 4 {
        "4"
    } else if digit == 5 {
        "5"
    } else if digit == 6 {
        "6"
    } else if digit == 7 {
        "7"
    } else if digit == 8 {
        "8"
    } else {
        "9"
    };
    assert(text@ =~= seq![digit_char(digit as nat)]);
    text
}

/// Writes a number in decimal.
pub fn to_decimal(number: u8) -> (text: String)
    ensures
        text@ == decimal_digits(number as nat),
{
    if number < 10 {
        String::from_str(digit_text(number))
    } else if number < 100 {
        let mut text = String::from_str(digit_text(number / 10));
        text.append(digit_text(number % 10));
        assert(text@ =~= decimal_digits(number as nat)) by {
            reveal_with_fuel(decimal_digits, 2);
        }
        text
    } else {
        let mut text = String::from_str(digit_text(number / 100));
        text.append(digit_text(number / 10 % 10));
        text.append(digit_text(number % 10));
        assert(text@ =~= decimal_digits(number as nat)) by {
            reveal_with_fuel(decimal_digits, 3);
            assert((number as nat / 10) / 10 == number as nat / 100);
        }
        text
    }
}

/// The file name of the sprite that shows frame `frame` of the animation
/// `name`.
pub fn sprite_file_name(name: &str, frame: u8) -> (file: String)
    ensures
        file@ == sprite_name(name@, frame),
{
    let mut file = String::from_str(name);
    file.append(" (");
    let number = to_decimal(frame / 3 + 1);
    file.append(number.as_str());
    file.append(").png");
    file
}

fn sheet_rect_in_range(rect: &SheetRect) -> (fits: bool)
    ensures
        fits == sheet_rect_fits(*rect),
{
    -COORDINATE_LIMIT <= rect.x && rect.x <= COORDINATE_LIMIT && -COORDINATE_LIMIT <= rect.y
        && rect.y <= COORDINATE_LIMIT && -COORDINATE_LIMIT <= rect.w && rect.w <= COORDINATE_LIMIT
        && -COORDINATE_LIMIT <= rect.h && rect.h <= COORDINATE_LIMIT
}

/// Whether every number of the cell is within the coordinate limit.
pub fn cell_in_range(cell: &Cell) -> (fits: bool)
    ensures
        fits == cell_fits(*cell),
{
    sheet_rect_in_range(&cell.frame) && sheet_rect_in_range(&cell.sprite_source_size)
}

/// Whether the sheet has a usable sprite for each of the frames 0 to
/// `frames` of the animation `name`.
pub fn has_animation(sheet: &Sheet, name: &str, frames: u8) -> (complete: bool)
    ensures
        complete == (forall|frame: u8| frame <= frames ==> has_sprite(sheet@, name@, frame)),
{
    let mut frame: u8 = 0;
    loop
        invariant
            frame <= frames,
            forall|earlier: u8| earlier < frame ==> has_sprite(sheet@, name@, earlier),
        decreases frames - frame,
    {
        let file = sprite_file_name(name, frame);
        let usable = match sheet.get(file.as_str()) {
            Some(cell) => cell_in_range(cell),
            None => false,
        };
        if !usable {
            assert(!has_sprite(sheet@, name@, frame));
            return false;
        }
        if frame == frames {
            return true;
        }
        frame += 1;
    }
}

/// What there is to know of the avatar on screen.
pub struct RedHatBoyView {
    pub avatar: Avatar,
    pub frames: Map<Seq<char>, Cell>,
    pub image: ImageElement,
}

/// How far the bounding box begins right of the sprite's left edge.
pub const X_OFFSET: i16 = 18;

/// How far the bounding box begins below the sprite's upper edge.
pub const Y_OFFSET: i16 = 14;

/// How much narrower than the sprite the bounding box is.
pub const WIDTH_OFFSET: i16 = 28;

impl Avatar {
    /// The name of the sprite that shows the avatar.
    pub open spec fn sprite_name(self) -> Seq<char> {
        sprite_name(self.kind.frame_name(), self.context.frame)
    }

    /// The avatar is within the coordinate limit vertically.
    pub open spec fn in_sight(self) -> bool {
        -COORDINATE_LIMIT <= self.context.position.y <= COORDINATE_LIMIT
    }
}

impl RedHatBoyView {
    /// The sprite that shows the avatar.
    pub open spec fn sprite(self) -> Cell {
        self.frames[self.avatar.sprite_name()]
    }

    /// Where on screen the sprite goes.
    pub open spec fn destination_box(self) -> Rect {
        Rect {
            position: Point {
                x: (self.avatar.context.position.x + self.sprite().sprite_source_size.x) as i16,
                y: (self.avatar.context.position.y + self.sprite().sprite_source_size.y) as i16,
            },
            width: self.sprite().frame.w,
            height: self.sprite().frame.h,
        }
    }

    /// The part of the sprite that can touch an obstacle.
    pub open spec fn bounding_box(self) -> Rect {
        Rect {
            position: Point {
                x: (self.destination_box().position.x + X_OFFSET) as i16,
                y: (self.destination_box().position.y + Y_OFFSET) as i16,
            },
            width: (self.destination_box().width - WIDTH_OFFSET) as i16,
            height: (self.destination_box().height - Y_OFFSET) as i16,
        }
    }

    /// What painting the avatar asks of the renderer.
    pub open spec fn draw_command(self) -> DrawCommand {
        DrawCommand::Image {
            element: self.image,
            frame: Rect {
                position: Point { x: self.sprite().frame.x, y: self.sprite().frame.y },
                width: self.sprite().frame.w,
                height: self.sprite().frame.h,
            },
            destination: self.destination_box(),
        }
    }

    /// The same avatar on screen after `event`.
    pub open spec fn after(self, event: Event) -> RedHatBoyView {
        RedHatBoyView {
            avatar: self.avatar.transition(event),
            frames: self.frames,
            image: self.image,
        }
    }

    /// A fresh avatar with the same sheet and picture.
    pub open spec fn reset(self) -> RedHatBoyView {
        RedHatBoyView { avatar: Avatar::initial(), frames: self.frames, image: self.image }
    }

    /// The avatar is well-formed and its sheet can show it in every state.
    pub open spec fn wf(self) -> bool {
        &&& self.avatar.wf()
        &&& sheet_complete(self.frames)
    }
}

/// The avatar on screen. Its sheet has a usable sprite for every frame of
/// every state, so the avatar can always be measured and drawn.
pub struct RedHatBoy {
    state_machine: RedHatBoyStateMachine,
    sprite_sheet: Sheet,
    image: ImageElement,
}

impl View for RedHatBoy {
    type V = RedHatBoyView;

    closed spec fn view(&self) -> RedHatBoyView {
        RedHatBoyView {
            avatar: self.state_machine@,
            frames: self.sprite_sheet@,
            image: self.image,
        }
    }
}

impl RedHatBoy {
    /// What the type guarantees of every avatar on screen.
    #[verifier::type_invariant]
    pub open spec fn inv(self) -> bool {
        self@.wf()
    }

    /// An idle avatar at the starting point, if the sheet can show it in
    /// every state.
    pub fn new(sprite_sheet: Sheet, image: ImageElement) -> (boy: Option<Self>)
        ensures
            boy is Some <==> sheet_complete(sprite_sheet@),
            boy matches Some(boy) ==> boy@ == (RedHatBoyView {
                avatar: Avatar::initial(),
                frames: sprite_sheet@,
                image,
            }),
    {
        let complete = has_animation(&sprite_sheet, IDLE_FRAME_NAME, IDLE_FRAMES) && has_animation(
            &sprite_sheet,
            RUN_FRAME_NAME,
            RUNNING_FRAMES,
        ) && has_animation(&sprite_sheet, SLIDING_FRAME_NAME, SLIDING_FRAMES) && has_animation(
            &sprite_sheet,
            JUMPING_FRAME_NAME,
            JUMPING_FRAMES,
        ) && has_animation(&sprite_sheet, FALLING_FRAME_NAME, FALLING_FRAMES);
        proof {
            let frames = sprite_sheet@;
            if complete {
                assert forall|kind: StateKind, frame: u8|
                    frame <= kind.frame_budget() implies #[trigger] has_sprite(
                    frames,
                    kind.frame_name(),
                    frame,
                ) by {}
            } else {
                if sheet_complete(frames) {
                    assert forall|frame: u8| frame <= IDLE_FRAMES implies has_sprite(
                        frames,
                        IDLE_FRAME_NAME@,
                        frame,
                    ) by {
                        assert(has_sprite(frames, StateKind::Idle.frame_name(), frame));
                    }
                    assert forall|frame: u8| frame <= RUNNING_FRAMES implies has_sprite(
                        frames,
                        RUN_FRAME_NAME@,
                        frame,
                    ) by {
                        assert(has_sprite(frames, StateKind::Running.frame_name(), frame));
                    }
                    assert forall|frame: u8| frame <= SLIDING_FRAMES implies has_sprite(
                        frames,
                        SLIDING_FRAME_NAME@,
                        frame,
                    ) by {
                        assert(has_sprite(frames, StateKind::Sliding.frame_name(), frame));
                    }
                    assert forall|frame: u8| frame <= JUMPING_FRAMES implies has_sprite(
                        frames,
                        JUMPING_FRAME_NAME@,
                        frame,
                    ) by {
                        assert(has_sprite(frames, StateKind::Jumping.frame_name(), frame));
                    }
                    assert forall|frame: u8| frame <= FALLING_FRAMES implies has_sprite(
                        frames,
                        FALLING_FRAME_NAME@,
                        frame,
                    ) by {
                        assert(has_sprite(frames, StateKind::Falling.frame_name(), frame));
                    }
                }
            }
        }
        if complete {
            Some(
                RedHatBoy {
                    state_machine: RedHatBoyStateMachine::Idle(RedHatBoyState::<Idle>::new()),
                    sprite_sheet,
                    image,
                },
            )
        } else {
            None
        }
    }

    /// A fresh avatar with the sheet and picture of `boy`.
    pub fn reset(boy: Self) -> (fresh: Self)
        ensures
            fresh@ == boy@.reset(),
    {
        proof {
            use_type_invariant(&boy);
        }
        RedHatBoy {
            state_machine: RedHatBoyStateMachine::Idle(RedHatBoyState::<Idle>::new()),
            sprite_sheet: boy.sprite_sheet,
            image: boy.image,
        }
    }

    pub fn run_right(&mut self)
        ensures
            final(self)@ == old(self)@.after(Event::Run),
    {
        proof {
            use_type_invariant(&*self);
            transition_keeps_avatar_well_formed(self@.avatar, Event::Run);
        }
        self.state_machine = self.state_machine.transition(Event::Run);
    }

    pub fn slide(&mut self)
        ensures
            final(self)@ == old(self)@.after(Event::Slide),
    {
        proof {
            use_type_invariant(&*self);
            transition_keeps_avatar_well_formed(self@.avatar, Event::Slide);
        }
        self.state_machine = self.state_machine.transition(Event::Slide);
    }

    pub fn jump(&mut self)
        ensures
            final(self)@ == old(self)@.after(Event::Jump),
    {
        proof {
            use_type_invariant(&*self);
            transition_keeps_avatar_well_formed(self@.avatar, Event::Jump);
        }
        self.state_machine = self.state_machine.transition(Event::Jump);
    }

    pub fn update(&mut self)
        requires
            old(self)@.avatar.transition_fits(Event::Update),
        ensures
            final(self)@ == old(self)@.after(Event::Update),
    {
        proof {
            use_type_invariant(&*self);
            transition_keeps_avatar_well_formed(self@.avatar, Event::Update);
        }
        self.state_machine = self.state_machine.update();
    }

    /// The file name of the sprite that shows the avatar.
    pub fn frame_name(&self) -> (name: String)
        ensures
            name@ == self@.avatar.sprite_name(),
    {
        sprite_file_name(self.state_machine.frame_name(), self.state_machine.context().frame)
    }

    /// The sprite that shows the avatar.
    pub fn current_sprite(&self) -> (sprite: Option<&Cell>)
        ensures
            sprite == Some(&self@.sprite()),
            cell_fits(self@.sprite()),
    {
        proof {
            use_type_invariant(self);
            assert(has_sprite(self@.frames, self@.avatar.kind.frame_name(), self@.avatar.context.frame));
        }
        let name = self.frame_name();
        self.sprite_sheet.get(name.as_str())
    }

    /// The part of the sprite that can touch an obstacle.
    pub fn bounding_box(&self) -> (bounding_box: Rect)
        requires
            self@.avatar.in_sight(),
        ensures
            bounding_box == self@.bounding_box(),
            bounding_box.fits(),
    {
        proof {
            use_type_invariant(self);
        }
        let mut bounding_box = self.destination_box();
        bounding_box.position.x += X_OFFSET;
        bounding_box.width -= WIDTH_OFFSET;
        bounding_box.position.y += Y_OFFSET;
        bounding_box.height -= Y_OFFSET;
        bounding_box
    }

    /// Where on screen the sprite goes.
    pub fn destination_box(&self) -> (destination_box: Rect)
        requires
            self@.avatar.in_sight(),
        ensures
            destination_box == self@.destination_box(),
            cell_fits(self@.sprite()),
    {
        proof {
            use_type_invariant(self);
        }
        let sprite = self.current_sprite().unwrap();
        Rect {
            position: Point {
                x: self.state_machine.context().position.x + sprite.sprite_source_size.x,
                y: self.state_machine.context().position.y + sprite.sprite_source_size.y,
            },
            width: sprite.frame.w,
            height: sprite.frame.h,
        }
    }

    /// Paints the avatar.
    pub fn draw(&self, renderer: &mut Renderer)
        requires
            self@.avatar.in_sight(),
        ensures
            final(renderer)@ == old(renderer)@.push(self@.draw_command()),
    {
        let sprite = self.current_sprite().unwrap();
        renderer.draw_image(
            &self.image,
            &Rect {
                position: Point { x: sprite.frame.x, y: sprite.frame.y },
                width: sprite.frame.w,
                height: sprite.frame.h,
            },
            &self.destination_box(),
        );
    }

    pub fn knock_out(&mut self)
        ensures
            final(self)@ == old(self)@.after(Event::KnockOut),
    {
        proof {
            use_type_invariant(&*self);
            transition_keeps_avatar_well_formed(self@.avatar, Event::KnockOut);
        }
        self.state_machine = self.state_machine.transition(Event::KnockOut);
    }

    pub fn knocked_out(&self) -> (out: bool)
        ensures
            out == (self@.avatar.kind == StateKind::KnockedOut),
    {
        self.state_machine.knocked_out()
    }

    /// Puts the avatar on a surface at height `position`, if it runs, jumps or
    /// slides.
    pub fn land_on(&mut self, position: i16)
        requires
            old(self)@.avatar.transition_fits(Event::Land(position)),
        ensures
            final(self)@ == old(self)@.after(Event::Land(position)),
    {
        proof {
            use_type_invariant(&*self);
            transition_keeps_avatar_well_formed(self@.avatar, Event::Land(position));
        }
        self.state_machine = self.state_machine.transition(Event::Land(position));
    }

    pub fn pos_y(&self) -> (y: i16)
        ensures
            y == self@.avatar.context.position.y,
    {
        self.state_machine.context().position.y
    }

    pub fn velocity_y(&self) -> (y: i16)
        ensures
            y == self@.avatar.context.velocity.y,
    {
        self.state_machine.context().velocity.y
    }

    /// The avatar's horizontal velocity.
    pub fn walking_speed(&self) -> (x: i16)
        ensures
            x == self@.avatar.context.velocity.x,
            0 <= x <= crate::game::red_hat_boy_states::RUNNING_SPEED,
    {
        proof {
            use_type_invariant(self);
        }
        self.state_machine.context().velocity.x
    }

    /// The avatar's state machine as it stands.
    pub fn state_machine(&self) -> (machine: &RedHatBoyStateMachine)
        ensures
            machine@ == self@.avatar,
    {
        &self.state_machine
    }

    /// Whether a jump has begun whose sound is still to be played. Asking
    /// withdraws the request: the caller plays the sound.
    pub fn take_jump_sound(&mut self) -> (due: bool)
        ensures
            due == old(self)@.avatar.context.jump_sound_due,
            final(self)@ == (RedHatBoyView {
                avatar: old(self)@.avatar.jump_sound_played(),
                ..old(self)@
            }),
    {
        proof {
            use_type_invariant(&*self);
        }
        let due = self.state_machine.context().jump_sound_due;
        self.state_machine = self.state_machine.jump_sound_played();
        due
    }
}

} // verus!
