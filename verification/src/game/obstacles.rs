//! What stands in the avatar's way: barriers, which knock it out, and
//! platforms, on which it can land.

use vstd::prelude::*;
use std::rc::Rc;
use crate::engine::{Cell, DrawCommand, Image, ImageElement, Point, Rect, Renderer, SpriteSheet};
use crate::game::red_hat_boy::{RedHatBoy, RedHatBoyView};
use crate::game::red_hat_boy_states::PLAYER_HEIGHT;
use crate::game::state_machine::Event;

verus! {

/// The part of a picture that a sprite is cut from.
pub open spec fn sprite_frame(sprite: Cell) -> Rect {
    Rect {
        position: Point { x: sprite.frame.x, y: sprite.frame.y },
        width: sprite.frame.w,
        height: sprite.frame.h,
    }
}

/// The summed widths of the first `count` sprites.
pub open spec fn widths_before(sprites: Seq<Cell>, count: int) -> int
    decreases count,
{
    if count <= 0 {
        0
    } else {
        widths_before(sprites, count - 1) + sprites[count - 1].frame.w
    }
}

/// The index of the first box from `from` on that `target` intersects, or the
/// number of boxes if it intersects none of them.
pub open spec fn first_hit(boxes: Seq<Rect>, target: Rect, from: int) -> int
    decreases boxes.len() - from,
{
    if from >= boxes.len() {
        boxes.len() as int
    } else if target.spec_intersects(boxes[from]) {
        from
    } else {
        first_hit(boxes, target, from + 1)
    }
}

/// The sprites of `frames` that `names` name, in the order of the names. A
/// name without a sprite is passed over.
pub open spec fn cells_named(frames: Map<Seq<char>, Cell>, names: Seq<Seq<char>>) -> Seq<Cell>
    decreases names.len(),
{
    if names.len() == 0 {
        Seq::empty()
    } else {
        let rest = cells_named(frames, names.drop_last());
        if frames.contains_key(names.last()) {
            rest.push(frames[names.last()])
        } else {
            rest
        }
    }
}

/// The box `rect`, given relative to `position`, in scene coordinates.
pub open spec fn offset_box(rect: Rect, position: Point) -> Rect {
    Rect {
        position: Point {
            x: (rect.position.x + position.x) as i16,
            y: (rect.position.y + position.y) as i16,
        },
        width: rect.width,
        height: rect.height,
    }
}

/// Moving `rect` to `position` keeps its corner representable.
pub open spec fn offset_fits(rect: Rect, position: Point) -> bool {
    &&& i16::MIN <= rect.position.x + position.x <= i16::MAX
    &&& i16::MIN <= rect.position.y + position.y <= i16::MAX
}

/// The box `rect` shifted by `distance`.
pub open spec fn shifted_box(rect: Rect, distance: i16) -> Rect {
    rect.with_x((rect.position.x + distance) as i16)
}

/// The names as sequences of characters.
pub open spec fn names_of(names: Seq<&str>) -> Seq<Seq<char>> {
    Seq::new(names.len(), |i: int| names[i]@)
}

/// A single picture that knocks the avatar out on touch.
pub struct Barrier {
    image: Image,
}

impl View for Barrier {
    type V = Image;

    closed spec fn view(&self) -> Image {
        self.image
    }
}

/// What a barrier does to an avatar: any touch knocks it out.
pub open spec fn struck_by_barrier(boy: RedHatBoyView, barrier: Image) -> RedHatBoyView {
    if boy.bounding_box().spec_intersects(barrier.bounding_box) {
        boy.after(Event::KnockOut)
    } else {
        boy
    }
}

impl Barrier {
    /// A barrier shown by the picture.
    pub fn new(image: Image) -> (barrier: Self)
        ensures
            barrier@ == image,
    {
        Barrier { image }
    }

    /// The picture as it is placed.
    pub fn image(&self) -> (image: &Image)
        ensures
            *image == self@,
    {
        &self.image
    }

    /// Knocks the avatar out if it touches the barrier.
    pub fn check_intersection(&self, boy: &mut RedHatBoy)
        requires
            old(boy)@.avatar.in_sight(),
            self@.bounding_box.fits(),
        ensures
            final(boy)@ == struck_by_barrier(old(boy)@, self@),
    {
        if boy.bounding_box().intersects(self.image.bounding_box()) {
            boy.knock_out()
        }
    }

    pub fn draw(&self, renderer: &mut Renderer)
        ensures
            final(renderer)@ == old(renderer)@.push(self@.draw_command()),
    {
        self.image.draw(renderer);
    }

    pub fn move_horizontally(&mut self, x: i16)
        requires
            i16::MIN <= old(self)@.bounding_box.position.x + x <= i16::MAX,
        ensures
            final(self)@ == old(self)@.moved(x),
    {
        self.image.move_horizontally(x);
    }

    pub fn right(&self) -> (edge: i16)
        requires
            i16::MIN <= self@.bounding_box.spec_right() <= i16::MAX,
        ensures
            edge == self@.bounding_box.spec_right(),
    {
        self.image.right()
    }
}

/// What there is to know of a platform.
pub struct PlatformView {
    /// The picture the platform's sprites are cut from.
    pub image: ImageElement,
    /// Where the avatar can touch the platform, in scene coordinates.
    pub bounding_boxes: Seq<Rect>,
    /// The sprites that show the platform, left to right.
    pub sprites: Seq<Cell>,
    pub position: Point,
}

impl PlatformView {
    /// The platform shifted by `distance`.
    pub open spec fn moved(self, distance: i16) -> PlatformView {
        PlatformView {
            image: self.image,
            bounding_boxes: Seq::new(
                self.bounding_boxes.len(),
                |i: int| shifted_box(self.bounding_boxes[i], distance),
            ),
            sprites: self.sprites,
            position: Point { x: (self.position.x + distance) as i16, y: self.position.y },
        }
    }

    /// Shifting the platform by `distance` keeps every left edge
    /// representable.
    pub open spec fn move_fits(self, distance: i16) -> bool {
        &&& i16::MIN <= self.position.x + distance <= i16::MAX
        &&& forall|i: int|
            0 <= i < self.bounding_boxes.len() ==> i16::MIN <= (
            #[trigger] self.bounding_boxes[i]).position.x + distance <= i16::MAX
    }

    /// The right edge of the platform: that of its last box, or 0 for a
    /// platform without boxes.
    pub open spec fn right(self) -> int {
        if self.bounding_boxes.len() > 0 {
            self.bounding_boxes.last().spec_right()
        } else {
            0
        }
    }

    /// Every box has representable edges, and the avatar can be put on it.
    pub open spec fn boxes_fit(self) -> bool {
        forall|i: int|
            0 <= i < self.bounding_boxes.len() ==> (#[trigger] self.bounding_boxes[i]).fits()
                && self.bounding_boxes[i].position.y - PLAYER_HEIGHT >= i16::MIN
    }

    /// What the platform does to an avatar. Only the first box that the
    /// avatar touches counts. An avatar that comes down on it from above
    /// lands on that box; any other touch knocks the avatar out.
    pub open spec fn struck(self, boy: RedHatBoyView) -> RedHatBoyView {
        let hit = first_hit(self.bounding_boxes, boy.bounding_box(), 0);
        if hit < self.bounding_boxes.len() {
            if boy.avatar.context.velocity.y > 0 && boy.avatar.context.position.y
                < self.position.y {
                boy.after(Event::Land(self.bounding_boxes[hit].position.y))
            } else {
                boy.after(Event::KnockOut)
            }
        } else {
            boy
        }
    }

    /// Where on screen the sprite at `index` goes: the sprites stand side by
    /// side from the platform's position on.
    pub open spec fn sprite_destination(self, index: int) -> Rect {
        Rect {
            position: Point {
                x: (self.position.x + widths_before(self.sprites, index)) as i16,
                y: self.position.y,
            },
            width: self.sprites[index].frame.w,
            height: self.sprites[index].frame.h,
        }
    }

    /// What painting the platform asks of the renderer.
    pub open spec fn draw_list(self) -> Seq<DrawCommand> {
        Seq::new(
            self.sprites.len(),
            |i: int|
                DrawCommand::Image {
                    element: self.image,
                    frame: sprite_frame(self.sprites[i]),
                    destination: self.sprite_destination(i),
                },
        )
    }

    /// Laying the sprites side by side stays within the representable
    /// coordinates.
    pub open spec fn draw_fits(self) -> bool {
        forall|i: int|
            0 <= i <= self.sprites.len() ==> {
                &&& i16::MIN <= #[trigger] widths_before(self.sprites, i) <= i16::MAX
                &&& i < self.sprites.len() ==> i16::MIN <= self.position.x + widths_before(
                    self.sprites,
                    i,
                ) <= i16::MAX
            }
    }
}

/// A run of sprites with several bounding boxes.
pub struct Platform {
    sheet: Rc<SpriteSheet>,
    bounding_boxes: Vec<Rect>,
    sprites: Vec<Cell>,
    position: Point,
}

impl View for Platform {
    type V = PlatformView;

    closed spec fn view(&self) -> PlatformView {
        PlatformView {
            image: self.sheet.image,
            bounding_boxes: self.bounding_boxes@,
            sprites: self.sprites@,
            position: self.position,
        }
    }
}

impl Platform {
    /// A platform at `position`, shown by those sprites of `sheet` that
    /// `sprite_names` name, with the boxes of `bounding_boxes`, which are
    /// given relative to `position`.
    pub fn new(
        sheet: Rc<SpriteSheet>,
        position: Point,
        sprite_names: &[&str],
        bounding_boxes: &[Rect],
    ) -> (platform: Self)
        requires
            forall|i: int|
                0 <= i < bounding_boxes@.len() ==> offset_fits(#[trigger] bounding_boxes@[i], position),
        ensures
            platform@ == (PlatformView {
                image: sheet.image,
                bounding_boxes: Seq::new(
                    bounding_boxes@.len(),
                    |i: int| offset_box(bounding_boxes@[i], position),
                ),
                sprites: cells_named(sheet.sheet@, names_of(sprite_names@)),
                position,
            }),
    {
        let ghost names = names_of(sprite_names@);
        let mut sprites: Vec<Cell> = Vec::new();
        let mut n: usize = 0;
        while n < sprite_names.len()
            invariant
                n <= sprite_names@.len(),
                names == names_of(sprite_names@),
                sprites@ == cells_named(sheet.sheet@, names.take(n as int)),
            decreases sprite_names@.len() - n,
        {
            let name: &str = sprite_names[n];
            proof {
                assert(names.take(n + 1).drop_last() =~= names.take(n as int));
                assert(names.take(n + 1).last() == name@);
            }
            match sheet.cell(name) {
                Some(cell) => {
                    sprites.push(*cell);
                },
                None => {},
            }
            n += 1;
        }
        proof {
            assert(names.take(n as int) =~= names);
        }
        let mut boxes: Vec<Rect> = Vec::new();
        let mut b: usize = 0;
        while b < bounding_boxes.len()
            invariant
                b <= bounding_boxes@.len(),
                forall|i: int|
                    0 <= i < bounding_boxes@.len() ==> offset_fits(
                        #[trigger] bounding_boxes@[i],
                        position,
                    ),
                boxes@ == Seq::new(b as nat, |i: int| offset_box(bounding_boxes@[i], position)),
            decreases bounding_boxes@.len() - b,
        {
            let bounding_box = &bounding_boxes[b];
            boxes.push(
                Rect::new_from_x_y(
                    bounding_box.x() + position.x,
                    bounding_box.y() + position.y,
                    bounding_box.width,
                    bounding_box.height,
                ),
            );
            b += 1;
            assert(boxes@ =~= Seq::new(b as nat, |i: int| offset_box(bounding_boxes@[i], position)));
        }
        Platform { sheet, position, sprites, bounding_boxes: boxes }
    }

    pub fn bounding_boxes(&self) -> (boxes: &Vec<Rect>)
        ensures
            boxes@ == self@.bounding_boxes,
    {
        &self.bounding_boxes
    }

    pub fn position(&self) -> (position: Point)
        ensures
            position == self@.position,
    {
        self.position
    }

    /// The sprites that show the platform, left to right.
    pub fn sprites(&self) -> (sprites: &Vec<Cell>)
        ensures
            sprites@ == self@.sprites,
    {
        &self.sprites
    }

    /// Paints the sprites of the platform side by side.
    pub fn draw(&self, renderer: &mut Renderer)
        requires
            self@.draw_fits(),
        ensures
            final(renderer)@ == old(renderer)@ + self@.draw_list(),
    {
        let mut x: i16 = 0;
        let mut n: usize = 0;
        while n < self.sprites.len()
            invariant
                n <= self.sprites@.len(),
                self@.draw_fits(),
                x == widths_before(self.sprites@, n as int),
                renderer@ == old(renderer)@ + self@.draw_list().take(n as int),
            decreases self.sprites@.len() - n,
        {
            let sprite = &self.sprites[n];
            proof {
                assert(i16::MIN <= widths_before(self.sprites@, n as int) <= i16::MAX);
                assert(i16::MIN <= widths_before(self.sprites@, n + 1) <= i16::MAX);
            }
            self.sheet.draw(
                renderer,
                &Rect::new_from_x_y(sprite.frame.x, sprite.frame.y, sprite.frame.w, sprite.frame.h),
                &Rect::new_from_x_y(
                    self.position.x + x,
                    self.position.y,
                    sprite.frame.w,
                    sprite.frame.h,
                ),
            );
            x += sprite.frame.w;
            n += 1;
            assert(renderer@ =~= old(renderer)@ + self@.draw_list().take(n as int));
        }
        assert(self@.draw_list().take(n as int) =~= self@.draw_list());
    }

    pub fn move_horizontally(&mut self, x: i16)
        requires
            old(self)@.move_fits(x),
        ensures
            final(self)@ == old(self)@.moved(x),
    {
        self.position.x += x;
        let mut n: usize = 0;
        while n < self.bounding_boxes.len()
            invariant
                n <= self.bounding_boxes@.len(),
                self.bounding_boxes@.len() == old(self).bounding_boxes@.len(),
                old(self)@.move_fits(x),
                self.sheet == old(self).sheet,
                self.sprites == old(self).sprites,
                self.position == (Point {
                    x: (old(self).position.x + x) as i16,
                    y: old(self).position.y,
                }),
                forall|i: int|
                    0 <= i < n ==> self.bounding_boxes@[i] == shifted_box(
                        old(self).bounding_boxes@[i],
                        x,
                    ),
                forall|i: int|
                    n <= i < self.bounding_boxes@.len() ==> self.bounding_boxes@[i] == old(
                        self,
                    ).bounding_boxes@[i],
            decreases self.bounding_boxes@.len() - n,
        {
            let mut bounding_box = self.bounding_boxes[n];
            assert(bounding_box == old(self)@.bounding_boxes[n as int]);
            bounding_box.set_x(bounding_box.position.x + x);
            self.bounding_boxes.set(n, bounding_box);
            n += 1;
        }
        assert(self@.bounding_boxes =~= old(self)@.moved(x).bounding_boxes);
    }

    /// Lets the avatar land if it comes down on the platform from above, and
    /// knocks it out if it touches the platform in any other way. Only the first
    /// box that the avatar touches counts.
    pub fn check_intersection(&self, boy: &mut RedHatBoy)
        requires
            old(boy)@.avatar.in_sight(),
            self@.boxes_fit(),
        ensures
            final(boy)@ == self@.struck(old(boy)@),
    {
        let target = boy.bounding_box();
        let mut n: usize = 0;
        while n < self.bounding_boxes().len()
            invariant
                n <= self@.bounding_boxes.len(),
                self@.boxes_fit(),
                target.fits(),
                first_hit(self@.bounding_boxes, target, 0) == first_hit(
                    self@.bounding_boxes,
                    target,
                    n as int,
                ),
                *boy == *old(boy),
                target == old(boy)@.bounding_box(),
            decreases self@.bounding_boxes.len() - n,
        {
            let box_to_land_on = &self.bounding_boxes()[n];
            assert(*box_to_land_on == self@.bounding_boxes[n as int]);
            assert(box_to_land_on.fits());
            if target.intersects(box_to_land_on) {
                assert(first_hit(self@.bounding_boxes, target, n as int) == n);
                if boy.velocity_y() > 0 && boy.pos_y() < self.position.y {
                    boy.land_on(box_to_land_on.y());
                } else {
                    boy.knock_out();
                }
                return ;
            }
            n += 1;
        }
    }

    /// The right edge of the last box, or 0 for a platform without boxes.
    pub fn right(&self) -> (edge: i16)
        requires
            self@.bounding_boxes.len() > 0 ==> i16::MIN <= self@.bounding_boxes.last().spec_right()
                <= i16::MAX,
        ensures
            edge == self@.right(),
    {
        let boxes = self.bounding_boxes();
        if boxes.len() > 0 {
            boxes[boxes.len() - 1].right()
        } else {
            Rect::default().right()
        }
    }
}

/// What there is to know of an obstacle.
pub enum ObstacleView {
    Barrier(Image),
    Platform(PlatformView),
}

impl ObstacleView {
    /// The right edge of the obstacle.
    pub open spec fn right(self) -> int {
        match self {
            ObstacleView::Barrier(image) => image.bounding_box.spec_right(),
            ObstacleView::Platform(platform) => platform.right(),
        }
    }

    /// The obstacle shifted by `distance`.
    pub open spec fn moved(self, distance: i16) -> ObstacleView {
        match self {
            ObstacleView::Barrier(image) => ObstacleView::Barrier(image.moved(distance)),
            ObstacleView::Platform(platform) => ObstacleView::Platform(platform.moved(distance)),
        }
    }

    /// Shifting the obstacle by `distance` keeps every left edge
    /// representable.
    pub open spec fn move_fits(self, distance: i16) -> bool {
        match self {
            ObstacleView::Barrier(image) => i16::MIN <= image.bounding_box.position.x + distance
                <= i16::MAX,
            ObstacleView::Platform(platform) => platform.move_fits(distance),
        }
    }

    /// Every box of the obstacle has representable edges, and the avatar can
    /// be put on every box of a platform.
    pub open spec fn boxes_fit(self) -> bool {
        match self {
            ObstacleView::Barrier(image) => image.bounding_box.fits(),
            ObstacleView::Platform(platform) => platform.boxes_fit(),
        }
    }

    /// Painting the obstacle stays within the representable coordinates.
    pub open spec fn draw_fits(self) -> bool {
        match self {
            ObstacleView::Barrier(image) => true,
            ObstacleView::Platform(platform) => platform.draw_fits(),
        }
    }

    /// What the obstacle does to an avatar.
    pub open spec fn struck(self, boy: RedHatBoyView) -> RedHatBoyView {
        match self {
            ObstacleView::Barrier(image) => struck_by_barrier(boy, image),
            ObstacleView::Platform(platform) => platform.struck(boy),
        }
    }

    /// What painting the obstacle asks of the renderer.
    pub open spec fn draw_list(self) -> Seq<DrawCommand> {
        match self {
            ObstacleView::Barrier(image) => seq![image.draw_command()],
            ObstacleView::Platform(platform) => platform.draw_list(),
        }
    }
}

/// Anything that stands in the avatar's way.
pub enum Obstacle {
    Barrier(Barrier),
    Platform(Platform),
}

impl View for Obstacle {
    type V = ObstacleView;

    open spec fn view(&self) -> ObstacleView {
        match self {
            Obstacle::Barrier(barrier) => ObstacleView::Barrier(barrier@),
            Obstacle::Platform(platform) => ObstacleView::Platform(platform@),
        }
    }
}

impl Obstacle {
    /// Knocks the avatar out, or lets it land, if it touches the obstacle.
    pub fn check_intersection(&self, boy: &mut RedHatBoy)
        requires
            old(boy)@.avatar.in_sight(),
            self@.boxes_fit(),
        ensures
            final(boy)@ == self@.struck(old(boy)@),
    {
        match self {
            Obstacle::Barrier(barrier) => barrier.check_intersection(boy),
            Obstacle::Platform(platform) => platform.check_intersection(boy),
        }
    }

    pub fn draw(&self, renderer: &mut Renderer)
        requires
            self@.draw_fits(),
        ensures
            final(renderer)@ == old(renderer)@ + self@.draw_list(),
    {
        match self {
            Obstacle::Barrier(barrier) => {
                barrier.draw(renderer);
                assert(renderer@ =~= old(renderer)@ + self@.draw_list());
            },
            Obstacle::Platform(platform) => platform.draw(renderer),
        }
    }

    pub fn move_horizontally(&mut self, x: i16)
        requires
            old(self)@.move_fits(x),
        ensures
            final(self)@ == old(self)@.moved(x),
    {
        match self {
            Obstacle::Barrier(barrier) => barrier.move_horizontally(x),
            Obstacle::Platform(platform) => platform.move_horizontally(x),
        }
    }

    pub fn right(&self) -> (edge: i16)
        requires
            self@.boxes_fit(),
        ensures
            edge == self@.right(),
    {
        match self {
            Obstacle::Barrier(barrier) => barrier.right(),
            Obstacle::Platform(platform) => {
                assert(platform@.bounding_boxes.len() > 0 ==> platform@.bounding_boxes.last().fits());
                platform.right()
            },
        }
    }
}

} // verus!
