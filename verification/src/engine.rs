//! Plain geometry and the recording ends of the drawing and input interfaces.

use vstd::prelude::*;
use vstd::hash_map::StringHashMap;

verus! {

/// A point, or a velocity, in integer screen coordinates.
#[derive(Clone, Copy, PartialEq, Eq, Structural, Debug)]
pub struct Point {
    pub x: i16,
    pub y: i16,
}

/// An axis-aligned box.
#[derive(Clone, Copy, PartialEq, Eq, Structural, Debug)]
pub struct Rect {
    pub position: Point,
    pub width: i16,
    pub height: i16,
}

impl Rect {
    /// The x coordinate just past the right edge, as a mathematical integer.
    pub open spec fn spec_right(self) -> int {
        self.position.x + self.width
    }

    /// The y coordinate just past the bottom edge, as a mathematical integer.
    pub open spec fn spec_bottom(self) -> int {
        self.position.y + self.height
    }

    /// Both far edges are representable coordinates.
    pub open spec fn fits(self) -> bool {
        &&& i16::MIN <= self.spec_right() <= i16::MAX
        &&& i16::MIN <= self.spec_bottom() <= i16::MAX
    }

    /// The two boxes share interior area.
    pub open spec fn spec_intersects(self, rect: Rect) -> bool {
        &&& self.position.x < rect.spec_right()
        &&& self.spec_right() > rect.position.x
        &&& self.position.y < rect.spec_bottom()
        &&& self.spec_bottom() > rect.position.y
    }

    /// The box shifted horizontally so that its left edge is at `x`.
    pub open spec fn with_x(self, x: i16) -> Rect {
        Rect { position: Point { x, y: self.position.y }, width: self.width, height: self.height }
    }

    pub fn new(position: Point, width: i16, height: i16) -> (rect: Self)
        ensures
            rect == (Rect { position, width, height }),
    {
        Rect { position, width, height }
    }

    pub fn new_from_x_y(x: i16, y: i16, width: i16, height: i16) -> (rect: Self)
        ensures
            rect == (Rect { position: Point { x, y }, width, height }),
    {
        Rect::new(Point { x, y }, width, height)
    }

    pub fn intersects(&self, rect: &Rect) -> (hit: bool)
        requires
            self.fits(),
            rect.fits(),
        ensures
            hit == self.spec_intersects(*rect),
    {
        self.x() < rect.right() && self.right() > rect.x() && self.y() < rect.bottom()
            && self.bottom() > rect.y()
    }

    pub fn right(&self) -> (edge: i16)
        requires
            i16::MIN <= self.spec_right() <= i16::MAX,
        ensures
            edge == self.spec_right(),
    {
        self.x() + self.width
    }

    pub fn bottom(&self) -> (edge: i16)
        requires
            i16::MIN <= self.spec_bottom() <= i16::MAX,
        ensures
            edge == self.spec_bottom(),
    {
        self.y() + self.height
    }

    pub fn set_x(&mut self, x: i16)
        ensures
            *final(self) == old(self).with_x(x),
    {
        self.position.x = x;
    }

    pub fn x(&self) -> (x: i16)
        ensures
            x == self.position.x,
    {
        self.position.x
    }

    pub fn y(&self) -> (y: i16)
        ensures
            y == self.position.y,
    {
        self.position.y
    }
}

impl Default for Rect {
    fn default() -> (rect: Self)
        ensures
            rect == (Rect { position: Point { x: 0, y: 0 }, width: 0, height: 0 }),
    {
        Rect::new_from_x_y(0, 0, 0, 0)
    }
}

/// A rectangle as a sprite sheet's description file writes it.
#[derive(Clone, Copy, PartialEq, Eq, Structural, Debug)]
pub struct SheetRect {
    pub x: i16,
    pub y: i16,
    pub w: i16,
    pub h: i16,
}

/// One sprite of a sheet: where it lies in the sheet's image, and how far the
/// trimmed sprite sits inside its untrimmed frame.
#[derive(Clone, Copy, PartialEq, Eq, Structural, Debug)]
pub struct Cell {
    pub frame: SheetRect,
    pub sprite_source_size: SheetRect,
}

/// The sprites of a sheet by name.
pub struct Sheet {
    pub frames: StringHashMap<Cell>,
}

impl View for Sheet {
    type V = Map<Seq<char>, Cell>;

    open spec fn view(&self) -> Map<Seq<char>, Cell> {
        self.frames@
    }
}

impl Sheet {
    pub fn new() -> (sheet: Self)
        ensures
            sheet@ == Map::<Seq<char>, Cell>::empty(),
    {
        Sheet { frames: StringHashMap::new() }
    }

    /// Adds a sprite under `name`, replacing any sprite already there.
    pub fn insert(&mut self, name: &str, cell: Cell)
        ensures
            final(self)@ == old(self)@.insert(name@, cell),
    {
        self.frames.insert(String::from_str(name), cell);
    }

    pub fn get(&self, name: &str) -> (cell: Option<&Cell>)
        ensures
            cell == (if self@.contains_key(name@) {
                Some(&self@[name@])
            } else {
                None
            }),
    {
        self.frames.get(name)
    }
}

/// A loaded picture, as far as the simulation is concerned: a number that
/// tells the pictures apart, and the picture's size in pixels.
#[derive(Clone, Copy, PartialEq, Eq, Structural, Debug)]
pub struct ImageElement {
    pub id: u32,
    pub width: i16,
    pub height: i16,
}

/// One instruction to whatever paints the frame.
#[derive(Clone, Copy, PartialEq, Eq, Structural, Debug)]
pub enum DrawCommand {
    /// Wipe the given area.
    Clear(Rect),
    /// Copy the area `frame` of a picture to the area `destination`.
    Image { element: ImageElement, frame: Rect, destination: Rect },
    /// Paint a whole picture with its top left corner at `position`.
    EntireImage { element: ImageElement, position: Point },
}

/// Records what is to be painted, in painting order.
pub struct Renderer {
    commands: Vec<DrawCommand>,
}

impl View for Renderer {
    type V = Seq<DrawCommand>;

    closed spec fn view(&self) -> Seq<DrawCommand> {
        self.commands@
    }
}

impl Renderer {
    pub fn new() -> (renderer: Self)
        ensures
            renderer@ == Seq::<DrawCommand>::empty(),
    {
        Renderer { commands: Vec::new() }
    }

    pub fn clear(&mut self, rect: &Rect)
        ensures
            final(self)@ == old(self)@.push(DrawCommand::Clear(*rect)),
    {
        self.commands.push(DrawCommand::Clear(*rect));
    }

    pub fn draw_image(&mut self, image: &ImageElement, frame: &Rect, destination: &Rect)
        ensures
            final(self)@ == old(self)@.push(
                DrawCommand::Image { element: *image, frame: *frame, destination: *destination },
            ),
    {
        self.commands.push(
            DrawCommand::Image { element: *image, frame: *frame, destination: *destination },
        );
    }

    pub fn draw_entire_image(&mut self, image: &ImageElement, position: &Point)
        ensures
            final(self)@ == old(self)@.push(
                DrawCommand::EntireImage { element: *image, position: *position },
            ),
    {
        self.commands.push(DrawCommand::EntireImage { element: *image, position: *position });
    }

    /// Everything recorded so far, oldest first.
    pub fn commands(&self) -> (commands: &Vec<DrawCommand>)
        ensures
            commands@ == self@,
    {
        &self.commands
    }
}

/// A sprite sheet together with the picture its sprites are cut from.
pub struct SpriteSheet {
    pub sheet: Sheet,
    pub image: ImageElement,
}

impl SpriteSheet {
    pub fn new(sheet: Sheet, image: ImageElement) -> (sprite_sheet: Self)
        ensures
            sprite_sheet.sheet == sheet,
            sprite_sheet.image == image,
    {
        SpriteSheet { sheet, image }
    }

    pub fn cell(&self, name: &str) -> (cell: Option<&Cell>)
        ensures
            cell == (if self.sheet@.contains_key(name@) {
                Some(&self.sheet@[name@])
            } else {
                None
            }),
    {
        self.sheet.get(name)
    }

    pub fn draw(&self, renderer: &mut Renderer, source: &Rect, destination: &Rect)
        ensures
            final(renderer)@ == old(renderer)@.push(
                DrawCommand::Image { element: self.image, frame: *source, destination: *destination },
            ),
    {
        renderer.draw_image(&self.image, source, destination);
    }
}

/// A picture placed in the scene.
#[derive(Clone, Copy, PartialEq, Eq, Structural, Debug)]
pub struct Image {
    pub element: ImageElement,
    pub bounding_box: Rect,
}

impl Image {
    /// The image moved so that its left edge is at `x`.
    pub open spec fn with_x(self, x: i16) -> Image {
        Image { element: self.element, bounding_box: self.bounding_box.with_x(x) }
    }

    /// The image shifted by `distance`, which must not carry its left edge out
    /// of the representable coordinates.
    pub open spec fn moved(self, distance: i16) -> Image {
        self.with_x((self.bounding_box.position.x + distance) as i16)
    }

    /// What painting the image asks of the renderer.
    pub open spec fn draw_command(self) -> DrawCommand {
        DrawCommand::EntireImage { element: self.element, position: self.bounding_box.position }
    }

    pub fn new(element: ImageElement, position: Point) -> (image: Self)
        ensures
            image.element == element,
            image.bounding_box == (Rect { position, width: element.width, height: element.height }),
    {
        let bounding_box = Rect::new(position, element.width, element.height);
        Image { element, bounding_box }
    }

    pub fn draw(&self, renderer: &mut Renderer)
        ensures
            final(renderer)@ == old(renderer)@.push(self.draw_command()),
    {
        renderer.draw_entire_image(&self.element, &self.bounding_box.position);
    }

    pub fn bounding_box(&self) -> (bounding_box: &Rect)
        ensures
            *bounding_box == self.bounding_box,
    {
        &self.bounding_box
    }

    pub fn move_horizontally(&mut self, distance: i16)
        requires
            i16::MIN <= old(self).bounding_box.position.x + distance <= i16::MAX,
        ensures
            *final(self) == old(self).moved(distance),
    {
        self.set_x(self.bounding_box.x() + distance);
    }

    pub fn set_x(&mut self, x: i16)
        ensures
            *final(self) == old(self).with_x(x),
    {
        self.bounding_box.set_x(x);
    }

    pub fn right(&self) -> (edge: i16)
        requires
            i16::MIN <= self.bounding_box.spec_right() <= i16::MAX,
        ensures
            edge == self.bounding_box.spec_right(),
    {
        self.bounding_box.right()
    }
}

/// Which keys are held down right now.
pub struct KeyState {
    pressed_keys: StringHashMap<bool>,
}

impl View for KeyState {
    type V = Set<Seq<char>>;

    closed spec fn view(&self) -> Set<Seq<char>> {
        self.pressed_keys@.dom()
    }
}

impl KeyState {
    pub fn new() -> (keys: Self)
        ensures
            keys@ == Set::<Seq<char>>::empty(),
    {
        KeyState { pressed_keys: StringHashMap::new() }
    }

    pub fn is_pressed(&self, code: &str) -> (pressed: bool)
        ensures
            pressed == self@.contains(code@),
    {
        self.pressed_keys.contains_key(code)
    }

    pub fn set_pressed(&mut self, code: &str)
        ensures
            final(self)@ == old(self)@.insert(code@),
    {
        self.pressed_keys.insert(String::from_str(code), true);
        assert(self.pressed_keys@.dom() =~= old(self).pressed_keys@.dom().insert(code@));
    }

    pub fn set_released(&mut self, code: &str)
        ensures
            final(self)@ == old(self)@.remove(code@),
    {
        self.pressed_keys.remove(code);
        assert(self.pressed_keys@.dom() =~= old(self).pressed_keys@.dom().remove(code@));
    }
}

} // verus!
