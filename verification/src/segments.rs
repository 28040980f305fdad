//! The catalog of obstacle clusters that the generator places ahead of the
//! avatar.

use vstd::prelude::*;
use std::rc::Rc;
use crate::engine::{Image, ImageElement, Point, Rect, SpriteSheet};
use crate::game::obstacles::{
    cells_named, names_of, offset_box, Barrier, Obstacle, ObstacleView, Platform, PlatformView,
};

verus! {

/// The height at which a stone lies on the ground.
pub const STONE_ON_GROUND: i16 = 546;

/// The height of a low platform.
pub const LOW_PLATFORM: i16 = 420;

/// The height of a high platform.
pub const HIGH_PLATFORM: i16 = 375;

/// How far behind the start of a stone-then-platform cluster its platform
/// begins.
pub const FIRST_PLATFORM: i16 = 370;

/// The width of a floating platform.
pub const PLATFORM_WIDTH: i16 = 384;

/// The height of a floating platform in its middle.
pub const PLATFORM_HEIGHT: i16 = 93;

/// The width of either end of a floating platform.
pub const PLATFORM_EDGE_WIDTH: i16 = 60;

/// The height of a floating platform at either end.
pub const PLATFORM_EDGE_HEIGHT: i16 = 54;

/// How far behind the start of a stone-then-platform cluster its stone stands.
pub const STONE_BEFORE_PLATFORM: i16 = 150;

/// How far behind the start of a platform-then-stone cluster its stone stands.
pub const STONE_AFTER_PLATFORM: i16 = 400;

/// How far behind the start of a platform-then-stone cluster its platform
/// begins.
pub const PLATFORM_BEFORE_STONE: i16 = 200;

/// The names of the sprites that show a floating platform, left to right.
pub open spec fn floating_platform_sprites() -> Seq<Seq<char>> {
    seq!["13.png"@, "14.png"@, "15.png"@]
}

/// The boxes of a floating platform relative to its position: a low box at
/// either end and a full-height box between them.
pub open spec fn floating_platform_boxes() -> Seq<Rect> {
    seq![
        Rect {
            position: Point { x: 0, y: 0 },
            width: PLATFORM_EDGE_WIDTH,
            height: PLATFORM_EDGE_HEIGHT,
        },
        Rect {
            position: Point { x: PLATFORM_EDGE_WIDTH, y: 0 },
            width: (PLATFORM_WIDTH - PLATFORM_EDGE_WIDTH * 2) as i16,
            height: PLATFORM_HEIGHT,
        },
        Rect {
            position: Point { x: (PLATFORM_WIDTH - PLATFORM_EDGE_WIDTH) as i16, y: 0 },
            width: PLATFORM_EDGE_WIDTH,
            height: PLATFORM_EDGE_HEIGHT,
        },
    ]
}

/// A floating platform at `position`, shown with the sprites of `sheet`.
pub open spec fn floating_platform(sheet: SpriteSheet, position: Point) -> PlatformView {
    PlatformView {
        image: sheet.image,
        bounding_boxes: Seq::new(3, |i: int| offset_box(floating_platform_boxes()[i], position)),
        sprites: cells_named(sheet.sheet@, floating_platform_sprites()),
        position,
    }
}

/// A stone on the ground with its left edge at `x`.
pub open spec fn stone_at(stone: ImageElement, x: i16) -> Image {
    Image {
        element: stone,
        bounding_box: Rect {
            position: Point { x, y: STONE_ON_GROUND },
            width: stone.width,
            height: stone.height,
        },
    }
}

/// A cluster that begins at `offset_x` stays within the representable
/// coordinates.
pub open spec fn segment_fits(offset_x: i16) -> bool {
    offset_x + FIRST_PLATFORM + PLATFORM_WIDTH <= i16::MAX
}

/// The cluster "a stone, then a low platform", beginning at `offset_x`.
pub open spec fn stone_then_platform(stone: ImageElement, sheet: SpriteSheet, offset_x: i16) -> Seq<
    ObstacleView,
> {
    seq![
        ObstacleView::Barrier(stone_at(stone, (offset_x + STONE_BEFORE_PLATFORM) as i16)),
        ObstacleView::Platform(
            floating_platform(
                sheet,
                Point { x: (offset_x + FIRST_PLATFORM) as i16, y: LOW_PLATFORM },
            ),
        ),
    ]
}

/// The cluster "a high platform, then a stone", beginning at `offset_x`.
pub open spec fn platform_then_stone(stone: ImageElement, sheet: SpriteSheet, offset_x: i16) -> Seq<
    ObstacleView,
> {
    seq![
        ObstacleView::Platform(
            floating_platform(
                sheet,
                Point { x: (offset_x + PLATFORM_BEFORE_STONE) as i16, y: HIGH_PLATFORM },
            ),
        ),
        ObstacleView::Barrier(stone_at(stone, (offset_x + STONE_AFTER_PLATFORM) as i16)),
    ]
}

/// The views of the obstacles of `obstacles`, in order.
pub open spec fn views_of(obstacles: Seq<Obstacle>) -> Seq<ObstacleView> {
    Seq::new(obstacles.len(), |i: int| obstacles[i]@)
}

fn create_floating_platform(sprite_sheet: Rc<SpriteSheet>, position: Point) -> (platform: Platform)
    requires
        position.x + PLATFORM_WIDTH <= i16::MAX,
    ensures
        platform@ == floating_platform(*sprite_sheet, position),
{
    let names = ["13.png", "14.png", "15.png"];
    let boxes = [
        Rect::new_from_x_y(0, 0, PLATFORM_EDGE_WIDTH, PLATFORM_EDGE_HEIGHT),
        Rect::new_from_x_y(
            PLATFORM_EDGE_WIDTH,
            0,
            PLATFORM_WIDTH - (PLATFORM_EDGE_WIDTH * 2),
            PLATFORM_HEIGHT,
        ),
        Rect::new_from_x_y(
            PLATFORM_WIDTH - PLATFORM_EDGE_WIDTH,
            0,
            PLATFORM_EDGE_WIDTH,
            PLATFORM_EDGE_HEIGHT,
        ),
    ];
    assert(boxes@ =~= floating_platform_boxes());
    assert(names_of(names@) =~= floating_platform_sprites());
    let platform = Platform::new(sprite_sheet, position, &names, &boxes);
    assert(platform@.bounding_boxes =~= floating_platform(*sprite_sheet, position).bounding_boxes);
    platform
}

/// A stone, then a low platform.
pub fn stone_and_platform(stone: ImageElement, sprite_sheet: Rc<SpriteSheet>, offset_x: i16) -> (
    obstacles: Vec<Obstacle>
)
    requires
        segment_fits(offset_x),
    ensures
        views_of(obstacles@) == stone_then_platform(stone, *sprite_sheet, offset_x),
{
    let mut obstacles: Vec<Obstacle> = Vec::new();
    obstacles.push(
        Obstacle::Barrier(
            Barrier::new(
                Image::new(stone, Point { x: offset_x + STONE_BEFORE_PLATFORM, y: STONE_ON_GROUND }),
            ),
        ),
    );
    obstacles.push(
        Obstacle::Platform(
            create_floating_platform(
                sprite_sheet,
                Point { x: offset_x + FIRST_PLATFORM, y: LOW_PLATFORM },
            ),
        ),
    );
    assert(views_of(obstacles@) =~= stone_then_platform(stone, *sprite_sheet, offset_x));
    obstacles
}

/// A high platform, then a stone.
pub fn platform_and_stone(stone: ImageElement, sprite_sheet: Rc<SpriteSheet>, offset_x: i16) -> (
    obstacles: Vec<Obstacle>
)
    requires
        segment_fits(offset_x),
    ensures
        views_of(obstacles@) == platform_then_stone(stone, *sprite_sheet, offset_x),
{
    let mut obstacles: Vec<Obstacle> = Vec::new();
    obstacles.push(
        Obstacle::Platform(
            create_floating_platform(
                sprite_sheet,
                Point { x: offset_x + PLATFORM_BEFORE_STONE, y: HIGH_PLATFORM },
            ),
        ),
    );
    obstacles.push(
        Obstacle::Barrier(
            Barrier::new(
                Image::new(stone, Point { x: offset_x + STONE_AFTER_PLATFORM, y: STONE_ON_GROUND }),
            ),
        ),
    );
    assert(views_of(obstacles@) =~= platform_then_stone(stone, *sprite_sheet, offset_x));
    obstacles
}

} // verus!
