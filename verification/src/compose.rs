//! Per-frame composition: one redraw turns the scene state into a primitive
//! list in a fixed draw order — animated greeting text, framerate counter,
//! textured sprite, then the outlined circle around the greeting.

use vstd::prelude::*;

use crate::color::Color;
use crate::color::hsva_to_rgb;
use crate::color::rgb_channels;
use crate::scene::COORD_LIMIT;
use crate::scene::HUE_STEP;
use crate::scene::SceneState;
use crate::scene::bounced_vel;
use crate::scene::fps_milli_spec;
use crate::scene::prune_front;

verus! {

/// Text size of both text primitives, in thousandths of a unit.
pub const TEXT_SIZE: i64 = 24000;

/// Where the framerate counter is drawn, in thousandths of a unit.
pub const FPS_TEXT_X: i64 = 10000;

pub const FPS_TEXT_Y: i64 = 50000;

/// Position and dimensions of the textured sprite, in thousandths.
pub const SPRITE_X: i64 = 200000;

pub const SPRITE_Y: i64 = 200000;

pub const SPRITE_W: i64 = 256000;

pub const SPRITE_H: i64 = 192000;

/// How far the circle's radius reaches beyond half the text width.
pub const CIRCLE_MARGIN: i64 = 5000;

/// Thickness of the circle's outline, in thousandths of a unit.
pub const OUTLINE_THICKNESS: i64 = 1000;

/// Saturation of the animated text's colour, in thousandths.
pub const TEXT_SATURATION: u32 = 700;

/// What a text primitive says: the fixed greeting, or the framerate counter
/// carrying the measured thousandths of a frame per second.
#[derive(Clone, Copy, Debug, PartialEq, Eq, Structural)]
pub enum TextContent {
    Greeting,
    FpsCounter { milli_fps: u128 },
}

/// Outline of a circle: thickness in thousandths of a unit, and a colour.
#[derive(Clone, Copy, Debug, PartialEq, Eq, Structural)]
pub struct OutlineSpec {
    pub thickness: i64,
    pub color: Color,
}

/// One drawing request handed to the renderer for a single frame. All
/// coordinates and sizes are fixed-point thousandths of a unit.
#[derive(Clone, Copy, Debug, PartialEq, Eq, Structural)]
pub enum Primitive {
    Text { content: TextContent, x: i64, y: i64, size: i64, color: Color, centered: bool },
    TexturedRect { x: i64, y: i64, width: i64, height: i64, tint: Color },
    Circle { center_x: i64, center_y: i64, radius: i64, fill: Color, outline: Option<
        OutlineSpec,
    > },
}

/// One full redraw: records and prunes the frame timestamp, bounces and
/// moves the text, advances the hue, and returns the frame's primitives in
/// the fixed draw order — greeting, framerate counter, sprite, circle.
///
/// The greeting uses the hue as it stood before this frame's advance; the
/// circle is centred on the greeting's bounding box with a radius of half
/// the text width plus a fixed margin.
pub fn redraw_frame(
    state: &mut SceneState,
    now_ms: u64,
    text_w: i64,
    text_h: i64,
    win_w: i64,
    win_h: i64,
) -> (frame: Vec<Primitive>)
    requires
        old(state).wf(),
        old(state).timestamps_at_or_before(now_ms),
        old(state).step_in_range(),
        0 <= text_w <= COORD_LIMIT,
        0 <= text_h <= COORD_LIMIT,
        0 <= win_w <= COORD_LIMIT,
        0 <= win_h <= COORD_LIMIT,
    ensures
        final(state).wf(),
        final(state).timestamps@ == prune_front(
            old(state).timestamps@.push(now_ms),
            now_ms,
        ),
        final(state).timestamps_fresh(now_ms),
        final(state).vel_x == bounced_vel(
            old(state).pos_x as int,
            text_w as int,
            win_w as int,
            old(state).vel_x as int,
        ),
        final(state).vel_y == bounced_vel(
            old(state).pos_y as int,
            text_h as int,
            win_h as int,
            old(state).vel_y as int,
        ),
        final(state).pos_x == old(state).pos_x + final(state).vel_x,
        final(state).pos_y == old(state).pos_y + final(state).vel_y,
        final(state).hue == (old(state).hue + HUE_STEP) % (crate::color::FULL_TURN as int),
        frame@.len() == 4,
        frame@[0] matches Primitive::Text { content, x, y, size, color, centered }
            && content == TextContent::Greeting
            && x == final(state).pos_x
            && y == final(state).pos_y
            && size == TEXT_SIZE
            && ({
                let ch = rgb_channels(old(state).hue as int, TEXT_SATURATION as int, 1000);
                color.r == ch.0 && color.g == ch.1 && color.b == ch.2 && color.a == 1000
            })
            && !centered,
        frame@[1] matches Primitive::Text { content, x, y, size, color, centered }
            && content matches TextContent::FpsCounter { milli_fps }
            && milli_fps == fps_milli_spec(final(state).timestamps@, now_ms)
            && x == FPS_TEXT_X
            && y == FPS_TEXT_Y
            && size == TEXT_SIZE
            && color == (Color { r: 1000, g: 0, b: 0, a: 1000 })
            && !centered,
        frame@[2] matches Primitive::TexturedRect { x, y, width, height, tint }
            && x == SPRITE_X
            && y == SPRITE_Y
            && width == SPRITE_W
            && height == SPRITE_H
            && tint == (Color { r: 1000, g: 1000, b: 1000, a: 1000 }),
        frame@[3] matches Primitive::Circle { center_x, center_y, radius, fill, outline }
            && center_x == final(state).pos_x + text_w / 2
            && center_y == final(state).pos_y + text_h / 2
            && radius == text_w / 2 + CIRCLE_MARGIN
            && fill == (Color { r: 200, g: 200, b: 200, a: 200 })
            && outline == Some(OutlineSpec {
                thickness: OUTLINE_THICKNESS,
                color: Color { r: 1000, g: 0, b: 0, a: 1000 },
            }),
{
    state.record_frame(now_ms);
    state.step_physics(text_w, text_h, win_w, win_h);
    let text_color = hsva_to_rgb(state.hue, TEXT_SATURATION, 1000, 1000);
    state.advance_hue();
    let fps: u128 = state.fps_milli(now_ms);

    let half_w: i64 = ((text_w as u64) / 2) as i64;
    let half_h: i64 = ((text_h as u64) / 2) as i64;

    let mut frame: Vec<Primitive> = Vec::new();
    frame.push(
        Primitive::Text {
            content: TextContent::Greeting,
            x: state.pos_x,
            y: state.pos_y,
            size: TEXT_SIZE,
            color: text_color,
            centered: false,
        },
    );
    frame.push(
        Primitive::Text {
            content: TextContent::FpsCounter { milli_fps: fps },
            x: FPS_TEXT_X,
            y: FPS_TEXT_Y,
            size: TEXT_SIZE,
            color: Color { r: 1000, g: 0, b: 0, a: 1000 },
            centered: false,
        },
    );
    frame.push(
        Primitive::TexturedRect {
            x: SPRITE_X,
            y: SPRITE_Y,
            width: SPRITE_W,
            height: SPRITE_H,
            tint: Color { r: 1000, g: 1000, b: 1000, a: 1000 },
        },
    );
    frame.push(
        Primitive::Circle {
            center_x: state.pos_x + half_w,
            center_y: state.pos_y + half_h,
            radius: half_w + CIRCLE_MARGIN,
            fill: Color { r: 200, g: 200, b: 200, a: 200 },
            outline: Some(
                OutlineSpec {
                    thickness: OUTLINE_THICKNESS,
                    color: Color { r: 1000, g: 0, b: 0, a: 1000 },
                },
            ),
        },
    );
    frame
}

} // verus!
