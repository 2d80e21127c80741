//! What a frame is made of: a list of commands for the display to carry out in order.

use vstd::prelude::*;
use crate::tile::WeatherType;

verus! {

/// A part of an image, in pixels of that image.
#[derive(Clone, Copy, Debug, PartialEq, Eq, Structural)]
pub struct Rectangle {
    pub x: u32,
    pub y: u32,
    pub width: u32,
    pub height: u32,
}

/// The images that sprites are cut from.
#[derive(Clone, Copy, Debug, PartialEq, Eq, Structural)]
pub enum TextureKey {
    /// The terrain atlas of a style.
    Tileset(usize),
    /// The content atlas of a style.
    Contentset(usize),
    /// The robot's marker.
    Robot,
    /// The frame of one slot of the backpack.
    BackpackSlot,
}

/// One command for the display. Places are in hundredths of a pixel from the
/// window's top left corner, scales in hundredths.
#[derive(Debug, PartialEq, Eq)]
pub enum DrawCommand {
    /// Fill the window with black.
    Clear,
    /// Draw `region` of `texture`, or all of it, with its top left corner at `x` and `y`.
    Sprite { texture: TextureKey, region: Option<Rectangle>, x: i64, y: i64, scale: i64 },
    /// Write `content` with its top left corner at `x` and `y`.
    Text { content: String, x: i64, y: i64, scale: i64 },
    /// Show the weather.
    Weather { weather: WeatherType },
}

/// What a command is, to contracts: the command with its text as a sequence of characters.
pub enum DrawOp {
    Clear,
    Sprite { texture: TextureKey, region: Option<Rectangle>, x: int, y: int, scale: int },
    Text { content: Seq<char>, x: int, y: int, scale: int },
    Weather { weather: WeatherType },
}

impl View for DrawCommand {
    type V = DrawOp;

    open spec fn view(&self) -> DrawOp {
        match *self {
            DrawCommand::Clear => DrawOp::Clear,
            DrawCommand::Sprite { texture, region, x, y, scale } => DrawOp::Sprite {
                texture,
                region,
                x: x as int,
                y: y as int,
                scale: scale as int,
            },
            DrawCommand::Text { content, x, y, scale } => DrawOp::Text {
                content: content@,
                x: x as int,
                y: y as int,
                scale: scale as int,
            },
            DrawCommand::Weather { weather } => DrawOp::Weather { weather },
        }
    }
}

/// What a list of commands is, to contracts.
pub open spec fn ops_of(commands: Seq<DrawCommand>) -> Seq<DrawOp> {
    Seq::new(commands.len(), |i: int| commands[i]@)
}

/// A list with one more command at its end is, to contracts, the list with
/// that command's view at its end.
pub proof fn lemma_ops_of_push(commands: Seq<DrawCommand>, command: DrawCommand)
    ensures
        ops_of(commands.push(command)) == ops_of(commands).push(command@),
{
    assert(ops_of(commands.push(command)) =~= ops_of(commands).push(command@));
}

/// Two lists one after the other are, to contracts, their views one after the other.
pub proof fn lemma_ops_of_add(first: Seq<DrawCommand>, second: Seq<DrawCommand>)
    ensures
        ops_of(first + second) == ops_of(first) + ops_of(second),
{
    assert(ops_of(first + second) =~= ops_of(first) + ops_of(second));
}

} // verus!
