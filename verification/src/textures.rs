//! Which image, and which part of it, shows a kind of terrain, content or weather.

use vstd::prelude::*;
use crate::draw::{Rectangle, TextureKey};
use crate::tile::{Content, TileType, WeatherType};

verus! {

/// The file of the terrain atlas of a style: style 0 has its own, all others share one.
pub fn upload_tileset(selection: usize) -> (path: &'static str)
    ensures
        path@ == (if selection == 0 {
            "./resources/tileset/tileset.png"@
        } else {
            "./resources/tileset/ts_minecraft.png"@
        }),
{
    match selection {
        0 => "./resources/tileset/tileset.png",
        _ => "./resources/tileset/ts_minecraft.png",
    }
}

/// The file of the content atlas of a style: style 0 has its own, all others share one.
pub fn upload_contentset(selection: usize) -> (path: &'static str)
    ensures
        path@ == (if selection == 0 {
            "./resources/contentset/contentset.png"@
        } else {
            "./resources/contentset/cs_minecraft.png"@
        }),
{
    match selection {
        0 => "./resources/contentset/contentset.png",
        _ => "./resources/contentset/cs_minecraft.png",
    }
}

/// The square of 64 pixels in column `column` and row `row` of an atlas.
pub open spec fn atlas_cell(column: int, row: int) -> Rectangle {
    Rectangle { x: (64 * column) as u32, y: (64 * row) as u32, width: 64, height: 64 }
}

/// Something that is shown by a part of an atlas.
pub trait Drawable {
    /// The part of the atlas that shows `self`.
    spec fn region(&self) -> Rectangle;

    /// The part of the atlas to draw for `self`.
    fn draw(&self) -> (r: Rectangle)
        ensures
            r == self.region(),
    ;
}

impl Drawable for TileType {
    open spec fn region(&self) -> Rectangle {
        match self {
            TileType::DeepWater => atlas_cell(0, 0),
            TileType::ShallowWater => atlas_cell(1, 0),
            TileType::Sand => atlas_cell(2, 0),
            TileType::Grass => atlas_cell(3, 0),
            TileType::Street => atlas_cell(0, 1),
            TileType::Hill => atlas_cell(1, 1),
            TileType::Mountain => atlas_cell(2, 1),
            TileType::Snow => atlas_cell(3, 1),
            TileType::Lava => atlas_cell(0, 2),
            TileType::Teleport => atlas_cell(1, 2),
            TileType::Wall => atlas_cell(2, 2),
        }
    }

    fn draw(&self) -> (r: Rectangle) {
        let (x, y): (u32, u32) = match self {
            TileType::DeepWater => (0, 0),
            TileType::ShallowWater => (64, 0),
            TileType::Sand => (128, 0),
            TileType::Grass => (192, 0),
            TileType::Street => (0, 64),
            TileType::Hill => (64, 64),
            TileType::Mountain => (128, 64),
            TileType::Snow => (192, 64),
            TileType::Lava => (0, 128),
            TileType::Teleport => (64, 128),
            TileType::Wall => (128, 128),
        };
        Rectangle { x, y, width: 64, height: 64 }
    }
}

impl Drawable for Content {
    open spec fn region(&self) -> Rectangle {
        match self {
            Content::Rock => atlas_cell(0, 0),
            Content::Tree => atlas_cell(1, 0),
            Content::Garbage => atlas_cell(2, 0),
            Content::Fire => atlas_cell(3, 0),
            Content::Coin => atlas_cell(0, 1),
            Content::Bin => atlas_cell(1, 1),
            Content::Crate => atlas_cell(2, 1),
            Content::Bank => atlas_cell(3, 1),
            Content::Market => atlas_cell(0, 2),
            Content::Fish => atlas_cell(1, 2),
            Content::Building => atlas_cell(2, 2),
            Content::Bush => atlas_cell(3, 2),
            Content::Scarecrow => atlas_cell(0, 3),
            _ => atlas_cell(3, 3),
        }
    }

    fn draw(&self) -> (r: Rectangle) {
        let (x, y): (u32, u32) = match self {
            Content::Rock => (0, 0),
            Content::Tree => (64, 0),
            Content::Garbage => (128, 0),
            Content::Fire => (192, 0),
            Content::Coin => (0, 64),
            Content::Bin => (64, 64),
            Content::Crate => (128, 64),
            Content::Bank => (192, 64),
            Content::Market => (0, 128),
            Content::Fish => (64, 128),
            Content::Building => (128, 128),
            Content::Bush => (192, 128),
            Content::Scarecrow => (0, 192),
            _ => (192, 192),
        };
        Rectangle { x, y, width: 64, height: 64 }
    }
}

/// Something that is shown by an image of its own.
pub trait Texturizable {
    /// The file of the image that shows `self`.
    spec fn texture_path(&self) -> Seq<char>;

    /// The file of the image that shows `self`.
    fn get_texture(&self) -> (path: &'static str)
        ensures
            path@ == self.texture_path(),
    ;
}

impl Texturizable for WeatherType {
    open spec fn texture_path(&self) -> Seq<char> {
        match self {
            WeatherType::Sunny => "./resources/weather/sun.png"@,
            WeatherType::Foggy => "./resources/weather/fog.png"@,
            WeatherType::TrentinoSnow => "./resources/weather/snow.png"@,
            _ => "./resources/weather/drop.png"@,
        }
    }

    fn get_texture(&self) -> (path: &'static str) {
        match self {
            WeatherType::Sunny => "./resources/weather/sun.png",
            WeatherType::Foggy => "./resources/weather/fog.png",
            WeatherType::TrentinoSnow => "./resources/weather/snow.png",
            _ => "./resources/weather/drop.png",
        }
    }
}

impl TextureKey {
    /// The file that holds the image.
    pub open spec fn path_of(self) -> Seq<char> {
        match self {
            TextureKey::Tileset(style) => if style == 0 {
                "./resources/tileset/tileset.png"@
            } else {
                "./resources/tileset/ts_minecraft.png"@
            },
            TextureKey::Contentset(style) => if style == 0 {
                "./resources/contentset/contentset.png"@
            } else {
                "./resources/contentset/cs_minecraft.png"@
            },
            TextureKey::Robot => "./resources/robot.png"@,
            TextureKey::BackpackSlot => "./resources/backpack_void.png"@,
        }
    }

    /// The file that holds the image.
    pub fn path(&self) -> (path: &'static str)
        ensures
            path@ == self.path_of(),
    {
        match self {
            TextureKey::Tileset(style) => upload_tileset(*style),
            TextureKey::Contentset(style) => upload_contentset(*style),
            TextureKey::Robot => "./resources/robot.png",
            TextureKey::BackpackSlot => "./resources/backpack_void.png",
        }
    }
}

} // verus!
