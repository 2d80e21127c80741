use visualizer::draw::{Rectangle, TextureKey};
use visualizer::textures::{upload_contentset, upload_tileset, Drawable, Texturizable};
use visualizer::tile::{Content, TileType, WeatherType};

fn cell(x: u32, y: u32) -> Rectangle {
    Rectangle { x, y, width: 64, height: 64 }
}

#[test]
fn tilesets_by_style() {
    assert_eq!(upload_tileset(0), "./resources/tileset/tileset.png");
    assert_eq!(upload_tileset(1), "./resources/tileset/ts_minecraft.png");
    assert_eq!(upload_tileset(2), "./resources/tileset/ts_minecraft.png");
    assert_eq!(upload_tileset(3), "./resources/tileset/ts_minecraft.png");
    assert_eq!(upload_tileset(usize::MAX), "./resources/tileset/ts_minecraft.png");
}

#[test]
fn contentsets_by_style() {
    assert_eq!(upload_contentset(0), "./resources/contentset/contentset.png");
    assert_eq!(upload_contentset(1), "./resources/contentset/cs_minecraft.png");
    assert_eq!(upload_contentset(3), "./resources/contentset/cs_minecraft.png");
    assert_eq!(upload_contentset(usize::MAX), "./resources/contentset/cs_minecraft.png");
}

#[test]
fn terrain_regions() {
    assert_eq!(TileType::DeepWater.draw(), cell(0, 0));
    assert_eq!(TileType::ShallowWater.draw(), cell(64, 0));
    assert_eq!(TileType::Sand.draw(), cell(128, 0));
    assert_eq!(TileType::Grass.draw(), cell(192, 0));
    assert_eq!(TileType::Street.draw(), cell(0, 64));
    assert_eq!(TileType::Hill.draw(), cell(64, 64));
    assert_eq!(TileType::Mountain.draw(), cell(128, 64));
    assert_eq!(TileType::Snow.draw(), cell(192, 64));
    assert_eq!(TileType::Lava.draw(), cell(0, 128));
    assert_eq!(TileType::Teleport.draw(), cell(64, 128));
    assert_eq!(TileType::Wall.draw(), cell(128, 128));
}

#[test]
fn content_regions() {
    assert_eq!(Content::Rock.draw(), cell(0, 0));
    assert_eq!(Content::Tree.draw(), cell(64, 0));
    assert_eq!(Content::Garbage.draw(), cell(128, 0));
    assert_eq!(Content::Fire.draw(), cell(192, 0));
    assert_eq!(Content::Coin.draw(), cell(0, 64));
    assert_eq!(Content::Bin.draw(), cell(64, 64));
    assert_eq!(Content::Crate.draw(), cell(128, 64));
    assert_eq!(Content::Bank.draw(), cell(192, 64));
    assert_eq!(Content::Market.draw(), cell(0, 128));
    assert_eq!(Content::Fish.draw(), cell(64, 128));
    assert_eq!(Content::Building.draw(), cell(128, 128));
    assert_eq!(Content::Bush.draw(), cell(192, 128));
    assert_eq!(Content::Scarecrow.draw(), cell(0, 192));
    assert_eq!(Content::Water.draw(), cell(192, 192));
    assert_eq!(Content::JollyBlock.draw(), cell(192, 192));
    assert_eq!(Content::Empty.draw(), cell(192, 192));
}

#[test]
fn weather_textures() {
    assert_eq!(WeatherType::Sunny.get_texture(), "./resources/weather/sun.png");
    assert_eq!(WeatherType::Foggy.get_texture(), "./resources/weather/fog.png");
    assert_eq!(WeatherType::TrentinoSnow.get_texture(), "./resources/weather/snow.png");
    assert_eq!(WeatherType::Rainy.get_texture(), "./resources/weather/drop.png");
    assert_eq!(WeatherType::TropicalMonsoon.get_texture(), "./resources/weather/drop.png");
}

#[test]
fn texture_files() {
    assert_eq!(TextureKey::Tileset(0).path(), "./resources/tileset/tileset.png");
    assert_eq!(TextureKey::Tileset(2).path(), "./resources/tileset/ts_minecraft.png");
    assert_eq!(TextureKey::Contentset(0).path(), "./resources/contentset/contentset.png");
    assert_eq!(TextureKey::Contentset(1).path(), "./resources/contentset/cs_minecraft.png");
    assert_eq!(TextureKey::Robot.path(), "./resources/robot.png");
    assert_eq!(TextureKey::BackpackSlot.path(), "./resources/backpack_void.png");
}
