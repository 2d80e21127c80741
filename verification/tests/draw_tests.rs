use visualizer::camera::{Camera, Direction};
use visualizer::draw::{DrawCommand, Rectangle, TextureKey};
use visualizer::inventory::Inventory;
use visualizer::tile::{Content, Tile, TileType, WeatherType};
use visualizer::visbackpack::{VisBackPack, DIFF};
use visualizer::visenergy::VisEnergy;
use visualizer::vismap::VisMap;

fn cell(x: u32, y: u32) -> Option<Rectangle> {
    Some(Rectangle { x, y, width: 64, height: 64 })
}

fn sprite(texture: TextureKey, region: Option<Rectangle>, x: i64, y: i64, scale: i64) -> DrawCommand {
    DrawCommand::Sprite { texture, region, x, y, scale }
}

fn text(content: &str, x: i64, y: i64, scale: i64) -> DrawCommand {
    DrawCommand::Text { content: content.to_string(), x, y, scale }
}

fn grass_with(content: Content) -> Option<Tile> {
    Some(Tile { tile_type: TileType::Grass, content, elevation: 0 })
}

#[test]
fn an_unknown_map_draws_the_weather_only() {
    let map = VisMap::new(3);
    let commands = map.new_draw(&Camera::new(), 0);
    assert_eq!(commands, vec![DrawCommand::Weather { weather: WeatherType::Rainy }]);
}

#[test]
fn known_cells_are_drawn_row_by_row() {
    let mut map = VisMap::new(2);
    map.update_robot_pos((0, 0));
    let patch = vec![
        vec![None, None, None],
        vec![None, grass_with(Content::Rock), grass_with(Content::Tree)],
        vec![
            None,
            Some(Tile { tile_type: TileType::Lava, content: Content::Fire, elevation: 3 }),
            None,
        ],
    ];
    assert_eq!(map.update_map(patch), Ok(1));
    map.update_robot_pos((0, 1));
    map.update_weather(WeatherType::Sunny);
    let commands = map.new_draw(&Camera::new(), 1);
    let expected = vec![
        sprite(TextureKey::Tileset(1), cell(192, 0), 0, 6400, 20),
        sprite(TextureKey::Contentset(1), cell(0, 0), 0, 6400, 20),
        sprite(TextureKey::Tileset(1), cell(192, 0), 1280, 6400, 20),
        sprite(TextureKey::Contentset(1), cell(64, 0), 1280, 6400, 20),
        sprite(TextureKey::Robot, None, 1280, 6400, 20),
        sprite(TextureKey::Tileset(1), cell(0, 128), 0, 7680, 20),
        sprite(TextureKey::Contentset(1), cell(192, 0), 0, 7680, 20),
        DrawCommand::Weather { weather: WeatherType::Sunny },
    ];
    assert_eq!(commands, expected);
}

#[test]
fn cells_outside_the_window_are_left_out() {
    let mut map = VisMap::new(3);
    let mut patch = Vec::new();
    for i in 0..3 {
        let mut row = Vec::new();
        for j in 0..3 {
            row.push(Some(Tile { tile_type: TileType::Sand, content: Content::Empty, elevation: 3 * i + j }));
        }
        patch.push(row);
    }
    assert_eq!(map.update_map(patch), Ok(0));

    let mut left = Camera::new();
    left.apply_pan(Direction::Right, false);
    let commands = left_columns(&map.new_draw(&left, 0));
    assert_eq!(commands, vec![0, 0, 1280, 1280, 0, 0, 0, 1280, 1280, 0, 0, 1280, 1280]);

    let mut up = Camera::new();
    for _ in 0..5 {
        up.apply_pan(Direction::Down, false);
    }
    assert_eq!(up.map_pos(), (0, -6400));
    assert_eq!(up.world_to_screen(0, 0), (0, 0));
    let drawn = map.new_draw(&up, 0);
    assert_eq!(drawn.len(), 2 * 6 + 1 + 1);
    assert_eq!(drawn[0], sprite(TextureKey::Tileset(0), cell(128, 0), 0, 1280, 20));
    assert_eq!(drawn[2], sprite(TextureKey::Tileset(0), cell(128, 0), 1280, 1280, 20));
    assert_eq!(drawn[3], sprite(TextureKey::Contentset(0), cell(192, 192), 1280, 1280, 20));
    assert_eq!(drawn[4], sprite(TextureKey::Robot, None, 1280, 1280, 20));

    let mut far = Camera::new();
    far.pan_by(Direction::Left, 80_000);
    assert_eq!(map.new_draw(&far, 0), vec![DrawCommand::Weather { weather: WeatherType::Rainy }]);
    let mut edge = Camera::new();
    edge.pan_by(Direction::Left, 79_999 - 2 * 1280);
    assert_eq!(edge.world_to_screen(0, 2).0, 79_999);
    assert_eq!(map.new_draw(&edge, 0).len(), 2 * 9 + 1 + 1);
    edge.pan_by(Direction::Left, 1);
    assert_eq!(map.new_draw(&edge, 0).len(), 2 * 6 + 1 + 1);
}

fn left_columns(commands: &Vec<DrawCommand>) -> Vec<i64> {
    let mut xs = Vec::new();
    for command in commands {
        if let DrawCommand::Sprite { x, .. } = command {
            xs.push(*x);
        }
    }
    xs
}

#[test]
fn the_scale_of_the_camera_is_the_scale_of_the_tiles() {
    let mut map = VisMap::new(2);
    map.update_robot_pos((5, 5));
    let mut grid = vec![vec![None; 3]; 3];
    grid[0][0] = grass_with(Content::Bank);
    map.update_robot_pos((1, 1));
    assert_eq!(map.update_map(grid), Ok(3));
    map.update_robot_pos((9, 9));
    let mut camera = Camera::new();
    camera.apply_zoom(10);
    let commands = map.new_draw(&camera, 0);
    assert_eq!(
        commands,
        vec![
            sprite(TextureKey::Tileset(0), cell(192, 0), 1280, 6400 + 1280, 30),
            sprite(TextureKey::Contentset(0), cell(192, 64), 1280, 6400 + 1280, 30),
            DrawCommand::Weather { weather: WeatherType::Rainy },
        ]
    );
}

#[test]
fn the_texts_are_drawn_at_their_places() {
    let mut texts = VisEnergy::new();
    assert_eq!(texts.energy_text(), "Robot Energy : ...");
    assert_eq!(texts.rizzler_text(), "...");
    assert_eq!(
        texts.draw(),
        vec![text("Robot Energy : ...", 62_720, 0, 100), text("...", 1000, 3000, 100)]
    );
    texts.update_energy(873);
    texts.update_rizz("looking for water".to_string());
    assert_eq!(texts.energy_text(), "Robot Energy : 873");
    assert_eq!(texts.rizzler_text(), "looking for water");
    assert_eq!(
        texts.draw(),
        vec![text("Robot Energy : 873", 62_720, 0, 100), text("looking for water", 1000, 3000, 100)]
    );
    texts.update_energy(0);
    assert_eq!(texts.energy_text(), "Robot Energy : 0");
    assert_eq!(texts.rizzler_text(), "looking for water");
    assert_eq!(62_720.0 / 100.0, 800.0 / 1.25 - 64.0 * 0.2);
}

#[test]
fn an_empty_backpack_draws_nothing() {
    let backpack = VisBackPack::new(16);
    assert_eq!(backpack.size(), 16);
    assert_eq!(backpack.contents().len(), 0);
    assert_eq!(backpack.draw((0, 0), 0), Vec::new());
}

#[test]
fn filled_slots_come_first_and_empty_frames_after_them() {
    let mut inventory = Inventory::new();
    inventory.insert(Content::Rock, 2);
    inventory.insert(Content::Tree, 0);
    inventory.insert(Content::Coin, 15);
    inventory.insert(Content::Fish, 0);
    let mut backpack = VisBackPack::new(16);
    backpack.update(inventory);
    assert_eq!(backpack.size(), 4);
    assert_eq!(DIFF, 12);
    let expected = vec![
        sprite(TextureKey::BackpackSlot, None, 0, 0, 50),
        sprite(TextureKey::Contentset(0), cell(0, 0), 12, 12, 38),
        text("2", 0, 0, 100),
        sprite(TextureKey::BackpackSlot, None, 3200, 0, 50),
        sprite(TextureKey::Contentset(0), cell(0, 64), 3212, 12, 38),
        text("15", 3200, 0, 100),
        sprite(TextureKey::BackpackSlot, None, 6400, 0, 50),
        sprite(TextureKey::BackpackSlot, None, 9600, 0, 50),
    ];
    assert_eq!(backpack.draw((0, 0), 0), expected);
}

#[test]
fn the_panel_can_be_drawn_elsewhere() {
    let mut inventory = Inventory::new();
    inventory.insert(Content::Garbage, 0);
    inventory.insert(Content::Bush, 7);
    let mut backpack = VisBackPack::new(16);
    backpack.update(inventory);
    let expected = vec![
        sprite(TextureKey::BackpackSlot, None, 200, 500, 50),
        sprite(TextureKey::Contentset(3), cell(192, 128), 100 + 112 + 100, 500 + 112, 38),
        text("7", 200, 500, 100),
        sprite(TextureKey::BackpackSlot, None, 100 + 3200 + 100, 500, 50),
    ];
    assert_eq!(backpack.draw((100, 500), 3), expected);
}

#[test]
fn a_new_inventory_takes_the_place_of_the_old() {
    let mut first = Inventory::new();
    first.insert(Content::Rock, 2);
    first.insert(Content::Tree, 3);
    let mut second = Inventory::new();
    second.insert(Content::Coin, 1);
    let mut backpack = VisBackPack::new(16);
    backpack.update(first);
    assert_eq!(backpack.contents().len(), 2);
    backpack.update(second);
    assert_eq!(backpack.size(), 1);
    assert_eq!(backpack.contents().len(), 1);
    assert_eq!(backpack.contents().entry(0), Some((Content::Coin, 1)));
    assert_eq!(backpack.contents().get(Content::Rock), None);
    assert_eq!(backpack.contents().get(Content::Tree), None);
}
