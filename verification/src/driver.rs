//! The viewer: what it shows, and what one frame does to it.

use vstd::prelude::*;
use std::sync::mpsc::Receiver;
use crate::camera::{
    initial_camera, panned, quarter_step, tile_step, zoomed, Camera, CameraView, PIXEL,
};
use crate::channel::try_receive;
use crate::draw::{lemma_ops_of_add, lemma_ops_of_push, ops_of, DrawCommand, DrawOp};
use crate::input::{hold_direction, hold_of, tap_action, tap_of, Key, TapAction};
use crate::inventory::Inventory;
use crate::tile::{Content, Tile, WeatherType};
use crate::visbackpack::{backpack_ops, BackpackView, VisBackPack};
use crate::visdata::{DataView, VisData};
use crate::visenergy::{energy_line, texts_ops, TextsView, VisEnergy};
use crate::vismap::{
    initial_map, map_ops, rows_of, update_result, updated, MapView, PatchError, VisMap,
};

verus! {

/// What a viewer is, to contracts: all that it shows.
pub struct VisualizerView {
    /// The style of the tiles.
    pub style: usize,
    /// The map.
    pub map: MapView,
    /// The texts.
    pub texts: TextsView,
    /// The backpack panel.
    pub backpack: BackpackView,
    /// Whether the backpack panel is shown.
    pub show_backpack: bool,
    /// The camera.
    pub camera: CameraView,
}

/// What a frame did with the channel.
#[derive(Clone, Copy, Debug, PartialEq, Eq, Structural)]
pub struct FrameReport {
    /// Whether a message was taken.
    pub received: bool,
    /// Whether the message held a patch that was turned away for its shape.
    pub rejected_patch: bool,
    /// The number of cells that the message's patch left unknown for want of a tile.
    pub gaps: usize,
}

/// The report of a frame that took no message.
pub open spec fn no_report() -> FrameReport {
    FrameReport { received: false, rejected_patch: false, gaps: 0 }
}

/// The map after a message: the robot is where the message says, the patch, if
/// one is sent and has the right shape, is merged around that place, and the
/// weather, if it is sent, takes the place of the old.
pub open spec fn applied_map(map: MapView, data: DataView) -> MapView {
    MapView {
        grid: match data.discovered_tiles {
            Some(patch) => updated(map.grid, data.coordinates, patch),
            None => map.grid,
        },
        size: map.size,
        position: data.coordinates,
        weather: match data.weather {
            Some(weather) => weather,
            None => map.weather,
        },
    }
}

/// What a viewer shows after a message: the energy and the position are the
/// message's; the patch is merged into the map; inventory, weather and status
/// line take the place of the old where the message holds them.
pub open spec fn applied(state: VisualizerView, data: DataView) -> VisualizerView {
    VisualizerView {
        style: state.style,
        map: applied_map(state.map, data),
        texts: TextsView {
            energy_text: energy_line(data.energy),
            rizzler_text: match data.rizz_text {
                Some(text) => text,
                None => state.texts.rizzler_text,
            },
        },
        backpack: match data.backpack {
            Some(contents) => BackpackView { size: contents.len(), contents },
            None => state.backpack,
        },
        show_backpack: state.show_backpack,
        camera: state.camera,
    }
}

/// The last message wins: after two messages the energy and the position are
/// those of the second, and so are the inventory, the weather and the status
/// line where the second holds them; nothing of the first is left in them.
pub proof fn lemma_last_observation_wins(state: VisualizerView, first: DataView, second: DataView)
    ensures
        applied(applied(state, first), second).texts.energy_text == energy_line(second.energy),
        applied(applied(state, first), second).map.position == second.coordinates,
        second.backpack is Some ==> applied(applied(state, first), second).backpack == (
        BackpackView { size: second.backpack->0.len(), contents: second.backpack->0 }),
        second.weather is Some ==> applied(applied(state, first), second).map.weather
            == second.weather->0,
        second.rizz_text is Some ==> applied(applied(state, first), second).texts.rizzler_text
            == second.rizz_text->0,
{
}

/// Messages only add to the map: a cell that is known keeps its tile through
/// every message.
pub proof fn lemma_messages_keep_known_cells(
    state: VisualizerView,
    data: DataView,
    row: int,
    col: int,
)
    requires
        0 <= row < state.map.grid.len(),
        0 <= col < state.map.grid[row].len(),
        state.map.grid[row][col] is Some,
    ensures
        applied(state, data).map.grid[row][col] == state.map.grid[row][col],
{
}

/// The report of a frame that took `data` while the viewer showed `state`.
pub open spec fn report_of(state: VisualizerView, data: DataView) -> FrameReport {
    match data.discovered_tiles {
        Some(patch) => match update_result(state.map.grid, data.coordinates, patch) {
            Ok(gaps) => FrameReport { received: true, rejected_patch: false, gaps },
            Err(_) => FrameReport { received: true, rejected_patch: true, gaps: 0 },
        },
        None => FrameReport { received: true, rejected_patch: false, gaps: 0 },
    }
}

/// What a viewer shows after a tap.
pub open spec fn tapped(state: VisualizerView, action: TapAction) -> VisualizerView {
    match action {
        TapAction::Pan(direction) => VisualizerView {
            camera: panned(state.camera, direction, tile_step(state.camera.scale)),
            ..state
        },
        TapAction::ToggleBackpack => VisualizerView {
            show_backpack: !state.show_backpack,
            ..state
        },
        TapAction::Zoom(delta) => VisualizerView {
            camera: zoomed(state.camera, delta as int),
            ..state
        },
        TapAction::Style(style) => VisualizerView { style, ..state },
        TapAction::Ignore => state,
    }
}

/// What a viewer shows after the keys of one frame: `pressed` is a key that
/// went down in this frame, `down` a key that is down. Without a tap nothing
/// happens. With one, the tap is carried out first; then a key that is down and
/// moves the map moves it by a quarter of the side that a tile had before the tap.
pub open spec fn after_keys(
    state: VisualizerView,
    pressed: Option<Key>,
    down: Option<Key>,
) -> VisualizerView {
    match pressed {
        None => state,
        Some(key) => {
            let after_tap = tapped(state, tap_of(key));
            match down {
                None => after_tap,
                Some(held) => match hold_of(held) {
                    None => after_tap,
                    Some(direction) => VisualizerView {
                        camera: panned(
                            after_tap.camera,
                            direction,
                            quarter_step(state.camera.scale),
                        ),
                        ..after_tap
                    },
                },
            }
        },
    }
}

/// What is drawn for a viewer: the cleared window, the map, the texts and, where
/// it is shown, the backpack panel in the window's top left corner.
pub open spec fn frame_ops(state: VisualizerView) -> Seq<DrawOp> {
    let base = seq![DrawOp::Clear] + map_ops(state.map, state.camera, state.style) + texts_ops(
        state.texts,
    );
    if state.show_backpack {
        base + backpack_ops(state.backpack.contents, (0, 0), state.style)
    } else {
        base
    }
}

/// The viewer: the map, the texts, the backpack and the camera, with the
/// channel on which news of them comes.
pub struct Visualizer {
    style: usize,
    map: VisMap,
    texts: VisEnergy,
    backpack: VisBackPack,
    receiver: Receiver<VisData>,
    show_backpack: bool,
    camera: Camera,
}

impl View for Visualizer {
    type V = VisualizerView;

    closed spec fn view(&self) -> VisualizerView {
        VisualizerView {
            style: self.style,
            map: self.map@,
            texts: self.texts@,
            backpack: self.backpack@,
            show_backpack: self.show_backpack,
            camera: self.camera@,
        }
    }
}

impl Visualizer {
    /// A viewer of a world of `size` rows of `size` cells that listens on `receiver`.
    pub fn new(size: usize, receiver: Receiver<VisData>) -> (vis: Visualizer)
        ensures
            vis@.style == 0,
            vis@.map == initial_map(size as nat),
            vis@.texts.energy_text == "Robot Energy : ..."@,
            vis@.texts.rizzler_text == "..."@,
            vis@.backpack.size == 16,
            vis@.backpack.contents == Seq::<(Content, usize)>::empty(),
            vis@.show_backpack,
            vis@.camera == initial_camera(),
    {
        Visualizer {
            style: 0,
            map: VisMap::new(size),
            texts: VisEnergy::new(),
            backpack: VisBackPack::new(16),
            receiver,
            show_backpack: true,
            camera: Camera::new(),
        }
    }

    /// The style of the tiles.
    pub fn style(&self) -> (style: usize)
        ensures
            style == self@.style,
    {
        self.style
    }

    /// Whether the backpack panel is shown.
    pub fn show_backpack(&self) -> (shown: bool)
        ensures
            shown == self@.show_backpack,
    {
        self.show_backpack
    }

    /// The map.
    pub fn map(&self) -> (map: &VisMap)
        ensures
            map@ == self@.map,
    {
        &self.map
    }

    /// The texts.
    pub fn texts(&self) -> (texts: &VisEnergy)
        ensures
            texts@ == self@.texts,
    {
        &self.texts
    }

    /// The backpack panel.
    pub fn backpack(&self) -> (backpack: &VisBackPack)
        ensures
            backpack@ == self@.backpack,
    {
        &self.backpack
    }

    /// The camera.
    pub fn camera(&self) -> (camera: &Camera)
        ensures
            camera@ == self@.camera,
    {
        &self.camera
    }

    /// Merges a patch around the robot's position into the map, as `VisMap::update_map` does.
    pub fn update_map(&mut self, new_discovered: Vec<Vec<Option<Tile>>>) -> (r: Result<
        usize,
        PatchError,
    >)
        ensures
            final(self)@ == (VisualizerView {
                map: MapView {
                    grid: updated(
                        old(self)@.map.grid,
                        old(self)@.map.position,
                        rows_of(new_discovered),
                    ),
                    ..old(self)@.map
                },
                ..old(self)@
            }),
            r == update_result(
                old(self)@.map.grid,
                old(self)@.map.position,
                rows_of(new_discovered),
            ),
    {
        self.map.update_map(new_discovered)
    }

    /// Moves the robot to `new_pos`.
    pub fn update_robot_pos(&mut self, new_pos: (usize, usize))
        ensures
            final(self)@ == (VisualizerView {
                map: MapView { position: new_pos, ..old(self)@.map },
                ..old(self)@
            }),
    {
        self.map.update_robot_pos(new_pos)
    }

    /// Replaces the energy line by the line for `energy`.
    pub fn update_energy(&mut self, energy: usize)
        ensures
            final(self)@ == (VisualizerView {
                texts: TextsView { energy_text: energy_line(energy as nat), ..old(self)@.texts },
                ..old(self)@
            }),
    {
        self.texts.update_energy(energy)
    }

    /// Replaces the inventory that the backpack panel shows.
    pub fn update_backpack(&mut self, backpack: Inventory)
        ensures
            final(self)@ == (VisualizerView {
                backpack: BackpackView { size: backpack@.len(), contents: backpack@ },
                ..old(self)@
            }),
    {
        self.backpack.update(backpack);
    }

    /// Replaces the weather.
    pub fn update_weather(&mut self, weather_type: WeatherType)
        ensures
            final(self)@ == (VisualizerView {
                map: MapView { weather: weather_type, ..old(self)@.map },
                ..old(self)@
            }),
    {
        self.map.update_weather(weather_type);
    }

    /// Replaces the status line.
    pub fn update_rizz(&mut self, rizz: String)
        ensures
            final(self)@ == (VisualizerView {
                texts: TextsView { rizzler_text: rizz@, ..old(self)@.texts },
                ..old(self)@
            }),
    {
        self.texts.update_rizz(rizz);
    }

    /// Takes in one message: the energy and the position always, and the patch,
    /// the inventory, the weather and the status line where the message holds them.
    /// The patch is merged around the position that the same message tells.
    pub fn apply(&mut self, data: VisData) -> (report: FrameReport)
        ensures
            final(self)@ == applied(old(self)@, data@),
            report == report_of(old(self)@, data@),
    {
        let mut report = FrameReport { received: true, rejected_patch: false, gaps: 0 };
        self.update_energy(data.recv_energy);
        self.update_robot_pos(data.recv_coordinates);
        if let Some(view) = data.recv_discovered_tiles {
            match self.update_map(view) {
                Ok(gaps) => {
                    report.gaps = gaps;
                },
                Err(_) => {
                    report.rejected_patch = true;
                },
            }
        }
        if let Some(backp) = data.recv_backpack {
            self.update_backpack(backp)
        }
        if let Some(w) = data.recv_weather {
            self.update_weather(w)
        }
        if let Some(s) = data.recv_rizz_text {
            self.update_rizz(s)
        }
        report
    }

    /// Carries out the keys of one frame: `pressed` is a key that went down in
    /// this frame, `down` a key that is down.
    pub fn handle_keys(&mut self, pressed: Option<Key>, down: Option<Key>)
        ensures
            final(self)@ == after_keys(old(self)@, pressed, down),
    {
        let scale = self.camera.scale();
        if let Some(key) = pressed {
            match tap_action(key) {
                TapAction::Pan(direction) => {
                    self.camera.apply_pan(direction, false);
                },
                TapAction::ToggleBackpack => {
                    self.show_backpack = !self.show_backpack;
                },
                TapAction::Zoom(delta) => {
                    self.camera.apply_zoom(delta);
                },
                TapAction::Style(style) => {
                    self.style = style;
                },
                TapAction::Ignore => {},
            }
            if let Some(held) = down {
                if let Some(direction) = hold_direction(held) {
                    self.camera.pan_by(direction, PIXEL * scale / 4);
                }
            }
        }
    }

    /// One frame: takes at most one message from the channel, without waiting
    /// for one, and takes it in; then carries out the keys.
    pub fn update(&mut self, pressed: Option<Key>, down: Option<Key>) -> (report: FrameReport)
        ensures
            !report.received ==> report == no_report() && final(self)@ == after_keys(
                old(self)@,
                pressed,
                down,
            ),
            report.received ==> exists|data: DataView|
                report == report_of(old(self)@, data) && final(self)@ == after_keys(
                    #[trigger] applied(old(self)@, data),
                    pressed,
                    down,
                ),
    {
        let report = match try_receive(&self.receiver) {
            Some(data) => {
                let ghost taken = data@;
                let report = self.apply(data);
                assert(self@ == applied(old(self)@, taken));
                report
            },
            None => FrameReport { received: false, rejected_patch: false, gaps: 0 },
        };
        self.handle_keys(pressed, down);
        report
    }

    /// The commands that draw one frame.
    pub fn draw(&self) -> (commands: Vec<DrawCommand>)
        ensures
            ops_of(commands@) == frame_ops(self@),
    {
        let mut commands: Vec<DrawCommand> = Vec::new();
        proof {
            lemma_ops_of_push(commands@, DrawCommand::Clear);
        }
        commands.push(DrawCommand::Clear);
        assert(ops_of(commands@) =~= seq![DrawOp::Clear]);
        let mut map_commands = self.map.new_draw(&self.camera, self.style);
        proof {
            lemma_ops_of_add(commands@, map_commands@);
        }
        commands.append(&mut map_commands);
        let mut text_commands = self.texts.draw();
        proof {
            lemma_ops_of_add(commands@, text_commands@);
        }
        commands.append(&mut text_commands);
        if self.show_backpack {
            let mut panel = self.backpack.draw((0, 0), self.style);
            proof {
                lemma_ops_of_add(commands@, panel@);
            }
            commands.append(&mut panel);
        }
        commands
    }
}

} // verus!
