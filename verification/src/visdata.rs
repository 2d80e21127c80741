//! What the simulation sends to the viewer: one message for each update.

use vstd::prelude::*;
use crate::inventory::Inventory;
use crate::tile::{Content, Tile, WeatherType};
use crate::vismap::rows_of;

verus! {

/// One update: the robot's energy and position, and whatever else is new.
pub struct VisData {
    pub recv_energy: usize,
    pub recv_coordinates: (usize, usize),
    pub recv_discovered_tiles: Option<Vec<Vec<Option<Tile>>>>,
    pub recv_backpack: Option<Inventory>,
    pub recv_weather: Option<WeatherType>,
    pub recv_rizz_text: Option<String>,
}

/// What a message is, to contracts.
pub struct DataView {
    /// The robot's energy.
    pub energy: nat,
    /// Row and column of the robot.
    pub coordinates: (usize, usize),
    /// The rows of the patch seen around the robot, if one is sent.
    pub discovered_tiles: Option<Seq<Seq<Option<Tile>>>>,
    /// The entries of the inventory, if one is sent.
    pub backpack: Option<Seq<(Content, usize)>>,
    /// The weather, if it is sent.
    pub weather: Option<WeatherType>,
    /// The status line, if one is sent.
    pub rizz_text: Option<Seq<char>>,
}

impl View for VisData {
    type V = DataView;

    open spec fn view(&self) -> DataView {
        DataView {
            energy: self.recv_energy as nat,
            coordinates: self.recv_coordinates,
            discovered_tiles: match self.recv_discovered_tiles {
                Some(tiles) => Some(rows_of(tiles)),
                None => None,
            },
            backpack: match self.recv_backpack {
                Some(backpack) => Some(backpack@),
                None => None,
            },
            weather: self.recv_weather,
            rizz_text: match self.recv_rizz_text {
                Some(text) => Some(text@),
                None => None,
            },
        }
    }
}

impl VisData {
    /// A message that holds all that is given.
    pub fn new(
        energy: usize,
        coordinates: (usize, usize),
        discovered_tiles: Option<Vec<Vec<Option<Tile>>>>,
        backpack: Option<Inventory>,
        weather_type: Option<WeatherType>,
        rizz_text: Option<String>,
    ) -> (data: VisData)
        ensures
            data.recv_energy == energy,
            data.recv_coordinates == coordinates,
            data.recv_discovered_tiles == discovered_tiles,
            data.recv_backpack == backpack,
            data.recv_weather == weather_type,
            data.recv_rizz_text == rizz_text,
    {
        VisData {
            recv_energy: energy,
            recv_coordinates: coordinates,
            recv_discovered_tiles: discovered_tiles,
            recv_backpack: backpack,
            recv_weather: weather_type,
            recv_rizz_text: rizz_text,
        }
    }

    /// A message with the energy and the position only.
    pub fn new_energy(energy: usize, coordinates: (usize, usize)) -> (data: VisData)
        ensures
            data.recv_energy == energy,
            data.recv_coordinates == coordinates,
            data.recv_discovered_tiles is None,
            data.recv_backpack is None,
            data.recv_weather is None,
            data.recv_rizz_text is None,
    {
        VisData {
            recv_energy: energy,
            recv_coordinates: coordinates,
            recv_discovered_tiles: None,
            recv_backpack: None,
            recv_weather: None,
            recv_rizz_text: None,
        }
    }

    /// A message with the energy, the position and a patch seen around it.
    pub fn new_discover(
        energy: usize,
        coordinates: (usize, usize),
        discovered_tiles: Vec<Vec<Option<Tile>>>,
    ) -> (data: VisData)
        ensures
            data.recv_energy == energy,
            data.recv_coordinates == coordinates,
            data.recv_discovered_tiles == Some(discovered_tiles),
            data.recv_backpack is None,
            data.recv_weather is None,
            data.recv_rizz_text is None,
    {
        VisData {
            recv_energy: energy,
            recv_coordinates: coordinates,
            recv_discovered_tiles: Some(discovered_tiles),
            recv_backpack: None,
            recv_weather: None,
            recv_rizz_text: None,
        }
    }

    /// A message with the energy, the position and an inventory.
    pub fn new_backpack(energy: usize, coordinates: (usize, usize), backpack: Inventory) -> (data:
        VisData)
        ensures
            data.recv_energy == energy,
            data.recv_coordinates == coordinates,
            data.recv_discovered_tiles is None,
            data.recv_backpack == Some(backpack),
            data.recv_weather is None,
            data.recv_rizz_text is None,
    {
        VisData {
            recv_energy: energy,
            recv_coordinates: coordinates,
            recv_discovered_tiles: None,
            recv_backpack: Some(backpack),
            recv_weather: None,
            recv_rizz_text: None,
        }
    }

    /// A message with the energy, the position and the weather.
    pub fn new_weather(energy: usize, coordinates: (usize, usize), weather_type: WeatherType) -> (data:
        VisData)
        ensures
            data.recv_energy == energy,
            data.recv_coordinates == coordinates,
            data.recv_discovered_tiles is None,
            data.recv_backpack is None,
            data.recv_weather == Some(weather_type),
            data.recv_rizz_text is None,
    {
        VisData {
            recv_energy: energy,
            recv_coordinates: coordinates,
            recv_discovered_tiles: None,
            recv_backpack: None,
            recv_weather: Some(weather_type),
            recv_rizz_text: None,
        }
    }

    /// A message with the energy, the position and a status line.
    pub fn new_rizzler(energy: usize, coordinate: (usize, usize), rizz_text: String) -> (data:
        VisData)
        ensures
            data.recv_energy == energy,
            data.recv_coordinates == coordinate,
            data.recv_discovered_tiles is None,
            data.recv_backpack is None,
            data.recv_weather is None,
            data.recv_rizz_text == Some(rizz_text),
    {
        VisData {
            recv_energy: energy,
            recv_coordinates: coordinate,
            recv_discovered_tiles: None,
            recv_backpack: None,
            recv_weather: None,
            recv_rizz_text: Some(rizz_text),
        }
    }
}

} // verus!
