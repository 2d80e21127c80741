//! The two lines of text above the map: the robot's energy and its status.

use vstd::prelude::*;
use crate::camera::{PIXEL, SCALE};
use crate::draw::{ops_of, DrawCommand, DrawOp};
use crate::text::{decimal, decimal_string};
use crate::WINDOW_WIDTH;

verus! {

/// What the texts are, to contracts.
pub struct TextsView {
    /// The line that tells the robot's energy.
    pub energy_text: Seq<char>,
    /// The line that tells the robot's status.
    pub rizzler_text: Seq<char>,
}

/// The line that tells an energy of `energy`.
pub open spec fn energy_line(energy: nat) -> Seq<char> {
    "Robot Energy : "@ + decimal(energy)
}

/// Where the energy line starts, in hundredths of a pixel from the left: four
/// fifths of the window's width, less the side of a tile at the starting scale.
pub open spec fn energy_x() -> int {
    WINDOW_WIDTH * 100 * 4 / 5 - PIXEL * SCALE
}

/// What is drawn for the texts: the energy line at the top, the status line
/// below it on the left.
pub open spec fn texts_ops(texts: TextsView) -> Seq<DrawOp> {
    seq![
        DrawOp::Text { content: texts.energy_text, x: energy_x(), y: 0, scale: 100 },
        DrawOp::Text { content: texts.rizzler_text, x: 1000, y: 3000, scale: 100 },
    ]
}

/// The robot's energy and status as lines of text.
pub struct VisEnergy {
    energy_text: String,
    rizzler_text: String,
}

impl View for VisEnergy {
    type V = TextsView;

    closed spec fn view(&self) -> TextsView {
        TextsView { energy_text: self.energy_text@, rizzler_text: self.rizzler_text@ }
    }
}

impl VisEnergy {
    /// The texts before anything was reported: dots in the place of the energy
    /// and of the status.
    pub fn new() -> (texts: VisEnergy)
        ensures
            texts@.energy_text == "Robot Energy : ..."@,
            texts@.rizzler_text == "..."@,
    {
        VisEnergy {
            energy_text: String::from_str("Robot Energy : ..."),
            rizzler_text: String::from_str("..."),
        }
    }

    /// The line that tells the robot's energy.
    pub fn energy_text(&self) -> (text: String)
        ensures
            text@ == self@.energy_text,
    {
        self.energy_text.clone()
    }

    /// The line that tells the robot's status.
    pub fn rizzler_text(&self) -> (text: String)
        ensures
            text@ == self@.rizzler_text,
    {
        self.rizzler_text.clone()
    }

    /// The commands that write the two lines.
    pub fn draw(&self) -> (commands: Vec<DrawCommand>)
        ensures
            ops_of(commands@) == texts_ops(self@),
    {
        let mut commands: Vec<DrawCommand> = Vec::new();
        commands.push(
            DrawCommand::Text {
                content: self.energy_text.clone(),
                x: (WINDOW_WIDTH as i64) * 100 * 4 / 5 - PIXEL * SCALE,
                y: 0,
                scale: 100,
            },
        );
        commands.push(
            DrawCommand::Text { content: self.rizzler_text.clone(), x: 1000, y: 3000, scale: 100 },
        );
        assert(ops_of(commands@) =~= texts_ops(self@));
        commands
    }

    /// Replaces the energy line by the line for `new_energy`.
    pub fn update_energy(&mut self, new_energy: usize)
        ensures
            final(self)@.energy_text == energy_line(new_energy as nat),
            final(self)@.rizzler_text == old(self)@.rizzler_text,
    {
        let mut line = String::from_str("Robot Energy : ");
        let digits = decimal_string(new_energy);
        line.append(digits.as_str());
        self.energy_text = line;
    }

    /// Replaces the status line by `new_rizz`.
    pub fn update_rizz(&mut self, new_rizz: String)
        ensures
            final(self)@.rizzler_text == new_rizz@,
            final(self)@.energy_text == old(self)@.energy_text,
    {
        self.rizzler_text = new_rizz;
    }
}

} // verus!
