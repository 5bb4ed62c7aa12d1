//! What the game asks of a display and what it hears from a keyboard.
//!
//! The game draws nothing itself. A frame is a list of `Draw` commands, to be
//! carried out in order by whoever owns the screen.

use vstd::prelude::*;

verus! {

/// The colours the game paints with.
#[derive(Clone, Copy, Debug, PartialEq, Eq, Structural)]
pub enum Color {
    Black,
    Navy,
    Red,
    Yellow,
}

/// The lines of text the game shows. The wording is the display's business.
#[derive(Clone, Copy, Debug, PartialEq, Eq, Structural)]
pub enum Text {
    /// Title of the menu.
    Welcome,
    /// Menu entry that starts a run.
    Play,
    /// Menu entry that leaves the game.
    Quit,
    /// Title of the screen after a run.
    GameOver,
    /// The score a run ended with.
    FinalScore(i32),
    /// Entry of the end screen that starts the next run.
    PlayAgain,
    /// Reminder of the flap key, shown during a run.
    FlapHint,
    /// The score so far, shown during a run.
    Score(i32),
}

/// One request to the display.
#[derive(Clone, Copy, Debug, PartialEq, Eq, Structural)]
pub enum Draw {
    /// Clear the screen to the default background.
    Clear,
    /// Clear the screen to a background colour.
    Fill(Color),
    /// Put one glyph into one cell.
    Glyph { column: i32, row: i32, glyph: char, fg: Color, bg: Color },
    /// Print a line of text starting at a cell.
    Print { column: i32, row: i32, text: Text },
    /// Print a line of text centred in a row.
    PrintCentered { row: i32, text: Text },
}

/// The keys the game tells apart.
#[derive(Clone, Copy, Debug, PartialEq, Eq, Structural)]
pub enum Key {
    /// Starts a run from the menu or the end screen.
    Play,
    /// Leaves the game from the menu or the end screen.
    Quit,
    /// Flaps during a run.
    Flap,
    /// Any other key; it has no effect.
    Other,
}

} // verus!
