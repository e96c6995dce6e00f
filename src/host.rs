use vstd::prelude::*;

verus! {

/// The page a front end shows.
#[derive(PartialEq, Eq, Structural, Clone, Copy, Debug)]
pub enum Tab {
    Main,
    Memory,
    Help,
}

/// Whether the front end's input line is being edited.
#[derive(PartialEq, Eq, Structural, Clone, Copy, Debug)]
pub enum InputMode {
    Normal,
    Editing,
}

/// A message inside the front end.
#[derive(Debug)]
pub enum Message {
    ButtonPressed(String),
}

/// The front end's input line.
#[derive(Debug)]
pub struct InputState {
    pub mode: InputMode,
    pub value: String,
    pub cursor_position: u16,
}

impl Tab {
    /// The page shown after the help key: help, or back to the main page
    /// from help.
    pub fn toggle_help(self) -> (r: Tab)
        ensures
            r == (if self == Tab::Help { Tab::Main } else { Tab::Help }),
    {
        match self {
            Tab::Help => Tab::Main,
            _ => Tab::Help,
        }
    }

    /// The page shown after the memory key: memory from the main page, the
    /// main page from anywhere else.
    pub fn toggle_memory(self) -> (r: Tab)
        ensures
            r == (if self == Tab::Main { Tab::Memory } else { Tab::Main }),
    {
        match self {
            Tab::Main => Tab::Memory,
            _ => Tab::Main,
        }
    }
}

} // verus!
