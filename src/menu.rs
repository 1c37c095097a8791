//! The state of the main menu: the choices made so far, undone one at a
//! time by going back.
use vstd::prelude::*;

verus! {

#[derive(Clone, Copy, Debug, PartialEq, Eq, Structural)]
pub enum GameMode {
    SinglePlayer,
    Multiplayer,
}

#[derive(Clone, Copy, Debug, PartialEq, Eq, Structural)]
pub enum CharacterSelection {
    Character1,
    Character2,
    Character3,
}

/// The menu's choices: mode, then character, then (in multiplayer) connect,
/// then the map.
pub struct MenuState {
    pub game_mode: Option<GameMode>,
    pub character_selection: Option<CharacterSelection>,
    pub map_selection: Option<usize>,
    pub connect_pressed: bool,
}

impl MenuState {
    /// Nothing chosen yet.
    pub fn new() -> (r: Self)
        ensures
            r.game_mode is None,
            r.character_selection is None,
            r.map_selection is None,
            !r.connect_pressed,
    {
        MenuState {
            game_mode: None,
            character_selection: None,
            map_selection: None,
            connect_pressed: false,
        }
    }

    /// Undoes the latest choice: the map, else the connect, else the
    /// character, else the mode. With nothing chosen, changes nothing.
    pub fn back(&mut self)
        ensures
            if old(self).map_selection is Some {
                final(self).map_selection is None
                    && final(self).connect_pressed == old(self).connect_pressed
                    && final(self).character_selection == old(self).character_selection
                    && final(self).game_mode == old(self).game_mode
            } else if old(self).connect_pressed {
                final(self).map_selection is None
                    && !final(self).connect_pressed
                    && final(self).character_selection == old(self).character_selection
                    && final(self).game_mode == old(self).game_mode
            } else if old(self).character_selection is Some {
                final(self).map_selection is None
                    && !final(self).connect_pressed
                    && final(self).character_selection is None
                    && final(self).game_mode == old(self).game_mode
            } else {
                final(self).map_selection is None
                    && !final(self).connect_pressed
                    && final(self).character_selection is None
                    && final(self).game_mode is None
            },
    {
        if self.map_selection.is_some() {
            self.map_selection = None;
        } else if self.connect_pressed {
            self.connect_pressed = false;
        } else if self.character_selection.is_some() {
            self.character_selection = None;
        } else if self.game_mode.is_some() {
            self.game_mode = None;
        }
    }
}

} // verus!
