//! The focus state machine: which panel currently receives directional input.
//!
//! The panels are laid out two-dimensionally — the tab bar on top, the table
//! and operation panels stacked in a left column, the item panel as a full
//! right column — and an arrow key moves the focus between neighbouring
//! panels. `next_focus` is the complete transition table; every arrow/panel
//! pair that has no neighbour in that direction is a self-loop.

use vstd::prelude::*;

verus! {

/// The panel that currently receives directional input.
#[derive(Clone, Copy, Debug, PartialEq, Eq, Structural)]
pub enum Mode {
    FocusOnTab,
    FocusOnTable,
    FocusOnOperation,
    FocusOnItem,
}

/// A directional key, as the event loop hands it to the state machine.
#[derive(Clone, Copy, Debug, PartialEq, Eq, Structural)]
pub enum ArrowKey {
    Up,
    Down,
    Left,
    Right,
}

/// The transition table of the focus machine: the panel that receives focus
/// when `key` is pressed while `mode` is focused and no panel has been
/// entered. Cells that keep the focus where it is are self-loops.
pub open spec fn next_focus(mode: Mode, key: ArrowKey) -> Mode {
    match (mode, key) {
        (Mode::FocusOnTab, ArrowKey::Up) => Mode::FocusOnTab,
        (Mode::FocusOnTab, ArrowKey::Down) => Mode::FocusOnTable,
        (Mode::FocusOnTab, ArrowKey::Left) => Mode::FocusOnTab,
        (Mode::FocusOnTab, ArrowKey::Right) => Mode::FocusOnItem,
        (Mode::FocusOnTable, ArrowKey::Up) => Mode::FocusOnTab,
        (Mode::FocusOnTable, ArrowKey::Down) => Mode::FocusOnOperation,
        (Mode::FocusOnTable, ArrowKey::Left) => Mode::FocusOnTable,
        (Mode::FocusOnTable, ArrowKey::Right) => Mode::FocusOnItem,
        (Mode::FocusOnOperation, ArrowKey::Up) => Mode::FocusOnTable,
        (Mode::FocusOnOperation, ArrowKey::Down) => Mode::FocusOnOperation,
        (Mode::FocusOnOperation, ArrowKey::Left) => Mode::FocusOnOperation,
        (Mode::FocusOnOperation, ArrowKey::Right) => Mode::FocusOnItem,
        (Mode::FocusOnItem, ArrowKey::Up) => Mode::FocusOnItem,
        (Mode::FocusOnItem, ArrowKey::Down) => Mode::FocusOnItem,
        (Mode::FocusOnItem, ArrowKey::Left) => Mode::FocusOnTable,
        (Mode::FocusOnItem, ArrowKey::Right) => Mode::FocusOnItem,
    }
}

/// Holds the current focus and applies directional transitions.
pub struct ModeState {
    pub mode: Mode,
}

impl ModeState {
    /// A fresh machine; the tab bar is focused first.
    pub fn new() -> (r: ModeState)
        ensures
            r.mode == Mode::FocusOnTab,
    {
        ModeState { mode: Mode::FocusOnTab }
    }

    /// Applies one step of the transition table.
    pub fn on_arrow_key(&mut self, key: ArrowKey)
        ensures
            final(self).mode == next_focus(old(self).mode, key),
    {
        match (self.mode, key) {
            (Mode::FocusOnTab, ArrowKey::Up) => {}
            (Mode::FocusOnTab, ArrowKey::Down) => self.mode = Mode::FocusOnTable,
            (Mode::FocusOnTab, ArrowKey::Left) => {}
            (Mode::FocusOnTab, ArrowKey::Right) => self.mode = Mode::FocusOnItem,
            (Mode::FocusOnTable, ArrowKey::Up) => self.mode = Mode::FocusOnTab,
            (Mode::FocusOnTable, ArrowKey::Down) => self.mode = Mode::FocusOnOperation,
            (Mode::FocusOnTable, ArrowKey::Left) => {}
            (Mode::FocusOnTable, ArrowKey::Right) => self.mode = Mode::FocusOnItem,
            (Mode::FocusOnOperation, ArrowKey::Up) => self.mode = Mode::FocusOnTable,
            (Mode::FocusOnOperation, ArrowKey::Down) => {}
            (Mode::FocusOnOperation, ArrowKey::Left) => {}
            (Mode::FocusOnOperation, ArrowKey::Right) => self.mode = Mode::FocusOnItem,
            (Mode::FocusOnItem, ArrowKey::Up) => {}
            (Mode::FocusOnItem, ArrowKey::Down) => {}
            (Mode::FocusOnItem, ArrowKey::Left) => self.mode = Mode::FocusOnTable,
            (Mode::FocusOnItem, ArrowKey::Right) => {}
        }
    }

    pub fn on_up(&mut self)
        ensures
            final(self).mode == next_focus(old(self).mode, ArrowKey::Up),
    {
        self.on_arrow_key(ArrowKey::Up)
    }

    pub fn on_down(&mut self)
        ensures
            final(self).mode == next_focus(old(self).mode, ArrowKey::Down),
    {
        self.on_arrow_key(ArrowKey::Down)
    }

    pub fn on_left(&mut self)
        ensures
            final(self).mode == next_focus(old(self).mode, ArrowKey::Left),
    {
        self.on_arrow_key(ArrowKey::Left)
    }

    pub fn on_right(&mut self)
        ensures
            final(self).mode == next_focus(old(self).mode, ArrowKey::Right),
    {
        self.on_arrow_key(ArrowKey::Right)
    }

    /// Character keys carry no meaning for the focus machine: a no-op.
    pub fn on_key(&mut self, c: char)
        ensures
            *final(self) == *old(self),
    {
    }
}

} // verus!
