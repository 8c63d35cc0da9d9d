//! The application state and its key-event handlers.
//!
//! `App` aggregates the focus machine, the tab bar, the table panel's
//! selection list, an entered flag (`focus`) and a quit flag. Key events
//! mutate it through the `on_*` handlers and nothing else; a renderer reads
//! it between events. While `focus` is false an arrow key moves the focus
//! between panels; while it is true an arrow key acts inside the focused
//! panel — Up/Down scroll the table list, Left/Right switch tabs — and every
//! other panel/arrow pair is a no-op.

use vstd::prelude::*;

use crate::focus::{next_focus, ArrowKey, Mode, ModeState};
use crate::list::{step_next, step_previous, wrap_next, wrap_previous, StatefulList, TabsState};

verus! {

/// The whole semantic state of the dashboard.
pub struct App<'a> {
    pub title: &'a str,
    pub should_quit: bool,
    pub tabs: TabsState<'a>,
    pub mode: ModeState,
    pub focus: bool,
    pub tables: StatefulList<&'a str>,
}

impl<'a> App<'a> {
    /// Both selection states point inside their collections.
    pub open spec fn wf(&self) -> bool {
        &&& self.tabs.wf()
        &&& self.tables.wf()
    }

    /// The initial state: tab bar focused, nothing entered, nothing selected,
    /// quit flag clear, with the fixed tab labels and table names.
    pub fn new(title: &'a str) -> (r: App<'a>)
        ensures
            r.wf(),
            r.title == title,
            !r.should_quit,
            !r.focus,
            r.mode.mode == Mode::FocusOnTab,
            r.tabs.index == 0,
            r.tabs.titles@.len() == 2,
            r.tabs.titles@[0]@ == "Operation"@,
            r.tabs.titles@[1]@ == "History"@,
            r.tables.selected is None,
            r.tables.items@.len() == 9,
            r.tables.items@[0]@ == "Table1"@,
            r.tables.items@[1]@ == "Table2"@,
            r.tables.items@[2]@ == "Table3"@,
            r.tables.items@[3]@ == "Table4"@,
            r.tables.items@[4]@ == "Table5"@,
            r.tables.items@[5]@ == "Table6"@,
            r.tables.items@[6]@ == "Table7"@,
            r.tables.items@[7]@ == "Table8"@,
            r.tables.items@[8]@ == "Table9"@,
    {
        let titles: Vec<&'a str> = vec!["Operation", "History"];
        let table_names: Vec<&'a str> = vec![
            "Table1", "Table2", "Table3", "Table4", "Table5", "Table6", "Table7", "Table8",
            "Table9",
        ];
        App {
            title,
            should_quit: false,
            tabs: TabsState::new(titles),
            mode: ModeState::new(),
            focus: false,
            tables: StatefulList::with_items(table_names),
        }
    }

    /// Enter the focused panel: from now on arrows act inside it.
    pub fn on_enter(&mut self)
        ensures
            final(self).focus,
            final(self).title == old(self).title,
            final(self).should_quit == old(self).should_quit,
            final(self).mode == old(self).mode,
            final(self).tabs == old(self).tabs,
            final(self).tables == old(self).tables,
            old(self).wf() ==> final(self).wf(),
    {
        self.focus = true
    }

    /// Leave the panel: arrows move the focus between panels again.
    pub fn on_esc(&mut self)
        ensures
            !final(self).focus,
            final(self).title == old(self).title,
            final(self).should_quit == old(self).should_quit,
            final(self).mode == old(self).mode,
            final(self).tabs == old(self).tabs,
            final(self).tables == old(self).tables,
            old(self).wf() ==> final(self).wf(),
    {
        self.focus = false
    }

    /// Up: moves focus while nothing is entered; inside the table panel it
    /// scrolls the row selection one step back; inside any other panel it is
    /// a no-op.
    pub fn on_up(&mut self)
        ensures
            final(self).title == old(self).title,
            final(self).should_quit == old(self).should_quit,
            final(self).focus == old(self).focus,
            old(self).wf() ==> final(self).wf(),
            !old(self).focus ==> (final(self).mode.mode == next_focus(old(self).mode.mode, ArrowKey::Up)
                && final(self).tabs == old(self).tabs
                && final(self).tables == old(self).tables),
            old(self).focus ==> (final(self).mode == old(self).mode
                && final(self).tabs == old(self).tabs
                && final(self).tables.items == old(self).tables.items
                && final(self).tables.selected == (if old(self).mode.mode == Mode::FocusOnTable {
                    step_previous(old(self).tables.selected, old(self).tables.items@.len())
                } else {
                    old(self).tables.selected
                })),
    {
        if !self.focus {
            self.mode.on_up();
        } else {
            match self.mode.mode {
                Mode::FocusOnTable => self.tables.previous(),
                _ => {}
            }
        }
    }

    /// Down: moves focus while nothing is entered; inside the table panel it
    /// scrolls the row selection one step forward; inside any other panel it
    /// is a no-op.
    pub fn on_down(&mut self)
        ensures
            final(self).title == old(self).title,
            final(self).should_quit == old(self).should_quit,
            final(self).focus == old(self).focus,
            old(self).wf() ==> final(self).wf(),
            !old(self).focus ==> (final(self).mode.mode == next_focus(old(self).mode.mode, ArrowKey::Down)
                && final(self).tabs == old(self).tabs
                && final(self).tables == old(self).tables),
            old(self).focus ==> (final(self).mode == old(self).mode
                && final(self).tabs == old(self).tabs
                && final(self).tables.items == old(self).tables.items
                && final(self).tables.selected == (if old(self).mode.mode == Mode::FocusOnTable {
                    step_next(old(self).tables.selected, old(self).tables.items@.len())
                } else {
                    old(self).tables.selected
                })),
    {
        if !self.focus {
            self.mode.on_down();
        } else {
            match self.mode.mode {
                Mode::FocusOnTable => self.tables.next(),
                _ => {}
            }
        }
    }

    /// Left: moves focus while nothing is entered; inside the tab bar it
    /// switches to the preceding tab; inside any other panel it is a no-op.
    pub fn on_left(&mut self)
        ensures
            final(self).title == old(self).title,
            final(self).should_quit == old(self).should_quit,
            final(self).focus == old(self).focus,
            old(self).wf() ==> final(self).wf(),
            !old(self).focus ==> (final(self).mode.mode == next_focus(old(self).mode.mode, ArrowKey::Left)
                && final(self).tabs == old(self).tabs
                && final(self).tables == old(self).tables),
            old(self).focus ==> (final(self).mode == old(self).mode
                && final(self).tables == old(self).tables
                && final(self).tabs.titles == old(self).tabs.titles
                && final(self).tabs.index == (if old(self).mode.mode == Mode::FocusOnTab {
                    wrap_previous(old(self).tabs.index as int, old(self).tabs.titles@.len() as int)
                } else {
                    old(self).tabs.index as int
                })),
    {
        if !self.focus {
            self.mode.on_left();
        } else {
            match self.mode.mode {
                Mode::FocusOnTab => self.tabs.previous(),
                _ => {}
            }
        }
    }

    /// Right: moves focus while nothing is entered; inside the tab bar it
    /// switches to the following tab; inside any other panel it is a no-op.
    pub fn on_right(&mut self)
        ensures
            final(self).title == old(self).title,
            final(self).should_quit == old(self).should_quit,
            final(self).focus == old(self).focus,
            old(self).wf() ==> final(self).wf(),
            !old(self).focus ==> (final(self).mode.mode == next_focus(old(self).mode.mode, ArrowKey::Right)
                && final(self).tabs == old(self).tabs
                && final(self).tables == old(self).tables),
            old(self).focus ==> (final(self).mode == old(self).mode
                && final(self).tables == old(self).tables
                && final(self).tabs.titles == old(self).tabs.titles
                && final(self).tabs.index == (if old(self).mode.mode == Mode::FocusOnTab {
                    wrap_next(old(self).tabs.index as int, old(self).tabs.titles@.len() as int)
                } else {
                    old(self).tabs.index as int
                })),
    {
        if !self.focus {
            self.mode.on_right();
        } else {
            match self.mode.mode {
                Mode::FocusOnTab => self.tabs.next(),
                _ => {}
            }
        }
    }

    /// A character key: `'q'` raises the quit flag; every other character
    /// leaves the whole state as it was.
    pub fn on_key(&mut self, c: char)
        ensures
            final(self).should_quit == (old(self).should_quit || c == 'q'),
            final(self).title == old(self).title,
            final(self).focus == old(self).focus,
            final(self).mode == old(self).mode,
            final(self).tabs == old(self).tabs,
            final(self).tables == old(self).tables,
            old(self).wf() ==> final(self).wf(),
    {
        match c {
            'q' => {
                self.should_quit = true;
            }
            _ => {}
        }
    }
}

} // verus!
