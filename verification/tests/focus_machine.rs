use dash_shell::focus::{ArrowKey, Mode, ModeState};

fn after(start: Mode, key: ArrowKey) -> Mode {
    let mut m = ModeState { mode: start };
    m.on_arrow_key(key);
    m.mode
}

#[test]
fn new_starts_on_tab() {
    let m = ModeState::new();
    assert_eq!(m.mode, Mode::FocusOnTab);
}

#[test]
fn transitions_from_tab() {
    assert_eq!(after(Mode::FocusOnTab, ArrowKey::Up), Mode::FocusOnTab);
    assert_eq!(after(Mode::FocusOnTab, ArrowKey::Down), Mode::FocusOnTable);
    assert_eq!(after(Mode::FocusOnTab, ArrowKey::Left), Mode::FocusOnTab);
    assert_eq!(after(Mode::FocusOnTab, ArrowKey::Right), Mode::FocusOnItem);
}

#[test]
fn transitions_from_table() {
    assert_eq!(after(Mode::FocusOnTable, ArrowKey::Up), Mode::FocusOnTab);
    assert_eq!(after(Mode::FocusOnTable, ArrowKey::Down), Mode::FocusOnOperation);
    assert_eq!(after(Mode::FocusOnTable, ArrowKey::Left), Mode::FocusOnTable);
    assert_eq!(after(Mode::FocusOnTable, ArrowKey::Right), Mode::FocusOnItem);
}

#[test]
fn transitions_from_operation() {
    assert_eq!(after(Mode::FocusOnOperation, ArrowKey::Up), Mode::FocusOnTable);
    assert_eq!(after(Mode::FocusOnOperation, ArrowKey::Down), Mode::FocusOnOperation);
    assert_eq!(after(Mode::FocusOnOperation, ArrowKey::Left), Mode::FocusOnOperation);
    assert_eq!(after(Mode::FocusOnOperation, ArrowKey::Right), Mode::FocusOnItem);
}

#[test]
fn transitions_from_item() {
    assert_eq!(after(Mode::FocusOnItem, ArrowKey::Up), Mode::FocusOnItem);
    assert_eq!(after(Mode::FocusOnItem, ArrowKey::Down), Mode::FocusOnItem);
    assert_eq!(after(Mode::FocusOnItem, ArrowKey::Left), Mode::FocusOnTable);
    assert_eq!(after(Mode::FocusOnItem, ArrowKey::Right), Mode::FocusOnItem);
}

#[test]
fn named_arrow_handlers_match_the_table() {
    let mut m = ModeState::new();
    m.on_down();
    assert_eq!(m.mode, Mode::FocusOnTable);
    m.on_right();
    assert_eq!(m.mode, Mode::FocusOnItem);
    m.on_left();
    assert_eq!(m.mode, Mode::FocusOnTable);
    m.on_up();
    assert_eq!(m.mode, Mode::FocusOnTab);
}

#[test]
fn character_keys_leave_the_focus_machine_alone() {
    let mut m = ModeState { mode: Mode::FocusOnOperation };
    m.on_key('q');
    assert_eq!(m.mode, Mode::FocusOnOperation);
    m.on_key('x');
    assert_eq!(m.mode, Mode::FocusOnOperation);
}
