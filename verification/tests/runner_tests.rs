use phyzzy::command::ModelCommand;
use phyzzy::phyzzy_runner::PhyzzyApp;
use phyzzy::pointer::PointerInput;

fn input(hover: Option<Vec<bool>>, press: Option<Vec<bool>>) -> PointerInput {
    PointerInput {
        hover_hits: hover,
        press_hits: press,
        clicked: false,
        dragged: false,
        drag_started: false,
        drag_stopped: false,
        paused: false,
    }
}

/// The masses held after carrying out `cmds`, starting from `held`.
fn apply(mut held: Vec<usize>, cmds: &[ModelCommand]) -> Vec<usize> {
    for c in cmds {
        match c {
            ModelCommand::Hold(m) => {
                if !held.contains(m) {
                    held.push(*m)
                }
            }
            ModelCommand::Release(m) => held.retain(|x| x != m),
            _ => {}
        }
    }
    held
}

#[test]
fn init_is_empty() {
    let app = PhyzzyApp::init();
    assert_eq!(app.mass_idx, None);
    assert_eq!(app.held_idx, None);
    assert_eq!(app.sel_idx, None);
}

#[test]
fn hover_tracks_first_mass_under_pointer() {
    let mut app = PhyzzyApp::init();
    let cmds = app.user_interact(&input(Some(vec![false, true, true]), None));
    assert!(cmds.is_empty());
    assert_eq!(app.mass_idx, Some(1));
    let cmds = app.user_interact(&input(None, None));
    assert!(cmds.is_empty());
    assert_eq!(app.mass_idx, None);
}

#[test]
fn click_selects_and_click_on_nothing_deselects() {
    let mut app = PhyzzyApp::init();
    let mut i = input(None, Some(vec![false, false, true]));
    i.clicked = true;
    let cmds = app.user_interact(&i);
    assert_eq!(app.sel_idx, Some(2));
    assert_eq!(cmds, vec![ModelCommand::Hold(2)]);
    assert_eq!(app.held_idx, Some(2));

    let cmds = app.user_interact(&input(None, None));
    assert_eq!(cmds, vec![ModelCommand::Release(2), ModelCommand::ZeroDragVel]);
    assert_eq!(app.held_idx, None);
    assert_eq!(app.sel_idx, Some(2));

    let mut i = input(None, Some(vec![false, false, false]));
    i.clicked = true;
    let cmds = app.user_interact(&i);
    assert!(cmds.is_empty());
    assert_eq!(app.sel_idx, None);
}

#[test]
fn click_without_pointer_keeps_selection() {
    let mut app = PhyzzyApp { mass_idx: None, held_idx: None, sel_idx: Some(4) };
    let mut i = input(None, None);
    i.clicked = true;
    app.user_interact(&i);
    assert_eq!(app.sel_idx, Some(4));
}

#[test]
fn second_press_does_not_steal_hold() {
    let mut app = PhyzzyApp { mass_idx: None, held_idx: Some(0), sel_idx: None };
    let cmds = app.user_interact(&input(None, Some(vec![false, true])));
    assert!(cmds.is_empty());
    assert_eq!(app.held_idx, Some(0));
}

#[test]
fn drag_moves_and_records_velocity() {
    let mut app = PhyzzyApp { mass_idx: None, held_idx: Some(1), sel_idx: None };
    let mut i = input(None, Some(vec![false, true]));
    i.dragged = true;
    let cmds = app.user_interact(&i);
    assert_eq!(cmds, vec![ModelCommand::MoveToPointer(1), ModelCommand::RecordPointerVel]);
    assert_eq!(app.held_idx, Some(1));
}

#[test]
fn paused_drag_zeroes_velocity() {
    let mut app = PhyzzyApp { mass_idx: None, held_idx: Some(1), sel_idx: None };
    let mut i = input(None, Some(vec![false, true]));
    i.dragged = true;
    i.paused = true;
    let cmds = app.user_interact(&i);
    assert_eq!(cmds, vec![ModelCommand::MoveToPointer(1), ModelCommand::ZeroDragVel]);
}

#[test]
fn drag_stop_throws_and_releases() {
    let mut app = PhyzzyApp { mass_idx: None, held_idx: Some(1), sel_idx: None };
    let mut i = input(None, Some(vec![false, true]));
    i.dragged = true;
    i.drag_stopped = true;
    let cmds = app.user_interact(&i);
    assert_eq!(
        cmds,
        vec![
            ModelCommand::MoveToPointer(1),
            ModelCommand::Throw(1),
            ModelCommand::Release(1),
            ModelCommand::ZeroDragVel,
        ]
    );
    assert_eq!(app.held_idx, None);
}

#[test]
fn drag_without_held_mass_does_nothing() {
    let mut app = PhyzzyApp::init();
    let mut i = input(None, Some(vec![false, false]));
    i.dragged = true;
    i.drag_stopped = true;
    let cmds = app.user_interact(&i);
    assert!(cmds.is_empty());
    assert_eq!(app.held_idx, None);
}

#[test]
fn held_masses_follow_held_idx_over_a_gesture() {
    let mut app = PhyzzyApp::init();
    let mut held: Vec<usize> = Vec::new();
    let frames = [
        (Some(vec![true, false]), false, false),
        (Some(vec![false, true]), true, false),
        (Some(vec![false, true]), true, true),
        (Some(vec![false, true]), false, false),
        (None, false, false),
    ];
    for (press, dragged, stopped) in frames {
        let mut i = input(None, press);
        i.dragged = dragged;
        i.drag_stopped = stopped;
        let cmds = app.user_interact(&i);
        held = apply(held, &cmds);
        let expected: Vec<usize> = app.held_idx.into_iter().collect();
        assert_eq!(held, expected);
        assert!(held.len() <= 1);
    }
}
