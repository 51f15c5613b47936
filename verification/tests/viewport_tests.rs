use phyzzy::command::ModelCommand;
use phyzzy::phyzzy_viewport::{PhyzzyObject, PhyzzyViewport};
use phyzzy::pointer::PointerInput;

fn input(hover: Option<Vec<bool>>, press: Option<Vec<bool>>) -> PointerInput {
    PointerInput {
        hover_hits: hover,
        press_hits: press,
        clicked: false,
        dragged: false,
        drag_started: false,
        drag_stopped: false,
        paused: false,
    }
}

#[test]
fn viewport_init_is_empty() {
    let v = PhyzzyViewport::init();
    assert_eq!(v.hover_idx, None);
    assert_eq!(v.drag_idx, None);
    assert_eq!(v.select_idx, None);
}

#[test]
fn viewport_hover() {
    let mut v = PhyzzyViewport::init();
    v.user_hover(&input(Some(vec![false, false, true]), None));
    assert_eq!(v.hover_idx, Some(PhyzzyObject::Mass(2)));
    v.user_hover(&input(Some(vec![false]), None));
    assert_eq!(v.hover_idx, None);
    v.user_hover(&input(None, Some(vec![true])));
    assert_eq!(v.hover_idx, None);
}

#[test]
fn no_press_changes_nothing() {
    let mut v = PhyzzyViewport {
        hover_idx: None,
        drag_idx: Some(PhyzzyObject::Mass(3)),
        select_idx: Some(PhyzzyObject::Mass(3)),
    };
    let mut i = input(None, None);
    i.drag_stopped = true;
    i.dragged = true;
    let cmds = v.user_single_interact(&i);
    assert!(cmds.is_empty());
    assert_eq!(v.drag_idx, Some(PhyzzyObject::Mass(3)));
    assert_eq!(v.select_idx, Some(PhyzzyObject::Mass(3)));
}

#[test]
fn press_selects_without_drag() {
    let mut v = PhyzzyViewport::init();
    let cmds = v.user_single_interact(&input(None, Some(vec![false, true])));
    assert!(cmds.is_empty());
    assert_eq!(v.select_idx, Some(PhyzzyObject::Mass(1)));
    assert_eq!(v.drag_idx, None);
    let cmds = v.user_single_interact(&input(None, Some(vec![false, false])));
    assert!(cmds.is_empty());
    assert_eq!(v.select_idx, None);
}

#[test]
fn drag_gesture() {
    let mut v = PhyzzyViewport::init();
    let mut i = input(None, Some(vec![true]));
    i.drag_started = true;
    i.dragged = true;
    let cmds = v.user_single_interact(&i);
    assert_eq!(
        cmds,
        vec![ModelCommand::Hold(0), ModelCommand::DragBy(0), ModelCommand::RecordPointerVel]
    );
    assert_eq!(v.drag_idx, Some(PhyzzyObject::Mass(0)));

    // the pointer left the mass, the drag goes on
    let mut i = input(None, Some(vec![false]));
    i.dragged = true;
    i.paused = true;
    let cmds = v.user_single_interact(&i);
    assert_eq!(cmds, vec![ModelCommand::DragBy(0), ModelCommand::ZeroDragVel]);
    assert_eq!(v.select_idx, None);
    assert_eq!(v.drag_idx, Some(PhyzzyObject::Mass(0)));

    let mut i = input(None, Some(vec![false]));
    i.dragged = true;
    i.drag_stopped = true;
    let cmds = v.user_single_interact(&i);
    assert_eq!(cmds, vec![ModelCommand::Release(0), ModelCommand::Throw(0)]);
    assert_eq!(v.drag_idx, None);
}

#[test]
fn drag_started_on_nothing_holds_nothing() {
    let mut v = PhyzzyViewport::init();
    let mut i = input(None, Some(vec![false, false]));
    i.drag_started = true;
    i.dragged = true;
    let cmds = v.user_single_interact(&i);
    assert!(cmds.is_empty());
    assert_eq!(v.drag_idx, None);
}

#[test]
fn start_and_stop_in_one_frame() {
    let mut v = PhyzzyViewport::init();
    let mut i = input(None, Some(vec![false, true]));
    i.drag_started = true;
    i.drag_stopped = true;
    i.dragged = true;
    let cmds = v.user_single_interact(&i);
    assert_eq!(
        cmds,
        vec![ModelCommand::Hold(1), ModelCommand::Release(1), ModelCommand::Throw(1)]
    );
    assert_eq!(v.drag_idx, None);
    assert_eq!(v.select_idx, Some(PhyzzyObject::Mass(1)));
}

#[test]
fn spring_drag_sends_nothing() {
    let mut v = PhyzzyViewport {
        hover_idx: None,
        drag_idx: Some(PhyzzyObject::Spring(2)),
        select_idx: None,
    };
    let mut i = input(None, Some(vec![false]));
    i.dragged = true;
    let cmds = v.user_single_interact(&i);
    assert!(cmds.is_empty());
    let mut i = input(None, Some(vec![false]));
    i.drag_stopped = true;
    let cmds = v.user_single_interact(&i);
    assert!(cmds.is_empty());
    assert_eq!(v.drag_idx, None);
}
