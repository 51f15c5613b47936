use vstd::prelude::*;

use crate::command::{
    held_after, lemma_contains_concat, lemma_held_after_append, lemma_held_after_one, ModelCommand,
};
use crate::pointer::{first_hit, pointed_mass, pointed_mass_index, PointerInput, PointerInputView};

verus! {

/// Pointer state of the app window: the mass under the hovering pointer,
/// the mass selected by the last click, and the mass held by a press.
/// The pointer positions and the drag velocity, which are floating-point
/// values, are kept by the caller beside it.
pub struct PhyzzyApp {
    pub mass_idx: Option<usize>,
    pub held_idx: Option<usize>,
    pub sel_idx: Option<usize>,
}

/// The masses that the model holds on behalf of `app`.
pub open spec fn held_set(held_idx: Option<usize>) -> Set<usize> {
    match held_idx {
        Some(m) => set![m],
        None => Set::empty(),
    }
}

impl PhyzzyApp {
    /// No mass hovered, held or selected.
    pub fn init() -> (app: PhyzzyApp)
        ensures
            app.mass_idx is None,
            app.held_idx is None,
            app.sel_idx is None,
    {
        PhyzzyApp { mass_idx: None, held_idx: None, sel_idx: None }
    }

    /// The selection after the frame: a click with the pointer down selects
    /// what is under it (or nothing); otherwise it is kept.
    pub open spec fn selection_after(self, i: PointerInputView) -> Option<usize> {
        if i.clicked && i.press_hits is Some {
            pointed_mass(i.press_hits)
        } else {
            self.sel_idx
        }
    }

    /// The held mass after the press step: a press on a mass holds it if
    /// nothing is held yet; no press lets go of whatever was held.
    pub open spec fn held_after_press(self, i: PointerInputView) -> Option<usize> {
        match i.press_hits {
            Some(_) => match pointed_mass(i.press_hits) {
                Some(m) => if self.held_idx is None { Some(m) } else { self.held_idx },
                None => self.held_idx,
            },
            None => None,
        }
    }

    pub open spec fn press_commands(self, i: PointerInputView) -> Seq<ModelCommand> {
        match i.press_hits {
            Some(_) => match pointed_mass(i.press_hits) {
                Some(m) => if self.held_idx is None {
                    seq![ModelCommand::Hold(m)]
                } else {
                    Seq::empty()
                },
                None => Seq::empty(),
            },
            None => match self.held_idx {
                Some(h) => seq![ModelCommand::Release(h), ModelCommand::ZeroDragVel],
                None => Seq::empty(),
            },
        }
    }

    /// While dragging a held mass, the mass follows the pointer; the pointer
    /// velocity is recorded unless the drag ends this frame, and cleared
    /// when the simulation is paused.
    pub open spec fn drag_commands(self, i: PointerInputView) -> Seq<ModelCommand> {
        if i.dragged && i.press_hits is Some {
            match self.held_after_press(i) {
                Some(h) => seq![ModelCommand::MoveToPointer(h)] + if i.paused {
                    seq![ModelCommand::ZeroDragVel]
                } else if i.drag_stopped {
                    Seq::empty()
                } else {
                    seq![ModelCommand::RecordPointerVel]
                },
                None => Seq::empty(),
            }
        } else {
            Seq::empty()
        }
    }

    /// When the drag ends, the held mass is thrown with the recorded
    /// velocity and let go.
    pub open spec fn stop_commands(self, i: PointerInputView) -> Seq<ModelCommand> {
        if i.drag_stopped {
            match self.held_after_press(i) {
                Some(h) => seq![
                    ModelCommand::Throw(h),
                    ModelCommand::Release(h),
                    ModelCommand::ZeroDragVel,
                ],
                None => Seq::empty(),
            }
        } else {
            Seq::empty()
        }
    }

    /// The requests of one frame, in the order they are to be carried out.
    pub open spec fn frame_commands(self, i: PointerInputView) -> Seq<ModelCommand> {
        self.press_commands(i) + self.drag_commands(i) + self.stop_commands(i)
    }

    /// The pointer state after one frame.
    pub open spec fn after_frame(self, i: PointerInputView) -> PhyzzyApp {
        PhyzzyApp {
            mass_idx: pointed_mass(i.hover_hits),
            held_idx: if i.drag_stopped { None } else { self.held_after_press(i) },
            sel_idx: self.selection_after(i),
        }
    }

    /// Updates the hovered, selected and held masses from one frame of
    /// pointer input, and returns the requests to make of the model.
    pub fn user_interact(&mut self, input: &PointerInput) -> (cmds: Vec<ModelCommand>)
        ensures
            *final(self) == old(self).after_frame(input@),
            cmds@ == old(self).frame_commands(input@),
    {
        let ghost start = *self;
        let mut cmds: Vec<ModelCommand> = Vec::new();

        // Hovering.
        self.mass_idx = pointed_mass_index(&input.hover_hits);

        // Pressed mass, if the pointer is down.
        let press = pointed_mass_index(&input.press_hits);

        // Selection by click.
        if input.clicked && input.press_hits.is_some() {
            self.sel_idx = press;
        }

        // Hold the pressed mass, or let go when the pointer is up.
        if input.press_hits.is_some() {
            if let Some(m) = press {
                if self.held_idx.is_none() {
                    self.held_idx = Some(m);
                    cmds.push(ModelCommand::Hold(m));
                }
            }
        } else {
            if let Some(h) = self.held_idx {
                cmds.push(ModelCommand::Release(h));
                cmds.push(ModelCommand::ZeroDragVel);
                self.held_idx = None;
            }
        }
        assert(self.held_idx == start.held_after_press(input@));
        assert(cmds@ =~= start.press_commands(input@));
        let ghost c3 = cmds@;

        // Drag the held mass along.
        if input.dragged && input.press_hits.is_some() {
            if let Some(h) = self.held_idx {
                cmds.push(ModelCommand::MoveToPointer(h));
                if input.paused {
                    cmds.push(ModelCommand::ZeroDragVel);
                } else if !input.drag_stopped {
                    cmds.push(ModelCommand::RecordPointerVel);
                }
            }
        }
        assert(cmds@ =~= c3 + start.drag_commands(input@));
        let ghost c5 = cmds@;

        // End of the drag: throw and let go.
        if input.drag_stopped {
            if let Some(h) = self.held_idx {
                cmds.push(ModelCommand::Throw(h));
                cmds.push(ModelCommand::Release(h));
                cmds.push(ModelCommand::ZeroDragVel);
                self.held_idx = None;
            }
        }
        assert(cmds@ =~= c5 + start.stop_commands(input@));
        cmds
    }
}

/// The requests of a frame keep the model's held masses in step with the
/// app: if the model holds exactly the app's held mass before the frame,
/// it holds exactly the app's held mass after it.
pub proof fn lemma_user_interact_held_in_step(app: PhyzzyApp, i: PointerInputView)
    ensures
        held_after(held_set(app.held_idx), app.frame_commands(i)) == held_set(
            app.after_frame(i).held_idx,
        ),
{
    let h0 = held_set(app.held_idx);
    let p = app.press_commands(i);
    let d = app.drag_commands(i);
    let st = app.stop_commands(i);
    lemma_held_after_append(h0, p + d, st);
    lemma_held_after_append(h0, p, d);
    let h1 = held_after(h0, p);
    // the press step
    assert(h1 == held_set(app.held_after_press(i))) by {
        match i.press_hits {
            Some(_) => match pointed_mass(i.press_hits) {
                Some(m) => if app.held_idx is None {
                    lemma_held_after_one(h0, ModelCommand::Hold(m));
                    assert(h0.insert(m) =~= set![m]);
                } else {
                    assert(p =~= Seq::<ModelCommand>::empty());
                },
                None => {
                    assert(p =~= Seq::<ModelCommand>::empty());
                },
            },
            None => match app.held_idx {
                Some(h) => {
                    assert(p =~= seq![ModelCommand::Release(h)] + seq![ModelCommand::ZeroDragVel]);
                    lemma_held_after_append(h0, seq![ModelCommand::Release(h)], seq![ModelCommand::ZeroDragVel]);
                    lemma_held_after_one(h0, ModelCommand::Release(h));
                    lemma_held_after_one(h0.remove(h), ModelCommand::ZeroDragVel);
                    assert(h0.remove(h) =~= Set::<usize>::empty());
                },
                None => {
                    assert(p =~= Seq::<ModelCommand>::empty());
                },
            },
        }
    }
    // the drag step holds and lets go of nothing
    assert(held_after(h1, d) == h1) by {
        if i.dragged && i.press_hits is Some {
            match app.held_after_press(i) {
                Some(h) => {
                    let tail = if i.paused {
                        seq![ModelCommand::ZeroDragVel]
                    } else if i.drag_stopped {
                        Seq::<ModelCommand>::empty()
                    } else {
                        seq![ModelCommand::RecordPointerVel]
                    };
                    lemma_held_after_append(h1, seq![ModelCommand::MoveToPointer(h)], tail);
                    lemma_held_after_one(h1, ModelCommand::MoveToPointer(h));
                    if i.paused {
                        lemma_held_after_one(h1, ModelCommand::ZeroDragVel);
                    } else if !i.drag_stopped {
                        lemma_held_after_one(h1, ModelCommand::RecordPointerVel);
                    }
                },
                None => {},
            }
        }
    }
    // the stop step lets go of the held mass
    if i.drag_stopped {
        match app.held_after_press(i) {
            Some(h) => {
                let c1 = seq![ModelCommand::Throw(h)];
                let c2 = seq![ModelCommand::Release(h)];
                let c3 = seq![ModelCommand::ZeroDragVel];
                assert(st =~= c1 + c2 + c3);
                lemma_held_after_append(h1, c1 + c2, c3);
                lemma_held_after_append(h1, c1, c2);
                lemma_held_after_one(h1, ModelCommand::Throw(h));
                lemma_held_after_one(h1, ModelCommand::Release(h));
                lemma_held_after_one(h1.remove(h), ModelCommand::ZeroDragVel);
                assert(h1.remove(h) =~= Set::<usize>::empty());
            },
            None => {},
        }
    }
}

/// A frame asks the model to hold a mass only when the app holds none, and
/// only the mass under the pressed pointer.
pub proof fn lemma_user_interact_holds_only_when_free(app: PhyzzyApp, i: PointerInputView, m: usize)
    requires
        app.frame_commands(i).contains(ModelCommand::Hold(m)),
    ensures
        app.held_idx is None,
        pointed_mass(i.press_hits) == Some(m),
{
    let p = app.press_commands(i);
    let d = app.drag_commands(i);
    let st = app.stop_commands(i);
    let k = choose|k: int| 0 <= k < (p + d + st).len() && (p + d + st)[k] == ModelCommand::Hold(m);
    assert(!d.contains(ModelCommand::Hold(m)));
    assert(!st.contains(ModelCommand::Hold(m)));
    if k >= p.len() + d.len() {
        assert(st[k - p.len() - d.len()] == ModelCommand::Hold(m));
    } else if k >= p.len() {
        assert(d[k - p.len()] == ModelCommand::Hold(m));
    } else {
        assert(p[k] == ModelCommand::Hold(m));
    }
}

/// After a frame without a pressed pointer, or in which a drag ends, the
/// app holds no mass.
pub proof fn lemma_user_interact_lets_go(app: PhyzzyApp, i: PointerInputView)
    requires
        i.press_hits is None || i.drag_stopped,
    ensures
        app.after_frame(i).held_idx is None,
{
}

/// While the pointer stays pressed and no drag ends, a held mass stays
/// held, whether or not the pointer is still over it, and is not released.
pub proof fn lemma_user_interact_keeps_hold_while_pressed(app: PhyzzyApp, i: PointerInputView, h: usize)
    requires
        i.press_hits is Some,
        app.held_idx == Some(h),
        !i.drag_stopped,
    ensures
        app.after_frame(i).held_idx == Some(h),
        forall|r: usize| !app.frame_commands(i).contains(ModelCommand::Release(r)),
        forall|m: usize| !app.frame_commands(i).contains(ModelCommand::Hold(m)),
{
    assert forall|r: usize| !app.frame_commands(i).contains(ModelCommand::Release(r)) by {
        lemma_user_interact_release_only_on_let_go(app, i, r);
    }
    assert forall|m: usize| !app.frame_commands(i).contains(ModelCommand::Hold(m)) by {
        if app.frame_commands(i).contains(ModelCommand::Hold(m)) {
            lemma_user_interact_holds_only_when_free(app, i, m);
        }
    }
}

/// A mass is released only when the pointer is up or a drag ends, and only
/// the mass that was held.
pub proof fn lemma_user_interact_release_only_on_let_go(app: PhyzzyApp, i: PointerInputView, r: usize)
    ensures
        app.frame_commands(i).contains(ModelCommand::Release(r)) ==> (i.press_hits is None
            || i.drag_stopped) && (app.held_idx == Some(r) || pointed_mass(i.press_hits) == Some(r)),
{
    let p = app.press_commands(i);
    let d = app.drag_commands(i);
    let st = app.stop_commands(i);
    let x = ModelCommand::Release(r);
    lemma_contains_concat(p + d, st, x);
    lemma_contains_concat(p, d, x);
    if p.contains(x) {
        let k = choose|k: int| 0 <= k < p.len() && p[k] == x;
    }
    if d.contains(x) {
        let k = choose|k: int| 0 <= k < d.len() && d[k] == x;
        if i.dragged && i.press_hits is Some {
            match app.held_after_press(i) {
                Some(hh) => {
                    let tail = if i.paused {
                        seq![ModelCommand::ZeroDragVel]
                    } else if i.drag_stopped {
                        Seq::<ModelCommand>::empty()
                    } else {
                        seq![ModelCommand::RecordPointerVel]
                    };
                    assert(d == seq![ModelCommand::MoveToPointer(hh)] + tail);
                    if k == 0 {
                        assert(d[0] == ModelCommand::MoveToPointer(hh));
                    } else {
                        assert(d[k] == tail[k - 1]);
                    }
                },
                None => {},
            }
        }
    }
    if st.contains(x) {
        let k = choose|k: int| 0 <= k < st.len() && st[k] == x;
    }
}

/// While the pointer is pressed and a held mass is dragged, the mass is
/// moved to the pointer.
pub proof fn lemma_user_interact_drag_follows_pointer(app: PhyzzyApp, i: PointerInputView, h: usize)
    requires
        i.press_hits is Some,
        i.dragged,
        app.held_idx == Some(h),
    ensures
        app.frame_commands(i).contains(ModelCommand::MoveToPointer(h)),
{
    let p = app.press_commands(i);
    let d = app.drag_commands(i);
    let st = app.stop_commands(i);
    let x = ModelCommand::MoveToPointer(h);
    lemma_contains_concat(p + d, st, x);
    lemma_contains_concat(p, d, x);
    assert(d[0] == x);
}

/// A click with the pointer down selects exactly the first mass it hits
/// (nothing when it hits none), whatever was selected before; any other
/// frame keeps the selection.
pub proof fn lemma_user_interact_click_selects(app: PhyzzyApp, i: PointerInputView)
    ensures
        i.clicked ==> match i.press_hits {
            Some(hits) => app.after_frame(i).sel_idx == first_hit(hits),
            None => app.after_frame(i).sel_idx == app.sel_idx,
        },
        !i.clicked ==> app.after_frame(i).sel_idx == app.sel_idx,
{
}

/// After a frame, the hovered mass is the first mass the hovering pointer
/// hits, and nothing without a hovering pointer, whatever was hovered
/// before.
pub proof fn lemma_user_interact_hover(app: PhyzzyApp, i: PointerInputView)
    ensures
        match i.hover_hits {
            Some(hits) => app.after_frame(i).mass_idx == first_hit(hits),
            None => app.after_frame(i).mass_idx is None,
        },
{
}

} // verus!
