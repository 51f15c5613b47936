use vstd::prelude::*;

use crate::command::{
    held_after, lemma_contains_concat, lemma_held_after_append, lemma_held_after_one, ModelCommand,
};
use crate::pointer::{first_hit, pointed_mass, pointed_mass_index, PointerInput, PointerInputView};

verus! {

/// An object of the model that the pointer can pick, by its index.
#[derive(Debug, Clone, Copy, PartialEq, Eq, Structural)]
pub enum PhyzzyObject {
    Mass(usize),
    Spring(usize),
}

/// The mass under the pointer, as a pickable object.
pub open spec fn as_object(m: Option<usize>) -> Option<PhyzzyObject> {
    match m {
        Some(i) => Some(PhyzzyObject::Mass(i)),
        None => None,
    }
}

/// The objects of the viewport: the one under the hovering pointer, the
/// one being dragged and the one under the pressed pointer. The view's
/// geometry (its scale, its rectangles) and the drag velocity are
/// floating-point values that the caller keeps beside it.
pub struct PhyzzyViewport {
    pub hover_idx: Option<PhyzzyObject>,
    pub drag_idx: Option<PhyzzyObject>,
    pub select_idx: Option<PhyzzyObject>,
}

/// The masses that the model holds on behalf of the viewport: the dragged
/// mass, if any.
pub open spec fn dragged_mass_set(drag_idx: Option<PhyzzyObject>) -> Set<usize> {
    match drag_idx {
        Some(PhyzzyObject::Mass(m)) => set![m],
        _ => Set::empty(),
    }
}

impl PhyzzyViewport {
    /// Nothing hovered, dragged or selected.
    pub fn init() -> (v: PhyzzyViewport)
        ensures
            v.hover_idx is None,
            v.drag_idx is None,
            v.select_idx is None,
    {
        PhyzzyViewport { hover_idx: None, drag_idx: None, select_idx: None }
    }

    /// The hovered object becomes the first mass under the hovering pointer,
    /// or nothing when there is no pointer or it is over no mass.
    pub fn user_hover(&mut self, input: &PointerInput)
        ensures
            final(self).hover_idx == as_object(pointed_mass(input@.hover_hits)),
            final(self).drag_idx == old(self).drag_idx,
            final(self).select_idx == old(self).select_idx,
    {
        self.hover_idx = match pointed_mass_index(&input.hover_hits) {
            Some(idx) => Some(PhyzzyObject::Mass(idx)),
            None => None,
        };
    }

    /// The dragged object after a drag starts: the selected one then.
    pub open spec fn drag_after_start(self, i: PointerInputView) -> Option<PhyzzyObject> {
        if i.drag_started {
            as_object(pointed_mass(i.press_hits))
        } else {
            self.drag_idx
        }
    }

    pub open spec fn drag_after_stop(self, i: PointerInputView) -> Option<PhyzzyObject> {
        if i.drag_stopped {
            None
        } else {
            self.drag_after_start(i)
        }
    }

    /// A drag that starts on a mass holds it.
    pub open spec fn start_commands(self, i: PointerInputView) -> Seq<ModelCommand> {
        if i.drag_started {
            match pointed_mass(i.press_hits) {
                Some(m) => seq![ModelCommand::Hold(m)],
                None => Seq::empty(),
            }
        } else {
            Seq::empty()
        }
    }

    /// A drag that stops lets go of the dragged mass and throws it with the
    /// recorded drag velocity.
    pub open spec fn stop_commands(self, i: PointerInputView) -> Seq<ModelCommand> {
        if i.drag_stopped {
            match self.drag_after_start(i) {
                Some(PhyzzyObject::Mass(m)) => seq![
                    ModelCommand::Release(m),
                    ModelCommand::Throw(m),
                ],
                _ => Seq::empty(),
            }
        } else {
            Seq::empty()
        }
    }

    /// While dragging, the dragged mass moves with the pointer, and the
    /// drag velocity is this frame's pointer velocity (zero when paused).
    pub open spec fn drag_commands(self, i: PointerInputView) -> Seq<ModelCommand> {
        if i.dragged {
            match self.drag_after_stop(i) {
                Some(PhyzzyObject::Mass(m)) => seq![
                    ModelCommand::DragBy(m),
                    if i.paused {
                        ModelCommand::ZeroDragVel
                    } else {
                        ModelCommand::RecordPointerVel
                    },
                ],
                _ => Seq::empty(),
            }
        } else {
            Seq::empty()
        }
    }

    /// The requests of one frame, in order; none without a pressed pointer.
    pub open spec fn interact_commands(self, i: PointerInputView) -> Seq<ModelCommand> {
        if i.press_hits is Some {
            self.start_commands(i) + self.stop_commands(i) + self.drag_commands(i)
        } else {
            Seq::empty()
        }
    }

    /// The viewport after one frame; unchanged without a pressed pointer.
    pub open spec fn after_interact(self, i: PointerInputView) -> PhyzzyViewport {
        if i.press_hits is Some {
            PhyzzyViewport {
                hover_idx: self.hover_idx,
                drag_idx: self.drag_after_stop(i),
                select_idx: as_object(pointed_mass(i.press_hits)),
            }
        } else {
            self
        }
    }

    /// Selects the mass under the pressed pointer, starts, continues and
    /// ends drags, and returns the requests to make of the model.
    pub fn user_single_interact(&mut self, input: &PointerInput) -> (cmds: Vec<ModelCommand>)
        ensures
            *final(self) == old(self).after_interact(input@),
            cmds@ == old(self).interact_commands(input@),
    {
        let ghost start = *self;
        let mut cmds: Vec<ModelCommand> = Vec::new();
        if input.press_hits.is_none() {
            assert(cmds@ =~= start.interact_commands(input@));
            return cmds;
        }
        let mass_idx = pointed_mass_index(&input.press_hits);
        self.select_idx = match mass_idx {
            Some(idx) => Some(PhyzzyObject::Mass(idx)),
            None => None,
        };

        if input.drag_started {
            self.drag_idx = self.select_idx;
            if let Some(obj) = self.drag_idx {
                match obj {
                    PhyzzyObject::Mass(idx) => {
                        cmds.push(ModelCommand::Hold(idx));
                    },
                    PhyzzyObject::Spring(_idx) => {},
                }
            }
        }
        assert(cmds@ =~= start.start_commands(input@));
        let ghost c1 = cmds@;

        if input.drag_stopped {
            if let Some(obj) = self.drag_idx {
                match obj {
                    PhyzzyObject::Mass(idx) => {
                        cmds.push(ModelCommand::Release(idx));
                        cmds.push(ModelCommand::Throw(idx));
                    },
                    PhyzzyObject::Spring(_idx) => {},
                }
            }
            self.drag_idx = None;
        }
        assert(cmds@ =~= c1 + start.stop_commands(input@));
        let ghost c2 = cmds@;

        if input.dragged {
            if let Some(obj) = self.drag_idx {
                match obj {
                    PhyzzyObject::Mass(idx) => {
                        cmds.push(ModelCommand::DragBy(idx));
                        if input.paused {
                            cmds.push(ModelCommand::ZeroDragVel);
                        } else {
                            cmds.push(ModelCommand::RecordPointerVel);
                        }
                    },
                    PhyzzyObject::Spring(_idx) => {},
                }
            }
        }
        assert(cmds@ =~= c2 + start.drag_commands(input@));
        cmds
    }
}

/// The requests of a frame keep the model's held masses in step with the
/// dragged mass: if the model holds exactly the dragged mass before the
/// frame, it holds exactly the dragged mass after it. This needs that a
/// drag starts only when none is under way (a drag that started over
/// another would leave the earlier mass held).
pub proof fn lemma_user_single_interact_held_in_step(v: PhyzzyViewport, i: PointerInputView)
    requires
        i.drag_started ==> v.drag_idx is None,
    ensures
        held_after(dragged_mass_set(v.drag_idx), v.interact_commands(i)) == dragged_mass_set(
            v.after_interact(i).drag_idx,
        ),
{
    reveal_with_fuel(held_after, 1);
    if i.press_hits is None {
        return;
    }
    let h0 = dragged_mass_set(v.drag_idx);
    let a = v.start_commands(i);
    let b = v.stop_commands(i);
    let c = v.drag_commands(i);
    lemma_held_after_append(h0, a + b, c);
    lemma_held_after_append(h0, a, b);
    let h1 = held_after(h0, a);
    assert(h1 == dragged_mass_set(v.drag_after_start(i))) by {
        if i.drag_started {
            match pointed_mass(i.press_hits) {
                Some(m) => {
                    lemma_held_after_one(h0, ModelCommand::Hold(m));
                    assert(h0.insert(m) =~= set![m]);
                },
                None => {
                    assert(a =~= Seq::<ModelCommand>::empty());
                },
            }
        } else {
            assert(a =~= Seq::<ModelCommand>::empty());
        }
    }
    let h2 = held_after(h1, b);
    assert(h2 == dragged_mass_set(v.drag_after_stop(i))) by {
        if i.drag_stopped {
            match v.drag_after_start(i) {
                Some(PhyzzyObject::Mass(m)) => {
                    assert(b =~= seq![ModelCommand::Release(m)] + seq![ModelCommand::Throw(m)]);
                    lemma_held_after_append(h1, seq![ModelCommand::Release(m)], seq![ModelCommand::Throw(m)]);
                    lemma_held_after_one(h1, ModelCommand::Release(m));
                    lemma_held_after_one(h1.remove(m), ModelCommand::Throw(m));
                    assert(h1.remove(m) =~= Set::<usize>::empty());
                },
                _ => {
                    assert(b =~= Seq::<ModelCommand>::empty());
                    assert(h1 =~= Set::<usize>::empty());
                },
            }
        } else {
            assert(b =~= Seq::<ModelCommand>::empty());
        }
    }
    assert(held_after(h2, c) == h2) by {
        if i.dragged {
            match v.drag_after_stop(i) {
                Some(PhyzzyObject::Mass(m)) => {
                    let last = if i.paused {
                        ModelCommand::ZeroDragVel
                    } else {
                        ModelCommand::RecordPointerVel
                    };
                    assert(c =~= seq![ModelCommand::DragBy(m)] + seq![last]);
                    lemma_held_after_append(h2, seq![ModelCommand::DragBy(m)], seq![last]);
                    lemma_held_after_one(h2, ModelCommand::DragBy(m));
                    lemma_held_after_one(h2, last);
                },
                _ => {
                    assert(c =~= Seq::<ModelCommand>::empty());
                },
            }
        } else {
            assert(c =~= Seq::<ModelCommand>::empty());
        }
    }
}

/// Only masses are ever selected, dragged or hovered by the viewport: if
/// that holds before a frame, it holds after it.
pub open spec fn picks_only_masses(v: PhyzzyViewport) -> bool {
    &&& !(v.hover_idx matches Some(PhyzzyObject::Spring(_)))
    &&& !(v.drag_idx matches Some(PhyzzyObject::Spring(_)))
    &&& !(v.select_idx matches Some(PhyzzyObject::Spring(_)))
}

/// Every pick of the viewport is a mass, across frames.
pub proof fn lemma_viewport_picks_only_masses(v: PhyzzyViewport, i: PointerInputView)
    requires
        picks_only_masses(v),
    ensures
        picks_only_masses(v.after_interact(i)),
        picks_only_masses(PhyzzyViewport { hover_idx: as_object(pointed_mass(i.hover_hits)), ..v }),
{
}

/// Without a pressed pointer a frame changes nothing and requests nothing;
/// with one, the selection is the first mass the pointer hits (nothing
/// when it hits none), whatever was selected before.
pub proof fn lemma_user_single_interact_selects(v: PhyzzyViewport, i: PointerInputView)
    ensures
        match i.press_hits {
            Some(hits) => v.after_interact(i).select_idx == as_object(first_hit(hits))
                && v.after_interact(i).hover_idx == v.hover_idx,
            None => v.after_interact(i) == v && v.interact_commands(i) == Seq::<ModelCommand>::empty(),
        },
{
}

/// The dragged object changes only when a drag starts or stops: a drag
/// that starts takes the first mass under the pointer (or nothing), a drag
/// that stops leaves nothing dragged, and otherwise the dragged object is
/// kept, whatever the pointer passes over.
pub proof fn lemma_user_single_interact_drag_changes_only_at_ends(v: PhyzzyViewport, i: PointerInputView)
    requires
        i.press_hits is Some,
    ensures
        !i.drag_started && !i.drag_stopped ==> v.after_interact(i).drag_idx == v.drag_idx,
        i.drag_stopped ==> v.after_interact(i).drag_idx is None,
        i.drag_started && !i.drag_stopped ==> v.after_interact(i).drag_idx == as_object(
            first_hit(i.press_hits.unwrap()),
        ),
{
}

/// A mass is held only when a drag starts, and only the first mass under
/// the pressed pointer.
pub proof fn lemma_user_single_interact_holds_only_at_start(v: PhyzzyViewport, i: PointerInputView, m: usize)
    requires
        v.interact_commands(i).contains(ModelCommand::Hold(m)),
    ensures
        i.drag_started,
        i.press_hits is Some,
        first_hit(i.press_hits.unwrap()) == Some(m),
{
    let a = v.start_commands(i);
    let b = v.stop_commands(i);
    let c = v.drag_commands(i);
    let x = ModelCommand::Hold(m);
    assert(i.press_hits is Some);
    lemma_contains_concat(a + b, c, x);
    lemma_contains_concat(a, b, x);
    if b.contains(x) {
        let k = choose|k: int| 0 <= k < b.len() && b[k] == x;
    }
    if c.contains(x) {
        let k = choose|k: int| 0 <= k < c.len() && c[k] == x;
    }
    let k = choose|k: int| 0 <= k < a.len() && a[k] == x;
}

/// A drag that goes on over a mass moves that mass with the pointer, and
/// a drag that stops releases the dragged mass.
pub proof fn lemma_user_single_interact_drag_moves(v: PhyzzyViewport, i: PointerInputView, m: usize)
    requires
        i.press_hits is Some,
        v.drag_idx == Some(PhyzzyObject::Mass(m)),
        !i.drag_started,
    ensures
        i.dragged && !i.drag_stopped ==> v.interact_commands(i).contains(ModelCommand::DragBy(m)),
        i.drag_stopped ==> v.interact_commands(i).contains(ModelCommand::Release(m)),
{
    let a = v.start_commands(i);
    let b = v.stop_commands(i);
    let c = v.drag_commands(i);
    lemma_contains_concat(a + b, c, ModelCommand::DragBy(m));
    lemma_contains_concat(a, b, ModelCommand::DragBy(m));
    lemma_contains_concat(a + b, c, ModelCommand::Release(m));
    lemma_contains_concat(a, b, ModelCommand::Release(m));
    if i.dragged && !i.drag_stopped {
        assert(c[0] == ModelCommand::DragBy(m));
    }
    if i.drag_stopped {
        assert(b[0] == ModelCommand::Release(m));
    }
}

} // verus!
