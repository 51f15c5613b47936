use vstd::prelude::*;

use crate::pointer::{pointed_mass, pointed_mass_index, PointerInput, PointerInputView};

verus! {

/// An object of the model that the pointer can pick, by its index.
#[derive(Debug, PartialEq, Eq, Structural)]
pub enum PhyzzyObject {
    Mass(usize),
    Spring(usize),
}

/// Selection state of the interaction layer: the selected objects and the
/// object under the hovering pointer. The drag velocity, a floating-point
/// vector, is kept by the caller beside it.
pub struct PhyzzyInteract {
    pub selection: Vec<PhyzzyObject>,
    pub hover_idx: Option<PhyzzyObject>,
}

/// The selection after a press: with something selected, a press on
/// another mass (not while dragging) selects that mass alone, a press on
/// the selected mass or a drag keeps the selection, and a press on no mass
/// (or no press at all) clears it; with nothing selected, a press on a
/// mass selects it.
pub open spec fn selection_after(
    selection: Seq<PhyzzyObject>,
    pressed: Option<usize>,
    dragged: bool,
) -> Seq<PhyzzyObject> {
    if selection.len() > 0 {
        match pressed {
            Some(m) => if !selection.contains(PhyzzyObject::Mass(m)) && !dragged {
                seq![PhyzzyObject::Mass(m)]
            } else {
                selection
            },
            None => Seq::empty(),
        }
    } else {
        match pressed {
            Some(m) => seq![PhyzzyObject::Mass(m)],
            None => selection,
        }
    }
}

/// A selection of at most one object, and that a mass.
pub open spec fn is_single_mass_selection(selection: Seq<PhyzzyObject>) -> bool {
    &&& selection.len() <= 1
    &&& forall|k: int| 0 <= k < selection.len() ==> selection[k] is Mass
}

fn contains_object(selection: &Vec<PhyzzyObject>, obj: &PhyzzyObject) -> (r: bool)
    ensures
        r == selection@.contains(*obj),
{
    let mut k: usize = 0;
    while k < selection.len()
        invariant
            k <= selection.len(),
            forall|j: int| 0 <= j < k ==> selection@[j] != *obj,
        decreases selection.len() - k,
    {
        if selection[k] == *obj {
            return true;
        }
        k = k + 1;
    }
    false
}

impl PhyzzyInteract {
    /// Nothing selected or hovered.
    pub fn init() -> (s: PhyzzyInteract)
        ensures
            s.selection@ == Seq::<PhyzzyObject>::empty(),
            s.hover_idx is None,
    {
        PhyzzyInteract { selection: Vec::new(), hover_idx: None }
    }

    /// The hovered object becomes the first mass under the hovering pointer,
    /// or nothing when there is no pointer or it is over no mass.
    pub fn user_hover(&mut self, input: &PointerInput)
        ensures
            final(self).hover_idx == match pointed_mass(input@.hover_hits) {
                Some(m) => Some(PhyzzyObject::Mass(m)),
                None => None::<PhyzzyObject>,
            },
            final(self).selection@ == old(self).selection@,
    {
        self.hover_idx = match pointed_mass_index(&input.hover_hits) {
            Some(idx) => Some(PhyzzyObject::Mass(idx)),
            None => None,
        };
    }

    /// Updates the selection from the mass under the pressed pointer; see
    /// `selection_after`.
    pub fn user_single_select(&mut self, input: &PointerInput)
        ensures
            final(self).selection@ == selection_after(
                old(self).selection@,
                pointed_mass(input@.press_hits),
                input@.dragged,
            ),
            final(self).hover_idx == old(self).hover_idx,
    {
        let sel_idx = pointed_mass_index(&input.press_hits);
        if self.selection.len() > 0 {
            match sel_idx {
                Some(o_idx) => {
                    let contains = contains_object(&self.selection, &PhyzzyObject::Mass(o_idx));
                    if !contains && !input.dragged {
                        self.selection.clear();
                        self.selection.push(PhyzzyObject::Mass(o_idx));
                        assert(self.selection@ =~= seq![PhyzzyObject::Mass(o_idx)]);
                    }
                },
                None => {
                    self.selection.clear();
                },
            }
        } else {
            match sel_idx {
                Some(idx) => {
                    self.selection.push(PhyzzyObject::Mass(idx));
                    assert(self.selection@ =~= seq![PhyzzyObject::Mass(idx)]);
                },
                None => {},
            }
        }
    }

    /// Dragging changes nothing in the interaction layer.
    pub fn user_drag(&mut self, _input: &PointerInput)
        ensures
            final(self).selection@ == old(self).selection@,
            final(self).hover_idx == old(self).hover_idx,
    {
    }
}

/// Single selection: a selection of at most one mass stays so through any
/// press.
pub proof fn lemma_single_select_keeps_one_mass(
    selection: Seq<PhyzzyObject>,
    pressed: Option<usize>,
    dragged: bool,
)
    requires
        is_single_mass_selection(selection),
    ensures
        is_single_mass_selection(selection_after(selection, pressed, dragged)),
{
}

/// A press on a mass, when not dragging, leaves exactly that mass selected.
pub proof fn lemma_press_selects_pressed_mass(selection: Seq<PhyzzyObject>, m: usize)
    requires
        is_single_mass_selection(selection),
    ensures
        selection_after(selection, Some(m), false) == seq![PhyzzyObject::Mass(m)],
{
    if selection.len() > 0 && selection.contains(PhyzzyObject::Mass(m)) {
        let k = choose|k: int| 0 <= k < selection.len() && selection[k] == PhyzzyObject::Mass(m);
        assert(k == 0);
        assert(selection =~= seq![PhyzzyObject::Mass(m)]);
    }
}

/// A press on a mass that is already selected keeps the selection, dragging
/// or not.
pub proof fn lemma_press_on_selected_keeps_selection(
    selection: Seq<PhyzzyObject>,
    m: usize,
    dragged: bool,
)
    requires
        selection.contains(PhyzzyObject::Mass(m)),
    ensures
        selection_after(selection, Some(m), dragged) == selection,
{
}

/// A press on a mass never leaves the selection empty, and a press that is
/// not a drag always leaves that mass selected; no press on a mass clears
/// the selection.
pub proof fn lemma_press_outcome(selection: Seq<PhyzzyObject>, pressed: Option<usize>, dragged: bool)
    ensures
        match pressed {
            Some(m) => {
                &&& selection_after(selection, pressed, dragged).len() > 0
                &&& !dragged ==> selection_after(selection, pressed, dragged).contains(
                    PhyzzyObject::Mass(m),
                )
            },
            None => selection_after(selection, pressed, dragged).len() == 0,
        },
{
    if let Some(m) = pressed {
        if selection.len() == 0 || (!selection.contains(PhyzzyObject::Mass(m)) && !dragged) {
            assert(seq![PhyzzyObject::Mass(m)][0] == PhyzzyObject::Mass(m));
        }
    }
}

} // verus!
