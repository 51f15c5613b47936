use vstd::prelude::*;

verus! {

/// `i` is the first index of `hits` that holds `true`.
pub open spec fn is_first_hit(hits: Seq<bool>, i: int) -> bool {
    &&& 0 <= i < hits.len()
    &&& hits[i]
    &&& forall|j: int| 0 <= j < i ==> !hits[j]
}

/// The first index of `hits` that holds `true`, if any: what
/// `Iterator::position` finds when the pointer is tested against each mass
/// in turn.
pub open spec fn first_hit(hits: Seq<bool>) -> Option<usize> {
    if exists|i: int| 0 <= i < hits.len() && hits[i] {
        Some((choose|i: int| is_first_hit(hits, i)) as usize)
    } else {
        None
    }
}

/// The mass under the pointer: `None` when there is no pointer, else the
/// first mass the pointer hits.
pub open spec fn pointed_mass(hits: Option<Seq<bool>>) -> Option<usize> {
    match hits {
        Some(h) => first_hit(h),
        None => None,
    }
}

/// There is only one first hit.
pub proof fn lemma_first_hit_unique(hits: Seq<bool>, i: int, k: int)
    requires
        is_first_hit(hits, i),
        is_first_hit(hits, k),
    ensures
        i == k,
{
    if i < k {
        assert(!hits[i]);
    } else if k < i {
        assert(!hits[k]);
    }
}

/// `first_hit` is the first `true` index, and `None` exactly when no
/// index holds `true`.
pub proof fn lemma_first_hit(hits: Seq<bool>)
    requires
        hits.len() <= usize::MAX,
    ensures
        match first_hit(hits) {
            Some(i) => is_first_hit(hits, i as int),
            None => forall|j: int| 0 <= j < hits.len() ==> !hits[j],
        },
{
    if exists|i: int| 0 <= i < hits.len() && hits[i] {
        let w = choose|i: int| 0 <= i < hits.len() && hits[i];
        assert(exists|i: int| is_first_hit(hits, i)) by {
            lemma_exists_first(hits, w);
        }
        let c = choose|i: int| is_first_hit(hits, i);
        assert(0 <= c < hits.len());
        assert((c as usize) as int == c);
    }
}

proof fn lemma_exists_first(hits: Seq<bool>, w: int)
    requires
        0 <= w < hits.len(),
        hits[w],
    ensures
        exists|i: int| is_first_hit(hits, i),
    decreases w,
{
    if forall|j: int| 0 <= j < w ==> !hits[j] {
        assert(is_first_hit(hits, w));
    } else {
        let v = choose|j: int| 0 <= j < w && hits[j];
        lemma_exists_first(hits, v);
    }
}

/// Index of the first mass that the pointer hits, `hits[i]` telling whether
/// the pointer lies within the pick radius of mass `i`.
pub fn first_hit_index(hits: &Vec<bool>) -> (r: Option<usize>)
    ensures
        r == first_hit(hits@),
        match r {
            Some(i) => is_first_hit(hits@, i as int),
            None => forall|j: int| 0 <= j < hits@.len() ==> !hits@[j],
        },
{
    let mut i: usize = 0;
    while i < hits.len()
        invariant
            i <= hits.len(),
            forall|j: int| 0 <= j < i ==> !hits@[j],
        decreases hits.len() - i,
    {
        if hits[i] {
            proof {
                assert(is_first_hit(hits@, i as int));
                let c = choose|k: int| is_first_hit(hits@, k);
                lemma_first_hit_unique(hits@, i as int, c);
            }
            return Some(i);
        }
        i = i + 1;
    }
    None
}

/// The mass under the pointer, if there is a pointer; see `pointed_mass`.
pub fn pointed_mass_index(hits: &Option<Vec<bool>>) -> (r: Option<usize>)
    ensures
        r == pointed_mass(hits_view(*hits)),
{
    match hits {
        Some(h) => first_hit_index(h),
        None => None,
    }
}

/// What the viewer reads from one frame of pointer input. The geometric
/// tests are made by the caller: `hover_hits[i]` (resp. `press_hits[i]`)
/// tells whether the hovering (resp. pressing) pointer is within the pick
/// radius of mass `i`; the vector is absent when there is no such pointer.
pub struct PointerInput {
    pub hover_hits: Option<Vec<bool>>,
    pub press_hits: Option<Vec<bool>>,
    pub clicked: bool,
    pub dragged: bool,
    pub drag_started: bool,
    pub drag_stopped: bool,
    pub paused: bool,
}

/// `PointerInput` with each hit vector taken as a sequence.
pub struct PointerInputView {
    pub hover_hits: Option<Seq<bool>>,
    pub press_hits: Option<Seq<bool>>,
    pub clicked: bool,
    pub dragged: bool,
    pub drag_started: bool,
    pub drag_stopped: bool,
    pub paused: bool,
}

pub open spec fn hits_view(hits: Option<Vec<bool>>) -> Option<Seq<bool>> {
    match hits {
        Some(h) => Some(h@),
        None => None,
    }
}

impl View for PointerInput {
    type V = PointerInputView;

    open spec fn view(&self) -> PointerInputView {
        PointerInputView {
            hover_hits: hits_view(self.hover_hits),
            press_hits: hits_view(self.press_hits),
            clicked: self.clicked,
            dragged: self.dragged,
            drag_started: self.drag_started,
            drag_stopped: self.drag_stopped,
            paused: self.paused,
        }
    }
}

} // verus!
