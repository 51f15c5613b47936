use vstd::prelude::*;

verus! {

/// A request that the viewer makes of the physics model in answer to
/// pointer input. The caller carries it out; the velocity of the pointer
/// and the positions involved are floating-point values that it computes.
#[derive(Debug, Clone, Copy, PartialEq, Eq, Structural)]
pub enum ModelCommand {
    /// Pin the mass so that the simulation no longer moves it.
    Hold(usize),
    /// Unpin the mass.
    Release(usize),
    /// Give the mass the stored drag velocity.
    Throw(usize),
    /// Move the mass by this frame's pointer motion.
    DragBy(usize),
    /// Move the mass to the world position under the pointer.
    MoveToPointer(usize),
    /// Store this frame's pointer velocity as the drag velocity.
    RecordPointerVel,
    /// Reset the stored drag velocity to zero.
    ZeroDragVel,
}

/// The set of held masses after `cmds` are carried out in order, starting
/// from the set `held`.
pub open spec fn held_after(held: Set<usize>, cmds: Seq<ModelCommand>) -> Set<usize>
    decreases cmds.len(),
{
    if cmds.len() == 0 {
        held
    } else {
        let next = match cmds[0] {
            ModelCommand::Hold(m) => held.insert(m),
            ModelCommand::Release(m) => held.remove(m),
            _ => held,
        };
        held_after(next, cmds.drop_first())
    }
}

/// Carrying out `a` then `b` holds the same masses as carrying out `a + b`.
pub proof fn lemma_held_after_append(held: Set<usize>, a: Seq<ModelCommand>, b: Seq<ModelCommand>)
    ensures
        held_after(held, a + b) == held_after(held_after(held, a), b),
    decreases a.len(),
{
    if a.len() == 0 {
        assert(a + b =~= b);
    } else {
        assert((a + b).drop_first() =~= a.drop_first() + b);
        let next = match a[0] {
            ModelCommand::Hold(m) => held.insert(m),
            ModelCommand::Release(m) => held.remove(m),
            _ => held,
        };
        lemma_held_after_append(next, a.drop_first(), b);
    }
}

/// `Hold` holds the mass, `Release` lets it go, and nothing else changes
/// which masses are held.
pub proof fn lemma_held_after_one(held: Set<usize>, c: ModelCommand)
    ensures
        held_after(held, seq![c]) == match c {
            ModelCommand::Hold(m) => held.insert(m),
            ModelCommand::Release(m) => held.remove(m),
            _ => held,
        },
{
    reveal_with_fuel(held_after, 2);
    assert(seq![c].drop_first() =~= Seq::<ModelCommand>::empty());
}

/// A command occurs in a concatenation exactly when it occurs in one of
/// the parts.
pub proof fn lemma_contains_concat(a: Seq<ModelCommand>, b: Seq<ModelCommand>, x: ModelCommand)
    ensures
        (a + b).contains(x) <==> (a.contains(x) || b.contains(x)),
{
    if (a + b).contains(x) {
        let k = choose|k: int| 0 <= k < (a + b).len() && (a + b)[k] == x;
        if k < a.len() {
            assert(a[k] == x);
        } else {
            assert(b[k - a.len()] == x);
        }
    }
    if a.contains(x) {
        let k = choose|k: int| 0 <= k < a.len() && a[k] == x;
        assert((a + b)[k] == x);
    }
    if b.contains(x) {
        let k = choose|k: int| 0 <= k < b.len() && b[k] == x;
        assert((a + b)[a.len() + k] == x);
    }
}

} // verus!
