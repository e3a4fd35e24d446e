//! Re-wiring edges of the node graph by dragging them.
//!
//! Dragging a connected input port lifts its edge: a ghost edge follows the
//! cursor from the source output. Releasing it over an input port connects
//! it there; releasing it over empty canvas removes the edge. `N` is the
//! type of node identifiers; a port is a node and a port index.
use vstd::prelude::*;

verus! {

/// Where the mouse was released, as the node graph view found it.
#[derive(Clone, Copy, Debug, PartialEq, Eq)]
pub enum ReleaseTarget<N> {
    /// The pointer position or the track's graph could not be read.
    Unavailable,
    /// Over no input port.
    Empty,
    /// Over input port `port` of node `node` (the first such port in node
    /// order).
    Port(N, usize),
}

/// An edit of the node graph.
#[derive(Debug, PartialEq, Eq)]
pub enum EdgeAction<N> {
    /// Remove the edge into input port `to`.
    Remove { to: (N, usize) },
    /// Connect output port `from` to input port `to`.
    Add { from: (N, usize), to: (N, usize) },
}

/// Removal of the lifted edge, when an edge was lifted.
pub open spec fn remove_lifted<N>(dragged_edge: Option<(N, usize, N, usize)>) -> Seq<EdgeAction<N>> {
    match dragged_edge {
        Some(e) => seq![EdgeAction::Remove { to: (e.2, e.3) }],
        None => Seq::empty(),
    }
}

/// The edits made when the mouse is released (or not) this frame, and
/// whether the ghost edge is cleared.
pub open spec fn ghost_release_spec<N>(
    released: bool,
    target: ReleaseTarget<N>,
    ghost_from: (N, usize),
    dragged_edge: Option<(N, usize, N, usize)>,
) -> (Seq<EdgeAction<N>>, bool) {
    if !released {
        (Seq::empty(), false)
    } else {
        match target {
            ReleaseTarget::Unavailable => (Seq::empty(), true),
            ReleaseTarget::Empty => (remove_lifted(dragged_edge), true),
            ReleaseTarget::Port(node, port) => (
                remove_lifted(dragged_edge).push(EdgeAction::Add { from: ghost_from, to: (node, port) }),
                true,
            ),
        }
    }
}

/// Decides what releasing a ghost edge does. `ghost_from` is the output port
/// the ghost edge starts at and `dragged_edge` the edge it was lifted from,
/// as `(from node, from port, to node, to port)`.
pub fn ghost_release_actions<N: Copy>(
    released: bool,
    target: ReleaseTarget<N>,
    ghost_from: (N, usize),
    dragged_edge: Option<(N, usize, N, usize)>,
) -> (res: (Vec<EdgeAction<N>>, bool))
    ensures
        (res.0@, res.1) == ghost_release_spec(released, target, ghost_from, dragged_edge),
{
    let mut actions: Vec<EdgeAction<N>> = Vec::new();
    if !released {
        return (actions, false);
    }
    match target {
        ReleaseTarget::Unavailable => {},
        ReleaseTarget::Empty => {
            if let Some(old_edge) = dragged_edge {
                actions.push(EdgeAction::Remove { to: (old_edge.2, old_edge.3) });
            }
        },
        ReleaseTarget::Port(node, port) => {
            if let Some(old_edge) = dragged_edge {
                actions.push(EdgeAction::Remove { to: (old_edge.2, old_edge.3) });
            }
            actions.push(EdgeAction::Add { from: ghost_from, to: (node, port) });
        },
    }
    assert(actions@ =~= ghost_release_spec(released, target, ghost_from, dragged_edge).0);
    (actions, true)
}

/// Moves the ghost edge along with the cursor, or drops it when the mouse
/// is released. `ghost` holds the source port and the cursor position,
/// `dragged` the edge it was lifted from.
pub fn update_edge_drag<G: Copy, P: Copy, D>(
    ghost: &mut Option<(G, P)>,
    dragged: &mut Option<D>,
    cursor: Option<P>,
    released: bool,
)
    ensures
        *old(ghost) is None ==> *final(ghost) == *old(ghost) && *final(dragged) == *old(dragged),
        *old(ghost) is Some && released ==> *final(ghost) is None && *final(dragged) is None,
        *old(ghost) is Some && !released ==> *final(dragged) == *old(dragged) && *final(ghost) == match cursor {
            Some(c) => Some(((old(ghost)->0).0, c)),
            None => *old(ghost),
        },
{
    let current = match ghost {
        Some(g) => *g,
        None => {
            return ;
        },
    };
    if released {
        *ghost = None;
        *dragged = None;
        return ;
    }
    if let Some(c) = cursor {
        *ghost = Some((current.0, c));
    }
}

/// Dropping a lifted edge on a port moves it there: the old edge goes
/// first, then the new one from the same source; dropping it elsewhere only
/// removes it.
pub proof fn lemma_release_moves_edge<N>(ghost_from: (N, usize), old_edge: (N, usize, N, usize), node: N, port: usize)
    ensures
        ghost_release_spec(true, ReleaseTarget::Port(node, port), ghost_from, Some(old_edge)).0 == seq![
            EdgeAction::Remove { to: (old_edge.2, old_edge.3) },
            EdgeAction::Add { from: ghost_from, to: (node, port) },
        ],
        ghost_release_spec(true, ReleaseTarget::<N>::Empty, ghost_from, Some(old_edge)).0 == seq![
            EdgeAction::Remove { to: (old_edge.2, old_edge.3) },
        ],
{
    assert(ghost_release_spec(true, ReleaseTarget::Port(node, port), ghost_from, Some(old_edge)).0 =~= seq![
        EdgeAction::Remove { to: (old_edge.2, old_edge.3) },
        EdgeAction::Add { from: ghost_from, to: (node, port) },
    ]);
}

} // verus!
