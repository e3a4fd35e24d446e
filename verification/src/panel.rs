//! The panel layout tree of the editor window.
//!
//! The window is a binary tree: a leaf shows one panel view, a split divides
//! its area between two children. Dragging a panel edge splits a leaf, and
//! collapsing a split keeps one child and drops the other.
use uuid::Uuid;
use vstd::prelude::*;

verus! {

/// Panel identifiers are `uuid::Uuid` values, carried through unopened.
#[verifier::external_type_specification]
#[verifier::external_body]
pub struct ExUuid(Uuid);

/// The views that a panel can show.
#[derive(Clone, Copy, Debug, PartialEq, Eq, Structural)]
pub enum PanelVariant {
    Timeline,
    Inspector,
    Automation,
    NodeGraph,
    PianoRoll,
    CodeEditor,
    ErrorList,
}

/// Every panel view, in the order of the view menu.
pub open spec fn panel_variants() -> Seq<PanelVariant> {
    seq![
        PanelVariant::Timeline,
        PanelVariant::Inspector,
        PanelVariant::Automation,
        PanelVariant::NodeGraph,
        PanelVariant::PianoRoll,
        PanelVariant::CodeEditor,
        PanelVariant::ErrorList,
    ]
}

/// The title of a panel view.
pub open spec fn panel_variant_label(v: PanelVariant) -> Seq<char> {
    match v {
        PanelVariant::Timeline => "Timeline"@,
        PanelVariant::Inspector => "Inspector"@,
        PanelVariant::Automation => "Automation"@,
        PanelVariant::NodeGraph => "Node Graph"@,
        PanelVariant::PianoRoll => "Piano Roll"@,
        PanelVariant::CodeEditor => "Code Editor"@,
        PanelVariant::ErrorList => "Error List"@,
    }
}

impl Default for PanelVariant {
    fn default() -> (v: Self)
        ensures
            v == PanelVariant::Timeline,
    {
        PanelVariant::Timeline
    }
}

impl PanelVariant {
    /// Returns every panel view, in menu order.
    pub fn all() -> (all: Vec<PanelVariant>)
        ensures
            all@ == panel_variants(),
    {
        vec![
            PanelVariant::Timeline,
            PanelVariant::Inspector,
            PanelVariant::Automation,
            PanelVariant::NodeGraph,
            PanelVariant::PianoRoll,
            PanelVariant::CodeEditor,
            PanelVariant::ErrorList,
        ]
    }

    /// Returns the title of this view.
    pub fn label(&self) -> (label: &'static str)
        ensures
            label@ == panel_variant_label(*self),
    {
        match self {
            PanelVariant::Timeline => "Timeline",
            PanelVariant::Inspector => "Inspector",
            PanelVariant::Automation => "Automation",
            PanelVariant::NodeGraph => "Node Graph",
            PanelVariant::PianoRoll => "Piano Roll",
            PanelVariant::CodeEditor => "Code Editor",
            PanelVariant::ErrorList => "Error List",
        }
    }

    /// Returns the title of this view as an owned string.
    pub fn to_string(&self) -> (s: String)
        ensures
            s@ == panel_variant_label(*self),
    {
        let label = self.label();
        label.to_string()
    }
}

/// Every panel view occurs in the view menu, and none occurs twice.
pub proof fn lemma_panel_variants_complete(v: PanelVariant)
    ensures
        panel_variants().contains(v),
        panel_variants().no_duplicates(),
{
    let s = panel_variants();
    match v {
        PanelVariant::Timeline => assert(s[0] == v),
        PanelVariant::Inspector => assert(s[1] == v),
        PanelVariant::Automation => assert(s[2] == v),
        PanelVariant::NodeGraph => assert(s[3] == v),
        PanelVariant::PianoRoll => assert(s[4] == v),
        PanelVariant::CodeEditor => assert(s[5] == v),
        PanelVariant::ErrorList => assert(s[6] == v),
    }
}

/// How a split divides its area.
#[derive(Clone, Copy, Debug, PartialEq, Eq, Structural)]
pub enum SplitDir {
    /// First child on top, second on bottom.
    Horizontal,
    /// First child on left, second on right.
    Vertical,
}

/// The edge of a panel that the user drags to open a new panel.
#[derive(Clone, Copy, Debug, PartialEq, Eq, Structural)]
pub enum Edge {
    Left,
    Right,
    Top,
    Bottom,
}

/// The split that dragging an edge asks for. `ratio` is the share of the
/// area given to the first child.
#[derive(Debug)]
pub struct SplitAction<R> {
    pub dir: SplitDir,
    pub ratio: R,
    pub new_panel_first: bool,
}

/// The direction of the split opened from an edge: left and right edges
/// split side by side, top and bottom edges split one above the other.
pub open spec fn edge_split_dir(edge: Edge) -> SplitDir {
    match edge {
        Edge::Left | Edge::Right => SplitDir::Vertical,
        Edge::Top | Edge::Bottom => SplitDir::Horizontal,
    }
}

/// Whether the new panel opened from an edge comes first: it does for the
/// left and the top edge.
pub open spec fn edge_new_panel_first(edge: Edge) -> bool {
    edge == Edge::Left || edge == Edge::Top
}

impl<R> SplitAction<R> {
    /// The split asked for by dragging `edge`, giving `ratio` to the first child.
    pub fn for_edge(edge: Edge, ratio: R) -> (action: Self)
        ensures
            action.dir == edge_split_dir(edge),
            action.new_panel_first == edge_new_panel_first(edge),
            action.ratio == ratio,
    {
        let dir = match edge {
            Edge::Left | Edge::Right => SplitDir::Vertical,
            Edge::Top | Edge::Bottom => SplitDir::Horizontal,
        };
        let new_panel_first = match edge {
            Edge::Left | Edge::Top => true,
            Edge::Right | Edge::Bottom => false,
        };
        SplitAction { dir, ratio, new_panel_first }
    }
}

/// A node of the panel layout tree.
#[derive(Debug)]
pub enum PanelNode<R> {
    Leaf(PanelVariant, Uuid),
    Split { dir: SplitDir, ratio: R, first: Box<PanelNode<R>>, second: Box<PanelNode<R>> },
}

impl<R> PanelNode<R> {
    /// The identifiers of the leaves, from the first child to the second.
    pub open spec fn ids(self) -> Seq<Uuid>
        decreases self,
    {
        match self {
            PanelNode::Leaf(_, id) => seq![id],
            PanelNode::Split { first, second, .. } => first.ids() + second.ids(),
        }
    }
}

impl<R> PanelNode<R> {
    /// A single timeline panel with identifier `id`: the layout a new
    /// editor window starts with.
    pub fn timeline_leaf(id: Uuid) -> (node: Self)
        ensures
            node == PanelNode::<R>::Leaf(PanelVariant::Timeline, id),
    {
        PanelNode::Leaf(PanelVariant::Timeline, id)
    }
}

/// The tree after splitting the leaf `node` as `action` asks, the new panel
/// being a timeline with identifier `new_id`.
pub open spec fn split_leaf_spec<R>(node: PanelNode<R>, action: SplitAction<R>, new_id: Uuid) -> PanelNode<R> {
    let fresh = PanelNode::<R>::Leaf(PanelVariant::Timeline, new_id);
    if action.new_panel_first {
        PanelNode::Split {
            dir: action.dir,
            ratio: action.ratio,
            first: Box::new(fresh),
            second: Box::new(node),
        }
    } else {
        PanelNode::Split {
            dir: action.dir,
            ratio: action.ratio,
            first: Box::new(node),
            second: Box::new(fresh),
        }
    }
}

/// The tree left after collapsing `node`, keeping the first child when
/// `keep_first` holds and the second otherwise, with the identifiers of the
/// panels removed. A leaf has nothing to collapse and stays as it is.
pub open spec fn collapse_spec<R>(node: PanelNode<R>, keep_first: bool) -> (PanelNode<R>, Seq<Uuid>) {
    match node {
        PanelNode::Split { first, second, .. } => if keep_first {
            (*first, second.ids())
        } else {
            (*second, first.ids())
        },
        PanelNode::Leaf(_, _) => (node, Seq::empty()),
    }
}

/// Collects the identifiers of the leaves of `node`, in tree order.
pub fn collect_panel_ids<R>(node: &PanelNode<R>) -> (ids: Vec<Uuid>)
    ensures
        ids@ == node.ids(),
    decreases node,
{
    match node {
        PanelNode::Leaf(_, node_id) => {
            let mut ids = Vec::new();
            ids.push(*node_id);
            ids
        },
        PanelNode::Split { first, second, .. } => {
            let mut ids = collect_panel_ids(first);
            let mut rest = collect_panel_ids(second);
            ids.append(&mut rest);
            ids
        },
    }
}

/// Splits the leaf `node` as `action` asks, opening a timeline panel with
/// identifier `new_id` beside it.
pub fn split_panel_with_id<R>(node: PanelNode<R>, action: SplitAction<R>, new_id: Uuid) -> (split: PanelNode<R>)
    requires
        node is Leaf,
    ensures
        split == split_leaf_spec(node, action, new_id),
{
    let fresh = PanelNode::Leaf(PanelVariant::Timeline, new_id);
    if action.new_panel_first {
        PanelNode::Split {
            dir: action.dir,
            ratio: action.ratio,
            first: Box::new(fresh),
            second: Box::new(node),
        }
    } else {
        PanelNode::Split {
            dir: action.dir,
            ratio: action.ratio,
            first: Box::new(node),
            second: Box::new(fresh),
        }
    }
}

/// Collapses the split `node`, keeping its first child when `keep_first`
/// holds and its second otherwise, and returns the tree kept with the
/// identifiers of the panels that were dropped. A leaf is returned as it is.
pub fn collapse_panel<R>(node: PanelNode<R>, keep_first: bool) -> (res: (PanelNode<R>, Vec<Uuid>))
    ensures
        (res.0, res.1@) == collapse_spec(node, keep_first),
{
    match node {
        PanelNode::Split { first, second, .. } => {
            if keep_first {
                let removed = collect_panel_ids(&*second);
                (*first, removed)
            } else {
                let removed = collect_panel_ids(&*first);
                (*second, removed)
            }
        },
        PanelNode::Leaf(view, id) => (PanelNode::Leaf(view, id), Vec::new()),
    }
}

/// Splitting a leaf gives a tree whose panels are the old one and the new
/// one, the new one on the side that the split action names.
pub proof fn lemma_split_ids<R>(view: PanelVariant, id: Uuid, action: SplitAction<R>, new_id: Uuid)
    ensures
        split_leaf_spec(PanelNode::<R>::Leaf(view, id), action, new_id).ids() == if action.new_panel_first {
            seq![new_id, id]
        } else {
            seq![id, new_id]
        },
{
    let leaf = PanelNode::<R>::Leaf(view, id);
    let fresh = PanelNode::<R>::Leaf(PanelVariant::Timeline, new_id);
    assert(leaf.ids() == seq![id]);
    assert(fresh.ids() == seq![new_id]);
    let s = split_leaf_spec(leaf, action, new_id);
    if action.new_panel_first {
        assert(s.ids() == fresh.ids() + leaf.ids());
        assert(fresh.ids() + leaf.ids() =~= seq![new_id, id]);
    } else {
        assert(s.ids() == leaf.ids() + fresh.ids());
        assert(leaf.ids() + fresh.ids() =~= seq![id, new_id]);
    }
}

/// Collapsing a freshly split leaf towards the old panel undoes the split:
/// the old leaf comes back and only the new panel is dropped.
pub proof fn lemma_collapse_undoes_split<R>(view: PanelVariant, id: Uuid, action: SplitAction<R>, new_id: Uuid)
    ensures
        collapse_spec(
            split_leaf_spec(PanelNode::<R>::Leaf(view, id), action, new_id),
            !action.new_panel_first,
        ) == (PanelNode::<R>::Leaf(view, id), seq![new_id]),
{
    let fresh = PanelNode::<R>::Leaf(PanelVariant::Timeline, new_id);
    assert(fresh.ids() == seq![new_id]);
}

/// Collapsing a split loses no panel: the panels kept and the panels dropped
/// are together those of the split, in tree order.
pub proof fn lemma_collapse_keeps_ids<R>(node: PanelNode<R>, keep_first: bool)
    requires
        node is Split,
    ensures
        keep_first ==> node.ids() == collapse_spec(node, keep_first).0.ids() + collapse_spec(
            node,
            keep_first,
        ).1,
        !keep_first ==> node.ids() == collapse_spec(node, keep_first).1 + collapse_spec(
            node,
            keep_first,
        ).0.ids(),
{
}

/// The panel opened by dragging an edge lies on that edge's side: first for
/// the left and top edges, second for the right and bottom edges, and the
/// split runs across the dragged edge.
pub proof fn lemma_new_panel_on_dragged_edge<R>(view: PanelVariant, id: Uuid, edge: Edge, ratio: R, new_id: Uuid)
    ensures
        ({
            let action = SplitAction { dir: edge_split_dir(edge), ratio, new_panel_first: edge_new_panel_first(edge) };
            let s = split_leaf_spec(PanelNode::<R>::Leaf(view, id), action, new_id);
            &&& (edge == Edge::Left || edge == Edge::Top) ==> s->first == Box::new(PanelNode::<R>::Leaf(PanelVariant::Timeline, new_id))
            &&& (edge == Edge::Right || edge == Edge::Bottom) ==> s->second == Box::new(PanelNode::<R>::Leaf(PanelVariant::Timeline, new_id))
            &&& (edge == Edge::Left || edge == Edge::Right) <==> s->dir == SplitDir::Vertical
        }),
{
}

} // verus!
