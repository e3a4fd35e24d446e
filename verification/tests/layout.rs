use kadent::panel::{
    collapse_panel, collect_panel_ids, split_panel_with_id, Edge, PanelNode, PanelVariant,
    SplitAction, SplitDir,
};
use uuid::Uuid;

fn leaf(view: PanelVariant, n: u128) -> PanelNode<f32> {
    PanelNode::Leaf(view, Uuid::from_u128(n))
}

#[test]
fn split_actions_follow_the_dragged_edge() {
    let left = SplitAction::for_edge(Edge::Left, 0.3f32);
    assert_eq!(left.dir, SplitDir::Vertical);
    assert!(left.new_panel_first);
    assert_eq!(left.ratio, 0.3);
    let right = SplitAction::for_edge(Edge::Right, 0.7f32);
    assert_eq!(right.dir, SplitDir::Vertical);
    assert!(!right.new_panel_first);
    let top = SplitAction::for_edge(Edge::Top, 0.5f32);
    assert_eq!(top.dir, SplitDir::Horizontal);
    assert!(top.new_panel_first);
    let bottom = SplitAction::for_edge(Edge::Bottom, 0.5f32);
    assert_eq!(bottom.dir, SplitDir::Horizontal);
    assert!(!bottom.new_panel_first);
}

#[test]
fn split_opens_timeline_beside_leaf() {
    let action = SplitAction::for_edge(Edge::Left, 0.25f32);
    let split = split_panel_with_id(leaf(PanelVariant::PianoRoll, 1), action, Uuid::from_u128(2));
    match &split {
        PanelNode::Split { dir, ratio, first, second } => {
            assert_eq!(*dir, SplitDir::Vertical);
            assert_eq!(*ratio, 0.25);
            assert!(matches!(**first, PanelNode::Leaf(PanelVariant::Timeline, id) if id == Uuid::from_u128(2)));
            assert!(matches!(**second, PanelNode::Leaf(PanelVariant::PianoRoll, id) if id == Uuid::from_u128(1)));
        }
        _ => panic!("expected a split"),
    }
    assert_eq!(collect_panel_ids(&split), vec![Uuid::from_u128(2), Uuid::from_u128(1)]);
}

#[test]
fn collapse_undoes_split() {
    let action = SplitAction::for_edge(Edge::Right, 0.5f32);
    let split = split_panel_with_id(leaf(PanelVariant::NodeGraph, 5), action, Uuid::from_u128(6));
    let (kept, removed) = collapse_panel(split, true);
    assert!(matches!(kept, PanelNode::Leaf(PanelVariant::NodeGraph, id) if id == Uuid::from_u128(5)));
    assert_eq!(removed, vec![Uuid::from_u128(6)]);
}

#[test]
fn collapse_keeps_every_id() {
    let inner = split_panel_with_id(
        leaf(PanelVariant::Automation, 1),
        SplitAction::for_edge(Edge::Top, 0.5f32),
        Uuid::from_u128(2),
    );
    let tree = PanelNode::Split {
        dir: SplitDir::Vertical,
        ratio: 0.5f32,
        first: Box::new(leaf(PanelVariant::ErrorList, 3)),
        second: Box::new(inner),
    };
    assert_eq!(
        collect_panel_ids(&tree),
        vec![Uuid::from_u128(3), Uuid::from_u128(2), Uuid::from_u128(1)]
    );
    let (kept, removed) = collapse_panel(tree, true);
    assert!(matches!(kept, PanelNode::Leaf(PanelVariant::ErrorList, _)));
    assert_eq!(removed, vec![Uuid::from_u128(2), Uuid::from_u128(1)]);
}

#[test]
fn collapse_leaf_is_noop() {
    let (kept, removed) = collapse_panel(leaf(PanelVariant::CodeEditor, 4), false);
    assert!(matches!(kept, PanelNode::Leaf(PanelVariant::CodeEditor, id) if id == Uuid::from_u128(4)));
    assert!(removed.is_empty());
}

#[test]
fn timeline_leaf_layout() {
    let node: PanelNode<f32> = PanelNode::timeline_leaf(Uuid::from_u128(42));
    assert!(matches!(node, PanelNode::Leaf(PanelVariant::Timeline, id) if id == Uuid::from_u128(42)));
    assert_eq!(collect_panel_ids(&node), vec![Uuid::from_u128(42)]);
}
