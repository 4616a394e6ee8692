use persway::command::{decimal_text, Command};
use persway::events::{react, Reaction, WindowChange, WmEvent, WorkspaceChange};
use persway::layout::{
    advance, get_focused_workspace, plan_layout, LayoutAction, LayoutError, LayoutPlan,
    LayoutReply, LayoutStage, WorkspaceInfo,
};
use persway::shutdown::{ExitConfig, TerminationSignal};
use persway::tree::{exceeds_full_size, Node, NodeKind, NodeLayout};

fn node(id: i64, kind: NodeKind, layout: NodeLayout, focused: bool, nodes: Vec<Node>) -> Node {
    let focus = nodes.iter().map(|n| n.id).collect();
    Node {
        id,
        kind,
        layout,
        focused,
        percent: None,
        focus,
        nodes,
        floating_nodes: Vec::new(),
    }
}

fn window(id: i64, focused: bool) -> Node {
    node(id, NodeKind::Con, NodeLayout::Unset, focused, Vec::new())
}

/// Root, one output, and the given workspace on it.
fn root_with(ws: Node) -> Node {
    let output = node(100, NodeKind::Output, NodeLayout::Output, false, vec![ws]);
    node(101, NodeKind::Root, NodeLayout::SplitH, false, vec![output])
}

/// Runs a whole pass, answering with `tree` and `workspaces`, and returns the
/// command texts in order and the outcome.
fn run_pass(tree: Node, workspaces: Vec<WorkspaceInfo>) -> (Vec<String>, Result<(), LayoutError>) {
    let mut tree = Some(tree);
    let mut workspaces = Some(workspaces);
    let mut stage = LayoutStage::Start;
    let mut reply = LayoutReply::Started;
    let mut sent = Vec::new();
    loop {
        let (next, action) = advance(stage, reply);
        stage = next;
        reply = match action {
            LayoutAction::FetchTree => LayoutReply::Tree(tree.take().expect("tree asked twice")),
            LayoutAction::Run(c) => {
                sent.push(c.to_text());
                LayoutReply::CommandDone
            }
            LayoutAction::FetchWorkspaces => {
                LayoutReply::Workspaces(workspaces.take().expect("listing asked twice"))
            }
            LayoutAction::Finish => return (sent, Ok(())),
            LayoutAction::Fail(e) => return (sent, Err(e)),
        };
    }
}

fn one_window_tree() -> Node {
    let ws = node(1, NodeKind::Workspace, NodeLayout::SplitH, false, vec![window(2, true)]);
    root_with(ws)
}

fn two_window_tree() -> Node {
    let ws = node(
        3,
        NodeKind::Workspace,
        NodeLayout::SplitH,
        false,
        vec![window(4, false), window(5, true)],
    );
    let mut t = root_with(ws);
    t.nodes[0].nodes[0].focus = vec![5, 4];
    t
}

#[test]
fn first_window_gets_gap_and_mark() {
    let (sent, outcome) = run_pass(one_window_tree(), Vec::new());
    assert_eq!(sent, vec!["gaps horizontal current set 752".to_string(), "mark --add main_1".to_string()]);
    assert_eq!(outcome, Ok(()));
}

#[test]
fn second_window_docks_and_resizes_main() {
    let listing = vec![WorkspaceInfo { id: 1, focused: false }, WorkspaceInfo { id: 3, focused: true }];
    let (sent, outcome) = run_pass(two_window_tree(), listing);
    assert_eq!(
        sent,
        vec![
            "gaps right current set 0".to_string(),
            "[con_mark=\"main_3\"] resize set 1920px".to_string(),
        ]
    );
    assert_eq!(outcome, Ok(()));
}

#[test]
fn resize_uses_listing_not_tree_parent() {
    let listing = vec![WorkspaceInfo { id: 42, focused: true }];
    let (sent, _) = run_pass(two_window_tree(), listing);
    assert_eq!(sent[1], "[con_mark=\"main_42\"] resize set 1920px");
}

#[test]
fn nested_split_parent_docks() {
    let inner = node(7, NodeKind::Con, NodeLayout::SplitV, false, vec![window(8, true)]);
    let ws = node(6, NodeKind::Workspace, NodeLayout::SplitH, false, vec![inner]);
    assert_eq!(plan_layout(&root_with(ws)), Ok(LayoutPlan::DockSecondary));
}

#[test]
fn interrupt_sends_exit_command_then_exits_cleanly() {
    let config = ExitConfig::new(Some("opacity 1".to_string()));
    let plan = config.on_signal(TerminationSignal::Interrupt);
    assert_eq!(plan.command, "opacity 1");
    assert_eq!(plan.status, 0);
}

#[test]
fn missing_exit_command_is_empty() {
    let config = ExitConfig::new(None);
    for s in [
        TerminationSignal::Hangup,
        TerminationSignal::Interrupt,
        TerminationSignal::Quit,
        TerminationSignal::Terminate,
    ] {
        let plan = config.on_signal(s);
        assert_eq!(plan.command, "");
        assert_eq!(plan.status, 0);
    }
}

#[test]
fn no_focused_node_fails() {
    let ws = node(1, NodeKind::Workspace, NodeLayout::SplitH, false, vec![window(2, false)]);
    let (sent, outcome) = run_pass(root_with(ws), Vec::new());
    assert!(sent.is_empty());
    assert_eq!(outcome, Err(LayoutError::NoFocusedNode));
    assert_eq!(LayoutError::NoFocusedNode.message(), "No focused node");
}

#[test]
fn focused_root_has_no_parent() {
    let t = node(1, NodeKind::Root, NodeLayout::SplitH, true, Vec::new());
    assert_eq!(plan_layout(&t), Err(LayoutError::NoParent));
    assert_eq!(LayoutError::NoParent.message(), "No parent");
}

#[test]
fn no_focused_workspace_fails_after_gap() {
    let listing = vec![WorkspaceInfo { id: 3, focused: false }];
    let (sent, outcome) = run_pass(two_window_tree(), listing);
    assert_eq!(sent, vec!["gaps right current set 0".to_string()]);
    assert_eq!(outcome, Err(LayoutError::NoFocusedWorkspace));
}

#[test]
fn floating_focus_sends_nothing() {
    let mut t = two_window_tree();
    t.nodes[0].nodes[0].nodes[1].kind = NodeKind::FloatingCon;
    let (sent, outcome) = run_pass(t, vec![WorkspaceInfo { id: 3, focused: true }]);
    assert!(sent.is_empty());
    assert_eq!(outcome, Ok(()));
}

#[test]
fn floating_child_is_reached_through_focus() {
    let mut ws = node(1, NodeKind::Workspace, NodeLayout::SplitH, false, vec![window(2, false)]);
    let mut float = window(9, true);
    float.kind = NodeKind::FloatingCon;
    ws.floating_nodes.push(float);
    ws.focus = vec![9, 2];
    let t = root_with(ws);
    assert_eq!(t.find_focused().map(|n| n.id), Some(9));
    assert_eq!(plan_layout(&t), Ok(LayoutPlan::Leave));
}

#[test]
fn oversized_focus_sends_nothing() {
    let mut t = one_window_tree();
    t.nodes[0].nodes[0].nodes[0].percent = Some(1.5f64.to_bits());
    let (sent, outcome) = run_pass(t, Vec::new());
    assert!(sent.is_empty());
    assert_eq!(outcome, Ok(()));
}

#[test]
fn full_share_is_not_oversized() {
    assert!(!exceeds_full_size(Some(1.0f64.to_bits())));
    assert!(!exceeds_full_size(Some(0.5f64.to_bits())));
    assert!(!exceeds_full_size(None));
    assert!(!exceeds_full_size(Some(f64::NAN.to_bits())));
    assert!(!exceeds_full_size(Some((-2.0f64).to_bits())));
    assert!(exceeds_full_size(Some(1.0000001f64.to_bits())));
    assert!(exceeds_full_size(Some(f64::INFINITY.to_bits())));
}

#[test]
fn stacked_or_tabbed_parent_sends_nothing() {
    for layout in [NodeLayout::Stacked, NodeLayout::Tabbed] {
        let mut t = two_window_tree();
        t.nodes[0].nodes[0].layout = layout;
        let (sent, outcome) = run_pass(t, vec![WorkspaceInfo { id: 3, focused: true }]);
        assert!(sent.is_empty());
        assert_eq!(outcome, Ok(()));
    }
}

#[test]
fn same_snapshot_gives_same_commands() {
    let listing = vec![WorkspaceInfo { id: 3, focused: true }];
    let first = run_pass(two_window_tree(), listing.clone());
    let second = run_pass(two_window_tree(), listing);
    assert_eq!(first, second);
    assert_eq!(first.0.len(), 2);
    assert_eq!(run_pass(one_window_tree(), Vec::new()), run_pass(one_window_tree(), Vec::new()));
}

#[test]
fn workspace_init_sets_gap() {
    let r = react(WmEvent::Workspace(WorkspaceChange::Init));
    assert_eq!(r, Reaction::Run(Command::GapsHorizontal));
    assert_eq!(Command::GapsHorizontal.to_text(), "gaps horizontal current set 752");
}

#[test]
fn event_filtering() {
    assert_eq!(react(WmEvent::Window(WindowChange::New)), Reaction::Autolayout);
    assert_eq!(react(WmEvent::Window(WindowChange::Close)), Reaction::Autolayout);
    assert_eq!(react(WmEvent::Window(WindowChange::Other)), Reaction::Ignore);
    assert_eq!(react(WmEvent::Workspace(WorkspaceChange::Other)), Reaction::Ignore);
    assert_eq!(react(WmEvent::Unsubscribed), Reaction::Unexpected);
}

#[test]
fn reply_out_of_sequence_fails() {
    let (stage, action) = advance(LayoutStage::Start, LayoutReply::CommandDone);
    assert_eq!(stage, LayoutStage::Done);
    assert_eq!(action, LayoutAction::Fail(LayoutError::OutOfSequence));
}

#[test]
fn first_focused_workspace_wins() {
    let listing = vec![
        WorkspaceInfo { id: 1, focused: false },
        WorkspaceInfo { id: 2, focused: true },
        WorkspaceInfo { id: 3, focused: true },
    ];
    assert_eq!(get_focused_workspace(&listing), Ok(WorkspaceInfo { id: 2, focused: true }));
    assert_eq!(get_focused_workspace(&Vec::new()), Err(LayoutError::NoFocusedWorkspace));
}

#[test]
fn decimal_text_values() {
    assert_eq!(decimal_text(0), "0");
    assert_eq!(decimal_text(7), "7");
    assert_eq!(decimal_text(1920), "1920");
    assert_eq!(decimal_text(-45), "-45");
    assert_eq!(decimal_text(i64::MAX), i64::MAX.to_string());
    assert_eq!(decimal_text(i64::MIN), i64::MIN.to_string());
    assert_eq!(Command::MarkMain(-3).to_text(), "mark --add main_-3");
    assert_eq!(Command::ResizeMain(10).to_text(), "[con_mark=\"main_10\"] resize set 1920px");
    assert_eq!(Command::GapsRightZero.to_text(), "gaps right current set 0");
}
